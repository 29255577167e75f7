use vstd::prelude::*;

verus! {

/// Per-finger state threaded through one evaluation pass: the finger's home
/// position, its current position, and the total distance it has travelled.
/// Rebuilt for every evaluation; never reused across candidates.
#[derive(Clone, Copy, Debug)]
pub struct FingerListItem {
    pub home_x: i32,
    pub home_y: i32,
    pub current_x: i32,
    pub current_y: i32,
    pub distance_counter: u64,
}

impl Default for FingerListItem {
    /// The all-zero state a finger starts from before its home slot is
    /// applied.
    fn default() -> (r: Self)
        ensures
            r == default_finger(),
    {
        FingerListItem { home_x: 0, home_y: 0, current_x: 0, current_y: 0, distance_counter: 0 }
    }
}

/// The all-zero state a finger starts from before its home slot is applied.
pub open spec fn default_finger() -> FingerListItem {
    FingerListItem { home_x: 0, home_y: 0, current_x: 0, current_y: 0, distance_counter: 0 }
}

/// One entry per finger id: {Ring, Middle, Index, Thumb} x {Left, Right}.
pub open spec fn default_finger_list() -> Seq<FingerListItem> {
    Seq::new(8, |i: int| default_finger())
}

/// Fresh per-finger state for all 8 fingers, ready for home initialization.
pub fn get_finger_list() -> (fingers: Vec<FingerListItem>)
    ensures
        fingers@ =~= default_finger_list(),
{
    let mut fingers: Vec<FingerListItem> = Vec::new();
    let mut i: usize = 0;
    while i < 8
        invariant
            i <= 8,
            fingers@.len() == i as int,
            forall|j: int| 0 <= j < i ==> fingers@[j] == default_finger(),
        decreases 8 - i,
    {
        fingers.push(FingerListItem {
            home_x: 0,
            home_y: 0,
            current_x: 0,
            current_y: 0,
            distance_counter: 0,
        });
        i = i + 1;
    }
    fingers
}

} // verus!
