use vstd::prelude::*;

verus! {

/// Which hand a physical key is struck with.
#[derive(Clone, Copy, Debug, PartialEq, Eq, Structural)]
pub enum Hand {
    Left,
    Right,
}

/// Finger within one hand; together with the hand it yields a finger id in 0..8.
#[derive(Clone, Copy, Debug, PartialEq, Eq, Structural)]
pub enum Finger {
    Ring,
    Middle,
    Index,
    Thumb,
}

/// Position of a finger within its hand's four-finger group.
pub open spec fn finger_offset(f: Finger) -> int {
    match f {
        Finger::Ring => 0,
        Finger::Middle => 1,
        Finger::Index => 2,
        Finger::Thumb => 3,
    }
}

/// The left hand's fingers come first in the finger id numbering.
pub open spec fn hand_offset(h: Hand) -> int {
    match h {
        Hand::Left => 0,
        Hand::Right => 4,
    }
}

} // verus!
