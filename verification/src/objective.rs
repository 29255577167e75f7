use vstd::prelude::*;

use crate::finger_list::{default_finger_list, get_finger_list, FingerListItem};
use crate::layout_map::{
    key_finger_id, layout_coords_ok, layout_wf, KeyboardKey, KeyboardRow, COORDINATE_LIMIT,
};
use crate::models::Hand;

verus! {

/// Exponent applied to the per-press travel distance; at 2 the distance
/// penalty would be squared.  Tunable, shipped at 1.
pub const DISTANCE_EFFORT: u32 = 1;

/// Penalty charged when consecutive presses use different fingers.
/// Tunable, shipped at 1.
pub const DOUBLE_FINGER_EFFORT: u32 = 1;

/// Penalty charged when a press switches back from the right hand.
/// Tunable, shipped at 1.
pub const DOUBLE_HAND_EFFORT: u32 = 1;

/// Largest per-press travel distance a well-formed layout allows.
pub const MAX_PRESS_DISTANCE: u32 = 200000;

/// Longest key-press sequence the evaluator accepts; keeps every finger's
/// distance counter inside `u64` over a whole pass.
pub const MAX_KEY_PRESSES: u64 = 0x400_0000_0000;

/// The penalty ingredients of one key press.  Combining them with the
/// real-valued effort weights and the per-finger and per-row effort tables
/// is the caller's final, purely arithmetic step.
#[derive(Clone, Copy, Debug, PartialEq, Eq, Structural)]
pub struct PressRecord {
    pub finger_id: usize,
    pub row: KeyboardRow,
    pub distance: u32,
    pub distance_penalty: u64,
    pub double_finger_penalty: u32,
    pub double_hand_penalty: u32,
}

pub open spec fn abs_diff_int(a: int, b: int) -> int {
    if a >= b {
        a - b
    } else {
        b - a
    }
}

/// Manhattan travel from a finger's current position to a key.
pub open spec fn key_distance(key: KeyboardKey, finger: FingerListItem) -> int {
    abs_diff_int(key.x as int, finger.current_x as int) + abs_diff_int(
        key.y as int,
        finger.current_y as int,
    )
}

pub open spec fn spec_pow(base: nat, exp: nat) -> nat
    decreases exp,
{
    if exp == 0 {
        1
    } else {
        base * spec_pow(base, (exp - 1) as nat)
    }
}

/// The distance penalty: travel distance raised to the configured exponent.
fn distance_pow(base: u32, exp: u32) -> (r: u64)
    requires
        base <= MAX_PRESS_DISTANCE,
        exp <= 2,
    ensures
        r == spec_pow(base as nat, exp as nat),
{
    proof {
        reveal_with_fuel(spec_pow, 3);
    }
    if exp == 0 {
        assert(spec_pow(base as nat, 0) == 1);
        1
    } else if exp == 1 {
        assert(spec_pow(base as nat, 1) == base as nat * 1);
        base as u64
    } else {
        assert(spec_pow(base as nat, 2) == base as nat * (base as nat * 1));
        proof {
            assert((base as u64) * (base as u64) <= 40000000000) by (nonlinear_arith)
                requires
                    base <= 200000u32,
            ;
        }
        (base as u64) * (base as u64)
    }
}

/// The double-finger penalty applies when a press with a nonzero travel
/// distance uses a different finger than the previous press.  A last-finger
/// value of 0 doubles as the "no press yet" sentinel, so a run that starts
/// on finger 0, and any press directly after one on finger 0, is exempt.
pub open spec fn spec_double_finger(finger_id: int, last_finger: int, distance: int) -> u32 {
    if finger_id != last_finger && last_finger != 0 && distance != 0 {
        DOUBLE_FINGER_EFFORT
    } else {
        0
    }
}

/// The double-hand penalty applies when a press switches back from the
/// right hand.  Before any press is processed the last hand is absent, and
/// absence behaves like the left hand here: the very first press never
/// incurs this penalty, whichever hand it uses.
pub open spec fn spec_double_hand(hand: Hand, last_hand: Option<Hand>) -> u32 {
    match last_hand {
        Option::None => 0,
        Option::Some(lh) => if hand != lh && lh != Hand::Left {
            DOUBLE_HAND_EFFORT
        } else {
            0
        },
    }
}

/// Every stored finger coordinate lies inside the proved range.
pub open spec fn fingers_ok(fingers: Seq<FingerListItem>) -> bool {
    forall|i: int|
        0 <= i < fingers.len() ==> (0 <= #[trigger] fingers[i].home_x <= COORDINATE_LIMIT && 0
            <= fingers[i].home_y <= COORDINATE_LIMIT && 0 <= fingers[i].current_x
            <= COORDINATE_LIMIT && 0 <= fingers[i].current_y <= COORDINATE_LIMIT)
}

/// A home slot seeds its finger's home and current position; other slots
/// leave the finger state unchanged.
pub open spec fn spec_apply_home(fingers: Seq<FingerListItem>, key: KeyboardKey) -> Seq<
    FingerListItem,
> {
    if key.home {
        let fid = key_finger_id(key);
        fingers.update(
            fid,
            FingerListItem {
                home_x: key.x,
                home_y: key.y,
                current_x: key.x,
                current_y: key.y,
                distance_counter: fingers[fid].distance_counter,
            },
        )
    } else {
        fingers
    }
}

/// The finger states at the start of an evaluation pass: every finger
/// placed on the home slot its layout assigns it.
pub open spec fn spec_init_fingers(layout: Seq<KeyboardKey>) -> Seq<FingerListItem>
    decreases layout.len(),
{
    if layout.len() == 0 {
        default_finger_list()
    } else {
        spec_apply_home(spec_init_fingers(layout.drop_last()), layout.last())
    }
}

/// Seed each finger's home and current position from the layout's home
/// slots, walking the layout in order.
fn init_finger_list(layout_map: &Vec<KeyboardKey>) -> (fingers: Vec<FingerListItem>)
    ensures
        fingers@ == spec_init_fingers(layout_map@),
        fingers@.len() == 8,
        layout_coords_ok(layout_map@) ==> fingers_ok(fingers@),
        forall|f: int| 0 <= f < 8 ==> #[trigger] fingers@[f].distance_counter == 0,
{
    let mut fingers = get_finger_list();
    let mut i: usize = 0;
    while i < layout_map.len()
        invariant
            i <= layout_map@.len(),
            fingers@.len() == 8,
            fingers@ == spec_init_fingers(layout_map@.take(i as int)),
            layout_coords_ok(layout_map@) ==> fingers_ok(fingers@),
            forall|f: int| 0 <= f < 8 ==> #[trigger] fingers@[f].distance_counter == 0,
        decreases layout_map@.len() - i,
    {
        let key = layout_map[i];
        if key.home {
            let fid = key.get_finger_id();
            let old_item = fingers[fid];
            fingers.set(
                fid,
                FingerListItem {
                    home_x: key.x,
                    home_y: key.y,
                    current_x: key.x,
                    current_y: key.y,
                    distance_counter: old_item.distance_counter,
                },
            );
        }
        proof {
            assert(layout_map@.take(i + 1).drop_last() =~= layout_map@.take(i as int));
            assert(layout_map@.take(i + 1).last() == layout_map@[i as int]);
        }
        i = i + 1;
    }
    proof {
        assert(layout_map@.take(layout_map@.len() as int) =~= layout_map@);
    }
    fingers
}

/// The full effect of one key press on the evaluation state: the finger
/// states, the last finger and last hand after the press, and the press's
/// penalty record.
pub open spec fn spec_do_keypress(
    fingers: Seq<FingerListItem>,
    last_finger: usize,
    last_hand: Option<Hand>,
    genome: Seq<char>,
    key_press: int,
    layout: Seq<KeyboardKey>,
    letters: Seq<char>,
) -> (Seq<FingerListItem>, usize, Option<Hand>, PressRecord) {
    let named_key = letters[key_press];
    let slot = genome.index_of(named_key);
    let key = layout[slot];
    let fid = key_finger_id(key);
    // idle fingers return to their home position between presses
    let reset = Seq::new(
        fingers.len(),
        |i: int|
            if i == fid {
                fingers[i]
            } else {
                FingerListItem {
                    home_x: fingers[i].home_x,
                    home_y: fingers[i].home_y,
                    current_x: fingers[i].home_x,
                    current_y: fingers[i].home_y,
                    distance_counter: fingers[i].distance_counter,
                }
            },
    );
    let active = reset[fid];
    let distance = key_distance(key, active);
    let record = PressRecord {
        finger_id: fid as usize,
        row: key.row,
        distance: distance as u32,
        distance_penalty: spec_pow(distance as nat, DISTANCE_EFFORT as nat) as u64,
        double_finger_penalty: spec_double_finger(fid, last_finger as int, distance),
        double_hand_penalty: spec_double_hand(key.hand, last_hand),
    };
    let moved = FingerListItem {
        home_x: active.home_x,
        home_y: active.home_y,
        current_x: key.x,
        current_y: key.y,
        distance_counter: (active.distance_counter + distance) as u64,
    };
    (reset.update(fid, moved), fid as usize, Option::Some(key.hand), record)
}

/// Find the slot a letter occupies in a genome.
fn find_slot(genome: &Vec<char>, letter: char) -> (slot: usize)
    requires
        genome@.contains(letter),
    ensures
        slot < genome@.len(),
        genome@[slot as int] == letter,
{
    let mut i: usize = 0;
    while i < genome.len()
        invariant
            i <= genome@.len(),
            genome@.contains(letter),
            forall|j: int| 0 <= j < i ==> genome@[j] != letter,
        decreases genome@.len() - i,
    {
        if genome[i] == letter {
            return i;
        }
        i = i + 1;
    }
    proof {
        let w = choose|w: int| 0 <= w < genome@.len() && genome@[w] == letter;
        assert(false);
    }
    0
}

/// Replay one key press, exactly as `spec_do_keypress` describes it: reset
/// every idle finger to its home, charge the active finger the travel
/// distance and penalties, move it onto the key, and record the press.
pub fn do_keypress(
    my_finger_list: &mut Vec<FingerListItem>,
    my_genome: &Vec<char>,
    key_press: usize,
    old_finger: &mut usize,
    old_hand: &mut Option<Hand>,
    layout_map: &Vec<KeyboardKey>,
    letter_list: &Vec<char>,
) -> (record: PressRecord)
    requires
        old(my_finger_list)@.len() == 8,
        fingers_ok(old(my_finger_list)@),
        forall|f: int|
            0 <= f < 8 ==> #[trigger] old(my_finger_list)@[f].distance_counter + 2
                * COORDINATE_LIMIT <= u64::MAX,
        key_press < letter_list@.len(),
        my_genome@.contains(letter_list@[key_press as int]),
        my_genome@.no_duplicates(),
        my_genome@.len() == layout_map@.len(),
        layout_coords_ok(layout_map@),
    ensures
        ({
            let step = spec_do_keypress(
                old(my_finger_list)@,
                *old(old_finger),
                *old(old_hand),
                my_genome@,
                key_press as int,
                layout_map@,
                letter_list@,
            );
            &&& final(my_finger_list)@ == step.0
            &&& *final(old_finger) == step.1
            &&& *final(old_hand) == step.2
            &&& record == step.3
        }),
        fingers_ok(final(my_finger_list)@),
        final(my_finger_list)@.len() == 8,
        forall|f: int|
            0 <= f < 8 ==> #[trigger] final(my_finger_list)@[f].distance_counter <= old(
                my_finger_list,
            )@[f].distance_counter + 2 * COORDINATE_LIMIT,
{
    let ghost fingers0 = my_finger_list@;
    let named_key = letter_list[key_press];
    let actual_key = find_slot(my_genome, named_key);
    proof {
        let iof = my_genome@.index_of(named_key);
        assert(0 <= iof < my_genome@.len() && my_genome@[iof] == named_key) by {
            assert(exists|w: int| 0 <= w < my_genome@.len() && my_genome@[w] == named_key);
        }
        assert(iof == actual_key as int);
    }

    let layout = layout_map[actual_key];
    let current_hand = layout.hand;
    let layout_finger_id = layout.get_finger_id();

    let ghost reset = Seq::new(
        fingers0.len(),
        |i: int|
            if i == key_finger_id(layout) {
                fingers0[i]
            } else {
                FingerListItem {
                    home_x: fingers0[i].home_x,
                    home_y: fingers0[i].home_y,
                    current_x: fingers0[i].home_x,
                    current_y: fingers0[i].home_y,
                    distance_counter: fingers0[i].distance_counter,
                }
            },
    );

    let mut finger_id: usize = 0;
    while finger_id < my_finger_list.len()
        invariant
            finger_id <= 8,
            my_finger_list@.len() == 8,
            fingers0.len() == 8,
            reset.len() == 8,
            forall|j: int| 0 <= j < finger_id ==> my_finger_list@[j] == reset[j],
            forall|j: int| finger_id <= j < 8 ==> my_finger_list@[j] == fingers0[j],
            reset == Seq::new(
                fingers0.len(),
                |i: int|
                    if i == key_finger_id(layout) {
                        fingers0[i]
                    } else {
                        FingerListItem {
                            home_x: fingers0[i].home_x,
                            home_y: fingers0[i].home_y,
                            current_x: fingers0[i].home_x,
                            current_y: fingers0[i].home_y,
                            distance_counter: fingers0[i].distance_counter,
                        }
                    },
            ),
            layout_finger_id == key_finger_id(layout),
        decreases 8 - finger_id,
    {
        if finger_id != layout_finger_id {
            let f = my_finger_list[finger_id];
            my_finger_list.set(
                finger_id,
                FingerListItem {
                    home_x: f.home_x,
                    home_y: f.home_y,
                    current_x: f.home_x,
                    current_y: f.home_y,
                    distance_counter: f.distance_counter,
                },
            );
        }
        finger_id = finger_id + 1;
    }
    proof {
        assert(my_finger_list@ =~= reset);
    }

    let my_finger = my_finger_list[layout_finger_id];
    let dx = if layout.x >= my_finger.current_x {
        layout.x - my_finger.current_x
    } else {
        my_finger.current_x - layout.x
    };
    let dy = if layout.y >= my_finger.current_y {
        layout.y - my_finger.current_y
    } else {
        my_finger.current_y - layout.y
    };
    let distance: u32 = (dx + dy) as u32;
    let distance_penalty = distance_pow(distance, DISTANCE_EFFORT);
    let new_distance = my_finger.distance_counter + (distance as u64);

    let double_finger_penalty: u32 = if layout_finger_id != *old_finger && *old_finger != 0
        && distance != 0 {
        DOUBLE_FINGER_EFFORT
    } else {
        0
    };
    *old_finger = layout_finger_id;

    let double_hand_penalty: u32 = match *old_hand {
        Option::None => 0,
        Option::Some(lh) => if current_hand != lh && lh != Hand::Left {
            DOUBLE_HAND_EFFORT
        } else {
            0
        },
    };
    *old_hand = Some(current_hand);

    my_finger_list.set(
        layout_finger_id,
        FingerListItem {
            home_x: my_finger.home_x,
            home_y: my_finger.home_y,
            current_x: layout.x,
            current_y: layout.y,
            distance_counter: new_distance,
        },
    );

    PressRecord {
        finger_id: layout_finger_id,
        row: layout.row,
        distance,
        distance_penalty,
        double_finger_penalty,
        double_hand_penalty,
    }
}

/// Well-formed inputs for one evaluation pass: genome and layout of one
/// length, the genome a permutation of the distinct letter list, every
/// key press naming a letter, a well-formed layout, and a press count that
/// keeps the distance counters in range.
pub open spec fn eval_inputs_wf(
    key_presses: Seq<usize>,
    genome: Seq<char>,
    layout: Seq<KeyboardKey>,
    letters: Seq<char>,
) -> bool {
    &&& genome.len() == layout.len()
    &&& genome.to_multiset() == letters.to_multiset()
    &&& letters.no_duplicates()
    &&& forall|i: int| 0 <= i < key_presses.len() ==> (#[trigger] key_presses[i]) < letters.len()
    &&& layout_wf(layout)
    &&& key_presses.len() <= MAX_KEY_PRESSES
}

/// The whole evaluation pass: finger states seeded from the layout's home
/// slots, then every key press replayed in order.
pub open spec fn spec_replay(
    key_presses: Seq<usize>,
    genome: Seq<char>,
    layout: Seq<KeyboardKey>,
    letters: Seq<char>,
) -> (Seq<FingerListItem>, usize, Option<Hand>, Seq<PressRecord>)
    decreases key_presses.len(),
{
    if key_presses.len() == 0 {
        (spec_init_fingers(layout), 0usize, Option::<Hand>::None, Seq::<PressRecord>::empty())
    } else {
        let prev = spec_replay(key_presses.drop_last(), genome, layout, letters);
        let step = spec_do_keypress(
            prev.0,
            prev.1,
            prev.2,
            genome,
            key_presses.last() as int,
            layout,
            letters,
        );
        (step.0, step.1, step.2, prev.3.push(step.3))
    }
}

/// The per-press penalty records of one evaluation pass.
pub open spec fn spec_press_records(
    key_presses: Seq<usize>,
    genome: Seq<char>,
    layout: Seq<KeyboardKey>,
    letters: Seq<char>,
) -> Seq<PressRecord> {
    spec_replay(key_presses, genome, layout, letters).3
}

/// Replay the whole key-press sequence against one candidate genome and
/// return every press's penalty record, in press order.  A pure function
/// of its inputs: the records are exactly `spec_press_records`.
pub fn evaluate_keypresses(
    key_presses: &Vec<usize>,
    my_genome: &Vec<char>,
    layout_map: &Vec<KeyboardKey>,
    letter_list: &Vec<char>,
) -> (records: Vec<PressRecord>)
    requires
        eval_inputs_wf(key_presses@, my_genome@, layout_map@, letter_list@),
    ensures
        records@ == spec_press_records(key_presses@, my_genome@, layout_map@, letter_list@),
        records@.len() == key_presses@.len(),
{
    broadcast use vstd::seq_lib::group_to_multiset_ensures;

    proof {
        letter_list@.lemma_multiset_has_no_duplicates();
        assert forall|x: char|
            my_genome@.to_multiset().contains(x) implies my_genome@.to_multiset().count(x)
            == 1 by {
            assert(letter_list@.to_multiset().contains(x));
        }
        my_genome@.lemma_multiset_has_no_duplicates_conv();
    }

    let mut fingers = init_finger_list(layout_map);
    let mut last_finger: usize = 0;
    let mut last_hand: Option<Hand> = None;
    let mut records: Vec<PressRecord> = Vec::new();
    let mut i: usize = 0;
    while i < key_presses.len()
        invariant
            i <= key_presses@.len(),
            eval_inputs_wf(key_presses@, my_genome@, layout_map@, letter_list@),
            my_genome@.no_duplicates(),
            fingers@ == spec_replay(
                key_presses@.take(i as int),
                my_genome@,
                layout_map@,
                letter_list@,
            ).0,
            last_finger == spec_replay(
                key_presses@.take(i as int),
                my_genome@,
                layout_map@,
                letter_list@,
            ).1,
            last_hand == spec_replay(
                key_presses@.take(i as int),
                my_genome@,
                layout_map@,
                letter_list@,
            ).2,
            records@ == spec_replay(
                key_presses@.take(i as int),
                my_genome@,
                layout_map@,
                letter_list@,
            ).3,
            fingers@.len() == 8,
            fingers_ok(fingers@),
            records@.len() == i as int,
            forall|f: int|
                0 <= f < 8 ==> #[trigger] fingers@[f].distance_counter <= (i as int) * (2
                    * COORDINATE_LIMIT),
        decreases key_presses@.len() - i,
    {
        broadcast use vstd::seq_lib::group_to_multiset_ensures;

        let kp = key_presses[i];
        proof {
            assert(letter_list@.contains(letter_list@[kp as int]));
            assert(letter_list@.to_multiset().count(letter_list@[kp as int]) > 0);
            assert(my_genome@.contains(letter_list@[kp as int]));
            assert(forall|f: int|
                0 <= f < 8 ==> #[trigger] fingers@[f].distance_counter + 2 * COORDINATE_LIMIT
                    <= u64::MAX);
        }
        let record = do_keypress(
            &mut fingers,
            my_genome,
            kp,
            &mut last_finger,
            &mut last_hand,
            layout_map,
            letter_list,
        );
        records.push(record);
        proof {
            assert(key_presses@.take(i + 1).drop_last() =~= key_presses@.take(i as int));
            assert(key_presses@.take(i + 1).last() == key_presses@[i as int]);
        }
        i = i + 1;
    }
    proof {
        assert(key_presses@.take(key_presses@.len() as int) =~= key_presses@);
    }
    records
}

/// The evaluator is deterministic: any two record sequences that satisfy
/// `evaluate_keypresses`'s contract on the same inputs are one and the
/// same, so repeated evaluation of one candidate returns identical output.
pub proof fn lemma_evaluate_deterministic(
    r1: Seq<PressRecord>,
    r2: Seq<PressRecord>,
    key_presses: Seq<usize>,
    genome: Seq<char>,
    layout: Seq<KeyboardKey>,
    letters: Seq<char>,
)
    requires
        r1 == spec_press_records(key_presses, genome, layout, letters),
        r2 == spec_press_records(key_presses, genome, layout, letters),
    ensures
        r1 == r2,
{
}

/// The very first processed key press never incurs the double-hand
/// penalty, whichever hand it uses: the initial "no hand yet" state is
/// exempt by construction.
pub proof fn lemma_first_press_no_double_hand(
    key_presses: Seq<usize>,
    genome: Seq<char>,
    layout: Seq<KeyboardKey>,
    letters: Seq<char>,
)
    requires
        key_presses.len() > 0,
    ensures
        spec_press_records(key_presses, genome, layout, letters)[0].double_hand_penalty == 0,
    decreases key_presses.len(),
{
    if key_presses.len() == 1 {
        let prev = spec_replay(key_presses.drop_last(), genome, layout, letters);
        assert(prev.2 is None);
    } else {
        lemma_first_press_no_double_hand(key_presses.drop_last(), genome, layout, letters);
    }
}


/// Whether a letter list holds any letter twice.
pub fn check_distinct(list: &Vec<char>) -> (r: bool)
    ensures
        r == list@.no_duplicates(),
{
    let mut i: usize = 0;
    while i < list.len()
        invariant
            i <= list@.len(),
            forall|a: int, b: int| 0 <= a < b < list@.len() && a < i ==> list@[a] != list@[b],
        decreases list@.len() - i,
    {
        let mut j: usize = i + 1;
        while j < list.len()
            invariant
                i < j <= list@.len() || (i + 1 == j && j >= list@.len()),
                i < list@.len(),
                forall|a: int, b: int| 0 <= a < b < list@.len() && a < i ==> list@[a] != list@[b],
                forall|b: int| i < b < j ==> list@[i as int] != list@[b],
            decreases list@.len() - j,
        {
            if list[i] == list[j] {
                return false;
            }
            j = j + 1;
        }
        i = i + 1;
    }
    proof {
        assert forall|a: int, b: int|
            0 <= a < list@.len() && 0 <= b < list@.len() && a != b implies list@[a] != list@[b] by {
            if a < b {
                assert(list@[a] != list@[b]);
            } else {
                assert(list@[b] != list@[a]);
            }
        }
    }
    true
}

/// Caller-side validation of one evaluation setup, to be run before any
/// search is entered: true exactly when the genome, layout, letter list
/// and resolved key presses are well formed in the sense the evaluator
/// requires.  Malformed inputs are the caller's error to report; the
/// search itself has no failure branch.
pub fn validate_inputs(
    key_presses: &Vec<usize>,
    my_genome: &Vec<char>,
    layout_map: &Vec<KeyboardKey>,
    letter_list: &Vec<char>,
) -> (r: bool)
    ensures
        r == eval_inputs_wf(key_presses@, my_genome@, layout_map@, letter_list@),
{
    if my_genome.len() != layout_map.len() {
        return false;
    }
    if !crate::genome::is_permutation_of(my_genome, letter_list) {
        return false;
    }
    if !check_distinct(letter_list) {
        return false;
    }
    let mut i: usize = 0;
    while i < key_presses.len()
        invariant
            i <= key_presses@.len(),
            forall|j: int| 0 <= j < i ==> (#[trigger] key_presses@[j]) < letter_list@.len(),
        decreases key_presses@.len() - i,
    {
        if key_presses[i] >= letter_list.len() {
            return false;
        }
        i = i + 1;
    }
    if !crate::layout_map::check_layout(layout_map) {
        return false;
    }
    if (key_presses.len() as u64) > MAX_KEY_PRESSES {
        return false;
    }
    true
}

} // verus!
