use vstd::prelude::*;

use crate::models::{finger_offset, hand_offset, Finger, Hand};

verus! {

/// Largest coordinate value a well-formed physical key table may carry.
/// Keeps every per-press travel distance comfortably inside the integer
/// range that the evaluator's accumulators are proved against.
pub const COORDINATE_LIMIT: i32 = 100000;

/// The four ordered key rows of the physical grid, from the number row down.
#[derive(Clone, Copy, Debug, PartialEq, Eq, Structural)]
pub enum KeyboardRow {
    Number,
    TopLetter,
    MiddleLetter,
    BottomLetter,
}

/// Index of a row into the row-effort table, number row first.
pub open spec fn row_index(row: KeyboardRow) -> int {
    match row {
        KeyboardRow::Number => 0,
        KeyboardRow::TopLetter => 1,
        KeyboardRow::MiddleLetter => 2,
        KeyboardRow::BottomLetter => 3,
    }
}

impl KeyboardRow {
    /// Index of this row into the row-effort table.
    pub fn as_index(self) -> (r: usize)
        ensures
            r == row_index(self),
            r < 4,
    {
        match self {
            KeyboardRow::Number => 0,
            KeyboardRow::TopLetter => 1,
            KeyboardRow::MiddleLetter => 2,
            KeyboardRow::BottomLetter => 3,
        }
    }
}

/// One physical key slot: integer coordinates, row class, hand, finger and
/// whether the slot is the home position of its finger.
#[derive(Clone, Copy, Debug)]
pub struct KeyboardKey {
    pub x: i32,
    pub y: i32,
    pub row: KeyboardRow,
    pub hand: Hand,
    pub finger: Finger,
    pub home: bool,
}

/// Finger id in 0..8 enumerating {Ring, Middle, Index, Thumb} x {Left, Right}.
pub open spec fn key_finger_id(key: KeyboardKey) -> int {
    finger_offset(key.finger) + hand_offset(key.hand)
}

impl KeyboardKey {
    /// Finger id in 0..8 of the finger that strikes this key.
    pub fn get_finger_id(&self) -> (id: usize)
        ensures
            id == key_finger_id(*self),
            id < 8,
    {
        let base: usize = match self.finger {
            Finger::Ring => 0,
            Finger::Middle => 1,
            Finger::Index => 2,
            Finger::Thumb => 3,
        };
        match self.hand {
            Hand::Left => base,
            Hand::Right => base + 4,
        }
    }
}

/// Raw key description as the fixed tables write it:
/// (x, y, row in 1..=4, finger in 1..=8, home flag).
pub type RawLayout = (i32, i32, i32, i32, bool);

/// A raw table entry names a legal row and a legal finger.
pub open spec fn raw_layout_valid(raw: RawLayout) -> bool {
    &&& 1 <= raw.2 <= 4
    &&& 1 <= raw.3 <= 8
}

pub open spec fn spec_row_from(v: int) -> KeyboardRow {
    if v == 1 {
        KeyboardRow::Number
    } else if v == 2 {
        KeyboardRow::TopLetter
    } else if v == 3 {
        KeyboardRow::MiddleLetter
    } else {
        KeyboardRow::BottomLetter
    }
}

pub open spec fn spec_hand_from(v: int) -> Hand {
    if v > 4 {
        Hand::Right
    } else {
        Hand::Left
    }
}

pub open spec fn spec_finger_from(v: int) -> Finger {
    if v == 1 || v == 8 {
        Finger::Ring
    } else if v == 2 || v == 7 {
        Finger::Middle
    } else if v == 3 || v == 6 {
        Finger::Index
    } else {
        Finger::Thumb
    }
}

/// The key a raw table entry describes.
pub open spec fn spec_key_from(raw: RawLayout) -> KeyboardKey {
    KeyboardKey {
        x: raw.0,
        y: raw.1,
        row: spec_row_from(raw.2 as int),
        hand: spec_hand_from(raw.3 as int),
        finger: spec_finger_from(raw.3 as int),
        home: raw.4,
    }
}

impl KeyboardKey {
    /// Decode one raw table entry. Entries whose row or finger number is out
    /// of range do not describe a key and are excluded up front.
    pub fn from(value: RawLayout) -> (key: KeyboardKey)
        requires
            raw_layout_valid(value),
        ensures
            key == spec_key_from(value),
    {
        let (x, y, row_no, finger_no, home) = value;
        let row = if row_no == 1 {
            KeyboardRow::Number
        } else if row_no == 2 {
            KeyboardRow::TopLetter
        } else if row_no == 3 {
            KeyboardRow::MiddleLetter
        } else {
            KeyboardRow::BottomLetter
        };
        let hand = if finger_no > 4 {
            Hand::Right
        } else {
            Hand::Left
        };
        let finger = if finger_no == 1 || finger_no == 8 {
            Finger::Ring
        } else if finger_no == 2 || finger_no == 7 {
            Finger::Middle
        } else if finger_no == 3 || finger_no == 6 {
            Finger::Index
        } else {
            Finger::Thumb
        };
        KeyboardKey { x, y, row, hand, finger, home }
    }
}

/// Decode a whole raw table into key records, in order.
pub fn into_layout_map(value: Vec<RawLayout>) -> (keys: Vec<KeyboardKey>)
    requires
        forall|i: int| 0 <= i < value@.len() ==> raw_layout_valid(value@[i]),
    ensures
        keys@.len() == value@.len(),
        forall|i: int| 0 <= i < value@.len() ==> keys@[i] == spec_key_from(value@[i]),
{
    let mut keys: Vec<KeyboardKey> = Vec::new();
    let mut i: usize = 0;
    while i < value.len()
        invariant
            i <= value@.len(),
            keys@.len() == i as int,
            forall|j: int| 0 <= j < value@.len() ==> raw_layout_valid(value@[j]),
            forall|j: int| 0 <= j < i ==> keys@[j] == spec_key_from(value@[j]),
        decreases value@.len() - i,
    {
        keys.push(KeyboardKey::from(value[i]));
        i = i + 1;
    }
    keys
}

/// Every coordinate of the table lies inside the proved range.
pub open spec fn layout_coords_ok(keys: Seq<KeyboardKey>) -> bool {
    forall|i: int|
        0 <= i < keys.len() ==> (0 <= #[trigger] keys[i].x <= COORDINATE_LIMIT && 0 <= keys[i].y
            <= COORDINATE_LIMIT)
}

/// Number of home slots that the first `upto` keys assign to finger `f`.
pub open spec fn count_homes(keys: Seq<KeyboardKey>, f: int, upto: int) -> int
    decreases upto,
{
    if upto <= 0 {
        0
    } else {
        count_homes(keys, f, upto - 1) + if keys[upto - 1].home && key_finger_id(
            keys[upto - 1],
        ) == f {
            1int
        } else {
            0int
        }
    }
}

/// A well-formed physical key table: coordinates in range and exactly one
/// home slot for each of the 8 finger ids.
pub open spec fn layout_wf(keys: Seq<KeyboardKey>) -> bool {
    &&& layout_coords_ok(keys)
    &&& forall|f: int| 0 <= f < 8 ==> count_homes(keys, f, keys.len() as int) == 1
}

/// Caller-side validation of an externally supplied key table: true exactly
/// when the table is well-formed in the sense the evaluator requires.
pub fn check_layout(keys: &Vec<KeyboardKey>) -> (r: bool)
    ensures
        r == layout_wf(keys@),
{
    let mut i: usize = 0;
    while i < keys.len()
        invariant
            i <= keys@.len(),
            forall|j: int|
                0 <= j < i ==> (0 <= #[trigger] keys@[j].x <= COORDINATE_LIMIT && 0 <= keys@[j].y
                    <= COORDINATE_LIMIT),
        decreases keys@.len() - i,
    {
        let k = keys[i];
        if k.x < 0 || k.x > COORDINATE_LIMIT || k.y < 0 || k.y > COORDINATE_LIMIT {
            assert(!layout_coords_ok(keys@));
            return false;
        }
        i = i + 1;
    }
    let mut f: usize = 0;
    while f < 8
        invariant
            f <= 8,
            layout_coords_ok(keys@),
            forall|g: int| 0 <= g < f ==> count_homes(keys@, g, keys@.len() as int) == 1,
        decreases 8 - f,
    {
        let mut count: u64 = 0;
        let mut i: usize = 0;
        while i < keys.len()
            invariant
                i <= keys@.len(),
                count == count_homes(keys@, f as int, i as int),
                count <= i,
            decreases keys@.len() - i,
        {
            if keys[i].home && keys[i].get_finger_id() == f {
                count = count + 1;
            }
            i = i + 1;
        }
        if count != 1 {
            return false;
        }
        f = f + 1;
    }
    true
}


/// Raw table of the traditional 46-key arrangement.
pub open spec fn qwerty_raw_layout() -> Seq<RawLayout> {
    seq![
        (50, 450, 1, 1, false),
        (150, 450, 1, 1, false),
        (250, 450, 1, 1, false),
        (350, 450, 1, 2, false),
        (450, 450, 1, 3, false),
        (550, 450, 1, 4, false),
        (650, 450, 1, 4, false),
        (750, 450, 1, 5, false),
        (850, 450, 1, 6, false),
        (950, 450, 1, 7, false),
        (1050, 450, 1, 8, false),
        (1150, 450, 1, 8, false),
        (1250, 450, 1, 8, false),
        (200, 350, 2, 1, false),
        (300, 350, 2, 2, false),
        (400, 350, 2, 3, false),
        (500, 350, 2, 4, false),
        (600, 350, 2, 4, false),
        (700, 350, 2, 5, false),
        (800, 350, 2, 5, false),
        (900, 350, 2, 6, false),
        (1000, 350, 2, 7, false),
        (1100, 350, 2, 8, false),
        (1200, 350, 2, 8, false),
        (1300, 350, 2, 8, false),
        (225, 250, 3, 1, true),
        (325, 250, 3, 2, true),
        (425, 250, 3, 3, true),
        (525, 250, 3, 4, true),
        (625, 250, 3, 4, false),
        (725, 250, 3, 5, false),
        (825, 250, 3, 5, true),
        (925, 250, 3, 6, true),
        (1025, 250, 3, 7, true),
        (1125, 250, 3, 8, true),
        (1225, 250, 3, 8, false),
        (275, 150, 4, 1, false),
        (375, 150, 4, 2, false),
        (475, 150, 4, 3, false),
        (575, 150, 4, 4, false),
        (675, 150, 4, 4, false),
        (775, 150, 4, 5, false),
        (875, 150, 4, 5, false),
        (975, 150, 4, 6, false),
        (1075, 150, 4, 7, false),
        (1175, 150, 4, 8, false),
    ]
}

/// The traditional 46-key arrangement, decoded.
pub open spec fn qwerty_layout() -> Seq<KeyboardKey> {
    qwerty_raw_layout().map_values(|r: RawLayout| spec_key_from(r))
}

/// Physical key table of the traditional 46-key arrangement.
#[verifier::rlimit(60)]
pub fn get_traditional_layout_map() -> (keys: Vec<KeyboardKey>)
    ensures
        keys@ == qwerty_layout(),
        keys@.len() == 46,
{
    let mut keys: Vec<KeyboardKey> = Vec::new();
        keys.push(KeyboardKey::from((50, 450, 1, 1, false)));
        keys.push(KeyboardKey::from((150, 450, 1, 1, false)));
        keys.push(KeyboardKey::from((250, 450, 1, 1, false)));
        keys.push(KeyboardKey::from((350, 450, 1, 2, false)));
        keys.push(KeyboardKey::from((450, 450, 1, 3, false)));
        keys.push(KeyboardKey::from((550, 450, 1, 4, false)));
        keys.push(KeyboardKey::from((650, 450, 1, 4, false)));
        keys.push(KeyboardKey::from((750, 450, 1, 5, false)));
        keys.push(KeyboardKey::from((850, 450, 1, 6, false)));
        keys.push(KeyboardKey::from((950, 450, 1, 7, false)));
        keys.push(KeyboardKey::from((1050, 450, 1, 8, false)));
        keys.push(KeyboardKey::from((1150, 450, 1, 8, false)));
        keys.push(KeyboardKey::from((1250, 450, 1, 8, false)));
        keys.push(KeyboardKey::from((200, 350, 2, 1, false)));
        keys.push(KeyboardKey::from((300, 350, 2, 2, false)));
        keys.push(KeyboardKey::from((400, 350, 2, 3, false)));
        keys.push(KeyboardKey::from((500, 350, 2, 4, false)));
        keys.push(KeyboardKey::from((600, 350, 2, 4, false)));
        keys.push(KeyboardKey::from((700, 350, 2, 5, false)));
        keys.push(KeyboardKey::from((800, 350, 2, 5, false)));
        keys.push(KeyboardKey::from((900, 350, 2, 6, false)));
        keys.push(KeyboardKey::from((1000, 350, 2, 7, false)));
        keys.push(KeyboardKey::from((1100, 350, 2, 8, false)));
        keys.push(KeyboardKey::from((1200, 350, 2, 8, false)));
        keys.push(KeyboardKey::from((1300, 350, 2, 8, false)));
        keys.push(KeyboardKey::from((225, 250, 3, 1, true)));
        keys.push(KeyboardKey::from((325, 250, 3, 2, true)));
        keys.push(KeyboardKey::from((425, 250, 3, 3, true)));
        keys.push(KeyboardKey::from((525, 250, 3, 4, true)));
        keys.push(KeyboardKey::from((625, 250, 3, 4, false)));
        keys.push(KeyboardKey::from((725, 250, 3, 5, false)));
        keys.push(KeyboardKey::from((825, 250, 3, 5, true)));
        keys.push(KeyboardKey::from((925, 250, 3, 6, true)));
        keys.push(KeyboardKey::from((1025, 250, 3, 7, true)));
        keys.push(KeyboardKey::from((1125, 250, 3, 8, true)));
        keys.push(KeyboardKey::from((1225, 250, 3, 8, false)));
        keys.push(KeyboardKey::from((275, 150, 4, 1, false)));
        keys.push(KeyboardKey::from((375, 150, 4, 2, false)));
        keys.push(KeyboardKey::from((475, 150, 4, 3, false)));
        keys.push(KeyboardKey::from((575, 150, 4, 4, false)));
        keys.push(KeyboardKey::from((675, 150, 4, 4, false)));
        keys.push(KeyboardKey::from((775, 150, 4, 5, false)));
        keys.push(KeyboardKey::from((875, 150, 4, 5, false)));
        keys.push(KeyboardKey::from((975, 150, 4, 6, false)));
        keys.push(KeyboardKey::from((1075, 150, 4, 7, false)));
        keys.push(KeyboardKey::from((1175, 150, 4, 8, false)));
    proof {
        assert(keys@ =~= qwerty_layout());
    }
    keys
}

/// Raw table of the traditional 48-key arrangement.
pub open spec fn qwertz_raw_layout() -> Seq<RawLayout> {
    seq![
        (50, 450, 1, 1, false),
        (150, 450, 1, 1, false),
        (250, 450, 1, 1, false),
        (350, 450, 1, 2, false),
        (450, 450, 1, 3, false),
        (550, 450, 1, 4, false),
        (650, 450, 1, 4, false),
        (750, 450, 1, 5, false),
        (850, 450, 1, 6, false),
        (950, 450, 1, 7, false),
        (1050, 450, 1, 8, false),
        (1150, 450, 1, 8, false),
        (1250, 450, 1, 8, false),
        (200, 350, 2, 1, false),
        (300, 350, 2, 2, false),
        (400, 350, 2, 3, false),
        (500, 350, 2, 4, false),
        (600, 350, 2, 4, false),
        (700, 350, 2, 5, false),
        (800, 350, 2, 5, false),
        (900, 350, 2, 6, false),
        (1000, 350, 2, 7, false),
        (1100, 350, 2, 8, false),
        (1200, 350, 2, 8, false),
        (1300, 350, 2, 8, false),
        (225, 250, 3, 1, true),
        (325, 250, 3, 2, true),
        (425, 250, 3, 3, true),
        (525, 250, 3, 4, true),
        (625, 250, 3, 4, false),
        (725, 250, 3, 5, false),
        (825, 250, 3, 5, true),
        (925, 250, 3, 6, true),
        (1025, 250, 3, 7, true),
        (1125, 250, 3, 8, true),
        (1225, 250, 3, 8, false),
        (1325, 250, 3, 8, false),
        (175, 150, 4, 1, false),
        (275, 150, 4, 1, false),
        (375, 150, 4, 2, false),
        (475, 150, 4, 3, false),
        (575, 150, 4, 4, false),
        (675, 150, 4, 4, false),
        (775, 150, 4, 5, false),
        (875, 150, 4, 5, false),
        (975, 150, 4, 6, false),
        (1075, 150, 4, 7, false),
        (1175, 150, 4, 8, false),
    ]
}

/// The traditional 48-key arrangement, decoded.
pub open spec fn qwertz_layout() -> Seq<KeyboardKey> {
    qwertz_raw_layout().map_values(|r: RawLayout| spec_key_from(r))
}

/// Physical key table of the traditional 48-key arrangement.
#[verifier::rlimit(60)]
pub fn get_traditional_qwertz_layout_map() -> (keys: Vec<KeyboardKey>)
    ensures
        keys@ == qwertz_layout(),
        keys@.len() == 48,
{
    let mut keys: Vec<KeyboardKey> = Vec::new();
        keys.push(KeyboardKey::from((50, 450, 1, 1, false)));
        keys.push(KeyboardKey::from((150, 450, 1, 1, false)));
        keys.push(KeyboardKey::from((250, 450, 1, 1, false)));
        keys.push(KeyboardKey::from((350, 450, 1, 2, false)));
        keys.push(KeyboardKey::from((450, 450, 1, 3, false)));
        keys.push(KeyboardKey::from((550, 450, 1, 4, false)));
        keys.push(KeyboardKey::from((650, 450, 1, 4, false)));
        keys.push(KeyboardKey::from((750, 450, 1, 5, false)));
        keys.push(KeyboardKey::from((850, 450, 1, 6, false)));
        keys.push(KeyboardKey::from((950, 450, 1, 7, false)));
        keys.push(KeyboardKey::from((1050, 450, 1, 8, false)));
        keys.push(KeyboardKey::from((1150, 450, 1, 8, false)));
        keys.push(KeyboardKey::from((1250, 450, 1, 8, false)));
        keys.push(KeyboardKey::from((200, 350, 2, 1, false)));
        keys.push(KeyboardKey::from((300, 350, 2, 2, false)));
        keys.push(KeyboardKey::from((400, 350, 2, 3, false)));
        keys.push(KeyboardKey::from((500, 350, 2, 4, false)));
        keys.push(KeyboardKey::from((600, 350, 2, 4, false)));
        keys.push(KeyboardKey::from((700, 350, 2, 5, false)));
        keys.push(KeyboardKey::from((800, 350, 2, 5, false)));
        keys.push(KeyboardKey::from((900, 350, 2, 6, false)));
        keys.push(KeyboardKey::from((1000, 350, 2, 7, false)));
        keys.push(KeyboardKey::from((1100, 350, 2, 8, false)));
        keys.push(KeyboardKey::from((1200, 350, 2, 8, false)));
        keys.push(KeyboardKey::from((1300, 350, 2, 8, false)));
        keys.push(KeyboardKey::from((225, 250, 3, 1, true)));
        keys.push(KeyboardKey::from((325, 250, 3, 2, true)));
        keys.push(KeyboardKey::from((425, 250, 3, 3, true)));
        keys.push(KeyboardKey::from((525, 250, 3, 4, true)));
        keys.push(KeyboardKey::from((625, 250, 3, 4, false)));
        keys.push(KeyboardKey::from((725, 250, 3, 5, false)));
        keys.push(KeyboardKey::from((825, 250, 3, 5, true)));
        keys.push(KeyboardKey::from((925, 250, 3, 6, true)));
        keys.push(KeyboardKey::from((1025, 250, 3, 7, true)));
        keys.push(KeyboardKey::from((1125, 250, 3, 8, true)));
        keys.push(KeyboardKey::from((1225, 250, 3, 8, false)));
        keys.push(KeyboardKey::from((1325, 250, 3, 8, false)));
        keys.push(KeyboardKey::from((175, 150, 4, 1, false)));
        keys.push(KeyboardKey::from((275, 150, 4, 1, false)));
        keys.push(KeyboardKey::from((375, 150, 4, 2, false)));
        keys.push(KeyboardKey::from((475, 150, 4, 3, false)));
        keys.push(KeyboardKey::from((575, 150, 4, 4, false)));
        keys.push(KeyboardKey::from((675, 150, 4, 4, false)));
        keys.push(KeyboardKey::from((775, 150, 4, 5, false)));
        keys.push(KeyboardKey::from((875, 150, 4, 5, false)));
        keys.push(KeyboardKey::from((975, 150, 4, 6, false)));
        keys.push(KeyboardKey::from((1075, 150, 4, 7, false)));
        keys.push(KeyboardKey::from((1175, 150, 4, 8, false)));
    proof {
        assert(keys@ =~= qwertz_layout());
    }
    keys
}


/// Coordinate bounds of the first `upto` keys, phrased recursively so the
/// compute solver can evaluate it on the fixed tables.
pub open spec fn coords_ok_upto(keys: Seq<KeyboardKey>, upto: int) -> bool
    decreases upto,
{
    if upto <= 0 {
        true
    } else {
        coords_ok_upto(keys, upto - 1) && 0 <= keys[upto - 1].x <= COORDINATE_LIMIT && 0 <= keys[
            upto - 1
        ].y <= COORDINATE_LIMIT
    }
}

proof fn lemma_coords_ok_at(keys: Seq<KeyboardKey>, upto: int, i: int)
    requires
        coords_ok_upto(keys, upto),
        0 <= i < upto,
    ensures
        0 <= keys[i].x <= COORDINATE_LIMIT,
        0 <= keys[i].y <= COORDINATE_LIMIT,
    decreases upto,
{
    if i < upto - 1 {
        lemma_coords_ok_at(keys, upto - 1, i);
    }
}

proof fn lemma_coords_ok(keys: Seq<KeyboardKey>)
    requires
        coords_ok_upto(keys, keys.len() as int),
    ensures
        layout_coords_ok(keys),
{
    assert forall|i: int|
        0 <= i < keys.len() implies (0 <= #[trigger] keys[i].x <= COORDINATE_LIMIT && 0 <= keys[i].y
        <= COORDINATE_LIMIT) by {
        lemma_coords_ok_at(keys, keys.len() as int, i);
    }
}

/// The two shipped key tables are well formed: coordinates in range and
/// exactly one home slot per finger id.
#[verifier::rlimit(100)]
pub proof fn lemma_traditional_layouts_wf()
    ensures
        layout_wf(qwerty_layout()),
        layout_wf(qwertz_layout()),
{
    reveal_with_fuel(coords_ok_upto, 50);
    reveal_with_fuel(count_homes, 50);
    assert(qwerty_layout().len() == 46);
    assert(coords_ok_upto(qwerty_layout(), 46));
    lemma_coords_ok(qwerty_layout());
    assert forall|f: int| 0 <= f < 8 implies count_homes(qwerty_layout(), f, 46) == 1 by {
        reveal_with_fuel(count_homes, 50);
    }

    assert(qwertz_layout().len() == 48);
    assert(coords_ok_upto(qwertz_layout(), 48));
    lemma_coords_ok(qwertz_layout());
    assert forall|f: int| 0 <= f < 8 implies count_homes(qwertz_layout(), f, 48) == 1 by {
        reveal_with_fuel(count_homes, 50);
    }
}

} // verus!
