use vstd::prelude::*;

verus! {

/// Reference typing speed of each finger, in characters per minute, in
/// finger-id order.  The effort model derives each finger's effort
/// coefficient from these: the negated z-score within this group, shifted
/// so that the fastest finger carries zero effort.
pub open spec fn spec_finger_cpm() -> Seq<i32> {
    seq![223, 169, 225, 273, 343, 313, 259, 241]
}

/// Reference typing speed per finger, one entry per finger id.
pub fn finger_cpm() -> (cpm: Vec<i32>)
    ensures
        cpm@ == spec_finger_cpm(),
        cpm@.len() == 8,
{
    let mut cpm: Vec<i32> = Vec::new();
    cpm.push(223);
    cpm.push(169);
    cpm.push(225);
    cpm.push(273);
    cpm.push(343);
    cpm.push(313);
    cpm.push(259);
    cpm.push(241);
    proof {
        assert(cpm@ =~= spec_finger_cpm());
    }
    cpm
}

/// Reference typing speed of each key row, in characters per minute, in
/// row order from the number row down.  The row effort coefficients are
/// the negated z-scores within this group, shifted so that the fastest
/// row carries zero effort.
pub open spec fn spec_row_cpm() -> Seq<i32> {
    seq![131, 166, 276, 192]
}

/// Reference typing speed per key row, one entry per row.
pub fn row_cpm() -> (cpm: Vec<i32>)
    ensures
        cpm@ == spec_row_cpm(),
        cpm@.len() == 4,
{
    let mut cpm: Vec<i32> = Vec::new();
    cpm.push(131);
    cpm.push(166);
    cpm.push(276);
    cpm.push(192);
    proof {
        assert(cpm@ =~= spec_row_cpm());
    }
    cpm
}

} // verus!
