use vstd::prelude::*;

use crate::genome::{qwerty_genome, qwertz_genome, spec_qwerty_genome, spec_qwertz_genome};
use crate::objective::{eval_inputs_wf, MAX_KEY_PRESSES};
use crate::key_map::{key_map_from_letter_list, key_map_wf, KeyMap};
use crate::layout_map::{
    get_traditional_layout_map, get_traditional_qwertz_layout_map, qwerty_layout, qwertz_layout,
    KeyboardKey,
};
use crate::letter_list::{
    letter_list_qwerty, letter_list_qwertz, qwerty_letter_list, qwertz_letter_list,
};

verus! {

/// The physical arrangements the crate ships data for.  A layout is one
/// data value: its key table, letter list, reference genome and key map.
/// Supporting a further physical layout means supplying further data, not
/// a new type.
#[derive(Clone, Copy, Debug, PartialEq, Eq, Structural)]
pub enum Layout {
    QwertyEnUs,
    QwertzDeDe,
}

impl Layout {
    /// Number of physical keys of this layout.
    pub fn key_count(self) -> (n: usize)
        ensures
            self == Layout::QwertyEnUs ==> n == 46,
            self == Layout::QwertzDeDe ==> n == 48,
    {
        match self {
            Layout::QwertyEnUs => 46,
            Layout::QwertzDeDe => 48,
        }
    }

    /// The layout's physical key table.
    pub fn get_layout_map(self) -> (keys: Vec<KeyboardKey>)
        ensures
            self == Layout::QwertyEnUs ==> keys@ == qwerty_layout(),
            self == Layout::QwertzDeDe ==> keys@ == qwertz_layout(),
    {
        match self {
            Layout::QwertyEnUs => get_traditional_layout_map(),
            Layout::QwertzDeDe => get_traditional_qwertz_layout_map(),
        }
    }

    /// The layout's canonical letter list.
    pub fn get_letter_list(self) -> (list: Vec<char>)
        ensures
            self == Layout::QwertyEnUs ==> list@ == qwerty_letter_list(),
            self == Layout::QwertzDeDe ==> list@ == qwertz_letter_list(),
    {
        match self {
            Layout::QwertyEnUs => letter_list_qwerty(),
            Layout::QwertzDeDe => letter_list_qwertz(),
        }
    }

    /// The layout's reference genome: every letter on its traditional key.
    pub fn get_genome(self) -> (genome: Vec<char>)
        ensures
            self == Layout::QwertyEnUs ==> genome@ == spec_qwerty_genome(),
            self == Layout::QwertzDeDe ==> genome@ == spec_qwertz_genome(),
    {
        match self {
            Layout::QwertyEnUs => qwerty_genome(),
            Layout::QwertzDeDe => qwertz_genome(),
        }
    }

    /// The layout's key map: each canonical letter resolves to its 1-based
    /// position in the letter list.
    pub fn get_key_map(self) -> (key_map: KeyMap)
        ensures
            self == Layout::QwertyEnUs ==> key_map.entries@.len() == 46,
            self == Layout::QwertzDeDe ==> key_map.entries@.len() == 48,
            self == Layout::QwertyEnUs ==> key_map_wf(key_map.entries@, 46),
            self == Layout::QwertzDeDe ==> key_map_wf(key_map.entries@, 48),
            self == Layout::QwertyEnUs ==> (forall|i: int|
                0 <= i < 46 ==> (#[trigger] key_map.entries@[i]).0 == qwerty_letter_list()[i]
                    && key_map.entries@[i].1 == i + 1),
            self == Layout::QwertzDeDe ==> (forall|i: int|
                0 <= i < 48 ==> (#[trigger] key_map.entries@[i]).0 == qwertz_letter_list()[i]
                    && key_map.entries@[i].1 == i + 1),
    {
        let list = self.get_letter_list();
        key_map_from_letter_list(&list)
    }
}

/// Any genome holding exactly the letters of the 46-key letter list,
/// replayed over any in-range key-press sequence, is a valid input to the
/// effort evaluator on the shipped 46-key table.
pub proof fn lemma_qwerty_setup_wf(key_presses: Seq<usize>, genome: Seq<char>)
    requires
        genome.to_multiset() == crate::letter_list::qwerty_letter_list().to_multiset(),
        forall|i: int| 0 <= i < key_presses.len() ==> (#[trigger] key_presses[i]) < 46,
        key_presses.len() <= MAX_KEY_PRESSES,
    ensures
        eval_inputs_wf(
            key_presses,
            genome,
            qwerty_layout(),
            crate::letter_list::qwerty_letter_list(),
        ),
{
    broadcast use vstd::seq_lib::group_to_multiset_ensures;

    crate::letter_list::lemma_letter_lists_distinct();
    crate::layout_map::lemma_traditional_layouts_wf();
    assert(genome.to_multiset().len() == genome.len());
    assert(crate::letter_list::qwerty_letter_list().to_multiset().len() == 46);
}

/// The shipped 48-key data gives valid evaluator inputs in the same way.
pub proof fn lemma_qwertz_setup_wf(key_presses: Seq<usize>, genome: Seq<char>)
    requires
        genome.to_multiset() == crate::letter_list::qwertz_letter_list().to_multiset(),
        forall|i: int| 0 <= i < key_presses.len() ==> (#[trigger] key_presses[i]) < 48,
        key_presses.len() <= MAX_KEY_PRESSES,
    ensures
        eval_inputs_wf(
            key_presses,
            genome,
            qwertz_layout(),
            crate::letter_list::qwertz_letter_list(),
        ),
{
    broadcast use vstd::seq_lib::group_to_multiset_ensures;

    crate::letter_list::lemma_letter_lists_distinct();
    crate::layout_map::lemma_traditional_layouts_wf();
    assert(genome.to_multiset().len() == genome.len());
    assert(crate::letter_list::qwertz_letter_list().to_multiset().len() == 48);
}

} // verus!
