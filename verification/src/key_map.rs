use vstd::prelude::*;

verus! {

/// Mapping from typable input characters to 1-based logical key indices,
/// that is, positions in the letter list.  Externally supplied
/// configuration; characters absent from it are not typable and are
/// silently skipped during key-press resolution.
pub struct KeyMap {
    pub entries: Vec<(char, usize)>,
}

/// Every entry carries a positive, 1-based key index.
pub open spec fn key_map_indices_positive(entries: Seq<(char, usize)>) -> bool {
    forall|i: int| 0 <= i < entries.len() ==> (#[trigger] entries[i]).1 >= 1
}

/// A key map for `key_count` logical keys: every index is 1-based and no
/// larger than `key_count`.
pub open spec fn key_map_wf(entries: Seq<(char, usize)>, key_count: int) -> bool {
    forall|i: int| 0 <= i < entries.len() ==> 1 <= (#[trigger] entries[i]).1 <= key_count
}

/// Case folding applied before lookup: lowercase letters fold to their
/// uppercase form, umlauts included; every other character stands for
/// itself.
pub open spec fn spec_fold_char(c: char) -> char {
    match c {
        'a' => 'A',
        'b' => 'B',
        'c' => 'C',
        'd' => 'D',
        'e' => 'E',
        'f' => 'F',
        'g' => 'G',
        'h' => 'H',
        'i' => 'I',
        'j' => 'J',
        'k' => 'K',
        'l' => 'L',
        'm' => 'M',
        'n' => 'N',
        'o' => 'O',
        'p' => 'P',
        'q' => 'Q',
        'r' => 'R',
        's' => 'S',
        't' => 'T',
        'u' => 'U',
        'v' => 'V',
        'w' => 'W',
        'x' => 'X',
        'y' => 'Y',
        'z' => 'Z',
        'ä' => 'Ä',
        'ö' => 'Ö',
        'ü' => 'Ü',
        _ => c,
    }
}

/// Fold one input character to the form the key map is written in.
pub fn fold_char(c: char) -> (r: char)
    ensures
        r == spec_fold_char(c),
{
    match c {
        'a' => 'A',
        'b' => 'B',
        'c' => 'C',
        'd' => 'D',
        'e' => 'E',
        'f' => 'F',
        'g' => 'G',
        'h' => 'H',
        'i' => 'I',
        'j' => 'J',
        'k' => 'K',
        'l' => 'L',
        'm' => 'M',
        'n' => 'N',
        'o' => 'O',
        'p' => 'P',
        'q' => 'Q',
        'r' => 'R',
        's' => 'S',
        't' => 'T',
        'u' => 'U',
        'v' => 'V',
        'w' => 'W',
        'x' => 'X',
        'y' => 'Y',
        'z' => 'Z',
        'ä' => 'Ä',
        'ö' => 'Ö',
        'ü' => 'Ü',
        _ => c,
    }
}

/// The 1-based index of the first entry whose character matches, if any.
pub open spec fn spec_lookup(entries: Seq<(char, usize)>, c: char) -> Option<usize>
    decreases entries.len(),
{
    if entries.len() == 0 {
        Option::None
    } else if entries[0].0 == c {
        Option::Some(entries[0].1)
    } else {
        spec_lookup(entries.drop_first(), c)
    }
}

/// Key-press resolution: fold the character to uppercase, look it up, and
/// return its 0-based key index; characters absent from the map resolve to
/// nothing and are skipped.
pub open spec fn spec_determine_keypress(entries: Seq<(char, usize)>, c: char) -> Option<usize> {
    match spec_lookup(entries, spec_fold_char(c)) {
        Option::Some(kp) => Option::Some((kp - 1) as usize),
        Option::None => Option::None,
    }
}

/// Resolve one input character to the 0-based index of the logical key it
/// presses, or to nothing if the character is not typable.
pub fn determine_keypress(key_map: &KeyMap, current_character: char) -> (r: Option<usize>)
    requires
        key_map_indices_positive(key_map.entries@),
    ensures
        r == spec_determine_keypress(key_map.entries@, current_character),
{
    let folded = fold_char(current_character);
    let ghost entries = key_map.entries@;
    proof {
        assert(entries.skip(0) =~= entries);
    }
    let mut i: usize = 0;
    while i < key_map.entries.len()
        invariant
            i <= entries.len(),
            entries == key_map.entries@,
            key_map_indices_positive(entries),
            folded == spec_fold_char(current_character),
            spec_lookup(entries, folded) == spec_lookup(entries.skip(i as int), folded),
        decreases entries.len() - i,
    {
        let entry = key_map.entries[i];
        proof {
            assert(entries.skip(i as int)[0] == entries[i as int]);
            assert(entries.skip(i as int).drop_first() =~= entries.skip(i + 1));
        }
        if entry.0 == folded {
            return Some(entry.1 - 1);
        }
        i = i + 1;
    }
    proof {
        assert(entries.skip(entries.len() as int) =~= Seq::<(char, usize)>::empty());
    }
    None
}

/// Whatever a well-formed key map resolves a character to is a valid
/// 0-based index into the letter list.
pub proof fn lemma_keypress_in_range(entries: Seq<(char, usize)>, c: char, key_count: int)
    requires
        key_map_wf(entries, key_count),
        spec_determine_keypress(entries, c) is Some,
    ensures
        spec_determine_keypress(entries, c)->Some_0 < key_count,
    decreases entries.len(),
{
    let folded = spec_fold_char(c);
    if entries.len() > 0 && entries[0].0 != folded {
        assert(key_map_wf(entries.drop_first(), key_count)) by {
            assert(forall|i: int|
                0 <= i < entries.drop_first().len() ==> entries.drop_first()[i] == entries[i + 1]);
        }
        lemma_keypress_in_range(entries.drop_first(), c, key_count);
    }
}

/// The key presses a corpus resolves to: each character folded and looked
/// up in order, unmapped characters dropped.
pub open spec fn spec_resolve_keypresses(entries: Seq<(char, usize)>, text: Seq<char>) -> Seq<usize>
    decreases text.len(),
{
    if text.len() == 0 {
        Seq::empty()
    } else {
        let rest = spec_resolve_keypresses(entries, text.drop_last());
        match spec_determine_keypress(entries, text.last()) {
            Option::Some(k) => rest.push(k),
            Option::None => rest,
        }
    }
}

/// Resolve a whole corpus to the fixed key-press sequence that every
/// evaluation pass replays.  Run once, up front; unmapped characters
/// (spaces, unmapped punctuation) are silently dropped.
pub fn resolve_keypresses(key_map: &KeyMap, text: &Vec<char>) -> (key_presses: Vec<usize>)
    requires
        key_map_indices_positive(key_map.entries@),
    ensures
        key_presses@ == spec_resolve_keypresses(key_map.entries@, text@),
{
    let mut key_presses: Vec<usize> = Vec::new();
    let mut i: usize = 0;
    while i < text.len()
        invariant
            i <= text@.len(),
            key_map_indices_positive(key_map.entries@),
            key_presses@ == spec_resolve_keypresses(key_map.entries@, text@.take(i as int)),
        decreases text@.len() - i,
    {
        match determine_keypress(key_map, text[i]) {
            Some(k) => key_presses.push(k),
            None => (),
        }
        proof {
            assert(text@.take(i + 1).drop_last() =~= text@.take(i as int));
            assert(text@.take(i + 1).last() == text@[i as int]);
        }
        i = i + 1;
    }
    proof {
        assert(text@.take(text@.len() as int) =~= text@);
    }
    key_presses
}

/// Every key press a well-formed key map resolves a corpus to is a valid
/// 0-based index into the letter list.
pub proof fn lemma_resolved_keypresses_in_range(
    entries: Seq<(char, usize)>,
    text: Seq<char>,
    key_count: int,
)
    requires
        key_map_wf(entries, key_count),
    ensures
        forall|i: int|
            0 <= i < spec_resolve_keypresses(entries, text).len() ==> (
            #[trigger] spec_resolve_keypresses(entries, text)[i]) < key_count,
    decreases text.len(),
{
    if text.len() > 0 {
        lemma_resolved_keypresses_in_range(entries, text.drop_last(), key_count);
        let rest = spec_resolve_keypresses(entries, text.drop_last());
        let result = spec_resolve_keypresses(entries, text);
        if spec_determine_keypress(entries, text.last()) is Some {
            lemma_keypress_in_range(entries, text.last(), key_count);
            let kp = spec_determine_keypress(entries, text.last())->Some_0;
            assert(result == rest.push(kp));
            assert forall|i: int| 0 <= i < result.len() implies #[trigger] result[i]
                < key_count by {
                if i < rest.len() {
                    assert(rest[i] < key_count);
                } else {
                    assert(result[i] == kp);
                }
            }
        } else {
            assert(result == rest);
        }
    }
}

/// The canonical key map over a letter list: the letter at position `i`
/// resolves to the 1-based key index `i + 1`.
pub fn key_map_from_letter_list(letter_list: &Vec<char>) -> (key_map: KeyMap)
    ensures
        key_map.entries@.len() == letter_list@.len(),
        forall|i: int|
            0 <= i < letter_list@.len() ==> (#[trigger] key_map.entries@[i]).0 == letter_list@[i]
                && key_map.entries@[i].1 == i + 1,
        key_map_wf(key_map.entries@, letter_list@.len() as int),
{
    let mut entries: Vec<(char, usize)> = Vec::new();
    let mut i: usize = 0;
    while i < letter_list.len()
        invariant
            i <= letter_list@.len(),
            entries@.len() == i as int,
            forall|j: int|
                0 <= j < i ==> (#[trigger] entries@[j]).0 == letter_list@[j] && entries@[j].1 == j
                    + 1,
        decreases letter_list@.len() - i,
    {
        entries.push((letter_list[i], i + 1));
        i = i + 1;
    }
    KeyMap { entries }
}


proof fn lemma_lookup_misses(entries: Seq<(char, usize)>, c: char)
    requires
        forall|i: int| 0 <= i < entries.len() ==> (#[trigger] entries[i]).0 != c,
    ensures
        spec_lookup(entries, c) is None,
    decreases entries.len(),
{
    if entries.len() > 0 {
        assert(forall|i: int|
            0 <= i < entries.drop_first().len() ==> (#[trigger] entries.drop_first()[i]).0
                != c) by {
            assert(forall|i: int|
                0 <= i < entries.drop_first().len() ==> entries.drop_first()[i] == entries[i + 1]);
        }
        lemma_lookup_misses(entries.drop_first(), c);
    }
}

/// A character whose folded form is not in the letter list is not typable
/// on the canonical key map over that list: it resolves to nothing, so the
/// corpus resolution drops it.
pub proof fn lemma_unmapped_character_resolves_to_nothing(
    entries: Seq<(char, usize)>,
    letters: Seq<char>,
    c: char,
)
    requires
        entries.len() == letters.len(),
        forall|i: int| 0 <= i < letters.len() ==> (#[trigger] entries[i]).0 == letters[i],
        !letters.contains(spec_fold_char(c)),
    ensures
        spec_determine_keypress(entries, c) is None,
{
    let folded = spec_fold_char(c);
    assert forall|i: int| 0 <= i < entries.len() implies (#[trigger] entries[i]).0 != folded by {
        if entries[i].0 == folded {
            assert(letters[i] == folded);
            assert(letters.contains(folded));
        }
    }
    lemma_lookup_misses(entries, folded);
}

} // verus!
