use vstd::prelude::*;

verus! {

/// Canonical letter ordering of the 46-key arrangement: logical key identity.
pub open spec fn qwerty_letter_list() -> Seq<char> {
    seq![
        'A', 'B', 'C', 'D', 'E', 'F', 'G', 'H', 'I', 'J', 'K', 'L',
        'M', 'N', 'O', 'P', 'Q', 'R', 'S', 'T', 'U', 'V', 'W', 'X',
        'Y', 'Z', '0', '1', '2', '3', '4', '5', '6', '7', '8', '9',
        '~', '-', '+', '[', ']', ';', '\'', '<', '>', '?',
    ]
}

/// The canonical 46-entry letter list.
#[verifier::rlimit(60)]
pub fn letter_list_qwerty() -> (list: Vec<char>)
    ensures
        list@ == qwerty_letter_list(),
        list@.len() == 46,
{
    let mut list: Vec<char> = Vec::new();
    list.push('A');
    list.push('B');
    list.push('C');
    list.push('D');
    list.push('E');
    list.push('F');
    list.push('G');
    list.push('H');
    list.push('I');
    list.push('J');
    list.push('K');
    list.push('L');
    list.push('M');
    list.push('N');
    list.push('O');
    list.push('P');
    list.push('Q');
    list.push('R');
    list.push('S');
    list.push('T');
    list.push('U');
    list.push('V');
    list.push('W');
    list.push('X');
    list.push('Y');
    list.push('Z');
    list.push('0');
    list.push('1');
    list.push('2');
    list.push('3');
    list.push('4');
    list.push('5');
    list.push('6');
    list.push('7');
    list.push('8');
    list.push('9');
    list.push('~');
    list.push('-');
    list.push('+');
    list.push('[');
    list.push(']');
    list.push(';');
    list.push('\'');
    list.push('<');
    list.push('>');
    list.push('?');
    proof {
        assert(list@ =~= qwerty_letter_list());
    }
    list
}

/// Canonical letter ordering of the 48-key arrangement.
pub open spec fn qwertz_letter_list() -> Seq<char> {
    seq![
        'A', 'B', 'C', 'D', 'E', 'F', 'G', 'H', 'I', 'J', 'K', 'L',
        'M', 'N', 'O', 'P', 'Q', 'R', 'S', 'T', 'U', 'V', 'W', 'X',
        'Y', 'Z', '0', '1', '2', '3', '4', '5', '6', '7', '8', '9',
        '^', 'ß', '´', 'Ü', 'Ö', 'Ä', '+', '#', '<', ',', '.', '-',
    ]
}

/// The canonical 48-entry letter list.
#[verifier::rlimit(60)]
pub fn letter_list_qwertz() -> (list: Vec<char>)
    ensures
        list@ == qwertz_letter_list(),
        list@.len() == 48,
{
    let mut list: Vec<char> = Vec::new();
    list.push('A');
    list.push('B');
    list.push('C');
    list.push('D');
    list.push('E');
    list.push('F');
    list.push('G');
    list.push('H');
    list.push('I');
    list.push('J');
    list.push('K');
    list.push('L');
    list.push('M');
    list.push('N');
    list.push('O');
    list.push('P');
    list.push('Q');
    list.push('R');
    list.push('S');
    list.push('T');
    list.push('U');
    list.push('V');
    list.push('W');
    list.push('X');
    list.push('Y');
    list.push('Z');
    list.push('0');
    list.push('1');
    list.push('2');
    list.push('3');
    list.push('4');
    list.push('5');
    list.push('6');
    list.push('7');
    list.push('8');
    list.push('9');
    list.push('^');
    list.push('ß');
    list.push('´');
    list.push('Ü');
    list.push('Ö');
    list.push('Ä');
    list.push('+');
    list.push('#');
    list.push('<');
    list.push(',');
    list.push('.');
    list.push('-');
    proof {
        assert(list@ =~= qwertz_letter_list());
    }
    list
}


/// Whether `c` occurs among the first `upto` letters, phrased recursively
/// so it can be evaluated on the fixed lists.
pub open spec fn in_prefix(s: Seq<char>, c: char, upto: int) -> bool
    decreases upto,
{
    if upto <= 0 {
        false
    } else {
        s[upto - 1] == c || in_prefix(s, c, upto - 1)
    }
}

/// No letter among the first `upto` repeats an earlier one.
pub open spec fn distinct_upto(s: Seq<char>, upto: int) -> bool
    decreases upto,
{
    if upto <= 1 {
        true
    } else {
        distinct_upto(s, upto - 1) && !in_prefix(s, s[upto - 1], upto - 1)
    }
}

proof fn lemma_not_in_prefix_at(s: Seq<char>, c: char, upto: int, i: int)
    requires
        !in_prefix(s, c, upto),
        0 <= i < upto,
    ensures
        s[i] != c,
    decreases upto,
{
    if i < upto - 1 {
        lemma_not_in_prefix_at(s, c, upto - 1, i);
    }
}

proof fn lemma_distinct_at(s: Seq<char>, upto: int, i: int, j: int)
    requires
        distinct_upto(s, upto),
        0 <= i < j < upto,
    ensures
        s[i] != s[j],
    decreases upto,
{
    if j < upto - 1 {
        lemma_distinct_at(s, upto - 1, i, j);
    } else {
        lemma_not_in_prefix_at(s, s[j], j, i);
    }
}

proof fn lemma_distinct_upto_no_duplicates(s: Seq<char>)
    requires
        distinct_upto(s, s.len() as int),
    ensures
        s.no_duplicates(),
{
    assert forall|i: int, j: int|
        0 <= i < s.len() && 0 <= j < s.len() && i != j implies s[i] != s[j] by {
        if i < j {
            lemma_distinct_at(s, s.len() as int, i, j);
        } else {
            lemma_distinct_at(s, s.len() as int, j, i);
        }
    }
}

/// Each canonical letter list names every letter once: logical key
/// identity is unambiguous.
#[verifier::rlimit(100)]
pub proof fn lemma_letter_lists_distinct()
    ensures
        qwerty_letter_list().no_duplicates(),
        qwertz_letter_list().no_duplicates(),
{
    reveal_with_fuel(in_prefix, 50);
    reveal_with_fuel(distinct_upto, 50);
    assert(distinct_upto(qwerty_letter_list(), 46));
    lemma_distinct_upto_no_duplicates(qwerty_letter_list());
    assert(distinct_upto(qwertz_letter_list(), 48));
    lemma_distinct_upto_no_duplicates(qwertz_letter_list());
}

} // verus!
