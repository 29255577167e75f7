use vstd::prelude::*;

use rand::rngs::StdRng;

use crate::rng::{shuffle_letters, shuffle_positions};

verus! {

/// The letters a genome holds at a given sequence of slot indices.
pub open spec fn letters_at(g: Seq<char>, idx: Seq<usize>) -> Seq<char> {
    Seq::new(idx.len(), |i: int| g[idx[i] as int])
}

/// Reading a genome at two index sequences that hold the same indices (as a
/// multiset) yields the same multiset of letters.
pub proof fn lemma_reindex_multiset(g: Seq<char>, s: Seq<usize>, t: Seq<usize>)
    requires
        s.to_multiset() == t.to_multiset(),
        forall|i: int| 0 <= i < s.len() ==> s[i] < g.len(),
    ensures
        letters_at(g, s).to_multiset() == letters_at(g, t).to_multiset(),
    decreases s.len(),
{
    broadcast use vstd::seq_lib::group_to_multiset_ensures;
    broadcast use vstd::multiset::group_multiset_axioms;

    if s.len() == 0 {
        assert(t.len() == 0) by {
            assert(s.to_multiset().len() == s.len());
            assert(t.to_multiset().len() == t.len());
        }
        assert(letters_at(g, s) =~= letters_at(g, t));
    } else {
        let x = s[0];
        assert(s.contains(x));
        assert(t.to_multiset().count(x) > 0);
        assert(t.contains(x));
        let j = choose|j: int| 0 <= j < t.len() && t[j] == x;
        let s1 = s.remove(0);
        let t1 = t.remove(j);
        assert(s1.to_multiset() == t1.to_multiset()) by {
            assert(s1.to_multiset() == s.to_multiset().remove(x));
            assert(t1.to_multiset() == t.to_multiset().remove(x));
        }
        assert(forall|i: int| 0 <= i < s1.len() ==> s1[i] < g.len()) by {
            assert(forall|i: int| 0 <= i < s1.len() ==> s1[i] == s[i + 1]);
        }
        lemma_reindex_multiset(g, s1, t1);
        let ms = letters_at(g, s);
        let mt = letters_at(g, t);
        assert(letters_at(g, s1) =~= ms.remove(0));
        assert(letters_at(g, t1) =~= mt.remove(j)) by {
            assert(forall|i: int| 0 <= i < j ==> mt.remove(j)[i] == mt[i]);
            assert(forall|i: int|
                j <= i < mt.len() - 1 ==> mt.remove(j)[i] == mt[i + 1]);
        }
        assert(ms.remove(0).to_multiset() == ms.to_multiset().remove(ms[0]));
        assert(mt.remove(j).to_multiset() == mt.to_multiset().remove(mt[j]));
        assert(ms[0] == g[x as int]);
        assert(mt[j] == g[x as int]);
        assert(ms.to_multiset().count(g[x as int]) > 0) by {
            assert(ms.contains(g[x as int]));
        }
        assert(mt.to_multiset().count(g[x as int]) > 0) by {
            assert(mt.contains(g[x as int]));
        }
        assert forall|c: char| #[trigger] ms.to_multiset().count(c) == mt.to_multiset().count(c) by {
            assert(ms.to_multiset().remove(g[x as int]).count(c) == mt.to_multiset().remove(
                g[x as int],
            ).count(c));
        }
        assert(ms.to_multiset() =~= mt.to_multiset());
    }
}

/// An element-for-element copy of a letter vector.
pub(crate) fn copy_letters(v: &Vec<char>) -> (c: Vec<char>)
    ensures
        c@ == v@,
{
    let mut c: Vec<char> = Vec::new();
    let mut i: usize = 0;
    while i < v.len()
        invariant
            i <= v@.len(),
            c@.len() == i as int,
            forall|j: int| 0 <= j < i ==> c@[j] == v@[j],
        decreases v@.len() - i,
    {
        c.push(v[i]);
        i = i + 1;
    }
    proof {
        assert(c@ =~= v@);
    }
    c
}

/// An element-for-element copy of a position vector.
fn copy_positions(v: &Vec<usize>) -> (c: Vec<usize>)
    ensures
        c@ == v@,
{
    let mut c: Vec<usize> = Vec::new();
    let mut i: usize = 0;
    while i < v.len()
        invariant
            i <= v@.len(),
            c@.len() == i as int,
            forall|j: int| 0 <= j < i ==> c@[j] == v@[j],
        decreases v@.len() - i,
    {
        c.push(v[i]);
        i = i + 1;
    }
    proof {
        assert(c@ =~= v@);
    }
    c
}

/// A fresh candidate: a uniformly shuffled permutation of the letter list.
/// The letter list itself is left untouched; the canonical letter ordering
/// is immutable for the life of a run.
pub fn create_genome(letter_list: &Vec<char>, rng: &mut StdRng) -> (genome: Vec<char>)
    ensures
        genome@.len() == letter_list@.len(),
        genome@.to_multiset() == letter_list@.to_multiset(),
{
    let mut genome = copy_letters(letter_list);
    shuffle_letters(&mut genome, rng);
    genome
}

/// How many slot assignments one perturbation resamples: the temperature
/// divided by 100, clamped to at least 2 and at most the genome length.
pub open spec fn spec_number_of_switches(temperature: u64, n: int) -> int {
    let q = temperature as int / 100;
    let m = if q < n {
        q
    } else {
        n
    };
    if m < 2 {
        2
    } else {
        m
    }
}

/// The swap count of one perturbation at a given temperature.
pub fn number_of_switches(temperature: u64, n: usize) -> (k: usize)
    requires
        n >= 2,
    ensures
        k == spec_number_of_switches(temperature, n as int),
        2 <= k <= n,
{
    let q: u64 = temperature / 100;
    let m: u64 = if q < (n as u64) {
        q
    } else {
        n as u64
    };
    if m < 2 {
        2
    } else {
        m as usize
    }
}

/// What one perturbation does to a genome: the letters on `count` distinct
/// source slots were redistributed by reading each source's new letter off
/// a target slot, the targets being a permutation of that same slot set,
/// and every slot outside the sources kept its letter.
pub open spec fn is_slot_resample(
    old_genome: Seq<char>,
    new_genome: Seq<char>,
    sources: Seq<usize>,
    targets: Seq<usize>,
    count: int,
) -> bool {
    &&& sources.no_duplicates()
    &&& sources.len() == count
    &&& forall|j: int| 0 <= j < sources.len() ==> (#[trigger] sources[j]) < old_genome.len()
    &&& targets.to_multiset() == sources.to_multiset()
    &&& forall|j: int|
        #![trigger sources[j], targets[j]]
        0 <= j < sources.len() ==> new_genome[sources[j] as int] == old_genome[targets[j] as int]
    &&& forall|p: int|
        0 <= p < old_genome.len() && !sources.contains(p as usize) ==> #[trigger] new_genome[p]
            == old_genome[p]
}

/// One perturbation step: choose `number_of_switches` distinct slots at
/// random, and redistribute the letters found on them by an independent
/// random permutation of that same slot set; every other slot keeps its
/// letter.  Because the target slots are a permutation of the source slots,
/// the result holds exactly the same multiset of letters as the input, and
/// at most `number_of_switches` slots change.
pub fn shuffle_genome(current_genome: &Vec<char>, temperature: u64, rng: &mut StdRng) -> (new_genome:
    Vec<char>)
    requires
        current_genome@.len() >= 2,
    ensures
        new_genome@.len() == current_genome@.len(),
        new_genome@.to_multiset() == current_genome@.to_multiset(),
        exists|sources: Seq<usize>, targets: Seq<usize>|
            is_slot_resample(
                current_genome@,
                new_genome@,
                sources,
                targets,
                spec_number_of_switches(temperature, current_genome@.len() as int),
            ),
{
    broadcast use vstd::seq_lib::group_to_multiset_ensures;
    broadcast use vstd::multiset::group_multiset_axioms;

    let ghost g = current_genome@;
    let n = current_genome.len();
    let no_switches = number_of_switches(temperature, n);

    // All slot indices, then shuffled: the first `no_switches` of them are
    // the distinct source slots of this perturbation.
    let mut positions: Vec<usize> = Vec::new();
    let mut i: usize = 0;
    while i < n
        invariant
            i <= n,
            positions@.len() == i as int,
            forall|j: int| 0 <= j < i ==> positions@[j] == j,
        decreases n - i,
    {
        positions.push(i);
        i = i + 1;
    }
    proof {
        assert(positions@.no_duplicates());
        positions@.lemma_multiset_has_no_duplicates();
    }
    let ghost positions0 = positions@;
    shuffle_positions(&mut positions, rng);
    proof {
        assert forall|j: int| 0 <= j < positions@.len() implies positions@[j] < n by {
            let p = positions@[j];
            assert(positions@.contains(p));
            assert(positions0.to_multiset().count(p) > 0);
            assert(positions0.contains(p));
        }
        assert forall|x: usize|
            positions@.to_multiset().contains(x) implies positions@.to_multiset().count(x)
            == 1 by {
            assert(positions0.to_multiset().contains(x));
        }
        positions@.lemma_multiset_has_no_duplicates_conv();
    }

    let mut switched: Vec<usize> = Vec::new();
    let mut i: usize = 0;
    while i < no_switches
        invariant
            i <= no_switches,
            no_switches <= positions@.len(),
            switched@.len() == i as int,
            forall|j: int| 0 <= j < i ==> switched@[j] == positions@[j],
        decreases no_switches - i,
    {
        switched.push(positions[i]);
        i = i + 1;
    }
    let ghost s = switched@;
    proof {
        assert(s.no_duplicates());
        assert(forall|j: int| 0 <= j < s.len() ==> s[j] < n);
    }

    // The target slots: the same set of slots, independently permuted.
    let mut targets: Vec<usize> = copy_positions(&switched);
    shuffle_positions(&mut targets, rng);
    let ghost t = targets@;
    proof {
        assert(t.to_multiset() == s.to_multiset());
        assert forall|j: int| 0 <= j < t.len() implies t[j] < n by {
            let p = t[j];
            assert(t.contains(p));
            assert(s.to_multiset().count(p) > 0);
            assert(s.contains(p));
        }
    }

    let k = no_switches;
    let mut new_genome: Vec<char> = copy_letters(current_genome);
    let mut i: usize = 0;
    while i < k
        invariant
            i <= k,
            k == s.len(),
            k == t.len(),
            switched@ == s,
            targets@ == t,
            current_genome@ == g,
            new_genome@.len() == n,
            g.len() == n,
            n >= 2,
            s.no_duplicates(),
            forall|j: int| 0 <= j < k ==> s[j] < n,
            forall|j: int| 0 <= j < k ==> t[j] < n,
            t.to_multiset() == s.to_multiset(),
            forall|j: int| i <= j < k ==> new_genome@[s[j] as int] == g[s[j] as int],
            forall|j: int|
                #![trigger s[j], t[j]]
                0 <= j < i ==> new_genome@[s[j] as int] == g[t[j] as int],
            forall|p: int|
                0 <= p < n && !s.contains(p as usize) ==> #[trigger] new_genome@[p] == g[p],
            new_genome@.to_multiset().add(letters_at(g, s.take(i as int)).to_multiset())
                == g.to_multiset().add(letters_at(g, t.take(i as int)).to_multiset()),
        decreases k - i,
    {
        broadcast use vstd::seq_lib::group_to_multiset_ensures;
        broadcast use vstd::multiset::group_multiset_axioms;

        let src = switched[i];
        let tgt = targets[i];
        let letter = current_genome[tgt];
        let ghost old_ng = new_genome@;
        proof {
            assert(old_ng[src as int] == g[s[i as int] as int]);
        }
        new_genome.set(src, letter);
        proof {
            let ii = i as int;
            let removed = g[s[ii] as int];
            let added = g[t[ii] as int];
            assert(new_genome@ == old_ng.update(src as int, added));
            assert(s.contains(s[ii]));
            assert(new_genome@.to_multiset() == old_ng.to_multiset().insert(added).remove(
                removed,
            ));
            assert(old_ng.to_multiset().count(removed) > 0) by {
                assert(old_ng.contains(removed));
            }
            assert(s.take(ii + 1) =~= s.take(ii).push(s[ii]));
            assert(t.take(ii + 1) =~= t.take(ii).push(t[ii]));
            assert(letters_at(g, s.take(ii + 1)) =~= letters_at(g, s.take(ii)).push(removed));
            assert(letters_at(g, t.take(ii + 1)) =~= letters_at(g, t.take(ii)).push(added));
            assert(letters_at(g, s.take(ii + 1)).to_multiset() == letters_at(
                g,
                s.take(ii),
            ).to_multiset().insert(removed));
            assert(letters_at(g, t.take(ii + 1)).to_multiset() == letters_at(
                g,
                t.take(ii),
            ).to_multiset().insert(added));
            assert forall|c: char|
                #[trigger] new_genome@.to_multiset().add(
                    letters_at(g, s.take(ii + 1)).to_multiset(),
                ).count(c) == g.to_multiset().add(
                    letters_at(g, t.take(ii + 1)).to_multiset(),
                ).count(c) by {
                assert(old_ng.to_multiset().add(letters_at(g, s.take(ii)).to_multiset()).count(c)
                    == g.to_multiset().add(letters_at(g, t.take(ii)).to_multiset()).count(c));
            }
            assert(new_genome@.to_multiset().add(letters_at(g, s.take(ii + 1)).to_multiset())
                =~= g.to_multiset().add(letters_at(g, t.take(ii + 1)).to_multiset()));
        }
        i = i + 1;
    }
    proof {
        assert(s.take(k as int) =~= s);
        assert(t.take(k as int) =~= t);
        lemma_reindex_multiset(g, s, t);
        assert(is_slot_resample(g, new_genome@, s, t, k as int));
        assert forall|c: char| #[trigger] new_genome@.to_multiset().count(c) == g.to_multiset().count(
            c,
        ) by {
            assert(new_genome@.to_multiset().add(letters_at(g, s).to_multiset()).count(c)
                == g.to_multiset().add(letters_at(g, t).to_multiset()).count(c));
            assert(letters_at(g, s).to_multiset().count(c) == letters_at(g, t).to_multiset().count(
                c,
            ));
        }
        assert(new_genome@.to_multiset() =~= g.to_multiset());
    }
    new_genome
}

/// Occurrences of one letter in a letter vector.
pub fn count_char(list: &Vec<char>, c: char) -> (count: u64)
    ensures
        count == list@.to_multiset().count(c),
{
    broadcast use vstd::seq_lib::group_to_multiset_ensures;
    broadcast use vstd::multiset::group_multiset_axioms;

    let mut count: u64 = 0;
    let mut i: usize = 0;
    while i < list.len()
        invariant
            i <= list@.len(),
            count <= i,
            count == list@.take(i as int).to_multiset().count(c),
        decreases list@.len() - i,
    {
        broadcast use vstd::seq_lib::group_to_multiset_ensures;
        broadcast use vstd::multiset::group_multiset_axioms;

        proof {
            assert(list@.take(i + 1) =~= list@.take(i as int).push(list@[i as int]));
        }
        if list[i] == c {
            count = count + 1;
        }
        i = i + 1;
    }
    proof {
        assert(list@.take(list@.len() as int) =~= list@);
    }
    count
}

/// Caller-side validation of the genome invariant: true exactly when the two
/// vectors hold the same multiset of letters, so that one is a permutation
/// of the other.
pub fn is_permutation_of(a: &Vec<char>, b: &Vec<char>) -> (r: bool)
    ensures
        r == (a@.to_multiset() == b@.to_multiset()),
{
    broadcast use vstd::seq_lib::group_to_multiset_ensures;
    broadcast use vstd::multiset::group_multiset_axioms;

    let mut i: usize = 0;
    while i < a.len()
        invariant
            i <= a@.len(),
            forall|j: int|
                0 <= j < i ==> a@.to_multiset().count(#[trigger] a@[j]) == b@.to_multiset().count(
                    a@[j],
                ),
        decreases a@.len() - i,
    {
        let ca = count_char(a, a[i]);
        let cb = count_char(b, a[i]);
        if ca != cb {
            return false;
        }
        i = i + 1;
    }
    let mut i: usize = 0;
    while i < b.len()
        invariant
            i <= b@.len(),
            forall|j: int|
                0 <= j < a@.len() ==> a@.to_multiset().count(#[trigger] a@[j])
                    == b@.to_multiset().count(a@[j]),
            forall|j: int|
                0 <= j < i ==> a@.to_multiset().count(#[trigger] b@[j]) == b@.to_multiset().count(
                    b@[j],
                ),
        decreases b@.len() - i,
    {
        let ca = count_char(a, b[i]);
        let cb = count_char(b, b[i]);
        if ca != cb {
            return false;
        }
        i = i + 1;
    }
    proof {
        assert forall|c: char| #[trigger] a@.to_multiset().count(c) == b@.to_multiset().count(c) by {
            if a@.contains(c) {
                let j = choose|j: int| 0 <= j < a@.len() && a@[j] == c;
                assert(a@.to_multiset().count(a@[j]) == b@.to_multiset().count(a@[j]));
            } else if b@.contains(c) {
                let j = choose|j: int| 0 <= j < b@.len() && b@[j] == c;
                assert(a@.to_multiset().count(b@[j]) == b@.to_multiset().count(b@[j]));
            } else {
                assert(a@.to_multiset().count(c) == 0);
                assert(b@.to_multiset().count(c) == 0);
            }
        }
        assert(a@.to_multiset() =~= b@.to_multiset());
    }
    true
}


/// The reference genome that places every letter on its traditional key.
pub open spec fn spec_qwerty_genome() -> Seq<char> {
    seq![
        '~', '1', '2', '3', '4', '5', '6', '7', '8', '9', '0', '-',
        '+', 'Q', 'W', 'E', 'R', 'T', 'Y', 'U', 'I', 'O', 'P', '[',
        ']', 'A', 'S', 'D', 'F', 'G', 'H', 'J', 'K', 'L', ';', '\'',
        'Z', 'X', 'C', 'V', 'B', 'N', 'M', '<', '>', '?',
    ]
}

/// The traditional 46-key reference genome, used to score the baseline.
#[verifier::rlimit(60)]
pub fn qwerty_genome() -> (list: Vec<char>)
    ensures
        list@ == spec_qwerty_genome(),
        list@.len() == 46,
{
    let mut list: Vec<char> = Vec::new();
    list.push('~');
    list.push('1');
    list.push('2');
    list.push('3');
    list.push('4');
    list.push('5');
    list.push('6');
    list.push('7');
    list.push('8');
    list.push('9');
    list.push('0');
    list.push('-');
    list.push('+');
    list.push('Q');
    list.push('W');
    list.push('E');
    list.push('R');
    list.push('T');
    list.push('Y');
    list.push('U');
    list.push('I');
    list.push('O');
    list.push('P');
    list.push('[');
    list.push(']');
    list.push('A');
    list.push('S');
    list.push('D');
    list.push('F');
    list.push('G');
    list.push('H');
    list.push('J');
    list.push('K');
    list.push('L');
    list.push(';');
    list.push('\'');
    list.push('Z');
    list.push('X');
    list.push('C');
    list.push('V');
    list.push('B');
    list.push('N');
    list.push('M');
    list.push('<');
    list.push('>');
    list.push('?');
    proof {
        assert(list@ =~= spec_qwerty_genome());
    }
    list
}

/// The reference genome of the traditional 48-key arrangement.
pub open spec fn spec_qwertz_genome() -> Seq<char> {
    seq![
        '^', '1', '2', '3', '4', '5', '6', '7', '8', '9', '0', 'ß',
        '´', 'Q', 'W', 'E', 'R', 'T', 'Z', 'U', 'I', 'O', 'P', 'Ü',
        '+', 'A', 'S', 'D', 'F', 'G', 'H', 'J', 'K', 'L', 'Ö', 'Ä',
        '#', '<', 'Y', 'X', 'C', 'V', 'B', 'N', 'M', ',', '.', '-',
    ]
}

/// The traditional 48-key reference genome, used to score the baseline.
#[verifier::rlimit(60)]
pub fn qwertz_genome() -> (list: Vec<char>)
    ensures
        list@ == spec_qwertz_genome(),
        list@.len() == 48,
{
    let mut list: Vec<char> = Vec::new();
    list.push('^');
    list.push('1');
    list.push('2');
    list.push('3');
    list.push('4');
    list.push('5');
    list.push('6');
    list.push('7');
    list.push('8');
    list.push('9');
    list.push('0');
    list.push('ß');
    list.push('´');
    list.push('Q');
    list.push('W');
    list.push('E');
    list.push('R');
    list.push('T');
    list.push('Z');
    list.push('U');
    list.push('I');
    list.push('O');
    list.push('P');
    list.push('Ü');
    list.push('+');
    list.push('A');
    list.push('S');
    list.push('D');
    list.push('F');
    list.push('G');
    list.push('H');
    list.push('J');
    list.push('K');
    list.push('L');
    list.push('Ö');
    list.push('Ä');
    list.push('#');
    list.push('<');
    list.push('Y');
    list.push('X');
    list.push('C');
    list.push('V');
    list.push('B');
    list.push('N');
    list.push('M');
    list.push(',');
    list.push('.');
    list.push('-');
    proof {
        assert(list@ =~= spec_qwertz_genome());
    }
    list
}


/// Occurrences of `c` among the first `upto` letters, phrased recursively
/// so it can be evaluated on the fixed lists.
pub open spec fn count_in(s: Seq<char>, c: char, upto: int) -> int
    decreases upto,
{
    if upto <= 0 {
        0
    } else {
        count_in(s, c, upto - 1) + if s[upto - 1] == c {
            1int
        } else {
            0int
        }
    }
}

proof fn lemma_count_in_is_multiset_count(s: Seq<char>, c: char, upto: int)
    requires
        0 <= upto <= s.len(),
    ensures
        count_in(s, c, upto) == s.take(upto).to_multiset().count(c),
    decreases upto,
{
    broadcast use vstd::seq_lib::group_to_multiset_ensures;
    broadcast use vstd::multiset::group_multiset_axioms;

    if upto == 0 {
        assert(s.take(0).to_multiset().len() == 0);
        vstd::multiset::lemma_multiset_empty_len(s.take(0).to_multiset());
    } else {
        lemma_count_in_is_multiset_count(s, c, upto - 1);
        assert(s.take(upto) =~= s.take(upto - 1).push(s[upto - 1]));
    }
}

#[verifier::rlimit(100)]
proof fn lemma_qwerty_genome_permutation()
    ensures
        spec_qwerty_genome().to_multiset() == crate::letter_list::qwerty_letter_list().to_multiset(),
{
    broadcast use vstd::seq_lib::group_to_multiset_ensures;
    broadcast use vstd::multiset::group_multiset_axioms;

    let qg = spec_qwerty_genome();
    let ql = crate::letter_list::qwerty_letter_list();
    assert forall|c: char| qg.to_multiset().count(c) == ql.to_multiset().count(c) by {
        assert(count_in(qg, c, 46) == count_in(ql, c, 46)) by {
            reveal_with_fuel(count_in, 50);
        }
        lemma_count_in_is_multiset_count(qg, c, 46);
        lemma_count_in_is_multiset_count(ql, c, 46);
        assert(qg.take(46) =~= qg);
        assert(ql.take(46) =~= ql);
    }
    assert(qg.to_multiset() =~= ql.to_multiset());
}

#[verifier::rlimit(100)]
proof fn lemma_qwertz_genome_permutation()
    ensures
        spec_qwertz_genome().to_multiset() == crate::letter_list::qwertz_letter_list().to_multiset(),
{
    broadcast use vstd::seq_lib::group_to_multiset_ensures;
    broadcast use vstd::multiset::group_multiset_axioms;

    let zg = spec_qwertz_genome();
    let zl = crate::letter_list::qwertz_letter_list();
    assert forall|c: char| zg.to_multiset().count(c) == zl.to_multiset().count(c) by {
        assert(count_in(zg, c, 48) == count_in(zl, c, 48)) by {
            reveal_with_fuel(count_in, 50);
        }
        lemma_count_in_is_multiset_count(zg, c, 48);
        lemma_count_in_is_multiset_count(zl, c, 48);
        assert(zg.take(48) =~= zg);
        assert(zl.take(48) =~= zl);
    }
    assert(zg.to_multiset() =~= zl.to_multiset());
}

/// Each reference genome holds exactly the letters of its letter list:
/// the genome invariant holds of the shipped data.
pub proof fn lemma_reference_genomes_are_permutations()
    ensures
        spec_qwerty_genome().to_multiset() == crate::letter_list::qwerty_letter_list().to_multiset(),
        spec_qwertz_genome().to_multiset() == crate::letter_list::qwertz_letter_list().to_multiset(),
{
    lemma_qwerty_genome_permutation();
    lemma_qwertz_genome_permutation();
}
} // verus!
