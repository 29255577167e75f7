use keyboards::genome::{
    count_char, create_genome, is_permutation_of, number_of_switches, shuffle_genome,
};
use keyboards::layout::Layout;
use keyboards::rng::rng_from_seed;

fn sorted(v: &[char]) -> Vec<char> {
    let mut s: Vec<char> = v.to_vec();
    s.sort();
    s
}

#[test]
fn swap_count_follows_the_clamped_temperature_formula() {
    assert_eq!(number_of_switches(50, 46), 2);
    assert_eq!(number_of_switches(199, 46), 2);
    assert_eq!(number_of_switches(250, 46), 2);
    assert_eq!(number_of_switches(1000, 46), 10);
    assert_eq!(number_of_switches(10000, 46), 46);
}

#[test]
fn perturbation_preserves_the_letter_multiset() {
    let genome = Layout::QwertyEnUs.get_genome();
    let mut rng = rng_from_seed(7);
    for temperature in [2, 50, 400, 2500, 10000] {
        let shuffled = shuffle_genome(&genome, temperature, &mut rng);
        assert_eq!(sorted(&shuffled), sorted(&genome));
        assert!(is_permutation_of(&shuffled, &genome));
    }
}

#[test]
fn a_perturbation_changes_at_most_the_swap_count_of_slots() {
    let genome = Layout::QwertyEnUs.get_genome();
    let mut rng = rng_from_seed(21);
    for temperature in [2u64, 50, 400, 1000, 2500, 10000] {
        let k = number_of_switches(temperature, genome.len());
        let shuffled = shuffle_genome(&genome, temperature, &mut rng);
        let changed = genome
            .iter()
            .zip(shuffled.iter())
            .filter(|(a, b)| a != b)
            .count();
        assert!(changed <= k);
    }
}

#[test]
fn repeated_perturbation_never_breaks_the_genome_invariant() {
    let letter_list = Layout::QwertzDeDe.get_letter_list();
    let mut rng = rng_from_seed(99);
    let mut genome = create_genome(&letter_list, &mut rng);
    for _ in 0..200 {
        genome = shuffle_genome(&genome, 300, &mut rng);
        assert!(is_permutation_of(&genome, &letter_list));
    }
}

#[test]
fn a_fresh_genome_is_a_permutation_of_the_letter_list() {
    let letter_list = Layout::QwertyEnUs.get_letter_list();
    let mut rng = rng_from_seed(114211);
    let genome = create_genome(&letter_list, &mut rng);
    assert!(is_permutation_of(&genome, &letter_list));
    assert_eq!(genome.len(), letter_list.len());
    // the shuffle really rearranged the letters for this seed
    assert_ne!(genome, letter_list);
}

#[test]
fn perturbation_with_one_seed_is_reproducible() {
    let genome = Layout::QwertyEnUs.get_genome();
    let a = shuffle_genome(&genome, 500, &mut rng_from_seed(42));
    let b = shuffle_genome(&genome, 500, &mut rng_from_seed(42));
    assert_eq!(a, b);
    // and the perturbation really moved some letters for this seed
    assert_ne!(a, genome);
}

#[test]
fn letter_counts_are_exact() {
    let letters: Vec<char> = "ABRACADABRA".chars().collect();
    assert_eq!(count_char(&letters, 'A'), 5);
    assert_eq!(count_char(&letters, 'B'), 2);
    assert_eq!(count_char(&letters, 'Z'), 0);
    let other: Vec<char> = "ARBADACABRA".chars().collect();
    assert!(is_permutation_of(&letters, &other));
    let unequal: Vec<char> = "ABRACADABRR".chars().collect();
    assert!(!is_permutation_of(&letters, &unequal));
}
