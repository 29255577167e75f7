use keyboards::key_map::{determine_keypress, fold_char, resolve_keypresses};
use keyboards::layout::Layout;

#[test]
fn folding_uppercases_letters_and_umlauts() {
    assert_eq!(fold_char('a'), 'A');
    assert_eq!(fold_char('z'), 'Z');
    assert_eq!(fold_char('Q'), 'Q');
    assert_eq!(fold_char('ä'), 'Ä');
    assert_eq!(fold_char('ö'), 'Ö');
    assert_eq!(fold_char('ü'), 'Ü');
    assert_eq!(fold_char('?'), '?');
    assert_eq!(fold_char(' '), ' ');
    assert_eq!(fold_char('ß'), 'ß');
}

#[test]
fn keypresses_resolve_to_zero_based_letter_positions() {
    let key_map = Layout::QwertyEnUs.get_key_map();
    assert_eq!(determine_keypress(&key_map, 'A'), Some(0));
    assert_eq!(determine_keypress(&key_map, 'a'), Some(0));
    assert_eq!(determine_keypress(&key_map, 'Z'), Some(25));
    assert_eq!(determine_keypress(&key_map, '0'), Some(26));
    assert_eq!(determine_keypress(&key_map, '?'), Some(45));
}

#[test]
fn unmapped_characters_are_silently_dropped() {
    let key_map = Layout::QwertyEnUs.get_key_map();
    assert_eq!(determine_keypress(&key_map, ' '), None);
    assert_eq!(determine_keypress(&key_map, '\n'), None);
    assert_eq!(determine_keypress(&key_map, '!'), None);
    // German umlauts are not typable on the 46-key arrangement
    assert_eq!(determine_keypress(&key_map, 'ä'), None);
    assert_eq!(determine_keypress(&key_map, 'ü'), None);
}

#[test]
fn umlauts_are_typable_on_the_qwertz_arrangement() {
    let key_map = Layout::QwertzDeDe.get_key_map();
    assert_eq!(determine_keypress(&key_map, 'ü'), Some(39));
    assert_eq!(determine_keypress(&key_map, 'Ö'), Some(40));
    assert_eq!(determine_keypress(&key_map, 'ä'), Some(41));
    assert_eq!(determine_keypress(&key_map, 'ß'), Some(37));
}

#[test]
fn a_corpus_resolves_to_its_key_press_sequence_in_order() {
    let key_map = Layout::QwertyEnUs.get_key_map();
    let text: Vec<char> = "THE QUICK BROWN FOX".chars().collect();
    let key_presses = resolve_keypresses(&key_map, &text);
    assert_eq!(
        key_presses,
        vec![19, 7, 4, 16, 20, 8, 2, 10, 1, 17, 14, 22, 13, 5, 14, 23]
    );
}

#[test]
fn resolution_is_case_insensitive() {
    let key_map = Layout::QwertyEnUs.get_key_map();
    let upper: Vec<char> = "FOX".chars().collect();
    let lower: Vec<char> = "fox".chars().collect();
    assert_eq!(
        resolve_keypresses(&key_map, &upper),
        resolve_keypresses(&key_map, &lower)
    );
}

#[test]
fn an_empty_or_untypable_corpus_resolves_to_no_key_presses() {
    let key_map = Layout::QwertyEnUs.get_key_map();
    let empty: Vec<char> = Vec::new();
    assert_eq!(resolve_keypresses(&key_map, &empty), Vec::<usize>::new());
    let untypable: Vec<char> = " \n\t!()".chars().collect();
    assert_eq!(resolve_keypresses(&key_map, &untypable), Vec::<usize>::new());
}
