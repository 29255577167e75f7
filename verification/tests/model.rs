use keyboards::effort_model::{finger_cpm, row_cpm};
use keyboards::genome::is_permutation_of;
use keyboards::layout::Layout;
use keyboards::logging::{LoggingOptions, SaveImageOption, Verbosity};

#[test]
fn the_reference_typing_speeds_are_fixed() {
    assert_eq!(finger_cpm(), vec![223, 169, 225, 273, 343, 313, 259, 241]);
    assert_eq!(row_cpm(), vec![131, 166, 276, 192]);
}

#[test]
fn derived_finger_efforts_leave_the_fastest_finger_at_zero() {
    let cpm = finger_cpm();
    let mean = cpm.iter().sum::<i32>() as f64 / cpm.len() as f64;
    let std = (cpm
        .iter()
        .map(|&x| (x as f64 - mean).powi(2))
        .sum::<f64>()
        / cpm.len() as f64)
        .sqrt();
    let z_scores: Vec<f64> = cpm.iter().map(|&x| -(x as f64 - mean) / std).collect();
    let min = z_scores.iter().cloned().fold(f64::NAN, f64::min);
    let efforts: Vec<f64> = z_scores.iter().map(|&z| z - min).collect();
    // the fastest finger (343 cpm, finger id 4) carries zero effort
    assert_eq!(efforts[4], 0.0);
    assert!(efforts.iter().all(|&e| e >= 0.0));
    // the slowest finger (169 cpm, finger id 1) carries the largest effort
    let max = efforts.iter().cloned().fold(f64::NAN, f64::max);
    assert_eq!(efforts[1], max);
}

#[test]
fn each_reference_genome_is_a_permutation_of_its_letter_list() {
    for layout in [Layout::QwertyEnUs, Layout::QwertzDeDe] {
        let genome = layout.get_genome();
        let letters = layout.get_letter_list();
        assert_eq!(genome.len(), layout.key_count());
        assert_eq!(letters.len(), layout.key_count());
        assert!(is_permutation_of(&genome, &letters));
        assert_eq!(layout.get_layout_map().len(), layout.key_count());
    }
}

#[test]
fn silent_logging_switches_everything_off() {
    let options = LoggingOptions::silent();
    assert!(!options.text);
    assert!(matches!(options.image, SaveImageOption::NoImages));
    assert!(!options.verbosity.is_normal());
}

#[test]
fn normal_verbosity_is_the_default() {
    assert!(Verbosity::default().is_normal());
    assert!(Verbosity::Normal.is_normal());
    assert!(!Verbosity::Silent.is_normal());
}
