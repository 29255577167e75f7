use keyboards::key_map::resolve_keypresses;
use keyboards::layout::Layout;
use keyboards::layout_map::KeyboardRow;
use keyboards::objective::{evaluate_keypresses, validate_inputs, PressRecord};

const EFFORT_WEIGHTING: [f64; 5] = [0.7917, 1.0, 0.0, 0.4773, 0.0];

fn effort_from_cpm(cpm: &[i32], shift_by_max: bool) -> Vec<f64> {
    let mean = cpm.iter().sum::<i32>() as f64 / cpm.len() as f64;
    let std = (cpm
        .iter()
        .map(|&x| (x as f64 - mean).powi(2))
        .sum::<f64>()
        / cpm.len() as f64)
        .sqrt();
    let z_scores: Vec<f64> = cpm.iter().map(|&x| -(x as f64 - mean) / std).collect();
    let shift = if shift_by_max {
        z_scores.iter().cloned().fold(f64::NAN, f64::max)
    } else {
        z_scores.iter().cloned().fold(f64::NAN, f64::min)
    };
    z_scores.iter().map(|&z| z - shift).collect()
}

fn effort_tables() -> (Vec<f64>, Vec<f64>) {
    let finger_effort = effort_from_cpm(&keyboards::effort_model::finger_cpm(), false);
    let row_effort = effort_from_cpm(&keyboards::effort_model::row_cpm(), true);
    (finger_effort, row_effort)
}

fn objective_from_records(
    records: &[PressRecord],
    finger_effort: &[f64],
    row_effort: &[f64],
    layout_score: Option<f64>,
) -> f64 {
    let mut finger_objectives = [0.0f64; 8];
    for record in records {
        let penalties = [
            record.distance_penalty as f64,
            record.double_finger_penalty as f64,
            record.double_hand_penalty as f64,
            finger_effort[record.finger_id],
            row_effort[record.row.as_index()],
        ];
        let penalty = penalties
            .iter()
            .zip(EFFORT_WEIGHTING.iter())
            .map(|(x, y)| x * (*y))
            .sum::<f64>();
        finger_objectives[record.finger_id] += penalty;
    }
    let mut objective = finger_objectives.iter().sum::<f64>();
    if let Some(layout_score) = layout_score {
        objective = (objective / layout_score - 1.0) * 100.0;
    }
    objective
}

fn qwerty_records(text: &str) -> Vec<PressRecord> {
    let layout = Layout::QwertyEnUs;
    let layout_map = layout.get_layout_map();
    let letter_list = layout.get_letter_list();
    let genome = layout.get_genome();
    let key_map = layout.get_key_map();
    let chars: Vec<char> = text.chars().collect();
    let key_presses = resolve_keypresses(&key_map, &chars);
    assert!(validate_inputs(&key_presses, &genome, &layout_map, &letter_list));
    evaluate_keypresses(&key_presses, &genome, &layout_map, &letter_list)
}

#[test]
fn evaluation_is_deterministic_bit_for_bit() {
    let text = "THE QUICK BROWN FOX JUMPS OVER THE LAZY DOG";
    let records_a = qwerty_records(text);
    let records_b = qwerty_records(text);
    assert_eq!(records_a, records_b);
    let (finger_effort, row_effort) = effort_tables();
    let score_a = objective_from_records(&records_a, &finger_effort, &row_effort, None);
    let score_b = objective_from_records(&records_b, &finger_effort, &row_effort, None);
    assert_eq!(score_a.to_bits(), score_b.to_bits());
}

#[test]
fn the_first_keypress_is_exempt_from_the_double_hand_penalty() {
    // 'A' is struck with the left hand, 'J' with the right: neither first
    // press is charged the double-hand penalty.
    let left_first = qwerty_records("AJ");
    assert_eq!(left_first[0].double_hand_penalty, 0);
    let right_first = qwerty_records("JA");
    assert_eq!(right_first[0].double_hand_penalty, 0);
}

#[test]
fn press_records_carry_the_exact_penalty_ingredients() {
    // 'J' rests on its home slot; 'Q' sits a row up and a column over from
    // the left ring finger's home.
    let records = qwerty_records("JQ");
    assert_eq!(records.len(), 2);

    assert_eq!(records[0].finger_id, 7);
    assert_eq!(records[0].distance, 0);
    assert_eq!(records[0].distance_penalty, 0);
    assert_eq!(records[0].double_finger_penalty, 0);
    assert_eq!(records[0].double_hand_penalty, 0);
    assert!(matches!(records[0].row, KeyboardRow::MiddleLetter));

    assert_eq!(records[1].finger_id, 0);
    assert_eq!(records[1].distance, 125);
    assert_eq!(records[1].distance_penalty, 125);
    assert_eq!(records[1].double_finger_penalty, 1);
    assert_eq!(records[1].double_hand_penalty, 1);
    assert!(matches!(records[1].row, KeyboardRow::TopLetter));
}

#[test]
fn idle_fingers_return_home_between_presses() {
    // 'Q' pulls the left ring finger off its home; the next 'A' finds it
    // on 'Q', while a press on another finger lets it snap back home.
    let records = qwerty_records("QA");
    assert_eq!(records[0].distance, 125);
    assert_eq!(records[1].distance, 125);

    let records = qwerty_records("QJQ");
    assert_eq!(records[2].distance, 125);
}

#[test]
fn consecutive_presses_on_one_finger_carry_no_double_finger_penalty() {
    let records = qwerty_records("QA");
    assert_eq!(records[1].double_finger_penalty, 0);
}

#[test]
fn a_press_without_travel_carries_no_double_finger_penalty() {
    // 'J' rests on the right thumb's home slot: distance 0, so no
    // double-finger penalty even though the finger changed.
    let records = qwerty_records("QJ");
    assert_eq!(records[1].distance, 0);
    assert_eq!(records[1].double_finger_penalty, 0);
}

#[test]
fn baseline_normalization_is_the_percentage_deviation() {
    let records = qwerty_records("THE QUICK BROWN FOX");
    let (finger_effort, row_effort) = effort_tables();
    let raw = objective_from_records(&records, &finger_effort, &row_effort, None);
    let baseline = 2.0 * raw;
    let normalized =
        objective_from_records(&records, &finger_effort, &row_effort, Some(baseline));
    assert_eq!(normalized.to_bits(), ((raw / baseline - 1.0) * 100.0).to_bits());
    // scoring an arrangement against its own raw score is exactly zero
    let self_normalized = objective_from_records(&records, &finger_effort, &row_effort, Some(raw));
    assert_eq!(self_normalized, 0.0);
}

#[test]
fn malformed_setups_are_rejected_up_front() {
    let layout = Layout::QwertyEnUs;
    let layout_map = layout.get_layout_map();
    let letter_list = layout.get_letter_list();
    let genome = layout.get_genome();
    let key_presses = vec![0usize, 3, 7];
    assert!(validate_inputs(&key_presses, &genome, &layout_map, &letter_list));

    // a genome that is no permutation of the letter list
    let mut broken = genome.clone();
    broken[0] = broken[1];
    assert!(!validate_inputs(&key_presses, &broken, &layout_map, &letter_list));

    // a key press outside the letter list
    let out_of_range = vec![46usize];
    assert!(!validate_inputs(&out_of_range, &genome, &layout_map, &letter_list));

    // genome and layout of different lengths
    let short_layout = keyboards::layout_map::get_traditional_qwertz_layout_map();
    assert!(!validate_inputs(&key_presses, &genome, &short_layout, &letter_list));
}

#[test]
fn an_empty_key_press_sequence_yields_no_records() {
    let records = qwerty_records("");
    assert_eq!(records.len(), 0);
}
