use keyboards::anneal::AnnealState;
use keyboards::genome::{create_genome, is_permutation_of, shuffle_genome};
use keyboards::key_map::resolve_keypresses;
use keyboards::layout::Layout;
use keyboards::objective::{evaluate_keypresses, validate_inputs, PressRecord};
use keyboards::rng::rng_from_seed;
use rand::Rng;

const EFFORT_WEIGHTING: [f64; 5] = [0.7917, 1.0, 0.0, 0.4773, 0.0];

fn effort_from_cpm(cpm: &[i32], shift_by_max: bool) -> Vec<f64> {
    let mean = cpm.iter().sum::<i32>() as f64 / cpm.len() as f64;
    let std = (cpm
        .iter()
        .map(|&x| (x as f64 - mean).powi(2))
        .sum::<f64>()
        / cpm.len() as f64)
        .sqrt();
    let z_scores: Vec<f64> = cpm.iter().map(|&x| -(x as f64 - mean) / std).collect();
    let shift = if shift_by_max {
        z_scores.iter().cloned().fold(f64::NAN, f64::max)
    } else {
        z_scores.iter().cloned().fold(f64::NAN, f64::min)
    };
    z_scores.iter().map(|&z| z - shift).collect()
}

fn objective_from_records(
    records: &[PressRecord],
    finger_effort: &[f64],
    row_effort: &[f64],
    layout_score: Option<f64>,
) -> f64 {
    let mut finger_objectives = [0.0f64; 8];
    for record in records {
        let penalties = [
            record.distance_penalty as f64,
            record.double_finger_penalty as f64,
            record.double_hand_penalty as f64,
            finger_effort[record.finger_id],
            row_effort[record.row.as_index()],
        ];
        let penalty = penalties
            .iter()
            .zip(EFFORT_WEIGHTING.iter())
            .map(|(x, y)| x * (*y))
            .sum::<f64>();
        finger_objectives[record.finger_id] += penalty;
    }
    let mut objective = finger_objectives.iter().sum::<f64>();
    if let Some(layout_score) = layout_score {
        objective = (objective / layout_score - 1.0) * 100.0;
    }
    objective
}

struct RunOutcome {
    best_genome: Vec<char>,
    best_objective: f64,
    best_trace: Vec<f64>,
    iterations_run: u64,
}

/// One full annealing run on the 46-key arrangement, driving the verified
/// search state with the real-valued scores and Metropolis draws.
fn run_annealing(
    text: &str,
    mut temperature: f64,
    epoch: f64,
    cooling_rate: f64,
    num_iterations: u64,
    seed: u64,
) -> RunOutcome {
    let layout = Layout::QwertyEnUs;
    let layout_map = layout.get_layout_map();
    let letter_list = layout.get_letter_list();
    let key_map = layout.get_key_map();
    let reference_genome = layout.get_genome();

    let chars: Vec<char> = text.chars().collect();
    let key_presses = resolve_keypresses(&key_map, &chars);
    assert!(validate_inputs(
        &key_presses,
        &reference_genome,
        &layout_map,
        &letter_list
    ));

    let finger_effort = effort_from_cpm(&keyboards::effort_model::finger_cpm(), false);
    let row_effort = effort_from_cpm(&keyboards::effort_model::row_cpm(), true);

    let baseline_records =
        evaluate_keypresses(&key_presses, &reference_genome, &layout_map, &letter_list);
    let layout_score = objective_from_records(&baseline_records, &finger_effort, &row_effort, None);

    let mut rng = rng_from_seed(seed);
    let initial = create_genome(&letter_list, &mut rng);
    let initial_records = evaluate_keypresses(&key_presses, &initial, &layout_map, &letter_list);
    let mut current_objective =
        objective_from_records(&initial_records, &finger_effort, &row_effort, Some(layout_score));
    let mut best_objective = current_objective;
    let mut state = AnnealState::new(initial);

    let mut best_trace = vec![best_objective];
    let mut iterations_run: u64 = 0;

    while state.should_continue(num_iterations, temperature <= 1.0) {
        let new_genome = shuffle_genome(&state.current_genome, 2, &mut rng);
        let new_records = evaluate_keypresses(&key_presses, &new_genome, &layout_map, &letter_list);
        let new_objective =
            objective_from_records(&new_records, &finger_effort, &row_effort, Some(layout_score));
        let delta = new_objective - current_objective;

        let accept_improved = delta < 0.0;
        let is_new_best = accept_improved && new_objective < best_objective;
        let accept_metropolis = if accept_improved {
            false
        } else {
            (-delta / temperature).exp() > rng.gen::<f64>()
        };
        let epoch_expired = (state.epoch_count + 1) as f64 > epoch;
        let reset_to_best = if epoch_expired {
            rng.gen::<f64>() < 0.5
        } else {
            false
        };

        if accept_improved || accept_metropolis {
            current_objective = new_objective;
        }
        if is_new_best {
            best_objective = new_objective;
        }
        if epoch_expired {
            temperature *= cooling_rate;
            if reset_to_best {
                current_objective = best_objective;
            }
        }
        state.anneal_step(
            new_genome,
            accept_improved,
            accept_metropolis,
            is_new_best,
            epoch_expired,
            reset_to_best,
        );
        best_trace.push(best_objective);
        iterations_run += 1;
        assert!(is_permutation_of(&state.current_genome, &letter_list));
        assert!(is_permutation_of(&state.best_genome, &letter_list));
    }

    RunOutcome {
        best_genome: state.best_genome.clone(),
        best_objective,
        best_trace,
        iterations_run,
    }
}

#[test]
fn best_score_never_increases_across_a_run() {
    let outcome = run_annealing(
        "THE QUICK BROWN FOX JUMPS OVER THE LAZY DOG",
        5000.0,
        5.0,
        0.8,
        400,
        12345,
    );
    for pair in outcome.best_trace.windows(2) {
        assert!(pair[1] <= pair[0]);
    }
}

#[test]
fn the_loop_runs_at_most_max_iterations() {
    let outcome = run_annealing("THE QUICK BROWN FOX", 1000000.0, 20.0, 0.9, 25, 5);
    assert_eq!(outcome.iterations_run, 25);
}

#[test]
fn the_loop_halts_immediately_once_the_temperature_is_spent() {
    let outcome = run_annealing("THE QUICK BROWN FOX", 0.5, 20.0, 0.9, 1000, 5);
    assert_eq!(outcome.iterations_run, 0);
}

#[test]
fn cooling_ends_a_long_run_early() {
    // temperature 100 with epoch 2 and rate 0.1 falls under 1 after a few
    // epochs, long before the iteration bound
    let outcome = run_annealing("THE QUICK BROWN FOX", 100.0, 2.0, 0.1, 1000, 5);
    assert!(outcome.iterations_run < 10);
}

#[test]
fn a_fixed_seed_reproduces_the_reference_run() {
    let outcome = run_annealing("THE QUICK BROWN FOX", 100.0, 20.0, 0.9, 10, 114211);
    let again = run_annealing("THE QUICK BROWN FOX", 100.0, 20.0, 0.9, 10, 114211);
    assert_eq!(outcome.best_genome, again.best_genome);
    assert_eq!(outcome.best_objective.to_bits(), again.best_objective.to_bits());
    let expected_genome: Vec<char> = vec![
        '~', 'Y', 'E', '-', 'Z', 'P', '2', 'V', 'B', 'D', 'F', '6', 'S', 'O', 'X', 'A', '8', 'J',
        'C', '3', 'I', '+', '<', '?', ']', 'K', 'T', 'G', ';', '5', '1', 'M', '\'', 'H', '0', 'U',
        'R', '4', 'W', '>', '9', 'Q', '7', 'L', '[', 'N',
    ];
    assert_eq!(outcome.best_genome, expected_genome);
    assert_eq!(outcome.best_objective, 11.935563576732044f64);
}

#[test]
fn the_best_genome_is_replaced_exactly_when_flagged() {
    let letters = Layout::QwertyEnUs.get_letter_list();
    let initial = letters.clone();
    let mut state = AnnealState::new(initial.clone());
    assert_eq!(state.iteration, 1);
    assert_eq!(state.epoch_count, 0);
    assert_eq!(state.best_genome, initial);

    let mut rng = rng_from_seed(3);
    let candidate = shuffle_genome(&letters, 300, &mut rng);

    // rejected candidate: nothing moves
    state.anneal_step(candidate.clone(), false, false, false, false, false);
    assert_eq!(state.current_genome, initial);
    assert_eq!(state.best_genome, initial);
    assert_eq!(state.iteration, 2);
    assert_eq!(state.epoch_count, 1);

    // accepted but not best: only the current genome moves
    state.anneal_step(candidate.clone(), false, true, false, false, false);
    assert_eq!(state.current_genome, candidate);
    assert_eq!(state.best_genome, initial);

    // accepted and best: both move
    state.anneal_step(candidate.clone(), true, false, true, false, false);
    assert_eq!(state.best_genome, candidate);

    // an expired epoch restarts the counter and may pull the chain back
    let other = shuffle_genome(&letters, 300, &mut rng);
    state.anneal_step(other.clone(), true, false, false, true, true);
    assert_eq!(state.epoch_count, 0);
    assert_eq!(state.current_genome, state.best_genome);
}

#[test]
fn should_continue_checks_iteration_bound_and_temperature() {
    let state = AnnealState::new(Layout::QwertyEnUs.get_genome());
    assert!(state.should_continue(1, false));
    assert!(!state.should_continue(0, false));
    assert!(!state.should_continue(1, true));
}
