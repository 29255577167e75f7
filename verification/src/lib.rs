//! Scores how physically effortful it is to type a corpus on a candidate
//! keyboard arrangement, and searches the space of arrangements with
//! simulated annealing.
//!
//! The effort evaluator replays a pre-resolved sequence of key presses
//! against a candidate genome (a permutation of the letter list assigned to
//! physical key slots) and produces, for every press, the integer penalty
//! ingredients of the effort model.  The annealing optimizer's state
//! machine tracks the current and best genome across iterations.  Combining
//! the penalty ingredients with the real-valued effort weights, and the
//! Metropolis acceptance draws, are left to the caller, which owns the
//! floating-point arithmetic.

pub mod models;
pub mod finger_list;
pub mod layout_map;
pub mod letter_list;
pub mod rng;
pub mod genome;
pub mod objective;
pub mod key_map;
pub mod layout;
pub mod logging;
pub mod effort_model;
pub mod anneal;
