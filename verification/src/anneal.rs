use vstd::prelude::*;

use crate::genome::copy_letters;

verus! {

/// The optimizer's search state: the genome the chain currently sits on,
/// the best genome seen so far, the iteration about to run (starting at
/// 1), and how many iterations the current epoch has accumulated.
///
/// The scores attached to the current and best genome, the temperature
/// and the Metropolis draws are real-valued and live with the caller; the
/// caller reports each iteration's outcome through the flags of
/// `anneal_step`.
pub struct AnnealState {
    pub current_genome: Vec<char>,
    pub best_genome: Vec<char>,
    pub iteration: u64,
    pub epoch_count: u64,
}

impl AnnealState {
    /// The state a run starts from: the initial candidate is both current
    /// and best, at iteration 1 with a fresh epoch.
    pub fn new(initial_genome: Vec<char>) -> (state: AnnealState)
        ensures
            state.current_genome@ == initial_genome@,
            state.best_genome@ == initial_genome@,
            state.iteration == 1,
            state.epoch_count == 0,
    {
        let best = copy_letters(&initial_genome);
        AnnealState { current_genome: initial_genome, best_genome: best, iteration: 1, epoch_count: 0 }
    }

    /// Whether the loop runs another iteration: it stops after
    /// `max_iterations` iterations, and immediately once the caller's
    /// temperature has fallen to its floor.
    pub fn should_continue(&self, max_iterations: u64, temperature_low: bool) -> (r: bool)
        ensures
            r == (self.iteration <= max_iterations && !temperature_low),
    {
        self.iteration <= max_iterations && !temperature_low
    }

    /// One annealing iteration, after the caller has scored `new_genome`:
    ///
    /// - the candidate becomes current when it improved on the current
    ///   score (`accept_improved`) or won the Metropolis draw
    ///   (`accept_metropolis`);
    /// - the best genome is replaced exactly when the caller found the
    ///   candidate better than the best so far (`is_new_best`), so the
    ///   best score can only ever go down across a run;
    /// - when the epoch is full (`epoch_expired`) the epoch counter
    ///   restarts and, on the caller's coin flip (`reset_to_best`), the
    ///   chain is pulled back onto the best genome.
    pub fn anneal_step(
        &mut self,
        new_genome: Vec<char>,
        accept_improved: bool,
        accept_metropolis: bool,
        is_new_best: bool,
        epoch_expired: bool,
        reset_to_best: bool,
    )
        requires
            old(self).iteration < u64::MAX,
            old(self).epoch_count < u64::MAX,
        ensures
            final(self).best_genome@ == if is_new_best {
                new_genome@
            } else {
                old(self).best_genome@
            },
            final(self).current_genome@ == if epoch_expired && reset_to_best {
                final(self).best_genome@
            } else if accept_improved || accept_metropolis {
                new_genome@
            } else {
                old(self).current_genome@
            },
            final(self).iteration == old(self).iteration + 1,
            final(self).epoch_count == if epoch_expired {
                0
            } else {
                old(self).epoch_count + 1
            },
    {
        if accept_improved || accept_metropolis {
            self.current_genome = copy_letters(&new_genome);
        }
        if is_new_best {
            self.best_genome = new_genome;
        }
        if epoch_expired {
            self.epoch_count = 0;
            if reset_to_best {
                let best = copy_letters(&self.best_genome);
                self.current_genome = best;
            }
        } else {
            self.epoch_count = self.epoch_count + 1;
        }
        self.iteration = self.iteration + 1;
    }
}

/// A run is bounded: starting from iteration 1, with every step advancing
/// the iteration counter by one and every step taken only while the
/// counter is at most `max_iterations`, a run's trace holds at most
/// `max_iterations + 1` states.  Together with `should_continue`, which
/// also turns false the moment the caller's temperature reaches its
/// floor, the loop performs at most `max_iterations` iterations and halts
/// immediately once the temperature is spent.
pub proof fn lemma_run_bounded(trace: Seq<AnnealState>, max_iterations: u64)
    requires
        trace.len() > 0,
        trace[0].iteration == 1,
        forall|i: int|
            0 <= i < trace.len() - 1 ==> #[trigger] trace[i + 1].iteration == trace[i].iteration
                + 1,
        forall|i: int| 0 <= i < trace.len() - 1 ==> #[trigger] trace[i].iteration <= max_iterations,
    ensures
        trace.len() <= max_iterations + 1,
{
    if trace.len() > max_iterations + 1 {
        let last_step = trace.len() - 2;
        lemma_iteration_counts(trace, last_step);
        assert(trace[last_step].iteration == 1 + last_step);
        assert(trace[last_step].iteration <= max_iterations);
        assert(false);
    }
}

/// Along a trace whose steps each advance the iteration counter by one,
/// the counter at position `i` is exactly `1 + i`.
proof fn lemma_iteration_counts(trace: Seq<AnnealState>, i: int)
    requires
        trace.len() > 0,
        trace[0].iteration == 1,
        forall|j: int|
            0 <= j < trace.len() - 1 ==> #[trigger] trace[j + 1].iteration == trace[j].iteration
                + 1,
        0 <= i < trace.len(),
    ensures
        trace[i].iteration == 1 + i,
    decreases i,
{
    if i > 0 {
        lemma_iteration_counts(trace, i - 1);
        assert(trace[(i - 1) + 1].iteration == trace[i - 1].iteration + 1);
    }
}

} // verus!
