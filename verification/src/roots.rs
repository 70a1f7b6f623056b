use vstd::prelude::*;

use crate::double::Double;
use crate::double::abs_of;
use crate::double::is_nan;

verus! {

/// Bits of 1e-7: at once the finite-difference step the evaluator uses and
/// the convergence tolerance the search applies.
pub const PRECISION_BITS: u64 = 0x3E7A_D7F2_9ABC_AF48;
/// Bits of 0.1: the initial guess used when the caller supplies none.
pub const DEFAULT_GUESS_BITS: u64 = 0x3FB9_9999_9999_999A;
/// The iteration cap: at most `MAX_ITERATIONS - 1` update steps are attempted
/// before the search reports that no root was found.
pub const MAX_ITERATIONS: u32 = 20;

/// The convergence test `|next_guess - guess| <= 1e-7`, decided on the bit
/// pattern of the difference `next_guess - guess`: clearing the sign bit
/// yields the magnitude's pattern; finite magnitudes and infinity order as
/// their patterns; and every NaN pattern, sign cleared, lies above the
/// pattern of positive infinity and hence above the tolerance, so a NaN
/// difference fails the test - exactly as it fails the double comparison.
pub open spec fn converged_step(difference: u64) -> bool {
    abs_of(difference) <= PRECISION_BITS
}

/// What one update step reports: the proposed next guess and the difference
/// `next_guess - guess`, both as double bit patterns.
pub type SearchStep = (u64, u64);

/// The outcome that a series of update steps drives the search to, under a
/// budget of `budget` steps: the first step within the budget that passes the
/// convergence test yields its proposed guess; running out of budget - or out
/// of recorded steps - yields nothing.
pub open spec fn search_outcome(steps: Seq<SearchStep>, budget: nat) -> Option<u64>
    decreases budget,
{
    if budget == 0 || steps.len() == 0 {
        None
    } else if converged_step(steps[0].1) {
        Some(steps[0].0)
    } else {
        search_outcome(steps.drop_first(), (budget - 1) as nat)
    }
}

/// The guess a search starts from: the caller's, or 0.1 when none is given.
pub open spec fn initial_guess_of(guess: Option<Double>) -> u64 {
    match guess {
        Some(g) => g.bits,
        None => DEFAULT_GUESS_BITS,
    }
}

/// What the search tells its driver after a step.
#[derive(Clone, Copy, PartialEq, Eq, Structural, Debug)]
pub enum RootStep {
    /// The step passed the convergence test; its proposed guess is the root.
    Converged(Double),
    /// The step failed the test and budget remains: evaluate at the new
    /// current guess and report the next step.
    Searching,
    /// The step failed the test and the budget is spent: no root was found.
    Exhausted,
}

/// The Newton-Raphson search, with the evaluation of the objective left to
/// the caller. The caller evaluates the objective and its finite-difference
/// derivative at the current guess, forms `next_guess = guess - value /
/// derivative` and `difference = next_guess - guess`, and hands both in;
/// the search decides convergence and the iteration budget, the only
/// decisions the method makes.
pub struct RootSearch {
    /// The guess the objective is to be evaluated around next.
    pub guess: Double,
    /// Counts from 1; step number `iteration` is the next to be attempted,
    /// and `MAX_ITERATIONS - 1` steps are attempted in all.
    pub iteration: u32,
    /// The steps reported so far.
    pub steps: Ghost<Seq<SearchStep>>,
    /// The guess the search started from.
    pub start: Ghost<u64>,
}

impl RootSearch {
    /// A search that is still in progress: every step so far failed the
    /// convergence test, budget remains, and the current guess is the one the
    /// last step proposed - or the starting guess, before any step.
    pub open spec fn wf(&self) -> bool {
        &&& 1 <= self.iteration < MAX_ITERATIONS
        &&& self.iteration as int == 1 + self.steps@.len()
        &&& forall|i: int|
            0 <= i < self.steps@.len() ==> !converged_step((#[trigger] self.steps@[i]).1)
        &&& self.guess.bits == if self.steps@.len() == 0 {
            self.start@
        } else {
            self.steps@.last().0
        }
    }

    pub fn new(guess: Option<Double>) -> (s: RootSearch)
        ensures
            s.wf(),
            s.steps@ == Seq::<SearchStep>::empty(),
            s.iteration == 1,
            s.start@ == initial_guess_of(guess),
            s.guess.bits == initial_guess_of(guess),
    {
        let start = match guess {
            Some(g) => g,
            None => Double::from_bits(DEFAULT_GUESS_BITS),
        };
        RootSearch { guess: start, iteration: 1, steps: Ghost(Seq::empty()), start: Ghost(start.bits) }
    }

    /// The guess to evaluate the objective around.
    pub fn current_guess(&self) -> (g: Double)
        ensures
            g == self.guess,
    {
        self.guess
    }

    /// Decide what one reported update step means: convergence, another
    /// round, or a spent budget. A root is returned exactly when the
    /// difference's magnitude lies within the tolerance - never for a NaN
    /// difference - and a spent budget means the recorded steps decide the
    /// outcome as `search_outcome` states it: no root.
    pub fn advance(&mut self, next_guess: Double, difference: Double) -> (step: RootStep)
        requires
            old(self).wf(),
        ensures
            final(self).steps@ == old(self).steps@.push((next_guess.bits, difference.bits)),
            final(self).iteration == old(self).iteration || final(self).iteration == old(
                self,
            ).iteration + 1,
            converged_step(difference.bits) ==> step == RootStep::Converged(next_guess),
            !converged_step(difference.bits) && old(self).iteration + 1 == MAX_ITERATIONS
                ==> step == RootStep::Exhausted,
            !converged_step(difference.bits) && old(self).iteration + 1 < MAX_ITERATIONS ==> {
                &&& step == RootStep::Searching
                &&& final(self).wf()
                &&& final(self).guess == next_guess
                &&& final(self).iteration == old(self).iteration + 1
                &&& final(self).start == old(self).start
            },
            step == RootStep::Searching ==> search_outcome(
                final(self).steps@,
                (MAX_ITERATIONS - 1) as nat,
            ) is None,
            step matches RootStep::Converged(root) ==> {
                &&& root == next_guess
                &&& !is_nan(difference.bits)
                &&& search_outcome(final(self).steps@, (MAX_ITERATIONS - 1) as nat) == Some(
                    root.bits,
                )
            },
            step == RootStep::Exhausted ==> search_outcome(
                final(self).steps@,
                (MAX_ITERATIONS - 1) as nat,
            ) is None,
    {
        let ghost prior = self.steps@;
        self.steps = Ghost(self.steps@.push((next_guess.bits, difference.bits)));
        proof {
            lemma_outcome_after_failures(
                prior,
                (next_guess.bits, difference.bits),
                (MAX_ITERATIONS - 1) as nat,
            );
        }
        let magnitude = difference.abs();
        if magnitude.to_bits() <= PRECISION_BITS {
            RootStep::Converged(next_guess)
        } else if self.iteration + 1 == MAX_ITERATIONS {
            RootStep::Exhausted
        } else {
            self.iteration = self.iteration + 1;
            self.guess = next_guess;
            RootStep::Searching
        }
    }
}

/// Appending one step to a run of failed steps settles the outcome: within
/// budget, the new step alone decides it.
proof fn lemma_outcome_after_failures(steps: Seq<SearchStep>, step: SearchStep, budget: nat)
    requires
        forall|i: int| 0 <= i < steps.len() ==> !converged_step((#[trigger] steps[i]).1),
        steps.len() < budget,
    ensures
        search_outcome(steps.push(step), budget) == (if converged_step(step.1) {
            Some(step.0)
        } else {
            None::<u64>
        }),
    decreases steps.len(),
{
    if steps.len() == 0 {
        assert(steps.push(step)[0] == step);
        assert(steps.push(step).drop_first() =~= Seq::<SearchStep>::empty());
        assert(search_outcome(Seq::<SearchStep>::empty(), (budget - 1) as nat) is None);
    } else {
        assert(steps.push(step)[0] == steps[0]);
        assert(steps.push(step).drop_first() =~= steps.drop_first().push(step));
        assert(forall|i: int|
            0 <= i < steps.drop_first().len() ==> !converged_step(
                (#[trigger] steps.drop_first()[i]).1,
            ));
        lemma_outcome_after_failures(steps.drop_first(), step, (budget - 1) as nat);
    }
}

/// Law: the search never fabricates an answer. A root comes only from a
/// recorded step, within the budget, that passed the convergence test.
pub proof fn lemma_search_outcome_sound(steps: Seq<SearchStep>, budget: nat)
    ensures
        search_outcome(steps, budget) matches Some(root) ==> exists|i: int|
            0 <= i < steps.len() && i < budget && converged_step((#[trigger] steps[i]).1)
                && root == steps[i].0,
    decreases budget,
{
    if budget != 0 && steps.len() != 0 && !converged_step(steps[0].1) {
        lemma_search_outcome_sound(steps.drop_first(), (budget - 1) as nat);
        if search_outcome(steps, budget) is Some {
            let root = search_outcome(steps, budget)->Some_0;
            let i = choose|i: int|
                0 <= i < steps.drop_first().len() && i < budget - 1 && converged_step(
                    (#[trigger] steps.drop_first()[i]).1,
                ) && root == steps.drop_first()[i].0;
            assert(steps[i + 1] == steps.drop_first()[i]);
        }
    }
}

/// Law: exhausting the budget without a convergent step yields no root - the
/// search discards its last guess rather than return an unconverged value.
pub proof fn lemma_search_outcome_exhausted(steps: Seq<SearchStep>, budget: nat)
    requires
        forall|i: int| 0 <= i < steps.len() && i < budget ==> !converged_step(
            (#[trigger] steps[i]).1,
        ),
    ensures
        search_outcome(steps, budget) is None,
    decreases budget,
{
    if budget != 0 && steps.len() != 0 {
        assert(!converged_step(steps[0].1));
        assert(forall|i: int|
            0 <= i < steps.drop_first().len() && i < budget - 1 ==> !converged_step(
                (#[trigger] steps.drop_first()[i]).1,
            ));
        lemma_search_outcome_exhausted(steps.drop_first(), (budget - 1) as nat);
    }
}

} // verus!
