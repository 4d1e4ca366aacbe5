use vstd::prelude::*;

verus! {

/// The smallest element of a non-empty sequence.
pub open spec fn seq_min(s: Seq<u32>) -> u32
    recommends
        s.len() > 0,
    decreases s.len(),
{
    if s.len() <= 1 {
        s[0]
    } else {
        let m = seq_min(s.drop_last());
        if s.last() < m {
            s.last()
        } else {
            m
        }
    }
}

/// The bookkeeping of an evaluator that scores a decision tree by the
/// smallest return it reaches over a set of initial states: the best score
/// found so far, the largest score there is, and how many simulations have
/// been run.
///
/// The simulations themselves run elsewhere; the evaluator is told each
/// simulation's return and decides, run by run, whether the tree can still
/// beat the best score.
pub struct EnvironmentEvaluatorMaximiseReturn {
    max_num_states: u32,
    best_score: Option<u32>,
    num_environment_calls: usize,
}

/// The state of an evaluator, as contracts speak of it.
pub struct EvaluatorState {
    pub max_num_states: u32,
    pub best_score: Option<u32>,
    pub num_environment_calls: nat,
}

impl View for EnvironmentEvaluatorMaximiseReturn {
    type V = EvaluatorState;

    closed spec fn view(&self) -> EvaluatorState {
        EvaluatorState {
            max_num_states: self.max_num_states,
            best_score: self.best_score,
            num_environment_calls: self.num_environment_calls as nat,
        }
    }
}

/// The score that a tree has to beat: the best score, or 0 when none was
/// found yet.
pub open spec fn score_to_beat(e: EvaluatorState) -> u32 {
    match e.best_score {
        Some(b) => b,
        None => 0,
    }
}

/// Whether `score` may be registered as the new best score.
pub open spec fn can_register(e: EvaluatorState, score: u32) -> bool {
    e.best_score is None || score > e.best_score.unwrap()
}

/// Whether the best score already is the largest one there is, so that no
/// tree can improve on it.
pub open spec fn is_saturated(e: EvaluatorState) -> bool {
    e.best_score == Some(e.max_num_states)
}

/// One evaluation of one tree, in progress.
pub struct Evaluation {
    lowest_return: Option<u32>,
    rejected: bool,
    returns: Ghost<Seq<u32>>,
}

/// An evaluation as contracts speak of it: the returns of the simulations
/// that were accepted so far, in order, and whether the tree was rejected.
pub struct EvaluationState {
    pub returns: Seq<u32>,
    pub rejected: bool,
}

impl View for Evaluation {
    type V = EvaluationState;

    closed spec fn view(&self) -> EvaluationState {
        EvaluationState { returns: self.returns@, rejected: self.rejected }
    }
}

impl Evaluation {
    /// Whether the tree under evaluation was rejected.
    pub fn is_rejected(&self) -> (r: bool)
        ensures
            r == self@.rejected,
    {
        self.rejected
    }

    /// The fields agree with the returns that were recorded.
    pub closed spec fn wf(&self) -> bool {
        match self.lowest_return {
            None => self.returns@.len() == 0,
            Some(l) => self.returns@.len() > 0 && l == seq_min(self.returns@),
        }
    }
}

/// Whether an evaluation is one that `e` may continue: every return it
/// accepted beats `e`'s best score.
pub open spec fn consistent(e: EvaluatorState, ev: EvaluationState) -> bool {
    forall|i: int| 0 <= i < ev.returns.len() ==> ev.returns[i] > score_to_beat(e)
}

/// What an evaluation yields: the smallest accepted return, unless the tree
/// was rejected.
pub open spec fn evaluation_result(ev: EvaluationState) -> Result<u32, ()> {
    if ev.rejected {
        Err(())
    } else {
        Ok(seq_min(ev.returns))
    }
}

/// What to do with the controller of a simulation that was just recorded.
#[derive(Clone, Copy, Debug, PartialEq, Eq, Structural)]
pub enum RunVerdict {
    /// The return does not beat the best score: the tree is rejected, and the
    /// evaluation ends with this run's controller.
    Reject,
    /// The first accepted run: its controller becomes the evaluation's
    /// controller.
    Adopt,
    /// A later accepted run: its controller's thresholds are merged into the
    /// evaluation's controller.
    Merge,
}

proof fn lemma_seq_min_push(s: Seq<u32>, x: u32)
    requires
        s.len() > 0,
    ensures
        seq_min(s.push(x)) == (if x < seq_min(s) { x } else { seq_min(s) }),
{
    assert(s.push(x).drop_last() =~= s);
}

impl EnvironmentEvaluatorMaximiseReturn {
    /// An evaluator whose scores are at most `max_num_states`, with no best
    /// score yet and no simulation run.
    pub fn new(max_num_states: u32) -> (e: Self)
        ensures
            e@.max_num_states == max_num_states,
            e@.best_score is None,
            e@.num_environment_calls == 0,
    {
        EnvironmentEvaluatorMaximiseReturn { max_num_states, best_score: None, num_environment_calls: 0 }
    }

    /// The best score registered so far.
    pub fn best_score(&self) -> (r: Option<u32>)
        ensures
            r == self@.best_score,
    {
        self.best_score
    }

    /// The largest score there is.
    pub fn max_num_states(&self) -> (r: u32)
        ensures
            r == self@.max_num_states,
    {
        self.max_num_states
    }

    /// How many simulations have been run.
    pub fn num_environment_calls(&self) -> (r: usize)
        ensures
            r == self@.num_environment_calls,
    {
        self.num_environment_calls
    }

    /// Starts evaluating a tree. When the best score already is the largest
    /// there is, the tree is rejected before any simulation.
    pub fn start_evaluation(&self) -> (ev: Evaluation)
        ensures
            ev.wf(),
            ev@.returns.len() == 0,
            ev@.rejected == is_saturated(self@),
            ev@.rejected <==> self@.best_score == Some(self@.max_num_states),
            consistent(self@, ev@),
    {
        let rejected = match self.best_score {
            Some(b) => b == self.max_num_states,
            None => false,
        };
        Evaluation { lowest_return: None, rejected, returns: Ghost(Seq::empty()) }
    }

    /// Records the return of one more simulation of the tree under
    /// evaluation. A return that does not beat the best score rejects the
    /// tree; any other is kept, and the tree's score so far is the smallest
    /// return kept.
    pub fn record_return(&mut self, ev: &mut Evaluation, total_return: u32) -> (verdict: RunVerdict)
        requires
            old(ev).wf(),
            !old(ev)@.rejected,
            consistent(old(self)@, old(ev)@),
            old(self)@.num_environment_calls < usize::MAX,
        ensures
            final(self)@.num_environment_calls == old(self)@.num_environment_calls + 1,
            final(self)@.best_score == old(self)@.best_score,
            final(self)@.max_num_states == old(self)@.max_num_states,
            final(ev).wf(),
            consistent(final(self)@, final(ev)@),
            total_return <= score_to_beat(old(self)@) ==> {
                &&& verdict == RunVerdict::Reject
                &&& final(ev)@.rejected
                &&& final(ev)@.returns == old(ev)@.returns
            },
            total_return > score_to_beat(old(self)@) ==> {
                &&& !final(ev)@.rejected
                &&& final(ev)@.returns == old(ev)@.returns.push(total_return)
                &&& verdict == (if old(ev)@.returns.len() == 0 {
                    RunVerdict::Adopt
                } else {
                    RunVerdict::Merge
                })
            },
            (verdict == RunVerdict::Reject) <==> match old(self)@.best_score {
                Some(b) => total_return <= b,
                None => total_return == 0,
            },
            verdict == RunVerdict::Reject <==> final(ev)@.rejected,
            verdict != RunVerdict::Reject ==> final(ev)@.returns == old(ev)@.returns.push(
                total_return,
            ),
    {
        self.num_environment_calls = self.num_environment_calls + 1;
        let to_beat = match self.best_score {
            Some(b) => b,
            None => 0,
        };
        if total_return <= to_beat {
            ev.rejected = true;
            RunVerdict::Reject
        } else {
            let ghost old_returns = ev.returns@;
            assert(old_returns == old(ev)@.returns);
            assert(score_to_beat(self@) == to_beat);
            ev.returns = Ghost(ev.returns@.push(total_return));
            assert forall|i: int| 0 <= i < ev.returns@.len() implies ev.returns@[i] > score_to_beat(
                self@,
            ) by {
                if i < old_returns.len() {
                    assert(ev.returns@[i] == old_returns[i]);
                    assert(old(ev)@.returns[i] > score_to_beat(old(self)@));
                }
            }
            match ev.lowest_return {
                None => {
                    ev.lowest_return = Some(total_return);
                    assert(ev.returns@.len() == 1);
                    RunVerdict::Adopt
                },
                Some(l) => {
                    proof {
                        lemma_seq_min_push(old_returns, total_return);
                    }
                    if total_return < l {
                        ev.lowest_return = Some(total_return);
                    }
                    RunVerdict::Merge
                },
            }
        }
    }

    /// Ends an evaluation: the tree's score is the smallest return of its
    /// simulations, unless it was rejected. An evaluation that was not
    /// rejected has run at least one simulation.
    pub fn finish_evaluation(&self, ev: Evaluation) -> (r: Result<u32, ()>)
        requires
            ev.wf(),
            !ev@.rejected ==> ev@.returns.len() > 0,
            consistent(self@, ev@),
        ensures
            r == evaluation_result(ev@),
            r matches Ok(score) ==> can_register(self@, score),
            ev@.rejected <==> r is Err,
            r matches Ok(score) ==> {
                &&& exists|i: int| 0 <= i < ev@.returns.len() && ev@.returns[i] == score
                &&& forall|i: int| 0 <= i < ev@.returns.len() ==> score <= ev@.returns[i]
                &&& match self@.best_score {
                    Some(b) => score > b,
                    None => score > 0,
                }
            },
    {
        if ev.rejected {
            Err(())
        } else {
            proof {
                lemma_seq_min_is_element(ev.returns@);
                assert forall|i: int| 0 <= i < ev.returns@.len() implies seq_min(ev.returns@)
                    <= ev.returns@[i] by {
                    lemma_seq_min_is_lower_bound(ev.returns@, i);
                }
            }
            match ev.lowest_return {
                Some(l) => Ok(l),
                None => Err(()),
            }
        }
    }

    /// Registers a new best score, which beats the previous one.
    pub fn register_new_best_score(&mut self, new_best_score: u32)
        requires
            can_register(old(self)@, new_best_score),
        ensures
            final(self)@.best_score == Some(new_best_score),
            old(self)@.best_score matches Some(b) ==> new_best_score > b,
            final(self)@.max_num_states == old(self)@.max_num_states,
            final(self)@.num_environment_calls == old(self)@.num_environment_calls,
    {
        self.best_score = Some(new_best_score);
    }
}

/// The smallest element of a non-empty sequence is one of its elements.
pub proof fn lemma_seq_min_is_element(s: Seq<u32>)
    requires
        s.len() > 0,
    ensures
        exists|i: int| 0 <= i < s.len() && s[i] == seq_min(s),
    decreases s.len(),
{
    if s.len() > 1 {
        lemma_seq_min_is_element(s.drop_last());
        let i = choose|i: int| 0 <= i < s.drop_last().len() && s.drop_last()[i] == seq_min(s.drop_last());
        assert(s[i] == s.drop_last()[i]);
        assert(s[s.len() - 1] == s.last());
    } else {
        assert(s[0] == seq_min(s));
    }
}

/// The smallest element of a sequence is at most each of its elements.
pub proof fn lemma_seq_min_is_lower_bound(s: Seq<u32>, i: int)
    requires
        0 <= i < s.len(),
    ensures
        seq_min(s) <= s[i],
    decreases s.len(),
{
    if s.len() > 1 {
        if i < s.len() - 1 {
            lemma_seq_min_is_lower_bound(s.drop_last(), i);
            assert(s.drop_last()[i] == s[i]);
        }
    }
}

/// Rejecting a tree as soon as one simulation does not beat the best score
/// loses nothing: the tree's score, the smallest return over all its initial
/// states, cannot beat the best score either, whatever the other
/// simulations return.
pub proof fn lemma_rejection_is_sound(e: EvaluatorState, all_returns: Seq<u32>, i: int)
    requires
        0 <= i < all_returns.len(),
        all_returns[i] <= score_to_beat(e),
    ensures
        seq_min(all_returns) <= score_to_beat(e),
{
    lemma_seq_min_is_lower_bound(all_returns, i);
}

/// A tree's score beats the best score exactly when the return from every
/// initial state does; so a tree that no simulation rejects is accepted with
/// its score, and a tree whose score beats the best is never rejected.
pub proof fn lemma_accepted_iff_all_returns_beat(e: EvaluatorState, all_returns: Seq<u32>)
    requires
        all_returns.len() > 0,
    ensures
        seq_min(all_returns) > score_to_beat(e) <==> forall|i: int|
            0 <= i < all_returns.len() ==> all_returns[i] > score_to_beat(e),
{
    if seq_min(all_returns) > score_to_beat(e) {
        assert forall|i: int| 0 <= i < all_returns.len() implies all_returns[i] > score_to_beat(
            e,
        ) by {
            lemma_seq_min_is_lower_bound(all_returns, i);
        }
    } else {
        lemma_seq_min_is_element(all_returns);
    }
}

/// A score that an evaluation accepts beats the best score, so it can always
/// be registered as the new best: the registered best scores strictly
/// increase.
pub proof fn lemma_accepted_score_improves(e: EvaluatorState, ev: EvaluationState)
    requires
        consistent(e, ev),
        !ev.rejected,
        ev.returns.len() > 0,
    ensures
        evaluation_result(ev) matches Ok(score) && score > score_to_beat(e) && can_register(e, score),
{
    lemma_seq_min_is_element(ev.returns);
}

/// The score to beat is the registered best score, and 0 while none is
/// registered: with no best score every positive return beats it, and a
/// return beats a registered best exactly when it is larger.
pub proof fn lemma_score_to_beat_is_best_or_zero(e: EvaluatorState, r: u32)
    ensures
        e.best_score is None ==> (r > score_to_beat(e) <==> r > 0),
        e.best_score matches Some(b) ==> (r > score_to_beat(e) <==> r > b),
{
}

/// An evaluation starts rejected exactly when the registered best score is
/// the largest score there is; below it, or with no best score, the tree is
/// simulated.
pub proof fn lemma_saturated_iff_best_is_max(e: EvaluatorState)
    ensures
        is_saturated(e) <==> e.best_score == Some(e.max_num_states),
        e.best_score is None ==> !is_saturated(e),
        e.best_score matches Some(b) && b < e.max_num_states ==> !is_saturated(e),
{
}

/// The outcome of an evaluation: a rejected tree has no score; otherwise the
/// score is one of the recorded returns and no larger than any of them.
pub proof fn lemma_evaluation_result_is_smallest_return(ev: EvaluationState)
    requires
        !ev.rejected ==> ev.returns.len() > 0,
    ensures
        ev.rejected <==> evaluation_result(ev) is Err,
        evaluation_result(ev) matches Ok(score) ==> {
            &&& exists|i: int| 0 <= i < ev.returns.len() && ev.returns[i] == score
            &&& forall|i: int| 0 <= i < ev.returns.len() ==> score <= ev.returns[i]
        },
{
    if !ev.rejected {
        lemma_seq_min_is_element(ev.returns);
        assert forall|i: int| 0 <= i < ev.returns.len() implies seq_min(ev.returns) <= ev.returns[i] by {
            lemma_seq_min_is_lower_bound(ev.returns, i);
        }
    }
}

} // verus!
