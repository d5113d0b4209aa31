//! The session state machine: which stage transitions are legal, and the
//! stopping rules for clarification and adversarial iteration.

use vstd::prelude::*;

verus! {

/// The lifecycle of one optimization session.
#[derive(Debug, Clone)]
pub enum SessionState {
    Initializing,
    Clarifying,
    Clarified,
    AdvIterating(u32),
    Verified,
    Formatting,
    Done,
    Error(String),
}

impl SessionState {
    /// A copy of the state that is known, in contracts, to equal the
    /// original.
    pub fn duplicate(&self) -> (r: SessionState)
        ensures
            r == *self,
    {
        match self {
            SessionState::Initializing => SessionState::Initializing,
            SessionState::Clarifying => SessionState::Clarifying,
            SessionState::Clarified => SessionState::Clarified,
            SessionState::AdvIterating(n) => SessionState::AdvIterating(*n),
            SessionState::Verified => SessionState::Verified,
            SessionState::Formatting => SessionState::Formatting,
            SessionState::Done => SessionState::Done,
            SessionState::Error(reason) => SessionState::Error(reason.clone()),
        }
    }
}

/// The only legal transitions: the linear stage order, iteration steps that
/// stay in `AdvIterating`, a step into `Error` from any live state, recovery
/// from `Error` to any state, and nothing at all out of `Done`.
pub open spec fn valid_transition(from: SessionState, to: SessionState) -> bool {
    match (from, to) {
        (SessionState::Initializing, SessionState::Clarifying) => true,
        (SessionState::Initializing, SessionState::Error(_)) => true,
        (SessionState::Clarifying, SessionState::Clarified) => true,
        (SessionState::Clarifying, SessionState::Error(_)) => true,
        (SessionState::Clarified, SessionState::AdvIterating(_)) => true,
        (SessionState::Clarified, SessionState::Error(_)) => true,
        (SessionState::AdvIterating(_), SessionState::AdvIterating(_)) => true,
        (SessionState::AdvIterating(_), SessionState::Verified) => true,
        (SessionState::AdvIterating(_), SessionState::Error(_)) => true,
        (SessionState::Verified, SessionState::Formatting) => true,
        (SessionState::Verified, SessionState::Error(_)) => true,
        (SessionState::Formatting, SessionState::Done) => true,
        (SessionState::Formatting, SessionState::Error(_)) => true,
        (SessionState::Error(_), _) => true,
        _ => false,
    }
}

/// `Done` is terminal: no transition out of it is legal, not even into
/// `Error`.
pub proof fn lemma_done_is_terminal(to: SessionState)
    ensures
        !valid_transition(SessionState::Done, to),
{
}

/// An illegal transition was requested; the error names the current and the
/// attempted state, and the session is left as it was.
#[derive(Debug, Clone)]
pub struct TransitionError {
    pub from: SessionState,
    pub attempted: SessionState,
}

/// Governs one session's progression through the pipeline.
pub struct StateMachine {
    current_state: SessionState,
    session_id: String,
}

impl StateMachine {
    /// The spec-level current state.
    pub closed spec fn state(&self) -> SessionState {
        self.current_state
    }

    /// The spec-level session id the machine governs.
    pub closed spec fn id(&self) -> Seq<char> {
        self.session_id@
    }

    /// A fresh machine starts in `Initializing` and remembers its session.
    pub fn new(session_id: String) -> (r: Self)
        ensures
            r.state() is Initializing,
            r.id() == session_id@,
    {
        StateMachine { current_state: SessionState::Initializing, session_id }
    }

    /// The state the session is currently in.
    pub fn current_state(&self) -> (r: &SessionState)
        ensures
            *r == self.state(),
    {
        &self.current_state
    }

    /// Moves to `new_state` when the transition is legal; otherwise leaves
    /// the machine unchanged and reports the current and attempted states.
    pub fn transition_to(&mut self, new_state: SessionState) -> (r: Result<(), TransitionError>)
        ensures
            final(self).id() == old(self).id(),
            valid_transition(old(self).state(), new_state) ==> r is Ok && final(self).state()
                == new_state,
            !valid_transition(old(self).state(), new_state) ==> final(self).state() == old(
                self,
            ).state() && (r matches Err(e) && e.from == old(self).state() && e.attempted
                == new_state),
    {
        if self.is_valid_transition(&new_state) {
            self.current_state = new_state;
            Ok(())
        } else {
            Err(
                TransitionError {
                    from: self.current_state.duplicate(),
                    attempted: new_state,
                },
            )
        }
    }

    /// Decides `valid_transition` for the current state.
    fn is_valid_transition(&self, new_state: &SessionState) -> (r: bool)
        ensures
            r == valid_transition(self.state(), *new_state),
    {
        match (&self.current_state, new_state) {
            (SessionState::Initializing, SessionState::Clarifying) => true,
            (SessionState::Initializing, SessionState::Error(_)) => true,
            (SessionState::Clarifying, SessionState::Clarified) => true,
            (SessionState::Clarifying, SessionState::Error(_)) => true,
            (SessionState::Clarified, SessionState::AdvIterating(_)) => true,
            (SessionState::Clarified, SessionState::Error(_)) => true,
            (SessionState::AdvIterating(_), SessionState::AdvIterating(_)) => true,
            (SessionState::AdvIterating(_), SessionState::Verified) => true,
            (SessionState::AdvIterating(_), SessionState::Error(_)) => true,
            (SessionState::Verified, SessionState::Formatting) => true,
            (SessionState::Verified, SessionState::Error(_)) => true,
            (SessionState::Formatting, SessionState::Done) => true,
            (SessionState::Formatting, SessionState::Error(_)) => true,
            (SessionState::Error(_), _) => true,
            _ => false,
        }
    }

    /// Clarification stops once the confidence reaches the configured
    /// minimum (both in thousandths).
    pub fn should_stop_clarification(&self, confidence: u32, min_confidence: u32) -> (r: bool)
        ensures
            r == (confidence >= min_confidence),
    {
        confidence >= min_confidence
    }

    /// Iteration stops when every one of the trailing window of improvement
    /// deltas falls below the threshold.
    pub fn should_stop_iteration(&self, scores: &[u32], improvement_threshold: u32) -> (r: bool)
        ensures
            r == should_stop_iteration_spec(scores@, improvement_threshold),
    {
        if scores.len() < 2 {
            return false;
        }
        let start: usize = if scores.len() >= 4 {
            scores.len() - 4
        } else {
            0
        };
        let mut i: usize = start;
        while i < scores.len() - 1
            invariant
                2 <= scores@.len(),
                start == stop_window_start(scores@.len() as int),
                start <= i <= scores@.len() - 1,
                forall|k: int|
                    #![trigger scores@[k]]
                    start <= k < i ==> scores@[k + 1] - scores@[k] < improvement_threshold,
            decreases scores@.len() - i,
        {
            let cur: u32 = scores[i];
            let next: u32 = scores[i + 1];
            if !(next < cur || next - cur < improvement_threshold) {
                return false;
            }
            i = i + 1;
        }
        true
    }
}

/// Start of the trailing window: the last three improvement deltas, or all
/// of them when there are fewer.
pub open spec fn stop_window_start(n: int) -> int {
    if n - 4 > 0 {
        n - 4
    } else {
        0
    }
}

/// Iteration stops once at least two composite scores exist and every
/// improvement delta in the trailing window lies below the threshold.
pub open spec fn should_stop_iteration_spec(scores: Seq<u32>, threshold: u32) -> bool {
    scores.len() >= 2 && forall|i: int|
        #![trigger scores[i]]
        stop_window_start(scores.len() as int) <= i < scores.len() - 1 ==> scores[i + 1]
            - scores[i] < threshold
}

/// Configured stopping thresholds for a session.
#[derive(Debug, Clone)]
pub struct StopConditions {
    pub clarification_confidence_threshold: u32,
    pub max_clarification_rounds: u32,
    pub iteration_improvement_threshold: u32,
    pub max_iterations: u32,
    pub min_consecutive_improvements: u32,
}

impl Default for StopConditions {
    /// The stock thresholds, in thousandths where they are scores.
    fn default() -> (r: Self)
        ensures
            r.clarification_confidence_threshold == 800,
            r.max_clarification_rounds == 5,
            r.iteration_improvement_threshold == 10,
            r.max_iterations == 10,
            r.min_consecutive_improvements == 3,
    {
        StopConditions {
            clarification_confidence_threshold: 800,
            max_clarification_rounds: 5,
            iteration_improvement_threshold: 10,
            max_iterations: 10,
            min_consecutive_improvements: 3,
        }
    }
}

} // verus!
