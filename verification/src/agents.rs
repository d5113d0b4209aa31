//! The uniform stage interface: capabilities, the shared execution context,
//! the closed set of stage results, and criticisms.

use vstd::prelude::*;

use crate::data::{Clarification, Evidence, IterationVersion, VerificationReport, valid_permille};

verus! {

/// What a stage declares it can do.
#[derive(Debug, Clone, Copy, PartialEq, Eq, Structural)]
pub enum AgentCapability {
    Clarification,
    Innovation,
    Criticism,
    Synthesis,
    Verification,
    Summarization,
}

/// The per-round working set threaded through the stages. Stages read it
/// and return a new result; they never mutate it.
#[derive(Debug, Clone)]
pub struct AgentContext {
    pub session_id: String,
    pub current_version: Option<IterationVersion>,
    pub clarification: Option<Clarification>,
    pub previous_versions: Vec<IterationVersion>,
    pub knowledge_base: Vec<Evidence>,
    pub previous_results: Vec<AgentResult>,
}

impl AgentContext {
    /// A context holding nothing but the session id.
    pub fn new(session_id: String) -> (r: AgentContext)
        ensures
            r.session_id == session_id,
            r.current_version is None,
            r.clarification is None,
            r.previous_versions@.len() == 0,
            r.knowledge_base@.len() == 0,
            r.previous_results@.len() == 0,
    {
        AgentContext {
            session_id,
            current_version: None,
            clarification: None,
            previous_versions: Vec::new(),
            knowledge_base: Vec::new(),
            previous_results: Vec::new(),
        }
    }
}

/// The closed set of typed stage results.
#[derive(Debug, Clone)]
pub enum AgentResult {
    Clarification(Clarification),
    Innovation(Vec<Vec<u8>>),
    Criticism(Vec<Criticism>),
    Synthesis(IterationVersion),
    Verification(VerificationReport),
    Summary(Vec<u8>),
}

/// One objection against one delta, with a severity in thousandths.
#[derive(Debug, Clone)]
pub struct Criticism {
    pub delta_index: usize,
    pub category: CriticismCategory,
    pub message: Vec<u8>,
    pub severity: u32,
}

impl Criticism {
    /// Well-formedness: the severity is a unit-interval value.
    pub open spec fn wf(&self) -> bool {
        valid_permille(self.severity)
    }

    /// A copy with the same index, category, message content and severity.
    pub fn duplicate(&self) -> (r: Criticism)
        ensures
            r.delta_index == self.delta_index,
            r.category == self.category,
            r.message@ == self.message@,
            r.severity == self.severity,
    {
        Criticism {
            delta_index: self.delta_index,
            category: self.category,
            message: self.message.clone(),
            severity: self.severity,
        }
    }
}

/// The closed set of criticism categories.
#[derive(Debug, Clone, Copy, PartialEq, Eq, Structural)]
pub enum CriticismCategory {
    LogicFlaw,
    FeasibilityIssue,
    RiskConcern,
    ValueUnclear,
    Inconsistency,
    ResourceConstraint,
    StakeholderConcern,
    ImplementationGap,
    MarketMismatch,
    ComplexityIssue,
}

/// The operational errors a stage or the runtime can surface: a missing
/// required upstream input, or a stage handing back the wrong result
/// variant. Both indicate a programming defect, not a runtime condition.
#[derive(Debug, Clone, Copy, PartialEq, Eq, Structural)]
pub enum AgentError {
    MissingInput,
    UnexpectedResultVariant,
}

/// The uniform contract every analytical stage implements.
pub trait Agent {
    /// The stage's display name.
    fn name(&self) -> &'static str;

    /// The capabilities the stage declares.
    fn capabilities(&self) -> Vec<AgentCapability>;

    /// Runs the stage over the shared context. Internal analysis never
    /// fails; only a missing required upstream input is an error.
    fn execute(&self, context: &AgentContext) -> Result<AgentResult, AgentError>;
}

} // verus!
