//! Core data model of the pipeline: the idea seed, clarification records,
//! iteration versions, verification reports and their parts.
//!
//! Free text is UTF-8 bytes; scores, confidences and severities are
//! fixed-point thousandths in `0..=1000`.

use vstd::prelude::*;

use crate::text::views2;

verus! {

/// A score, confidence or severity lies in the unit interval, expressed in
/// thousandths.
pub open spec fn valid_permille(x: u32) -> bool {
    x <= 1000
}

/// An optional unit-interval value clamped into thousandths, with the
/// documented default where it is absent.
pub open spec fn clamp_permille_or(x: Option<u32>, default: u32) -> u32 {
    match x {
        Some(v) => if v > 1000 {
            1000
        } else {
            v
        },
        None => default,
    }
}

/// The raw idea a session starts from; immutable once created.
#[derive(Debug, Clone)]
pub struct IdeaSeed {
    pub raw_text: Vec<u8>,
    pub context_hints: Vec<Vec<u8>>,
    pub domain: Option<Vec<u8>>,
}

/// One of the six categories of information a well-specified idea must
/// contain.
#[derive(Debug, Clone, Copy, PartialEq, Eq, Structural, Hash)]
pub enum SlotType {
    Target,
    Stakeholder,
    Constraints,
    Deliverable,
    Metrics,
    RiskAssumptions,
}

/// The six slot types in their canonical order.
pub open spec fn all_slots_seq() -> Seq<SlotType> {
    seq![
        SlotType::Target,
        SlotType::Stakeholder,
        SlotType::Constraints,
        SlotType::Deliverable,
        SlotType::Metrics,
        SlotType::RiskAssumptions,
    ]
}

/// Builds the six slot types in canonical order.
pub fn all_slots() -> (r: Vec<SlotType>)
    ensures
        r@ == all_slots_seq(),
{
    let mut r: Vec<SlotType> = Vec::new();
    r.push(SlotType::Target);
    r.push(SlotType::Stakeholder);
    r.push(SlotType::Constraints);
    r.push(SlotType::Deliverable);
    r.push(SlotType::Metrics);
    r.push(SlotType::RiskAssumptions);
    assert(r@ =~= all_slots_seq());
    r
}

/// A clarifying question, the slot it addresses, and the answer once the
/// user has responded.
#[derive(Debug, Clone)]
pub struct QAPair {
    pub question: Vec<u8>,
    pub answer: Option<Vec<u8>>,
    pub slot_type: SlotType,
}

/// The spec-level content of an optional answer.
pub open spec fn answer_view(a: Option<Vec<u8>>) -> Option<Seq<u8>> {
    match a {
        Some(v) => Some(v@),
        None => None,
    }
}

impl QAPair {
    /// A copy whose question, answer content and slot equal the original's.
    pub fn duplicate(&self) -> (r: QAPair)
        ensures
            r.question@ == self.question@,
            r.slot_type == self.slot_type,
            answer_view(r.answer) == answer_view(self.answer),
    {
        QAPair {
            question: self.question.clone(),
            answer: match &self.answer {
                Some(a) => Some(a.clone()),
                None => None,
            },
            slot_type: self.slot_type,
        }
    }
}

/// Slot `s` has at least one answered question in `qa`.
pub open spec fn slot_answered(qa: Seq<QAPair>, s: SlotType) -> bool {
    exists|i: int| 0 <= i < qa.len() && qa[i].slot_type == s && qa[i].answer is Some
}

/// The spec-level content of a question list: question text, slot, answer.
pub open spec fn q_proj(q: Seq<QAPair>) -> Seq<(Seq<u8>, SlotType, Option<Seq<u8>>)> {
    Seq::new(q.len(), |i: int| (q[i].question@, q[i].slot_type, answer_view(q[i].answer)))
}

/// The spec-level content of a constraint list: category and description.
pub open spec fn kv_views(v: Seq<(Vec<u8>, Vec<u8>)>) -> Seq<(Seq<u8>, Seq<u8>)> {
    Seq::new(v.len(), |i: int| (v[i].0@, v[i].1@))
}

/// The spec-level content of a structured idea.
pub open spec fn si_proj(s: StructuredIdea) -> (
    Option<Seq<u8>>,
    Seq<Seq<u8>>,
    Seq<(Seq<u8>, Seq<u8>)>,
    Seq<Seq<u8>>,
    Seq<Seq<u8>>,
    Seq<Seq<u8>>,
) {
    (
        answer_view(s.target),
        views2(s.stakeholders@),
        kv_views(s.constraints@),
        views2(s.deliverables@),
        views2(s.success_metrics@),
        views2(s.risks_assumptions@),
    )
}

/// The spec-level content of an optional structured idea.
pub open spec fn osi_proj(o: Option<StructuredIdea>) -> Option<
    (
        Option<Seq<u8>>,
        Seq<Seq<u8>>,
        Seq<(Seq<u8>, Seq<u8>)>,
        Seq<Seq<u8>>,
        Seq<Seq<u8>>,
        Seq<Seq<u8>>,
    ),
> {
    match o {
        Some(s) => Some(si_proj(s)),
        None => None,
    }
}

/// The spec-level content of a clarification: its questions, open slots,
/// confidence and structured idea.
pub open spec fn clar_proj(c: Clarification) -> (
    Seq<(Seq<u8>, SlotType, Option<Seq<u8>>)>,
    Seq<SlotType>,
    u32,
    Option<
        (
            Option<Seq<u8>>,
            Seq<Seq<u8>>,
            Seq<(Seq<u8>, Seq<u8>)>,
            Seq<Seq<u8>>,
            Seq<Seq<u8>>,
            Seq<Seq<u8>>,
        ),
    >,
) {
    (q_proj(c.qa_pairs@), c.open_slots@, c.confidence, osi_proj(c.structured_idea))
}

/// Copies a list of byte strings, preserving its content.
pub fn copy_texts(v: &Vec<Vec<u8>>) -> (r: Vec<Vec<u8>>)
    ensures
        views2(r@) == views2(v@),
{
    let mut r: Vec<Vec<u8>> = Vec::new();
    let mut i: usize = 0;
    while i < v.len()
        invariant
            i <= v@.len(),
            r@.len() == i,
            forall|k: int| 0 <= k < i ==> (#[trigger] r@[k])@ == v@[k]@,
        decreases v@.len() - i,
    {
        r.push(v[i].clone());
        i = i + 1;
    }
    assert(views2(r@) =~= views2(v@));
    r
}

/// What the clarifier knows after a round: the questions asked so far, the
/// slots still open, a confidence in thousandths and, once confidence is
/// high enough, the structured form of the idea.
#[derive(Debug, Clone)]
pub struct Clarification {
    pub qa_pairs: Vec<QAPair>,
    pub open_slots: Vec<SlotType>,
    pub confidence: u32,
    pub structured_idea: Option<StructuredIdea>,
}

impl Clarification {
    /// Well-formedness: the confidence is a unit-interval value.
    pub open spec fn wf(&self) -> bool {
        valid_permille(self.confidence)
    }

    /// A copy with the same spec-level content.
    pub fn duplicate(&self) -> (r: Clarification)
        ensures
            clar_proj(r) == clar_proj(*self),
            r.wf() == self.wf(),
    {
        let mut qa_pairs: Vec<QAPair> = Vec::new();
        let mut i: usize = 0;
        while i < self.qa_pairs.len()
            invariant
                i <= self.qa_pairs@.len(),
                qa_pairs@.len() == i,
                forall|k: int|
                    0 <= k < i ==> (#[trigger] qa_pairs@[k]).question@ == self.qa_pairs@[k].question@
                        && qa_pairs@[k].slot_type == self.qa_pairs@[k].slot_type && answer_view(
                        qa_pairs@[k].answer,
                    ) == answer_view(self.qa_pairs@[k].answer),
            decreases self.qa_pairs@.len() - i,
        {
            qa_pairs.push(self.qa_pairs[i].duplicate());
            i = i + 1;
        }
        let mut open_slots: Vec<SlotType> = Vec::new();
        let mut j: usize = 0;
        while j < self.open_slots.len()
            invariant
                j <= self.open_slots@.len(),
                open_slots@ =~= self.open_slots@.take(j as int),
            decreases self.open_slots@.len() - j,
        {
            open_slots.push(self.open_slots[j]);
            assert(open_slots@ =~= self.open_slots@.take(j + 1));
            j = j + 1;
        }
        assert(open_slots@ =~= self.open_slots@);
        let structured_idea: Option<StructuredIdea> = match &self.structured_idea {
            Some(s) => Some(s.duplicate()),
            None => None,
        };
        let r = Clarification {
            qa_pairs,
            open_slots,
            confidence: self.confidence,
            structured_idea,
        };
        assert(q_proj(r.qa_pairs@) =~= q_proj(self.qa_pairs@));
        r
    }
}

/// Normalized fields extracted from answered questions. Constraint keys are
/// unique.
#[derive(Debug, Clone)]
pub struct StructuredIdea {
    pub target: Option<Vec<u8>>,
    pub stakeholders: Vec<Vec<u8>>,
    pub constraints: Vec<(Vec<u8>, Vec<u8>)>,
    pub deliverables: Vec<Vec<u8>>,
    pub success_metrics: Vec<Vec<u8>>,
    pub risks_assumptions: Vec<Vec<u8>>,
}

impl StructuredIdea {
    /// Well-formedness: constraint categories do not repeat.
    pub open spec fn wf(&self) -> bool {
        forall|i: int, j: int|
            0 <= i < j < self.constraints@.len() ==> self.constraints@[i].0@
                != self.constraints@[j].0@
    }

    /// A copy with the same spec-level content.
    pub fn duplicate(&self) -> (r: StructuredIdea)
        ensures
            si_proj(r) == si_proj(*self),
    {
        let target: Option<Vec<u8>> = match &self.target {
            Some(t) => Some(t.clone()),
            None => None,
        };
        let mut constraints: Vec<(Vec<u8>, Vec<u8>)> = Vec::new();
        let mut i: usize = 0;
        while i < self.constraints.len()
            invariant
                i <= self.constraints@.len(),
                constraints@.len() == i,
                forall|k: int|
                    0 <= k < i ==> (#[trigger] constraints@[k]).0@ == self.constraints@[k].0@
                        && constraints@[k].1@ == self.constraints@[k].1@,
            decreases self.constraints@.len() - i,
        {
            let pair = &self.constraints[i];
            constraints.push((pair.0.clone(), pair.1.clone()));
            i = i + 1;
        }
        let r = StructuredIdea {
            target,
            stakeholders: copy_texts(&self.stakeholders),
            constraints,
            deliverables: copy_texts(&self.deliverables),
            success_metrics: copy_texts(&self.success_metrics),
            risks_assumptions: copy_texts(&self.risks_assumptions),
        };
        assert(kv_views(r.constraints@) =~= kv_views(self.constraints@));
        r
    }

    /// An idea with every field empty.
    pub fn empty() -> (r: StructuredIdea)
        ensures
            r.wf(),
            r.target is None,
            r.stakeholders@.len() == 0,
            r.constraints@.len() == 0,
            r.deliverables@.len() == 0,
            r.success_metrics@.len() == 0,
            r.risks_assumptions@.len() == 0,
    {
        StructuredIdea {
            target: None,
            stakeholders: Vec::new(),
            constraints: Vec::new(),
            deliverables: Vec::new(),
            success_metrics: Vec::new(),
            risks_assumptions: Vec::new(),
        }
    }
}

/// Quality scores of a synthesized iteration, each in thousandths.
#[derive(Debug, Clone)]
pub struct Scores {
    pub novelty: u32,
    pub feasibility: u32,
    pub coherence: u32,
}

impl Scores {
    /// Well-formedness: every score is a unit-interval value.
    pub open spec fn wf(&self) -> bool {
        valid_permille(self.novelty) && valid_permille(self.feasibility) && valid_permille(
            self.coherence,
        )
    }
}

/// One synthesized version of the idea; immutable once emitted.
#[derive(Debug, Clone)]
pub struct IterationVersion {
    pub id: String,
    pub version_number: u32,
    pub summary: Vec<u8>,
    pub deltas: Vec<Vec<u8>>,
    pub rationale: Vec<u8>,
    pub scores: Scores,
    pub created_at: i64,
}

impl IterationVersion {
    /// Well-formedness: the scores are unit-interval values.
    pub open spec fn wf(&self) -> bool {
        self.scores.wf()
    }

    /// A copy with the same spec-level content.
    pub fn duplicate(&self) -> (r: IterationVersion)
        ensures
            r.id@ == self.id@,
            r.version_number == self.version_number,
            r.summary@ == self.summary@,
            views2(r.deltas@) == views2(self.deltas@),
            r.rationale@ == self.rationale@,
            r.scores == self.scores,
            r.created_at == self.created_at,
    {
        IterationVersion {
            id: self.id.clone(),
            version_number: self.version_number,
            summary: self.summary.clone(),
            deltas: copy_texts(&self.deltas),
            rationale: self.rationale.clone(),
            scores: Scores {
                novelty: self.scores.novelty,
                feasibility: self.scores.feasibility,
                coherence: self.scores.coherence,
            },
            created_at: self.created_at,
        }
    }
}

/// The verifier's full report over one iteration.
#[derive(Debug, Clone)]
pub struct VerificationReport {
    pub logic_checks: Vec<LogicCheck>,
    pub fact_checks: Vec<FactCheck>,
    pub risks: Vec<Risk>,
    pub passed: bool,
    pub confidence: u32,
}

/// A single logic-consistency check and its outcome.
#[derive(Debug, Clone)]
pub struct LogicCheck {
    pub check_type: Vec<u8>,
    pub description: Vec<u8>,
    pub passed: bool,
    pub message: Vec<u8>,
}

/// A single fact-plausibility check over a claim.
#[derive(Debug, Clone)]
pub struct FactCheck {
    pub claim: Vec<u8>,
    pub evidence: Vec<Evidence>,
    pub status: FactCheckStatus,
    pub confidence: u32,
}

/// Outcome of a fact check.
#[derive(Debug, Clone, Copy, PartialEq, Eq, Structural)]
pub enum FactCheckStatus {
    Supported,
    Partial,
    Unsupported,
    NeedClarification,
}

/// A snippet of retrieved knowledge supporting a claim.
#[derive(Debug, Clone)]
pub struct Evidence {
    pub source_id: Vec<u8>,
    pub snippet: Vec<u8>,
    pub relevance: u32,
    pub url: Option<Vec<u8>>,
}

/// One identified risk with its severity tier.
#[derive(Debug, Clone)]
pub struct Risk {
    pub description: Vec<u8>,
    pub severity: RiskSeverity,
    pub mitigation: Option<Vec<u8>>,
}

/// Severity ladder for risks.
#[derive(Debug, Clone, Copy, PartialEq, Eq, Structural)]
pub enum RiskSeverity {
    Low,
    Medium,
    High,
    Critical,
}

/// How a final report should be rendered.
#[derive(Debug, Clone)]
pub struct OutputSpec {
    pub format: OutputFormat,
    pub sections: Vec<SectionSpec>,
    pub visuals: Vec<VisualSpec>,
}

/// Supported report formats.
#[derive(Debug, Clone, Copy, PartialEq, Eq, Structural)]
pub enum OutputFormat {
    Markdown,
    Json,
    Html,
    Pdf,
}

/// One section of a rendered report.
#[derive(Debug, Clone)]
pub struct SectionSpec {
    pub title: Vec<u8>,
    pub content_type: Vec<u8>,
    pub required: bool,
}

/// One visualization of a rendered report.
#[derive(Debug, Clone)]
pub struct VisualSpec {
    pub chart_type: Vec<u8>,
    pub data_source: Vec<u8>,
    pub title: Vec<u8>,
}

} // verus!
