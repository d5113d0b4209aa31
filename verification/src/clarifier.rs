//! The clarifier stage: keyword-based slot analysis of a raw idea,
//! templated question generation, and the round update of a clarification.

use vstd::prelude::*;
use vstd::string::StrSliceExecFns;
use vstd::string::StringSliceAdditionalSpecFns;

use crate::agents::{Agent, AgentCapability, AgentContext, AgentError, AgentResult};
use crate::data::{
    all_slots, all_slots_seq, answer_view, clar_proj, kv_views, osi_proj, q_proj, si_proj, Clarification,
    IdeaSeed, QAPair, SlotType, StructuredIdea, slot_answered, valid_permille,
};
use crate::text::{
    bytes_eq, char_prefix, char_prefix_seq, contains_seq, contains_bytes, join_sp, lower_seq,
    matches_any, matches_any_exec, split_clean, split_clean_seq, split_words, to_lower_bytes,
    views2, words_of,
};
use vstd::slice::slice_to_vec;

verus! {

/// Keywords whose presence marks the target slot as covered.
pub open spec fn target_kw() -> Seq<Seq<u8>> {
    seq![
        ("目标").spec_bytes(),
        ("目的").spec_bytes(),
        ("为了").spec_bytes(),
        ("实现").spec_bytes(),
        ("达到").spec_bytes(),
        ("完成").spec_bytes(),
        ("希望").spec_bytes(),
        ("goal").spec_bytes(),
        ("objective").spec_bytes(),
        ("aim").spec_bytes(),
        ("target").spec_bytes(),
        ("achieve").spec_bytes(),
        ("want").spec_bytes(),
        ("need").spec_bytes(),
    ]
}

fn target_kw_exec() -> (r: Vec<Vec<u8>>)
    ensures
        views2(r@) == target_kw(),
{
    let mut r: Vec<Vec<u8>> = Vec::new();
    r.push(("目标").as_bytes_vec());
    r.push(("目的").as_bytes_vec());
    r.push(("为了").as_bytes_vec());
    r.push(("实现").as_bytes_vec());
    r.push(("达到").as_bytes_vec());
    r.push(("完成").as_bytes_vec());
    r.push(("希望").as_bytes_vec());
    r.push(("goal").as_bytes_vec());
    r.push(("objective").as_bytes_vec());
    r.push(("aim").as_bytes_vec());
    r.push(("target").as_bytes_vec());
    r.push(("achieve").as_bytes_vec());
    r.push(("want").as_bytes_vec());
    r.push(("need").as_bytes_vec());
    assert(views2(r@) =~= target_kw());
    r
}

/// Keywords whose presence marks the stakeholder slot as covered.
pub open spec fn stakeholder_kw() -> Seq<Seq<u8>> {
    seq![
        ("用户").spec_bytes(),
        ("客户").spec_bytes(),
        ("团队").spec_bytes(),
        ("公司").spec_bytes(),
        ("组织").spec_bytes(),
        ("受众").spec_bytes(),
        ("人员").spec_bytes(),
        ("群体").spec_bytes(),
        ("user").spec_bytes(),
        ("customer").spec_bytes(),
        ("team").spec_bytes(),
        ("company").spec_bytes(),
        ("stakeholder").spec_bytes(),
        ("audience").spec_bytes(),
        ("people").spec_bytes(),
    ]
}

fn stakeholder_kw_exec() -> (r: Vec<Vec<u8>>)
    ensures
        views2(r@) == stakeholder_kw(),
{
    let mut r: Vec<Vec<u8>> = Vec::new();
    r.push(("用户").as_bytes_vec());
    r.push(("客户").as_bytes_vec());
    r.push(("团队").as_bytes_vec());
    r.push(("公司").as_bytes_vec());
    r.push(("组织").as_bytes_vec());
    r.push(("受众").as_bytes_vec());
    r.push(("人员").as_bytes_vec());
    r.push(("群体").as_bytes_vec());
    r.push(("user").as_bytes_vec());
    r.push(("customer").as_bytes_vec());
    r.push(("team").as_bytes_vec());
    r.push(("company").as_bytes_vec());
    r.push(("stakeholder").as_bytes_vec());
    r.push(("audience").as_bytes_vec());
    r.push(("people").as_bytes_vec());
    assert(views2(r@) =~= stakeholder_kw());
    r
}

/// Keywords whose presence marks the constraints slot as covered.
pub open spec fn constraints_kw() -> Seq<Seq<u8>> {
    seq![
        ("预算").spec_bytes(),
        ("时间").spec_bytes(),
        ("资源").spec_bytes(),
        ("限制").spec_bytes(),
        ("约束").spec_bytes(),
        ("要求").spec_bytes(),
        ("条件").spec_bytes(),
        ("成本").spec_bytes(),
        ("budget").spec_bytes(),
        ("time").spec_bytes(),
        ("resource").spec_bytes(),
        ("limit").spec_bytes(),
        ("constraint").spec_bytes(),
        ("requirement").spec_bytes(),
        ("cost").spec_bytes(),
    ]
}

fn constraints_kw_exec() -> (r: Vec<Vec<u8>>)
    ensures
        views2(r@) == constraints_kw(),
{
    let mut r: Vec<Vec<u8>> = Vec::new();
    r.push(("预算").as_bytes_vec());
    r.push(("时间").as_bytes_vec());
    r.push(("资源").as_bytes_vec());
    r.push(("限制").as_bytes_vec());
    r.push(("约束").as_bytes_vec());
    r.push(("要求").as_bytes_vec());
    r.push(("条件").as_bytes_vec());
    r.push(("成本").as_bytes_vec());
    r.push(("budget").as_bytes_vec());
    r.push(("time").as_bytes_vec());
    r.push(("resource").as_bytes_vec());
    r.push(("limit").as_bytes_vec());
    r.push(("constraint").as_bytes_vec());
    r.push(("requirement").as_bytes_vec());
    r.push(("cost").as_bytes_vec());
    assert(views2(r@) =~= constraints_kw());
    r
}

/// Keywords whose presence marks the deliverable slot as covered.
pub open spec fn deliverable_kw() -> Seq<Seq<u8>> {
    seq![
        ("产品").spec_bytes(),
        ("系统").spec_bytes(),
        ("方案").spec_bytes(),
        ("报告").spec_bytes(),
        ("文档").spec_bytes(),
        ("应用").spec_bytes(),
        ("工具").spec_bytes(),
        ("product").spec_bytes(),
        ("system").spec_bytes(),
        ("solution").spec_bytes(),
        ("report").spec_bytes(),
        ("document").spec_bytes(),
        ("application").spec_bytes(),
        ("platform").spec_bytes(),
    ]
}

fn deliverable_kw_exec() -> (r: Vec<Vec<u8>>)
    ensures
        views2(r@) == deliverable_kw(),
{
    let mut r: Vec<Vec<u8>> = Vec::new();
    r.push(("产品").as_bytes_vec());
    r.push(("系统").as_bytes_vec());
    r.push(("方案").as_bytes_vec());
    r.push(("报告").as_bytes_vec());
    r.push(("文档").as_bytes_vec());
    r.push(("应用").as_bytes_vec());
    r.push(("工具").as_bytes_vec());
    r.push(("product").as_bytes_vec());
    r.push(("system").as_bytes_vec());
    r.push(("solution").as_bytes_vec());
    r.push(("report").as_bytes_vec());
    r.push(("document").as_bytes_vec());
    r.push(("application").as_bytes_vec());
    r.push(("platform").as_bytes_vec());
    assert(views2(r@) =~= deliverable_kw());
    r
}

/// Keywords whose presence marks the metrics slot as covered.
pub open spec fn metrics_kw() -> Seq<Seq<u8>> {
    seq![
        ("指标").spec_bytes(),
        ("效果").spec_bytes(),
        ("收益").spec_bytes(),
        ("价值").spec_bytes(),
        ("成功").spec_bytes(),
        ("kpi").spec_bytes(),
        ("衡量").spec_bytes(),
        ("评估").spec_bytes(),
        ("metric").spec_bytes(),
        ("success").spec_bytes(),
        ("value").spec_bytes(),
        ("benefit").spec_bytes(),
        ("roi").spec_bytes(),
        ("performance").spec_bytes(),
        ("measure").spec_bytes(),
    ]
}

fn metrics_kw_exec() -> (r: Vec<Vec<u8>>)
    ensures
        views2(r@) == metrics_kw(),
{
    let mut r: Vec<Vec<u8>> = Vec::new();
    r.push(("指标").as_bytes_vec());
    r.push(("效果").as_bytes_vec());
    r.push(("收益").as_bytes_vec());
    r.push(("价值").as_bytes_vec());
    r.push(("成功").as_bytes_vec());
    r.push(("kpi").as_bytes_vec());
    r.push(("衡量").as_bytes_vec());
    r.push(("评估").as_bytes_vec());
    r.push(("metric").as_bytes_vec());
    r.push(("success").as_bytes_vec());
    r.push(("value").as_bytes_vec());
    r.push(("benefit").as_bytes_vec());
    r.push(("roi").as_bytes_vec());
    r.push(("performance").as_bytes_vec());
    r.push(("measure").as_bytes_vec());
    assert(views2(r@) =~= metrics_kw());
    r
}

/// Keywords whose presence marks the risk-assumptions slot as covered.
pub open spec fn risks_kw() -> Seq<Seq<u8>> {
    seq![
        ("风险").spec_bytes(),
        ("挑战").spec_bytes(),
        ("问题").spec_bytes(),
        ("困难").spec_bytes(),
        ("阻碍").spec_bytes(),
        ("假设").spec_bytes(),
        ("不确定").spec_bytes(),
        ("risk").spec_bytes(),
        ("challenge").spec_bytes(),
        ("problem").spec_bytes(),
        ("difficulty").spec_bytes(),
        ("assumption").spec_bytes(),
        ("uncertainty").spec_bytes(),
    ]
}

fn risks_kw_exec() -> (r: Vec<Vec<u8>>)
    ensures
        views2(r@) == risks_kw(),
{
    let mut r: Vec<Vec<u8>> = Vec::new();
    r.push(("风险").as_bytes_vec());
    r.push(("挑战").as_bytes_vec());
    r.push(("问题").as_bytes_vec());
    r.push(("困难").as_bytes_vec());
    r.push(("阻碍").as_bytes_vec());
    r.push(("假设").as_bytes_vec());
    r.push(("不确定").as_bytes_vec());
    r.push(("risk").as_bytes_vec());
    r.push(("challenge").as_bytes_vec());
    r.push(("problem").as_bytes_vec());
    r.push(("difficulty").as_bytes_vec());
    r.push(("assumption").as_bytes_vec());
    r.push(("uncertainty").as_bytes_vec());
    assert(views2(r@) =~= risks_kw());
    r
}

/// The keyword lexicon of one slot type.
pub open spec fn slot_keywords(s: SlotType) -> Seq<Seq<u8>> {
    match s {
        SlotType::Target => target_kw(),
        SlotType::Stakeholder => stakeholder_kw(),
        SlotType::Constraints => constraints_kw(),
        SlotType::Deliverable => deliverable_kw(),
        SlotType::Metrics => metrics_kw(),
        SlotType::RiskAssumptions => risks_kw(),
    }
}

/// The lowercased idea text matches the slot's lexicon.
pub open spec fn slot_matched(text: Seq<u8>, s: SlotType) -> bool {
    matches_any(lower_seq(text), slot_keywords(s))
}

/// One term of the missing-slot sequence.
pub open spec fn missing_term(text: Seq<u8>, s: SlotType) -> Seq<SlotType> {
    if !slot_matched(text, s) {
        seq![s]
    } else {
        Seq::empty()
    }
}

/// The slots the idea text leaves open, in canonical order: those whose
/// lexicon has no case-insensitive substring match in the text.
pub open spec fn missing_slots_of(text: Seq<u8>) -> Seq<SlotType> {
    missing_term(text, SlotType::Target) + missing_term(text, SlotType::Stakeholder)
        + missing_term(text, SlotType::Constraints) + missing_term(text, SlotType::Deliverable)
        + missing_term(text, SlotType::Metrics) + missing_term(text, SlotType::RiskAssumptions)
}

/// The canonical fallback question asked for one open slot.
pub open spec fn fallback_question(s: SlotType) -> Seq<u8> {
    match s {
        SlotType::Target => ("您希望通过这个想法实现什么具体目标？").spec_bytes(),
        SlotType::Stakeholder => ("谁是这个想法的主要受众或利益相关者？").spec_bytes(),
        SlotType::Constraints => ("您在实现这个想法时面临哪些限制或约束条件？").spec_bytes(),
        SlotType::Deliverable => ("您期望的最终产出或交付物是什么形式？").spec_bytes(),
        SlotType::Metrics => ("您如何衡量这个想法的成功？有哪些关键指标？").spec_bytes(),
        SlotType::RiskAssumptions => ("您认为在实现过程中可能遇到哪些风险？").spec_bytes(),
    }
}

fn fallback_question_exec(s: SlotType) -> (r: Vec<u8>)
    ensures
        r@ == fallback_question(s),
{
    match s {
        SlotType::Target => ("您希望通过这个想法实现什么具体目标？").as_bytes_vec(),
        SlotType::Stakeholder => ("谁是这个想法的主要受众或利益相关者？").as_bytes_vec(),
        SlotType::Constraints => ("您在实现这个想法时面临哪些限制或约束条件？").as_bytes_vec(),
        SlotType::Deliverable => ("您期望的最终产出或交付物是什么形式？").as_bytes_vec(),
        SlotType::Metrics => ("您如何衡量这个想法的成功？有哪些关键指标？").as_bytes_vec(),
        SlotType::RiskAssumptions => ("您认为在实现过程中可能遇到哪些风险？").as_bytes_vec(),
    }
}

/// The confidence assigned when `open_count` of the six slots are open:
/// the covered share of the six slots, in thousandths.
pub open spec fn completeness_confidence(open_count: int) -> u32 {
    if open_count >= 6 {
        0
    } else if open_count < 0 {
        1000
    } else {
        (((6 - open_count) * 1000) / 6) as u32
    }
}

/// What the heuristic fallback produces from an idea text: the keyword-open
/// slots, one templated unanswered question per open slot, the completeness
/// confidence, and no structured idea yet.
pub open spec fn fallback_clar_post(text: Seq<u8>, c: Clarification) -> bool {
    &&& c.open_slots@ == missing_slots_of(text)
    &&& c.qa_pairs@.len() == missing_slots_of(text).len()
    &&& forall|i: int|
        0 <= i < c.qa_pairs@.len() ==> (#[trigger] c.qa_pairs@[i]).slot_type == missing_slots_of(
            text,
        )[i] && c.qa_pairs@[i].answer is None && c.qa_pairs@[i].question@ == fallback_question(
            missing_slots_of(text)[i],
        )
    &&& c.confidence == completeness_confidence(missing_slots_of(text).len() as int)
    &&& c.structured_idea is None
}

/// Invoking the heuristic fallback twice on the same idea with no new
/// answers yields the same open-slot set and the same question count.
pub proof fn lemma_fallback_idempotent(text: Seq<u8>, c1: Clarification, c2: Clarification)
    requires
        fallback_clar_post(text, c1),
        fallback_clar_post(text, c2),
    ensures
        c1.open_slots@ == c2.open_slots@,
        c1.qa_pairs@.len() == c2.qa_pairs@.len(),
{
}

/// The slots of the six that have no answered question in `qa`, in
/// canonical order.
pub open spec fn open_term(qa: Seq<QAPair>, s: SlotType) -> Seq<SlotType> {
    if !slot_answered(qa, s) {
        seq![s]
    } else {
        Seq::empty()
    }
}

/// The recomputed open-slot sequence: the six slot types minus those with
/// at least one answered question.
pub open spec fn open_slots_spec(qa: Seq<QAPair>) -> Seq<SlotType> {
    open_term(qa, SlotType::Target) + open_term(qa, SlotType::Stakeholder) + open_term(
        qa,
        SlotType::Constraints,
    ) + open_term(qa, SlotType::Deliverable) + open_term(qa, SlotType::Metrics) + open_term(
        qa,
        SlotType::RiskAssumptions,
    )
}

proof fn lemma_concat_contains<A>(a: Seq<A>, b: Seq<A>, x: A)
    ensures
        (a + b).contains(x) <==> a.contains(x) || b.contains(x),
{
    if a.contains(x) {
        let i = choose|i: int| 0 <= i < a.len() && a[i] == x;
        assert((a + b)[i] == x);
    }
    if b.contains(x) {
        let i = choose|i: int| 0 <= i < b.len() && b[i] == x;
        assert((a + b)[i + a.len()] == x);
    }
    if (a + b).contains(x) {
        let i = choose|i: int| 0 <= i < (a + b).len() && (a + b)[i] == x;
        if i < a.len() {
            assert(a[i] == x);
        } else {
            assert(b[i - a.len()] == x);
        }
    }
}

proof fn lemma_term_contains(qa: Seq<QAPair>, t: SlotType, s: SlotType)
    ensures
        open_term(qa, t).contains(s) <==> (s == t && !slot_answered(qa, t)),
{
    if !slot_answered(qa, t) {
        assert(open_term(qa, t) == seq![t]);
        if open_term(qa, t).contains(s) {
            let i = choose|i: int|
                0 <= i < open_term(qa, t).len() && open_term(qa, t)[i] == s;
            assert(open_term(qa, t)[i] == t);
        }
        if s == t {
            assert(open_term(qa, t)[0] == s);
        }
    } else {
        assert(open_term(qa, t).len() == 0);
    }
}

/// The open-slot set equals the six slot types minus those with at least
/// one answered question: a slot stands in `open_slots_spec(qa)` exactly
/// when no question addressing it has been answered.
pub proof fn lemma_open_slots_complement(qa: Seq<QAPair>, s: SlotType)
    ensures
        open_slots_spec(qa).contains(s) <==> !slot_answered(qa, s),
{
    lemma_term_contains(qa, SlotType::Target, s);
    lemma_term_contains(qa, SlotType::Stakeholder, s);
    lemma_term_contains(qa, SlotType::Constraints, s);
    lemma_term_contains(qa, SlotType::Deliverable, s);
    lemma_term_contains(qa, SlotType::Metrics, s);
    lemma_term_contains(qa, SlotType::RiskAssumptions, s);
    let t1 = open_term(qa, SlotType::Target);
    let t2 = open_term(qa, SlotType::Stakeholder);
    let t3 = open_term(qa, SlotType::Constraints);
    let t4 = open_term(qa, SlotType::Deliverable);
    let t5 = open_term(qa, SlotType::Metrics);
    let t6 = open_term(qa, SlotType::RiskAssumptions);
    lemma_concat_contains(t1, t2, s);
    lemma_concat_contains(t1 + t2, t3, s);
    lemma_concat_contains(t1 + t2 + t3, t4, s);
    lemma_concat_contains(t1 + t2 + t3 + t4, t5, s);
    lemma_concat_contains(t1 + t2 + t3 + t4 + t5, t6, s);
}

/// The clarifier stage.
pub struct ClarifierAgent {}

impl ClarifierAgent {
    /// A fresh clarifier.
    pub fn new() -> (r: Self) {
        ClarifierAgent {  }
    }

    fn has_clear_target(&self, content: &[u8]) -> (r: bool)
        ensures
            r == matches_any(content@, target_kw()),
    {
        matches_any_exec(content, &target_kw_exec())
    }

    fn has_clear_stakeholders(&self, content: &[u8]) -> (r: bool)
        ensures
            r == matches_any(content@, stakeholder_kw()),
    {
        matches_any_exec(content, &stakeholder_kw_exec())
    }

    fn has_clear_constraints(&self, content: &[u8]) -> (r: bool)
        ensures
            r == matches_any(content@, constraints_kw()),
    {
        matches_any_exec(content, &constraints_kw_exec())
    }

    fn has_clear_deliverable(&self, content: &[u8]) -> (r: bool)
        ensures
            r == matches_any(content@, deliverable_kw()),
    {
        matches_any_exec(content, &deliverable_kw_exec())
    }

    fn has_clear_metrics(&self, content: &[u8]) -> (r: bool)
        ensures
            r == matches_any(content@, metrics_kw()),
    {
        matches_any_exec(content, &metrics_kw_exec())
    }

    fn has_clear_risks(&self, content: &[u8]) -> (r: bool)
        ensures
            r == matches_any(content@, risks_kw()),
    {
        matches_any_exec(content, &risks_kw_exec())
    }

    /// The slots the idea text leaves open: each of the six whose lexicon
    /// finds no case-insensitive match in the text, in canonical order.
    pub fn extract_missing_slots(&self, idea: &IdeaSeed) -> (r: Vec<SlotType>)
        ensures
            r@ == missing_slots_of(idea.raw_text@),
    {
        let content = to_lower_bytes(idea.raw_text.as_slice());
        let mut r: Vec<SlotType> = Vec::new();
        if !self.has_clear_target(content.as_slice()) {
            r.push(SlotType::Target);
        }
        if !self.has_clear_stakeholders(content.as_slice()) {
            r.push(SlotType::Stakeholder);
        }
        if !self.has_clear_constraints(content.as_slice()) {
            r.push(SlotType::Constraints);
        }
        if !self.has_clear_deliverable(content.as_slice()) {
            r.push(SlotType::Deliverable);
        }
        if !self.has_clear_metrics(content.as_slice()) {
            r.push(SlotType::Metrics);
        }
        if !self.has_clear_risks(content.as_slice()) {
            r.push(SlotType::RiskAssumptions);
        }
        assert(r@ =~= missing_slots_of(idea.raw_text@));
        r
    }

    /// One templated, unanswered question per given slot, in order.
    pub fn generate_fallback_questions(&self, missing_slots: &Vec<SlotType>) -> (r: Vec<QAPair>)
        ensures
            r@.len() == missing_slots@.len(),
            forall|i: int|
                0 <= i < r@.len() ==> (#[trigger] r@[i]).slot_type == missing_slots@[i] && r@[i].answer
                    is None && r@[i].question@ == fallback_question(missing_slots@[i]),
    {
        let mut r: Vec<QAPair> = Vec::new();
        let mut i: usize = 0;
        while i < missing_slots.len()
            invariant
                i <= missing_slots@.len(),
                r@.len() == i,
                forall|k: int|
                    0 <= k < i ==> (#[trigger] r@[k]).slot_type == missing_slots@[k] && r@[k].answer
                        is None && r@[k].question@ == fallback_question(missing_slots@[k]),
            decreases missing_slots@.len() - i,
        {
            let slot = missing_slots[i];
            r.push(
                QAPair {
                    question: fallback_question_exec(slot),
                    answer: None,
                    slot_type: slot,
                },
            );
            i = i + 1;
        }
        r
    }

    /// The covered share of the six slots, in thousandths, from the number
    /// of slots still open.
    pub fn analyze_slot_completeness(&self, clarification: &Clarification) -> (r: u32)
        ensures
            r == completeness_confidence(clarification.open_slots@.len() as int),
            valid_permille(r),
    {
        let open: usize = clarification.open_slots.len();
        if open >= 6 {
            0
        } else {
            (((6 - open as u32)) * 1000) / 6
        }
    }

    /// The deterministic keyword fallback: matches each slot's lexicon
    /// against the idea text, opens every slot with no match, asks one
    /// templated question per open slot, and scores confidence as the
    /// covered share of the six slots.
    pub fn generate_fallback_clarification(&self, idea: &IdeaSeed) -> (r: Clarification)
        ensures
            fallback_clar_post(idea.raw_text@, r),
            r.wf(),
    {
        let missing_slots = self.extract_missing_slots(idea);
        let qa_pairs = self.generate_fallback_questions(&missing_slots);
        let open: usize = missing_slots.len();
        let confidence: u32 = if open >= 6 {
            0
        } else {
            (((6 - open as u32)) * 1000) / 6
        };
        Clarification { qa_pairs, open_slots: missing_slots, confidence, structured_idea: None }
    }

    /// Recomputes the open-slot list from the questions asked so far: the
    /// six slot types minus those with at least one answered question.
    pub fn recompute_open_slots(&self, qa_pairs: &Vec<QAPair>) -> (r: Vec<SlotType>)
        ensures
            r@ == open_slots_spec(qa_pairs@),
    {
        let mut r: Vec<SlotType> = Vec::new();
        if !has_answered_slot(qa_pairs, SlotType::Target) {
            r.push(SlotType::Target);
        }
        if !has_answered_slot(qa_pairs, SlotType::Stakeholder) {
            r.push(SlotType::Stakeholder);
        }
        if !has_answered_slot(qa_pairs, SlotType::Constraints) {
            r.push(SlotType::Constraints);
        }
        if !has_answered_slot(qa_pairs, SlotType::Deliverable) {
            r.push(SlotType::Deliverable);
        }
        if !has_answered_slot(qa_pairs, SlotType::Metrics) {
            r.push(SlotType::Metrics);
        }
        if !has_answered_slot(qa_pairs, SlotType::RiskAssumptions) {
            r.push(SlotType::RiskAssumptions);
        }
        assert(r@ =~= open_slots_spec(qa_pairs@));
        r
    }

    /// Clarification stops when no slot is open, or the confidence has
    /// reached 0.7, or each of the target, stakeholder and deliverable
    /// slots has an answered question.
    pub fn should_stop_clarification(&self, clarification: &Clarification) -> (r: bool)
        ensures
            r == (clarification.open_slots@.len() == 0 || clarification.confidence >= 700 || (
            slot_answered(clarification.qa_pairs@, SlotType::Target) && slot_answered(
                clarification.qa_pairs@,
                SlotType::Stakeholder,
            ) && slot_answered(clarification.qa_pairs@, SlotType::Deliverable))),
    {
        if clarification.open_slots.len() == 0 {
            return true;
        }
        if clarification.confidence >= 700 {
            return true;
        }
        has_answered_slot(&clarification.qa_pairs, SlotType::Target) && has_answered_slot(
            &clarification.qa_pairs,
            SlotType::Stakeholder,
        ) && has_answered_slot(&clarification.qa_pairs, SlotType::Deliverable)
    }
}

/// The opening words of the idea: its first five whitespace-separated
/// words joined by single spaces with a trailing ellipsis, or the whole
/// text when it has five words or fewer.
pub open spec fn key_phrase_of(text: Seq<u8>) -> Seq<u8> {
    if words_of(text).len() > 5 {
        join_sp(words_of(text).take(5)) + ("...").spec_bytes()
    } else {
        text
    }
}

/// The two targeted questions asked for one open slot; `which` selects the
/// first or the second.
pub open spec fn slot_question_text(text: Seq<u8>, s: SlotType, which: int) -> Seq<u8> {
    match s {
        SlotType::Target => if which == 0 {
            ("基于您提到的「").spec_bytes() + key_phrase_of(text) + (
            "」，您希望具体达成什么目标？请尽可能详细地描述。").spec_bytes()
        } else {
            ("这个想法要解决的核心问题是什么？为什么这个问题值得解决？").spec_bytes()
        },
        SlotType::Stakeholder => if which == 0 {
            ("谁是这个想法的主要受益者？他们目前面临什么痛点？").spec_bytes()
        } else {
            ("需要哪些团队或个人参与实施？各自的角色和责任是什么？").spec_bytes()
        },
        SlotType::Constraints => if which == 0 {
            ("您有什么预算、时间或人员方面的限制？这些限制如何影响方案设计？").spec_bytes()
        } else {
            ("有哪些技术、法律、政策或其他方面的约束需要考虑？").spec_bytes()
        },
        SlotType::Deliverable => if which == 0 {
            ("您期望的最终交付物是什么？（如产品、系统、报告、方案等）").spec_bytes()
        } else {
            ("这个交付物需要具备哪些关键特性或功能？用户如何使用它？").spec_bytes()
        },
        SlotType::Metrics => if which == 0 {
            ("您如何定义和衡量这个想法的成功？有什么具体的量化指标吗？").spec_bytes()
        } else {
            ("预期的投入产出比是什么？多长时间能看到效果？").spec_bytes()
        },
        SlotType::RiskAssumptions => if which == 0 {
            ("实施过程中可能遇到哪些主要风险或挑战？").spec_bytes()
        } else {
            ("这个想法基于哪些关键假设？如果假设不成立会怎样？").spec_bytes()
        },
    }
}

/// The unanswered question candidates for a round: two per open slot, in
/// slot order.
pub open spec fn cand_pairs(text: Seq<u8>, slots: Seq<SlotType>) -> Seq<
    (Seq<u8>, SlotType, Option<Seq<u8>>),
>
    decreases slots.len(),
{
    if slots.len() == 0 {
        Seq::empty()
    } else {
        cand_pairs(text, slots.drop_last()) + seq![
            (slot_question_text(text, slots.last(), 0), slots.last(), None),
            (slot_question_text(text, slots.last(), 1), slots.last(), None),
        ]
    }
}

/// The comparison key for question de-duplication: the first twenty
/// characters.
pub open spec fn q_prefix(q: Seq<u8>) -> Seq<u8> {
    char_prefix_seq(q, 20)
}

/// Removes every candidate whose twenty-character prefix repeats that of
/// the question kept just before it.
pub open spec fn dedup_pairs(s: Seq<(Seq<u8>, SlotType, Option<Seq<u8>>)>) -> Seq<
    (Seq<u8>, SlotType, Option<Seq<u8>>),
>
    decreases s.len(),
{
    if s.len() <= 1 {
        s
    } else {
        let rest = dedup_pairs(s.drop_last());
        if q_prefix(s.last().0) == q_prefix(rest.last().0) {
            rest
        } else {
            rest.push(s.last())
        }
    }
}

proof fn lemma_dedup_len(s: Seq<(Seq<u8>, SlotType, Option<Seq<u8>>)>)
    ensures
        s.len() >= 1 ==> 1 <= dedup_pairs(s).len() <= s.len(),
    decreases s.len(),
{
    if s.len() > 1 {
        lemma_dedup_len(s.drop_last());
    }
}

/// Slot importance for question ordering: target first, then stakeholder,
/// then deliverable, then the rest.
pub open spec fn slot_priority(s: SlotType) -> int {
    match s {
        SlotType::Target => 3,
        SlotType::Stakeholder => 2,
        SlotType::Deliverable => 1,
        _ => 0,
    }
}

/// The candidates of one priority tier, in their original order.
pub open spec fn filter_pri(s: Seq<(Seq<u8>, SlotType, Option<Seq<u8>>)>, p: int) -> Seq<
    (Seq<u8>, SlotType, Option<Seq<u8>>),
>
    decreases s.len(),
{
    if s.len() == 0 {
        Seq::empty()
    } else {
        let rest = filter_pri(s.drop_last(), p);
        if slot_priority(s.last().1) == p {
            rest.push(s.last())
        } else {
            rest
        }
    }
}

/// Stable ordering by descending slot priority.
pub open spec fn sort_by_priority(s: Seq<(Seq<u8>, SlotType, Option<Seq<u8>>)>) -> Seq<
    (Seq<u8>, SlotType, Option<Seq<u8>>),
> {
    filter_pri(s, 3) + filter_pri(s, 2) + filter_pri(s, 1) + filter_pri(s, 0)
}

/// What one clarification round asks: two candidates per open slot,
/// de-duplicated by twenty-character prefix, ordered by slot importance,
/// and capped at three questions.
pub open spec fn round_questions_spec(text: Seq<u8>, slots: Seq<SlotType>) -> Seq<
    (Seq<u8>, SlotType, Option<Seq<u8>>),
> {
    let s = sort_by_priority(dedup_pairs(cand_pairs(text, slots)));
    if s.len() <= 3 {
        s
    } else {
        s.take(3)
    }
}

fn priority_of(s: SlotType) -> (r: u32)
    ensures
        r as int == slot_priority(s),
{
    match s {
        SlotType::Target => 3,
        SlotType::Stakeholder => 2,
        SlotType::Deliverable => 1,
        _ => 0,
    }
}

impl ClarifierAgent {
    /// The first words of the idea text, for embedding into a question:
    /// five words at most, with an ellipsis when the text goes on.
    pub fn extract_key_phrase(&self, content: &[u8]) -> (r: Vec<u8>)
        ensures
            r@ == key_phrase_of(content@),
    {
        let words = split_words(content);
        if words.len() > 5 {
            let ghost w = words_of(content@);
            let mut r: Vec<u8> = words[0].clone();
            assert(r@ =~= join_sp(w.take(1)));
            let mut k: usize = 1;
            while k < 5
                invariant
                    1 <= k <= 5,
                    views2(words@) == w,
                    5 < w.len(),
                    r@ =~= join_sp(w.take(k as int)),
                decreases 5 - k,
            {
                r.push(32);
                let ghost before = r@;
                r.extend_from_slice(words[k].as_slice());
                assert(w.take(k + 1).drop_last() =~= w.take(k as int));
                assert(w.take(k + 1).last() == w[k as int]);
                assert(r@ =~= join_sp(w.take(k + 1)));
                k = k + 1;
            }
            r.extend_from_slice(("...").as_bytes_vec().as_slice());
            assert(r@ =~= key_phrase_of(content@));
            r
        } else {
            let r = slice_to_vec(content);
            r
        }
    }

    /// The two targeted questions for one open slot, unanswered.
    pub fn generate_slot_specific_questions(&self, slot: SlotType, idea: &IdeaSeed) -> (r: Vec<
        QAPair,
    >)
        ensures
            r@.len() == 2,
            forall|k: int|
                0 <= k < 2 ==> (#[trigger] r@[k]).slot_type == slot && r@[k].answer is None
                    && r@[k].question@ == slot_question_text(idea.raw_text@, slot, k),
    {
        let q0: Vec<u8> = match slot {
            SlotType::Target => {
                let mut q = ("基于您提到的「").as_bytes_vec();
                let phrase = self.extract_key_phrase(idea.raw_text.as_slice());
                q.extend_from_slice(phrase.as_slice());
                q.extend_from_slice(
                    ("」，您希望具体达成什么目标？请尽可能详细地描述。").as_bytes_vec().as_slice(),
                );
                q
            },
            SlotType::Stakeholder => ("谁是这个想法的主要受益者？他们目前面临什么痛点？").as_bytes_vec(),
            SlotType::Constraints => (
            "您有什么预算、时间或人员方面的限制？这些限制如何影响方案设计？").as_bytes_vec(),
            SlotType::Deliverable => (
            "您期望的最终交付物是什么？（如产品、系统、报告、方案等）").as_bytes_vec(),
            SlotType::Metrics => (
            "您如何定义和衡量这个想法的成功？有什么具体的量化指标吗？").as_bytes_vec(),
            SlotType::RiskAssumptions => ("实施过程中可能遇到哪些主要风险或挑战？").as_bytes_vec(),
        };
        let q1: Vec<u8> = match slot {
            SlotType::Target => (
            "这个想法要解决的核心问题是什么？为什么这个问题值得解决？").as_bytes_vec(),
            SlotType::Stakeholder => (
            "需要哪些团队或个人参与实施？各自的角色和责任是什么？").as_bytes_vec(),
            SlotType::Constraints => ("有哪些技术、法律、政策或其他方面的约束需要考虑？").as_bytes_vec(),
            SlotType::Deliverable => (
            "这个交付物需要具备哪些关键特性或功能？用户如何使用它？").as_bytes_vec(),
            SlotType::Metrics => ("预期的投入产出比是什么？多长时间能看到效果？").as_bytes_vec(),
            SlotType::RiskAssumptions => (
            "这个想法基于哪些关键假设？如果假设不成立会怎样？").as_bytes_vec(),
        };
        let mut r: Vec<QAPair> = Vec::new();
        r.push(QAPair { question: q0, answer: None, slot_type: slot });
        r.push(QAPair { question: q1, answer: None, slot_type: slot });
        r
    }

    /// De-duplicates the candidates by their first twenty characters, then
    /// orders them by descending slot importance, keeping the original
    /// order within each tier.
    #[verifier::rlimit(60)]
    pub fn prioritize_and_filter_questions(&self, questions: &mut Vec<QAPair>)
        ensures
            q_proj(final(questions)@) == sort_by_priority(dedup_pairs(q_proj(old(questions)@))),
    {
        let ghost p = q_proj(questions@);
        let mut deduped: Vec<QAPair> = Vec::new();
        let mut i: usize = 0;
        while i < questions.len()
            invariant
                i <= questions@.len(),
                p == q_proj(questions@),
                q_proj(deduped@) =~= dedup_pairs(p.take(i as int)),
                i >= 1 ==> deduped@.len() >= 1,
            decreases questions@.len() - i,
        {
            proof {
                lemma_dedup_len(p.take(i as int));
                assert(p.take(i + 1).drop_last() =~= p.take(i as int));
                assert(p.take(i + 1).last() == p[i as int]);
            }
            let item = &questions[i];
            if deduped.len() == 0 {
                deduped.push(item.duplicate());
                assert(q_proj(deduped@) =~= dedup_pairs(p.take(i + 1)));
            } else {
                let prev_prefix = char_prefix(deduped[deduped.len() - 1].question.as_slice(), 20);
                let cur_prefix = char_prefix(item.question.as_slice(), 20);
                assert(prev_prefix@ == q_prefix(dedup_pairs(p.take(i as int)).last().0));
                assert(cur_prefix@ == q_prefix(p[i as int].0));
                if !bytes_eq(prev_prefix.as_slice(), cur_prefix.as_slice()) {
                    deduped.push(item.duplicate());
                    assert(q_proj(deduped@) =~= dedup_pairs(p.take(i + 1)));
                } else {
                    assert(q_proj(deduped@) =~= dedup_pairs(p.take(i + 1)));
                }
            }
            i = i + 1;
        }
        assert(p.take(p.len() as int) =~= p);
        let ghost d = dedup_pairs(p);
        let mut out: Vec<QAPair> = Vec::new();
        let mut tier: u32 = 4;
        let ghost mut done: Seq<(Seq<u8>, SlotType, Option<Seq<u8>>)> = Seq::empty();
        while tier > 0
            invariant
                tier <= 4,
                q_proj(deduped@) =~= d,
                q_proj(out@) =~= done,
                tier == 4 ==> done =~= Seq::<(Seq<u8>, SlotType, Option<Seq<u8>>)>::empty(),
                tier == 3 ==> done =~= filter_pri(d, 3),
                tier == 2 ==> done =~= filter_pri(d, 3) + filter_pri(d, 2),
                tier == 1 ==> done =~= filter_pri(d, 3) + filter_pri(d, 2) + filter_pri(d, 1),
                tier == 0 ==> done =~= sort_by_priority(d),
            decreases tier,
        {
            let p_want: u32 = tier - 1;
            let mut k: usize = 0;
            while k < deduped.len()
                invariant
                    k <= deduped@.len(),
                    q_proj(deduped@) =~= d,
                    q_proj(out@) =~= done + filter_pri(d.take(k as int), p_want as int),
                decreases deduped@.len() - k,
            {
                proof {
                    assert(d.take(k + 1).drop_last() =~= d.take(k as int));
                    assert(d.take(k + 1).last() == d[k as int]);
                }
                let item = &deduped[k];
                proof {
                    assert(d[k as int] == (
                        deduped@[k as int].question@,
                        deduped@[k as int].slot_type,
                        answer_view(deduped@[k as int].answer),
                    ));
                }
                if priority_of(item.slot_type) == p_want {
                    let ghost before_out = q_proj(out@);
                    out.push(item.duplicate());
                    assert(q_proj(out@) =~= before_out.push(d[k as int]));
                    assert(q_proj(out@) =~= done + filter_pri(d.take(k + 1), p_want as int));
                } else {
                    assert(q_proj(out@) =~= done + filter_pri(d.take(k + 1), p_want as int));
                }
                k = k + 1;
            }
            proof {
                assert(d.take(d.len() as int) =~= d);
                done = done + filter_pri(d, p_want as int);
            }
            tier = tier - 1;
        }
        *questions = out;
        assert(q_proj(questions@) =~= sort_by_priority(dedup_pairs(p)));
    }

    /// The questions one round asks for the still-open slots: two
    /// candidates per slot, de-duplicated, ordered by slot importance and
    /// capped at three. All come unanswered.
    #[verifier::rlimit(60)]
    pub fn generate_questions(&self, idea: &IdeaSeed, current_clarification: &Clarification) -> (r:
        Vec<QAPair>)
        ensures
            q_proj(r@) == round_questions_spec(
                idea.raw_text@,
                current_clarification.open_slots@,
            ),
    {
        let ghost text = idea.raw_text@;
        let ghost slots = current_clarification.open_slots@;
        let mut candidates: Vec<QAPair> = Vec::new();
        let mut j: usize = 0;
        while j < current_clarification.open_slots.len()
            invariant
                j <= slots.len(),
                slots == current_clarification.open_slots@,
                text == idea.raw_text@,
                q_proj(candidates@) =~= cand_pairs(text, slots.take(j as int)),
            decreases slots.len() - j,
        {
            proof {
                assert(slots.take(j + 1).drop_last() =~= slots.take(j as int));
                assert(slots.take(j + 1).last() == slots[j as int]);
            }
            let slot = current_clarification.open_slots[j];
            let mut pair_questions = self.generate_slot_specific_questions(slot, idea);
            let ghost before = q_proj(candidates@);
            let ghost incoming = q_proj(pair_questions@);
            candidates.append(&mut pair_questions);
            assert(q_proj(candidates@) =~= before + incoming);
            assert(q_proj(candidates@) =~= cand_pairs(text, slots.take(j + 1)));
            j = j + 1;
        }
        assert(slots.take(slots.len() as int) =~= slots);
        self.prioritize_and_filter_questions(&mut candidates);
        let ghost sorted = sort_by_priority(dedup_pairs(cand_pairs(text, slots)));
        candidates.truncate(3);
        assert(q_proj(candidates@) =~= round_questions_spec(text, slots)) by {
            if sorted.len() > 3 {
                assert(q_proj(candidates@) =~= sorted.take(3));
            }
        }
        candidates
    }

    /// Maps a slot name, in English or Chinese, to its slot type; unknown
    /// names default to the target slot.
    pub fn string_to_slot_type(&self, s: &str) -> (r: SlotType)
        ensures
            r == slot_of_name(lower_seq(s.spec_bytes())),
    {
        let lower = to_lower_bytes(s.as_bytes());
        if bytes_eq(lower.as_slice(), ("target").as_bytes_vec().as_slice()) || bytes_eq(
            lower.as_slice(),
            ("目标").as_bytes_vec().as_slice(),
        ) {
            SlotType::Target
        } else if bytes_eq(lower.as_slice(), ("stakeholder").as_bytes_vec().as_slice()) || bytes_eq(
            lower.as_slice(),
            ("受众").as_bytes_vec().as_slice(),
        ) {
            SlotType::Stakeholder
        } else if bytes_eq(lower.as_slice(), ("constraints").as_bytes_vec().as_slice()) || bytes_eq(
            lower.as_slice(),
            ("约束").as_bytes_vec().as_slice(),
        ) {
            SlotType::Constraints
        } else if bytes_eq(lower.as_slice(), ("deliverable").as_bytes_vec().as_slice()) || bytes_eq(
            lower.as_slice(),
            ("产出").as_bytes_vec().as_slice(),
        ) {
            SlotType::Deliverable
        } else if bytes_eq(lower.as_slice(), ("metrics").as_bytes_vec().as_slice()) || bytes_eq(
            lower.as_slice(),
            ("指标").as_bytes_vec().as_slice(),
        ) {
            SlotType::Metrics
        } else if bytes_eq(lower.as_slice(), ("risks").as_bytes_vec().as_slice()) || bytes_eq(
            lower.as_slice(),
            ("风险").as_bytes_vec().as_slice(),
        ) {
            SlotType::RiskAssumptions
        } else {
            SlotType::Target
        }
    }
}

/// The slot a lowercased slot name denotes; unrecognized names fall back
/// to the target slot.
pub open spec fn slot_of_name(lower: Seq<u8>) -> SlotType {
    if lower == ("target").spec_bytes() || lower == ("目标").spec_bytes() {
        SlotType::Target
    } else if lower == ("stakeholder").spec_bytes() || lower == ("受众").spec_bytes() {
        SlotType::Stakeholder
    } else if lower == ("constraints").spec_bytes() || lower == ("约束").spec_bytes() {
        SlotType::Constraints
    } else if lower == ("deliverable").spec_bytes() || lower == ("产出").spec_bytes() {
        SlotType::Deliverable
    } else if lower == ("metrics").spec_bytes() || lower == ("指标").spec_bytes() {
        SlotType::Metrics
    } else if lower == ("risks").spec_bytes() || lower == ("风险").spec_bytes() {
        SlotType::RiskAssumptions
    } else {
        SlotType::Target
    }
}

/// The answer of the last answered target question, if any.
pub open spec fn target_of(qa: Seq<QAPair>) -> Option<Seq<u8>>
    decreases qa.len(),
{
    if qa.len() == 0 {
        None
    } else if qa.last().slot_type == SlotType::Target && qa.last().answer is Some {
        answer_view(qa.last().answer)
    } else {
        target_of(qa.drop_last())
    }
}

/// The accumulated list items of every answered question of slot `s`, in
/// order: each answer split at list separators, trimmed, empties dropped.
pub open spec fn list_field_of(qa: Seq<QAPair>, s: SlotType) -> Seq<Seq<u8>>
    decreases qa.len(),
{
    if qa.len() == 0 {
        Seq::empty()
    } else {
        let rest = list_field_of(qa.drop_last(), s);
        if qa.last().slot_type == s && qa.last().answer is Some {
            rest + split_clean_seq(answer_view(qa.last().answer)->0)
        } else {
            rest
        }
    }
}

/// The constraint category an answer files under, read off its question:
/// resource when the question speaks of budget or time, technical
/// otherwise.
pub open spec fn constraint_key_of(q: Seq<u8>) -> Seq<u8> {
    if contains_seq(q, ("预算").spec_bytes()) || contains_seq(q, ("时间").spec_bytes()) {
        ("resource").spec_bytes()
    } else {
        ("technical").spec_bytes()
    }
}

/// A constraint category is already present.
pub open spec fn has_key(s: Seq<(Seq<u8>, Seq<u8>)>, k: Seq<u8>) -> bool {
    exists|i: int| 0 <= i < s.len() && s[i].0 == k
}

/// Sets category `k` to `v`: replaces the present entry, else appends.
pub open spec fn upsert(s: Seq<(Seq<u8>, Seq<u8>)>, k: Seq<u8>, v: Seq<u8>) -> Seq<
    (Seq<u8>, Seq<u8>),
> {
    if has_key(s, k) {
        Seq::new(
            s.len(),
            |i: int|
                if s[i].0 == k {
                    (k, v)
                } else {
                    s[i]
                },
        )
    } else {
        s.push((k, v))
    }
}

/// The constraint map accumulated from the answered constraint questions,
/// later answers overriding earlier ones of the same category.
pub open spec fn constraints_of(qa: Seq<QAPair>) -> Seq<(Seq<u8>, Seq<u8>)>
    decreases qa.len(),
{
    if qa.len() == 0 {
        Seq::empty()
    } else {
        let rest = constraints_of(qa.drop_last());
        if qa.last().slot_type == SlotType::Constraints && qa.last().answer is Some {
            upsert(rest, constraint_key_of(qa.last().question@), answer_view(qa.last().answer)->0)
        } else {
            rest
        }
    }
}

/// No constraint category repeats.
pub open spec fn unique_keys(s: Seq<(Seq<u8>, Seq<u8>)>) -> bool {
    forall|i: int, j: int| 0 <= i < j < s.len() ==> s[i].0 != s[j].0
}

proof fn lemma_upsert_unique(s: Seq<(Seq<u8>, Seq<u8>)>, k: Seq<u8>, v: Seq<u8>)
    requires
        unique_keys(s),
    ensures
        unique_keys(upsert(s, k, v)),
{
    if has_key(s, k) {
        let u = upsert(s, k, v);
        assert forall|i: int, j: int| 0 <= i < j < u.len() implies u[i].0 != u[j].0 by {
            if s[i].0 == k {
                assert(s[j].0 != k);
            }
        }
    } else {
        let u = s.push((k, v));
        assert forall|i: int, j: int| 0 <= i < j < u.len() implies u[i].0 != u[j].0 by {
            if j == s.len() {
                assert(u[j].0 == k);
                assert(u[i] == s[i]);
            }
        }
    }
}

proof fn lemma_constraints_unique(qa: Seq<QAPair>)
    ensures
        unique_keys(constraints_of(qa)),
    decreases qa.len(),
{
    if qa.len() > 0 {
        lemma_constraints_unique(qa.drop_last());
        if qa.last().slot_type == SlotType::Constraints && qa.last().answer is Some {
            lemma_upsert_unique(
                constraints_of(qa.drop_last()),
                constraint_key_of(qa.last().question@),
                answer_view(qa.last().answer)->0,
            );
        }
    }
}

/// The spec-level structured idea extracted from a question list.
pub open spec fn extracted_proj(qa: Seq<QAPair>) -> (
    Option<Seq<u8>>,
    Seq<Seq<u8>>,
    Seq<(Seq<u8>, Seq<u8>)>,
    Seq<Seq<u8>>,
    Seq<Seq<u8>>,
    Seq<Seq<u8>>,
) {
    (
        target_of(qa),
        list_field_of(qa, SlotType::Stakeholder),
        constraints_of(qa),
        list_field_of(qa, SlotType::Deliverable),
        list_field_of(qa, SlotType::Metrics),
        list_field_of(qa, SlotType::RiskAssumptions),
    )
}

/// Sets category `k` of the constraint list to `val`, replacing a present
/// entry or appending a new one.
fn upsert_exec(v: &mut Vec<(Vec<u8>, Vec<u8>)>, k: Vec<u8>, val: Vec<u8>)
    ensures
        kv_views(final(v)@) == upsert(kv_views(old(v)@), k@, val@),
{
    let ghost w = kv_views(v@);
    let mut out: Vec<(Vec<u8>, Vec<u8>)> = Vec::new();
    let mut found = false;
    let mut i: usize = 0;
    while i < v.len()
        invariant
            i <= v@.len(),
            w == kv_views(v@),
            found == has_key(w.take(i as int), k@),
            kv_views(out@) =~= Seq::new(
                i as nat,
                |t: int|
                    if w[t].0 == k@ {
                        (k@, val@)
                    } else {
                        w[t]
                    },
            ),
        decreases v@.len() - i,
    {
        let pair = &v[i];
        let ghost before = kv_views(out@);
        if bytes_eq(pair.0.as_slice(), k.as_slice()) {
            out.push((k.clone(), val.clone()));
            found = true;
            assert(w[i as int].0 == k@);
            assert(kv_views(out@) =~= before.push((k@, val@)));
            assert(w.take(i + 1)[i as int].0 == k@);
        } else {
            out.push((pair.0.clone(), pair.1.clone()));
            assert(w[i as int].0 != k@);
            assert(kv_views(out@) =~= before.push((w[i as int].0, w[i as int].1)));
            proof {
                if has_key(w.take(i + 1), k@) {
                    let t = choose|t: int| 0 <= t < i + 1 && (#[trigger] w.take(i + 1)[t]).0 == k@;
                    if t < i {
                        assert(has_key(w.take(i as int), k@));
                    }
                }
                if has_key(w.take(i as int), k@) {
                    let t = choose|t: int| 0 <= t < i && (#[trigger] w.take(i as int)[t]).0 == k@;
                    assert(w.take(i + 1)[t].0 == k@);
                }
            }
        }
        i = i + 1;
    }
    assert(w.take(w.len() as int) =~= w);
    if !found {
        let ghost before = kv_views(out@);
        out.push((k, val));
        assert(kv_views(out@) =~= before.push((k@, val@)));
        assert(kv_views(out@) =~= upsert(w, k@, val@));
    } else {
        assert(kv_views(out@) =~= upsert(w, k@, val@)) by {
            assert(has_key(w, k@));
            assert forall|t: int| 0 <= t < w.len() implies #[trigger] kv_views(out@)[t] == upsert(
                w,
                k@,
                val@,
            )[t] by {
                assert(kv_views(out@)[t] == (if w[t].0 == k@ {
                    (k@, val@)
                } else {
                    w[t]
                }));
            }
        }
    }
    *v = out;
}

impl ClarifierAgent {
    /// Builds the structured idea from the answered questions: the last
    /// target answer, the split list fields, and the categorized
    /// constraints.
    #[verifier::rlimit(60)]
    pub fn extract_structured_idea(&self, qa_pairs: &Vec<QAPair>) -> (r: Option<StructuredIdea>)
        ensures
            (r matches Some(si) && si_proj(si) == extracted_proj(qa_pairs@) && si.wf()),
    {
        let ghost qa = qa_pairs@;
        let mut target: Option<Vec<u8>> = None;
        let mut stakeholders: Vec<Vec<u8>> = Vec::new();
        let mut constraints: Vec<(Vec<u8>, Vec<u8>)> = Vec::new();
        let mut deliverables: Vec<Vec<u8>> = Vec::new();
        let mut success_metrics: Vec<Vec<u8>> = Vec::new();
        let mut risks_assumptions: Vec<Vec<u8>> = Vec::new();
        let mut i: usize = 0;
        while i < qa_pairs.len()
            invariant
                i <= qa.len(),
                qa == qa_pairs@,
                answer_view(target) == target_of(qa.take(i as int)),
                views2(stakeholders@) =~= list_field_of(qa.take(i as int), SlotType::Stakeholder),
                kv_views(constraints@) =~= constraints_of(qa.take(i as int)),
                views2(deliverables@) =~= list_field_of(qa.take(i as int), SlotType::Deliverable),
                views2(success_metrics@) =~= list_field_of(qa.take(i as int), SlotType::Metrics),
                views2(risks_assumptions@) =~= list_field_of(
                    qa.take(i as int),
                    SlotType::RiskAssumptions,
                ),
            decreases qa.len() - i,
        {
            proof {
                assert(qa.take(i + 1).drop_last() =~= qa.take(i as int));
                assert(qa.take(i + 1).last() == qa[i as int]);
            }
            let pair = &qa_pairs[i];
            match &pair.answer {
                Some(answer) => {
                    match pair.slot_type {
                        SlotType::Target => {
                            target = Some(answer.clone());
                        },
                        SlotType::Stakeholder => {
                            let mut items = split_clean(answer.as_slice());
                            let ghost before = views2(stakeholders@);
                            let ghost incoming = views2(items@);
                            stakeholders.append(&mut items);
                            assert(views2(stakeholders@) =~= before + incoming);
                        },
                        SlotType::Constraints => {
                            let key: Vec<u8> = if contains_bytes(
                                pair.question.as_slice(),
                                ("预算").as_bytes_vec().as_slice(),
                            ) || contains_bytes(
                                pair.question.as_slice(),
                                ("时间").as_bytes_vec().as_slice(),
                            ) {
                                ("resource").as_bytes_vec()
                            } else {
                                ("technical").as_bytes_vec()
                            };
                            upsert_exec(&mut constraints, key, answer.clone());
                        },
                        SlotType::Deliverable => {
                            let mut items = split_clean(answer.as_slice());
                            let ghost before = views2(deliverables@);
                            let ghost incoming = views2(items@);
                            deliverables.append(&mut items);
                            assert(views2(deliverables@) =~= before + incoming);
                        },
                        SlotType::Metrics => {
                            let mut items = split_clean(answer.as_slice());
                            let ghost before = views2(success_metrics@);
                            let ghost incoming = views2(items@);
                            success_metrics.append(&mut items);
                            assert(views2(success_metrics@) =~= before + incoming);
                        },
                        SlotType::RiskAssumptions => {
                            let mut items = split_clean(answer.as_slice());
                            let ghost before = views2(risks_assumptions@);
                            let ghost incoming = views2(items@);
                            risks_assumptions.append(&mut items);
                            assert(views2(risks_assumptions@) =~= before + incoming);
                        },
                    }
                },
                None => {},
            }
            i = i + 1;
        }
        assert(qa.take(qa.len() as int) =~= qa);
        proof {
            lemma_constraints_unique(qa);
        }
        let si = StructuredIdea {
            target,
            stakeholders,
            constraints,
            deliverables,
            success_metrics,
            risks_assumptions,
        };
        assert(answer_view(si.target) == target_of(qa));
        assert(views2(si.stakeholders@) == list_field_of(qa, SlotType::Stakeholder));
        assert(kv_views(si.constraints@) == constraints_of(qa));
        assert(views2(si.deliverables@) == list_field_of(qa, SlotType::Deliverable));
        assert(views2(si.success_metrics@) == list_field_of(qa, SlotType::Metrics));
        assert(views2(si.risks_assumptions@) == list_field_of(qa, SlotType::RiskAssumptions));
        assert(si.wf()) by {
            assert forall|a: int, b: int|
                0 <= a < b < si.constraints@.len() implies (#[trigger] si.constraints@[a]).0@ != (
            #[trigger] si.constraints@[b]).0@ by {
                assert(kv_views(si.constraints@)[a].0 == si.constraints@[a].0@);
                assert(kv_views(si.constraints@)[b].0 == si.constraints@[b].0@);
            }
        }
        Some(si)
    }
}

/// Opening of the clarification prompt, before the idea text.
pub open spec fn clar_prompt_head() -> Seq<u8> {
    ("请分析以下想法，并识别需要澄清的关键信息：\n\n**原始想法：**\n").spec_bytes()
}

/// Rest of the clarification prompt, after the idea text.
pub open spec fn clar_prompt_tail() -> Seq<u8> {
    (
    "\n\n**澄清分析要求：**\n1. 识别缺失的关键信息槽位（目标、受众、约束条件、期望产出、成功指标、风险假设）\n2. 为每个缺失的槽位生成2-3个具体的澄清问题\n3. 评估当前想法的清晰度（0-1分）\n4. 提供改进建议\n\n**请按以下JSON格式回答：**\n```json\n{\n    \"missing_slots\": [\"target\", \"stakeholder\", \"constraints\"],\n    \"questions\": [\n        {\n            \"question\": \"具体问题内容\",\n            \"slot\": \"target\"\n        }\n    ],\n    \"clarity_score\": 0.6\n}\n```").spec_bytes()
}

/// A question list's content: a question addressing `s` carries an answer.
pub open spec fn proj_slot_answered(
    q: Seq<(Seq<u8>, SlotType, Option<Seq<u8>>)>,
    s: SlotType,
) -> bool {
    exists|i: int| 0 <= i < q.len() && q[i].1 == s && q[i].2 is Some
}

proof fn lemma_slot_answered_proj(qa: Seq<QAPair>, s: SlotType)
    ensures
        slot_answered(qa, s) == proj_slot_answered(q_proj(qa), s),
{
    if slot_answered(qa, s) {
        let i = choose|i: int| 0 <= i < qa.len() && qa[i].slot_type == s && qa[i].answer is Some;
        assert(q_proj(qa)[i].1 == s && q_proj(qa)[i].2 is Some);
    }
    if proj_slot_answered(q_proj(qa), s) {
        let i = choose|i: int|
            0 <= i < q_proj(qa).len() && (#[trigger] q_proj(qa)[i]).1 == s && q_proj(qa)[i].2
                is Some;
        assert(qa[i].slot_type == s && qa[i].answer is Some);
    }
}

/// The content of the clarification a round starts from: the one in the
/// context, or a fresh one with all six slots open.
pub open spec fn input_clar_proj(ctx: AgentContext) -> (
    Seq<(Seq<u8>, SlotType, Option<Seq<u8>>)>,
    Seq<SlotType>,
    u32,
    Option<
        (
            Option<Seq<u8>>,
            Seq<Seq<u8>>,
            Seq<(Seq<u8>, Seq<u8>)>,
            Seq<Seq<u8>>,
            Seq<Seq<u8>>,
            Seq<Seq<u8>>,
        ),
    >,
) {
    match ctx.clarification {
        Some(c) => clar_proj(c),
        None => (Seq::empty(), all_slots_seq(), 0u32, None),
    }
}

/// Whether the round's input already meets a stopping condition: no open
/// slot, confidence at 0.7, or the three core slots answered.
pub open spec fn input_stop(ctx: AgentContext) -> bool {
    let p = input_clar_proj(ctx);
    p.1.len() == 0 || p.2 >= 700 || (proj_slot_answered(p.0, SlotType::Target)
        && proj_slot_answered(p.0, SlotType::Stakeholder) && proj_slot_answered(
        p.0,
        SlotType::Deliverable,
    ))
}

impl ClarifierAgent {
    /// The model prompt for a clarification round: the template around the
    /// raw idea text.
    pub fn build_clarification_prompt(&self, idea: &IdeaSeed) -> (r: Vec<u8>)
        ensures
            r@ == clar_prompt_head() + idea.raw_text@ + clar_prompt_tail(),
    {
        let mut r = ("请分析以下想法，并识别需要澄清的关键信息：\n\n**原始想法：**\n").as_bytes_vec();
        r.extend_from_slice(idea.raw_text.as_slice());
        r.extend_from_slice(
            (
            "\n\n**澄清分析要求：**\n1. 识别缺失的关键信息槽位（目标、受众、约束条件、期望产出、成功指标、风险假设）\n2. 为每个缺失的槽位生成2-3个具体的澄清问题\n3. 评估当前想法的清晰度（0-1分）\n4. 提供改进建议\n\n**请按以下JSON格式回答：**\n```json\n{\n    \"missing_slots\": [\"target\", \"stakeholder\", \"constraints\"],\n    \"questions\": [\n        {\n            \"question\": \"具体问题内容\",\n            \"slot\": \"target\"\n        }\n    ],\n    \"clarity_score\": 0.6\n}\n```").as_bytes_vec().as_slice(),
        );
        r
    }

    /// Builds the clarification from the fields a model response yielded,
    /// backfilling each missing part heuristically: absent slots fall back
    /// to keyword analysis, absent questions to the slot templates, an
    /// absent clarity score to one half; a given score is clamped into the
    /// unit interval.
    pub fn clarification_from_parsed(
        &self,
        idea: &IdeaSeed,
        slots: Option<Vec<String>>,
        questions: Option<Vec<(String, String)>>,
        clarity_permille: Option<u32>,
    ) -> (r: Clarification)
        ensures
            r.confidence == (match clarity_permille {
                Some(x) => if x > 1000 {
                    1000u32
                } else {
                    x
                },
                None => 500u32,
            }),
            (slots matches Some(list) ==> r.open_slots@.len() == list@.len() && (forall|i: int|
                0 <= i < list@.len() ==> r.open_slots@[i] == slot_of_name(
                    lower_seq(vstd::utf8::encode_utf8(list@[i]@)),
                ))),
            slots is None ==> r.open_slots@ == missing_slots_of(idea.raw_text@),
            (questions matches Some(qs) ==> r.qa_pairs@.len() == qs@.len() && (forall|i: int|
                0 <= i < qs@.len() ==> (#[trigger] r.qa_pairs@[i]).question@
                    == vstd::utf8::encode_utf8(qs@[i].0@) && r.qa_pairs@[i].answer is None
                    && r.qa_pairs@[i].slot_type == slot_of_name(
                    lower_seq(vstd::utf8::encode_utf8(qs@[i].1@)),
                ))),
            questions is None ==> r.qa_pairs@.len() == r.open_slots@.len() && (forall|i: int|
                0 <= i < r.qa_pairs@.len() ==> (#[trigger] r.qa_pairs@[i]).slot_type
                    == r.open_slots@[i] && r.qa_pairs@[i].answer is None
                    && r.qa_pairs@[i].question@ == fallback_question(r.open_slots@[i])),
            r.structured_idea is None,
            r.wf(),
    {
        let confidence: u32 = match clarity_permille {
            Some(x) => if x > 1000 {
                1000
            } else {
                x
            },
            None => 500,
        };
        let open_slots: Vec<SlotType> = match &slots {
            Some(list) => {
                let mut out: Vec<SlotType> = Vec::new();
                let mut i: usize = 0;
                while i < list.len()
                    invariant
                        i <= list@.len(),
                        out@.len() == i,
                        forall|k: int|
                            0 <= k < i ==> out@[k] == slot_of_name(
                                lower_seq(vstd::utf8::encode_utf8(list@[k]@)),
                            ),
                    decreases list@.len() - i,
                {
                    out.push(self.string_to_slot_type(list[i].as_str()));
                    i = i + 1;
                }
                out
            },
            None => self.extract_missing_slots(idea),
        };
        let qa_pairs: Vec<QAPair> = match &questions {
            Some(qs) => {
                let mut out: Vec<QAPair> = Vec::new();
                let mut i: usize = 0;
                while i < qs.len()
                    invariant
                        i <= qs@.len(),
                        out@.len() == i,
                        forall|k: int|
                            0 <= k < i ==> (#[trigger] out@[k]).question@
                                == vstd::utf8::encode_utf8(qs@[k].0@) && out@[k].answer is None
                                && out@[k].slot_type == slot_of_name(
                                lower_seq(vstd::utf8::encode_utf8(qs@[k].1@)),
                            ),
                    decreases qs@.len() - i,
                {
                    let entry = &qs[i];
                    out.push(
                        QAPair {
                            question: entry.0.as_str().as_bytes_vec(),
                            answer: None,
                            slot_type: self.string_to_slot_type(entry.1.as_str()),
                        },
                    );
                    i = i + 1;
                }
                out
            },
            None => self.generate_fallback_questions(&open_slots),
        };
        Clarification { qa_pairs, open_slots, confidence, structured_idea: None }
    }

    /// The clarification built when a model response cannot be read at
    /// all: keyword slot analysis, templated questions, confidence 0.6.
    pub fn clarification_unparsed(&self, idea: &IdeaSeed) -> (r: Clarification)
        ensures
            r.open_slots@ == missing_slots_of(idea.raw_text@),
            r.qa_pairs@.len() == r.open_slots@.len(),
            forall|i: int|
                0 <= i < r.qa_pairs@.len() ==> (#[trigger] r.qa_pairs@[i]).slot_type
                    == r.open_slots@[i] && r.qa_pairs@[i].answer is None
                    && r.qa_pairs@[i].question@ == fallback_question(r.open_slots@[i]),
            r.confidence == 600,
            r.structured_idea is None,
            r.wf(),
    {
        let missing_slots = self.extract_missing_slots(idea);
        let qa_pairs = self.generate_fallback_questions(&missing_slots);
        Clarification {
            qa_pairs,
            open_slots: missing_slots,
            confidence: 600,
            structured_idea: None,
        }
    }
}

impl Agent for ClarifierAgent {
    /// The stage's display name.
    fn name(&self) -> &'static str {
        "Clarifier"
    }

    /// The clarifier declares the clarification capability.
    fn capabilities(&self) -> Vec<AgentCapability> {
        let mut v: Vec<AgentCapability> = Vec::new();
        v.push(AgentCapability::Clarification);
        v
    }

    /// One clarification round over the context's clarification (or a
    /// fresh all-open one): returns it unchanged once a stopping rule
    /// holds; otherwise appends the round's questions, recomputes the
    /// open slots as the complement of the answered ones, rescores the
    /// confidence, and extracts the structured idea once confidence
    /// reaches one half.
    fn execute(&self, context: &AgentContext) -> (r: Result<AgentResult, AgentError>)
        ensures
            r is Ok,
            (r matches Ok(AgentResult::Clarification(c)) && {
                &&& input_stop(*context) ==> clar_proj(c) == input_clar_proj(*context)
                &&& !input_stop(*context) ==> {
                    &&& q_proj(c.qa_pairs@) == input_clar_proj(*context).0 + round_questions_spec(
                        Seq::empty(),
                        input_clar_proj(*context).1,
                    )
                    &&& c.open_slots@ == open_slots_spec(c.qa_pairs@)
                    &&& c.confidence == completeness_confidence(
                        open_slots_spec(c.qa_pairs@).len() as int,
                    )
                    &&& c.confidence >= 500 ==> osi_proj(c.structured_idea) == Some(
                        extracted_proj(c.qa_pairs@),
                    )
                    &&& c.confidence < 500 ==> osi_proj(c.structured_idea) == input_clar_proj(
                        *context,
                    ).3
                }
            }),
    {
        let clarification: Clarification = match &context.clarification {
            Some(c) => c.duplicate(),
            None => Clarification {
                qa_pairs: Vec::new(),
                open_slots: all_slots(),
                confidence: 0,
                structured_idea: None,
            },
        };
        proof {
            assert(clar_proj(clarification) == input_clar_proj(*context));
            lemma_slot_answered_proj(clarification.qa_pairs@, SlotType::Target);
            lemma_slot_answered_proj(clarification.qa_pairs@, SlotType::Stakeholder);
            lemma_slot_answered_proj(clarification.qa_pairs@, SlotType::Deliverable);
        }
        if self.should_stop_clarification(&clarification) {
            return Ok(AgentResult::Clarification(clarification));
        }
        let empty_idea = IdeaSeed { raw_text: Vec::new(), context_hints: Vec::new(), domain: None };
        let new_questions = self.generate_questions(&empty_idea, &clarification);
        let mut qa_pairs = clarification.qa_pairs;
        let ghost before = q_proj(qa_pairs@);
        let ghost incoming = q_proj(new_questions@);
        let mut extra = new_questions;
        qa_pairs.append(&mut extra);
        assert(q_proj(qa_pairs@) =~= before + incoming);
        let open_slots = self.recompute_open_slots(&qa_pairs);
        let open: usize = open_slots.len();
        let confidence: u32 = if open >= 6 {
            0
        } else {
            (((6 - open as u32)) * 1000) / 6
        };
        let structured_idea: Option<StructuredIdea> = if confidence >= 500 {
            self.extract_structured_idea(&qa_pairs)
        } else {
            clarification.structured_idea
        };
        Ok(
            AgentResult::Clarification(
                Clarification { qa_pairs, open_slots, confidence, structured_idea },
            ),
        )
    }
}

/// Scans the questions for one addressing `slot` that carries an answer.
fn has_answered_slot(qa_pairs: &Vec<QAPair>, slot: SlotType) -> (r: bool)
    ensures
        r == slot_answered(qa_pairs@, slot),
{
    let mut i: usize = 0;
    while i < qa_pairs.len()
        invariant
            i <= qa_pairs@.len(),
            forall|k: int|
                0 <= k < i ==> !((#[trigger] qa_pairs@[k]).slot_type == slot && qa_pairs@[k].answer
                    is Some),
        decreases qa_pairs@.len() - i,
    {
        let pair = &qa_pairs[i];
        if pair.slot_type == slot && pair.answer.is_some() {
            return true;
        }
        i = i + 1;
    }
    false
}

} // verus!
