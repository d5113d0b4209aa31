//! The verifier stage: logic checks, fact-plausibility checks and risk
//! assessments over one iteration version, with the overall decision and
//! confidence.

use vstd::prelude::*;
use vstd::string::StrSliceExecFns;
use vstd::string::StringSliceAdditionalSpecFns;

use crate::agents::{Agent, AgentCapability, AgentContext, AgentError, AgentResult};
use crate::data::{
    Evidence, FactCheck, FactCheckStatus, IterationVersion, LogicCheck, Risk, RiskSeverity, Scores,
};
use crate::text::{
    cent_bytes, cent_seq, contains_bytes, contains_seq, dec_bytes, dec_seq, join_bytes, join_sep,
    lower_seq, matches_any, matches_any_exec, to_lower_bytes, views2,
};

verus! {

/// The spec-level content of a logic-check list.
pub open spec fn lc_proj(s: Seq<LogicCheck>) -> Seq<(Seq<u8>, Seq<u8>, bool, Seq<u8>)> {
    Seq::new(s.len(), |i: int| (s[i].check_type@, s[i].description@, s[i].passed, s[i].message@))
}

/// The spec-level content of a fact-check list: claim, status, confidence.
pub open spec fn fc_proj(s: Seq<FactCheck>) -> Seq<(Seq<u8>, FactCheckStatus, u32)> {
    Seq::new(s.len(), |i: int| (s[i].claim@, s[i].status, s[i].confidence))
}

/// The spec-level content of a risk list: description and severity.
pub open spec fn rk_proj(s: Seq<Risk>) -> Seq<(Seq<u8>, RiskSeverity)> {
    Seq::new(s.len(), |i: int| (s[i].description@, s[i].severity))
}

/// The fields of an iteration a verification reads: summary, deltas,
/// rationale and scores.
pub open spec fn iv_view(v: IterationVersion) -> (Seq<u8>, Seq<Seq<u8>>, Seq<u8>, Scores) {
    (v.summary@, views2(v.deltas@), v.rationale@, v.scores)
}

/// The summary-consistency decision: a non-trivial summary, at least one
/// delta, a substantial rationale, and no placeholder text.
pub open spec fn summary_ok(summary: Seq<u8>, deltas_len: int, rationale: Seq<u8>) -> bool {
    summary.len() > 10 && deltas_len > 0 && rationale.len() > 100 && !contains_seq(
        summary,
        ("TODO").spec_bytes(),
    ) && !contains_seq(summary, ("待定").spec_bytes())
}

/// How many of the six opposed keyword pairs fire between two lowered
/// deltas.
pub open spec fn pair_count6(a: Seq<u8>, b: Seq<u8>) -> int {
    (if (contains_seq(a, ("增加").spec_bytes()) && contains_seq(b, ("减少").spec_bytes())) || (
    contains_seq(a, ("减少").spec_bytes()) && contains_seq(b, ("增加").spec_bytes())) {
        1int
    } else {
        0int
    }) + (if (contains_seq(a, ("添加").spec_bytes()) && contains_seq(b, ("删除").spec_bytes()))
        || (contains_seq(a, ("删除").spec_bytes()) && contains_seq(b, ("添加").spec_bytes())) {
        1int
    } else {
        0int
    }) + (if (contains_seq(a, ("简化").spec_bytes()) && contains_seq(b, ("复杂化").spec_bytes()))
        || (contains_seq(a, ("复杂化").spec_bytes()) && contains_seq(b, ("简化").spec_bytes())) {
        1int
    } else {
        0int
    }) + (if (contains_seq(a, ("集中").spec_bytes()) && contains_seq(b, ("分散").spec_bytes()))
        || (contains_seq(a, ("分散").spec_bytes()) && contains_seq(b, ("集中").spec_bytes())) {
        1int
    } else {
        0int
    }) + (if (contains_seq(a, ("自动化").spec_bytes()) && contains_seq(b, ("手工").spec_bytes()))
        || (contains_seq(a, ("手工").spec_bytes()) && contains_seq(b, ("自动化").spec_bytes())) {
        1int
    } else {
        0int
    }) + (if (contains_seq(a, ("统一").spec_bytes()) && contains_seq(b, ("分离").spec_bytes()))
        || (contains_seq(a, ("分离").spec_bytes()) && contains_seq(b, ("统一").spec_bytes())) {
        1int
    } else {
        0int
    })
}

/// Contradiction count of the pairs `(i, j)` with `j` running to the end.
pub open spec fn contr_row(deltas: Seq<Seq<u8>>, i: int, j: int) -> int
    decreases deltas.len() - j,
{
    if j < 0 || j >= deltas.len() {
        0
    } else {
        pair_count6(lower_seq(deltas[i]), lower_seq(deltas[j])) + contr_row(deltas, i, j + 1)
    }
}

/// Contradiction count over every unordered delta pair from `i` on.
pub open spec fn contr_total(deltas: Seq<Seq<u8>>, i: int) -> int
    decreases deltas.len() - i,
{
    if i < 0 || i >= deltas.len() {
        0
    } else {
        contr_row(deltas, i, i + 1) + contr_total(deltas, i + 1)
    }
}

/// A count capped at one million, the most the report will display.
pub open spec fn cap1m(x: int) -> int {
    if x > 1000000 {
        1000000
    } else {
        x
    }
}

/// The scoring decision: every score in range, feasibility at least 0.3
/// and coherence at least 0.4.
pub open spec fn scoring_ok(s: Scores) -> bool {
    s.novelty <= 1000 && s.feasibility <= 1000 && s.coherence <= 1000 && s.feasibility >= 300
        && s.coherence >= 400
}

/// Technical vocabulary scanned for in claims.
pub open spec fn claim_tech_kw() -> Seq<Seq<u8>> {
    seq![
        ("技术").spec_bytes(),
        ("算法").spec_bytes(),
        ("系统").spec_bytes(),
        ("架构").spec_bytes(),
        ("开发").spec_bytes(),
        ("实现").spec_bytes(),
        ("集成").spec_bytes(),
    ]
}

/// Complexity markers scanned for in claims.
pub open spec fn claim_complexity_kw() -> Seq<Seq<u8>> {
    seq![("复杂").spec_bytes(), ("困难").spec_bytes(), ("挑战").spec_bytes(), ("风险").spec_bytes()]
}

/// Business vocabulary scanned for in claims.
pub open spec fn claim_business_kw() -> Seq<Seq<u8>> {
    seq![
        ("成本").spec_bytes(),
        ("收益").spec_bytes(),
        ("市场").spec_bytes(),
        ("用户").spec_bytes(),
        ("客户").spec_bytes(),
        ("业务").spec_bytes(),
        ("盈利").spec_bytes(),
    ]
}

/// Resource vocabulary scanned for in claims.
pub open spec fn claim_resource_kw() -> Seq<Seq<u8>> {
    seq![
        ("时间").spec_bytes(),
        ("人力").spec_bytes(),
        ("资源").spec_bytes(),
        ("预算").spec_bytes(),
        ("成本").spec_bytes(),
        ("投入").spec_bytes(),
    ]
}

/// Complexity markers for the implementation risk.
pub open spec fn risk_complexity_kw() -> Seq<Seq<u8>> {
    seq![
        ("复杂").spec_bytes(),
        ("困难").spec_bytes(),
        ("挑战性").spec_bytes(),
        ("多步骤").spec_bytes(),
        ("依赖").spec_bytes(),
        ("集成").spec_bytes(),
        ("协调").spec_bytes(),
        ("同步").spec_bytes(),
    ]
}

/// Demand markers for the resource risk.
pub open spec fn risk_demand_kw() -> Seq<Seq<u8>> {
    seq![
        ("大量").spec_bytes(),
        ("众多").spec_bytes(),
        ("全面").spec_bytes(),
        ("所有").spec_bytes(),
        ("整体").spec_bytes(),
        ("系统性").spec_bytes(),
    ]
}

/// Urgency markers for the timeline risk.
pub open spec fn risk_urgency_kw() -> Seq<Seq<u8>> {
    seq![
        ("紧急").spec_bytes(),
        ("立即").spec_bytes(),
        ("马上").spec_bytes(),
        ("尽快").spec_bytes(),
        ("短期").spec_bytes(),
    ]
}

/// Long-term markers for the timeline risk.
pub open spec fn risk_longterm_kw() -> Seq<Seq<u8>> {
    seq![("长期").spec_bytes(), ("逐步").spec_bytes(), ("分阶段").spec_bytes(), ("持续").spec_bytes()]
}

/// The number of keywords of the list occurring in the text.
pub open spec fn count_in(content: Seq<u8>, kws: Seq<Seq<u8>>) -> int
    decreases kws.len(),
{
    if kws.len() == 0 {
        0
    } else {
        count_in(content, kws.drop_last()) + if contains_seq(content, kws.last()) {
            1int
        } else {
            0int
        }
    }
}

/// The number of keywords of the list occurring in either text.
pub open spec fn count_in2(a: Seq<u8>, b: Seq<u8>, kws: Seq<Seq<u8>>) -> int
    decreases kws.len(),
{
    if kws.len() == 0 {
        0
    } else {
        count_in2(a, b, kws.drop_last()) + if contains_seq(a, kws.last()) || contains_seq(
            b,
            kws.last(),
        ) {
            1int
        } else {
            0int
        }
    }
}

/// The lowered rationale of an iteration.
pub open spec fn rat_lower(v: IterationVersion) -> Seq<u8> {
    lower_seq(v.rationale@)
}

/// The lowered deltas joined with single spaces.
pub open spec fn deltas_lower(v: IterationVersion) -> Seq<u8> {
    lower_seq(join_sep(views2(v.deltas@), (" ").spec_bytes()))
}

/// The lowered combined content: the rationale, a space, and the joined
/// deltas.
pub open spec fn combined_lower(v: IterationVersion) -> Seq<u8> {
    lower_seq(v.rationale@ + (" ").spec_bytes() + join_sep(views2(v.deltas@), (" ").spec_bytes()))
}

/// The technical fact-check outcome: status and confidence from the
/// complexity-marker density, or a clarification request when no
/// technical vocabulary occurs.
pub open spec fn tech_claim_status(v: IterationVersion) -> (FactCheckStatus, u32) {
    if count_in2(rat_lower(v), deltas_lower(v), claim_tech_kw()) == 0 {
        (FactCheckStatus::NeedClarification, 1000u32)
    } else {
        let m = count_in2(rat_lower(v), deltas_lower(v), claim_complexity_kw());
        if m == 0 {
            (FactCheckStatus::Supported, 800u32)
        } else if m <= 2 {
            (FactCheckStatus::Partial, 600u32)
        } else {
            (FactCheckStatus::Unsupported, 400u32)
        }
    }
}

/// The business fact-check outcome from the business-keyword density.
pub open spec fn business_claim_status(v: IterationVersion) -> (FactCheckStatus, u32) {
    let m = count_in(combined_lower(v), claim_business_kw());
    if m >= 3 {
        (FactCheckStatus::Supported, 800u32)
    } else if m >= 1 {
        (FactCheckStatus::Partial, 600u32)
    } else {
        (FactCheckStatus::NeedClarification, 900u32)
    }
}

/// The resource fact-check outcome from the resource-keyword density.
pub open spec fn resource_claim_status(v: IterationVersion) -> (FactCheckStatus, u32) {
    let m = count_in(combined_lower(v), claim_resource_kw());
    if m >= 2 {
        (FactCheckStatus::Supported, 700u32)
    } else if m >= 1 {
        (FactCheckStatus::Partial, 500u32)
    } else {
        (FactCheckStatus::NeedClarification, 800u32)
    }
}

/// The implementation-complexity severity tier.
pub open spec fn complexity_severity(v: IterationVersion) -> RiskSeverity {
    let m = count_in(combined_lower(v), risk_complexity_kw());
    if m <= 1 {
        RiskSeverity::Low
    } else if m <= 3 {
        RiskSeverity::Medium
    } else if m <= 5 {
        RiskSeverity::High
    } else {
        RiskSeverity::Critical
    }
}

/// The resource-demand severity tier, from the delta count and the demand
/// markers.
pub open spec fn resource_severity(v: IterationVersion) -> RiskSeverity {
    let score = v.deltas@.len() + 2 * count_in(combined_lower(v), risk_demand_kw());
    if score <= 3 {
        RiskSeverity::Low
    } else if score <= 6 {
        RiskSeverity::Medium
    } else if score <= 10 {
        RiskSeverity::High
    } else {
        RiskSeverity::Critical
    }
}

/// The timeline severity tier, from urgency against long-term planning.
pub open spec fn timeline_severity(v: IterationVersion) -> RiskSeverity {
    let urgency = count_in(combined_lower(v), risk_urgency_kw());
    let long_term = count_in(combined_lower(v), risk_longterm_kw());
    if urgency > long_term && urgency > 2 {
        RiskSeverity::High
    } else if urgency > 0 && long_term == 0 {
        RiskSeverity::Medium
    } else {
        RiskSeverity::Low
    }
}

/// How many logic checks passed.
pub open spec fn count_lc_passed(s: Seq<(Seq<u8>, Seq<u8>, bool, Seq<u8>)>) -> int
    decreases s.len(),
{
    if s.len() == 0 {
        0
    } else {
        count_lc_passed(s.drop_last()) + if s.last().2 {
            1int
        } else {
            0int
        }
    }
}

/// How many fact checks count as passing: supported ones and those only
/// requesting clarification.
pub open spec fn count_fc_passed(s: Seq<(Seq<u8>, FactCheckStatus, u32)>) -> int
    decreases s.len(),
{
    if s.len() == 0 {
        0
    } else {
        count_fc_passed(s.drop_last()) + if s.last().1 is Supported || s.last().1
            is NeedClarification {
            1int
        } else {
            0int
        }
    }
}

/// A risk of the highest tier is present.
pub open spec fn has_critical(s: Seq<(Seq<u8>, RiskSeverity)>) -> bool {
    exists|i: int| 0 <= i < s.len() && (#[trigger] s[i]).1 is Critical
}

/// The overall decision: at least 0.8 of the logic checks passed, at least
/// 0.6 of the fact checks passed (an empty list passes), and no risk of
/// the highest tier is present.
pub open spec fn overall_pass(
    lc: Seq<(Seq<u8>, Seq<u8>, bool, Seq<u8>)>,
    fc: Seq<(Seq<u8>, FactCheckStatus, u32)>,
    rk: Seq<(Seq<u8>, RiskSeverity)>,
) -> bool {
    &&& lc.len() > 0 && 5 * count_lc_passed(lc) >= 4 * lc.len()
    &&& (fc.len() == 0 || 5 * count_fc_passed(fc) >= 3 * fc.len())
    &&& !has_critical(rk)
}

/// A risk of the highest tier alone forces the decision to fail, whatever
/// the other checks say.
pub proof fn lemma_critical_risk_fails_decision(
    lc: Seq<(Seq<u8>, Seq<u8>, bool, Seq<u8>)>,
    fc: Seq<(Seq<u8>, FactCheckStatus, u32)>,
    rk: Seq<(Seq<u8>, RiskSeverity)>,
)
    requires
        has_critical(rk),
    ensures
        !overall_pass(lc, fc, rk),
{
}

/// The confidence a risk tier contributes.
pub open spec fn risk_weight(s: RiskSeverity) -> int {
    match s {
        RiskSeverity::Low => 900,
        RiskSeverity::Medium => 700,
        RiskSeverity::High => 400,
        RiskSeverity::Critical => 100,
    }
}

/// The summed fact-check confidences.
pub open spec fn sum_fc_conf(s: Seq<(Seq<u8>, FactCheckStatus, u32)>) -> int
    decreases s.len(),
{
    if s.len() == 0 {
        0
    } else {
        sum_fc_conf(s.drop_last()) + s.last().2
    }
}

/// The summed risk weights.
pub open spec fn sum_rk_weight(s: Seq<(Seq<u8>, RiskSeverity)>) -> int
    decreases s.len(),
{
    if s.len() == 0 {
        0
    } else {
        sum_rk_weight(s.drop_last()) + risk_weight(s.last().1)
    }
}

/// The overall confidence: logic pass rate weighted 0.4, mean fact
/// confidence 0.3 and mean risk weight 0.3 (one half where a list is
/// empty; 0.8 for no risks), in thousandths.
pub open spec fn overall_confidence(
    lc: Seq<(Seq<u8>, Seq<u8>, bool, Seq<u8>)>,
    fc: Seq<(Seq<u8>, FactCheckStatus, u32)>,
    rk: Seq<(Seq<u8>, RiskSeverity)>,
) -> int {
    let lconf = if lc.len() == 0 {
        500
    } else {
        count_lc_passed(lc) * 1000 / lc.len() as int
    };
    let fconf = if fc.len() == 0 {
        500
    } else {
        sum_fc_conf(fc) / fc.len() as int
    };
    let rconf = if rk.len() == 0 {
        800
    } else {
        sum_rk_weight(rk) / rk.len() as int
    };
    (4 * lconf + 3 * fconf + 3 * rconf) / 10
}

/// Clamped overall confidence, in thousandths.
pub open spec fn clamped_confidence(
    lc: Seq<(Seq<u8>, Seq<u8>, bool, Seq<u8>)>,
    fc: Seq<(Seq<u8>, FactCheckStatus, u32)>,
    rk: Seq<(Seq<u8>, RiskSeverity)>,
) -> int {
    let c = overall_confidence(lc, fc, rk);
    if c > 1000 {
        1000
    } else if c < 0 {
        0
    } else {
        c
    }
}

/// What the summary-consistency check reports.
pub open spec fn summary_check_post(v: IterationVersion, c: LogicCheck) -> bool {
    &&& c.check_type@ == ("摘要一致性检查").spec_bytes()
    &&& c.passed == summary_ok(v.summary@, v.deltas@.len() as int, v.rationale@)
    &&& (c.passed ==> c.message@ == ("摘要与详细信息保持一致").spec_bytes())
}

/// What the delta-coherence check reports.
pub open spec fn coherence_check_post(v: IterationVersion, c: LogicCheck) -> bool {
    &&& c.check_type@ == ("改进建议连贯性检查").spec_bytes()
    &&& c.passed == (v.deltas@.len() > 0 && contr_total(views2(v.deltas@), 0) == 0)
    &&& (v.deltas@.len() == 0 ==> c.message@ == ("没有找到任何改进建议").spec_bytes())
    &&& (c.passed ==> c.message@ == ("改进建议之间逻辑连贯，无明显矛盾").spec_bytes())
}

/// What the scoring check reports.
pub open spec fn scoring_check_post(v: IterationVersion, c: LogicCheck) -> bool {
    &&& c.check_type@ == ("评分一致性检查").spec_bytes()
    &&& c.passed == scoring_ok(v.scores)
}

/// What the three fact checks report.
pub open spec fn fact_checks_post(v: IterationVersion, fc: Seq<FactCheck>) -> bool {
    &&& fc.len() == 3
    &&& fc[0].claim@ == (if count_in2(rat_lower(v), deltas_lower(v), claim_tech_kw()) == 0 {
        ("无技术相关声明").spec_bytes()
    } else {
        ("技术方案具有可行性").spec_bytes()
    })
    &&& fc[0].status == tech_claim_status(v).0
    &&& fc[0].confidence == tech_claim_status(v).1
    &&& fc[1].claim@ == ("业务逻辑合理").spec_bytes()
    &&& fc[1].status == business_claim_status(v).0
    &&& fc[1].confidence == business_claim_status(v).1
    &&& fc[2].claim@ == ("资源需求评估充分").spec_bytes()
    &&& fc[2].status == resource_claim_status(v).0
    &&& fc[2].confidence == resource_claim_status(v).1
}

/// What the three risk assessments report.
pub open spec fn risks_post(v: IterationVersion, rk: Seq<Risk>) -> bool {
    &&& rk.len() == 3
    &&& rk[0].severity == complexity_severity(v)
    &&& rk[1].severity == resource_severity(v)
    &&& rk[2].severity == timeline_severity(v)
    &&& rk[0].mitigation is Some
    &&& rk[1].mitigation is Some
    &&& rk[2].mitigation is Some
}

/// The verifier stage.
pub struct VerifierAgent {}

fn claim_tech_kw_exec() -> (r: Vec<Vec<u8>>)
    ensures
        views2(r@) == claim_tech_kw(),
{
    let mut r: Vec<Vec<u8>> = Vec::new();
    r.push(("技术").as_bytes_vec());
    r.push(("算法").as_bytes_vec());
    r.push(("系统").as_bytes_vec());
    r.push(("架构").as_bytes_vec());
    r.push(("开发").as_bytes_vec());
    r.push(("实现").as_bytes_vec());
    r.push(("集成").as_bytes_vec());
    assert(views2(r@) =~= claim_tech_kw());
    r
}

fn claim_complexity_kw_exec() -> (r: Vec<Vec<u8>>)
    ensures
        views2(r@) == claim_complexity_kw(),
{
    let mut r: Vec<Vec<u8>> = Vec::new();
    r.push(("复杂").as_bytes_vec());
    r.push(("困难").as_bytes_vec());
    r.push(("挑战").as_bytes_vec());
    r.push(("风险").as_bytes_vec());
    assert(views2(r@) =~= claim_complexity_kw());
    r
}

fn claim_business_kw_exec() -> (r: Vec<Vec<u8>>)
    ensures
        views2(r@) == claim_business_kw(),
{
    let mut r: Vec<Vec<u8>> = Vec::new();
    r.push(("成本").as_bytes_vec());
    r.push(("收益").as_bytes_vec());
    r.push(("市场").as_bytes_vec());
    r.push(("用户").as_bytes_vec());
    r.push(("客户").as_bytes_vec());
    r.push(("业务").as_bytes_vec());
    r.push(("盈利").as_bytes_vec());
    assert(views2(r@) =~= claim_business_kw());
    r
}

fn claim_resource_kw_exec() -> (r: Vec<Vec<u8>>)
    ensures
        views2(r@) == claim_resource_kw(),
{
    let mut r: Vec<Vec<u8>> = Vec::new();
    r.push(("时间").as_bytes_vec());
    r.push(("人力").as_bytes_vec());
    r.push(("资源").as_bytes_vec());
    r.push(("预算").as_bytes_vec());
    r.push(("成本").as_bytes_vec());
    r.push(("投入").as_bytes_vec());
    assert(views2(r@) =~= claim_resource_kw());
    r
}

fn risk_complexity_kw_exec() -> (r: Vec<Vec<u8>>)
    ensures
        views2(r@) == risk_complexity_kw(),
{
    let mut r: Vec<Vec<u8>> = Vec::new();
    r.push(("复杂").as_bytes_vec());
    r.push(("困难").as_bytes_vec());
    r.push(("挑战性").as_bytes_vec());
    r.push(("多步骤").as_bytes_vec());
    r.push(("依赖").as_bytes_vec());
    r.push(("集成").as_bytes_vec());
    r.push(("协调").as_bytes_vec());
    r.push(("同步").as_bytes_vec());
    assert(views2(r@) =~= risk_complexity_kw());
    r
}

fn risk_demand_kw_exec() -> (r: Vec<Vec<u8>>)
    ensures
        views2(r@) == risk_demand_kw(),
{
    let mut r: Vec<Vec<u8>> = Vec::new();
    r.push(("大量").as_bytes_vec());
    r.push(("众多").as_bytes_vec());
    r.push(("全面").as_bytes_vec());
    r.push(("所有").as_bytes_vec());
    r.push(("整体").as_bytes_vec());
    r.push(("系统性").as_bytes_vec());
    assert(views2(r@) =~= risk_demand_kw());
    r
}

fn risk_urgency_kw_exec() -> (r: Vec<Vec<u8>>)
    ensures
        views2(r@) == risk_urgency_kw(),
{
    let mut r: Vec<Vec<u8>> = Vec::new();
    r.push(("紧急").as_bytes_vec());
    r.push(("立即").as_bytes_vec());
    r.push(("马上").as_bytes_vec());
    r.push(("尽快").as_bytes_vec());
    r.push(("短期").as_bytes_vec());
    assert(views2(r@) =~= risk_urgency_kw());
    r
}

fn risk_longterm_kw_exec() -> (r: Vec<Vec<u8>>)
    ensures
        views2(r@) == risk_longterm_kw(),
{
    let mut r: Vec<Vec<u8>> = Vec::new();
    r.push(("长期").as_bytes_vec());
    r.push(("逐步").as_bytes_vec());
    r.push(("分阶段").as_bytes_vec());
    r.push(("持续").as_bytes_vec());
    assert(views2(r@) =~= risk_longterm_kw());
    r
}

/// Counts the keywords of the list occurring in the text.
fn count_in_exec(content: &[u8], kws: &Vec<Vec<u8>>) -> (r: usize)
    ensures
        r as int == count_in(content@, views2(kws@)),
        r <= kws@.len(),
{
    let ghost w = views2(kws@);
    let mut count: usize = 0;
    let mut i: usize = 0;
    while i < kws.len()
        invariant
            i <= w.len(),
            w == views2(kws@),
            count as int == count_in(content@, w.take(i as int)),
            count <= i,
        decreases w.len() - i,
    {
        proof {
            assert(w.take(i + 1).drop_last() =~= w.take(i as int));
            assert(w.take(i + 1).last() == w[i as int]);
        }
        if contains_bytes(content, kws[i].as_slice()) {
            count = count + 1;
        }
        i = i + 1;
    }
    assert(w.take(w.len() as int) =~= w);
    count
}

/// Counts the keywords of the list occurring in either text.
fn count_in2_exec(a: &[u8], b: &[u8], kws: &Vec<Vec<u8>>) -> (r: usize)
    ensures
        r as int == count_in2(a@, b@, views2(kws@)),
        r <= kws@.len(),
{
    let ghost w = views2(kws@);
    let mut count: usize = 0;
    let mut i: usize = 0;
    while i < kws.len()
        invariant
            i <= w.len(),
            w == views2(kws@),
            count as int == count_in2(a@, b@, w.take(i as int)),
            count <= i,
        decreases w.len() - i,
    {
        proof {
            assert(w.take(i + 1).drop_last() =~= w.take(i as int));
            assert(w.take(i + 1).last() == w[i as int]);
        }
        if contains_bytes(a, kws[i].as_slice()) || contains_bytes(b, kws[i].as_slice()) {
            count = count + 1;
        }
        i = i + 1;
    }
    assert(w.take(w.len() as int) =~= w);
    count
}

/// The lowered rationale of the iteration.
fn rat_lower_exec(iteration: &IterationVersion) -> (r: Vec<u8>)
    ensures
        r@ == rat_lower(*iteration),
{
    to_lower_bytes(iteration.rationale.as_slice())
}

/// The lowered deltas joined with single spaces.
fn deltas_lower_exec(iteration: &IterationVersion) -> (r: Vec<u8>)
    ensures
        r@ == deltas_lower(*iteration),
{
    let joined = join_bytes(&iteration.deltas, (" ").as_bytes_vec().as_slice());
    to_lower_bytes(joined.as_slice())
}

/// The lowered combined rationale-and-deltas content.
fn combined_lower_exec(iteration: &IterationVersion) -> (r: Vec<u8>)
    ensures
        r@ == combined_lower(*iteration),
{
    let mut combined = iteration.rationale.clone();
    combined.extend_from_slice((" ").as_bytes_vec().as_slice());
    let joined = join_bytes(&iteration.deltas, (" ").as_bytes_vec().as_slice());
    combined.extend_from_slice(joined.as_slice());
    to_lower_bytes(combined.as_slice())
}

impl VerifierAgent {
    /// A fresh verifier.
    pub fn new() -> (r: Self) {
        VerifierAgent {  }
    }

    /// Checks that the summary is consistent with the details: length
    /// floors and no placeholder text.
    pub fn check_summary_consistency(&self, iteration: &IterationVersion) -> (r: LogicCheck)
        ensures
            summary_check_post(*iteration, r),
    {
        let summary_length = iteration.summary.len();
        let deltas_count = iteration.deltas.len();
        let rationale_length = iteration.rationale.len();
        let has_todo = contains_bytes(
            iteration.summary.as_slice(),
            ("TODO").as_bytes_vec().as_slice(),
        );
        let has_pending = contains_bytes(
            iteration.summary.as_slice(),
            ("待定").as_bytes_vec().as_slice(),
        );
        let passed = summary_length > 10 && deltas_count > 0 && rationale_length > 100 && !has_todo
            && !has_pending;
        let message: Vec<u8> = if passed {
            ("摘要与详细信息保持一致").as_bytes_vec()
        } else {
            let mut m = ("摘要可能不完整或与详细信息不符 (摘要长度: ").as_bytes_vec();
            m.append(&mut dec_bytes(summary_length as u64));
            m.extend_from_slice((", 改进数量: ").as_bytes_vec().as_slice());
            m.append(&mut dec_bytes(deltas_count as u64));
            m.extend_from_slice((", 推理长度: ").as_bytes_vec().as_slice());
            m.append(&mut dec_bytes(rationale_length as u64));
            m.extend_from_slice((")").as_bytes_vec().as_slice());
            m
        };
        LogicCheck {
            check_type: ("摘要一致性检查").as_bytes_vec(),
            description: ("检查摘要是否与详细的改进建议和推理保持一致").as_bytes_vec(),
            passed,
            message,
        }
    }

    /// Scans every delta pair for opposed keyword pairs and reports
    /// whether none fired.
    #[verifier::rlimit(60)]
    pub fn check_delta_coherence(&self, iteration: &IterationVersion) -> (r: LogicCheck)
        ensures
            coherence_check_post(*iteration, r),
    {
        let ghost dv = views2(iteration.deltas@);
        if iteration.deltas.len() == 0 {
            return LogicCheck {
                check_type: ("改进建议连贯性检查").as_bytes_vec(),
                description: ("检查改进建议之间的逻辑连贯性").as_bytes_vec(),
                passed: false,
                message: ("没有找到任何改进建议").as_bytes_vec(),
            };
        }
        let mut lows: Vec<Vec<u8>> = Vec::new();
        let mut t: usize = 0;
        while t < iteration.deltas.len()
            invariant
                t <= dv.len(),
                dv == views2(iteration.deltas@),
                lows@.len() == t,
                forall|k: int| 0 <= k < t ==> (#[trigger] lows@[k])@ == lower_seq(dv[k]),
            decreases dv.len() - t,
        {
            lows.push(to_lower_bytes(iteration.deltas[t].as_slice()));
            t = t + 1;
        }
        let ghost total = contr_total(dv, 0);
        let mut count: u64 = 0;
        let ghost mut done: int = 0;
        let mut gi: usize = 0;
        while gi < lows.len()
            invariant
                gi <= dv.len(),
                dv == views2(iteration.deltas@),
                lows@.len() == dv.len(),
                forall|k: int| 0 <= k < dv.len() ==> (#[trigger] lows@[k])@ == lower_seq(dv[k]),
                done + contr_total(dv, gi as int) == total,
                count as int == cap1m(done),
                done >= 0,
            decreases dv.len() - gi,
        {
            let mut gj: usize = gi + 1;
            assert(contr_total(dv, gi as int) == contr_row(dv, gi as int, gi + 1) + contr_total(
                dv,
                gi + 1,
            ));
            while gj < lows.len()
                invariant
                    gi < dv.len(),
                    gi + 1 <= gj <= dv.len(),
                    dv == views2(iteration.deltas@),
                    lows@.len() == dv.len(),
                    forall|k: int| 0 <= k < dv.len() ==> (#[trigger] lows@[k])@ == lower_seq(dv[k]),
                    done + contr_row(dv, gi as int, gj as int) + contr_total(dv, gi + 1) == total,
                    count as int == cap1m(done),
                    done >= 0,
                decreases dv.len() - gj,
            {
                let inc = pair_count6_exec(lows[gi].as_slice(), lows[gj].as_slice());
                assert(contr_row(dv, gi as int, gj as int) == pair_count6(
                    lower_seq(dv[gi as int]),
                    lower_seq(dv[gj as int]),
                ) + contr_row(dv, gi as int, gj + 1));
                proof {
                    done = done + pair_count6(lower_seq(dv[gi as int]), lower_seq(dv[gj as int]));
                }
                let s = count + (inc as u64);
                count = if s > 1000000 {
                    1000000
                } else {
                    s
                };
                gj = gj + 1;
            }
            assert(contr_row(dv, gi as int, gj as int) == 0);
            gi = gi + 1;
        }
        assert(contr_total(dv, gi as int) == 0);
        assert(done == total);
        proof {
            lemma_contr_total_nonneg(dv, 0);
        }
        let passed = count == 0;
        assert(passed == (total == 0));
        let message: Vec<u8> = if passed {
            ("改进建议之间逻辑连贯，无明显矛盾").as_bytes_vec()
        } else {
            let mut m = ("发现 ").as_bytes_vec();
            m.append(&mut dec_bytes(count));
            m.extend_from_slice((" 个潜在的矛盾改进建议").as_bytes_vec().as_slice());
            m
        };
        LogicCheck {
            check_type: ("改进建议连贯性检查").as_bytes_vec(),
            description: ("检查改进建议之间是否存在矛盾或重复").as_bytes_vec(),
            passed,
            message,
        }
    }

    /// Checks the score ranges and floors: feasibility at least 0.3,
    /// coherence at least 0.4.
    pub fn check_scoring_consistency(&self, iteration: &IterationVersion) -> (r: LogicCheck)
        ensures
            scoring_check_post(*iteration, r),
    {
        let s = &iteration.scores;
        let valid_range = s.novelty <= 1000 && s.feasibility <= 1000 && s.coherence <= 1000;
        let reasonable = s.feasibility >= 300 && s.coherence >= 400;
        let passed = valid_range && reasonable;
        let head: Vec<u8> = if passed {
            ("评分合理 (新颖性: ").as_bytes_vec()
        } else {
            ("评分可能不合理 (新颖性: ").as_bytes_vec()
        };
        let mut message = head;
        let novelty_disp: u32 = if s.novelty > 1000 {
            1000
        } else {
            s.novelty
        };
        let feasibility_disp: u32 = if s.feasibility > 1000 {
            1000
        } else {
            s.feasibility
        };
        let coherence_disp: u32 = if s.coherence > 1000 {
            1000
        } else {
            s.coherence
        };
        message.append(&mut cent_bytes(novelty_disp));
        message.extend_from_slice((", 可行性: ").as_bytes_vec().as_slice());
        message.append(&mut cent_bytes(feasibility_disp));
        message.extend_from_slice((", 连贯性: ").as_bytes_vec().as_slice());
        message.append(&mut cent_bytes(coherence_disp));
        message.extend_from_slice((")").as_bytes_vec().as_slice());
        LogicCheck {
            check_type: ("评分一致性检查").as_bytes_vec(),
            description: ("检查各项评分是否在合理范围内").as_bytes_vec(),
            passed,
            message,
        }
    }

    /// The three logic checks in order: summary consistency, delta
    /// coherence, scoring.
    pub fn perform_logic_checks(&self, iteration: &IterationVersion) -> (r: Vec<LogicCheck>)
        ensures
            r@.len() == 3,
            summary_check_post(*iteration, r@[0]),
            coherence_check_post(*iteration, r@[1]),
            scoring_check_post(*iteration, r@[2]),
    {
        let mut r: Vec<LogicCheck> = Vec::new();
        r.push(self.check_summary_consistency(iteration));
        r.push(self.check_delta_coherence(iteration));
        r.push(self.check_scoring_consistency(iteration));
        r
    }
}

impl VerifierAgent {
    /// The technical-claims fact check, from the complexity-marker
    /// density.
    pub fn check_technical_claims(&self, iteration: &IterationVersion) -> (r: FactCheck)
        ensures
            r.claim@ == (if count_in2(
                rat_lower(*iteration),
                deltas_lower(*iteration),
                claim_tech_kw(),
            ) == 0 {
                ("无技术相关声明").spec_bytes()
            } else {
                ("技术方案具有可行性").spec_bytes()
            }),
            r.status == tech_claim_status(*iteration).0,
            r.confidence == tech_claim_status(*iteration).1,
    {
        let rat = rat_lower_exec(iteration);
        let del = deltas_lower_exec(iteration);
        let tech = count_in2_exec(rat.as_slice(), del.as_slice(), &claim_tech_kw_exec());
        if tech == 0 {
            let mut evidence: Vec<Evidence> = Vec::new();
            evidence.push(
                Evidence {
                    source_id: ("analysis").as_bytes_vec(),
                    snippet: ("未发现技术相关声明").as_bytes_vec(),
                    relevance: 1000,
                    url: None,
                },
            );
            return FactCheck {
                claim: ("无技术相关声明").as_bytes_vec(),
                evidence,
                status: FactCheckStatus::NeedClarification,
                confidence: 1000,
            };
        }
        let mentions = count_in2_exec(rat.as_slice(), del.as_slice(), &claim_complexity_kw_exec());
        let status: FactCheckStatus = if mentions == 0 {
            FactCheckStatus::Supported
        } else if mentions <= 2 {
            FactCheckStatus::Partial
        } else {
            FactCheckStatus::Unsupported
        };
        let confidence: u32 = if mentions == 0 {
            800
        } else if mentions <= 2 {
            600
        } else {
            400
        };
        let mut evidence: Vec<Evidence> = Vec::new();
        let mut sn0 = ("发现 ").as_bytes_vec();
        sn0.append(&mut dec_bytes(7));
        sn0.extend_from_slice((" 个技术关键词").as_bytes_vec().as_slice());
        evidence.push(
            Evidence { source_id: ("analysis").as_bytes_vec(), snippet: sn0, relevance: 800, url: None },
        );
        let mut sn1 = ("发现 ").as_bytes_vec();
        sn1.append(&mut dec_bytes(mentions as u64));
        sn1.extend_from_slice((" 个复杂性指标").as_bytes_vec().as_slice());
        evidence.push(
            Evidence { source_id: ("analysis").as_bytes_vec(), snippet: sn1, relevance: 700, url: None },
        );
        FactCheck { claim: ("技术方案具有可行性").as_bytes_vec(), evidence, status, confidence }
    }

    /// The business-claims fact check, from the business-keyword density.
    pub fn check_business_claims(&self, iteration: &IterationVersion) -> (r: FactCheck)
        ensures
            r.claim@ == ("业务逻辑合理").spec_bytes(),
            r.status == business_claim_status(*iteration).0,
            r.confidence == business_claim_status(*iteration).1,
    {
        let content = combined_lower_exec(iteration);
        let mentions = count_in_exec(content.as_slice(), &claim_business_kw_exec());
        let status: FactCheckStatus = if mentions >= 3 {
            FactCheckStatus::Supported
        } else if mentions >= 1 {
            FactCheckStatus::Partial
        } else {
            FactCheckStatus::NeedClarification
        };
        let confidence: u32 = if mentions >= 3 {
            800
        } else if mentions >= 1 {
            600
        } else {
            900
        };
        let mut evidence: Vec<Evidence> = Vec::new();
        let mut sn = ("发现 ").as_bytes_vec();
        sn.append(&mut dec_bytes(mentions as u64));
        sn.extend_from_slice((" 个业务相关关键词").as_bytes_vec().as_slice());
        evidence.push(
            Evidence { source_id: ("analysis").as_bytes_vec(), snippet: sn, relevance: 800, url: None },
        );
        FactCheck { claim: ("业务逻辑合理").as_bytes_vec(), evidence, status, confidence }
    }

    /// The resource-claims fact check, from the resource-keyword density.
    pub fn check_resource_claims(&self, iteration: &IterationVersion) -> (r: FactCheck)
        ensures
            r.claim@ == ("资源需求评估充分").spec_bytes(),
            r.status == resource_claim_status(*iteration).0,
            r.confidence == resource_claim_status(*iteration).1,
    {
        let content = combined_lower_exec(iteration);
        let mentions = count_in_exec(content.as_slice(), &claim_resource_kw_exec());
        let status: FactCheckStatus = if mentions >= 2 {
            FactCheckStatus::Supported
        } else if mentions >= 1 {
            FactCheckStatus::Partial
        } else {
            FactCheckStatus::NeedClarification
        };
        let confidence: u32 = if mentions >= 2 {
            700
        } else if mentions >= 1 {
            500
        } else {
            800
        };
        let mut evidence: Vec<Evidence> = Vec::new();
        let mut sn = ("发现 ").as_bytes_vec();
        sn.append(&mut dec_bytes(mentions as u64));
        sn.extend_from_slice((" 个资源相关关键词").as_bytes_vec().as_slice());
        evidence.push(
            Evidence { source_id: ("analysis").as_bytes_vec(), snippet: sn, relevance: 700, url: None },
        );
        FactCheck { claim: ("资源需求评估充分").as_bytes_vec(), evidence, status, confidence }
    }

    /// The three fact checks in order: technical, business, resource.
    pub fn perform_fact_checks(&self, iteration: &IterationVersion) -> (r: Vec<FactCheck>)
        ensures
            fact_checks_post(*iteration, r@),
    {
        let mut r: Vec<FactCheck> = Vec::new();
        r.push(self.check_technical_claims(iteration));
        r.push(self.check_business_claims(iteration));
        r.push(self.check_resource_claims(iteration));
        r
    }

    /// The implementation-complexity risk, tiered by marker count.
    pub fn assess_implementation_complexity_risk(&self, iteration: &IterationVersion) -> (r: Risk)
        ensures
            r.severity == complexity_severity(*iteration),
            r.mitigation is Some,
    {
        let content = combined_lower_exec(iteration);
        let score = count_in_exec(content.as_slice(), &risk_complexity_kw_exec());
        let severity: RiskSeverity = if score <= 1 {
            RiskSeverity::Low
        } else if score <= 3 {
            RiskSeverity::Medium
        } else if score <= 5 {
            RiskSeverity::High
        } else {
            RiskSeverity::Critical
        };
        let mitigation: Vec<u8> = match severity {
            RiskSeverity::Low => ("复杂度较低，按标准流程实施即可").as_bytes_vec(),
            RiskSeverity::Medium => ("建议分阶段实施，加强项目管理").as_bytes_vec(),
            RiskSeverity::High => ("需要详细的实施计划和风险应对策略").as_bytes_vec(),
            RiskSeverity::Critical => ("复杂度极高，建议重新评估方案可行性").as_bytes_vec(),
        };
        let mut description = ("实施复杂度风险 (复杂度指标: ").as_bytes_vec();
        description.append(&mut dec_bytes(score as u64));
        description.extend_from_slice((")").as_bytes_vec().as_slice());
        Risk { description, severity, mitigation: Some(mitigation) }
    }

    /// The resource-demand risk, tiered by the delta count and demand
    /// markers.
    pub fn assess_resource_risk(&self, iteration: &IterationVersion) -> (r: Risk)
        ensures
            r.severity == resource_severity(*iteration),
            r.mitigation is Some,
    {
        let deltas_count = iteration.deltas.len();
        let content = combined_lower_exec(iteration);
        let demand = count_in_exec(content.as_slice(), &risk_demand_kw_exec());
        let severity: RiskSeverity = if deltas_count >= 11 {
            RiskSeverity::Critical
        } else {
            let total: usize = deltas_count + 2 * demand;
            assert(total == iteration.deltas@.len() + 2 * count_in(
                combined_lower(*iteration),
                risk_demand_kw(),
            ));
            if total <= 3 {
                RiskSeverity::Low
            } else if total <= 6 {
                RiskSeverity::Medium
            } else if total <= 10 {
                RiskSeverity::High
            } else {
                RiskSeverity::Critical
            }
        };
        let mitigation: Vec<u8> = match severity {
            RiskSeverity::Low => ("资源需求在可控范围内").as_bytes_vec(),
            RiskSeverity::Medium => ("需要合理规划资源分配").as_bytes_vec(),
            RiskSeverity::High => ("资源需求较大，建议分期投入").as_bytes_vec(),
            RiskSeverity::Critical => ("资源需求超出一般项目范围，需重新评估").as_bytes_vec(),
        };
        let mut description = ("资源需求风险 (改进数量: ").as_bytes_vec();
        description.append(&mut dec_bytes(deltas_count as u64));
        description.extend_from_slice((", 需求强度: ").as_bytes_vec().as_slice());
        description.append(&mut dec_bytes(demand as u64));
        description.extend_from_slice((")").as_bytes_vec().as_slice());
        Risk { description, severity, mitigation: Some(mitigation) }
    }

    /// The timeline risk: urgency markers against long-term planning.
    pub fn assess_timeline_risk(&self, iteration: &IterationVersion) -> (r: Risk)
        ensures
            r.severity == timeline_severity(*iteration),
            r.mitigation is Some,
    {
        let content = combined_lower_exec(iteration);
        let urgency = count_in_exec(content.as_slice(), &risk_urgency_kw_exec());
        let long_term = count_in_exec(content.as_slice(), &risk_longterm_kw_exec());
        let severity: RiskSeverity = if urgency > long_term && urgency > 2 {
            RiskSeverity::High
        } else if urgency > 0 && long_term == 0 {
            RiskSeverity::Medium
        } else {
            RiskSeverity::Low
        };
        let mitigation: Vec<u8> = match severity {
            RiskSeverity::High => ("时间要求紧迫，需要加快实施速度或调整范围").as_bytes_vec(),
            RiskSeverity::Medium => ("建议制定详细的时间计划").as_bytes_vec(),
            _ => ("时间安排合理").as_bytes_vec(),
        };
        let mut description = ("时间安排风险 (紧急度: ").as_bytes_vec();
        description.append(&mut dec_bytes(urgency as u64));
        description.extend_from_slice((", 长期规划: ").as_bytes_vec().as_slice());
        description.append(&mut dec_bytes(long_term as u64));
        description.extend_from_slice((")").as_bytes_vec().as_slice());
        Risk { description, severity, mitigation: Some(mitigation) }
    }

    /// The three risk assessments in order: complexity, resources,
    /// timeline.
    pub fn assess_risks(&self, iteration: &IterationVersion) -> (r: Vec<Risk>)
        ensures
            risks_post(*iteration, r@),
    {
        let mut r: Vec<Risk> = Vec::new();
        r.push(self.assess_implementation_complexity_risk(iteration));
        r.push(self.assess_resource_risk(iteration));
        r.push(self.assess_timeline_risk(iteration));
        r
    }

    /// The overall decision over the three check families.
    pub fn calculate_overall_pass(
        &self,
        logic_checks: &Vec<LogicCheck>,
        fact_checks: &Vec<FactCheck>,
        risks: &Vec<Risk>,
    ) -> (r: bool)
        ensures
            r == overall_pass(lc_proj(logic_checks@), fc_proj(fact_checks@), rk_proj(risks@)),
    {
        let ghost lp = lc_proj(logic_checks@);
        let ghost fp = fc_proj(fact_checks@);
        let ghost rp = rk_proj(risks@);
        let mut lc_passed: usize = 0;
        let mut i: usize = 0;
        while i < logic_checks.len()
            invariant
                i <= lp.len(),
                lp == lc_proj(logic_checks@),
                lc_passed as int == count_lc_passed(lp.take(i as int)),
                lc_passed <= i,
            decreases lp.len() - i,
        {
            proof {
                assert(lp.take(i + 1).drop_last() =~= lp.take(i as int));
                assert(lp.take(i + 1).last() == lp[i as int]);
            }
            if logic_checks[i].passed {
                lc_passed = lc_passed + 1;
            }
            i = i + 1;
        }
        assert(lp.take(lp.len() as int) =~= lp);
        let mut fc_passed: usize = 0;
        let mut k: usize = 0;
        while k < fact_checks.len()
            invariant
                k <= fp.len(),
                fp == fc_proj(fact_checks@),
                fc_passed as int == count_fc_passed(fp.take(k as int)),
                fc_passed <= k,
            decreases fp.len() - k,
        {
            proof {
                assert(fp.take(k + 1).drop_last() =~= fp.take(k as int));
                assert(fp.take(k + 1).last() == fp[k as int]);
            }
            let passing = match fact_checks[k].status {
                FactCheckStatus::Supported => true,
                FactCheckStatus::NeedClarification => true,
                _ => false,
            };
            if passing {
                fc_passed = fc_passed + 1;
            }
            k = k + 1;
        }
        assert(fp.take(fp.len() as int) =~= fp);
        let mut critical = false;
        let mut t: usize = 0;
        while t < risks.len()
            invariant
                t <= rp.len(),
                rp == rk_proj(risks@),
                critical == (exists|m: int| 0 <= m < t && (#[trigger] rp[m]).1 is Critical),
            decreases rp.len() - t,
        {
            match risks[t].severity {
                RiskSeverity::Critical => {
                    assert(rp[t as int].1 is Critical);
                    critical = true;
                },
                _ => {},
            }
            t = t + 1;
        }
        let logic_ok = logic_checks.len() > 0 && 5 * (lc_passed as u128) >= 4 * (
        logic_checks.len() as u128);
        let fact_ok = fact_checks.len() == 0 || 5 * (fc_passed as u128) >= 3 * (
        fact_checks.len() as u128);
        logic_ok && fact_ok && !critical
    }

    /// The weighted overall confidence, clamped into the unit interval.
    #[verifier::rlimit(60)]
    pub fn calculate_verification_confidence(
        &self,
        logic_checks: &Vec<LogicCheck>,
        fact_checks: &Vec<FactCheck>,
        risks: &Vec<Risk>,
    ) -> (r: u32)
        ensures
            r as int == clamped_confidence(
                lc_proj(logic_checks@),
                fc_proj(fact_checks@),
                rk_proj(risks@),
            ),
            r <= 1000,
    {
        let ghost lp = lc_proj(logic_checks@);
        let ghost fp = fc_proj(fact_checks@);
        let ghost rp = rk_proj(risks@);
        let mut lc_passed: usize = 0;
        let mut i: usize = 0;
        while i < logic_checks.len()
            invariant
                i <= lp.len(),
                lp == lc_proj(logic_checks@),
                lc_passed as int == count_lc_passed(lp.take(i as int)),
                lc_passed <= i,
            decreases lp.len() - i,
        {
            proof {
                assert(lp.take(i + 1).drop_last() =~= lp.take(i as int));
                assert(lp.take(i + 1).last() == lp[i as int]);
            }
            if logic_checks[i].passed {
                lc_passed = lc_passed + 1;
            }
            i = i + 1;
        }
        assert(lp.take(lp.len() as int) =~= lp);
        let lconf: u128 = if logic_checks.len() == 0 {
            500
        } else {
            let v = (lc_passed as u128) * 1000 / (logic_checks.len() as u128);
            assert(v as int == count_lc_passed(lp) * 1000 / lp.len() as int && v <= 1000) by (nonlinear_arith)
                requires
                    lc_passed as int == count_lc_passed(lp),
                    logic_checks@.len() == lp.len(),
                    lp.len() > 0,
                    lc_passed <= lp.len(),
                    v as int == (lc_passed as int) * 1000 / (logic_checks@.len() as int),
            ;
            v
        };
        let mut fc_sum: u128 = 0;
        let mut k: usize = 0;
        while k < fact_checks.len()
            invariant
                k <= fp.len(),
                fp == fc_proj(fact_checks@),
                fc_sum as int == sum_fc_conf(fp.take(k as int)),
                fc_sum <= (k as int) * 0xFFFF_FFFF,
            decreases fp.len() - k,
        {
            proof {
                assert(fp.take(k + 1).drop_last() =~= fp.take(k as int));
                assert(fp.take(k + 1).last() == fp[k as int]);
            }
            let c: u32 = fact_checks[k].confidence;
            assert(fc_sum + c <= (k + 1) * 0xFFFF_FFFF) by (nonlinear_arith)
                requires
                    fc_sum <= (k as int) * 0xFFFF_FFFF,
                    c <= 0xFFFF_FFFF,
            ;
            fc_sum = fc_sum + (c as u128);
            k = k + 1;
        }
        assert(fp.take(fp.len() as int) =~= fp);
        let fconf: u128 = if fact_checks.len() == 0 {
            500
        } else {
            let f = fc_sum / (fact_checks.len() as u128);
            assert(f as int == sum_fc_conf(fp) / fp.len() as int && f <= 0xFFFF_FFFF) by (
            nonlinear_arith)
                requires
                    fc_sum as int == sum_fc_conf(fp),
                    fact_checks@.len() == fp.len(),
                    fp.len() > 0,
                    fc_sum <= (fp.len() as int) * 0xFFFF_FFFF,
                    f as int == fc_sum as int / (fact_checks@.len() as int),
            ;
            f
        };
        let mut rk_sum: u128 = 0;
        let mut t: usize = 0;
        while t < risks.len()
            invariant
                t <= rp.len(),
                rp == rk_proj(risks@),
                rk_sum as int == sum_rk_weight(rp.take(t as int)),
                rk_sum <= (t as int) * 1000,
            decreases rp.len() - t,
        {
            proof {
                assert(rp.take(t + 1).drop_last() =~= rp.take(t as int));
                assert(rp.take(t + 1).last() == rp[t as int]);
            }
            let w: u128 = match risks[t].severity {
                RiskSeverity::Low => 900,
                RiskSeverity::Medium => 700,
                RiskSeverity::High => 400,
                RiskSeverity::Critical => 100,
            };
            assert(rk_sum + w <= (t + 1) * 1000) by (nonlinear_arith)
                requires
                    rk_sum <= (t as int) * 1000,
                    w <= 1000,
            ;
            rk_sum = rk_sum + w;
            t = t + 1;
        }
        assert(rp.take(rp.len() as int) =~= rp);
        let rconf: u128 = if risks.len() == 0 {
            800
        } else {
            let w = rk_sum / (risks.len() as u128);
            assert(w as int == sum_rk_weight(rp) / rp.len() as int && w <= 1000) by (
            nonlinear_arith)
                requires
                    rk_sum as int == sum_rk_weight(rp),
                    risks@.len() == rp.len(),
                    rp.len() > 0,
                    rk_sum <= (rp.len() as int) * 1000,
                    w as int == rk_sum as int / (risks@.len() as int),
            ;
            w
        };
        assert(lconf <= 1000);
        assert(fconf <= 0xFFFF_FFFF);
        assert(rconf <= 1000);
        let overall: u128 = (4 * lconf + 3 * fconf + 3 * rconf) / 10;
        let clamped: u32 = if overall > 1000 {
            1000
        } else {
            overall as u32
        };
        clamped
    }

    /// The full deterministic verification of one iteration: the three
    /// logic checks, the three fact checks, the three risk assessments,
    /// the overall decision and the overall confidence. A risk of the
    /// highest tier always fails the decision.
    pub fn generate_basic_verification(&self, iteration: &IterationVersion) -> (r:
        crate::data::VerificationReport)
        ensures
            r.logic_checks@.len() == 3,
            summary_check_post(*iteration, r.logic_checks@[0]),
            coherence_check_post(*iteration, r.logic_checks@[1]),
            scoring_check_post(*iteration, r.logic_checks@[2]),
            fact_checks_post(*iteration, r.fact_checks@),
            risks_post(*iteration, r.risks@),
            r.passed == overall_pass(
                lc_proj(r.logic_checks@),
                fc_proj(r.fact_checks@),
                rk_proj(r.risks@),
            ),
            has_critical(rk_proj(r.risks@)) ==> !r.passed,
            r.confidence as int == clamped_confidence(
                lc_proj(r.logic_checks@),
                fc_proj(r.fact_checks@),
                rk_proj(r.risks@),
            ),
            r.confidence <= 1000,
    {
        let logic_checks = self.perform_logic_checks(iteration);
        let fact_checks = self.perform_fact_checks(iteration);
        let risks = self.assess_risks(iteration);
        let passed = self.calculate_overall_pass(&logic_checks, &fact_checks, &risks);
        let confidence = self.calculate_verification_confidence(&logic_checks, &fact_checks, &risks);
        crate::data::VerificationReport { logic_checks, fact_checks, risks, passed, confidence }
    }
}

/// The first synthesis result among the round's preceding results.
pub open spec fn synthesis_from(results: Seq<AgentResult>, i: int) -> Option<IterationVersion>
    decreases results.len() - i,
{
    if i < 0 || i >= results.len() {
        None
    } else {
        match results[i] {
            AgentResult::Synthesis(v) => Some(v),
            _ => synthesis_from(results, i + 1),
        }
    }
}

impl Agent for VerifierAgent {
    /// The stage's display name.
    fn name(&self) -> &'static str {
        "Verifier"
    }

    /// The verifier declares the verification capability.
    fn capabilities(&self) -> Vec<AgentCapability> {
        let mut v: Vec<AgentCapability> = Vec::new();
        v.push(AgentCapability::Verification);
        v
    }

    /// Verifies the first synthesis result found in the context; without
    /// one, the required upstream input is missing, which is an explicit
    /// operational error rather than a degraded report.
    fn execute(&self, context: &AgentContext) -> (r: Result<AgentResult, AgentError>)
        ensures
            synthesis_from(context.previous_results@, 0) is None ==> r == Result::<
                AgentResult,
                AgentError,
            >::Err(AgentError::MissingInput),
            (synthesis_from(context.previous_results@, 0) matches Some(v) ==> (r matches Ok(
                AgentResult::Verification(report),
            ) && {
                &&& report.passed == overall_pass(
                    lc_proj(report.logic_checks@),
                    fc_proj(report.fact_checks@),
                    rk_proj(report.risks@),
                )
                &&& has_critical(rk_proj(report.risks@)) ==> !report.passed
                &&& report.logic_checks@.len() == 3
                &&& summary_check_post(v, report.logic_checks@[0])
                &&& coherence_check_post(v, report.logic_checks@[1])
                &&& scoring_check_post(v, report.logic_checks@[2])
                &&& fact_checks_post(v, report.fact_checks@)
                &&& risks_post(v, report.risks@)
                &&& report.confidence <= 1000
            })),
    {
        let ghost results = context.previous_results@;
        let mut i: usize = 0;
        loop
            invariant_except_break
                0 <= i <= results.len(),
                synthesis_from(results, 0) == synthesis_from(results, i as int),
            invariant
                results == context.previous_results@,
            ensures
                synthesis_from(results, 0) is None,
            decreases results.len() - i,
        {
            if i >= context.previous_results.len() {
                break ;
            }
            match &context.previous_results[i] {
                AgentResult::Synthesis(iteration) => {
                    assert(synthesis_from(results, 0) == Some(*iteration));
                    let report = self.generate_basic_verification(iteration);
                    return Ok(AgentResult::Verification(report));
                },
                _ => {},
            }
            i = i + 1;
        }
        Err(AgentError::MissingInput)
    }
}


/// The fact-check status a model's tag denotes; unrecognized tags request
/// clarification.
pub open spec fn status_of_tag(t: Seq<u8>) -> FactCheckStatus {
    if t == ("supported").spec_bytes() {
        FactCheckStatus::Supported
    } else if t == ("partial").spec_bytes() {
        FactCheckStatus::Partial
    } else if t == ("unsupported").spec_bytes() {
        FactCheckStatus::Unsupported
    } else {
        FactCheckStatus::NeedClarification
    }
}

/// The risk severity a model's tag denotes; unrecognized tags read as
/// medium.
pub open spec fn severity_of_tag(t: Seq<u8>) -> RiskSeverity {
    if t == ("low").spec_bytes() {
        RiskSeverity::Low
    } else if t == ("high").spec_bytes() {
        RiskSeverity::High
    } else if t == ("critical").spec_bytes() {
        RiskSeverity::Critical
    } else {
        RiskSeverity::Medium
    }
}

impl VerifierAgent {
    /// Builds the report from the fields a model response yielded,
    /// applying the documented defaults: an absent passed flag reads as
    /// true, absent confidences as 0.7, and a risk of the highest tier
    /// always fails the report, whatever the response claimed.
    #[verifier::rlimit(60)]
    pub fn report_from_parsed(
        &self,
        logic: Vec<(Vec<u8>, Vec<u8>, Option<bool>, Vec<u8>)>,
        facts: Vec<(Vec<u8>, Vec<u8>, Vec<u8>, Option<u32>)>,
        risks: Vec<(Vec<u8>, Vec<u8>, Vec<u8>)>,
        passed: Option<bool>,
        confidence: Option<u32>,
    ) -> (r: crate::data::VerificationReport)
        ensures
            r.logic_checks@.len() == logic@.len(),
            forall|i: int|
                0 <= i < logic@.len() ==> {
                    let c = #[trigger] r.logic_checks@[i];
                    c.check_type@ == logic@[i].0@ && c.description@ == logic@[i].1@ && c.passed
                        == (match logic@[i].2 {
                        Some(p) => p,
                        None => true,
                    }) && c.message@ == logic@[i].3@
                },
            r.fact_checks@.len() == facts@.len(),
            forall|i: int|
                0 <= i < facts@.len() ==> {
                    let c = #[trigger] r.fact_checks@[i];
                    c.claim@ == facts@[i].0@ && c.status == status_of_tag(facts@[i].2@)
                        && c.confidence == crate::data::clamp_permille_or(facts@[i].3, 700)
                        && c.evidence@.len() == 1 && c.evidence@[0].snippet@ == facts@[i].1@
                },
            r.risks@.len() == risks@.len(),
            forall|i: int|
                0 <= i < risks@.len() ==> {
                    let c = #[trigger] r.risks@[i];
                    c.description@ == risks@[i].0@ && c.severity == severity_of_tag(risks@[i].1@)
                        && (c.mitigation matches Some(m) && m@ == risks@[i].2@)
                },
            r.passed == ((match passed {
                Some(p) => p,
                None => true,
            }) && !has_critical(rk_proj(r.risks@))),
            has_critical(rk_proj(r.risks@)) ==> !r.passed,
            r.confidence == crate::data::clamp_permille_or(confidence, 700),
            r.confidence <= 1000,
    {
        let mut logic_checks: Vec<LogicCheck> = Vec::new();
        let mut i: usize = 0;
        while i < logic.len()
            invariant
                i <= logic@.len(),
                logic_checks@.len() == i,
                forall|k: int|
                    0 <= k < i ==> {
                        let c = #[trigger] logic_checks@[k];
                        c.check_type@ == logic@[k].0@ && c.description@ == logic@[k].1@ && c.passed
                            == (match logic@[k].2 {
                            Some(p) => p,
                            None => true,
                        }) && c.message@ == logic@[k].3@
                    },
            decreases logic@.len() - i,
        {
            let item = &logic[i];
            logic_checks.push(
                LogicCheck {
                    check_type: item.0.clone(),
                    description: item.1.clone(),
                    passed: match item.2 {
                        Some(p) => p,
                        None => true,
                    },
                    message: item.3.clone(),
                },
            );
            i = i + 1;
        }
        let mut fact_checks: Vec<FactCheck> = Vec::new();
        let mut k: usize = 0;
        while k < facts.len()
            invariant
                k <= facts@.len(),
                fact_checks@.len() == k,
                forall|t: int|
                    0 <= t < k ==> {
                        let c = #[trigger] fact_checks@[t];
                        c.claim@ == facts@[t].0@ && c.status == status_of_tag(facts@[t].2@)
                            && c.confidence == crate::data::clamp_permille_or(facts@[t].3, 700)
                            && c.evidence@.len() == 1 && c.evidence@[0].snippet@ == facts@[t].1@
                    },
            decreases facts@.len() - k,
        {
            let item = &facts[k];
            let status: FactCheckStatus = if crate::text::bytes_eq(
                item.2.as_slice(),
                ("supported").as_bytes_vec().as_slice(),
            ) {
                FactCheckStatus::Supported
            } else if crate::text::bytes_eq(
                item.2.as_slice(),
                ("partial").as_bytes_vec().as_slice(),
            ) {
                FactCheckStatus::Partial
            } else if crate::text::bytes_eq(
                item.2.as_slice(),
                ("unsupported").as_bytes_vec().as_slice(),
            ) {
                FactCheckStatus::Unsupported
            } else {
                FactCheckStatus::NeedClarification
            };
            let conf: u32 = match item.3 {
                Some(v) => if v > 1000 {
                    1000
                } else {
                    v
                },
                None => 700,
            };
            let mut evidence: Vec<Evidence> = Vec::new();
            evidence.push(
                Evidence {
                    source_id: ("AI分析").as_bytes_vec(),
                    snippet: item.1.clone(),
                    relevance: conf,
                    url: None,
                },
            );
            fact_checks.push(
                FactCheck { claim: item.0.clone(), evidence, status, confidence: conf },
            );
            k = k + 1;
        }
        let mut built_risks: Vec<Risk> = Vec::new();
        let mut t: usize = 0;
        while t < risks.len()
            invariant
                t <= risks@.len(),
                built_risks@.len() == t,
                forall|m: int|
                    0 <= m < t ==> {
                        let c = #[trigger] built_risks@[m];
                        c.description@ == risks@[m].0@ && c.severity == severity_of_tag(
                            risks@[m].1@,
                        ) && (c.mitigation matches Some(mi) && mi@ == risks@[m].2@)
                    },
            decreases risks@.len() - t,
        {
            let item = &risks[t];
            let severity: RiskSeverity = if crate::text::bytes_eq(
                item.1.as_slice(),
                ("low").as_bytes_vec().as_slice(),
            ) {
                RiskSeverity::Low
            } else if crate::text::bytes_eq(item.1.as_slice(), ("high").as_bytes_vec().as_slice()) {
                RiskSeverity::High
            } else if crate::text::bytes_eq(
                item.1.as_slice(),
                ("critical").as_bytes_vec().as_slice(),
            ) {
                RiskSeverity::Critical
            } else {
                RiskSeverity::Medium
            };
            built_risks.push(
                Risk {
                    description: item.0.clone(),
                    severity,
                    mitigation: Some(item.2.clone()),
                },
            );
            t = t + 1;
        }
        let mut critical = false;
        let mut m: usize = 0;
        while m < built_risks.len()
            invariant
                m <= built_risks@.len(),
                critical == (exists|w: int|
                    0 <= w < m && (#[trigger] rk_proj(built_risks@)[w]).1 is Critical),
            decreases built_risks@.len() - m,
        {
            match built_risks[m].severity {
                RiskSeverity::Critical => {
                    assert(rk_proj(built_risks@)[m as int].1 is Critical);
                    critical = true;
                },
                _ => {},
            }
            m = m + 1;
        }
        let claimed: bool = match passed {
            Some(p) => p,
            None => true,
        };
        let overall_confidence: u32 = match confidence {
            Some(v) => if v > 1000 {
                1000
            } else {
                v
            },
            None => 700,
        };
        crate::data::VerificationReport {
            logic_checks,
            fact_checks,
            risks: built_risks,
            passed: claimed && !critical,
            confidence: overall_confidence,
        }
    }
}

proof fn lemma_contr_row_nonneg(deltas: Seq<Seq<u8>>, i: int, j: int)
    ensures
        contr_row(deltas, i, j) >= 0,
    decreases deltas.len() - j,
{
    if 0 <= j < deltas.len() {
        lemma_contr_row_nonneg(deltas, i, j + 1);
    }
}

proof fn lemma_contr_total_nonneg(deltas: Seq<Seq<u8>>, i: int)
    ensures
        contr_total(deltas, i) >= 0,
    decreases deltas.len() - i,
{
    if 0 <= i < deltas.len() {
        lemma_contr_row_nonneg(deltas, i, i + 1);
        lemma_contr_total_nonneg(deltas, i + 1);
    }
}

/// How many of the six opposed keyword pairs fire between two lowered
/// deltas.
fn pair_count6_exec(a: &[u8], b: &[u8]) -> (r: u32)
    ensures
        r as int == pair_count6(a@, b@),
        r <= 6,
{
    let mut r: u32 = 0;
    if (contains_bytes(a, ("增加").as_bytes_vec().as_slice()) && contains_bytes(
        b,
        ("减少").as_bytes_vec().as_slice(),
    )) || (contains_bytes(a, ("减少").as_bytes_vec().as_slice()) && contains_bytes(
        b,
        ("增加").as_bytes_vec().as_slice(),
    )) {
        r = r + 1;
    }
    if (contains_bytes(a, ("添加").as_bytes_vec().as_slice()) && contains_bytes(
        b,
        ("删除").as_bytes_vec().as_slice(),
    )) || (contains_bytes(a, ("删除").as_bytes_vec().as_slice()) && contains_bytes(
        b,
        ("添加").as_bytes_vec().as_slice(),
    )) {
        r = r + 1;
    }
    if (contains_bytes(a, ("简化").as_bytes_vec().as_slice()) && contains_bytes(
        b,
        ("复杂化").as_bytes_vec().as_slice(),
    )) || (contains_bytes(a, ("复杂化").as_bytes_vec().as_slice()) && contains_bytes(
        b,
        ("简化").as_bytes_vec().as_slice(),
    )) {
        r = r + 1;
    }
    if (contains_bytes(a, ("集中").as_bytes_vec().as_slice()) && contains_bytes(
        b,
        ("分散").as_bytes_vec().as_slice(),
    )) || (contains_bytes(a, ("分散").as_bytes_vec().as_slice()) && contains_bytes(
        b,
        ("集中").as_bytes_vec().as_slice(),
    )) {
        r = r + 1;
    }
    if (contains_bytes(a, ("自动化").as_bytes_vec().as_slice()) && contains_bytes(
        b,
        ("手工").as_bytes_vec().as_slice(),
    )) || (contains_bytes(a, ("手工").as_bytes_vec().as_slice()) && contains_bytes(
        b,
        ("自动化").as_bytes_vec().as_slice(),
    )) {
        r = r + 1;
    }
    if (contains_bytes(a, ("统一").as_bytes_vec().as_slice()) && contains_bytes(
        b,
        ("分离").as_bytes_vec().as_slice(),
    )) || (contains_bytes(a, ("分离").as_bytes_vec().as_slice()) && contains_bytes(
        b,
        ("统一").as_bytes_vec().as_slice(),
    )) {
        r = r + 1;
    }
    r
}

} // verus!
