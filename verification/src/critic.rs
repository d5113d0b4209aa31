//! The critic stage: a battery of independent keyword-pattern checks over
//! each delta, a global pairwise conflict pass, and severity-ordered
//! merging of everything found.

use vstd::prelude::*;
use vstd::string::StrSliceExecFns;
use vstd::string::StringSliceAdditionalSpecFns;

use crate::agents::{
    Agent, AgentCapability, AgentContext, AgentError, AgentResult, Criticism, CriticismCategory,
};
use crate::clarifier::has_key;
use crate::data::{answer_view, kv_views, StructuredIdea};
use crate::text::{
    contains_bytes, contains_seq, dec_bytes, dec_seq, lower_seq, matches_any, matches_any_exec,
    to_lower_bytes, views2,
};

verus! {

/// The analytical dimensions a criticism can fall under.
#[derive(Debug, Clone, Copy, PartialEq, Eq, Structural)]
pub enum CriticalDimension {
    Logic,
    Feasibility,
    Resource,
    Risk,
    Timeline,
    Stakeholder,
    Ethics,
    Market,
    Technical,
    Legal,
}

/// A criticism together with its dimension and the supporting material.
#[derive(Debug, Clone)]
pub struct DetailedCriticism {
    pub criticism: Criticism,
    pub dimension: CriticalDimension,
    pub evidence: Vec<Vec<u8>>,
    pub counter_arguments: Vec<Vec<u8>>,
    pub suggestions: Vec<Vec<u8>>,
    pub impact_analysis: Vec<u8>,
}

/// The spec-level content of a criticism list: index, category, message
/// and severity of each item.
pub open spec fn c_proj(c: Seq<Criticism>) -> Seq<(int, CriticismCategory, Seq<u8>, u32)> {
    Seq::new(c.len(), |i: int| (c[i].delta_index as int, c[i].category, c[i].message@, c[i].severity))
}

/// The spec-level content of a detailed criticism list.
pub open spec fn dc_proj(c: Seq<DetailedCriticism>) -> Seq<(int, CriticismCategory, Seq<u8>, u32)> {
    Seq::new(
        c.len(),
        |i: int|
            (
                c[i].criticism.delta_index as int,
                c[i].criticism.category,
                c[i].criticism.message@,
                c[i].criticism.severity,
            ),
    )
}

/// A delta's wording pulls against the stated target: one side of an
/// opposed keyword pair stands in the delta and the other in the target.
pub open spec fn conflicts_with_target(d: Seq<u8>, t: Seq<u8>) -> bool {
    ||| (contains_seq(d, ("增加").spec_bytes()) && contains_seq(t, ("减少").spec_bytes()))
    ||| (contains_seq(d, ("减少").spec_bytes()) && contains_seq(t, ("增加").spec_bytes()))
    ||| (contains_seq(d, ("扩大").spec_bytes()) && contains_seq(t, ("缩小").spec_bytes()))
    ||| (contains_seq(d, ("缩小").spec_bytes()) && contains_seq(t, ("扩大").spec_bytes()))
    ||| (contains_seq(d, ("快速").spec_bytes()) && contains_seq(t, ("缓慢").spec_bytes()))
    ||| (contains_seq(d, ("缓慢").spec_bytes()) && contains_seq(t, ("快速").spec_bytes()))
    ||| (contains_seq(d, ("简化").spec_bytes()) && contains_seq(t, ("复杂").spec_bytes()))
    ||| (contains_seq(d, ("复杂").spec_bytes()) && contains_seq(t, ("简化").spec_bytes()))
    ||| (contains_seq(d, ("集中").spec_bytes()) && contains_seq(t, ("分散").spec_bytes()))
    ||| (contains_seq(d, ("分散").spec_bytes()) && contains_seq(t, ("集中").spec_bytes()))
    ||| (contains_seq(d, ("自动").spec_bytes()) && contains_seq(t, ("手动").spec_bytes()))
    ||| (contains_seq(d, ("手动").spec_bytes()) && contains_seq(t, ("自动").spec_bytes()))
}

/// The delta promises two things that pull against each other.
pub open spec fn internal_contradiction(d: Seq<u8>) -> bool {
    ||| (contains_seq(d, ("提高效率").spec_bytes()) && contains_seq(d, ("增加人工").spec_bytes()))
    ||| (contains_seq(d, ("降低成本").spec_bytes()) && contains_seq(d, ("提升质量").spec_bytes()))
    ||| (contains_seq(d, ("快速实施").spec_bytes()) && contains_seq(d, ("深入调研").spec_bytes()))
}

/// Markers of technically infeasible promises.
pub open spec fn unfeasible_kw() -> Seq<Seq<u8>> {
    seq![
        ("完全自动化").spec_bytes(),
        ("100%准确").spec_bytes(),
        ("零延迟").spec_bytes(),
        ("无限扩展").spec_bytes(),
        ("完美预测").spec_bytes(),
        ("绝对安全").spec_bytes(),
        ("永不失败").spec_bytes(),
    ]
}

/// Markers of heavy resource demand.
pub open spec fn excessive_kw() -> Seq<Seq<u8>> {
    seq![
        ("大规模投资").spec_bytes(),
        ("全面升级").spec_bytes(),
        ("重构").spec_bytes(),
        ("颠覆性").spec_bytes(),
        ("平台化").spec_bytes(),
        ("生态").spec_bytes(),
        ("全球化").spec_bytes(),
    ]
}

/// Markers of high technical risk.
pub open spec fn tech_risk_kw() -> Seq<Seq<u8>> {
    seq![
        ("ai").spec_bytes(),
        ("机器学习").spec_bytes(),
        ("区块链").spec_bytes(),
        ("量子").spec_bytes(),
        ("新技术").spec_bytes(),
        ("未验证").spec_bytes(),
        ("实验性").spec_bytes(),
        ("前沿").spec_bytes(),
    ]
}

/// Markers of market risk.
pub open spec fn market_risk_kw() -> Seq<Seq<u8>> {
    seq![
        ("颠覆").spec_bytes(),
        ("革命性").spec_bytes(),
        ("全新模式").spec_bytes(),
        ("创造需求").spec_bytes(),
        ("教育市场").spec_bytes(),
        ("改变习惯").spec_bytes(),
    ]
}

/// Markers of a rushed schedule.
pub open spec fn quick_kw() -> Seq<Seq<u8>> {
    seq![
        ("快速").spec_bytes(),
        ("立即").spec_bytes(),
        ("即刻").spec_bytes(),
        ("短期内").spec_bytes(),
    ]
}

/// Markers of a sweeping undertaking.
pub open spec fn complex_kw() -> Seq<Seq<u8>> {
    seq![
        ("全面").spec_bytes(),
        ("系统性").spec_bytes(),
        ("重构").spec_bytes(),
        ("转型").spec_bytes(),
    ]
}

/// Markers of disruption to existing workflows.
pub open spec fn disruptive_kw() -> Seq<Seq<u8>> {
    seq![
        ("替代").spec_bytes(),
        ("自动化").spec_bytes(),
        ("简化").spec_bytes(),
        ("集中化").spec_bytes(),
        ("标准化").spec_bytes(),
    ]
}

/// Vague improvement verbs.
pub open spec fn vague_kw() -> Seq<Seq<u8>> {
    seq![
        ("提升").spec_bytes(),
        ("优化").spec_bytes(),
        ("改进").spec_bytes(),
        ("增强").spec_bytes(),
        ("升级").spec_bytes(),
    ]
}

/// Concrete technical vocabulary.
pub open spec fn technical_kw() -> Seq<Seq<u8>> {
    seq![
        ("架构").spec_bytes(),
        ("算法").spec_bytes(),
        ("接口").spec_bytes(),
        ("协议").spec_bytes(),
        ("框架").spec_bytes(),
        ("平台").spec_bytes(),
    ]
}

/// Idealistic language that ignores market reality.
pub open spec fn idealistic_kw() -> Seq<Seq<u8>> {
    seq![
        ("完美").spec_bytes(),
        ("理想").spec_bytes(),
        ("最优").spec_bytes(),
        ("最佳").spec_bytes(),
        ("无缺陷").spec_bytes(),
    ]
}

/// Markers of an organization-wide undertaking.
pub open spec fn large_scale_kw() -> Seq<Seq<u8>> {
    seq![("大规模").spec_bytes(), ("全面").spec_bytes(), ("系统性").spec_bytes()]
}

/// Two deltas pull in opposite directions: one holds one side of an
/// opposed keyword pair and the other holds the other side.
pub open spec fn deltas_conflict(a: Seq<u8>, b: Seq<u8>) -> bool {
    ||| (contains_seq(a, ("集中").spec_bytes()) && contains_seq(b, ("分散").spec_bytes()))
    ||| (contains_seq(a, ("分散").spec_bytes()) && contains_seq(b, ("集中").spec_bytes()))
    ||| (contains_seq(a, ("扩大").spec_bytes()) && contains_seq(b, ("缩小").spec_bytes()))
    ||| (contains_seq(a, ("缩小").spec_bytes()) && contains_seq(b, ("扩大").spec_bytes()))
    ||| (contains_seq(a, ("增加").spec_bytes()) && contains_seq(b, ("减少").spec_bytes()))
    ||| (contains_seq(a, ("减少").spec_bytes()) && contains_seq(b, ("增加").spec_bytes()))
    ||| (contains_seq(a, ("自动化").spec_bytes()) && contains_seq(b, ("人工").spec_bytes()))
    ||| (contains_seq(a, ("人工").spec_bytes()) && contains_seq(b, ("自动化").spec_bytes()))
    ||| (contains_seq(a, ("复杂").spec_bytes()) && contains_seq(b, ("简化").spec_bytes()))
    ||| (contains_seq(a, ("简化").spec_bytes()) && contains_seq(b, ("复杂").spec_bytes()))
}

/// What the checks know of the structured idea: whether one is present,
/// its lowered target, its stakeholder count, and whether it carries a
/// resource constraint.
pub open spec fn env_of_si(s: StructuredIdea) -> (bool, Option<Seq<u8>>, int, bool) {
    (
        true,
        match answer_view(s.target) {
            Some(t) => Some(lower_seq(t)),
            None => None,
        },
        s.stakeholders@.len() as int,
        has_key(kv_views(s.constraints@), ("resource").spec_bytes()),
    )
}

/// The empty environment used when no structured idea is at hand.
pub open spec fn no_idea_env() -> (bool, Option<Seq<u8>>, int, bool) {
    (false, None, 0, false)
}

/// The environment an optional structured idea yields.
pub open spec fn idea_env(si: Option<&StructuredIdea>) -> (bool, Option<Seq<u8>>, int, bool) {
    match si {
        Some(s) => env_of_si(*s),
        None => no_idea_env(),
    }
}

/// The target-conflict finding, over the lowered delta.
pub open spec fn t_target(idx: int, d: Seq<u8>, env: (bool, Option<Seq<u8>>, int, bool)) -> Seq<
    (int, CriticismCategory, Seq<u8>, u32),
> {
    if env.1 is Some && conflicts_with_target(d, env.1->0) {
        seq![
            (idx, CriticismCategory::LogicFlaw, ("该创新建议与既定目标存在逻辑冲突").spec_bytes(), 800u32),
        ]
    } else {
        Seq::empty()
    }
}

/// The internal-contradiction finding.
pub open spec fn t_internal(idx: int, d: Seq<u8>) -> Seq<(int, CriticismCategory, Seq<u8>, u32)> {
    if internal_contradiction(d) {
        seq![(idx, CriticismCategory::LogicFlaw, ("创新建议内部存在逻辑矛盾").spec_bytes(), 700u32)]
    } else {
        Seq::empty()
    }
}

/// The technical-infeasibility finding.
pub open spec fn t_unfeasible(idx: int, d: Seq<u8>) -> Seq<(int, CriticismCategory, Seq<u8>, u32)> {
    if matches_any(d, unfeasible_kw()) {
        seq![
            (
                idx,
                CriticismCategory::FeasibilityIssue,
                ("技术实现存在重大可行性问题").spec_bytes(),
                900u32,
            ),
        ]
    } else {
        Seq::empty()
    }
}

/// The organizational-capacity finding.
pub open spec fn t_org(idx: int, d: Seq<u8>, env: (bool, Option<Seq<u8>>, int, bool)) -> Seq<
    (int, CriticismCategory, Seq<u8>, u32),
> {
    if env.0 && matches_any(d, large_scale_kw()) && env.2 < 3 {
        seq![
            (idx, CriticismCategory::FeasibilityIssue, ("超出组织执行能力范围").spec_bytes(), 700u32),
        ]
    } else {
        Seq::empty()
    }
}

/// The resource-demand finding; a stated resource constraint raises its
/// severity.
pub open spec fn t_resource(idx: int, d: Seq<u8>, env: (bool, Option<Seq<u8>>, int, bool)) -> Seq<
    (int, CriticismCategory, Seq<u8>, u32),
> {
    if matches_any(d, excessive_kw()) {
        seq![
            (
                idx,
                CriticismCategory::ResourceConstraint,
                ("资源需求可能超出承受能力").spec_bytes(),
                if env.0 && env.3 {
                    800u32
                } else {
                    600u32
                },
            ),
        ]
    } else {
        Seq::empty()
    }
}

/// The technical-risk finding.
pub open spec fn t_techrisk(idx: int, d: Seq<u8>) -> Seq<(int, CriticismCategory, Seq<u8>, u32)> {
    if matches_any(d, tech_risk_kw()) {
        seq![(idx, CriticismCategory::RiskConcern, ("存在显著技术风险").spec_bytes(), 700u32)]
    } else {
        Seq::empty()
    }
}

/// The market-risk finding.
pub open spec fn t_marketrisk(idx: int, d: Seq<u8>) -> Seq<(int, CriticismCategory, Seq<u8>, u32)> {
    if matches_any(d, market_risk_kw()) {
        seq![(idx, CriticismCategory::RiskConcern, ("市场接受度存在不确定性").spec_bytes(), 600u32)]
    } else {
        Seq::empty()
    }
}

/// The unrealistic-timeline finding.
pub open spec fn t_timeline(idx: int, d: Seq<u8>) -> Seq<(int, CriticismCategory, Seq<u8>, u32)> {
    if matches_any(d, quick_kw()) && matches_any(d, complex_kw()) {
        seq![(idx, CriticismCategory::FeasibilityIssue, ("时间线可能过于乐观").spec_bytes(), 500u32)]
    } else {
        Seq::empty()
    }
}

/// The stakeholder-impact finding.
pub open spec fn t_stakeholder(idx: int, d: Seq<u8>, env: (bool, Option<Seq<u8>>, int, bool)) -> Seq<
    (int, CriticismCategory, Seq<u8>, u32),
> {
    if env.0 && matches_any(d, disruptive_kw()) && env.2 > 0 {
        seq![
            (
                idx,
                CriticismCategory::StakeholderConcern,
                ("可能对关键利益相关者产生负面影响").spec_bytes(),
                600u32,
            ),
        ]
    } else {
        Seq::empty()
    }
}

/// The missing-technical-detail finding.
pub open spec fn t_implgap(idx: int, d: Seq<u8>) -> Seq<(int, CriticismCategory, Seq<u8>, u32)> {
    if matches_any(d, vague_kw()) && !matches_any(d, technical_kw()) {
        seq![
            (
                idx,
                CriticismCategory::ImplementationGap,
                ("缺乏具体的技术实现路径").spec_bytes(),
                400u32,
            ),
        ]
    } else {
        Seq::empty()
    }
}

/// The idealistic-language finding.
pub open spec fn t_idealistic(idx: int, d: Seq<u8>) -> Seq<(int, CriticismCategory, Seq<u8>, u32)> {
    if matches_any(d, idealistic_kw()) {
        seq![
            (idx, CriticismCategory::MarketMismatch, ("可能未充分考虑市场现实").spec_bytes(), 500u32),
        ]
    } else {
        Seq::empty()
    }
}

/// The items the per-delta battery emits for one delta, in battery order:
/// logic (target conflict, internal contradiction), feasibility
/// (technical, organizational), resources, risks (technical, market),
/// timeline, stakeholders, implementation detail, market reality.
pub open spec fn delta_crit_items(idx: int, delta: Seq<u8>, env: (bool, Option<Seq<u8>>, int, bool)) -> Seq<
    (int, CriticismCategory, Seq<u8>, u32),
> {
    let d = lower_seq(delta);
    t_target(idx, d, env) + t_internal(idx, d) + t_unfeasible(idx, d) + t_org(idx, d, env)
        + t_resource(idx, d, env) + t_techrisk(idx, d) + t_marketrisk(idx, d) + t_timeline(idx, d)
        + t_stakeholder(idx, d, env) + t_implgap(idx, d) + t_idealistic(idx, d)
}

/// The per-delta battery items of every delta, in delta order.
pub open spec fn per_delta_items(deltas: Seq<Seq<u8>>, env: (bool, Option<Seq<u8>>, int, bool)) -> Seq<
    (int, CriticismCategory, Seq<u8>, u32),
>
    decreases deltas.len(),
{
    if deltas.len() == 0 {
        Seq::empty()
    } else {
        per_delta_items(deltas.drop_last(), env) + delta_crit_items(
            deltas.len() - 1,
            deltas.last(),
            env,
        )
    }
}

/// The message of a global pairwise conflict finding.
pub open spec fn pair_conflict_msg(i: int, j: int) -> Seq<u8> {
    ("建议 ").spec_bytes() + dec_seq((i + 1) as nat) + (" 与建议 ").spec_bytes() + dec_seq(
        (j + 1) as nat,
    ) + (" 存在逻辑冲突").spec_bytes()
}

/// The global-pass items for pairs `(i, j)` with `j` running to the end.
pub open spec fn global_row(deltas: Seq<Seq<u8>>, i: int, j: int) -> Seq<
    (int, CriticismCategory, Seq<u8>, u32),
>
    decreases deltas.len() - j,
{
    if j < 0 || j >= deltas.len() {
        Seq::empty()
    } else {
        (if deltas_conflict(lower_seq(deltas[i]), lower_seq(deltas[j])) {
            seq![(i, CriticismCategory::LogicFlaw, pair_conflict_msg(i, j), 800u32)]
        } else {
            Seq::empty()
        }) + global_row(deltas, i, j + 1)
    }
}

/// The global-pass items for every unordered pair from `i` on.
pub open spec fn global_items_from(deltas: Seq<Seq<u8>>, i: int) -> Seq<
    (int, CriticismCategory, Seq<u8>, u32),
>
    decreases deltas.len() - i,
{
    if i < 0 || i >= deltas.len() {
        Seq::empty()
    } else {
        global_row(deltas, i, i + 1) + global_items_from(deltas, i + 1)
    }
}

/// Everything the basic analysis finds: the per-delta battery items
/// followed by the global pairwise conflict items.
pub open spec fn all_crit_items(deltas: Seq<Seq<u8>>, env: (bool, Option<Seq<u8>>, int, bool)) -> Seq<
    (int, CriticismCategory, Seq<u8>, u32),
> {
    per_delta_items(deltas, env) + global_items_from(deltas, 0)
}

/// The items carrying exactly severity `sev`, in their original order.
pub open spec fn crit_filter(s: Seq<(int, CriticismCategory, Seq<u8>, u32)>, sev: u32) -> Seq<
    (int, CriticismCategory, Seq<u8>, u32),
>
    decreases s.len(),
{
    if s.len() == 0 {
        Seq::empty()
    } else {
        let rest = crit_filter(s.drop_last(), sev);
        if s.last().3 == sev {
            rest.push(s.last())
        } else {
            rest
        }
    }
}

/// The findings ordered by descending severity. Every severity the basic
/// battery emits lies in {900, 800, 700, 600, 500, 400}, so stable
/// bucketing by those values is exactly a stable descending sort.
pub open spec fn sorted_crit(s: Seq<(int, CriticismCategory, Seq<u8>, u32)>) -> Seq<
    (int, CriticismCategory, Seq<u8>, u32),
> {
    crit_filter(s, 900) + crit_filter(s, 800) + crit_filter(s, 700) + crit_filter(s, 600)
        + crit_filter(s, 500) + crit_filter(s, 400)
}

/// The deltas the critic works on: the first innovation result in the
/// round's preceding results.
pub open spec fn innovation_from(results: Seq<AgentResult>, i: int) -> Option<Seq<Seq<u8>>>
    decreases results.len() - i,
{
    if i < 0 || i >= results.len() {
        None
    } else {
        match results[i] {
            AgentResult::Innovation(ds) => Some(views2(ds@)),
            _ => innovation_from(results, i + 1),
        }
    }
}

/// The sample deltas analyzed when no innovation result is at hand.
pub open spec fn sample_deltas() -> Seq<Seq<u8>> {
    seq![
        ("[技术创新] 引入AI自动化技术提升效率").spec_bytes(),
        ("[商业模式] 采用订阅制商业模式").spec_bytes(),
        ("[用户体验] 设计个性化用户界面").spec_bytes(),
    ]
}

/// The deltas a critic round analyzes, from the context.
pub open spec fn critic_input_deltas(ctx: AgentContext) -> Seq<Seq<u8>> {
    match innovation_from(ctx.previous_results@, 0) {
        Some(d) => d,
        None => sample_deltas(),
    }
}

/// The environment a critic round analyzes under, from the context.
pub open spec fn critic_input_env(ctx: AgentContext) -> (bool, Option<Seq<u8>>, int, bool) {
    match ctx.clarification {
        Some(c) => match c.structured_idea {
            Some(si) => env_of_si(si),
            None => no_idea_env(),
        },
        None => no_idea_env(),
    }
}

/// The critic stage.
pub struct CriticAgent {}

impl CriticAgent {
    /// A fresh critic.
    pub fn new() -> (r: Self) {
        CriticAgent {  }
    }

    /// The delta's wording pulls against the target's.
    fn is_delta_conflicting_with_target(&self, delta: &[u8], target: &[u8]) -> (r: bool)
        ensures
            r == conflicts_with_target(lower_seq(delta@), lower_seq(target@)),
    {
        let d = to_lower_bytes(delta);
        let t = to_lower_bytes(target);
        (contains_bytes(d.as_slice(), ("增加").as_bytes_vec().as_slice()) && contains_bytes(
            t.as_slice(),
            ("减少").as_bytes_vec().as_slice(),
        )) || (contains_bytes(d.as_slice(), ("减少").as_bytes_vec().as_slice()) && contains_bytes(
            t.as_slice(),
            ("增加").as_bytes_vec().as_slice(),
        )) || (contains_bytes(d.as_slice(), ("扩大").as_bytes_vec().as_slice()) && contains_bytes(
            t.as_slice(),
            ("缩小").as_bytes_vec().as_slice(),
        )) || (contains_bytes(d.as_slice(), ("缩小").as_bytes_vec().as_slice()) && contains_bytes(
            t.as_slice(),
            ("扩大").as_bytes_vec().as_slice(),
        )) || (contains_bytes(d.as_slice(), ("快速").as_bytes_vec().as_slice()) && contains_bytes(
            t.as_slice(),
            ("缓慢").as_bytes_vec().as_slice(),
        )) || (contains_bytes(d.as_slice(), ("缓慢").as_bytes_vec().as_slice()) && contains_bytes(
            t.as_slice(),
            ("快速").as_bytes_vec().as_slice(),
        )) || (contains_bytes(d.as_slice(), ("简化").as_bytes_vec().as_slice()) && contains_bytes(
            t.as_slice(),
            ("复杂").as_bytes_vec().as_slice(),
        )) || (contains_bytes(d.as_slice(), ("复杂").as_bytes_vec().as_slice()) && contains_bytes(
            t.as_slice(),
            ("简化").as_bytes_vec().as_slice(),
        )) || (contains_bytes(d.as_slice(), ("集中").as_bytes_vec().as_slice()) && contains_bytes(
            t.as_slice(),
            ("分散").as_bytes_vec().as_slice(),
        )) || (contains_bytes(d.as_slice(), ("分散").as_bytes_vec().as_slice()) && contains_bytes(
            t.as_slice(),
            ("集中").as_bytes_vec().as_slice(),
        )) || (contains_bytes(d.as_slice(), ("自动").as_bytes_vec().as_slice()) && contains_bytes(
            t.as_slice(),
            ("手动").as_bytes_vec().as_slice(),
        )) || (contains_bytes(d.as_slice(), ("手动").as_bytes_vec().as_slice()) && contains_bytes(
            t.as_slice(),
            ("自动").as_bytes_vec().as_slice(),
        ))
    }

    /// The delta promises two things that pull against each other.
    fn has_internal_contradiction(&self, delta_lower: &[u8]) -> (r: bool)
        ensures
            r == internal_contradiction(delta_lower@),
    {
        (contains_bytes(delta_lower, ("提高效率").as_bytes_vec().as_slice()) && contains_bytes(
            delta_lower,
            ("增加人工").as_bytes_vec().as_slice(),
        )) || (contains_bytes(delta_lower, ("降低成本").as_bytes_vec().as_slice())
            && contains_bytes(delta_lower, ("提升质量").as_bytes_vec().as_slice()))
            || (contains_bytes(delta_lower, ("快速实施").as_bytes_vec().as_slice())
            && contains_bytes(delta_lower, ("深入调研").as_bytes_vec().as_slice()))
    }

    /// Two deltas pull in opposite directions.
    pub fn are_deltas_conflicting(&self, delta1: &[u8], delta2: &[u8]) -> (r: bool)
        ensures
            r == deltas_conflict(lower_seq(delta1@), lower_seq(delta2@)),
    {
        let a = to_lower_bytes(delta1);
        let b = to_lower_bytes(delta2);
        (contains_bytes(a.as_slice(), ("集中").as_bytes_vec().as_slice()) && contains_bytes(
            b.as_slice(),
            ("分散").as_bytes_vec().as_slice(),
        )) || (contains_bytes(a.as_slice(), ("分散").as_bytes_vec().as_slice()) && contains_bytes(
            b.as_slice(),
            ("集中").as_bytes_vec().as_slice(),
        )) || (contains_bytes(a.as_slice(), ("扩大").as_bytes_vec().as_slice()) && contains_bytes(
            b.as_slice(),
            ("缩小").as_bytes_vec().as_slice(),
        )) || (contains_bytes(a.as_slice(), ("缩小").as_bytes_vec().as_slice()) && contains_bytes(
            b.as_slice(),
            ("扩大").as_bytes_vec().as_slice(),
        )) || (contains_bytes(a.as_slice(), ("增加").as_bytes_vec().as_slice()) && contains_bytes(
            b.as_slice(),
            ("减少").as_bytes_vec().as_slice(),
        )) || (contains_bytes(a.as_slice(), ("减少").as_bytes_vec().as_slice()) && contains_bytes(
            b.as_slice(),
            ("增加").as_bytes_vec().as_slice(),
        )) || (contains_bytes(a.as_slice(), ("自动化").as_bytes_vec().as_slice())
            && contains_bytes(b.as_slice(), ("人工").as_bytes_vec().as_slice())) || (
        contains_bytes(a.as_slice(), ("人工").as_bytes_vec().as_slice()) && contains_bytes(
            b.as_slice(),
            ("自动化").as_bytes_vec().as_slice(),
        )) || (contains_bytes(a.as_slice(), ("复杂").as_bytes_vec().as_slice()) && contains_bytes(
            b.as_slice(),
            ("简化").as_bytes_vec().as_slice(),
        )) || (contains_bytes(a.as_slice(), ("简化").as_bytes_vec().as_slice()) && contains_bytes(
            b.as_slice(),
            ("复杂").as_bytes_vec().as_slice(),
        ))
    }

    /// Some pair of deltas conflicts.
    pub fn deltas_have_conflicts(&self, deltas: &Vec<Vec<u8>>) -> (r: bool)
        ensures
            r == (exists|i: int, j: int|
                0 <= i < j < deltas@.len() && deltas_conflict(
                    lower_seq(views2(deltas@)[i]),
                    lower_seq(views2(deltas@)[j]),
                )),
    {
        let mut i: usize = 0;
        while i < deltas.len()
            invariant
                i <= deltas@.len(),
                forall|a: int, b: int|
                    0 <= a < i && a < b < deltas@.len() ==> !deltas_conflict(
                        lower_seq(views2(deltas@)[a]),
                        lower_seq(views2(deltas@)[b]),
                    ),
            decreases deltas@.len() - i,
        {
            let mut j: usize = i + 1;
            while j < deltas.len()
                invariant
                    i < j <= deltas@.len() || (j == i + 1),
                    i < deltas@.len(),
                    forall|a: int, b: int|
                        0 <= a < i && a < b < deltas@.len() ==> !deltas_conflict(
                            lower_seq(views2(deltas@)[a]),
                            lower_seq(views2(deltas@)[b]),
                        ),
                    forall|b: int|
                        i < b < j ==> !deltas_conflict(
                            lower_seq(views2(deltas@)[i as int]),
                            lower_seq(views2(deltas@)[b]),
                        ),
                decreases deltas@.len() - j,
            {
                if self.are_deltas_conflicting(deltas[i].as_slice(), deltas[j].as_slice()) {
                    assert(deltas_conflict(
                        lower_seq(views2(deltas@)[i as int]),
                        lower_seq(views2(deltas@)[j as int]),
                    ));
                    return true;
                }
                j = j + 1;
            }
            i = i + 1;
        }
        false
    }
}

/// How many findings carry severity at least `t`.
pub open spec fn count_sev_ge(s: Seq<(int, CriticismCategory, Seq<u8>, u32)>, t: u32) -> nat
    decreases s.len(),
{
    if s.len() == 0 {
        0
    } else {
        count_sev_ge(s.drop_last(), t) + (if s.last().3 >= t {
            1nat
        } else {
            0nat
        })
    }
}

/// The severity of the `k`-th sorting bucket, descending.
pub open spec fn sev_of_rank(k: int) -> u32 {
    if k == 0 {
        900
    } else if k == 1 {
        800
    } else if k == 2 {
        700
    } else if k == 3 {
        600
    } else if k == 4 {
        500
    } else {
        400
    }
}

/// The first `k` severity buckets concatenated.
pub open spec fn buckets_upto(s: Seq<(int, CriticismCategory, Seq<u8>, u32)>, k: int) -> Seq<
    (int, CriticismCategory, Seq<u8>, u32),
>
    decreases k,
{
    if k <= 0 {
        Seq::empty()
    } else {
        buckets_upto(s, k - 1) + crit_filter(s, sev_of_rank(k - 1))
    }
}

impl DetailedCriticism {
    /// A copy whose criticism content equals the original's.
    pub fn duplicate(&self) -> (r: DetailedCriticism)
        ensures
            r.criticism.delta_index == self.criticism.delta_index,
            r.criticism.category == self.criticism.category,
            r.criticism.message@ == self.criticism.message@,
            r.criticism.severity == self.criticism.severity,
    {
        DetailedCriticism {
            criticism: self.criticism.duplicate(),
            dimension: self.dimension,
            evidence: crate::data::copy_texts(&self.evidence),
            counter_arguments: crate::data::copy_texts(&self.counter_arguments),
            suggestions: crate::data::copy_texts(&self.suggestions),
            impact_analysis: self.impact_analysis.clone(),
        }
    }
}

impl CriticAgent {
    /// Logic checks for one delta: conflict with the stated target, and
    /// internal contradiction.
    fn check_logic_consistency(
        &self,
        index: usize,
        delta: &[u8],
        structured_idea: Option<&StructuredIdea>,
    ) -> (r: Vec<DetailedCriticism>)
        ensures
            dc_proj(r@) == t_target(index as int, lower_seq(delta@), idea_env(structured_idea))
                + t_internal(index as int, lower_seq(delta@)),
    {
        let mut r: Vec<DetailedCriticism> = Vec::new();
        match structured_idea {
            Some(idea) => {
                match &idea.target {
                    Some(target) => {
                        if self.is_delta_conflicting_with_target(delta, target.as_slice()) {
                            let mut evidence: Vec<Vec<u8>> = Vec::new();
                            let mut ev0 = ("既定目标：").as_bytes_vec();
                            ev0.extend_from_slice(target.as_slice());
                            evidence.push(ev0);
                            let mut ev1 = ("创新建议：").as_bytes_vec();
                            ev1.extend_from_slice(delta);
                            evidence.push(ev1);
                            let mut counter_arguments: Vec<Vec<u8>> = Vec::new();
                            counter_arguments.push(("可能存在隐含的协同效应").as_bytes_vec());
                            counter_arguments.push(("目标可能需要重新定义范围").as_bytes_vec());
                            let mut suggestions: Vec<Vec<u8>> = Vec::new();
                            suggestions.push(("重新评估目标与创新的关系").as_bytes_vec());
                            suggestions.push(("调整创新方向以符合核心目标").as_bytes_vec());
                            r.push(
                                DetailedCriticism {
                                    criticism: Criticism {
                                        delta_index: index,
                                        category: CriticismCategory::LogicFlaw,
                                        message: ("该创新建议与既定目标存在逻辑冲突").as_bytes_vec(),
                                        severity: 800,
                                    },
                                    dimension: CriticalDimension::Logic,
                                    evidence,
                                    counter_arguments,
                                    suggestions,
                                    impact_analysis: (
                                    "目标与创新的不一致可能导致资源分散和执行混乱").as_bytes_vec(),
                                },
                            );
                        }
                    },
                    None => {},
                }
            },
            None => {},
        }
        assert(dc_proj(r@) =~= t_target(index as int, lower_seq(delta@), idea_env(structured_idea)));
        let ghost before = dc_proj(r@);
        let lower = to_lower_bytes(delta);
        if self.has_internal_contradiction(lower.as_slice()) {
            let mut evidence: Vec<Vec<u8>> = Vec::new();
            let mut ev0 = ("矛盾表述：").as_bytes_vec();
            ev0.extend_from_slice(delta);
            evidence.push(ev0);
            let mut counter_arguments: Vec<Vec<u8>> = Vec::new();
            counter_arguments.push(("可能是表述不够清晰，而非逻辑错误").as_bytes_vec());
            let mut suggestions: Vec<Vec<u8>> = Vec::new();
            suggestions.push(("澄清表述，消除歧义").as_bytes_vec());
            suggestions.push(("分解复杂建议为多个简单步骤").as_bytes_vec());
            r.push(
                DetailedCriticism {
                    criticism: Criticism {
                        delta_index: index,
                        category: CriticismCategory::LogicFlaw,
                        message: ("创新建议内部存在逻辑矛盾").as_bytes_vec(),
                        severity: 700,
                    },
                    dimension: CriticalDimension::Logic,
                    evidence,
                    counter_arguments,
                    suggestions,
                    impact_analysis: ("逻辑矛盾会导致执行时的决策困难和方向不明").as_bytes_vec(),
                },
            );
        }
        assert(dc_proj(r@) =~= before + t_internal(index as int, lower_seq(delta@)));
        r
    }

    /// Feasibility checks: technically infeasible promises, and
    /// undertakings beyond the organization's capacity.
    fn check_feasibility(
        &self,
        index: usize,
        delta: &[u8],
        structured_idea: Option<&StructuredIdea>,
    ) -> (r: Vec<DetailedCriticism>)
        ensures
            dc_proj(r@) == t_unfeasible(index as int, lower_seq(delta@)) + t_org(
                index as int,
                lower_seq(delta@),
                idea_env(structured_idea),
            ),
    {
        let mut r: Vec<DetailedCriticism> = Vec::new();
        let lower = to_lower_bytes(delta);
        if matches_any_exec(lower.as_slice(), &unfeasible_kw_exec()) {
            let mut evidence: Vec<Vec<u8>> = Vec::new();
            evidence.push(("涉及尚未成熟的技术").as_bytes_vec());
            evidence.push(("实施复杂度超出常规项目范畴").as_bytes_vec());
            let mut counter_arguments: Vec<Vec<u8>> = Vec::new();
            counter_arguments.push(("技术发展迅速，可能性在增加").as_bytes_vec());
            counter_arguments.push(("可以通过分阶段实施降低风险").as_bytes_vec());
            let mut suggestions: Vec<Vec<u8>> = Vec::new();
            suggestions.push(("降低技术复杂度要求").as_bytes_vec());
            suggestions.push(("寻找替代技术方案").as_bytes_vec());
            suggestions.push(("建立技术预研阶段").as_bytes_vec());
            r.push(
                DetailedCriticism {
                    criticism: Criticism {
                        delta_index: index,
                        category: CriticismCategory::FeasibilityIssue,
                        message: ("技术实现存在重大可行性问题").as_bytes_vec(),
                        severity: 900,
                    },
                    dimension: CriticalDimension::Feasibility,
                    evidence,
                    counter_arguments,
                    suggestions,
                    impact_analysis: ("技术不可行将导致项目失败和资源浪费").as_bytes_vec(),
                },
            );
        }
        assert(dc_proj(r@) =~= t_unfeasible(index as int, lower_seq(delta@)));
        let ghost before = dc_proj(r@);
        match structured_idea {
            Some(idea) => {
                let large = matches_any_exec(lower.as_slice(), &large_scale_kw_exec());
                if large && idea.stakeholders.len() < 3 {
                    let mut evidence: Vec<Vec<u8>> = Vec::new();
                    let mut ev0 = ("当前团队规模：").as_bytes_vec();
                    ev0.append(&mut dec_bytes(idea.stakeholders.len() as u64));
                    ev0.extend_from_slice((" 人").as_bytes_vec().as_slice());
                    evidence.push(ev0);
                    evidence.push(("建议需要大规模协调").as_bytes_vec());
                    let mut counter_arguments: Vec<Vec<u8>> = Vec::new();
                    counter_arguments.push(("可以通过外部合作解决").as_bytes_vec());
                    counter_arguments.push(("团队能力可以通过培训提升").as_bytes_vec());
                    let mut suggestions: Vec<Vec<u8>> = Vec::new();
                    suggestions.push(("分解为更小的执行单元").as_bytes_vec());
                    suggestions.push(("寻求外部合作伙伴").as_bytes_vec());
                    suggestions.push(("制定能力建设计划").as_bytes_vec());
                    r.push(
                        DetailedCriticism {
                            criticism: Criticism {
                                delta_index: index,
                                category: CriticismCategory::FeasibilityIssue,
                                message: ("超出组织执行能力范围").as_bytes_vec(),
                                severity: 700,
                            },
                            dimension: CriticalDimension::Feasibility,
                            evidence,
                            counter_arguments,
                            suggestions,
                            impact_analysis: ("能力不匹配将导致执行质量下降和时间延误").as_bytes_vec(),
                        },
                    );
                }
            },
            None => {},
        }
        assert(dc_proj(r@) =~= before + t_org(
            index as int,
            lower_seq(delta@),
            idea_env(structured_idea),
        ));
        r
    }

    /// Resource check: heavy resource demand, weighed against a stated
    /// resource constraint.
    fn check_resource_requirements(
        &self,
        index: usize,
        delta: &[u8],
        structured_idea: Option<&StructuredIdea>,
    ) -> (r: Vec<DetailedCriticism>)
        ensures
            dc_proj(r@) == t_resource(index as int, lower_seq(delta@), idea_env(structured_idea)),
    {
        let mut r: Vec<DetailedCriticism> = Vec::new();
        let lower = to_lower_bytes(delta);
        if matches_any_exec(lower.as_slice(), &excessive_kw_exec()) {
            let mut severity: u32 = 600;
            let mut evidence: Vec<Vec<u8>> = Vec::new();
            evidence.push(("预计需要大量资源投入").as_bytes_vec());
            match structured_idea {
                Some(idea) => {
                    if constraints_have_resource(idea) {
                        evidence.push(("现有资源约束已经明确").as_bytes_vec());
                        severity = 800;
                    }
                },
                None => {},
            }
            let mut counter_arguments: Vec<Vec<u8>> = Vec::new();
            counter_arguments.push(("高回报可能证明投资合理").as_bytes_vec());
            counter_arguments.push(("可以通过融资解决资源问题").as_bytes_vec());
            let mut suggestions: Vec<Vec<u8>> = Vec::new();
            suggestions.push(("详细计算投资回报率").as_bytes_vec());
            suggestions.push(("寻找降低成本的替代方案").as_bytes_vec());
            suggestions.push(("考虑分阶段投资").as_bytes_vec());
            r.push(
                DetailedCriticism {
                    criticism: Criticism {
                        delta_index: index,
                        category: CriticismCategory::ResourceConstraint,
                        message: ("资源需求可能超出承受能力").as_bytes_vec(),
                        severity,
                    },
                    dimension: CriticalDimension::Resource,
                    evidence,
                    counter_arguments,
                    suggestions,
                    impact_analysis: ("资源不足将导致项目质量下降或无法完成").as_bytes_vec(),
                },
            );
        }
        assert(dc_proj(r@) =~= t_resource(
            index as int,
            lower_seq(delta@),
            idea_env(structured_idea),
        ));
        r
    }

    /// Risk checks: technical risk and market risk.
    fn check_risks(&self, index: usize, delta: &[u8]) -> (r: Vec<DetailedCriticism>)
        ensures
            dc_proj(r@) == t_techrisk(index as int, lower_seq(delta@)) + t_marketrisk(
                index as int,
                lower_seq(delta@),
            ),
    {
        let mut r: Vec<DetailedCriticism> = Vec::new();
        let lower = to_lower_bytes(delta);
        if matches_any_exec(lower.as_slice(), &tech_risk_kw_exec()) {
            let mut evidence: Vec<Vec<u8>> = Vec::new();
            evidence.push(("依赖未验证的技术").as_bytes_vec());
            evidence.push(("技术复杂度高").as_bytes_vec());
            let mut counter_arguments: Vec<Vec<u8>> = Vec::new();
            counter_arguments.push(("可以通过原型验证降低风险").as_bytes_vec());
            counter_arguments.push(("技术风险是创新的必然代价").as_bytes_vec());
            let mut suggestions: Vec<Vec<u8>> = Vec::new();
            suggestions.push(("建立技术风险评估机制").as_bytes_vec());
            suggestions.push(("准备备选技术方案").as_bytes_vec());
            suggestions.push(("设立技术验证里程碑").as_bytes_vec());
            r.push(
                DetailedCriticism {
                    criticism: Criticism {
                        delta_index: index,
                        category: CriticismCategory::RiskConcern,
                        message: ("存在显著技术风险").as_bytes_vec(),
                        severity: 700,
                    },
                    dimension: CriticalDimension::Risk,
                    evidence,
                    counter_arguments,
                    suggestions,
                    impact_analysis: ("技术风险可能导致项目延期或失败").as_bytes_vec(),
                },
            );
        }
        assert(dc_proj(r@) =~= t_techrisk(index as int, lower_seq(delta@)));
        let ghost before = dc_proj(r@);
        if matches_any_exec(lower.as_slice(), &market_risk_kw_exec()) {
            let mut evidence: Vec<Vec<u8>> = Vec::new();
            evidence.push(("市场需求未充分验证").as_bytes_vec());
            evidence.push(("竞争环境复杂").as_bytes_vec());
            let mut counter_arguments: Vec<Vec<u8>> = Vec::new();
            counter_arguments.push(("创新往往需要教育市场").as_bytes_vec());
            counter_arguments.push(("先发优势可能带来竞争壁垒").as_bytes_vec());
            let mut suggestions: Vec<Vec<u8>> = Vec::new();
            suggestions.push(("进行市场调研和用户验证").as_bytes_vec());
            suggestions.push(("制定市场教育策略").as_bytes_vec());
            suggestions.push(("准备快速调整方案").as_bytes_vec());
            r.push(
                DetailedCriticism {
                    criticism: Criticism {
                        delta_index: index,
                        category: CriticismCategory::RiskConcern,
                        message: ("市场接受度存在不确定性").as_bytes_vec(),
                        severity: 600,
                    },
                    dimension: CriticalDimension::Market,
                    evidence,
                    counter_arguments,
                    suggestions,
                    impact_analysis: ("市场风险可能导致产品无法获得预期收益").as_bytes_vec(),
                },
            );
        }
        assert(dc_proj(r@) =~= before + t_marketrisk(index as int, lower_seq(delta@)));
        r
    }

    /// Timeline check: a rushed schedule over a sweeping undertaking.
    fn check_timeline(&self, index: usize, delta: &[u8]) -> (r: Vec<DetailedCriticism>)
        ensures
            dc_proj(r@) == t_timeline(index as int, lower_seq(delta@)),
    {
        let mut r: Vec<DetailedCriticism> = Vec::new();
        let lower = to_lower_bytes(delta);
        let quick = matches_any_exec(lower.as_slice(), &quick_kw_exec());
        let complex = matches_any_exec(lower.as_slice(), &complex_kw_exec());
        if quick && complex {
            let mut evidence: Vec<Vec<u8>> = Vec::new();
            evidence.push(("涉及复杂流程改造").as_bytes_vec());
            evidence.push(("需要多方协调配合").as_bytes_vec());
            let mut counter_arguments: Vec<Vec<u8>> = Vec::new();
            counter_arguments.push(("有经验团队可能加快进度").as_bytes_vec());
            counter_arguments.push(("并行执行可以压缩时间").as_bytes_vec());
            let mut suggestions: Vec<Vec<u8>> = Vec::new();
            suggestions.push(("增加时间缓冲").as_bytes_vec());
            suggestions.push(("识别关键路径").as_bytes_vec());
            suggestions.push(("制定风险应对预案").as_bytes_vec());
            r.push(
                DetailedCriticism {
                    criticism: Criticism {
                        delta_index: index,
                        category: CriticismCategory::FeasibilityIssue,
                        message: ("时间线可能过于乐观").as_bytes_vec(),
                        severity: 500,
                    },
                    dimension: CriticalDimension::Timeline,
                    evidence,
                    counter_arguments,
                    suggestions,
                    impact_analysis: ("时间线不现实可能导致质量妥协和团队压力").as_bytes_vec(),
                },
            );
        }
        assert(dc_proj(r@) =~= t_timeline(index as int, lower_seq(delta@)));
        r
    }

    /// Stakeholder check: disruptive wording with stakeholders on record.
    fn check_stakeholder_impact(
        &self,
        index: usize,
        delta: &[u8],
        structured_idea: Option<&StructuredIdea>,
    ) -> (r: Vec<DetailedCriticism>)
        ensures
            dc_proj(r@) == t_stakeholder(
                index as int,
                lower_seq(delta@),
                idea_env(structured_idea),
            ),
    {
        let mut r: Vec<DetailedCriticism> = Vec::new();
        match structured_idea {
            Some(idea) => {
                let lower = to_lower_bytes(delta);
                let disruptive = matches_any_exec(lower.as_slice(), &disruptive_kw_exec());
                if disruptive && idea.stakeholders.len() > 0 {
                    let mut evidence: Vec<Vec<u8>> = Vec::new();
                    evidence.push(("可能改变现有工作流程").as_bytes_vec());
                    evidence.push(("可能影响既得利益").as_bytes_vec());
                    let mut counter_arguments: Vec<Vec<u8>> = Vec::new();
                    counter_arguments.push(("长期来看对所有人都有益").as_bytes_vec());
                    counter_arguments.push(("可以通过沟通化解担忧").as_bytes_vec());
                    let mut suggestions: Vec<Vec<u8>> = Vec::new();
                    suggestions.push(("制定利益相关者沟通计划").as_bytes_vec());
                    suggestions.push(("设计过渡期支持措施").as_bytes_vec());
                    suggestions.push(("确保利益分配公平").as_bytes_vec());
                    r.push(
                        DetailedCriticism {
                            criticism: Criticism {
                                delta_index: index,
                                category: CriticismCategory::StakeholderConcern,
                                message: ("可能对关键利益相关者产生负面影响").as_bytes_vec(),
                                severity: 600,
                            },
                            dimension: CriticalDimension::Stakeholder,
                            evidence,
                            counter_arguments,
                            suggestions,
                            impact_analysis: ("利益相关者阻力可能导致实施困难").as_bytes_vec(),
                        },
                    );
                }
            },
            None => {},
        }
        assert(dc_proj(r@) =~= t_stakeholder(
            index as int,
            lower_seq(delta@),
            idea_env(structured_idea),
        ));
        r
    }

    /// Implementation check: vague improvement talk without technical
    /// vocabulary.
    fn check_technical_implementation(&self, index: usize, delta: &[u8]) -> (r: Vec<
        DetailedCriticism,
    >)
        ensures
            dc_proj(r@) == t_implgap(index as int, lower_seq(delta@)),
    {
        let mut r: Vec<DetailedCriticism> = Vec::new();
        let lower = to_lower_bytes(delta);
        let vague = matches_any_exec(lower.as_slice(), &vague_kw_exec());
        let technical = matches_any_exec(lower.as_slice(), &technical_kw_exec());
        if vague && !technical {
            let mut evidence: Vec<Vec<u8>> = Vec::new();
            evidence.push(("技术实现细节不明确").as_bytes_vec());
            let mut counter_arguments: Vec<Vec<u8>> = Vec::new();
            counter_arguments.push(("概念阶段不需要过多技术细节").as_bytes_vec());
            let mut suggestions: Vec<Vec<u8>> = Vec::new();
            suggestions.push(("补充技术架构设计").as_bytes_vec());
            suggestions.push(("识别关键技术挑战").as_bytes_vec());
            r.push(
                DetailedCriticism {
                    criticism: Criticism {
                        delta_index: index,
                        category: CriticismCategory::ImplementationGap,
                        message: ("缺乏具体的技术实现路径").as_bytes_vec(),
                        severity: 400,
                    },
                    dimension: CriticalDimension::Technical,
                    evidence,
                    counter_arguments,
                    suggestions,
                    impact_analysis: ("技术路径不清晰可能导致执行偏差").as_bytes_vec(),
                },
            );
        }
        assert(dc_proj(r@) =~= t_implgap(index as int, lower_seq(delta@)));
        r
    }

    /// Market check: idealistic language that ignores market reality.
    fn check_market_conditions(&self, index: usize, delta: &[u8]) -> (r: Vec<DetailedCriticism>)
        ensures
            dc_proj(r@) == t_idealistic(index as int, lower_seq(delta@)),
    {
        let mut r: Vec<DetailedCriticism> = Vec::new();
        let lower = to_lower_bytes(delta);
        if matches_any_exec(lower.as_slice(), &idealistic_kw_exec()) {
            let mut evidence: Vec<Vec<u8>> = Vec::new();
            evidence.push(("缺乏市场环境分析").as_bytes_vec());
            let mut counter_arguments: Vec<Vec<u8>> = Vec::new();
            counter_arguments.push(("创新有时需要创造新市场").as_bytes_vec());
            let mut suggestions: Vec<Vec<u8>> = Vec::new();
            suggestions.push(("进行市场环境调研").as_bytes_vec());
            suggestions.push(("分析竞争对手策略").as_bytes_vec());
            r.push(
                DetailedCriticism {
                    criticism: Criticism {
                        delta_index: index,
                        category: CriticismCategory::MarketMismatch,
                        message: ("可能未充分考虑市场现实").as_bytes_vec(),
                        severity: 500,
                    },
                    dimension: CriticalDimension::Market,
                    evidence,
                    counter_arguments,
                    suggestions,
                    impact_analysis: ("市场环境不匹配可能导致商业失败").as_bytes_vec(),
                },
            );
        }
        assert(dc_proj(r@) =~= t_idealistic(index as int, lower_seq(delta@)));
        r
    }

    /// The full keyword battery over one delta, in battery order.
    #[verifier::rlimit(60)]
    pub fn generate_basic_criticism(
        &self,
        index: usize,
        delta: &[u8],
        structured_idea: Option<&StructuredIdea>,
    ) -> (r: Vec<DetailedCriticism>)
        ensures
            dc_proj(r@) == delta_crit_items(index as int, delta@, idea_env(structured_idea)),
    {
        let mut r = self.check_logic_consistency(index, delta, structured_idea);
        let ghost p1 = dc_proj(r@);
        let mut more = self.check_feasibility(index, delta, structured_idea);
        let ghost p2 = dc_proj(more@);
        r.append(&mut more);
        assert(dc_proj(r@) =~= p1 + p2);
        let ghost p3 = dc_proj(r@);
        let mut more = self.check_resource_requirements(index, delta, structured_idea);
        let ghost p4 = dc_proj(more@);
        r.append(&mut more);
        assert(dc_proj(r@) =~= p3 + p4);
        let ghost p5 = dc_proj(r@);
        let mut more = self.check_risks(index, delta);
        let ghost p6 = dc_proj(more@);
        r.append(&mut more);
        assert(dc_proj(r@) =~= p5 + p6);
        let ghost p7 = dc_proj(r@);
        let mut more = self.check_timeline(index, delta);
        let ghost p8 = dc_proj(more@);
        r.append(&mut more);
        assert(dc_proj(r@) =~= p7 + p8);
        let ghost p9 = dc_proj(r@);
        let mut more = self.check_stakeholder_impact(index, delta, structured_idea);
        let ghost p10 = dc_proj(more@);
        r.append(&mut more);
        assert(dc_proj(r@) =~= p9 + p10);
        let ghost p11 = dc_proj(r@);
        let mut more = self.check_technical_implementation(index, delta);
        let ghost p12 = dc_proj(more@);
        r.append(&mut more);
        assert(dc_proj(r@) =~= p11 + p12);
        let ghost p13 = dc_proj(r@);
        let mut more = self.check_market_conditions(index, delta);
        let ghost p14 = dc_proj(more@);
        r.append(&mut more);
        assert(dc_proj(r@) =~= p13 + p14);
        assert(dc_proj(r@) =~= delta_crit_items(index as int, delta@, idea_env(structured_idea)));
        r
    }

    /// Runs the battery over every delta, adds the global pairwise
    /// conflict findings, and orders everything by descending severity.
    #[verifier::rlimit(100)]
    pub fn analyze_deltas(
        &self,
        deltas: &Vec<Vec<u8>>,
        structured_idea: Option<&StructuredIdea>,
    ) -> (r: Vec<DetailedCriticism>)
        ensures
            dc_proj(r@) == sorted_crit(all_crit_items(views2(deltas@), idea_env(structured_idea))),
    {
        let ghost dv = views2(deltas@);
        let ghost env = idea_env(structured_idea);
        let mut all: Vec<DetailedCriticism> = Vec::new();
        let mut i: usize = 0;
        while i < deltas.len()
            invariant
                i <= dv.len(),
                dv == views2(deltas@),
                env == idea_env(structured_idea),
                dc_proj(all@) =~= per_delta_items(dv.take(i as int), env),
            decreases dv.len() - i,
        {
            proof {
                assert(dv.take(i + 1).drop_last() =~= dv.take(i as int));
                assert(dv.take(i + 1).last() == dv[i as int]);
            }
            let mut items = self.generate_basic_criticism(i, deltas[i].as_slice(), structured_idea);
            let ghost before = dc_proj(all@);
            let ghost inc = dc_proj(items@);
            all.append(&mut items);
            assert(dc_proj(all@) =~= before + inc);
            i = i + 1;
        }
        assert(dv.take(dv.len() as int) =~= dv);
        let ghost total = per_delta_items(dv, env) + global_items_from(dv, 0);
        let mut gi: usize = 0;
        while gi < deltas.len()
            invariant
                gi <= dv.len(),
                dv == views2(deltas@),
                env == idea_env(structured_idea),
                dc_proj(all@) + global_items_from(dv, gi as int) =~= total,
            decreases dv.len() - gi,
        {
            let mut gj: usize = gi + 1;
            assert(global_items_from(dv, gi as int) == global_row(dv, gi as int, gi + 1)
                + global_items_from(dv, gi + 1));
            while gj < deltas.len()
                invariant
                    gi < dv.len(),
                    gi + 1 <= gj <= dv.len(),
                    dv == views2(deltas@),
                    env == idea_env(structured_idea),
                    dc_proj(all@) + global_row(dv, gi as int, gj as int) + global_items_from(
                        dv,
                        gi + 1,
                    ) =~= total,
                decreases dv.len() - gj,
            {
                if self.are_deltas_conflicting(deltas[gi].as_slice(), deltas[gj].as_slice()) {
                    let mut message = ("建议 ").as_bytes_vec();
                    message.append(&mut dec_bytes((gi as u64) + 1));
                    message.extend_from_slice((" 与建议 ").as_bytes_vec().as_slice());
                    message.append(&mut dec_bytes((gj as u64) + 1));
                    message.extend_from_slice((" 存在逻辑冲突").as_bytes_vec().as_slice());
                    assert(message@ == pair_conflict_msg(gi as int, gj as int));
                    let mut evidence: Vec<Vec<u8>> = Vec::new();
                    evidence.push(deltas[gi].clone());
                    evidence.push(deltas[gj].clone());
                    let mut counter_arguments: Vec<Vec<u8>> = Vec::new();
                    counter_arguments.push(("可能存在互补性而非冲突").as_bytes_vec());
                    let mut suggestions: Vec<Vec<u8>> = Vec::new();
                    suggestions.push(("深入分析两个建议的关系").as_bytes_vec());
                    let ghost before = dc_proj(all@);
                    all.push(
                        DetailedCriticism {
                            criticism: Criticism {
                                delta_index: gi,
                                category: CriticismCategory::LogicFlaw,
                                message,
                                severity: 800,
                            },
                            dimension: CriticalDimension::Logic,
                            evidence,
                            counter_arguments,
                            suggestions,
                            impact_analysis: ("冲突的建议会导致执行时的资源分散").as_bytes_vec(),
                        },
                    );
                    assert(dc_proj(all@) =~= before.push(
                        (gi as int, CriticismCategory::LogicFlaw, pair_conflict_msg(
                            gi as int,
                            gj as int,
                        ), 800u32),
                    ));
                }
                assert(global_row(dv, gi as int, gj as int) == (if deltas_conflict(
                    lower_seq(dv[gi as int]),
                    lower_seq(dv[gj as int]),
                ) {
                    seq![
                        (gi as int, CriticismCategory::LogicFlaw, pair_conflict_msg(
                            gi as int,
                            gj as int,
                        ), 800u32),
                    ]
                } else {
                    Seq::empty()
                }) + global_row(dv, gi as int, gj + 1));
                gj = gj + 1;
            }
            assert(global_row(dv, gi as int, gj as int) =~= Seq::empty());
            gi = gi + 1;
        }
        assert(global_items_from(dv, gi as int) =~= Seq::empty());
        assert(dc_proj(all@) =~= total);
        let ghost items = all_crit_items(dv, env);
        assert(dc_proj(all@) =~= items);
        let mut sorted: Vec<DetailedCriticism> = Vec::new();
        let mut rank: usize = 0;
        while rank < 6
            invariant
                rank <= 6,
                dc_proj(all@) =~= items,
                dc_proj(sorted@) =~= buckets_upto(items, rank as int),
            decreases 6 - rank,
        {
            let sev: u32 = if rank == 0 {
                900
            } else if rank == 1 {
                800
            } else if rank == 2 {
                700
            } else if rank == 3 {
                600
            } else if rank == 4 {
                500
            } else {
                400
            };
            assert(sev == sev_of_rank(rank as int));
            let ghost done = dc_proj(sorted@);
            let mut k: usize = 0;
            while k < all.len()
                invariant
                    k <= all@.len(),
                    dc_proj(all@) =~= items,
                    sev == sev_of_rank(rank as int),
                    dc_proj(sorted@) =~= done + crit_filter(items.take(k as int), sev),
                decreases all@.len() - k,
            {
                proof {
                    assert(items.take(k + 1).drop_last() =~= items.take(k as int));
                    assert(items.take(k + 1).last() == items[k as int]);
                    assert(items[k as int] == dc_proj(all@)[k as int]);
                }
                let item = &all[k];
                if item.criticism.severity == sev {
                    let ghost before = dc_proj(sorted@);
                    sorted.push(item.duplicate());
                    assert(dc_proj(sorted@) =~= before.push(items[k as int]));
                }
                assert(dc_proj(sorted@) =~= done + crit_filter(items.take(k + 1), sev));
                k = k + 1;
            }
            assert(items.take(items.len() as int) =~= items);
            assert(dc_proj(sorted@) =~= buckets_upto(items, rank as int + 1));
            rank = rank + 1;
        }
        assert(dc_proj(sorted@) =~= sorted_crit(items)) by {
            assert(buckets_upto(items, 0) =~= Seq::empty());
            assert(buckets_upto(items, 1) =~= crit_filter(items, 900));
            assert(buckets_upto(items, 2) =~= buckets_upto(items, 1) + crit_filter(items, 800));
            assert(buckets_upto(items, 3) =~= buckets_upto(items, 2) + crit_filter(items, 700));
            assert(buckets_upto(items, 4) =~= buckets_upto(items, 3) + crit_filter(items, 600));
            assert(buckets_upto(items, 5) =~= buckets_upto(items, 4) + crit_filter(items, 500));
            assert(buckets_upto(items, 6) =~= buckets_upto(items, 5) + crit_filter(items, 400));
        }
        sorted
    }

    /// A human-readable report over the findings: it begins with the
    /// report header, pins the three labeled severity-tier counts, and
    /// groups the findings into those tiers.
    pub fn generate_criticism_summary(&self, criticisms: &Vec<DetailedCriticism>) -> (r: Vec<u8>)
        ensures
            r@.take(("🔍 批判分析报告\n\n").spec_bytes().len() as int) == (
            "🔍 批判分析报告\n\n").spec_bytes(),
            crate::text::contains_seq(
                r@,
                ("高风险 ").spec_bytes() + dec_seq(count_sev_ge(dc_proj(criticisms@), 700)),
            ),
            crate::text::contains_seq(
                r@,
                ("中风险 ").spec_bytes() + dec_seq(
                    (count_sev_ge(dc_proj(criticisms@), 400) - count_sev_ge(
                        dc_proj(criticisms@),
                        700,
                    )) as nat,
                ),
            ),
            crate::text::contains_seq(
                r@,
                ("低风险 ").spec_bytes() + dec_seq(
                    (dc_proj(criticisms@).len() - count_sev_ge(dc_proj(criticisms@), 400)) as nat,
                ),
            ),
    {
        let ghost dp = dc_proj(criticisms@);
        proof {
            lemma_count_sev_ge_mono(dp);
        }
        let mut high: usize = 0;
        let mut medium: usize = 0;
        let mut low: usize = 0;
        let mut i: usize = 0;
        while i < criticisms.len()
            invariant
                i <= criticisms@.len(),
                dp == dc_proj(criticisms@),
                high == count_sev_ge(dp.take(i as int), 700),
                medium == count_sev_ge(dp.take(i as int), 400) - count_sev_ge(
                    dp.take(i as int),
                    700,
                ),
                low == i - count_sev_ge(dp.take(i as int), 400),
                high <= i,
                medium <= i,
                low <= i,
            decreases criticisms@.len() - i,
        {
            proof {
                assert(dp.take(i + 1).drop_last() =~= dp.take(i as int));
                assert(dp.take(i + 1).last() == dp[i as int]);
            }
            let sev = criticisms[i].criticism.severity;
            if sev >= 700 {
                high = high + 1;
            } else if sev >= 400 {
                medium = medium + 1;
            } else {
                low = low + 1;
            }
            i = i + 1;
        }
        assert(dp.take(dp.len() as int) =~= dp);
        let mut s: Vec<u8> = Vec::new();
        crate::text::push_text(&mut s, ("📊 问题分布：").as_bytes_vec().as_slice());
        let mut frag = ("高风险 ").as_bytes_vec();
        frag.append(&mut dec_bytes(high as u64));
        crate::text::push_fact(&mut s, frag.as_slice());
        crate::text::push_text(&mut s, (" 个，").as_bytes_vec().as_slice());
        let mut frag = ("中风险 ").as_bytes_vec();
        frag.append(&mut dec_bytes(medium as u64));
        crate::text::push_fact(&mut s, frag.as_slice());
        crate::text::push_text(&mut s, (" 个，").as_bytes_vec().as_slice());
        let mut frag = ("低风险 ").as_bytes_vec();
        frag.append(&mut dec_bytes(low as u64));
        crate::text::push_fact(&mut s, frag.as_slice());
        crate::text::push_text(&mut s, (" 个\n\n").as_bytes_vec().as_slice());
        if high > 0 {
            crate::text::push_text(&mut s, ("🚨 高风险问题：\n").as_bytes_vec().as_slice());
            let mut shown: u64 = 0;
            let mut k: usize = 0;
            while k < criticisms.len()
                invariant
                    k <= criticisms@.len(),
                    shown <= k,
                    crate::text::contains_seq(
                        s@,
                        ("高风险 ").spec_bytes() + dec_seq(count_sev_ge(dp, 700)),
                    ),
                    crate::text::contains_seq(
                        s@,
                        ("中风险 ").spec_bytes() + dec_seq(
                            (count_sev_ge(dp, 400) - count_sev_ge(dp, 700)) as nat,
                        ),
                    ),
                    crate::text::contains_seq(
                        s@,
                        ("低风险 ").spec_bytes() + dec_seq(
                            (dp.len() - count_sev_ge(dp, 400)) as nat,
                        ),
                    ),
                decreases criticisms@.len() - k,
            {
                let item = &criticisms[k];
                if item.criticism.severity >= 700 && shown < 3 {
                    shown = shown + 1;
                    let num = dec_bytes(shown);
                    crate::text::push_text(&mut s, num.as_slice());
                    crate::text::push_text(&mut s, (". ").as_bytes_vec().as_slice());
                    crate::text::push_text(&mut s, item.criticism.message.as_slice());
                    crate::text::push_text(&mut s, (" (严重程度: ").as_bytes_vec().as_slice());
                    let sev = item.criticism.severity;
                    if sev <= 1000 {
                        let rendered = crate::text::tenths_bytes(sev);
                        crate::text::push_text(&mut s, rendered.as_slice());
                    }
                    crate::text::push_text(&mut s, (")\n").as_bytes_vec().as_slice());
                    crate::text::push_text(&mut s, ("   💡 建议：").as_bytes_vec().as_slice());
                    if item.suggestions.len() > 0 {
                        crate::text::push_text(&mut s, item.suggestions[0].as_slice());
                    } else {
                        crate::text::push_text(&mut s, ("需要进一步分析").as_bytes_vec().as_slice());
                    }
                    crate::text::push_text(&mut s, ("\n\n").as_bytes_vec().as_slice());
                }
                k = k + 1;
            }
        }
        crate::text::push_text(&mut s, ("📈 整体评估：").as_bytes_vec().as_slice());
        if high == 0 {
            crate::text::push_text(&mut s, ("风险可控，建议继续推进\n").as_bytes_vec().as_slice());
        } else if high <= 2 {
            crate::text::push_text(&mut s, ("存在重要风险，需要重点关注\n").as_bytes_vec().as_slice());
        } else {
            crate::text::push_text(&mut s, ("风险较高，建议重新评估方案\n").as_bytes_vec().as_slice());
        }
        let mut r = ("🔍 批判分析报告\n\n").as_bytes_vec();
        let ghost header = ("🔍 批判分析报告\n\n").spec_bytes();
        let ghost body = s@;
        crate::text::push_text(&mut r, s.as_slice());
        proof {
            assert(r@.take(header.len() as int) =~= header);
            crate::text::lemma_contains_concat(
                header,
                body,
                ("高风险 ").spec_bytes() + dec_seq(count_sev_ge(dp, 700)),
            );
            crate::text::lemma_contains_concat(
                header,
                body,
                ("中风险 ").spec_bytes() + dec_seq(
                    (count_sev_ge(dp, 400) - count_sev_ge(dp, 700)) as nat,
                ),
            );
            crate::text::lemma_contains_concat(
                header,
                body,
                ("低风险 ").spec_bytes() + dec_seq((dp.len() - count_sev_ge(dp, 400)) as nat),
            );
        }
        r
    }
}

proof fn lemma_count_sev_ge_mono(s: Seq<(int, CriticismCategory, Seq<u8>, u32)>)
    ensures
        count_sev_ge(s, 700) <= count_sev_ge(s, 400) <= s.len(),
    decreases s.len(),
{
    if s.len() > 0 {
        lemma_count_sev_ge_mono(s.drop_last());
    }
}

fn unfeasible_kw_exec() -> (r: Vec<Vec<u8>>)
    ensures
        views2(r@) == unfeasible_kw(),
{
    let mut r: Vec<Vec<u8>> = Vec::new();
    r.push(("完全自动化").as_bytes_vec());
    r.push(("100%准确").as_bytes_vec());
    r.push(("零延迟").as_bytes_vec());
    r.push(("无限扩展").as_bytes_vec());
    r.push(("完美预测").as_bytes_vec());
    r.push(("绝对安全").as_bytes_vec());
    r.push(("永不失败").as_bytes_vec());
    assert(views2(r@) =~= unfeasible_kw());
    r
}

fn excessive_kw_exec() -> (r: Vec<Vec<u8>>)
    ensures
        views2(r@) == excessive_kw(),
{
    let mut r: Vec<Vec<u8>> = Vec::new();
    r.push(("大规模投资").as_bytes_vec());
    r.push(("全面升级").as_bytes_vec());
    r.push(("重构").as_bytes_vec());
    r.push(("颠覆性").as_bytes_vec());
    r.push(("平台化").as_bytes_vec());
    r.push(("生态").as_bytes_vec());
    r.push(("全球化").as_bytes_vec());
    assert(views2(r@) =~= excessive_kw());
    r
}

fn tech_risk_kw_exec() -> (r: Vec<Vec<u8>>)
    ensures
        views2(r@) == tech_risk_kw(),
{
    let mut r: Vec<Vec<u8>> = Vec::new();
    r.push(("ai").as_bytes_vec());
    r.push(("机器学习").as_bytes_vec());
    r.push(("区块链").as_bytes_vec());
    r.push(("量子").as_bytes_vec());
    r.push(("新技术").as_bytes_vec());
    r.push(("未验证").as_bytes_vec());
    r.push(("实验性").as_bytes_vec());
    r.push(("前沿").as_bytes_vec());
    assert(views2(r@) =~= tech_risk_kw());
    r
}

fn market_risk_kw_exec() -> (r: Vec<Vec<u8>>)
    ensures
        views2(r@) == market_risk_kw(),
{
    let mut r: Vec<Vec<u8>> = Vec::new();
    r.push(("颠覆").as_bytes_vec());
    r.push(("革命性").as_bytes_vec());
    r.push(("全新模式").as_bytes_vec());
    r.push(("创造需求").as_bytes_vec());
    r.push(("教育市场").as_bytes_vec());
    r.push(("改变习惯").as_bytes_vec());
    assert(views2(r@) =~= market_risk_kw());
    r
}

fn quick_kw_exec() -> (r: Vec<Vec<u8>>)
    ensures
        views2(r@) == quick_kw(),
{
    let mut r: Vec<Vec<u8>> = Vec::new();
    r.push(("快速").as_bytes_vec());
    r.push(("立即").as_bytes_vec());
    r.push(("即刻").as_bytes_vec());
    r.push(("短期内").as_bytes_vec());
    assert(views2(r@) =~= quick_kw());
    r
}

fn complex_kw_exec() -> (r: Vec<Vec<u8>>)
    ensures
        views2(r@) == complex_kw(),
{
    let mut r: Vec<Vec<u8>> = Vec::new();
    r.push(("全面").as_bytes_vec());
    r.push(("系统性").as_bytes_vec());
    r.push(("重构").as_bytes_vec());
    r.push(("转型").as_bytes_vec());
    assert(views2(r@) =~= complex_kw());
    r
}

fn disruptive_kw_exec() -> (r: Vec<Vec<u8>>)
    ensures
        views2(r@) == disruptive_kw(),
{
    let mut r: Vec<Vec<u8>> = Vec::new();
    r.push(("替代").as_bytes_vec());
    r.push(("自动化").as_bytes_vec());
    r.push(("简化").as_bytes_vec());
    r.push(("集中化").as_bytes_vec());
    r.push(("标准化").as_bytes_vec());
    assert(views2(r@) =~= disruptive_kw());
    r
}

fn vague_kw_exec() -> (r: Vec<Vec<u8>>)
    ensures
        views2(r@) == vague_kw(),
{
    let mut r: Vec<Vec<u8>> = Vec::new();
    r.push(("提升").as_bytes_vec());
    r.push(("优化").as_bytes_vec());
    r.push(("改进").as_bytes_vec());
    r.push(("增强").as_bytes_vec());
    r.push(("升级").as_bytes_vec());
    assert(views2(r@) =~= vague_kw());
    r
}

fn technical_kw_exec() -> (r: Vec<Vec<u8>>)
    ensures
        views2(r@) == technical_kw(),
{
    let mut r: Vec<Vec<u8>> = Vec::new();
    r.push(("架构").as_bytes_vec());
    r.push(("算法").as_bytes_vec());
    r.push(("接口").as_bytes_vec());
    r.push(("协议").as_bytes_vec());
    r.push(("框架").as_bytes_vec());
    r.push(("平台").as_bytes_vec());
    assert(views2(r@) =~= technical_kw());
    r
}

fn idealistic_kw_exec() -> (r: Vec<Vec<u8>>)
    ensures
        views2(r@) == idealistic_kw(),
{
    let mut r: Vec<Vec<u8>> = Vec::new();
    r.push(("完美").as_bytes_vec());
    r.push(("理想").as_bytes_vec());
    r.push(("最优").as_bytes_vec());
    r.push(("最佳").as_bytes_vec());
    r.push(("无缺陷").as_bytes_vec());
    assert(views2(r@) =~= idealistic_kw());
    r
}

fn large_scale_kw_exec() -> (r: Vec<Vec<u8>>)
    ensures
        views2(r@) == large_scale_kw(),
{
    let mut r: Vec<Vec<u8>> = Vec::new();
    r.push(("大规模").as_bytes_vec());
    r.push(("全面").as_bytes_vec());
    r.push(("系统性").as_bytes_vec());
    assert(views2(r@) =~= large_scale_kw());
    r
}

fn constraints_have_resource(idea: &StructuredIdea) -> (r: bool)
    ensures
        r == has_key(kv_views(idea.constraints@), ("resource").spec_bytes()),
{
    let key = ("resource").as_bytes_vec();
    let mut i: usize = 0;
    while i < idea.constraints.len()
        invariant
            i <= idea.constraints@.len(),
            key@ == ("resource").spec_bytes(),
            forall|k: int|
                0 <= k < i ==> (#[trigger] kv_views(idea.constraints@)[k]).0 != (
                "resource").spec_bytes(),
        decreases idea.constraints@.len() - i,
    {
        if crate::text::bytes_eq(idea.constraints[i].0.as_slice(), key.as_slice()) {
            assert(kv_views(idea.constraints@)[i as int].0 == ("resource").spec_bytes());
            return true;
        }
        i = i + 1;
    }
    false
}

impl Agent for CriticAgent {
    /// The stage's display name.
    fn name(&self) -> &'static str {
        "Critic"
    }

    /// The critic declares the criticism capability.
    fn capabilities(&self) -> Vec<AgentCapability> {
        let mut v: Vec<AgentCapability> = Vec::new();
        v.push(AgentCapability::Criticism);
        v
    }

    /// Analyzes the first innovation result found in the context (or the
    /// stock sample deltas) under the context's structured idea, and
    /// returns every finding ordered by descending severity.
    fn execute(&self, context: &AgentContext) -> (r: Result<AgentResult, AgentError>)
        ensures
            r is Ok,
            (r matches Ok(AgentResult::Criticism(list)) && c_proj(list@) == sorted_crit(
                all_crit_items(critic_input_deltas(*context), critic_input_env(*context)),
            )),
    {
        let ghost results = context.previous_results@;
        let mut found: Option<Vec<Vec<u8>>> = None;
        let mut i: usize = 0;
        loop
            invariant_except_break
                found is None,
                innovation_from(results, 0) == innovation_from(results, i as int),
                0 <= i <= results.len(),
            invariant
                results == context.previous_results@,
            ensures
                (match found {
                    Some(v) => innovation_from(results, 0) == Some(views2(v@)),
                    None => innovation_from(results, 0) is None,
                }),
            decreases results.len() - i,
        {
            if i >= context.previous_results.len() {
                break ;
            }
            match &context.previous_results[i] {
                AgentResult::Innovation(ds) => {
                    found = Some(crate::data::copy_texts(ds));
                    break ;
                },
                _ => {},
            }
            i = i + 1;
        }
        let deltas: Vec<Vec<u8>> = match found {
            Some(v) => v,
            None => {
                let mut v: Vec<Vec<u8>> = Vec::new();
                v.push(("[技术创新] 引入AI自动化技术提升效率").as_bytes_vec());
                v.push(("[商业模式] 采用订阅制商业模式").as_bytes_vec());
                v.push(("[用户体验] 设计个性化用户界面").as_bytes_vec());
                assert(views2(v@) =~= sample_deltas());
                v
            },
        };
        assert(views2(deltas@) == critic_input_deltas(*context));
        let structured_idea: Option<&StructuredIdea> = match &context.clarification {
            Some(c) => match &c.structured_idea {
                Some(si) => Some(si),
                None => None,
            },
            None => None,
        };
        proof {
            assert(idea_env(structured_idea) == critic_input_env(*context));
        }
        let detailed = self.analyze_deltas(&deltas, structured_idea);
        let mut simple: Vec<Criticism> = Vec::new();
        let mut k: usize = 0;
        while k < detailed.len()
            invariant
                k <= detailed@.len(),
                c_proj(simple@) =~= dc_proj(detailed@).take(k as int),
            decreases detailed@.len() - k,
        {
            let ghost before = c_proj(simple@);
            simple.push(detailed[k].criticism.duplicate());
            assert(c_proj(simple@) =~= before.push(dc_proj(detailed@)[k as int]));
            assert(c_proj(simple@) =~= dc_proj(detailed@).take(k + 1));
            k = k + 1;
        }
        assert(dc_proj(detailed@).take(detailed@.len() as int) =~= dc_proj(detailed@));
        Ok(AgentResult::Criticism(simple))
    }
}


/// Stable descending insertion by severity: `x` goes before the first
/// criticism whose severity is strictly smaller.
pub open spec fn ins_desc_c(
    t: Seq<(int, CriticismCategory, Seq<u8>, u32)>,
    x: (int, CriticismCategory, Seq<u8>, u32),
) -> Seq<(int, CriticismCategory, Seq<u8>, u32)>
    decreases t.len(),
{
    if t.len() == 0 {
        seq![x]
    } else if t[0].3 < x.3 {
        seq![x] + t
    } else {
        seq![t[0]] + ins_desc_c(t.drop_first(), x)
    }
}

/// Stable sort by non-increasing severity.
pub open spec fn sort_desc_c(s: Seq<(int, CriticismCategory, Seq<u8>, u32)>) -> Seq<
    (int, CriticismCategory, Seq<u8>, u32),
>
    decreases s.len(),
{
    if s.len() == 0 {
        Seq::empty()
    } else {
        ins_desc_c(sort_desc_c(s.drop_last()), s.last())
    }
}

/// Non-increasing severity order.
pub open spec fn sorted_desc_c(s: Seq<(int, CriticismCategory, Seq<u8>, u32)>) -> bool {
    forall|i: int, j: int| 0 <= i < j < s.len() ==> (#[trigger] s[i]).3 >= (#[trigger] s[j]).3
}

proof fn lemma_ins_desc_c_props(
    t: Seq<(int, CriticismCategory, Seq<u8>, u32)>,
    x: (int, CriticismCategory, Seq<u8>, u32),
)
    requires
        sorted_desc_c(t),
    ensures
        sorted_desc_c(ins_desc_c(t, x)),
        ins_desc_c(t, x).len() == t.len() + 1,
        forall|j: int|
            0 <= j < ins_desc_c(t, x).len() ==> (#[trigger] ins_desc_c(t, x)[j]).3 <= x.3 || (
            t.len() > 0 && ins_desc_c(t, x)[j].3 <= t[0].3),
    decreases t.len(),
{
    if t.len() == 0 {
    } else if t[0].3 < x.3 {
        assert forall|i: int, j: int|
            0 <= i < j < ins_desc_c(t, x).len() implies (#[trigger] ins_desc_c(t, x)[i]).3 >= (
        #[trigger] ins_desc_c(t, x)[j]).3 by {
            if i > 0 {
                assert(ins_desc_c(t, x)[i] == t[i - 1]);
                assert(ins_desc_c(t, x)[j] == t[j - 1]);
            } else {
                assert(ins_desc_c(t, x)[j] == t[j - 1]);
                assert(t[0].3 >= t[j - 1].3);
            }
        }
    } else {
        let rest = t.drop_first();
        assert(sorted_desc_c(rest)) by {
            assert forall|i: int, j: int|
                0 <= i < j < rest.len() implies (#[trigger] rest[i]).3 >= (#[trigger] rest[j]).3 by {
                assert(rest[i] == t[i + 1]);
                assert(rest[j] == t[j + 1]);
            }
        }
        lemma_ins_desc_c_props(rest, x);
        let inner = ins_desc_c(rest, x);
        assert forall|i: int, j: int|
            0 <= i < j < ins_desc_c(t, x).len() implies (#[trigger] ins_desc_c(t, x)[i]).3 >= (
        #[trigger] ins_desc_c(t, x)[j]).3 by {
            if i == 0 {
                assert(ins_desc_c(t, x)[j] == inner[j - 1]);
                if rest.len() > 0 {
                    assert(rest[0] == t[1]);
                    assert(t[0].3 >= t[1].3);
                }
                assert(inner[j - 1].3 <= x.3 || (rest.len() > 0 && inner[j - 1].3 <= rest[0].3));
            } else {
                assert(ins_desc_c(t, x)[i] == inner[i - 1]);
                assert(ins_desc_c(t, x)[j] == inner[j - 1]);
            }
        }
        assert forall|j: int|
            0 <= j < ins_desc_c(t, x).len() implies (#[trigger] ins_desc_c(t, x)[j]).3 <= x.3 || (
        t.len() > 0 && ins_desc_c(t, x)[j].3 <= t[0].3) by {
            if j > 0 {
                assert(ins_desc_c(t, x)[j] == inner[j - 1]);
                if rest.len() > 0 {
                    assert(rest[0] == t[1]);
                }
            }
        }
    }
}

/// Stable severity sorting yields a non-increasing order.
pub proof fn lemma_sort_desc_c_sorted(s: Seq<(int, CriticismCategory, Seq<u8>, u32)>)
    ensures
        sorted_desc_c(sort_desc_c(s)),
        sort_desc_c(s).len() == s.len(),
    decreases s.len(),
{
    if s.len() > 0 {
        lemma_sort_desc_c_sorted(s.drop_last());
        lemma_ins_desc_c_props(sort_desc_c(s.drop_last()), s.last());
    }
}

proof fn lemma_ins_desc_c_at(
    t: Seq<(int, CriticismCategory, Seq<u8>, u32)>,
    x: (int, CriticismCategory, Seq<u8>, u32),
    pos: int,
)
    requires
        0 <= pos <= t.len(),
        forall|k: int| 0 <= k < pos ==> (#[trigger] t[k]).3 >= x.3,
        pos < t.len() ==> t[pos].3 < x.3,
    ensures
        ins_desc_c(t, x) =~= t.take(pos) + seq![x] + t.skip(pos),
    decreases pos,
{
    if t.len() == 0 {
    } else if t[0].3 < x.3 {
        assert(pos == 0);
    } else {
        assert(pos > 0) by {
            if pos == 0 {
                assert(t[0].3 < x.3);
            }
        }
        let rest = t.drop_first();
        assert forall|k: int| 0 <= k < pos - 1 implies (#[trigger] rest[k]).3 >= x.3 by {
            assert(rest[k] == t[k + 1]);
        }
        assert(pos - 1 < rest.len() ==> rest[pos - 1].3 < x.3) by {
            if pos - 1 < rest.len() {
                assert(rest[pos - 1] == t[pos]);
            }
        }
        lemma_ins_desc_c_at(rest, x, pos - 1);
        assert(ins_desc_c(t, x) =~= seq![t[0]] + (rest.take(pos - 1) + seq![x] + rest.skip(
            pos - 1,
        )));
        assert(seq![t[0]] + rest.take(pos - 1) =~= t.take(pos));
        assert(rest.skip(pos - 1) =~= t.skip(pos));
    }
}

impl CriticAgent {
    /// Merges per-delta criticisms (model-read or battery) with the
    /// global pairwise conflict pass and stably orders everything by
    /// non-increasing severity.
    #[verifier::rlimit(100)]
    pub fn merge_and_sort_criticisms(
        &self,
        deltas: &Vec<Vec<u8>>,
        per_delta: Vec<Criticism>,
    ) -> (r: Vec<Criticism>)
        ensures
            c_proj(r@) == sort_desc_c(
                c_proj(per_delta@) + global_items_from(views2(deltas@), 0),
            ),
            sorted_desc_c(c_proj(r@)),
    {
        let ghost dv = views2(deltas@);
        let ghost base = c_proj(per_delta@);
        let ghost total = base + global_items_from(dv, 0);
        let mut all = per_delta;
        let mut gi: usize = 0;
        while gi < deltas.len()
            invariant
                gi <= dv.len(),
                dv == views2(deltas@),
                c_proj(all@) + global_items_from(dv, gi as int) =~= total,
            decreases dv.len() - gi,
        {
            let mut gj: usize = gi + 1;
            assert(global_items_from(dv, gi as int) == global_row(dv, gi as int, gi + 1)
                + global_items_from(dv, gi + 1));
            while gj < deltas.len()
                invariant
                    gi < dv.len(),
                    gi + 1 <= gj <= dv.len(),
                    dv == views2(deltas@),
                    c_proj(all@) + global_row(dv, gi as int, gj as int) + global_items_from(
                        dv,
                        gi + 1,
                    ) =~= total,
                decreases dv.len() - gj,
            {
                if self.are_deltas_conflicting(deltas[gi].as_slice(), deltas[gj].as_slice()) {
                    let mut message = ("建议 ").as_bytes_vec();
                    message.append(&mut dec_bytes((gi as u64) + 1));
                    message.extend_from_slice((" 与建议 ").as_bytes_vec().as_slice());
                    message.append(&mut dec_bytes((gj as u64) + 1));
                    message.extend_from_slice((" 存在逻辑冲突").as_bytes_vec().as_slice());
                    assert(message@ == pair_conflict_msg(gi as int, gj as int));
                    let ghost before = c_proj(all@);
                    all.push(
                        Criticism {
                            delta_index: gi,
                            category: CriticismCategory::LogicFlaw,
                            message,
                            severity: 800,
                        },
                    );
                    assert(c_proj(all@) =~= before.push(
                        (gi as int, CriticismCategory::LogicFlaw, pair_conflict_msg(
                            gi as int,
                            gj as int,
                        ), 800u32),
                    ));
                }
                assert(global_row(dv, gi as int, gj as int) == (if deltas_conflict(
                    lower_seq(dv[gi as int]),
                    lower_seq(dv[gj as int]),
                ) {
                    seq![
                        (gi as int, CriticismCategory::LogicFlaw, pair_conflict_msg(
                            gi as int,
                            gj as int,
                        ), 800u32),
                    ]
                } else {
                    Seq::empty()
                }) + global_row(dv, gi as int, gj + 1));
                gj = gj + 1;
            }
            assert(global_row(dv, gi as int, gj as int) =~= Seq::empty());
            gi = gi + 1;
        }
        assert(global_items_from(dv, gi as int) =~= Seq::empty());
        assert(c_proj(all@) =~= total);
        let ghost p = total;
        let mut out: Vec<Criticism> = Vec::new();
        let mut k: usize = 0;
        while k < all.len()
            invariant
                k <= all@.len(),
                p == total,
                c_proj(all@) =~= p,
                c_proj(out@) =~= sort_desc_c(p.take(k as int)),
                sorted_desc_c(c_proj(out@)),
            decreases all@.len() - k,
        {
            proof {
                assert(p.take(k + 1).drop_last() =~= p.take(k as int));
                assert(p.take(k + 1).last() == p[k as int]);
            }
            let item = &all[k];
            let ghost x = p[k as int];
            assert(x == (
                all@[k as int].delta_index as int,
                all@[k as int].category,
                all@[k as int].message@,
                all@[k as int].severity,
            ));
            let mut pos: usize = 0;
            loop
                invariant_except_break
                    pos <= out@.len(),
                    forall|t: int| 0 <= t < pos ==> (#[trigger] c_proj(out@)[t]).3 >= x.3,
                invariant
                    x.3 == item.severity,
                ensures
                    pos <= out@.len(),
                    forall|t: int| 0 <= t < pos ==> (#[trigger] c_proj(out@)[t]).3 >= x.3,
                    pos < out@.len() ==> c_proj(out@)[pos as int].3 < x.3,
                decreases out@.len() - pos,
            {
                if pos >= out.len() {
                    break ;
                }
                if out[pos].severity < item.severity {
                    assert(c_proj(out@)[pos as int].3 < x.3);
                    break ;
                }
                assert(c_proj(out@)[pos as int].3 >= x.3);
                pos = pos + 1;
            }
            proof {
                lemma_ins_desc_c_at(c_proj(out@), x, pos as int);
            }
            let ghost before = c_proj(out@);
            out.insert(pos, item.duplicate());
            assert(c_proj(out@) =~= before.take(pos as int) + seq![x] + before.skip(pos as int))
                by {
                assert forall|t: int| 0 <= t < c_proj(out@).len() implies #[trigger] c_proj(out@)[t]
                    == (before.take(pos as int) + seq![x] + before.skip(pos as int))[t] by {
                    if t < pos {
                        assert(c_proj(out@)[t] == before[t]);
                    } else if t == pos {
                    } else {
                        assert(c_proj(out@)[t] == before[t - 1]);
                    }
                }
            }
            assert(c_proj(out@) =~= ins_desc_c(before, x));
            assert(c_proj(out@) =~= sort_desc_c(p.take(k + 1)));
            proof {
                lemma_sort_desc_c_sorted(p.take(k + 1));
            }
            k = k + 1;
        }
        assert(p.take(p.len() as int) =~= p);
        out
    }
}

} // verus!
