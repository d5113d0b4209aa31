//! The innovator stage: curated improvement candidates per dimension,
//! composite scoring, and stable descending ranking truncated to the five
//! best.

use vstd::prelude::*;
use vstd::string::StrSliceExecFns;
use vstd::string::StringSliceAdditionalSpecFns;

use crate::agents::{Agent, AgentCapability, AgentContext, AgentError, AgentResult};
use crate::data::{answer_view, valid_permille, StructuredIdea};
use crate::text::views2;

verus! {

/// The closed set of innovation dimensions.
#[derive(Debug, Clone, Copy, PartialEq, Eq, Structural, Hash)]
pub enum InnovationDimension {
    Scope,
    Technology,
    Business,
    User,
    Process,
    Risk,
    Scale,
    Integration,
}

/// One proposed improvement. The raw impact, feasibility and innovation
/// scores stay untouched; the ranking writes the weighted blend into the
/// separate `composite_score` field.
#[derive(Debug, Clone)]
pub struct Delta {
    pub content: Vec<u8>,
    pub dimension: InnovationDimension,
    pub impact_level: u32,
    pub feasibility: u32,
    pub innovation_score: u32,
    pub composite_score: u32,
    pub reasoning: Vec<u8>,
}

impl Delta {
    /// Well-formedness: every score is a unit-interval value.
    pub open spec fn wf(&self) -> bool {
        valid_permille(self.impact_level) && valid_permille(self.feasibility) && valid_permille(
            self.innovation_score,
        )
    }

    /// A copy with the same spec-level content.
    pub fn duplicate(&self) -> (r: Delta)
        ensures
            delta_p(r) == delta_p(*self),
    {
        Delta {
            content: self.content.clone(),
            dimension: self.dimension,
            impact_level: self.impact_level,
            feasibility: self.feasibility,
            innovation_score: self.innovation_score,
            composite_score: self.composite_score,
            reasoning: self.reasoning.clone(),
        }
    }
}

/// The spec-level content of one delta.
pub open spec fn delta_p(d: Delta) -> (Seq<u8>, InnovationDimension, u32, u32, u32, u32, Seq<u8>) {
    (
        d.content@,
        d.dimension,
        d.impact_level,
        d.feasibility,
        d.innovation_score,
        d.composite_score,
        d.reasoning@,
    )
}

/// The spec-level content of a delta list.
pub open spec fn d_proj(s: Seq<Delta>) -> Seq<
    (Seq<u8>, InnovationDimension, u32, u32, u32, u32, Seq<u8>),
> {
    Seq::new(s.len(), |i: int| delta_p(s[i]))
}

/// The composite score: impact weighted 0.4, feasibility 0.3, innovation
/// 0.3, in thousandths.
pub open spec fn composite_of(impact: u32, feasibility: u32, innovation: u32) -> u32 {
    ((4 * impact + 3 * feasibility + 3 * innovation) / 10) as u32
}

/// Every delta with its composite score written in.
pub open spec fn with_composites(
    s: Seq<(Seq<u8>, InnovationDimension, u32, u32, u32, u32, Seq<u8>)>,
) -> Seq<(Seq<u8>, InnovationDimension, u32, u32, u32, u32, Seq<u8>)> {
    Seq::new(s.len(), |i: int| (s[i].0, s[i].1, s[i].2, s[i].3, s[i].4, composite_of(s[i].2, s[i].3, s[i].4), s[i].6))
}

/// Stable descending insertion: `x` goes before the first element whose
/// composite is strictly smaller.
pub open spec fn ins_desc(
    t: Seq<(Seq<u8>, InnovationDimension, u32, u32, u32, u32, Seq<u8>)>,
    x: (Seq<u8>, InnovationDimension, u32, u32, u32, u32, Seq<u8>),
) -> Seq<(Seq<u8>, InnovationDimension, u32, u32, u32, u32, Seq<u8>)>
    decreases t.len(),
{
    if t.len() == 0 {
        seq![x]
    } else if t[0].5 < x.5 {
        seq![x] + t
    } else {
        seq![t[0]] + ins_desc(t.drop_first(), x)
    }
}

/// Stable sort by non-increasing composite score.
pub open spec fn sort_desc(s: Seq<(Seq<u8>, InnovationDimension, u32, u32, u32, u32, Seq<u8>)>) -> Seq<
    (Seq<u8>, InnovationDimension, u32, u32, u32, u32, Seq<u8>),
>
    decreases s.len(),
{
    if s.len() == 0 {
        Seq::empty()
    } else {
        ins_desc(sort_desc(s.drop_last()), s.last())
    }
}

/// Non-increasing composite order.
pub open spec fn sorted_desc(
    s: Seq<(Seq<u8>, InnovationDimension, u32, u32, u32, u32, Seq<u8>)>,
) -> bool {
    forall|i: int, j: int| 0 <= i < j < s.len() ==> (#[trigger] s[i]).5 >= (#[trigger] s[j]).5
}

/// The innovator stage.
pub struct InnovatorAgent {}

/// Scope deltas: end-to-end and adjacent-domain extensions of the target,
/// plus the wider stakeholder ecosystem.
pub open spec fn scope_items(s: StructuredIdea) -> Seq<
    (Seq<u8>, InnovationDimension, u32, u32, u32, u32, Seq<u8>),
> {
    scope_target_items(s) + scope_stakeholder_items(s)
}

/// The target-derived scope deltas.
pub open spec fn scope_target_items(s: StructuredIdea) -> Seq<
    (Seq<u8>, InnovationDimension, u32, u32, u32, u32, Seq<u8>),
> {
    (if answer_view(s.target) is Some {
        seq![
            (
                ("将「").spec_bytes() + answer_view(s.target)->0 + (
                "」的目标从单点突破扩展到全链条覆盖，形成端到端解决方案").spec_bytes(),
                InnovationDimension::Scope,
                800u32,
                600u32,
                700u32,
                0u32,
                ("通过全链条思维可以发现更多价值点和协同效应").spec_bytes(),
            ),
            (
                ("基于「").spec_bytes() + answer_view(s.target)->0 + (
                "」的核心能力，拓展到相邻领域和场景应用").spec_bytes(),
                InnovationDimension::Scope,
                700u32,
                700u32,
                600u32,
                0u32,
                ("核心能力的横向复用可以快速扩大影响范围").spec_bytes(),
            ),
        ]
    } else {
        Seq::empty()
    })
}

/// The stakeholder-ecosystem scope delta; like every scope delta, it is
/// only produced when a target is stated.
pub open spec fn scope_stakeholder_items(s: StructuredIdea) -> Seq<
    (Seq<u8>, InnovationDimension, u32, u32, u32, u32, Seq<u8>),
> {
    if answer_view(s.target) is Some && s.stakeholders@.len() > 0 {
        seq![
            (
                ("识别和纳入间接利益相关者，构建更广泛的生态协作网络").spec_bytes(),
                InnovationDimension::Scope,
                600u32,
                800u32,
                500u32,
                0u32,
                ("生态思维可以创造更大的整体价值和可持续性").spec_bytes(),
            ),
        ]
    } else {
        Seq::empty()
    }
}

/// Without a stated target, no scope delta is produced at all.
pub proof fn lemma_no_scope_deltas_without_target(s: StructuredIdea)
    requires
        answer_view(s.target) is None,
    ensures
        scope_items(s).len() == 0,
{
}

impl InnovatorAgent {
    /// A fresh innovator.
    pub fn new() -> (r: Self) {
        InnovatorAgent {  }
    }

    /// Scope deltas: extensions of the target and of the stakeholder
    /// network.
    pub fn generate_scope_deltas(&self, idea: &StructuredIdea) -> (r: Vec<Delta>)
        ensures
            d_proj(r@) == scope_items(*idea),
    {
        let mut r: Vec<Delta> = Vec::new();
        match &idea.target {
            Some(target) => {
                assert(answer_view(idea.target) == Some(target@));
                let mut c0 = ("将「").as_bytes_vec();
                c0.extend_from_slice(target.as_slice());
                c0.extend_from_slice(
                    ("」的目标从单点突破扩展到全链条覆盖，形成端到端解决方案").as_bytes_vec().as_slice(),
                );
                r.push(
                    Delta {
                        content: c0,
                        dimension: InnovationDimension::Scope,
                        impact_level: 800,
                        feasibility: 600,
                        innovation_score: 700,
                        composite_score: 0,
                        reasoning: ("通过全链条思维可以发现更多价值点和协同效应").as_bytes_vec(),
                    },
                );
                let mut c1 = ("基于「").as_bytes_vec();
                c1.extend_from_slice(target.as_slice());
                c1.extend_from_slice(("」的核心能力，拓展到相邻领域和场景应用").as_bytes_vec().as_slice());
                r.push(
                    Delta {
                        content: c1,
                        dimension: InnovationDimension::Scope,
                        impact_level: 700,
                        feasibility: 700,
                        innovation_score: 600,
                        composite_score: 0,
                        reasoning: ("核心能力的横向复用可以快速扩大影响范围").as_bytes_vec(),
                    },
                );
                assert(r@[0].content@ == scope_target_items(*idea)[0].0);
                assert(delta_p(r@[0]) == scope_target_items(*idea)[0]);
                assert(delta_p(r@[1]) == scope_target_items(*idea)[1]);
                assert(d_proj(r@) =~= scope_target_items(*idea));
            },
            None => {
                assert(d_proj(r@) =~= scope_target_items(*idea));
            },
        }
        assert(d_proj(r@) =~= scope_target_items(*idea));
        let ghost before = d_proj(r@);
        if idea.target.is_some() && idea.stakeholders.len() > 0 {
            r.push(
                Delta {
                    content: ("识别和纳入间接利益相关者，构建更广泛的生态协作网络").as_bytes_vec(),
                    dimension: InnovationDimension::Scope,
                    impact_level: 600,
                    feasibility: 800,
                    innovation_score: 500,
                    composite_score: 0,
                    reasoning: ("生态思维可以创造更大的整体价值和可持续性").as_bytes_vec(),
                },
            );
        }
        assert(d_proj(r@) =~= before + scope_stakeholder_items(*idea));
        r
    }
}

/// The ranked form of a delta list: composites written in, then stably
/// sorted by non-increasing composite.
pub open spec fn ranked(s: Seq<(Seq<u8>, InnovationDimension, u32, u32, u32, u32, Seq<u8>)>) -> Seq<
    (Seq<u8>, InnovationDimension, u32, u32, u32, u32, Seq<u8>),
> {
    sort_desc(with_composites(s))
}

proof fn lemma_ins_desc_props(
    t: Seq<(Seq<u8>, InnovationDimension, u32, u32, u32, u32, Seq<u8>)>,
    x: (Seq<u8>, InnovationDimension, u32, u32, u32, u32, Seq<u8>),
)
    requires
        sorted_desc(t),
    ensures
        sorted_desc(ins_desc(t, x)),
        ins_desc(t, x).len() == t.len() + 1,
        forall|j: int|
            0 <= j < ins_desc(t, x).len() ==> (#[trigger] ins_desc(t, x)[j]).5 <= x.5 || (t.len()
                > 0 && ins_desc(t, x)[j].5 <= t[0].5),
    decreases t.len(),
{
    if t.len() == 0 {
    } else if t[0].5 < x.5 {
        assert forall|i: int, j: int|
            0 <= i < j < ins_desc(t, x).len() implies (#[trigger] ins_desc(t, x)[i]).5 >= (
        #[trigger] ins_desc(t, x)[j]).5 by {
            if i > 0 {
                assert(ins_desc(t, x)[i] == t[i - 1]);
                assert(ins_desc(t, x)[j] == t[j - 1]);
            } else {
                assert(ins_desc(t, x)[j] == t[j - 1]);
                assert(t[0].5 >= t[j - 1].5);
            }
        }
    } else {
        let rest = t.drop_first();
        assert(sorted_desc(rest)) by {
            assert forall|i: int, j: int|
                0 <= i < j < rest.len() implies (#[trigger] rest[i]).5 >= (#[trigger] rest[j]).5 by {
                assert(rest[i] == t[i + 1]);
                assert(rest[j] == t[j + 1]);
            }
        }
        lemma_ins_desc_props(rest, x);
        let inner = ins_desc(rest, x);
        assert forall|i: int, j: int|
            0 <= i < j < ins_desc(t, x).len() implies (#[trigger] ins_desc(t, x)[i]).5 >= (
        #[trigger] ins_desc(t, x)[j]).5 by {
            if i == 0 {
                assert(ins_desc(t, x)[j] == inner[j - 1]);
                if rest.len() > 0 {
                    assert(rest[0] == t[1]);
                    assert(t[0].5 >= t[1].5);
                }
                assert(inner[j - 1].5 <= x.5 || (rest.len() > 0 && inner[j - 1].5 <= rest[0].5));
            } else {
                assert(ins_desc(t, x)[i] == inner[i - 1]);
                assert(ins_desc(t, x)[j] == inner[j - 1]);
            }
        }
        assert forall|j: int|
            0 <= j < ins_desc(t, x).len() implies (#[trigger] ins_desc(t, x)[j]).5 <= x.5 || (
        t.len() > 0 && ins_desc(t, x)[j].5 <= t[0].5) by {
            if j > 0 {
                assert(ins_desc(t, x)[j] == inner[j - 1]);
                if rest.len() > 0 {
                    assert(rest[0] == t[1]);
                }
            }
        }
    }
}

/// Stable sorting yields a non-increasing composite order.
pub proof fn lemma_sort_desc_sorted(
    s: Seq<(Seq<u8>, InnovationDimension, u32, u32, u32, u32, Seq<u8>)>,
)
    ensures
        sorted_desc(sort_desc(s)),
        sort_desc(s).len() == s.len(),
    decreases s.len(),
{
    if s.len() > 0 {
        lemma_sort_desc_sorted(s.drop_last());
        lemma_ins_desc_props(sort_desc(s.drop_last()), s.last());
    }
}

proof fn lemma_ins_desc_at(
    t: Seq<(Seq<u8>, InnovationDimension, u32, u32, u32, u32, Seq<u8>)>,
    x: (Seq<u8>, InnovationDimension, u32, u32, u32, u32, Seq<u8>),
    pos: int,
)
    requires
        0 <= pos <= t.len(),
        forall|k: int| 0 <= k < pos ==> (#[trigger] t[k]).5 >= x.5,
        pos < t.len() ==> t[pos].5 < x.5,
    ensures
        ins_desc(t, x) =~= t.take(pos) + seq![x] + t.skip(pos),
    decreases pos,
{
    if t.len() == 0 {
    } else if t[0].5 < x.5 {
        assert(pos == 0);
    } else {
        assert(pos > 0) by {
            if pos == 0 {
                assert(t[0].5 < x.5);
            }
        }
        let rest = t.drop_first();
        assert forall|k: int| 0 <= k < pos - 1 implies (#[trigger] rest[k]).5 >= x.5 by {
            assert(rest[k] == t[k + 1]);
        }
        assert(pos - 1 < rest.len() ==> rest[pos - 1].5 < x.5) by {
            if pos - 1 < rest.len() {
                assert(rest[pos - 1] == t[pos]);
            }
        }
        lemma_ins_desc_at(rest, x, pos - 1);
        assert(ins_desc(t, x) =~= seq![t[0]] + (rest.take(pos - 1) + seq![x] + rest.skip(pos - 1)));
        assert(seq![t[0]] + rest.take(pos - 1) =~= t.take(pos));
        assert(rest.skip(pos - 1) =~= t.skip(pos));
    }
}

/// Ranks a delta list in place: writes each delta's composite score, then
/// stably sorts by non-increasing composite.
#[verifier::rlimit(60)]
pub fn score_and_rank_deltas(deltas: &mut Vec<Delta>)
    requires
        forall|i: int| 0 <= i < old(deltas)@.len() ==> (#[trigger] old(deltas)@[i]).wf(),
    ensures
        d_proj(final(deltas)@) == ranked(d_proj(old(deltas)@)),
        sorted_desc(d_proj(final(deltas)@)),
        final(deltas)@.len() == old(deltas)@.len(),
{
    let ghost orig = d_proj(deltas@);
    let mut scored: Vec<Delta> = Vec::new();
    let mut i: usize = 0;
    while i < deltas.len()
        invariant
            i <= deltas@.len(),
            orig == d_proj(deltas@),
            forall|k: int| 0 <= k < deltas@.len() ==> (#[trigger] deltas@[k]).wf(),
            d_proj(scored@) =~= with_composites(orig).take(i as int),
        decreases deltas@.len() - i,
    {
        let d = &deltas[i];
        let composite: u32 = (4 * d.impact_level + 3 * d.feasibility + 3 * d.innovation_score)
            / 10;
        let ghost before = d_proj(scored@);
        scored.push(
            Delta {
                content: d.content.clone(),
                dimension: d.dimension,
                impact_level: d.impact_level,
                feasibility: d.feasibility,
                innovation_score: d.innovation_score,
                composite_score: composite,
                reasoning: d.reasoning.clone(),
            },
        );
        assert(d_proj(scored@) =~= before.push(with_composites(orig)[i as int]));
        assert(d_proj(scored@) =~= with_composites(orig).take(i + 1));
        i = i + 1;
    }
    assert(with_composites(orig).take(with_composites(orig).len() as int) =~= with_composites(
        orig,
    ));
    let ghost p = with_composites(orig);
    let mut out: Vec<Delta> = Vec::new();
    let mut k: usize = 0;
    while k < scored.len()
        invariant
            k <= scored@.len(),
            p == with_composites(orig),
            d_proj(scored@) =~= p,
            d_proj(out@) =~= sort_desc(p.take(k as int)),
            sorted_desc(d_proj(out@)),
        decreases scored@.len() - k,
    {
        proof {
            assert(p.take(k + 1).drop_last() =~= p.take(k as int));
            assert(p.take(k + 1).last() == p[k as int]);
        }
        let item = &scored[k];
        let ghost x = p[k as int];
        assert(delta_p(scored@[k as int]) == x);
        let mut pos: usize = 0;
        loop
            invariant_except_break
                pos <= out@.len(),
                forall|t: int| 0 <= t < pos ==> (#[trigger] d_proj(out@)[t]).5 >= x.5,
            invariant
                x.5 == item.composite_score,
            ensures
                pos <= out@.len(),
                forall|t: int| 0 <= t < pos ==> (#[trigger] d_proj(out@)[t]).5 >= x.5,
                pos < out@.len() ==> d_proj(out@)[pos as int].5 < x.5,
            decreases out@.len() - pos,
        {
            if pos >= out.len() {
                break ;
            }
            if out[pos].composite_score < item.composite_score {
                assert(d_proj(out@)[pos as int].5 < x.5);
                break ;
            }
            assert(d_proj(out@)[pos as int].5 >= x.5);
            pos = pos + 1;
        }
        proof {
            lemma_ins_desc_at(d_proj(out@), x, pos as int);
        }
        let ghost before = d_proj(out@);
        out.insert(pos, item.duplicate());
        assert(d_proj(out@) =~= before.take(pos as int) + seq![x] + before.skip(pos as int)) by {
            assert(out@ =~= out@);
            assert forall|t: int| 0 <= t < d_proj(out@).len() implies #[trigger] d_proj(out@)[t]
                == (before.take(pos as int) + seq![x] + before.skip(pos as int))[t] by {
                if t < pos {
                    assert(out@[t] == out@[t]);
                    assert(delta_p(out@[t]) == before[t]);
                } else if t == pos {
                    assert(delta_p(out@[t]) == x);
                } else {
                    assert(delta_p(out@[t]) == before[t - 1]);
                }
            }
        }
        assert(d_proj(out@) =~= ins_desc(before, x));
        assert(d_proj(out@) =~= sort_desc(p.take(k + 1)));
        proof {
            lemma_sort_desc_sorted(p.take(k + 1));
        }
        k = k + 1;
    }
    assert(p.take(p.len() as int) =~= p);
    proof {
        lemma_sort_desc_sorted(p);
    }
    assert(out@.len() == old(deltas)@.len());
    *deltas = out;
}

/// Technology deltas: automation, data, and platform architecture.
pub open spec fn technology_items(s: StructuredIdea) -> Seq<
    (Seq<u8>, InnovationDimension, u32, u32, u32, u32, Seq<u8>),
> {
    seq![
        (("引入AI和自动化技术，提升效率并实现智能化升级").spec_bytes(), InnovationDimension::Technology, 900u32, 700u32, 800u32, 0u32, ("AI技术可以显著提升处理能力和用户体验").spec_bytes()),
    ] + seq![
        (("建立数据收集和分析体系，实现基于数据的持续优化").spec_bytes(), InnovationDimension::Technology, 700u32, 800u32, 600u32, 0u32, ("数据驱动可以实现精准决策和个性化服务").spec_bytes()),
    ] + (if s.deliverables@.len() > 0 {
    seq![
        (("采用平台化架构设计，支持模块化扩展和第三方集成").spec_bytes(), InnovationDimension::Technology, 800u32, 600u32, 700u32, 0u32, ("平台化可以提高复用性和可扩展性").spec_bytes()),
    ]
} else {
    Seq::empty()
})
}

impl InnovatorAgent {
    /// Technology deltas: automation, data, and platform architecture.
    pub fn generate_technology_deltas(&self, idea: &StructuredIdea) -> (r: Vec<Delta>)
        ensures
            d_proj(r@) == technology_items(*idea),
    {
        let mut r: Vec<Delta> = Vec::new();
        r.push(Delta {
            content: ("引入AI和自动化技术，提升效率并实现智能化升级").as_bytes_vec(),
            dimension: InnovationDimension::Technology,
            impact_level: 900,
            feasibility: 700,
            innovation_score: 800,
            composite_score: 0,
            reasoning: ("AI技术可以显著提升处理能力和用户体验").as_bytes_vec(),
        });
        r.push(Delta {
            content: ("建立数据收集和分析体系，实现基于数据的持续优化").as_bytes_vec(),
            dimension: InnovationDimension::Technology,
            impact_level: 700,
            feasibility: 800,
            innovation_score: 600,
            composite_score: 0,
            reasoning: ("数据驱动可以实现精准决策和个性化服务").as_bytes_vec(),
        });
        if idea.deliverables.len() > 0 {
            r.push(Delta {
            content: ("采用平台化架构设计，支持模块化扩展和第三方集成").as_bytes_vec(),
            dimension: InnovationDimension::Technology,
            impact_level: 800,
            feasibility: 600,
            innovation_score: 700,
            composite_score: 0,
            reasoning: ("平台化可以提高复用性和可扩展性").as_bytes_vec(),
        });
        }
        assert(d_proj(r@) =~= technology_items(*idea));
        r
    }
}

/// Business-model deltas: value networks, service models, freemium.
pub open spec fn business_items(s: StructuredIdea) -> Seq<
    (Seq<u8>, InnovationDimension, u32, u32, u32, u32, Seq<u8>),
> {
    seq![
        (("重新设计价值创造和分配机制，构建多方共赢的商业生态").spec_bytes(), InnovationDimension::Business, 800u32, 500u32, 900u32, 0u32, ("创新的价值分配机制可以激发更大的参与动力").spec_bytes()),
    ] + seq![
        (("从一次性交付转向持续服务模式，建立长期客户关系").spec_bytes(), InnovationDimension::Business, 700u32, 700u32, 600u32, 0u32, ("服务化模式可以提供更稳定的收入和更深的客户绑定").spec_bytes()),
    ] + (if s.stakeholders@.len() > 0 {
    seq![
        (("采用免费增值策略，通过基础功能免费快速扩大用户基础").spec_bytes(), InnovationDimension::Business, 600u32, 800u32, 500u32, 0u32, ("免费策略可以快速获取用户，后续通过增值服务变现").spec_bytes()),
    ]
} else {
    Seq::empty()
})
}

impl InnovatorAgent {
    /// Business-model deltas: value networks, service models, freemium.
    pub fn generate_business_deltas(&self, idea: &StructuredIdea) -> (r: Vec<Delta>)
        ensures
            d_proj(r@) == business_items(*idea),
    {
        let mut r: Vec<Delta> = Vec::new();
        r.push(Delta {
            content: ("重新设计价值创造和分配机制，构建多方共赢的商业生态").as_bytes_vec(),
            dimension: InnovationDimension::Business,
            impact_level: 800,
            feasibility: 500,
            innovation_score: 900,
            composite_score: 0,
            reasoning: ("创新的价值分配机制可以激发更大的参与动力").as_bytes_vec(),
        });
        r.push(Delta {
            content: ("从一次性交付转向持续服务模式，建立长期客户关系").as_bytes_vec(),
            dimension: InnovationDimension::Business,
            impact_level: 700,
            feasibility: 700,
            innovation_score: 600,
            composite_score: 0,
            reasoning: ("服务化模式可以提供更稳定的收入和更深的客户绑定").as_bytes_vec(),
        });
        if idea.stakeholders.len() > 0 {
            r.push(Delta {
            content: ("采用免费增值策略，通过基础功能免费快速扩大用户基础").as_bytes_vec(),
            dimension: InnovationDimension::Business,
            impact_level: 600,
            feasibility: 800,
            innovation_score: 500,
            composite_score: 0,
            reasoning: ("免费策略可以快速获取用户，后续通过增值服务变现").as_bytes_vec(),
        });
        }
        assert(d_proj(r@) =~= business_items(*idea));
        r
    }
}

/// User-experience deltas: personalization, interaction, community.
pub open spec fn user_items(s: StructuredIdea) -> Seq<
    (Seq<u8>, InnovationDimension, u32, u32, u32, u32, Seq<u8>),
> {
    seq![
        (("基于用户行为和偏好数据，提供个性化的体验和推荐").spec_bytes(), InnovationDimension::User, 800u32, 700u32, 700u32, 0u32, ("个性化可以显著提升用户满意度和粘性").spec_bytes()),
    ] + seq![
        (("支持语音、手势、AR/VR等多种交互方式，提升交互自然性").spec_bytes(), InnovationDimension::User, 700u32, 600u32, 800u32, 0u32, ("多模态交互可以降低使用门槛并提升用户体验").spec_bytes()),
    ] + (if s.stakeholders@.len() > 1 {
    seq![
        (("构建用户社区和协作功能，促进用户间的知识分享和互助").spec_bytes(), InnovationDimension::User, 600u32, 800u32, 600u32, 0u32, ("社区化可以增强用户粘性和价值创造").spec_bytes()),
    ]
} else {
    Seq::empty()
})
}

impl InnovatorAgent {
    /// User-experience deltas: personalization, interaction, community.
    pub fn generate_user_deltas(&self, idea: &StructuredIdea) -> (r: Vec<Delta>)
        ensures
            d_proj(r@) == user_items(*idea),
    {
        let mut r: Vec<Delta> = Vec::new();
        r.push(Delta {
            content: ("基于用户行为和偏好数据，提供个性化的体验和推荐").as_bytes_vec(),
            dimension: InnovationDimension::User,
            impact_level: 800,
            feasibility: 700,
            innovation_score: 700,
            composite_score: 0,
            reasoning: ("个性化可以显著提升用户满意度和粘性").as_bytes_vec(),
        });
        r.push(Delta {
            content: ("支持语音、手势、AR/VR等多种交互方式，提升交互自然性").as_bytes_vec(),
            dimension: InnovationDimension::User,
            impact_level: 700,
            feasibility: 600,
            innovation_score: 800,
            composite_score: 0,
            reasoning: ("多模态交互可以降低使用门槛并提升用户体验").as_bytes_vec(),
        });
        if idea.stakeholders.len() > 1 {
            r.push(Delta {
            content: ("构建用户社区和协作功能，促进用户间的知识分享和互助").as_bytes_vec(),
            dimension: InnovationDimension::User,
            impact_level: 600,
            feasibility: 800,
            innovation_score: 600,
            composite_score: 0,
            reasoning: ("社区化可以增强用户粘性和价值创造").as_bytes_vec(),
        });
        }
        assert(d_proj(r@) =~= user_items(*idea));
        r
    }
}

/// Process deltas: agile iteration and automated workflows.
pub open spec fn process_items(s: StructuredIdea) -> Seq<
    (Seq<u8>, InnovationDimension, u32, u32, u32, u32, Seq<u8>),
> {
    seq![
        (("采用敏捷开发和快速迭代模式，加快响应速度和适应性").spec_bytes(), InnovationDimension::Process, 700u32, 800u32, 500u32, 0u32, ("敏捷模式可以快速验证想法并降低风险").spec_bytes()),
    ] + seq![
        (("设计自动化工作流程，减少人工干预和提高处理效率").spec_bytes(), InnovationDimension::Process, 800u32, 700u32, 600u32, 0u32, ("自动化可以显著提升效率和一致性").spec_bytes()),
    ]
}

impl InnovatorAgent {
    /// Process deltas: agile iteration and automated workflows.
    pub fn generate_process_deltas(&self, idea: &StructuredIdea) -> (r: Vec<Delta>)
        ensures
            d_proj(r@) == process_items(*idea),
    {
        let mut r: Vec<Delta> = Vec::new();
        r.push(Delta {
            content: ("采用敏捷开发和快速迭代模式，加快响应速度和适应性").as_bytes_vec(),
            dimension: InnovationDimension::Process,
            impact_level: 700,
            feasibility: 800,
            innovation_score: 500,
            composite_score: 0,
            reasoning: ("敏捷模式可以快速验证想法并降低风险").as_bytes_vec(),
        });
        r.push(Delta {
            content: ("设计自动化工作流程，减少人工干预和提高处理效率").as_bytes_vec(),
            dimension: InnovationDimension::Process,
            impact_level: 800,
            feasibility: 700,
            innovation_score: 600,
            composite_score: 0,
            reasoning: ("自动化可以显著提升效率和一致性").as_bytes_vec(),
        });
        assert(d_proj(r@) =~= process_items(*idea));
        r
    }
}

/// Risk-control deltas: staged validation, alternatives, monitoring.
pub open spec fn risk_items(s: StructuredIdea) -> Seq<
    (Seq<u8>, InnovationDimension, u32, u32, u32, u32, Seq<u8>),
> {
    seq![
        (("设计分阶段验证机制，通过MVP和原型快速验证核心假设").spec_bytes(), InnovationDimension::Risk, 800u32, 900u32, 500u32, 0u32, ("分阶段验证可以最小化风险和资源浪费").spec_bytes()),
    ] + seq![
        (("为关键环节准备备选技术方案和实施路径").spec_bytes(), InnovationDimension::Risk, 600u32, 800u32, 400u32, 0u32, ("备选方案可以降低单点失败风险").spec_bytes()),
    ] + (if s.risks_assumptions@.len() > 0 {
    seq![
        (("建立实时风险监控和预警机制，及时识别和应对风险").spec_bytes(), InnovationDimension::Risk, 700u32, 700u32, 600u32, 0u32, ("主动风险管理可以避免问题扩大化").spec_bytes()),
    ]
} else {
    Seq::empty()
})
}

impl InnovatorAgent {
    /// Risk-control deltas: staged validation, alternatives, monitoring.
    pub fn generate_risk_deltas(&self, idea: &StructuredIdea) -> (r: Vec<Delta>)
        ensures
            d_proj(r@) == risk_items(*idea),
    {
        let mut r: Vec<Delta> = Vec::new();
        r.push(Delta {
            content: ("设计分阶段验证机制，通过MVP和原型快速验证核心假设").as_bytes_vec(),
            dimension: InnovationDimension::Risk,
            impact_level: 800,
            feasibility: 900,
            innovation_score: 500,
            composite_score: 0,
            reasoning: ("分阶段验证可以最小化风险和资源浪费").as_bytes_vec(),
        });
        r.push(Delta {
            content: ("为关键环节准备备选技术方案和实施路径").as_bytes_vec(),
            dimension: InnovationDimension::Risk,
            impact_level: 600,
            feasibility: 800,
            innovation_score: 400,
            composite_score: 0,
            reasoning: ("备选方案可以降低单点失败风险").as_bytes_vec(),
        });
        if idea.risks_assumptions.len() > 0 {
            r.push(Delta {
            content: ("建立实时风险监控和预警机制，及时识别和应对风险").as_bytes_vec(),
            dimension: InnovationDimension::Risk,
            impact_level: 700,
            feasibility: 700,
            innovation_score: 600,
            composite_score: 0,
            reasoning: ("主动风险管理可以避免问题扩大化").as_bytes_vec(),
        });
        }
        assert(d_proj(r@) =~= risk_items(*idea));
        r
    }
}

/// Scaling deltas: cloud-native architecture and standardization.
pub open spec fn scale_items(s: StructuredIdea) -> Seq<
    (Seq<u8>, InnovationDimension, u32, u32, u32, u32, Seq<u8>),
> {
    seq![
        (("采用云原生架构和微服务设计，支持弹性伸缩和高可用").spec_bytes(), InnovationDimension::Scale, 800u32, 700u32, 600u32, 0u32, ("云原生架构为未来扩展提供技术基础").spec_bytes()),
    ] + seq![
        (("建立标准化的部署和运营模式，支持快速复制到新市场").spec_bytes(), InnovationDimension::Scale, 700u32, 800u32, 500u32, 0u32, ("标准化可以降低扩展成本和复杂度").spec_bytes()),
    ]
}

impl InnovatorAgent {
    /// Scaling deltas: cloud-native architecture and standardization.
    pub fn generate_scale_deltas(&self, idea: &StructuredIdea) -> (r: Vec<Delta>)
        ensures
            d_proj(r@) == scale_items(*idea),
    {
        let mut r: Vec<Delta> = Vec::new();
        r.push(Delta {
            content: ("采用云原生架构和微服务设计，支持弹性伸缩和高可用").as_bytes_vec(),
            dimension: InnovationDimension::Scale,
            impact_level: 800,
            feasibility: 700,
            innovation_score: 600,
            composite_score: 0,
            reasoning: ("云原生架构为未来扩展提供技术基础").as_bytes_vec(),
        });
        r.push(Delta {
            content: ("建立标准化的部署和运营模式，支持快速复制到新市场").as_bytes_vec(),
            dimension: InnovationDimension::Scale,
            impact_level: 700,
            feasibility: 800,
            innovation_score: 500,
            composite_score: 0,
            reasoning: ("标准化可以降低扩展成本和复杂度").as_bytes_vec(),
        });
        assert(d_proj(r@) =~= scale_items(*idea));
        r
    }
}

/// Integration deltas: open APIs and data interchange.
pub open spec fn integration_items(s: StructuredIdea) -> Seq<
    (Seq<u8>, InnovationDimension, u32, u32, u32, u32, Seq<u8>),
> {
    seq![
        (("构建开放API生态，支持第三方集成和合作伙伴扩展").spec_bytes(), InnovationDimension::Integration, 700u32, 800u32, 700u32, 0u32, ("开放生态可以借助外部力量加速发展").spec_bytes()),
    ] + seq![
        (("设计数据互通和同步机制，与现有系统无缝集成").spec_bytes(), InnovationDimension::Integration, 800u32, 600u32, 600u32, 0u32, ("数据互通可以减少使用门槛和切换成本").spec_bytes()),
    ]
}

impl InnovatorAgent {
    /// Integration deltas: open APIs and data interchange.
    pub fn generate_integration_deltas(&self, idea: &StructuredIdea) -> (r: Vec<Delta>)
        ensures
            d_proj(r@) == integration_items(*idea),
    {
        let mut r: Vec<Delta> = Vec::new();
        r.push(Delta {
            content: ("构建开放API生态，支持第三方集成和合作伙伴扩展").as_bytes_vec(),
            dimension: InnovationDimension::Integration,
            impact_level: 700,
            feasibility: 800,
            innovation_score: 700,
            composite_score: 0,
            reasoning: ("开放生态可以借助外部力量加速发展").as_bytes_vec(),
        });
        r.push(Delta {
            content: ("设计数据互通和同步机制，与现有系统无缝集成").as_bytes_vec(),
            dimension: InnovationDimension::Integration,
            impact_level: 800,
            feasibility: 600,
            innovation_score: 600,
            composite_score: 0,
            reasoning: ("数据互通可以减少使用门槛和切换成本").as_bytes_vec(),
        });
        assert(d_proj(r@) =~= integration_items(*idea));
        r
    }
}

/// The stock deltas used when nothing could be generated.
pub open spec fn fallback_items() -> Seq<
    (Seq<u8>, InnovationDimension, u32, u32, u32, u32, Seq<u8>),
> {
    seq![
        (
            ("考虑将解决方案扩展到相关的垂直领域或行业").spec_bytes(),
            InnovationDimension::Scope,
            700u32,
            600u32,
            500u32,
            0u32,
            ("通过扩大应用范围可以增加影响力").spec_bytes(),
        ),
        (
            ("引入人工智能或机器学习技术来优化核心流程").spec_bytes(),
            InnovationDimension::Technology,
            800u32,
            500u32,
            800u32,
            0u32,
            ("AI技术可以显著提升效率和效果").spec_bytes(),
        ),
        (
            ("设计更加直观和个性化的用户界面").spec_bytes(),
            InnovationDimension::User,
            600u32,
            800u32,
            400u32,
            0u32,
            ("改善用户体验可以提高采用率").spec_bytes(),
        ),
    ]
}

/// Every curated candidate the heuristic path generates, in dimension
/// order.
pub open spec fn generated_all(s: StructuredIdea) -> Seq<
    (Seq<u8>, InnovationDimension, u32, u32, u32, u32, Seq<u8>),
> {
    scope_items(s) + technology_items(s) + business_items(s) + user_items(s) + process_items(s)
        + risk_items(s) + scale_items(s) + integration_items(s)
}

/// The five best of a ranked list; everything when fewer exist.
pub open spec fn top5(s: Seq<(Seq<u8>, InnovationDimension, u32, u32, u32, u32, Seq<u8>)>) -> Seq<
    (Seq<u8>, InnovationDimension, u32, u32, u32, u32, Seq<u8>),
> {
    if s.len() <= 5 {
        s
    } else {
        s.take(5)
    }
}

impl InnovatorAgent {
    /// The stock deltas used when nothing could be generated.
    pub fn generate_fallback_deltas(&self) -> (r: Vec<Delta>)
        ensures
            d_proj(r@) == fallback_items(),
    {
        let mut r: Vec<Delta> = Vec::new();
        r.push(
            Delta {
                content: ("考虑将解决方案扩展到相关的垂直领域或行业").as_bytes_vec(),
                dimension: InnovationDimension::Scope,
                impact_level: 700,
                feasibility: 600,
                innovation_score: 500,
                composite_score: 0,
                reasoning: ("通过扩大应用范围可以增加影响力").as_bytes_vec(),
            },
        );
        r.push(
            Delta {
                content: ("引入人工智能或机器学习技术来优化核心流程").as_bytes_vec(),
                dimension: InnovationDimension::Technology,
                impact_level: 800,
                feasibility: 500,
                innovation_score: 800,
                composite_score: 0,
                reasoning: ("AI技术可以显著提升效率和效果").as_bytes_vec(),
            },
        );
        r.push(
            Delta {
                content: ("设计更加直观和个性化的用户界面").as_bytes_vec(),
                dimension: InnovationDimension::User,
                impact_level: 600,
                feasibility: 800,
                innovation_score: 400,
                composite_score: 0,
                reasoning: ("改善用户体验可以提高采用率").as_bytes_vec(),
            },
        );
        assert(delta_p(r@[0]) == fallback_items()[0]);
        assert(delta_p(r@[1]) == fallback_items()[1]);
        assert(delta_p(r@[2]) == fallback_items()[2]);
        assert(d_proj(r@) =~= fallback_items());
        r
    }

    /// The heuristic path: the curated candidates of every dimension,
    /// composite-scored, ranked by non-increasing composite, and cut to
    /// the five best.
    #[verifier::rlimit(100)]
    pub fn generate_deltas(&self, structured_idea: &StructuredIdea) -> (r: Vec<Delta>)
        ensures
            d_proj(r@) == top5(ranked(generated_all(*structured_idea))),
            sorted_desc(d_proj(r@)),
            r@.len() <= 5,
    {
        let mut all = self.generate_scope_deltas(structured_idea);
        let ghost g1 = d_proj(all@);
        let mut more = self.generate_technology_deltas(structured_idea);
        let ghost g2 = d_proj(more@);
        all.append(&mut more);
        assert(d_proj(all@) =~= g1 + g2);
        let ghost g3 = d_proj(all@);
        let mut more = self.generate_business_deltas(structured_idea);
        let ghost g4 = d_proj(more@);
        all.append(&mut more);
        assert(d_proj(all@) =~= g3 + g4);
        let ghost g5 = d_proj(all@);
        let mut more = self.generate_user_deltas(structured_idea);
        let ghost g6 = d_proj(more@);
        all.append(&mut more);
        assert(d_proj(all@) =~= g5 + g6);
        let ghost g7 = d_proj(all@);
        let mut more = self.generate_process_deltas(structured_idea);
        let ghost g8 = d_proj(more@);
        all.append(&mut more);
        assert(d_proj(all@) =~= g7 + g8);
        let ghost g9 = d_proj(all@);
        let mut more = self.generate_risk_deltas(structured_idea);
        let ghost g10 = d_proj(more@);
        all.append(&mut more);
        assert(d_proj(all@) =~= g9 + g10);
        let ghost g11 = d_proj(all@);
        let mut more = self.generate_scale_deltas(structured_idea);
        let ghost g12 = d_proj(more@);
        all.append(&mut more);
        assert(d_proj(all@) =~= g11 + g12);
        let ghost g13 = d_proj(all@);
        let mut more = self.generate_integration_deltas(structured_idea);
        let ghost g14 = d_proj(more@);
        all.append(&mut more);
        assert(d_proj(all@) =~= g13 + g14);
        assert(d_proj(all@) =~= generated_all(*structured_idea));
        assert(forall|i: int| 0 <= i < all@.len() ==> (#[trigger] all@[i]).wf()) by {
            assert(forall|i: int|
                0 <= i < all@.len() ==> d_proj(all@)[i] == delta_p(#[trigger] all@[i]));
        }
        score_and_rank_deltas(&mut all);
        let ghost full = d_proj(all@);
        all.truncate(5);
        assert(d_proj(all@) =~= top5(full));
        assert(sorted_desc(d_proj(all@))) by {
            assert forall|i: int, j: int|
                0 <= i < j < d_proj(all@).len() implies (#[trigger] d_proj(all@)[i]).5 >= (
            #[trigger] d_proj(all@)[j]).5 by {
                assert(d_proj(all@)[i] == full[i]);
                assert(d_proj(all@)[j] == full[j]);
            }
        }
        all
    }

    /// Backfills and ranks what a model response yielded: an empty list
    /// falls back to the stock deltas; the result is composite-scored,
    /// ranked and cut to the five best.
    #[verifier::rlimit(60)]
    pub fn finalize_deltas(&self, parsed: Vec<Delta>) -> (r: Vec<Delta>)
        requires
            forall|i: int| 0 <= i < parsed@.len() ==> (#[trigger] parsed@[i]).wf(),
        ensures
            parsed@.len() == 0 ==> d_proj(r@) == top5(ranked(fallback_items())),
            parsed@.len() > 0 ==> d_proj(r@) == top5(ranked(d_proj(parsed@))),
            sorted_desc(d_proj(r@)),
            r@.len() <= 5,
    {
        let mut deltas = if parsed.len() == 0 {
            let fb = self.generate_fallback_deltas();
            assert(fb@.len() == 3) by {
                assert(d_proj(fb@).len() == fb@.len());
                assert(fallback_items().len() == 3);
            }
            assert(fb@[0].wf()) by {
                assert(delta_p(fb@[0]) == fallback_items()[0]);
            }
            assert(fb@[1].wf()) by {
                assert(delta_p(fb@[1]) == fallback_items()[1]);
            }
            assert(fb@[2].wf()) by {
                assert(delta_p(fb@[2]) == fallback_items()[2]);
            }
            fb
        } else {
            parsed
        };
        score_and_rank_deltas(&mut deltas);
        let ghost full = d_proj(deltas@);
        deltas.truncate(5);
        assert(d_proj(deltas@) =~= top5(full));
        assert(sorted_desc(d_proj(deltas@))) by {
            assert forall|i: int, j: int|
                0 <= i < j < d_proj(deltas@).len() implies (#[trigger] d_proj(deltas@)[i]).5 >= (
            #[trigger] d_proj(deltas@)[j]).5 by {
                assert(d_proj(deltas@)[i] == full[i]);
                assert(d_proj(deltas@)[j] == full[j]);
            }
        }
        deltas
    }
}

/// Each constraint rendered as "category: description".
pub open spec fn kv_items(s: Seq<(Seq<u8>, Seq<u8>)>) -> Seq<Seq<u8>> {
    Seq::new(s.len(), |i: int| s[i].0 + (": ").spec_bytes() + s[i].1)
}

/// The constraints rendered for a prompt: comma-joined categories, or the
/// no-constraints note.
pub open spec fn constraints_fmt(s: Seq<(Seq<u8>, Seq<u8>)>) -> Seq<u8> {
    if s.len() == 0 {
        ("无特定约束").spec_bytes()
    } else {
        crate::text::join_sep(kv_items(s), (", ").spec_bytes())
    }
}

impl InnovatorAgent {
    /// Renders the constraints for the innovation prompt.
    pub fn format_constraints(&self, constraints: &Vec<(Vec<u8>, Vec<u8>)>) -> (r: Vec<u8>)
        ensures
            r@ == constraints_fmt(crate::data::kv_views(constraints@)),
    {
        let ghost w = crate::data::kv_views(constraints@);
        if constraints.len() == 0 {
            return ("无特定约束").as_bytes_vec();
        }
        let mut items: Vec<Vec<u8>> = Vec::new();
        let mut i: usize = 0;
        while i < constraints.len()
            invariant
                i <= w.len(),
                w == crate::data::kv_views(constraints@),
                items@.len() == i,
                forall|k: int| 0 <= k < i ==> (#[trigger] items@[k])@ == kv_items(w)[k],
            decreases w.len() - i,
        {
            let pair = &constraints[i];
            let mut item = pair.0.clone();
            item.extend_from_slice((": ").as_bytes_vec().as_slice());
            item.extend_from_slice(pair.1.as_slice());
            items.push(item);
            i = i + 1;
        }
        assert(views2(items@) =~= kv_items(w));
        crate::text::join_bytes(&items, (", ").as_bytes_vec().as_slice())
    }

    /// The model prompt for an innovation round: the idea's fields laid
    /// into the fixed template.
    pub fn build_innovation_prompt(&self, idea: &StructuredIdea) -> (r: Vec<u8>)
        ensures
            r@ == ("请分析以下结构化想法，并从多个维度生成创新改进建议：\n\n**当前想法结构：**\n- 目标：").spec_bytes() + (match answer_view(idea.target) {
                Some(t) => t,
                None => ("未明确").spec_bytes(),
            }) + ("\n- 受众：").spec_bytes() + crate::text::join_sep(
                views2(idea.stakeholders@),
                (", ").spec_bytes(),
            ) + ("\n- 约束条件：").spec_bytes() + constraints_fmt(
                crate::data::kv_views(idea.constraints@),
            ) + ("\n- 预期产出：").spec_bytes() + crate::text::join_sep(
                views2(idea.deliverables@),
                (", ").spec_bytes(),
            ) + ("\n- 成功指标：").spec_bytes() + crate::text::join_sep(
                views2(idea.success_metrics@),
                (", ").spec_bytes(),
            ) + ("\n- 风险假设：").spec_bytes() + crate::text::join_sep(
                views2(idea.risks_assumptions@),
                (", ").spec_bytes(),
            ) + innovation_prompt_tail(),
    {
        let mut r = (
        "请分析以下结构化想法，并从多个维度生成创新改进建议：\n\n**当前想法结构：**\n- 目标：").as_bytes_vec();
        match &idea.target {
            Some(t) => r.extend_from_slice(t.as_slice()),
            None => r.extend_from_slice(("未明确").as_bytes_vec().as_slice()),
        }
        r.extend_from_slice(("\n- 受众：").as_bytes_vec().as_slice());
        let sep = (", ").as_bytes_vec();
        let mut joined = crate::text::join_bytes(&idea.stakeholders, sep.as_slice());
        r.append(&mut joined);
        r.extend_from_slice(("\n- 约束条件：").as_bytes_vec().as_slice());
        let mut constraints = self.format_constraints(&idea.constraints);
        r.append(&mut constraints);
        r.extend_from_slice(("\n- 预期产出：").as_bytes_vec().as_slice());
        let mut joined = crate::text::join_bytes(&idea.deliverables, sep.as_slice());
        r.append(&mut joined);
        r.extend_from_slice(("\n- 成功指标：").as_bytes_vec().as_slice());
        let mut joined = crate::text::join_bytes(&idea.success_metrics, sep.as_slice());
        r.append(&mut joined);
        r.extend_from_slice(("\n- 风险假设：").as_bytes_vec().as_slice());
        let mut joined = crate::text::join_bytes(&idea.risks_assumptions, sep.as_slice());
        r.append(&mut joined);
        r.extend_from_slice(innovation_prompt_tail_exec().as_slice());
        r
    }
}

/// The fixed closing of the innovation prompt: the task list and the
/// required JSON shape.
pub open spec fn innovation_prompt_tail() -> Seq<u8> {
    (
    "\n\n**创新任务：**\n请从以下6个维度为这个想法生成创新改进建议：\n\n1. **范围扩展 (Scope)**：如何扩大想法的应用范围或覆盖面？\n2. **技术创新 (Technology)**：有哪些新技术可以应用来提升效果？\n3. **商业模式 (Business)**：有哪些创新的商业模式或盈利方式？\n4. **用户体验 (User)**：如何改善用户体验或交互方式？\n5. **规模化 (Scale)**：如何实现快速扩张或规模化？\n6. **集成整合 (Integration)**：如何与其他系统或平台整合？\n\n**输出格式要求：**\n请按以下JSON格式输出，每个维度提供2-3个具体建议：\n\n```json\n{\n    \"scope_deltas\": [\n        {\n            \"content\": \"具体的范围扩展建议\",\n            \"impact_level\": 0.8,\n            \"feasibility\": 0.7,\n            \"innovation_score\": 0.6,\n            \"reasoning\": \"详细的推理过程\"\n        }\n    ],\n    \"technology_deltas\": [...],\n    \"business_deltas\": [...],\n    \"user_deltas\": [...],\n    \"scale_deltas\": [...],\n    \"integration_deltas\": [...]\n}\n```\n\n每个建议需要：\n- content: 具体清晰的改进建议\n- impact_level: 预期影响程度 (0.0-1.0)\n- feasibility: 实施可行性 (0.0-1.0)  \n- innovation_score: 创新程度 (0.0-1.0)\n- reasoning: 详细说明该建议的价值和实施思路").spec_bytes()
}

fn innovation_prompt_tail_exec() -> (r: Vec<u8>)
    ensures
        r@ == innovation_prompt_tail(),
{
    (
    "\n\n**创新任务：**\n请从以下6个维度为这个想法生成创新改进建议：\n\n1. **范围扩展 (Scope)**：如何扩大想法的应用范围或覆盖面？\n2. **技术创新 (Technology)**：有哪些新技术可以应用来提升效果？\n3. **商业模式 (Business)**：有哪些创新的商业模式或盈利方式？\n4. **用户体验 (User)**：如何改善用户体验或交互方式？\n5. **规模化 (Scale)**：如何实现快速扩张或规模化？\n6. **集成整合 (Integration)**：如何与其他系统或平台整合？\n\n**输出格式要求：**\n请按以下JSON格式输出，每个维度提供2-3个具体建议：\n\n```json\n{\n    \"scope_deltas\": [\n        {\n            \"content\": \"具体的范围扩展建议\",\n            \"impact_level\": 0.8,\n            \"feasibility\": 0.7,\n            \"innovation_score\": 0.6,\n            \"reasoning\": \"详细的推理过程\"\n        }\n    ],\n    \"technology_deltas\": [...],\n    \"business_deltas\": [...],\n    \"user_deltas\": [...],\n    \"scale_deltas\": [...],\n    \"integration_deltas\": [...]\n}\n```\n\n每个建议需要：\n- content: 具体清晰的改进建议\n- impact_level: 预期影响程度 (0.0-1.0)\n- feasibility: 实施可行性 (0.0-1.0)  \n- innovation_score: 创新程度 (0.0-1.0)\n- reasoning: 详细说明该建议的价值和实施思路").as_bytes_vec()
}


impl InnovatorAgent {
    /// A human-readable digest of the generated deltas: the count per
    /// dimension, then the three leading recommendations, whose contents
    /// are pinned to appear.
    pub fn generate_delta_summary(&self, deltas: &Vec<Delta>) -> (r: Vec<u8>)
        ensures
            r@.take(("🚀 创新增量分析报告\n\n").spec_bytes().len() as int) == (
            "🚀 创新增量分析报告\n\n").spec_bytes(),
            forall|k: int|
                #![trigger deltas@[k]]
                0 <= k < deltas@.len() && k < 3 ==> crate::text::contains_seq(
                    r@,
                    deltas@[k].content@,
                ),
    {
        let ghost dp = d_proj(deltas@);
        let mut body = ("📊 创新维度分布：\n").as_bytes_vec();
        let mut tag_index: usize = 0;
        while tag_index < 8
            decreases 8 - tag_index,
        {
            let wanted: InnovationDimension = if tag_index == 0 {
                InnovationDimension::Scope
            } else if tag_index == 1 {
                InnovationDimension::Technology
            } else if tag_index == 2 {
                InnovationDimension::Business
            } else if tag_index == 3 {
                InnovationDimension::User
            } else if tag_index == 4 {
                InnovationDimension::Process
            } else if tag_index == 5 {
                InnovationDimension::Risk
            } else if tag_index == 6 {
                InnovationDimension::Scale
            } else {
                InnovationDimension::Integration
            };
            let mut count: u64 = 0;
            let mut i: usize = 0;
            while i < deltas.len()
                invariant
                    count <= i,
                decreases deltas@.len() - i,
            {
                if deltas[i].dimension == wanted {
                    count = count + 1;
                }
                i = i + 1;
            }
            if count > 0 {
                crate::text::push_text(&mut body, ("• ").as_bytes_vec().as_slice());
                let tag = dim_tag_exec(wanted);
                crate::text::push_text(&mut body, tag.as_slice());
                crate::text::push_text(&mut body, (": ").as_bytes_vec().as_slice());
                let rendered = crate::text::dec_bytes(count);
                crate::text::push_text(&mut body, rendered.as_slice());
                crate::text::push_text(&mut body, (" 个建议\n").as_bytes_vec().as_slice());
            }
            tag_index = tag_index + 1;
        }
        crate::text::push_text(&mut body, ("\n🎯 重点推荐的创新方向：\n").as_bytes_vec().as_slice());
        let top: usize = if deltas.len() < 3 {
            deltas.len()
        } else {
            3
        };
        let mut k: usize = 0;
        while k < top
            invariant
                top <= deltas@.len(),
                top <= 3,
                k <= top,
                forall|t: int|
                    #![trigger deltas@[t]]
                    0 <= t < k ==> crate::text::contains_seq(body@, deltas@[t].content@),
            decreases top - k,
        {
            let num = crate::text::dec_bytes((k as u64) + 1);
            crate::text::push_text(&mut body, num.as_slice());
            crate::text::push_text(&mut body, (". ").as_bytes_vec().as_slice());
            crate::text::push_fact(&mut body, deltas[k].content.as_slice());
            crate::text::push_text(&mut body, ("\n   💡 ").as_bytes_vec().as_slice());
            crate::text::push_text(&mut body, deltas[k].reasoning.as_slice());
            crate::text::push_text(&mut body, ("\n\n").as_bytes_vec().as_slice());
            k = k + 1;
        }
        let mut r = ("🚀 创新增量分析报告\n\n").as_bytes_vec();
        let ghost header = ("🚀 创新增量分析报告\n\n").spec_bytes();
        let ghost body_view = body@;
        crate::text::push_text(&mut r, body.as_slice());
        proof {
            assert(r@.take(header.len() as int) =~= header);
            assert forall|t: int|
                #![trigger deltas@[t]]
                0 <= t < deltas@.len() && t < 3 implies crate::text::contains_seq(
                r@,
                deltas@[t].content@,
            ) by {
                crate::text::lemma_contains_concat(header, body_view, deltas@[t].content@);
            }
        }
        r
    }
}

/// Renders each delta as its bracketed dimension tag and content.
fn tag_deltas(deltas: &Vec<Delta>) -> (r: Vec<Vec<u8>>)
    ensures
        views2(r@) == tagged(d_proj(deltas@)),
{
    let ghost ranked_p = d_proj(deltas@);
    let mut lines: Vec<Vec<u8>> = Vec::new();
    let mut i: usize = 0;
    while i < deltas.len()
        invariant
            i <= deltas@.len(),
            ranked_p == d_proj(deltas@),
            views2(lines@) =~= tagged(ranked_p).take(i as int),
        decreases deltas@.len() - i,
    {
        let d = &deltas[i];
        let mut line = ("[").as_bytes_vec();
        line.append(&mut dim_tag_exec(d.dimension));
        let mut mid = ("] ").as_bytes_vec();
        line.append(&mut mid);
        line.extend_from_slice(d.content.as_slice());
        assert(line@ == ("[").spec_bytes() + dim_tag(ranked_p[i as int].1) + ("] ").spec_bytes()
            + ranked_p[i as int].0) by {
            assert(delta_p(deltas@[i as int]) == ranked_p[i as int]);
        }
        let ghost before = views2(lines@);
        lines.push(line);
        assert(views2(lines@) =~= before.push(tagged(ranked_p)[i as int]));
        assert(views2(lines@) =~= tagged(ranked_p).take(i + 1));
        i = i + 1;
    }
    assert(tagged(ranked_p).take(tagged(ranked_p).len() as int) =~= tagged(ranked_p));
    lines
}

/// The display tag of a dimension.
pub open spec fn dim_tag(d: InnovationDimension) -> Seq<u8> {
    match d {
        InnovationDimension::Scope => ("范围扩展").spec_bytes(),
        InnovationDimension::Technology => ("技术创新").spec_bytes(),
        InnovationDimension::Business => ("商业模式").spec_bytes(),
        InnovationDimension::User => ("用户体验").spec_bytes(),
        InnovationDimension::Process => ("流程优化").spec_bytes(),
        InnovationDimension::Risk => ("风险管控").spec_bytes(),
        InnovationDimension::Scale => ("规模化").spec_bytes(),
        InnovationDimension::Integration => ("集成整合").spec_bytes(),
    }
}

/// Each delta rendered as a tagged line: the bracketed dimension tag and
/// the content.
pub open spec fn tagged(s: Seq<(Seq<u8>, InnovationDimension, u32, u32, u32, u32, Seq<u8>)>) -> Seq<
    Seq<u8>,
> {
    Seq::new(s.len(), |i: int| ("[").spec_bytes() + dim_tag(s[i].1) + ("] ").spec_bytes() + s[i].0)
}

/// The generic suggestions offered when no structured idea is at hand.
pub open spec fn generic_suggestions() -> Seq<Seq<u8>> {
    seq![
        ("[技术创新] 引入AI和自动化技术提升效率").spec_bytes(),
        ("[用户体验] 设计更直观友好的用户界面").spec_bytes(),
        ("[商业模式] 探索订阅制或平台化商业模式").spec_bytes(),
        ("[范围扩展] 考虑横向或纵向扩展应用领域").spec_bytes(),
        ("[风险管控] 建立分阶段验证和风险监控机制").spec_bytes(),
    ]
}

/// What an innovator round returns for a context: the tagged five best
/// curated deltas of its structured idea, or the generic suggestions.
pub open spec fn innovator_output(ctx: AgentContext) -> Seq<Seq<u8>> {
    match ctx.clarification {
        Some(c) => match c.structured_idea {
            Some(si) => tagged(top5(ranked(generated_all(si)))),
            None => generic_suggestions(),
        },
        None => generic_suggestions(),
    }
}

/// An innovator round always proposes at least one delta: the curated
/// path always carries the two unconditional technology deltas, and the
/// generic path offers five suggestions.
pub proof fn lemma_innovator_output_nonempty(ctx: AgentContext)
    ensures
        innovator_output(ctx).len() > 0,
{
    match ctx.clarification {
        Some(c) => match c.structured_idea {
            Some(si) => {
                assert(technology_items(si).len() >= 2);
                assert(generated_all(si).len() >= 2);
                assert(with_composites(generated_all(si)).len() >= 2);
                lemma_sort_desc_sorted(with_composites(generated_all(si)));
                assert(ranked(generated_all(si)).len() >= 2);
                assert(top5(ranked(generated_all(si))).len() >= 1);
                assert(tagged(top5(ranked(generated_all(si)))).len() >= 1);
            },
            None => {
                assert(generic_suggestions().len() == 5);
            },
        },
        None => {
            assert(generic_suggestions().len() == 5);
        },
    }
}

fn dim_tag_exec(d: InnovationDimension) -> (r: Vec<u8>)
    ensures
        r@ == dim_tag(d),
{
    match d {
        InnovationDimension::Scope => ("范围扩展").as_bytes_vec(),
        InnovationDimension::Technology => ("技术创新").as_bytes_vec(),
        InnovationDimension::Business => ("商业模式").as_bytes_vec(),
        InnovationDimension::User => ("用户体验").as_bytes_vec(),
        InnovationDimension::Process => ("流程优化").as_bytes_vec(),
        InnovationDimension::Risk => ("风险管控").as_bytes_vec(),
        InnovationDimension::Scale => ("规模化").as_bytes_vec(),
        InnovationDimension::Integration => ("集成整合").as_bytes_vec(),
    }
}

impl Agent for InnovatorAgent {
    /// The stage's display name.
    fn name(&self) -> &'static str {
        "Innovator"
    }

    /// The innovator declares the innovation capability.
    fn capabilities(&self) -> Vec<AgentCapability> {
        let mut v: Vec<AgentCapability> = Vec::new();
        v.push(AgentCapability::Innovation);
        v
    }

    /// Generates, ranks and tags the improvement deltas for the context's
    /// structured idea; without one, offers the generic suggestions.
    #[verifier::rlimit(100)]
    fn execute(&self, context: &AgentContext) -> (r: Result<AgentResult, AgentError>)
        ensures
            r is Ok,
            (r matches Ok(AgentResult::Innovation(list)) && views2(list@) == innovator_output(
                *context,
            )),
    {
        let structured_idea: Option<&StructuredIdea> = match &context.clarification {
            Some(c) => match &c.structured_idea {
                Some(si) => Some(si),
                None => None,
            },
            None => None,
        };
        match structured_idea {
            Some(idea) => {
                let deltas = self.generate_deltas(idea);
                let lines = tag_deltas(&deltas);
                Ok(AgentResult::Innovation(lines))
            },
            None => {
                let mut lines: Vec<Vec<u8>> = Vec::new();
                lines.push(("[技术创新] 引入AI和自动化技术提升效率").as_bytes_vec());
                lines.push(("[用户体验] 设计更直观友好的用户界面").as_bytes_vec());
                lines.push(("[商业模式] 探索订阅制或平台化商业模式").as_bytes_vec());
                lines.push(("[范围扩展] 考虑横向或纵向扩展应用领域").as_bytes_vec());
                lines.push(("[风险管控] 建立分阶段验证和风险监控机制").as_bytes_vec());
                assert(views2(lines@) =~= generic_suggestions());
                Ok(AgentResult::Innovation(lines))
            },
        }
    }
}

} // verus!
