//! The synthesizer stage: vetoes deltas with severe criticisms, scores
//! the merge, and emits a new iteration version.

use vstd::prelude::*;
use vstd::string::StrSliceExecFns;
use vstd::string::StringSliceAdditionalSpecFns;

use crate::agents::{
    Agent, AgentCapability, AgentContext, AgentError, AgentResult, Criticism,
};
use crate::critic::c_proj;
use crate::data::{IterationVersion, Scores};
use crate::ids::{fresh_id, now_unix_seconds};
use crate::text::{dec_bytes, dec_seq, views2};

verus! {

/// The criticisms carry an objection against delta `idx` whose severity
/// exceeds the 0.7 veto threshold.
pub open spec fn vetoed(cp: Seq<(int, crate::agents::CriticismCategory, Seq<u8>, u32)>, idx: int) -> bool {
    exists|k: int| 0 <= k < cp.len() && (#[trigger] cp[k]).0 == idx && cp[k].3 > 700
}

/// The deltas that survive the veto, in their original order.
pub open spec fn surviving(
    deltas: Seq<Seq<u8>>,
    cp: Seq<(int, crate::agents::CriticismCategory, Seq<u8>, u32)>,
) -> Seq<Seq<u8>>
    decreases deltas.len(),
{
    if deltas.len() == 0 {
        Seq::empty()
    } else {
        let rest = surviving(deltas.drop_last(), cp);
        if !vetoed(cp, deltas.len() - 1) {
            rest.push(deltas.last())
        } else {
            rest
        }
    }
}

/// The original indices of the surviving deltas, in order.
pub open spec fn surviving_idx(
    n: int,
    cp: Seq<(int, crate::agents::CriticismCategory, Seq<u8>, u32)>,
) -> Seq<int>
    decreases n,
{
    if n <= 0 {
        Seq::empty()
    } else {
        let rest = surviving_idx(n - 1, cp);
        if !vetoed(cp, n - 1) {
            rest.push(n - 1)
        } else {
            rest
        }
    }
}

/// No surviving delta's original index carries a criticism whose severity
/// exceeds the veto threshold: position `k` of the surviving list holds
/// the delta at original index `surviving_idx(..)[k]`, and that index is
/// not vetoed.
pub proof fn lemma_no_vetoed_delta_survives(
    deltas: Seq<Seq<u8>>,
    cp: Seq<(int, crate::agents::CriticismCategory, Seq<u8>, u32)>,
)
    ensures
        surviving(deltas, cp).len() == surviving_idx(deltas.len() as int, cp).len(),
        forall|k: int|
            #![trigger surviving_idx(deltas.len() as int, cp)[k]]
            0 <= k < surviving(deltas, cp).len() ==> {
                let idx = surviving_idx(deltas.len() as int, cp)[k];
                0 <= idx < deltas.len() && !vetoed(cp, idx) && surviving(deltas, cp)[k]
                    == deltas[idx]
            },
    decreases deltas.len(),
{
    if deltas.len() > 0 {
        lemma_no_vetoed_delta_survives(deltas.drop_last(), cp);
        assert(deltas.drop_last().len() == deltas.len() - 1);
        assert forall|k: int|
            #![trigger surviving_idx(deltas.len() as int, cp)[k]]
            0 <= k < surviving(deltas, cp).len() implies {
            let idx = surviving_idx(deltas.len() as int, cp)[k];
            0 <= idx < deltas.len() && !vetoed(cp, idx) && surviving(deltas, cp)[k] == deltas[idx]
        } by {
            let rest = surviving(deltas.drop_last(), cp);
            if k < rest.len() {
                assert(surviving(deltas, cp)[k] == rest[k]);
                let idx = surviving_idx(deltas.len() - 1, cp)[k];
                if 0 <= idx < deltas.len() - 1 {
                    assert(deltas.drop_last()[idx] == deltas[idx]);
                }
            }
        }
    }
}

/// The number of criticisms whose severity exceeds the veto threshold.
pub open spec fn count_vetoes(
    cp: Seq<(int, crate::agents::CriticismCategory, Seq<u8>, u32)>,
) -> int
    decreases cp.len(),
{
    if cp.len() == 0 {
        0
    } else {
        count_vetoes(cp.drop_last()) + if cp.last().3 > 700 {
            1int
        } else {
            0int
        }
    }
}

/// The merge confidence: the adoption rate discounted by a penalty of 0.2
/// per severe criticism (capped at 0.5), clamped into [0.1, 1.0]; an
/// empty surviving list scores the floor 0.1.
pub open spec fn synth_confidence(
    survivors: int,
    cp: Seq<(int, crate::agents::CriticismCategory, Seq<u8>, u32)>,
) -> u32 {
    if survivors == 0 {
        100
    } else {
        let rate = survivors * 1000 / (survivors + cp.len());
        let vetoes = count_vetoes(cp);
        let penalty = if vetoes > 0 {
            1000 - (if 200 * vetoes < 500 {
                200 * vetoes
            } else {
                500
            })
        } else {
            1000
        };
        let conf = rate * penalty / 1000;
        if conf < 100 {
            100
        } else if conf > 1000 {
            1000
        } else {
            conf as u32
        }
    }
}

proof fn lemma_count_vetoes_bounds(cp: Seq<(int, crate::agents::CriticismCategory, Seq<u8>, u32)>)
    ensures
        0 <= count_vetoes(cp) <= cp.len(),
    decreases cp.len(),
{
    if cp.len() > 0 {
        lemma_count_vetoes_bounds(cp.drop_last());
    }
}

/// The confidence always lies in [0.1, 1.0] thousandths.
pub proof fn lemma_synth_confidence_bounds(
    survivors: int,
    cp: Seq<(int, crate::agents::CriticismCategory, Seq<u8>, u32)>,
)
    requires
        survivors >= 0,
    ensures
        100 <= synth_confidence(survivors, cp) <= 1000,
{
    if survivors > 0 {
        let rate = survivors * 1000 / (survivors + cp.len());
        assert(0 <= rate <= 1000) by (nonlinear_arith)
            requires
                survivors > 0,
                cp.len() >= 0,
                rate == survivors * 1000 / (survivors + cp.len()),
        ;
        lemma_count_vetoes_bounds(cp);
        let vetoes = count_vetoes(cp);
        let penalty = if vetoes > 0 {
            1000 - (if 200 * vetoes < 500 {
                200 * vetoes
            } else {
                500
            })
        } else {
            1000int
        };
        assert(500 <= penalty <= 1000);
        assert(0 <= rate * penalty / 1000 <= 1000) by (nonlinear_arith)
            requires
                0 <= rate <= 1000,
                500 <= penalty <= 1000,
        ;
    }
}

/// The version numbers of a list of prior iteration versions.
pub open spec fn vn_proj(prev: Seq<IterationVersion>) -> Seq<u32> {
    Seq::new(prev.len(), |i: int| prev[i].version_number)
}

/// The largest version number of the list, zero for an empty list.
pub open spec fn max_vn(s: Seq<u32>) -> u32
    decreases s.len(),
{
    if s.len() == 0 {
        0
    } else {
        let m = max_vn(s.drop_last());
        if s.last() > m {
            s.last()
        } else {
            m
        }
    }
}

/// The version number the next iteration receives: one past the largest
/// prior number, held at the type's ceiling.
pub open spec fn next_vn(s: Seq<u32>) -> u32 {
    if max_vn(s) < u32::MAX {
        (max_vn(s) + 1) as u32
    } else {
        u32::MAX
    }
}

proof fn lemma_max_vn_ge(s: Seq<u32>, i: int)
    requires
        0 <= i < s.len(),
    ensures
        max_vn(s) >= s[i],
    decreases s.len(),
{
    if i < s.len() - 1 {
        lemma_max_vn_ge(s.drop_last(), i);
    }
}

/// Version numbers strictly increase within a session: the next number
/// exceeds every prior one (as long as none has reached the type's
/// ceiling).
pub proof fn lemma_version_strictly_increases(s: Seq<u32>)
    requires
        forall|i: int| 0 <= i < s.len() ==> s[i] < u32::MAX,
    ensures
        forall|i: int| 0 <= i < s.len() ==> next_vn(s) > s[i],
{
    assert forall|i: int| 0 <= i < s.len() implies next_vn(s) > s[i] by {
        lemma_max_vn_ge(s, i);
    }
}

/// The version number the next iteration of the session receives.
pub fn next_version(prev: &Vec<IterationVersion>) -> (r: u32)
    ensures
        r == next_vn(vn_proj(prev@)),
{
    let ghost p = vn_proj(prev@);
    let mut max: u32 = 0;
    let mut i: usize = 0;
    while i < prev.len()
        invariant
            i <= p.len(),
            p == vn_proj(prev@),
            max == max_vn(p.take(i as int)),
        decreases p.len() - i,
    {
        proof {
            assert(p.take(i + 1).drop_last() =~= p.take(i as int));
            assert(p.take(i + 1).last() == p[i as int]);
        }
        let n = prev[i].version_number;
        if n > max {
            max = n;
        }
        i = i + 1;
    }
    assert(p.take(p.len() as int) =~= p);
    if max < u32::MAX {
        max + 1
    } else {
        u32::MAX
    }
}

/// Opening of the synthesis rationale.
pub open spec fn reasoning_head() -> Seq<u8> {
    ("## 综合分析\n\n").spec_bytes()
}

/// The synthesizer stage.
pub struct SynthesizerAgent {}

impl SynthesizerAgent {
    /// A fresh synthesizer.
    pub fn new() -> (r: Self) {
        SynthesizerAgent {  }
    }

    /// Drops every delta whose index carries a criticism with severity
    /// above the veto threshold, keeping the rest in order.
    pub fn filter_viable_delta_strings(
        &self,
        delta_strings: &Vec<Vec<u8>>,
        criticisms: &Vec<Criticism>,
    ) -> (r: Vec<Vec<u8>>)
        ensures
            views2(r@) == surviving(views2(delta_strings@), c_proj(criticisms@)),
    {
        let ghost dv = views2(delta_strings@);
        let ghost cp = c_proj(criticisms@);
        let mut r: Vec<Vec<u8>> = Vec::new();
        let mut i: usize = 0;
        while i < delta_strings.len()
            invariant
                i <= dv.len(),
                dv == views2(delta_strings@),
                cp == c_proj(criticisms@),
                views2(r@) =~= surviving(dv.take(i as int), cp),
            decreases dv.len() - i,
        {
            proof {
                assert(dv.take(i + 1).drop_last() =~= dv.take(i as int));
                assert(dv.take(i + 1).last() == dv[i as int]);
            }
            if !is_vetoed(criticisms, i) {
                let ghost before = views2(r@);
                r.push(delta_strings[i].clone());
                assert(views2(r@) =~= before.push(dv[i as int]));
            }
            assert(views2(r@) =~= surviving(dv.take(i + 1), cp));
            i = i + 1;
        }
        assert(dv.take(dv.len() as int) =~= dv);
        r
    }

    /// The merge confidence for the surviving deltas against the
    /// criticisms, always in [0.1, 1.0] thousandths.
    #[verifier::rlimit(60)]
    pub fn calculate_synthesis_confidence_simple(
        &self,
        deltas: &Vec<Vec<u8>>,
        criticisms: &Vec<Criticism>,
    ) -> (r: u32)
        ensures
            r == synth_confidence(deltas@.len() as int, c_proj(criticisms@)),
            100 <= r <= 1000,
    {
        let ghost cp = c_proj(criticisms@);
        proof {
            lemma_synth_confidence_bounds(deltas@.len() as int, cp);
        }
        if deltas.len() == 0 {
            return 100;
        }
        let mut vetoes: usize = 0;
        let mut k: usize = 0;
        while k < criticisms.len()
            invariant
                k <= cp.len(),
                cp == c_proj(criticisms@),
                vetoes == count_vetoes(cp.take(k as int)),
                vetoes <= k,
            decreases cp.len() - k,
        {
            proof {
                assert(cp.take(k + 1).drop_last() =~= cp.take(k as int));
                assert(cp.take(k + 1).last() == cp[k as int]);
            }
            if criticisms[k].severity > 700 {
                vetoes = vetoes + 1;
            }
            k = k + 1;
        }
        assert(cp.take(cp.len() as int) =~= cp);
        let s: u128 = deltas.len() as u128;
        let c: u128 = criticisms.len() as u128;
        let rate: u128 = s * 1000 / (s + c);
        assert(rate == deltas@.len() * 1000 / (deltas@.len() + cp.len())) by (nonlinear_arith)
            requires
                s == deltas@.len(),
                c == cp.len(),
                s > 0,
                rate == s * 1000 / (s + c),
        ;
        assert(rate <= 1000) by (nonlinear_arith)
            requires
                s > 0,
                c >= 0,
                rate == s * 1000 / (s + c),
        ;
        let penalty: u128 = if vetoes > 0 {
            let capped: u128 = if vetoes >= 3 {
                500
            } else {
                200 * (vetoes as u128)
            };
            1000 - capped
        } else {
            1000
        };
        assert(penalty == (if count_vetoes(cp) > 0 {
            1000 - (if 200 * count_vetoes(cp) < 500 {
                200 * count_vetoes(cp)
            } else {
                500int
            })
        } else {
            1000int
        }));
        assert(rate * penalty <= 1000000) by (nonlinear_arith)
            requires
                0 <= rate <= 1000,
                0 <= penalty <= 1000,
        ;
        let conf: u128 = rate * penalty / 1000;
        assert(conf <= 1000) by (nonlinear_arith)
            requires
                rate <= 1000,
                penalty <= 1000,
                conf == rate * penalty / 1000,
        ;
        let clamped: u32 = if conf < 100 {
            100
        } else {
            conf as u32
        };
        clamped
    }

    /// The rationale narrative: the counts of merged suggestions and
    /// criticisms, the adopted suggestions, the severe objections
    /// addressed, and the closing strategy note.
    pub fn generate_synthesis_reasoning_simple(
        &self,
        deltas: &Vec<Vec<u8>>,
        criticisms: &Vec<Criticism>,
    ) -> (r: Vec<u8>)
        ensures
            r@.take(reasoning_head().len() as int) == reasoning_head(),
    {
        let mut body: Vec<u8> = Vec::new();
        body.extend_from_slice(("本次迭代综合了 ").as_bytes_vec().as_slice());
        body.append(&mut dec_bytes(deltas.len() as u64));
        body.extend_from_slice((" 个改进建议和 ").as_bytes_vec().as_slice());
        body.append(&mut dec_bytes(criticisms.len() as u64));
        body.extend_from_slice((" 个批评意见。\n\n").as_bytes_vec().as_slice());
        if deltas.len() > 0 {
            body.extend_from_slice(("### 采纳的改进建议:\n").as_bytes_vec().as_slice());
            let mut i: usize = 0;
            while i < deltas.len()
                decreases deltas@.len() - i,
            {
                body.append(&mut dec_bytes((i as u64) + 1));
                body.extend_from_slice((". ").as_bytes_vec().as_slice());
                body.extend_from_slice(deltas[i].as_slice());
                body.extend_from_slice(("\n").as_bytes_vec().as_slice());
                i = i + 1;
            }
            body.extend_from_slice(("\n").as_bytes_vec().as_slice());
        }
        let mut any_severe = false;
        let mut k: usize = 0;
        while k < criticisms.len()
            decreases criticisms@.len() - k,
        {
            if criticisms[k].severity > 700 {
                any_severe = true;
            }
            k = k + 1;
        }
        if any_severe {
            body.extend_from_slice(("### 解决的关键问题:\n").as_bytes_vec().as_slice());
            let mut shown: u64 = 0;
            let mut k2: usize = 0;
            while k2 < criticisms.len()
                invariant
                    shown <= k2,
                decreases criticisms@.len() - k2,
            {
                if criticisms[k2].severity > 700 {
                    shown = shown + 1;
                    body.append(&mut dec_bytes(shown));
                    body.extend_from_slice((". ").as_bytes_vec().as_slice());
                    body.extend_from_slice(criticisms[k2].message.as_slice());
                    body.extend_from_slice(("\n").as_bytes_vec().as_slice());
                }
                k2 = k2 + 1;
            }
            body.extend_from_slice(("\n").as_bytes_vec().as_slice());
        }
        body.extend_from_slice(("### 综合策略:\n").as_bytes_vec().as_slice());
        body.extend_from_slice(
            ("通过平衡创新性和可行性，选择了最具价值且风险可控的改进方案。").as_bytes_vec().as_slice(),
        );
        let mut r = ("## 综合分析\n\n").as_bytes_vec();
        r.extend_from_slice(body.as_slice());
        assert(r@.take(reasoning_head().len() as int) =~= reasoning_head());
        r
    }

    /// The deterministic merge: filters vetoed deltas, derives the
    /// confidence, and emits a fresh iteration version whose novelty,
    /// feasibility and coherence are the confidence weighted by 0.8, 1
    /// and 0.9.
    pub fn generate_basic_synthesis(
        &self,
        delta_strings: &Vec<Vec<u8>>,
        criticisms: &Vec<Criticism>,
        version_number: u32,
    ) -> (r: IterationVersion)
        ensures
            ({
                let kept = surviving(views2(delta_strings@), c_proj(criticisms@));
                let conf = synth_confidence(kept.len() as int, c_proj(criticisms@));
                &&& views2(r.deltas@) == kept
                &&& r.version_number == version_number
                &&& r.summary@ == ("综合改进版本").spec_bytes()
                &&& r.rationale@.take(reasoning_head().len() as int) == reasoning_head()
                &&& r.scores.novelty == (conf * 800) / 1000
                &&& r.scores.feasibility == conf
                &&& r.scores.coherence == (conf * 900) / 1000
                &&& 100 <= r.scores.feasibility <= 1000
                &&& r.id@.len() == 36
                &&& r.wf()
            }),
    {
        let filtered = self.filter_viable_delta_strings(delta_strings, criticisms);
        let reasoning = self.generate_synthesis_reasoning_simple(&filtered, criticisms);
        let confidence = self.calculate_synthesis_confidence_simple(&filtered, criticisms);
        IterationVersion {
            id: fresh_id(),
            version_number,
            summary: ("综合改进版本").as_bytes_vec(),
            deltas: filtered,
            rationale: reasoning,
            scores: Scores {
                novelty: (confidence * 800) / 1000,
                feasibility: confidence,
                coherence: (confidence * 900) / 1000,
            },
            created_at: now_unix_seconds(),
        }
    }
}

impl SynthesizerAgent {
    /// Builds the merged iteration from the fields a model response
    /// yielded: deltas whose index carries a severe criticism are dropped
    /// whatever the response kept, scores are clamped with the documented
    /// defaults, and the version number is the session's next.
    pub fn synthesis_from_parsed(
        &self,
        deltas: Vec<Vec<u8>>,
        criticisms: &Vec<Criticism>,
        summary: Vec<u8>,
        rationale: Vec<u8>,
        novelty: Option<u32>,
        feasibility: Option<u32>,
        coherence: Option<u32>,
        version_number: u32,
    ) -> (r: IterationVersion)
        ensures
            views2(r.deltas@) == surviving(views2(deltas@), c_proj(criticisms@)),
            r.version_number == version_number,
            r.summary@ == summary@,
            r.rationale@ == rationale@,
            r.scores.novelty == crate::data::clamp_permille_or(novelty, 700),
            r.scores.feasibility == crate::data::clamp_permille_or(feasibility, 800),
            r.scores.coherence == crate::data::clamp_permille_or(coherence, 800),
            r.id@.len() == 36,
            r.wf(),
    {
        let kept = self.filter_viable_delta_strings(&deltas, criticisms);
        let novelty_score: u32 = match novelty {
            Some(v) => if v > 1000 {
                1000
            } else {
                v
            },
            None => 700,
        };
        let feasibility_score: u32 = match feasibility {
            Some(v) => if v > 1000 {
                1000
            } else {
                v
            },
            None => 800,
        };
        let coherence_score: u32 = match coherence {
            Some(v) => if v > 1000 {
                1000
            } else {
                v
            },
            None => 800,
        };
        IterationVersion {
            id: fresh_id(),
            version_number,
            summary,
            deltas: kept,
            rationale,
            scores: Scores {
                novelty: novelty_score,
                feasibility: feasibility_score,
                coherence: coherence_score,
            },
            created_at: now_unix_seconds(),
        }
    }
}

/// A criticism against delta `idx` carries a severity above the veto
/// threshold.
fn is_vetoed(criticisms: &Vec<Criticism>, idx: usize) -> (r: bool)
    ensures
        r == vetoed(c_proj(criticisms@), idx as int),
{
    let mut k: usize = 0;
    while k < criticisms.len()
        invariant
            k <= criticisms@.len(),
            forall|t: int|
                0 <= t < k ==> !((#[trigger] c_proj(criticisms@)[t]).0 == idx as int && c_proj(
                    criticisms@,
                )[t].3 > 700),
        decreases criticisms@.len() - k,
    {
        let c = &criticisms[k];
        if c.delta_index == idx && c.severity > 700 {
            assert(c_proj(criticisms@)[k as int].0 == idx as int && c_proj(criticisms@)[k as int].3
                > 700);
            return true;
        }
        k = k + 1;
    }
    false
}

/// Every delta string of every innovation result in the round, in order.
pub open spec fn collected_deltas(results: Seq<AgentResult>) -> Seq<Seq<u8>>
    decreases results.len(),
{
    if results.len() == 0 {
        Seq::empty()
    } else {
        collected_deltas(results.drop_last()) + (match results.last() {
            AgentResult::Innovation(ds) => views2(ds@),
            _ => Seq::empty(),
        })
    }
}

/// Every criticism of every criticism result in the round, in order.
pub open spec fn collected_crits(results: Seq<AgentResult>) -> Seq<
    (int, crate::agents::CriticismCategory, Seq<u8>, u32),
>
    decreases results.len(),
{
    if results.len() == 0 {
        Seq::empty()
    } else {
        collected_crits(results.drop_last()) + (match results.last() {
            AgentResult::Criticism(cs) => c_proj(cs@),
            _ => Seq::empty(),
        })
    }
}

impl Agent for SynthesizerAgent {
    /// The stage's display name.
    fn name(&self) -> &'static str {
        "Synthesizer"
    }

    /// The synthesizer declares the synthesis capability.
    fn capabilities(&self) -> Vec<AgentCapability> {
        let mut v: Vec<AgentCapability> = Vec::new();
        v.push(AgentCapability::Synthesis);
        v
    }

    /// Merges the innovation deltas and criticisms found in the round's
    /// preceding results into a new iteration version; without any
    /// innovation input the round is missing its required upstream input.
    fn execute(&self, context: &AgentContext) -> (r: Result<AgentResult, AgentError>)
        ensures
            collected_deltas(context.previous_results@).len() == 0 ==> r == Result::<
                AgentResult,
                AgentError,
            >::Err(AgentError::MissingInput),
            collected_deltas(context.previous_results@).len() > 0 ==> (r matches Ok(
                AgentResult::Synthesis(v),
            ) && {
                let kept = surviving(
                    collected_deltas(context.previous_results@),
                    collected_crits(context.previous_results@),
                );
                let conf = synth_confidence(
                    kept.len() as int,
                    collected_crits(context.previous_results@),
                );
                &&& views2(v.deltas@) == kept
                &&& v.version_number == next_vn(vn_proj(context.previous_versions@))
                &&& v.scores.feasibility == conf
                &&& v.scores.novelty == (conf * 800) / 1000
                &&& v.scores.coherence == (conf * 900) / 1000
                &&& v.wf()
            }),
    {
        let ghost results = context.previous_results@;
        let mut deltas: Vec<Vec<u8>> = Vec::new();
        let mut criticisms: Vec<Criticism> = Vec::new();
        let mut i: usize = 0;
        while i < context.previous_results.len()
            invariant
                i <= results.len(),
                results == context.previous_results@,
                views2(deltas@) =~= collected_deltas(results.take(i as int)),
                c_proj(criticisms@) =~= collected_crits(results.take(i as int)),
            decreases results.len() - i,
        {
            proof {
                assert(results.take(i + 1).drop_last() =~= results.take(i as int));
                assert(results.take(i + 1).last() == results[i as int]);
            }
            match &context.previous_results[i] {
                AgentResult::Innovation(ds) => {
                    let mut more = crate::data::copy_texts(ds);
                    let ghost before = views2(deltas@);
                    let ghost inc = views2(more@);
                    deltas.append(&mut more);
                    assert(views2(deltas@) =~= before + inc);
                },
                AgentResult::Criticism(cs) => {
                    let ghost before = c_proj(criticisms@);
                    let mut k: usize = 0;
                    while k < cs.len()
                        invariant
                            k <= cs@.len(),
                            c_proj(criticisms@) =~= before + c_proj(cs@).take(k as int),
                        decreases cs@.len() - k,
                    {
                        let ghost mid = c_proj(criticisms@);
                        criticisms.push(cs[k].duplicate());
                        assert(c_proj(criticisms@) =~= mid.push(c_proj(cs@)[k as int]));
                        assert(c_proj(criticisms@) =~= before + c_proj(cs@).take(k + 1));
                        k = k + 1;
                    }
                    assert(c_proj(cs@).take(cs@.len() as int) =~= c_proj(cs@));
                },
                _ => {},
            }
            assert(views2(deltas@) =~= collected_deltas(results.take(i + 1)));
            assert(c_proj(criticisms@) =~= collected_crits(results.take(i + 1)));
            i = i + 1;
        }
        assert(results.take(results.len() as int) =~= results);
        if deltas.len() == 0 {
            return Err(AgentError::MissingInput);
        }
        let version_number = next_version(&context.previous_versions);
        let iteration = self.generate_basic_synthesis(&deltas, &criticisms, version_number);
        Ok(AgentResult::Synthesis(iteration))
    }
}

} // verus!
