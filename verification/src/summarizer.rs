//! The summarizer stage: aggregates the whole run's results into one
//! human-readable report. The contracts pin the aggregation: the report
//! carries the session id, the per-stage counts, every synthesized
//! round's summary, and — for a single-round run — its adopted deltas and
//! scores.

use vstd::prelude::*;
use vstd::string::StrSliceExecFns;
use vstd::string::StringSliceAdditionalSpecFns;

use crate::agents::{
    Agent, AgentCapability, AgentContext, AgentError, AgentResult, Criticism,
};
use crate::data::{
    Clarification, FactCheckStatus, IterationVersion, RiskSeverity, SlotType, VerificationReport,
};
use crate::ids::now_display_utc;
use crate::text::{
    contains_bytes, contains_seq, dec_bytes, dec_seq, lemma_contains_concat, percent_bytes,
    push_fact, push_text, views2,
};

verus! {

/// Opening of the aggregated report.
pub open spec fn report_title() -> Seq<u8> {
    ("# 智能概念优化报告\n\n**会话ID**: ").spec_bytes()
}

/// A score in thousandths rendered on the ten-point scale with one
/// decimal; out-of-range values show their whole part only.
pub open spec fn ten_seq(x: u32) -> Seq<u8> {
    if x <= 1000 {
        dec_seq((x / 100) as nat) + seq![46u8, (48 + (x / 10) % 10) as u8]
    } else {
        dec_seq((x / 100) as nat)
    }
}

/// How many clarification results the run accumulated.
pub open spec fn count_clarifications(rs: Seq<AgentResult>) -> nat
    decreases rs.len(),
{
    if rs.len() == 0 {
        0
    } else {
        count_clarifications(rs.drop_last()) + (match rs.last() {
            AgentResult::Clarification(_) => 1nat,
            _ => 0nat,
        })
    }
}

/// How many innovation suggestions the run accumulated, over all
/// innovation results.
pub open spec fn count_innovation_lines(rs: Seq<AgentResult>) -> nat
    decreases rs.len(),
{
    if rs.len() == 0 {
        0
    } else {
        count_innovation_lines(rs.drop_last()) + (match rs.last() {
            AgentResult::Innovation(lines) => lines@.len(),
            _ => 0nat,
        })
    }
}

/// How many criticisms the run accumulated, over all criticism results.
pub open spec fn count_criticisms(rs: Seq<AgentResult>) -> nat
    decreases rs.len(),
{
    if rs.len() == 0 {
        0
    } else {
        count_criticisms(rs.drop_last()) + (match rs.last() {
            AgentResult::Criticism(list) => list@.len(),
            _ => 0nat,
        })
    }
}

/// The synthesized versions the run accumulated, in order.
pub open spec fn synth_versions(rs: Seq<AgentResult>) -> Seq<IterationVersion>
    decreases rs.len(),
{
    if rs.len() == 0 {
        Seq::empty()
    } else {
        synth_versions(rs.drop_last()) + (match rs.last() {
            AgentResult::Synthesis(v) => seq![v],
            _ => Seq::empty(),
        })
    }
}

/// How many verification reports the run accumulated.
pub open spec fn count_verifications(rs: Seq<AgentResult>) -> nat
    decreases rs.len(),
{
    if rs.len() == 0 {
        0
    } else {
        count_verifications(rs.drop_last()) + (match rs.last() {
            AgentResult::Verification(_) => 1nat,
            _ => 0nat,
        })
    }
}

/// The labeled clarification count as it appears in the report.
pub open spec fn clar_count_line(n: nat) -> Seq<u8> {
    ("- **澄清阶段**: 处理了 ").spec_bytes() + dec_seq(n)
}

/// The labeled innovation count as it appears in the report.
pub open spec fn innov_count_line(n: nat) -> Seq<u8> {
    ("- **创新阶段**: 生成了 ").spec_bytes() + dec_seq(n)
}

/// The labeled criticism count as it appears in the report.
pub open spec fn crit_count_line(n: nat) -> Seq<u8> {
    ("- **批评阶段**: 提出了 ").spec_bytes() + dec_seq(n)
}

/// The labeled iteration count as it appears in the report.
pub open spec fn iter_count_line(n: nat) -> Seq<u8> {
    ("- **综合阶段**: 产生了 ").spec_bytes() + dec_seq(n)
}

/// The labeled verification count as it appears in the report.
pub open spec fn verif_count_line(n: nat) -> Seq<u8> {
    ("- **验证阶段**: 完成了 ").spec_bytes() + dec_seq(n)
}

/// The summarizer stage.
pub struct SummarizerAgent {}

/// Renders a score in thousandths on the ten-point scale, one decimal.
fn score_of_ten(x: u32) -> (r: Vec<u8>)
    ensures
        r@ == ten_seq(x),
{
    if x <= 1000 {
        let mut r = dec_bytes((x / 100) as u64);
        r.push(46);
        r.push(48 + (((x / 10) % 10) as u8));
        assert(r@ =~= ten_seq(x));
        r
    } else {
        dec_bytes((x / 100) as u64)
    }
}

/// The display name of a slot.
fn slot_display(s: SlotType) -> (r: Vec<u8>) {
    match s {
        SlotType::Target => ("目标").as_bytes_vec(),
        SlotType::Stakeholder => ("利益相关者").as_bytes_vec(),
        SlotType::Constraints => ("约束条件").as_bytes_vec(),
        SlotType::Deliverable => ("交付物").as_bytes_vec(),
        SlotType::Metrics => ("成功指标").as_bytes_vec(),
        SlotType::RiskAssumptions => ("风险假设").as_bytes_vec(),
    }
}

impl SummarizerAgent {
    /// A fresh summarizer.
    pub fn new() -> (r: Self) {
        SummarizerAgent {  }
    }

    /// The report header: the title, the session id, the generation time
    /// and the engine name.
    pub fn generate_header(&self, context: &AgentContext) -> (r: Vec<u8>)
        ensures
            r@.len() >= report_title().len(),
            r@.take(report_title().len() as int) == report_title(),
            contains_seq(r@, vstd::utf8::encode_utf8(context.session_id@)),
    {
        let mut r = ("# 智能概念优化报告\n\n**会话ID**: ").as_bytes_vec();
        assert(r@.len() == report_title().len());
        push_fact(&mut r, context.session_id.as_str().as_bytes());
        push_text(&mut r, ("\n**生成时间**: ").as_bytes_vec().as_slice());
        let stamp = now_display_utc();
        push_text(&mut r, stamp.as_str().as_bytes());
        push_text(&mut r, ("\n**优化引擎**: magent 多智能体系统\n\n---\n\n").as_bytes_vec().as_slice());
        assert(r@.take(report_title().len() as int) =~= report_title());
        r
    }

    /// The executive summary: the five per-stage counts, each pinned to
    /// appear with its label, and — when a final iteration and a final
    /// verification exist — the closing status with the latest scores.
    pub fn generate_executive_summary(
        &self,
        clarifications: &Vec<&Clarification>,
        innovations: &Vec<Vec<u8>>,
        criticisms: &Vec<Criticism>,
        iterations: &Vec<&IterationVersion>,
        verifications: &Vec<&VerificationReport>,
    ) -> (r: Vec<u8>)
        ensures
            contains_seq(r@, clar_count_line(clarifications@.len())),
            contains_seq(r@, innov_count_line(innovations@.len())),
            contains_seq(r@, crit_count_line(criticisms@.len())),
            contains_seq(r@, iter_count_line(iterations@.len())),
            contains_seq(r@, verif_count_line(verifications@.len())),
            iterations@.len() > 0 && verifications@.len() > 0 ==> {
                let latest = *iterations@[iterations@.len() - 1];
                &&& contains_seq(r@, ("新颖性 ").spec_bytes() + ten_seq(latest.scores.novelty))
                &&& contains_seq(
                    r@,
                    ("可行性 ").spec_bytes() + ten_seq(latest.scores.feasibility),
                )
                &&& contains_seq(r@, ("连贯性 ").spec_bytes() + ten_seq(latest.scores.coherence))
            },
    {
        let mut s = (
        "## 🎯 执行摘要\n\n本次优化会话通过多智能体协作，完成了从概念澄清到最终验证的完整流程：\n\n").as_bytes_vec();
        let mut frag = ("- **澄清阶段**: 处理了 ").as_bytes_vec();
        frag.append(&mut dec_bytes(clarifications.len() as u64));
        push_fact(&mut s, frag.as_slice());
        push_text(&mut s, (" 个澄清项\n").as_bytes_vec().as_slice());
        let mut frag = ("- **创新阶段**: 生成了 ").as_bytes_vec();
        frag.append(&mut dec_bytes(innovations.len() as u64));
        push_fact(&mut s, frag.as_slice());
        push_text(&mut s, (" 个改进建议\n").as_bytes_vec().as_slice());
        let mut frag = ("- **批评阶段**: 提出了 ").as_bytes_vec();
        frag.append(&mut dec_bytes(criticisms.len() as u64));
        push_fact(&mut s, frag.as_slice());
        push_text(&mut s, (" 个批评意见\n").as_bytes_vec().as_slice());
        let mut frag = ("- **综合阶段**: 产生了 ").as_bytes_vec();
        frag.append(&mut dec_bytes(iterations.len() as u64));
        push_fact(&mut s, frag.as_slice());
        push_text(&mut s, (" 个迭代版本\n").as_bytes_vec().as_slice());
        let mut frag = ("- **验证阶段**: 完成了 ").as_bytes_vec();
        frag.append(&mut dec_bytes(verifications.len() as u64));
        push_fact(&mut s, frag.as_slice());
        push_text(&mut s, (" 轮验证检查\n\n").as_bytes_vec().as_slice());
        if iterations.len() > 0 && verifications.len() > 0 {
            let latest_iteration = iterations[iterations.len() - 1];
            let latest_verification = verifications[verifications.len() - 1];
            push_text(&mut s, ("**最终状态**: ").as_bytes_vec().as_slice());
            if latest_verification.passed {
                push_text(&mut s, ("✅ 通过").as_bytes_vec().as_slice());
            } else {
                push_text(&mut s, ("⚠️ 需要改进").as_bytes_vec().as_slice());
            }
            push_text(&mut s, ("\n**综合评分**: ").as_bytes_vec().as_slice());
            let mut frag = ("新颖性 ").as_bytes_vec();
            frag.append(&mut score_of_ten(latest_iteration.scores.novelty));
            push_fact(&mut s, frag.as_slice());
            push_text(&mut s, ("/10, ").as_bytes_vec().as_slice());
            let mut frag = ("可行性 ").as_bytes_vec();
            frag.append(&mut score_of_ten(latest_iteration.scores.feasibility));
            push_fact(&mut s, frag.as_slice());
            push_text(&mut s, ("/10, ").as_bytes_vec().as_slice());
            let mut frag = ("连贯性 ").as_bytes_vec();
            frag.append(&mut score_of_ten(latest_iteration.scores.coherence));
            push_fact(&mut s, frag.as_slice());
            push_text(&mut s, ("/10\n**验证置信度**: ").as_bytes_vec().as_slice());
            if latest_verification.confidence <= 1000 {
                let pct = percent_bytes(latest_verification.confidence);
                push_text(&mut s, pct.as_slice());
            }
            push_text(&mut s, ("%\n\n").as_bytes_vec().as_slice());
        }
        push_text(&mut s, ("---\n\n").as_bytes_vec().as_slice());
        s
    }

    /// The clarification section: each round's questions and answers, the
    /// still-open slots and the confidence.
    pub fn generate_clarification_summary(&self, clarifications: &Vec<&Clarification>) -> (r: Vec<
        u8,
    >)
    {
        let mut s = ("## 💭 概念澄清阶段\n\n").as_bytes_vec();
        let mut i: usize = 0;
        while i < clarifications.len()
            decreases clarifications@.len() - i,
        {
            let clarification = clarifications[i];
            push_text(&mut s, ("### 澄清轮次 ").as_bytes_vec().as_slice());
            let num = dec_bytes((i as u64) + 1);
            push_text(&mut s, num.as_slice());
            push_text(&mut s, ("\n\n").as_bytes_vec().as_slice());
            if clarification.qa_pairs.len() > 0 {
                push_text(&mut s, ("**问答对话**:\n").as_bytes_vec().as_slice());
                let mut j: usize = 0;
                while j < clarification.qa_pairs.len()
                    decreases clarification.qa_pairs@.len() - j,
                {
                    let qa = &clarification.qa_pairs[j];
                    let num = dec_bytes((j as u64) + 1);
                    push_text(&mut s, num.as_slice());
                    push_text(&mut s, (". **Q**: ").as_bytes_vec().as_slice());
                    push_text(&mut s, qa.question.as_slice());
                    push_text(&mut s, ("\n   **A**: ").as_bytes_vec().as_slice());
                    match &qa.answer {
                        Some(answer) => push_text(&mut s, answer.as_slice()),
                        None => push_text(&mut s, ("待回答").as_bytes_vec().as_slice()),
                    }
                    push_text(&mut s, ("\n").as_bytes_vec().as_slice());
                    j = j + 1;
                }
                push_text(&mut s, ("\n").as_bytes_vec().as_slice());
            }
            if clarification.open_slots.len() > 0 {
                push_text(&mut s, ("**待澄清项目**:\n").as_bytes_vec().as_slice());
                let mut k: usize = 0;
                while k < clarification.open_slots.len()
                    decreases clarification.open_slots@.len() - k,
                {
                    let num = dec_bytes((k as u64) + 1);
                    push_text(&mut s, num.as_slice());
                    push_text(&mut s, (". ").as_bytes_vec().as_slice());
                    let name = slot_display(clarification.open_slots[k]);
                    push_text(&mut s, name.as_slice());
                    push_text(&mut s, ("\n").as_bytes_vec().as_slice());
                    k = k + 1;
                }
                push_text(&mut s, ("\n").as_bytes_vec().as_slice());
            }
            push_text(&mut s, ("**置信度**: ").as_bytes_vec().as_slice());
            if clarification.confidence <= 1000 {
                let pct = percent_bytes(clarification.confidence);
                push_text(&mut s, pct.as_slice());
            }
            push_text(&mut s, ("%\n\n").as_bytes_vec().as_slice());
            i = i + 1;
        }
        push_text(&mut s, ("---\n\n").as_bytes_vec().as_slice());
        s
    }

    /// The innovation section: the suggestions grouped into technical,
    /// business, user, process and other themes by keyword.
    pub fn generate_innovation_summary(&self, innovations: &Vec<Vec<u8>>) -> (r: Vec<u8>)
    {
        let mut s = ("## 💡 创新改进建议\n\n在创新阶段，系统生成了 ").as_bytes_vec();
        let count = dec_bytes(innovations.len() as u64);
        push_text(&mut s, count.as_slice());
        push_text(&mut s, (" 个改进建议，涵盖多个维度：\n\n").as_bytes_vec().as_slice());
        let mut tech: Vec<Vec<u8>> = Vec::new();
        let mut business: Vec<Vec<u8>> = Vec::new();
        let mut user: Vec<Vec<u8>> = Vec::new();
        let mut process: Vec<Vec<u8>> = Vec::new();
        let mut other: Vec<Vec<u8>> = Vec::new();
        let mut i: usize = 0;
        while i < innovations.len()
            decreases innovations@.len() - i,
        {
            let line = &innovations[i];
            let l = line.as_slice();
            if contains_bytes(l, ("技术").as_bytes_vec().as_slice()) || contains_bytes(
                l,
                ("系统").as_bytes_vec().as_slice(),
            ) || contains_bytes(l, ("算法").as_bytes_vec().as_slice()) {
                tech.push(line.clone());
            } else if contains_bytes(l, ("业务").as_bytes_vec().as_slice()) || contains_bytes(
                l,
                ("商业").as_bytes_vec().as_slice(),
            ) || contains_bytes(l, ("盈利").as_bytes_vec().as_slice()) {
                business.push(line.clone());
            } else if contains_bytes(l, ("用户").as_bytes_vec().as_slice()) || contains_bytes(
                l,
                ("客户").as_bytes_vec().as_slice(),
            ) || contains_bytes(l, ("体验").as_bytes_vec().as_slice()) {
                user.push(line.clone());
            } else if contains_bytes(l, ("流程").as_bytes_vec().as_slice()) || contains_bytes(
                l,
                ("过程").as_bytes_vec().as_slice(),
            ) || contains_bytes(l, ("管理").as_bytes_vec().as_slice()) {
                process.push(line.clone());
            } else {
                other.push(line.clone());
            }
            i = i + 1;
        }
        push_group(&mut s, ("### 🔧 技术改进\n").as_bytes_vec(), &tech);
        push_group(&mut s, ("### 💼 业务优化\n").as_bytes_vec(), &business);
        push_group(&mut s, ("### 👥 用户体验\n").as_bytes_vec(), &user);
        push_group(&mut s, ("### 🔄 流程改进\n").as_bytes_vec(), &process);
        push_group(&mut s, ("### 🎯 其他建议\n").as_bytes_vec(), &other);
        push_text(&mut s, ("---\n\n").as_bytes_vec().as_slice());
        s
    }

    /// The criticism section: the findings grouped into severity tiers.
    pub fn generate_criticism_summary(&self, criticisms: &Vec<Criticism>) -> (r: Vec<u8>)
    {
        let mut s = ("## 🔍 批评分析阶段\n\n批评阶段识别了 ").as_bytes_vec();
        let count = dec_bytes(criticisms.len() as u64);
        push_text(&mut s, count.as_slice());
        push_text(&mut s, (" 个潜在问题和风险点：\n\n").as_bytes_vec().as_slice());
        let mut tier: u32 = 0;
        while tier < 3
            decreases 3 - tier,
        {
            let mut any = false;
            let mut k: usize = 0;
            while k < criticisms.len()
                decreases criticisms@.len() - k,
            {
                let sev = criticisms[k].severity;
                let in_tier = if tier == 0 {
                    sev > 700
                } else if tier == 1 {
                    sev > 400 && sev <= 700
                } else {
                    sev <= 400
                };
                if in_tier {
                    if !any {
                        if tier == 0 {
                            push_text(&mut s, ("### 🚨 关键问题\n").as_bytes_vec().as_slice());
                        } else if tier == 1 {
                            push_text(&mut s, ("### ⚠️ 主要问题\n").as_bytes_vec().as_slice());
                        } else {
                            push_text(&mut s, ("### 💡 改进建议\n").as_bytes_vec().as_slice());
                        }
                        any = true;
                    }
                    if tier <= 1 {
                        push_text(&mut s, ("- **").as_bytes_vec().as_slice());
                        push_text(&mut s, criticisms[k].message.as_slice());
                        push_text(&mut s, ("** (严重程度: ").as_bytes_vec().as_slice());
                        if sev <= 1000 {
                            let rendered = score_of_ten(sev);
                            push_text(&mut s, rendered.as_slice());
                        }
                        push_text(&mut s, ("/10)\n").as_bytes_vec().as_slice());
                    } else {
                        push_text(&mut s, ("- ").as_bytes_vec().as_slice());
                        push_text(&mut s, criticisms[k].message.as_slice());
                        push_text(&mut s, ("\n").as_bytes_vec().as_slice());
                    }
                }
                k = k + 1;
            }
            if any {
                push_text(&mut s, ("\n").as_bytes_vec().as_slice());
            }
            tier = tier + 1;
        }
        push_text(&mut s, ("---\n\n").as_bytes_vec().as_slice());
        s
    }

    /// The iteration section: every synthesized round's summary appears;
    /// a single-round run also lists each adopted delta and the scores.
    pub fn generate_iteration_summary(&self, iterations: &Vec<&IterationVersion>) -> (r: Vec<u8>)
        ensures
            forall|k: int|
                #![trigger iterations@[k]]
                0 <= k < iterations@.len() ==> contains_seq(r@, iterations@[k].summary@),
            iterations@.len() == 1 ==> forall|j: int|
                #![trigger iterations@[0].deltas@[j]]
                0 <= j < iterations@[0].deltas@.len() ==> contains_seq(
                    r@,
                    iterations@[0].deltas@[j]@,
                ),
            iterations@.len() == 1 ==> {
                let v = *iterations@[0];
                &&& contains_seq(r@, ("新颖性: ").spec_bytes() + ten_seq(v.scores.novelty))
                &&& contains_seq(r@, ("可行性: ").spec_bytes() + ten_seq(v.scores.feasibility))
                &&& contains_seq(r@, ("连贯性: ").spec_bytes() + ten_seq(v.scores.coherence))
            },
    {
        let mut s = ("## 🔄 综合迭代阶段\n\n").as_bytes_vec();
        if iterations.len() == 1 {
            let iteration = iterations[0];
            push_text(&mut s, ("### 最终综合版本\n\n**版本摘要**: ").as_bytes_vec().as_slice());
            push_fact(&mut s, iteration.summary.as_slice());
            push_text(&mut s, ("\n\n").as_bytes_vec().as_slice());
            if iteration.deltas.len() > 0 {
                push_text(&mut s, ("**采纳的改进建议**:\n").as_bytes_vec().as_slice());
                let mut j: usize = 0;
                while j < iteration.deltas.len()
                    invariant
                        j <= iteration.deltas@.len(),
                        contains_seq(s@, iteration.summary@),
                        forall|t: int|
                            #![trigger iteration.deltas@[t]]
                            0 <= t < j ==> contains_seq(s@, iteration.deltas@[t]@),
                    decreases iteration.deltas@.len() - j,
                {
                    let num = dec_bytes((j as u64) + 1);
                    push_text(&mut s, num.as_slice());
                    push_text(&mut s, (". ").as_bytes_vec().as_slice());
                    push_fact(&mut s, iteration.deltas[j].as_slice());
                    push_text(&mut s, ("\n").as_bytes_vec().as_slice());
                    j = j + 1;
                }
                push_text(&mut s, ("\n").as_bytes_vec().as_slice());
            }
            push_text(&mut s, ("**评分详情**:\n- ").as_bytes_vec().as_slice());
            let mut frag = ("新颖性: ").as_bytes_vec();
            frag.append(&mut score_of_ten(iteration.scores.novelty));
            push_fact(&mut s, frag.as_slice());
            push_text(&mut s, ("/10\n- ").as_bytes_vec().as_slice());
            let mut frag = ("可行性: ").as_bytes_vec();
            frag.append(&mut score_of_ten(iteration.scores.feasibility));
            push_fact(&mut s, frag.as_slice());
            push_text(&mut s, ("/10\n- ").as_bytes_vec().as_slice());
            let mut frag = ("连贯性: ").as_bytes_vec();
            frag.append(&mut score_of_ten(iteration.scores.coherence));
            push_fact(&mut s, frag.as_slice());
            push_text(&mut s, ("/10\n\n").as_bytes_vec().as_slice());
        } else if iterations.len() > 1 {
            push_text(&mut s, ("经过 ").as_bytes_vec().as_slice());
            let count = dec_bytes(iterations.len() as u64);
            push_text(&mut s, count.as_slice());
            push_text(&mut s, (" 轮迭代，系统逐步优化了概念：\n\n").as_bytes_vec().as_slice());
            let mut i: usize = 0;
            while i < iterations.len()
                invariant
                    i <= iterations@.len(),
                    forall|k: int|
                        #![trigger iterations@[k]]
                        0 <= k < i ==> contains_seq(s@, iterations@[k].summary@),
                decreases iterations@.len() - i,
            {
                let iteration = iterations[i];
                push_text(&mut s, ("### 迭代 ").as_bytes_vec().as_slice());
                let num = dec_bytes((i as u64) + 1);
                push_text(&mut s, num.as_slice());
                push_text(&mut s, (" - ").as_bytes_vec().as_slice());
                push_fact(&mut s, iteration.summary.as_slice());
                push_text(&mut s, ("\n- 改进数量: ").as_bytes_vec().as_slice());
                let count = dec_bytes(iteration.deltas.len() as u64);
                push_text(&mut s, count.as_slice());
                push_text(&mut s, ("\n- 综合评分: ").as_bytes_vec().as_slice());
                let n = iteration.scores.novelty;
                let f = iteration.scores.feasibility;
                let c = iteration.scores.coherence;
                if n <= 1000 && f <= 1000 && c <= 1000 {
                    let avg = score_of_ten((n + f + c) / 3);
                    push_text(&mut s, avg.as_slice());
                }
                push_text(&mut s, ("/10\n\n").as_bytes_vec().as_slice());
                i = i + 1;
            }
        }
        push_text(&mut s, ("---\n\n").as_bytes_vec().as_slice());
        s
    }

    /// The verification section: the latest report's outcome, checks and
    /// risks.
    pub fn generate_verification_summary(&self, verifications: &Vec<&VerificationReport>) -> (r:
        Vec<u8>)
        requires
            verifications@.len() > 0,
    {
        let latest = verifications[verifications.len() - 1];
        let mut s = ("## ✅ 验证结果\n\n**总体状态**: ").as_bytes_vec();
        if latest.passed {
            push_text(&mut s, ("✅ 验证通过").as_bytes_vec().as_slice());
        } else {
            push_text(&mut s, ("⚠️ 需要改进").as_bytes_vec().as_slice());
        }
        push_text(&mut s, ("\n**验证置信度**: ").as_bytes_vec().as_slice());
        if latest.confidence <= 1000 {
            let pct = percent_bytes(latest.confidence);
            push_text(&mut s, pct.as_slice());
        }
        push_text(&mut s, ("%\n\n").as_bytes_vec().as_slice());
        if latest.logic_checks.len() > 0 {
            push_text(&mut s, ("### 🧠 逻辑一致性检查\n").as_bytes_vec().as_slice());
            let mut i: usize = 0;
            while i < latest.logic_checks.len()
                decreases latest.logic_checks@.len() - i,
            {
                let check = &latest.logic_checks[i];
                if check.passed {
                    push_text(&mut s, ("- ✅ **").as_bytes_vec().as_slice());
                } else {
                    push_text(&mut s, ("- ❌ **").as_bytes_vec().as_slice());
                }
                push_text(&mut s, check.check_type.as_slice());
                push_text(&mut s, ("**: ").as_bytes_vec().as_slice());
                push_text(&mut s, check.message.as_slice());
                push_text(&mut s, ("\n").as_bytes_vec().as_slice());
                i = i + 1;
            }
            push_text(&mut s, ("\n").as_bytes_vec().as_slice());
        }
        if latest.fact_checks.len() > 0 {
            push_text(&mut s, ("### 📋 事实准确性检查\n").as_bytes_vec().as_slice());
            let mut k: usize = 0;
            while k < latest.fact_checks.len()
                decreases latest.fact_checks@.len() - k,
            {
                let check = &latest.fact_checks[k];
                let icon: Vec<u8> = match check.status {
                    FactCheckStatus::Supported => ("- ✅ **").as_bytes_vec(),
                    FactCheckStatus::Partial => ("- ⚠️ **").as_bytes_vec(),
                    FactCheckStatus::Unsupported => ("- ❌ **").as_bytes_vec(),
                    FactCheckStatus::NeedClarification => ("- ❓ **").as_bytes_vec(),
                };
                push_text(&mut s, icon.as_slice());
                push_text(&mut s, check.claim.as_slice());
                push_text(&mut s, ("** (置信度: ").as_bytes_vec().as_slice());
                if check.confidence <= 1000 {
                    let pct = percent_bytes(check.confidence);
                    push_text(&mut s, pct.as_slice());
                }
                push_text(&mut s, ("%)\n").as_bytes_vec().as_slice());
                k = k + 1;
            }
            push_text(&mut s, ("\n").as_bytes_vec().as_slice());
        }
        if latest.risks.len() > 0 {
            push_text(&mut s, ("### ⚠️ 风险评估\n").as_bytes_vec().as_slice());
            let mut t: usize = 0;
            while t < latest.risks.len()
                decreases latest.risks@.len() - t,
            {
                let risk = &latest.risks[t];
                let icon: Vec<u8> = match risk.severity {
                    RiskSeverity::Low => ("- 🟢 ").as_bytes_vec(),
                    RiskSeverity::Medium => ("- 🟡 ").as_bytes_vec(),
                    RiskSeverity::High => ("- 🟠 ").as_bytes_vec(),
                    RiskSeverity::Critical => ("- 🔴 ").as_bytes_vec(),
                };
                push_text(&mut s, icon.as_slice());
                push_text(&mut s, risk.description.as_slice());
                push_text(&mut s, ("\n").as_bytes_vec().as_slice());
                match &risk.mitigation {
                    Some(mitigation) => {
                        push_text(&mut s, ("  *缓解措施*: ").as_bytes_vec().as_slice());
                        push_text(&mut s, mitigation.as_slice());
                        push_text(&mut s, ("\n").as_bytes_vec().as_slice());
                    },
                    None => {},
                }
                t = t + 1;
            }
            push_text(&mut s, ("\n").as_bytes_vec().as_slice());
        }
        push_text(&mut s, ("---\n\n").as_bytes_vec().as_slice());
        s
    }

    /// The closing recommendations, chosen by the latest outcome.
    pub fn generate_recommendations(
        &self,
        iterations: &Vec<&IterationVersion>,
        verifications: &Vec<&VerificationReport>,
    ) -> (r: Vec<u8>)
    {
        let mut s = ("## 🎯 建议与下一步\n\n").as_bytes_vec();
        if iterations.len() > 0 && verifications.len() > 0 {
            let latest_iteration = iterations[iterations.len() - 1];
            let latest_verification = verifications[verifications.len() - 1];
            if latest_verification.passed {
                push_text(
                    &mut s,
                    ("### ✅ 实施建议\n\n概念已通过验证，建议进入实施阶段：\n\n").as_bytes_vec().as_slice(),
                );
                if latest_iteration.deltas.len() > 0 {
                    push_text(&mut s, ("**优先实施项目**:\n").as_bytes_vec().as_slice());
                    let top: usize = if latest_iteration.deltas.len() < 3 {
                        latest_iteration.deltas.len()
                    } else {
                        3
                    };
                    let mut j: usize = 0;
                    while j < top
                        invariant
                            top <= latest_iteration.deltas@.len(),
                            j <= top,
                        decreases top - j,
                    {
                        let num = dec_bytes((j as u64) + 1);
                        push_text(&mut s, num.as_slice());
                        push_text(&mut s, (". ").as_bytes_vec().as_slice());
                        push_text(&mut s, latest_iteration.deltas[j].as_slice());
                        push_text(&mut s, ("\n").as_bytes_vec().as_slice());
                        j = j + 1;
                    }
                    push_text(&mut s, ("\n").as_bytes_vec().as_slice());
                }
                push_text(
                    &mut s,
                    (
                    "**建议实施步骤**:\n1. 制定详细的项目计划\n2. 分配必要的资源\n3. 建立里程碑和检查点\n4. 持续监控和调整\n\n").as_bytes_vec().as_slice(),
                );
            } else {
                push_text(
                    &mut s,
                    ("### ⚠️ 改进建议\n\n概念需要进一步优化，建议：\n\n").as_bytes_vec().as_slice(),
                );
                let mut failed_logic = false;
                let mut i: usize = 0;
                while i < latest_verification.logic_checks.len()
                    decreases latest_verification.logic_checks@.len() - i,
                {
                    if !latest_verification.logic_checks[i].passed {
                        failed_logic = true;
                    }
                    i = i + 1;
                }
                let mut serious_risk = false;
                let mut t: usize = 0;
                while t < latest_verification.risks.len()
                    decreases latest_verification.risks@.len() - t,
                {
                    match latest_verification.risks[t].severity {
                        RiskSeverity::Critical => {
                            serious_risk = true;
                        },
                        RiskSeverity::High => {
                            serious_risk = true;
                        },
                        _ => {},
                    }
                    t = t + 1;
                }
                if failed_logic {
                    push_text(&mut s, ("- 重新审视概念的逻辑一致性\n").as_bytes_vec().as_slice());
                }
                if serious_risk {
                    push_text(&mut s, ("- 制定更详细的风险缓解策略\n").as_bytes_vec().as_slice());
                }
                push_text(
                    &mut s,
                    ("- 考虑启动新一轮的对抗性优化\n- 寻求领域专家的额外输入\n\n").as_bytes_vec().as_slice(),
                );
            }
        }
        push_text(
            &mut s,
            (
            "### 📞 联系信息\n\n如需进一步讨论或启动新的优化会话，请使用会话ID联系系统。\n\n---\n\n*本报告由 magent 多智能体优化系统自动生成*\n").as_bytes_vec().as_slice(),
        );
        s
    }

    /// The aggregated report over everything the run produced: it begins
    /// with the report title, carries the session id and the five
    /// per-stage counts, repeats every synthesized round's summary, and —
    /// for a single-round run — its adopted deltas and scores.
    #[verifier::rlimit(100)]
    pub fn generate_basic_summary(&self, context: &AgentContext) -> (r: Vec<u8>)
        ensures
            r@.len() >= report_title().len(),
            r@.take(report_title().len() as int) == report_title(),
            contains_seq(r@, vstd::utf8::encode_utf8(context.session_id@)),
            contains_seq(r@, clar_count_line(count_clarifications(context.previous_results@))),
            contains_seq(r@, innov_count_line(count_innovation_lines(context.previous_results@))),
            contains_seq(r@, crit_count_line(count_criticisms(context.previous_results@))),
            contains_seq(
                r@,
                iter_count_line(synth_versions(context.previous_results@).len()),
            ),
            contains_seq(r@, verif_count_line(count_verifications(context.previous_results@))),
            forall|k: int|
                #![trigger synth_versions(context.previous_results@)[k]]
                0 <= k < synth_versions(context.previous_results@).len() ==> contains_seq(
                    r@,
                    synth_versions(context.previous_results@)[k].summary@,
                ),
            synth_versions(context.previous_results@).len() == 1 ==> forall|j: int|
                #![trigger synth_versions(context.previous_results@)[0].deltas@[j]]
                0 <= j < synth_versions(context.previous_results@)[0].deltas@.len()
                    ==> contains_seq(
                    r@,
                    synth_versions(context.previous_results@)[0].deltas@[j]@,
                ),
    {
        let ghost rs = context.previous_results@;
        let mut clarifications: Vec<&Clarification> = Vec::new();
        let mut innovations: Vec<Vec<u8>> = Vec::new();
        let mut criticisms: Vec<Criticism> = Vec::new();
        let mut iterations: Vec<&IterationVersion> = Vec::new();
        let mut verifications: Vec<&VerificationReport> = Vec::new();
        let mut i: usize = 0;
        while i < context.previous_results.len()
            invariant
                i <= rs.len(),
                rs == context.previous_results@,
                clarifications@.len() == count_clarifications(rs.take(i as int)),
                innovations@.len() == count_innovation_lines(rs.take(i as int)),
                criticisms@.len() == count_criticisms(rs.take(i as int)),
                iterations@.len() == synth_versions(rs.take(i as int)).len(),
                forall|k: int|
                    #![trigger iterations@[k]]
                    0 <= k < iterations@.len() ==> *iterations@[k] == synth_versions(
                        rs.take(i as int),
                    )[k],
                verifications@.len() == count_verifications(rs.take(i as int)),
            decreases rs.len() - i,
        {
            proof {
                assert(rs.take(i + 1).drop_last() =~= rs.take(i as int));
                assert(rs.take(i + 1).last() == rs[i as int]);
            }
            match &context.previous_results[i] {
                AgentResult::Clarification(c) => {
                    clarifications.push(c);
                },
                AgentResult::Innovation(list) => {
                    let mut more = crate::data::copy_texts(list);
                    assert(more@.len() == list@.len()) by {
                        assert(views2(more@).len() == views2(list@).len());
                    }
                    innovations.append(&mut more);
                },
                AgentResult::Criticism(list) => {
                    let mut k: usize = 0;
                    while k < list.len()
                        invariant
                            k <= list@.len(),
                            criticisms@.len() == count_criticisms(rs.take(i as int)) + k,
                        decreases list@.len() - k,
                    {
                        criticisms.push(list[k].duplicate());
                        k = k + 1;
                    }
                },
                AgentResult::Synthesis(v) => {
                    iterations.push(v);
                    assert(synth_versions(rs.take(i + 1)) =~= synth_versions(
                        rs.take(i as int),
                    ).push(rs[i as int]->Synthesis_0));
                },
                AgentResult::Verification(report) => {
                    verifications.push(report);
                },
                AgentResult::Summary(_) => {},
            }
            i = i + 1;
        }
        assert(rs.take(rs.len() as int) =~= rs);
        let mut body: Vec<u8> = Vec::new();
        let exec_summary = self.generate_executive_summary(
            &clarifications,
            &innovations,
            &criticisms,
            &iterations,
            &verifications,
        );
        push_text(&mut body, exec_summary.as_slice());
        proof {
            lemma_contains_concat(
                Seq::<u8>::empty(),
                exec_summary@,
                clar_count_line(count_clarifications(rs)),
            );
        }
        if clarifications.len() > 0 {
            let sec = self.generate_clarification_summary(&clarifications);
            push_text(&mut body, sec.as_slice());
        }
        if innovations.len() > 0 {
            let sec = self.generate_innovation_summary(&innovations);
            push_text(&mut body, sec.as_slice());
        }
        if criticisms.len() > 0 {
            let sec = self.generate_criticism_summary(&criticisms);
            push_text(&mut body, sec.as_slice());
        }
        let iter_sec_added: bool = iterations.len() > 0;
        if iterations.len() > 0 {
            let sec = self.generate_iteration_summary(&iterations);
            let ghost before = body@;
            push_text(&mut body, sec.as_slice());
            proof {
                assert forall|k: int|
                    #![trigger synth_versions(rs)[k]]
                    0 <= k < synth_versions(rs).len() implies contains_seq(
                    body@,
                    synth_versions(rs)[k].summary@,
                ) by {
                    assert(*iterations@[k] == synth_versions(rs)[k]);
                    assert(contains_seq(sec@, iterations@[k].summary@));
                    lemma_contains_concat(before, sec@, synth_versions(rs)[k].summary@);
                }
                if synth_versions(rs).len() == 1 {
                    assert forall|j: int|
                        #![trigger synth_versions(rs)[0].deltas@[j]]
                        0 <= j < synth_versions(rs)[0].deltas@.len() implies contains_seq(
                        body@,
                        synth_versions(rs)[0].deltas@[j]@,
                    ) by {
                        assert(*iterations@[0] == synth_versions(rs)[0]);
                        assert(contains_seq(sec@, iterations@[0].deltas@[j]@));
                        lemma_contains_concat(before, sec@, synth_versions(rs)[0].deltas@[j]@);
                    }
                }
            }
        }
        if verifications.len() > 0 {
            let sec = self.generate_verification_summary(&verifications);
            push_text(&mut body, sec.as_slice());
        }
        let rec = self.generate_recommendations(&iterations, &verifications);
        push_text(&mut body, rec.as_slice());
        let header = self.generate_header(context);
        let mut r = header;
        let ghost header_part = r@;
        push_text(&mut r, body.as_slice());
        proof {
            assert(r@.take(report_title().len() as int) =~= report_title());
            lemma_contains_concat(header_part, body@, clar_count_line(count_clarifications(rs)));
            lemma_contains_concat(
                header_part,
                body@,
                innov_count_line(count_innovation_lines(rs)),
            );
            lemma_contains_concat(header_part, body@, crit_count_line(count_criticisms(rs)));
            lemma_contains_concat(header_part, body@, iter_count_line(synth_versions(rs).len()));
            lemma_contains_concat(header_part, body@, verif_count_line(count_verifications(rs)));
            assert forall|k: int|
                #![trigger synth_versions(rs)[k]]
                0 <= k < synth_versions(rs).len() implies contains_seq(
                r@,
                synth_versions(rs)[k].summary@,
            ) by {
                lemma_contains_concat(header_part, body@, synth_versions(rs)[k].summary@);
            }
            if synth_versions(rs).len() == 1 {
                assert forall|j: int|
                    #![trigger synth_versions(rs)[0].deltas@[j]]
                    0 <= j < synth_versions(rs)[0].deltas@.len() implies contains_seq(
                    r@,
                    synth_versions(rs)[0].deltas@[j]@,
                ) by {
                    lemma_contains_concat(header_part, body@, synth_versions(rs)[0].deltas@[j]@);
                }
            }
        }
        r
    }
}

/// Appends a titled group of lines when the group is not empty.
fn push_group(s: &mut Vec<u8>, title: Vec<u8>, items: &Vec<Vec<u8>>)
    ensures
        final(s)@.len() >= old(s)@.len(),
        final(s)@.take(old(s)@.len() as int) == old(s)@,
        forall|pat: Seq<u8>|
            #![trigger contains_seq(old(s)@, pat)]
            contains_seq(old(s)@, pat) ==> contains_seq(final(s)@, pat),
{
    if items.len() == 0 {
        assert(final(s)@.take(old(s)@.len() as int) =~= old(s)@);
        return ;
    }
    let ghost base = s@;
    push_text(s, title.as_slice());
    let mut i: usize = 0;
    while i < items.len()
        invariant
            s@.len() >= base.len(),
            s@.take(base.len() as int) =~= base,
            forall|pat: Seq<u8>|
                #![trigger contains_seq(base, pat)]
                contains_seq(base, pat) ==> contains_seq(s@, pat),
        decreases items@.len() - i,
    {
        push_text(s, ("- ").as_bytes_vec().as_slice());
        push_text(s, items[i].as_slice());
        push_text(s, ("\n").as_bytes_vec().as_slice());
        assert(s@.take(base.len() as int) =~= base);
        i = i + 1;
    }
    push_text(s, ("\n").as_bytes_vec().as_slice());
    assert(s@.take(base.len() as int) =~= base);
}

impl Agent for SummarizerAgent {
    /// The stage's display name.
    fn name(&self) -> &'static str {
        "Summarizer"
    }

    /// The summarizer declares the summarization capability.
    fn capabilities(&self) -> Vec<AgentCapability> {
        let mut v: Vec<AgentCapability> = Vec::new();
        v.push(AgentCapability::Summarization);
        v
    }

    /// Aggregates the run's accumulated results into the report.
    fn execute(&self, context: &AgentContext) -> (r: Result<AgentResult, AgentError>)
        ensures
            r is Ok,
            (r matches Ok(AgentResult::Summary(text)) && {
                &&& text@.len() >= report_title().len()
                &&& text@.take(report_title().len() as int) == report_title()
                &&& contains_seq(text@, vstd::utf8::encode_utf8(context.session_id@))
                &&& contains_seq(
                    text@,
                    clar_count_line(count_clarifications(context.previous_results@)),
                )
                &&& contains_seq(
                    text@,
                    innov_count_line(count_innovation_lines(context.previous_results@)),
                )
                &&& contains_seq(
                    text@,
                    crit_count_line(count_criticisms(context.previous_results@)),
                )
                &&& contains_seq(
                    text@,
                    iter_count_line(synth_versions(context.previous_results@).len()),
                )
                &&& contains_seq(
                    text@,
                    verif_count_line(count_verifications(context.previous_results@)),
                )
                &&& forall|k: int|
                    #![trigger synth_versions(context.previous_results@)[k]]
                    0 <= k < synth_versions(context.previous_results@).len() ==> contains_seq(
                        text@,
                        synth_versions(context.previous_results@)[k].summary@,
                    )
            }),
    {
        let summary = self.generate_basic_summary(context);
        Ok(AgentResult::Summary(summary))
    }
}

} // verus!
