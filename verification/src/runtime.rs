//! The orchestrator: owns the six stages, threads the shared context
//! between them, and exposes the composite round operations.

use vstd::prelude::*;

use crate::agents::{Agent, AgentContext, AgentError, AgentResult, Criticism};
use crate::clarifier::{ClarifierAgent, input_clar_proj, input_stop};
use crate::critic::{
    all_crit_items, c_proj, critic_input_deltas, critic_input_env, env_of_si, innovation_from,
    sorted_crit, CriticAgent,
};
use crate::data::{clar_proj, Clarification, IterationVersion, osi_proj, si_proj, StructuredIdea,
    VerificationReport};
use crate::innovator::{innovator_output, InnovatorAgent};
use crate::summarizer::{report_title, SummarizerAgent};
use crate::synthesizer::{
    collected_crits, collected_deltas, next_vn, surviving, synth_confidence, vn_proj,
    SynthesizerAgent,
};
use crate::text::views2;
use crate::verification::{synthesis_from, VerifierAgent};

verus! {

/// The runtime owning the six stages of one session.
pub struct AgentRuntime {
    pub clarifier: ClarifierAgent,
    pub innovator: InnovatorAgent,
    pub critic: CriticAgent,
    pub synthesizer: SynthesizerAgent,
    pub verifier: VerifierAgent,
    pub summarizer: SummarizerAgent,
}

/// The criticisms one adversarial round raises against the innovator's
/// deltas, under the context's structured idea.
pub open spec fn adversarial_crits(ctx: AgentContext) -> Seq<
    (int, crate::agents::CriticismCategory, Seq<u8>, u32),
> {
    sorted_crit(all_crit_items(innovator_output(ctx), critic_input_env(ctx)))
}

proof fn lemma_env_from_proj(s1: StructuredIdea, s2: StructuredIdea)
    requires
        si_proj(s1) == si_proj(s2),
    ensures
        env_of_si(s1) == env_of_si(s2),
{
    assert(crate::data::answer_view(s1.target) == si_proj(s1).0);
    assert(crate::data::answer_view(s2.target) == si_proj(s2).0);
    assert(views2(s1.stakeholders@) == si_proj(s1).1);
    assert(views2(s2.stakeholders@) == si_proj(s2).1);
    assert(s1.stakeholders@.len() == views2(s1.stakeholders@).len());
    assert(s2.stakeholders@.len() == views2(s2.stakeholders@).len());
    assert(crate::data::kv_views(s1.constraints@) == si_proj(s1).2);
    assert(crate::data::kv_views(s2.constraints@) == si_proj(s2).2);
}

impl AgentRuntime {
    /// A runtime holding the six stages.
    pub fn new() -> (r: Self) {
        AgentRuntime {
            clarifier: ClarifierAgent::new(),
            innovator: InnovatorAgent::new(),
            critic: CriticAgent::new(),
            synthesizer: SynthesizerAgent::new(),
            verifier: VerifierAgent::new(),
            summarizer: SummarizerAgent::new(),
        }
    }

    /// One clarification round: runs the clarifier and unwraps its typed
    /// result. A stopped round hands the input clarification back; a
    /// working round appends the round's questions, recomputes the open
    /// slots as the complement of the answered ones, rescores the
    /// confidence and extracts the structured idea once confidence
    /// reaches one half.
    pub fn run_clarification_round(&self, context: &AgentContext) -> (r: Result<
        Clarification,
        AgentError,
    >)
        ensures
            r is Ok,
            (r matches Ok(c) && {
                &&& input_stop(*context) ==> clar_proj(c) == input_clar_proj(*context)
                &&& !input_stop(*context) ==> {
                    &&& crate::data::q_proj(c.qa_pairs@) == input_clar_proj(*context).0
                        + crate::clarifier::round_questions_spec(
                        Seq::empty(),
                        input_clar_proj(*context).1,
                    )
                    &&& c.open_slots@ == crate::clarifier::open_slots_spec(c.qa_pairs@)
                    &&& c.confidence == crate::clarifier::completeness_confidence(
                        crate::clarifier::open_slots_spec(c.qa_pairs@).len() as int,
                    )
                    &&& c.confidence >= 500 ==> osi_proj(c.structured_idea) == Some(
                        crate::clarifier::extracted_proj(c.qa_pairs@),
                    )
                    &&& c.confidence < 500 ==> osi_proj(c.structured_idea) == input_clar_proj(
                        *context,
                    ).3
                }
            }),
    {
        match self.clarifier.execute(context) {
            Ok(result) => match result {
                AgentResult::Clarification(c) => Ok(c),
                _ => Err(AgentError::UnexpectedResultVariant),
            },
            Err(e) => Err(e),
        }
    }

    /// One adversarial iteration: the innovator proposes deltas, the
    /// critic reviews them with the innovation injected into its context,
    /// and the synthesizer merges both, vetoing severely criticized
    /// deltas.
    #[verifier::rlimit(100)]
    pub fn run_adversarial_iteration(&self, context: &AgentContext) -> (r: Result<
        IterationVersion,
        AgentError,
    >)
        ensures
            r is Ok,
            (r matches Ok(v) && {
                let d = innovator_output(*context);
                let cp = adversarial_crits(*context);
                let kept = surviving(d, cp);
                let conf = synth_confidence(kept.len() as int, cp);
                &&& views2(v.deltas@) == kept
                &&& v.version_number == next_vn(vn_proj(context.previous_versions@))
                &&& v.scores.feasibility == conf
                &&& v.scores.novelty == (conf * 800) / 1000
                &&& v.scores.coherence == (conf * 900) / 1000
                &&& v.wf()
            }),
    {
        let innovation_result = match self.innovator.execute(context) {
            Ok(result) => result,
            Err(e) => {
                return Err(e);
            },
        };
        let deltas: Vec<Vec<u8>> = match innovation_result {
            AgentResult::Innovation(ds) => ds,
            _ => {
                return Err(AgentError::UnexpectedResultVariant);
            },
        };
        assert(views2(deltas@) == innovator_output(*context));
        proof {
            crate::innovator::lemma_innovator_output_nonempty(*context);
        }
        let critic_context = build_critic_context(context, &deltas);
        let criticism_result = match self.critic.execute(&critic_context) {
            Ok(result) => result,
            Err(e) => {
                return Err(e);
            },
        };
        let criticisms: Vec<Criticism> = match criticism_result {
            AgentResult::Criticism(cs) => cs,
            _ => {
                return Err(AgentError::UnexpectedResultVariant);
            },
        };
        assert(c_proj(criticisms@) == adversarial_crits(*context));
        let synthesis_context = build_synthesis_context(context, deltas, criticisms);
        let synthesis_result = match self.synthesizer.execute(&synthesis_context) {
            Ok(result) => result,
            Err(e) => {
                return Err(e);
            },
        };
        match synthesis_result {
            AgentResult::Synthesis(version) => Ok(version),
            _ => Err(AgentError::UnexpectedResultVariant),
        }
    }

    /// One verification round: runs the verifier over the first synthesis
    /// among the prior results and unwraps its typed report; without a
    /// synthesis, the missing required input is an explicit operational
    /// error.
    pub fn run_verification(&self, context: &AgentContext) -> (r: Result<
        VerificationReport,
        AgentError,
    >)
        ensures
            synthesis_from(context.previous_results@, 0) is None ==> r == Result::<
                VerificationReport,
                AgentError,
            >::Err(AgentError::MissingInput),
            (synthesis_from(context.previous_results@, 0) matches Some(v) ==> (r matches Ok(
                report,
            ) && {
                &&& report.passed == crate::verification::overall_pass(
                    crate::verification::lc_proj(report.logic_checks@),
                    crate::verification::fc_proj(report.fact_checks@),
                    crate::verification::rk_proj(report.risks@),
                )
                &&& crate::verification::has_critical(crate::verification::rk_proj(report.risks@))
                    ==> !report.passed
                &&& report.logic_checks@.len() == 3
                &&& crate::verification::summary_check_post(v, report.logic_checks@[0])
                &&& crate::verification::coherence_check_post(v, report.logic_checks@[1])
                &&& crate::verification::scoring_check_post(v, report.logic_checks@[2])
                &&& crate::verification::fact_checks_post(v, report.fact_checks@)
                &&& crate::verification::risks_post(v, report.risks@)
                &&& report.confidence <= 1000
            })),
    {
        match self.verifier.execute(context) {
            Ok(result) => match result {
                AgentResult::Verification(report) => Ok(report),
                _ => Err(AgentError::UnexpectedResultVariant),
            },
            Err(e) => Err(e),
        }
    }

    /// The summarization round: aggregates the accumulated result history
    /// into the report, which carries the session id, the five per-stage
    /// counts, and every synthesized round's summary.
    pub fn run_summarization(&self, context: &AgentContext) -> (r: Result<Vec<u8>, AgentError>)
        ensures
            r is Ok,
            (r matches Ok(text) && {
                &&& text@.len() >= report_title().len()
                &&& text@.take(report_title().len() as int) == report_title()
                &&& crate::text::contains_seq(
                    text@,
                    vstd::utf8::encode_utf8(context.session_id@),
                )
                &&& crate::text::contains_seq(
                    text@,
                    crate::summarizer::clar_count_line(
                        crate::summarizer::count_clarifications(context.previous_results@),
                    ),
                )
                &&& crate::text::contains_seq(
                    text@,
                    crate::summarizer::innov_count_line(
                        crate::summarizer::count_innovation_lines(context.previous_results@),
                    ),
                )
                &&& crate::text::contains_seq(
                    text@,
                    crate::summarizer::crit_count_line(
                        crate::summarizer::count_criticisms(context.previous_results@),
                    ),
                )
                &&& crate::text::contains_seq(
                    text@,
                    crate::summarizer::iter_count_line(
                        crate::summarizer::synth_versions(context.previous_results@).len(),
                    ),
                )
                &&& crate::text::contains_seq(
                    text@,
                    crate::summarizer::verif_count_line(
                        crate::summarizer::count_verifications(context.previous_results@),
                    ),
                )
                &&& forall|k: int|
                    #![trigger crate::summarizer::synth_versions(context.previous_results@)[k]]
                    0 <= k < crate::summarizer::synth_versions(context.previous_results@).len()
                        ==> crate::text::contains_seq(
                        text@,
                        crate::summarizer::synth_versions(context.previous_results@)[k].summary@,
                    )
            }),
    {
        match self.summarizer.execute(context) {
            Ok(result) => match result {
                AgentResult::Summary(text) => Ok(text),
                _ => Err(AgentError::UnexpectedResultVariant),
            },
            Err(e) => Err(e),
        }
    }
}


/// A context for the critic round: the innovation injected as the sole
/// preceding result, under the caller's clarification.
fn build_critic_context(context: &AgentContext, deltas: &Vec<Vec<u8>>) -> (r: AgentContext)
    ensures
        critic_input_deltas(r) == views2(deltas@),
        critic_input_env(r) == critic_input_env(*context),
{
    let clar_for_critic: Option<Clarification> = match &context.clarification {
        Some(c) => Some(c.duplicate()),
        None => None,
    };
    let mut critic_results: Vec<AgentResult> = Vec::new();
    critic_results.push(AgentResult::Innovation(crate::data::copy_texts(deltas)));
    let critic_context = AgentContext {
        session_id: context.session_id.clone(),
        current_version: None,
        clarification: clar_for_critic,
        previous_versions: Vec::new(),
        knowledge_base: Vec::new(),
        previous_results: critic_results,
    };
    proof {
        assert(critic_context.previous_results@.len() == 1);
        assert(critic_context.previous_results@[0] matches AgentResult::Innovation(ds2) && views2(
            ds2@,
        ) == views2(deltas@));
        assert(innovation_from(critic_context.previous_results@, 0) == Some(views2(deltas@)));
        match &context.clarification {
            Some(c) => {
                assert(critic_context.clarification is Some);
                let c2 = critic_context.clarification->0;
                assert(clar_proj(c2) == clar_proj(*c));
                assert(osi_proj(c2.structured_idea) == osi_proj(c.structured_idea));
                match &c.structured_idea {
                    Some(si) => {
                        assert(c2.structured_idea is Some);
                        lemma_env_from_proj(c2.structured_idea->0, *si);
                    },
                    None => {
                        assert(c2.structured_idea is None);
                    },
                }
            },
            None => {},
        }
    }
    critic_context
}

/// A context for the synthesizer round: the innovation and the criticism
/// injected as the preceding results.
fn build_synthesis_context(
    context: &AgentContext,
    deltas: Vec<Vec<u8>>,
    criticisms: Vec<Criticism>,
) -> (r: AgentContext)
    ensures
        collected_deltas(r.previous_results@) == views2(deltas@),
        collected_crits(r.previous_results@) == c_proj(criticisms@),
        vn_proj(r.previous_versions@) == vn_proj(context.previous_versions@),
{
    let ghost dv = views2(deltas@);
    let ghost cp = c_proj(criticisms@);
    let mut previous_versions: Vec<crate::data::IterationVersion> = Vec::new();
    let mut t: usize = 0;
    while t < context.previous_versions.len()
        invariant
            t <= context.previous_versions@.len(),
            previous_versions@.len() == t,
            forall|k: int|
                0 <= k < t ==> (#[trigger] previous_versions@[k]).version_number
                    == context.previous_versions@[k].version_number,
        decreases context.previous_versions@.len() - t,
    {
        previous_versions.push(context.previous_versions[t].duplicate());
        t = t + 1;
    }
    assert(vn_proj(previous_versions@) =~= vn_proj(context.previous_versions@));
    let mut synthesis_results: Vec<AgentResult> = Vec::new();
    synthesis_results.push(AgentResult::Innovation(deltas));
    synthesis_results.push(AgentResult::Criticism(criticisms));
    let synthesis_context = AgentContext {
        session_id: context.session_id.clone(),
        current_version: None,
        clarification: None,
        previous_versions,
        knowledge_base: Vec::new(),
        previous_results: synthesis_results,
    };
    proof {
        let rs = synthesis_context.previous_results@;
        assert(rs.len() == 2);
        assert(rs.drop_last() =~= rs.take(1));
        assert(rs.take(1).drop_last() =~= rs.take(0));
        assert(rs.take(0) =~= Seq::empty());
        assert(rs[0] matches AgentResult::Innovation(ds2) && views2(ds2@) == dv);
        assert(rs[1] matches AgentResult::Criticism(cs2) && c_proj(cs2@) == cp);
        assert(rs.take(1).last() == rs[0]);
        assert(rs.last() == rs[1]);
        assert(collected_deltas(Seq::empty()) =~= Seq::empty());
        assert(collected_crits(Seq::empty()) =~= Seq::empty());
        assert(collected_deltas(rs.take(1)) =~= dv);
        assert(collected_crits(rs.take(1)) =~= Seq::empty());
        assert(collected_deltas(rs) =~= collected_deltas(rs.drop_last()));
        assert(collected_deltas(rs) =~= dv);
        assert(collected_crits(rs) =~= collected_crits(rs.drop_last()) + cp);
        assert(collected_crits(rs) =~= cp);
    }
    synthesis_context
}

} // verus!
