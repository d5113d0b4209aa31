//! The synthesizer, verifier, summarizer, state machine and runtime.

use magent::agents::{Agent, AgentContext, AgentError, AgentResult, Criticism, CriticismCategory};
use magent::clarifier::ClarifierAgent;
use magent::config::AppConfig;
use magent::critic::CriticAgent;
use magent::data::{
    Clarification, IterationVersion, Risk, RiskSeverity, Scores, StructuredIdea,
};
use magent::innovator::InnovatorAgent;
use magent::runtime::AgentRuntime;
use magent::state_machine::{SessionState, StateMachine, StopConditions};
use magent::summarizer::SummarizerAgent;
use magent::synthesizer::SynthesizerAgent;
use magent::verification::VerifierAgent;

fn b(s: &str) -> Vec<u8> {
    s.as_bytes().to_vec()
}

fn crit(index: usize, severity: u32, message: &str) -> Criticism {
    Criticism {
        delta_index: index,
        category: CriticismCategory::RiskConcern,
        message: b(message),
        severity,
    }
}

#[test]
fn test_agent_construction() {
    let _clarifier = ClarifierAgent::new();
    let _innovator = InnovatorAgent::new();
    let _critic = CriticAgent::new();
    let _synthesizer = SynthesizerAgent::new();
    let _verifier = VerifierAgent::new();
    let _summarizer = SummarizerAgent::new();
    let config = AppConfig::default();
    assert_eq!(config.engine.clarify.confidence_threshold, 800);
    assert_eq!(config.engine.iteration.improvement_threshold, 10);
    assert!(config.api_keys.openai_api_key.is_none());
}

#[test]
fn severely_criticized_delta_is_vetoed() {
    let synthesizer = SynthesizerAgent::new();
    let deltas = vec![b("d0"), b("d1"), b("d2"), b("d3"), b("d4")];
    let criticisms = vec![crit(2, 900, "严重问题"), crit(0, 300, "小问题")];
    let kept = synthesizer.filter_viable_delta_strings(&deltas, &criticisms);
    assert_eq!(kept, vec![b("d0"), b("d1"), b("d3"), b("d4")]);
}

#[test]
fn synthesis_confidence_stays_strictly_inside_the_unit_interval() {
    let synthesizer = SynthesizerAgent::new();
    let deltas = vec![b("d0"), b("d1"), b("d2"), b("d3"), b("d4")];
    let criticisms = vec![crit(2, 900, "严重问题"), crit(0, 300, "小问题")];
    let version = synthesizer.generate_basic_synthesis(&deltas, &criticisms, 1);
    assert_eq!(version.deltas, vec![b("d0"), b("d1"), b("d3"), b("d4")]);
    // adoption 4/6 = 666 thousandths, one veto => penalty 800: 666 * 800 / 1000.
    assert_eq!(version.scores.feasibility, 532);
    assert!(version.scores.feasibility > 100);
    assert!(version.scores.feasibility < 1000);
    assert_eq!(version.scores.novelty, 425);
    assert_eq!(version.scores.coherence, 478);
    assert_eq!(version.version_number, 1);
    assert_eq!(version.id.len(), 36);
    assert_eq!(version.summary, b("综合改进版本"));
}

#[test]
fn empty_surviving_list_scores_the_floor() {
    let synthesizer = SynthesizerAgent::new();
    let deltas = vec![b("d0")];
    let criticisms = vec![crit(0, 800, "否决")];
    let version = synthesizer.generate_basic_synthesis(&deltas, &criticisms, 1);
    assert!(version.deltas.is_empty());
    assert_eq!(version.scores.feasibility, 100);
}

#[test]
fn synthesizer_without_deltas_reports_missing_input() {
    let synthesizer = SynthesizerAgent::new();
    let context = AgentContext::new(String::from("session-010"));
    let result = synthesizer.execute(&context);
    assert!(matches!(result, Err(AgentError::MissingInput)));
}

fn iteration_with(rationale: &str, deltas: Vec<Vec<u8>>, scores: Scores) -> IterationVersion {
    IterationVersion {
        id: String::from("00000000-0000-0000-0000-000000000000"),
        version_number: 1,
        summary: b("一个足够长的版本摘要"),
        deltas,
        rationale: b(rationale),
        scores,
        created_at: 0,
    }
}

fn long_rationale(extra: &str) -> String {
    let mut s = String::from(extra);
    s.push_str("这一段推理足够长，覆盖一致性检查所需要的最小长度要求。");
    s.push_str("它描述了方案的背景、预期收益和实施路径，用于验证阶段的检查。");
    s
}

#[test]
fn critical_risk_always_fails_the_decision() {
    let verifier = VerifierAgent::new();
    // Six complexity markers push the implementation risk to the top tier.
    let rationale = long_rationale("复杂 困难 挑战性 多步骤 依赖 集成 协调");
    let iteration = iteration_with(
        &rationale,
        vec![b("改进建议一")],
        Scores { novelty: 500, feasibility: 500, coherence: 500 },
    );
    let report = verifier.generate_basic_verification(&iteration);
    assert!(matches!(report.risks[0].severity, RiskSeverity::Critical));
    assert!(!report.passed);
}

#[test]
fn calculate_overall_pass_requires_no_critical_risk() {
    let verifier = VerifierAgent::new();
    let iteration = iteration_with(
        &long_rationale("成本 收益 市场 时间 人力"),
        vec![b("改进建议一")],
        Scores { novelty: 500, feasibility: 500, coherence: 500 },
    );
    let report = verifier.generate_basic_verification(&iteration);
    let mut risks = report.risks.clone();
    assert!(verifier.calculate_overall_pass(&report.logic_checks, &report.fact_checks, &risks));
    risks.push(Risk {
        description: b("致命风险"),
        severity: RiskSeverity::Critical,
        mitigation: None,
    });
    assert!(!verifier.calculate_overall_pass(&report.logic_checks, &report.fact_checks, &risks));
}

#[test]
fn verification_checks_score_floors() {
    let verifier = VerifierAgent::new();
    let low_scores = iteration_with(
        &long_rationale("成本 收益 市场"),
        vec![b("改进建议一")],
        Scores { novelty: 500, feasibility: 200, coherence: 500 },
    );
    let report = verifier.generate_basic_verification(&low_scores);
    assert!(!report.logic_checks[2].passed);
}

#[test]
fn verifier_without_synthesis_input_is_a_missing_input_error() {
    let verifier = VerifierAgent::new();
    let context = AgentContext::new(String::from("session-011"));
    let result = verifier.execute(&context);
    assert!(matches!(result, Err(AgentError::MissingInput)));
    let runtime = AgentRuntime::new();
    let outcome = runtime.run_verification(&context);
    assert!(matches!(outcome, Err(AgentError::MissingInput)));
}

#[test]
fn version_numbers_strictly_increase_within_a_session() {
    let synthesizer = SynthesizerAgent::new();
    let earlier = synthesizer.generate_basic_synthesis(&vec![b("d0")], &Vec::new(), 3);
    assert_eq!(earlier.version_number, 3);
    let mut context = AgentContext::new(String::from("session-020"));
    context.previous_versions = vec![earlier];
    context.previous_results = vec![AgentResult::Innovation(vec![b("d0"), b("d1")])];
    let result = synthesizer.execute(&context).expect("deltas are present");
    match result {
        AgentResult::Synthesis(v) => assert_eq!(v.version_number, 4),
        _ => panic!("expected a synthesis result"),
    }
}

#[test]
fn model_provided_synthesis_fields_still_respect_the_veto() {
    let synthesizer = SynthesizerAgent::new();
    let criticisms = vec![crit(1, 900, "否决第二项")];
    let version = synthesizer.synthesis_from_parsed(
        vec![b("d0"), b("d1"), b("d2")],
        &criticisms,
        b("摘要"),
        b("推理"),
        Some(1500),
        None,
        Some(600),
        7,
    );
    assert_eq!(version.deltas, vec![b("d0"), b("d2")]);
    assert_eq!(version.version_number, 7);
    assert_eq!(version.scores.novelty, 1000);
    assert_eq!(version.scores.feasibility, 800);
    assert_eq!(version.scores.coherence, 600);
    assert_eq!(version.summary, b("摘要"));
}

#[test]
fn model_provided_report_fields_still_fail_on_critical_risk() {
    let verifier = VerifierAgent::new();
    let report = verifier.report_from_parsed(
        vec![(b("consistency"), b("检查"), None, b("说明"))],
        vec![(b("声明"), b("证据"), b("supported"), Some(900))],
        vec![(b("致命风险"), b("critical"), b("无"))],
        Some(true),
        Some(900),
    );
    assert!(!report.passed);
    assert!(matches!(report.risks[0].severity, RiskSeverity::Critical));
    assert_eq!(report.confidence, 900);
    assert!(report.logic_checks[0].passed);
    let benign = verifier.report_from_parsed(
        Vec::new(),
        Vec::new(),
        vec![(b("小风险"), b("low"), b("继续观察"))],
        None,
        None,
    );
    assert!(benign.passed);
    assert_eq!(benign.confidence, 700);
    assert!(matches!(benign.risks[0].severity, RiskSeverity::Low));
}

#[test]
fn summarizer_report_begins_with_the_title() {
    let summarizer = SummarizerAgent::new();
    let mut context = AgentContext::new(String::from("session-012"));
    context.previous_results = vec![AgentResult::Innovation(vec![b("[技术创新] 引入AI")])];
    let result = summarizer.execute(&context).expect("summarizer never fails");
    match result {
        AgentResult::Summary(text) => {
            let head = "# 智能概念优化报告".as_bytes();
            assert_eq!(&text[..head.len()], head);
            assert!(String::from_utf8_lossy(&text).contains("执行摘要"));
        }
        _ => panic!("expected a summary result"),
    }
}

#[test]
fn summarizer_report_carries_counts_and_session_id() {
    let synthesizer = SynthesizerAgent::new();
    let version = synthesizer.generate_basic_synthesis(&vec![b("建议甲"), b("建议乙")], &Vec::new(), 1);
    let summarizer = SummarizerAgent::new();
    let mut context = AgentContext::new(String::from("session-021"));
    context.previous_results = vec![
        AgentResult::Innovation(vec![b("[技术创新] 引入AI"), b("[用户体验] 改善界面")]),
        AgentResult::Criticism(vec![crit(0, 300, "轻微问题")]),
        AgentResult::Synthesis(version),
    ];
    let result = summarizer.execute(&context).expect("summarizer never fails");
    let text = match result {
        AgentResult::Summary(text) => String::from_utf8_lossy(&text).into_owned(),
        _ => panic!("expected a summary result"),
    };
    assert!(text.contains("session-021"));
    assert!(text.contains("- **创新阶段**: 生成了 2"));
    assert!(text.contains("- **批评阶段**: 提出了 1"));
    assert!(text.contains("- **综合阶段**: 产生了 1"));
    assert!(text.contains("- **验证阶段**: 完成了 0"));
    assert!(text.contains("综合改进版本"));
    assert!(text.contains("建议甲"));
    assert!(text.contains("建议乙"));
}

#[test]
fn state_machine_remembers_done_after_errors() {
    let mut machine = StateMachine::new(String::from("session-022"));
    assert!(machine.transition_to(SessionState::Error(String::from("boom"))).is_ok());
    assert!(machine.transition_to(SessionState::Done).is_ok());
    assert!(machine
        .transition_to(SessionState::Error(String::from("again")))
        .is_err());
}

#[test]
fn state_machine_walks_the_legal_path() {
    let mut machine = StateMachine::new(String::from("session-013"));
    assert!(matches!(machine.current_state(), SessionState::Initializing));
    assert!(machine.transition_to(SessionState::Clarifying).is_ok());
    assert!(machine.transition_to(SessionState::Clarified).is_ok());
    assert!(machine.transition_to(SessionState::AdvIterating(1)).is_ok());
    assert!(machine.transition_to(SessionState::AdvIterating(2)).is_ok());
    assert!(machine.transition_to(SessionState::Verified).is_ok());
    assert!(machine.transition_to(SessionState::Formatting).is_ok());
    assert!(machine.transition_to(SessionState::Done).is_ok());
    assert!(matches!(machine.current_state(), SessionState::Done));
}

#[test]
fn done_rejects_every_transition() {
    let mut machine = StateMachine::new(String::from("session-014"));
    machine.transition_to(SessionState::Clarifying).unwrap();
    machine.transition_to(SessionState::Clarified).unwrap();
    machine.transition_to(SessionState::AdvIterating(1)).unwrap();
    machine.transition_to(SessionState::Verified).unwrap();
    machine.transition_to(SessionState::Formatting).unwrap();
    machine.transition_to(SessionState::Done).unwrap();
    let attempts = vec![
        SessionState::Initializing,
        SessionState::Clarifying,
        SessionState::Clarified,
        SessionState::AdvIterating(3),
        SessionState::Verified,
        SessionState::Formatting,
        SessionState::Done,
        SessionState::Error(String::from("forced")),
    ];
    for attempt in attempts {
        let outcome = machine.transition_to(attempt);
        assert!(outcome.is_err());
        let err = outcome.unwrap_err();
        assert!(matches!(err.from, SessionState::Done));
        assert!(matches!(machine.current_state(), SessionState::Done));
    }
}

#[test]
fn error_state_allows_recovery() {
    let mut machine = StateMachine::new(String::from("session-015"));
    machine.transition_to(SessionState::Error(String::from("boom"))).unwrap();
    assert!(machine.transition_to(SessionState::Clarifying).is_ok());
    assert!(machine.transition_to(SessionState::Error(String::from("again"))).is_ok());
    assert!(machine.transition_to(SessionState::Done).is_ok());
}

#[test]
fn illegal_jumps_are_rejected_and_named() {
    let mut machine = StateMachine::new(String::from("session-016"));
    let err = machine.transition_to(SessionState::Verified).unwrap_err();
    assert!(matches!(err.from, SessionState::Initializing));
    assert!(matches!(err.attempted, SessionState::Verified));
    assert!(matches!(machine.current_state(), SessionState::Initializing));
}

#[test]
fn iteration_stops_only_after_a_flat_trailing_window() {
    let machine = StateMachine::new(String::from("session-017"));
    let threshold = StopConditions::default().iteration_improvement_threshold;
    assert_eq!(threshold, 10);
    assert!(!machine.should_stop_iteration(&[500], threshold));
    assert!(!machine.should_stop_iteration(&[], threshold));
    assert!(machine.should_stop_iteration(&[500, 505, 508, 509], threshold));
    assert!(!machine.should_stop_iteration(&[500, 600, 700, 800], threshold));
    // Only the last three improvements matter.
    assert!(machine.should_stop_iteration(&[100, 400, 401, 402, 403], threshold));
    assert!(machine.should_stop_iteration(&[500, 400], threshold));
    assert!(!machine.should_stop_clarification(600, 700));
    assert!(machine.should_stop_clarification(700, 700));
}

fn sample_structured_idea() -> StructuredIdea {
    StructuredIdea {
        target: Some(b("帮助学生提高学习效率")),
        stakeholders: vec![b("学生"), b("老师")],
        constraints: vec![(b("resource"), b("预算有限"))],
        deliverables: vec![b("学习助手")],
        success_metrics: vec![b("留存率")],
        risks_assumptions: vec![b("技术可行性")],
    }
}

#[test]
fn test_simple_workflow() {
    let runtime = AgentRuntime::new();
    let mut context = AgentContext::new(String::from("session-001"));

    let clarification = runtime.run_clarification_round(&context).expect("clarification runs");
    assert_eq!(clarification.open_slots.len(), 6);
    assert!(!clarification.qa_pairs.is_empty());

    context.clarification = Some(Clarification {
        qa_pairs: clarification.qa_pairs,
        open_slots: Vec::new(),
        confidence: 800,
        structured_idea: Some(sample_structured_idea()),
    });

    let version = runtime.run_adversarial_iteration(&context).expect("iteration runs");
    assert_eq!(version.version_number, 1);
    assert!(version.scores.feasibility >= 100);
    assert!(version.scores.feasibility <= 1000);
    assert!(!version.summary.is_empty());
    context.previous_versions.push(version.clone());
    let second = runtime.run_adversarial_iteration(&context).expect("iteration runs");
    assert_eq!(second.version_number, 2);

    let mut verify_context = AgentContext::new(String::from("session-001"));
    verify_context.previous_results = vec![AgentResult::Synthesis(version)];
    let report = runtime.run_verification(&verify_context).expect("verification runs");
    assert_eq!(report.logic_checks.len(), 3);
    assert_eq!(report.fact_checks.len(), 3);
    assert_eq!(report.risks.len(), 3);

    let mut summary_context = AgentContext::new(String::from("session-001"));
    summary_context.previous_results = vec![AgentResult::Verification(report)];
    let text = runtime.run_summarization(&summary_context).expect("summary runs");
    assert!(!text.is_empty());
}
