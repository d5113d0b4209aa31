//! The clarifier, innovator and critic stages.

use magent::agents::{Agent, AgentContext, AgentResult, Criticism, CriticismCategory};
use magent::clarifier::ClarifierAgent;
use magent::critic::CriticAgent;
use magent::data::{Clarification, IdeaSeed, QAPair, SlotType, StructuredIdea};
use magent::innovator::InnovatorAgent;

fn b(s: &str) -> Vec<u8> {
    s.as_bytes().to_vec()
}

fn idea(text: &str) -> IdeaSeed {
    IdeaSeed { raw_text: b(text), context_hints: Vec::new(), domain: None }
}

fn answered(slot: SlotType, question: &str, answer: &str) -> QAPair {
    QAPair { question: b(question), answer: Some(b(answer)), slot_type: slot }
}

fn unanswered(slot: SlotType, question: &str) -> QAPair {
    QAPair { question: b(question), answer: None, slot_type: slot }
}

#[test]
fn open_slots_are_the_complement_of_answered_slots() {
    let clarifier = ClarifierAgent::new();
    let qa = vec![
        answered(SlotType::Target, "目标是什么？", "做一个学习平台"),
        unanswered(SlotType::Stakeholder, "受众是谁？"),
        answered(SlotType::Deliverable, "交付什么？", "一个应用"),
        answered(SlotType::Deliverable, "还有什么？", "一份文档"),
    ];
    let open = clarifier.recompute_open_slots(&qa);
    assert_eq!(
        open,
        vec![
            SlotType::Stakeholder,
            SlotType::Constraints,
            SlotType::Metrics,
            SlotType::RiskAssumptions,
        ]
    );
    let none: Vec<QAPair> = Vec::new();
    assert_eq!(clarifier.recompute_open_slots(&none).len(), 6);
}

#[test]
fn clarifier_fallback_is_idempotent() {
    let clarifier = ClarifierAgent::new();
    let seed = idea("Build an AI-powered productivity app");
    let first = clarifier.generate_fallback_clarification(&seed);
    let second = clarifier.generate_fallback_clarification(&seed);
    assert_eq!(first.open_slots, second.open_slots);
    assert_eq!(first.qa_pairs.len(), second.qa_pairs.len());
    assert_eq!(first.confidence, second.confidence);
}

#[test]
fn keywordless_idea_opens_all_six_slots() {
    let clarifier = ClarifierAgent::new();
    let seed = idea("我想做一个在线教育平台");
    let clarification = clarifier.generate_fallback_clarification(&seed);
    assert_eq!(clarification.open_slots.len(), 6);
    assert!(clarification.qa_pairs.len() >= 4);
    assert_eq!(clarification.confidence, 0);
    assert!(clarification.structured_idea.is_none());
}

#[test]
fn keyword_match_covers_a_slot() {
    let clarifier = ClarifierAgent::new();
    let seed = idea("我们的目标是帮助用户，预算有限，交付一个产品，衡量成功，存在风险");
    let clarification = clarifier.generate_fallback_clarification(&seed);
    assert!(clarification.open_slots.is_empty());
    assert!(clarification.qa_pairs.is_empty());
    assert_eq!(clarification.confidence, 1000);
}

#[test]
fn round_questions_are_capped_at_three_and_ordered_by_slot_importance() {
    let clarifier = ClarifierAgent::new();
    let seed = idea("一个想法");
    let clarification = Clarification {
        qa_pairs: Vec::new(),
        open_slots: vec![SlotType::Constraints, SlotType::Stakeholder, SlotType::Target],
        confidence: 0,
        structured_idea: None,
    };
    let questions = clarifier.generate_questions(&seed, &clarification);
    assert_eq!(questions.len(), 3);
    assert_eq!(questions[0].slot_type, SlotType::Target);
    assert_eq!(questions[1].slot_type, SlotType::Target);
    assert_eq!(questions[2].slot_type, SlotType::Stakeholder);
    assert!(questions.iter().all(|q| q.answer.is_none()));
}

#[test]
fn slot_names_map_to_slot_types() {
    let clarifier = ClarifierAgent::new();
    assert_eq!(clarifier.string_to_slot_type("TARGET"), SlotType::Target);
    assert_eq!(clarifier.string_to_slot_type("受众"), SlotType::Stakeholder);
    assert_eq!(clarifier.string_to_slot_type("constraints"), SlotType::Constraints);
    assert_eq!(clarifier.string_to_slot_type("产出"), SlotType::Deliverable);
    assert_eq!(clarifier.string_to_slot_type("Metrics"), SlotType::Metrics);
    assert_eq!(clarifier.string_to_slot_type("风险"), SlotType::RiskAssumptions);
    assert_eq!(clarifier.string_to_slot_type("anything-else"), SlotType::Target);
}

#[test]
fn structured_idea_collects_answers_by_slot() {
    let clarifier = ClarifierAgent::new();
    let qa = vec![
        answered(SlotType::Target, "目标？", "帮助学生学习"),
        answered(SlotType::Stakeholder, "受众？", "学生, 老师、家长"),
        answered(SlotType::Constraints, "预算方面的限制？", "十万元"),
        answered(SlotType::Constraints, "技术方面的约束？", "只有两名工程师"),
        answered(SlotType::Deliverable, "交付？", "app；用户手册"),
        answered(SlotType::Metrics, "指标？", "留存率"),
        unanswered(SlotType::RiskAssumptions, "风险？"),
    ];
    let si = clarifier.extract_structured_idea(&qa).expect("always built");
    assert_eq!(si.target, Some(b("帮助学生学习")));
    assert_eq!(si.stakeholders, vec![b("学生"), b("老师"), b("家长")]);
    assert_eq!(
        si.constraints,
        vec![(b("resource"), b("十万元")), (b("technical"), b("只有两名工程师"))]
    );
    assert_eq!(si.deliverables, vec![b("app"), b("用户手册")]);
    assert_eq!(si.success_metrics, vec![b("留存率")]);
    assert!(si.risks_assumptions.is_empty());
}

#[test]
fn clarifier_round_asks_questions_and_recomputes_slots() {
    let clarifier = ClarifierAgent::new();
    let context = AgentContext::new(String::from("session-001"));
    let result = clarifier.execute(&context).expect("clarifier never fails");
    match result {
        AgentResult::Clarification(c) => {
            assert_eq!(c.open_slots.len(), 6);
            assert!(c.qa_pairs.len() >= 1);
            assert!(c.qa_pairs.len() <= 3);
            assert_eq!(c.confidence, 0);
        }
        _ => panic!("expected a clarification result"),
    }
}

fn sample_structured_idea() -> StructuredIdea {
    StructuredIdea {
        target: Some(b("帮助学生提高学习效率")),
        stakeholders: vec![b("学生"), b("老师")],
        constraints: vec![(b("resource"), b("预算有限"))],
        deliverables: vec![b("学习助手")],
        success_metrics: vec![b("留存率")],
        risks_assumptions: vec![b("技术可行性")],
    }
}

#[test]
fn innovator_output_is_ranked_and_capped_at_five() {
    let innovator = InnovatorAgent::new();
    let si = sample_structured_idea();
    let deltas = innovator.generate_deltas(&si);
    assert!(deltas.len() <= 5);
    assert!(deltas.len() >= 1);
    for d in &deltas {
        let expected =
            (4 * d.impact_level + 3 * d.feasibility + 3 * d.innovation_score) / 10;
        assert_eq!(d.composite_score, expected);
    }
    for w in deltas.windows(2) {
        assert!(w[0].composite_score >= w[1].composite_score);
    }
}

#[test]
fn innovator_without_structured_idea_offers_generic_suggestions() {
    let innovator = InnovatorAgent::new();
    let context = AgentContext::new(String::from("session-002"));
    let result = innovator.execute(&context).expect("innovator never fails");
    match result {
        AgentResult::Innovation(lines) => {
            assert_eq!(lines.len(), 5);
            assert_eq!(lines[0], b("[技术创新] 引入AI和自动化技术提升效率"));
        }
        _ => panic!("expected an innovation result"),
    }
}

#[test]
fn innovator_tags_each_delta_with_its_dimension() {
    let innovator = InnovatorAgent::new();
    let mut context = AgentContext::new(String::from("session-003"));
    context.clarification = Some(Clarification {
        qa_pairs: Vec::new(),
        open_slots: Vec::new(),
        confidence: 800,
        structured_idea: Some(sample_structured_idea()),
    });
    let result = innovator.execute(&context).expect("innovator never fails");
    match result {
        AgentResult::Innovation(lines) => {
            assert!(!lines.is_empty());
            for line in &lines {
                assert_eq!(line[0], b'[');
            }
        }
        _ => panic!("expected an innovation result"),
    }
}

#[test]
fn no_scope_deltas_without_a_target() {
    let innovator = InnovatorAgent::new();
    let mut si = sample_structured_idea();
    si.target = None;
    let scope = innovator.generate_scope_deltas(&si);
    assert!(scope.is_empty());
    let deltas = innovator.generate_deltas(&si);
    assert!(deltas
        .iter()
        .all(|d| !matches!(d.dimension, magent::innovator::InnovationDimension::Scope)));
    assert!(!deltas.is_empty());
}

#[test]
fn merged_criticisms_carry_the_global_pass_and_severity_order() {
    let critic = CriticAgent::new();
    let deltas = vec![b("增加自动化投入"), b("减少人工成本")];
    let per_delta = vec![Criticism {
        delta_index: 1,
        category: CriticismCategory::RiskConcern,
        message: b("模型发现的小问题"),
        severity: 300,
    }];
    let merged = critic.merge_and_sort_criticisms(&deltas, per_delta);
    assert_eq!(merged.len(), 2);
    assert_eq!(merged[0].message, b("建议 1 与建议 2 存在逻辑冲突"));
    assert_eq!(merged[0].severity, 800);
    assert_eq!(merged[1].severity, 300);
}

#[test]
fn conflicting_keyword_pair_is_detected() {
    let critic = CriticAgent::new();
    assert!(critic.are_deltas_conflicting("增加预算投入".as_bytes(), "减少运营成本".as_bytes()));
    assert!(!critic.are_deltas_conflicting("保持现状".as_bytes(), "继续观察".as_bytes()));
}

#[test]
fn global_pass_emits_exactly_one_conflict_for_one_conflicting_pair() {
    let critic = CriticAgent::new();
    let mut context = AgentContext::new(String::from("session-004"));
    context.previous_results = vec![AgentResult::Innovation(vec![
        b("增加自动化投入"),
        b("减少人工成本"),
        b("保持现状"),
    ])];
    let result = critic.execute(&context).expect("critic never fails");
    let criticisms = match result {
        AgentResult::Criticism(cs) => cs,
        _ => panic!("expected a criticism result"),
    };
    let expected_message = b("建议 1 与建议 2 存在逻辑冲突");
    let pair_findings: Vec<&Criticism> = criticisms
        .iter()
        .filter(|c| c.message == expected_message)
        .collect();
    assert_eq!(pair_findings.len(), 1);
    assert_eq!(pair_findings[0].delta_index, 0);
    assert!(matches!(pair_findings[0].category, CriticismCategory::LogicFlaw));
    assert_eq!(pair_findings[0].severity, 800);
    let any_other_pair = criticisms.iter().any(|c| {
        c.message != expected_message
            && String::from_utf8_lossy(&c.message).contains("与建议")
    });
    assert!(!any_other_pair);
}

#[test]
fn critic_battery_flags_infeasible_promises() {
    let critic = CriticAgent::new();
    let mut context = AgentContext::new(String::from("session-005"));
    context.previous_results = vec![AgentResult::Innovation(vec![b(
        "完全自动化所有流程，零延迟响应",
    )])];
    let result = critic.execute(&context).expect("critic never fails");
    let criticisms = match result {
        AgentResult::Criticism(cs) => cs,
        _ => panic!("expected a criticism result"),
    };
    assert!(!criticisms.is_empty());
    assert_eq!(criticisms[0].severity, 900);
    assert!(matches!(criticisms[0].category, CriticismCategory::FeasibilityIssue));
    for w in criticisms.windows(2) {
        assert!(w[0].severity >= w[1].severity);
    }
}

#[test]
fn critic_without_innovation_input_reviews_the_sample_deltas() {
    let critic = CriticAgent::new();
    let context = AgentContext::new(String::from("session-006"));
    let result = critic.execute(&context).expect("critic never fails");
    match result {
        AgentResult::Criticism(cs) => {
            for c in &cs {
                assert!(c.delta_index < 3);
                assert!(c.severity <= 1000);
            }
        }
        _ => panic!("expected a criticism result"),
    }
}

#[test]
fn delta_summary_begins_with_its_header() {
    let innovator = InnovatorAgent::new();
    let deltas = innovator.generate_deltas(&sample_structured_idea());
    let summary = innovator.generate_delta_summary(&deltas);
    let head = "🚀 创新增量分析报告".as_bytes();
    assert_eq!(&summary[..head.len()], head);
    assert!(String::from_utf8_lossy(&summary).contains("创新维度分布"));
}

#[test]
fn criticism_summary_counts_severity_tiers() {
    let critic = CriticAgent::new();
    let si = None;
    let detailed = critic.analyze_deltas(
        &vec![b("完全自动化所有流程"), b("保持现状")],
        si,
    );
    let summary = critic.generate_criticism_summary(&detailed);
    let text = String::from_utf8_lossy(&summary);
    assert!(text.starts_with("🔍 批判分析报告"));
    assert!(text.contains("高风险 1 个"));
}

#[test]
fn innovation_prompt_embeds_the_idea_fields() {
    let innovator = InnovatorAgent::new();
    let prompt = innovator.build_innovation_prompt(&sample_structured_idea());
    let text = String::from_utf8_lossy(&prompt);
    assert!(text.contains("帮助学生提高学习效率"));
    assert!(text.contains("resource: 预算有限"));
    assert!(text.contains("scope_deltas"));
}

#[test]
fn clarification_prompt_embeds_the_raw_idea() {
    let clarifier = ClarifierAgent::new();
    let seed = idea("做一个学习应用");
    let prompt = clarifier.build_clarification_prompt(&seed);
    let text = String::from_utf8_lossy(&prompt);
    assert!(text.contains("做一个学习应用"));
    assert!(text.contains("clarity_score"));
}

#[test]
fn merged_model_fields_are_clamped_and_backfilled() {
    let clarifier = ClarifierAgent::new();
    let seed = idea("我想做一个在线教育平台");
    let merged = clarifier.clarification_from_parsed(
        &seed,
        Some(vec![String::from("target"), String::from("指标")]),
        None,
        Some(1500),
    );
    assert_eq!(merged.confidence, 1000);
    assert_eq!(merged.open_slots, vec![SlotType::Target, SlotType::Metrics]);
    assert_eq!(merged.qa_pairs.len(), 2);
    assert_eq!(merged.qa_pairs[0].slot_type, SlotType::Target);
    let unparsed = clarifier.clarification_unparsed(&seed);
    assert_eq!(unparsed.confidence, 600);
    assert_eq!(unparsed.open_slots.len(), 6);
}
