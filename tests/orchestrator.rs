use reasoning_translation::orchestrator::{
    AgentReasoningTranslationConfig, AgentReasoningTranslationOrchestrator, Clock,
    CompletionMessage, Effect, HistoryUnit, ThreadId,
};

const THREAD: ThreadId = ThreadId { value: 7 };
const OTHER: ThreadId = ThreadId { value: 8 };

fn config(ui_max_wait_ms: u64) -> AgentReasoningTranslationConfig {
    AgentReasoningTranslationConfig {
        command: vec!["sh".to_string()],
        timeout_ms: 2_000,
        ui_max_wait_ms,
    }
}

fn at(now_ms: u64) -> Clock {
    Clock { now_ms, max_wait_override: None }
}

fn host(cell_id: u64) -> HistoryUnit {
    HistoryUnit::Host { cell_id, reasoning: None }
}

fn reasoning(cell_id: u64, text: &str) -> HistoryUnit {
    HistoryUnit::Host { cell_id, reasoning: Some(text.to_string()) }
}

fn done(request_id: u64, title: Option<&str>, translated: &str) -> CompletionMessage {
    CompletionMessage::new(
        request_id,
        THREAD,
        title.map(str::to_string),
        Some(translated.to_string()),
        None,
    )
}

fn inserted_ids(effects: &[Effect]) -> Vec<u64> {
    effects
        .iter()
        .filter_map(|e| match e {
            Effect::InsertHistory(HistoryUnit::Host { cell_id, .. }) => Some(*cell_id),
            _ => None,
        })
        .collect()
}

#[test]
fn second_dispatch_while_pending_is_a_no_op() {
    let mut o = AgentReasoningTranslationOrchestrator::new(true);
    assert_eq!(o.begin_body_translation_barrier(100, THREAD, None, &at(0)), Some(0));
    assert_eq!(o.barrier_request_id(), Some(0));
    let before = o.take_effects().len();
    assert_eq!(before, 1);
    assert_eq!(o.begin_body_translation_barrier(100, THREAD, None, &at(5)), None);
    assert_eq!(o.barrier_request_id(), Some(0));
    assert!(o.take_effects().is_empty());
}

#[test]
fn dispatch_starts_translation_of_full_reasoning() {
    let mut o = AgentReasoningTranslationOrchestrator::new(true);
    let cfg = config(5_000);
    o.maybe_translate_reasoning_body(Some(&cfg), Some(THREAD), "**Plan**\nRead.".to_string(), &at(10));
    assert!(o.is_pending());
    assert_eq!(o.barrier_max_wait_ms(), Some(5_000));
    let effects = o.take_effects();
    assert!(matches!(effects[0], Effect::ScheduleFrameIn { delay_ms: 5_000 }));
    match &effects[1] {
        Effect::StartTranslation { request_id, thread_id, title, text } => {
            assert_eq!(*request_id, 0);
            assert_eq!(*thread_id, THREAD);
            assert_eq!(title.as_deref(), Some("Plan"));
            assert_eq!(text, "**Plan**\nRead.");
        }
        _ => panic!("expected a translation start"),
    }
}

#[test]
fn no_dispatch_without_config_thread_or_body() {
    let cfg = config(5_000);
    let mut o = AgentReasoningTranslationOrchestrator::new(true);
    o.maybe_translate_reasoning_body(None, Some(THREAD), "**Plan**\nRead.".to_string(), &at(0));
    o.maybe_translate_reasoning_body(Some(&cfg), None, "**Plan**\nRead.".to_string(), &at(0));
    o.maybe_translate_reasoning_body(Some(&cfg), Some(THREAD), "**Plan**".to_string(), &at(0));
    assert!(!o.is_pending());
    let mut off = AgentReasoningTranslationOrchestrator::new(false);
    off.maybe_translate_reasoning_body(Some(&cfg), Some(THREAD), "**Plan**\nRead.".to_string(), &at(0));
    assert!(!off.is_pending());
    assert!(o.take_effects().is_empty());
}

#[test]
fn stale_results_change_nothing() {
    let mut o = AgentReasoningTranslationOrchestrator::new(true);
    o.begin_body_translation_barrier(100, THREAD, Some("Plan".to_string()), &at(0));
    o.emit_history_cell(host(1));
    o.take_effects();
    let cfg = config(100);
    let wrong_id = o.on_body_translated(done(9, Some("Plan"), "**计划**\n正文"), Some(THREAD), Some(&cfg), &at(1));
    assert!(!wrong_id.needs_redraw);
    let wrong_thread = CompletionMessage::new(0, OTHER, None, Some("x".to_string()), None);
    let r = o.on_body_translated(wrong_thread, Some(THREAD), Some(&cfg), &at(1));
    assert!(!r.needs_redraw && r.status_header_update.is_none());
    let r = o.on_body_translated(done(0, Some("Plan"), "**计划**\n正文"), Some(OTHER), Some(&cfg), &at(1));
    assert!(!r.needs_redraw);
    assert!(o.is_pending());
    assert_eq!(o.deferred_len(), 1);
    assert!(o.take_effects().is_empty());
    assert_eq!(o.cached_title_translation(&"Plan".to_string()), None);
}

#[test]
fn queued_units_flush_in_order_after_resolution() {
    let mut o = AgentReasoningTranslationOrchestrator::new(true);
    let cfg = config(100);
    o.begin_body_translation_barrier(100, THREAD, None, &at(0));
    o.emit_history_cell(host(1));
    o.emit_history_cell(host(2));
    o.emit_history_cell_with_translation_hook(Some(&cfg), Some(THREAD), &at(0), host(3));
    assert_eq!(o.deferred_len(), 3);
    o.take_effects();
    let r = o.on_body_translated(done(0, None, "译文"), Some(THREAD), Some(&cfg), &at(1));
    assert!(r.needs_redraw);
    let effects = o.take_effects();
    assert!(matches!(&effects[0], Effect::InsertHistory(HistoryUnit::TranslatedBody { text }) if text == "译文"));
    assert_eq!(inserted_ids(&effects), vec![1, 2, 3]);
    assert!(!o.is_pending());
    o.emit_history_cell(host(4));
    assert_eq!(inserted_ids(&o.take_effects()), vec![4]);
}

#[test]
fn chained_dispatch_stops_the_flush_after_its_block() {
    let mut o = AgentReasoningTranslationOrchestrator::new(true);
    let cfg = config(100);
    o.begin_body_translation_barrier(100, THREAD, None, &at(0));
    o.emit_history_cell(host(1));
    o.emit_history_cell(reasoning(2, "**Next**\nMore thinking."));
    o.emit_history_cell(host(3));
    o.take_effects();
    o.on_body_translated(done(0, None, "好"), Some(THREAD), Some(&cfg), &at(1));
    let effects = o.take_effects();
    assert_eq!(inserted_ids(&effects), vec![1, 2]);
    assert!(matches!(effects.last(), Some(Effect::StartTranslation { request_id: 1, .. })));
    assert_eq!(o.barrier_request_id(), Some(1));
    assert_eq!(o.deferred_len(), 1);
    o.on_body_translated(done(1, Some("Next"), "**下一步**\n更多"), Some(THREAD), Some(&cfg), &at(2));
    let effects = o.take_effects();
    assert_eq!(inserted_ids(&effects), vec![3]);
}

#[test]
fn cached_title_renders_bilingual() {
    let mut o = AgentReasoningTranslationOrchestrator::new(true);
    let cfg = config(5_000);
    assert_eq!(o.maybe_status_header_from_reasoning_buffer("**Plan**"), Some("Plan".to_string()));
    o.maybe_translate_reasoning_body(Some(&cfg), Some(THREAD), "**Plan**\nLook around.".to_string(), &at(0));
    let r = o.on_body_translated(done(0, Some("Plan"), "**计划**\n四处看看"), Some(THREAD), Some(&cfg), &at(1));
    assert_eq!(r.status_header_update, Some("Plan(计划)".to_string()));
    let effects = o.take_effects();
    assert!(effects.iter().any(|e| matches!(e, Effect::InsertHistory(HistoryUnit::TranslatedBody { text }) if text == "四处看看")));
    assert_eq!(o.maybe_status_header_from_reasoning_buffer("**Plan**\nmore"), Some("Plan(计划)".to_string()));
    assert_eq!(o.cached_title_translation(&"Plan".to_string()), Some("计划".to_string()));
}

#[test]
fn failure_inserts_message_with_title() {
    let mut o = AgentReasoningTranslationOrchestrator::new(true);
    o.begin_body_translation_barrier(100, THREAD, Some("Plan".to_string()), &at(0));
    o.take_effects();
    let msg = CompletionMessage::new(
        0,
        THREAD,
        Some("Plan".to_string()),
        None,
        Some("translator exited non-zero (code=Some(2)): stderr=boom stdout=".to_string()),
    );
    o.on_body_translated(msg, Some(THREAD), None, &at(1));
    match &o.take_effects()[0] {
        Effect::InsertHistory(HistoryUnit::TranslationFailed { title, reason }) => {
            assert_eq!(title.as_deref(), Some("Plan"));
            assert!(reason.contains("exited non-zero") && reason.contains("boom"));
        }
        _ => panic!("expected a failure unit"),
    }
    let mut o = AgentReasoningTranslationOrchestrator::new(true);
    o.begin_body_translation_barrier(100, THREAD, None, &at(0));
    o.on_body_translated(CompletionMessage::new(0, THREAD, None, None, None), Some(THREAD), None, &at(1));
    assert!(o.take_effects().iter().any(|e| matches!(e, Effect::InsertHistory(HistoryUnit::TranslationFailed { reason, .. }) if reason == "unknown error")));
}

#[test]
fn timeout_emits_placeholder_and_flushes() {
    let mut o = AgentReasoningTranslationOrchestrator::new(true);
    let cfg = config(50);
    o.maybe_translate_reasoning_body(Some(&cfg), Some(THREAD), "**Plan**\nSleep.".to_string(), &at(1_000));
    o.emit_history_cell(host(5));
    o.take_effects();
    let early = o.on_draw_tick(Vec::new(), Some(THREAD), Some(&cfg), &at(1_049));
    assert!(!early.needs_redraw);
    assert!(o.is_pending());
    let late = o.on_draw_tick(Vec::new(), Some(THREAD), Some(&cfg), &at(1_050));
    assert!(late.needs_redraw);
    assert!(!o.is_pending());
    let effects = o.take_effects();
    match &effects[0] {
        Effect::InsertHistory(HistoryUnit::TranslationFailed { title, reason }) => {
            assert_eq!(title.as_deref(), Some("Plan"));
            assert_eq!(reason, "waiting timed out (50ms); skipped translation output");
        }
        _ => panic!("expected the timeout placeholder"),
    }
    assert_eq!(inserted_ids(&effects), vec![5]);
    let r = o.on_draw_tick(vec![done(0, Some("Plan"), "**计划**\n晚了")], Some(THREAD), Some(&cfg), &at(6_000));
    assert!(!r.needs_redraw);
    assert!(o.take_effects().is_empty());
}

#[test]
fn deadline_can_be_moved() {
    let mut o = AgentReasoningTranslationOrchestrator::new(true);
    o.begin_body_translation_barrier(10_000, THREAD, None, &at(0));
    assert!(!o.maybe_flush_timeout(None, Some(THREAD), &at(1)));
    o.set_barrier_deadline_ms(1);
    assert!(o.maybe_flush_timeout(None, Some(THREAD), &at(1)));
}

#[test]
fn max_wait_override_parses_trimmed_millis() {
    let f = AgentReasoningTranslationOrchestrator::max_wait_with_env_override;
    assert_eq!(f(5_000, &None), 5_000);
    assert_eq!(f(5_000, &Some(" 250 ".to_string())), 250);
    assert_eq!(f(5_000, &Some("+7".to_string())), 7);
    assert_eq!(f(5_000, &Some("abc".to_string())), 5_000);
    assert_eq!(f(5_000, &Some("-1".to_string())), 5_000);
    assert_eq!(f(5_000, &Some("".to_string())), 5_000);
    assert_eq!(f(5_000, &Some("18446744073709551616".to_string())), 5_000);
    let mut o = AgentReasoningTranslationOrchestrator::new(true);
    let clock = Clock { now_ms: 0, max_wait_override: Some("75".to_string()) };
    o.begin_body_translation_barrier(5_000, THREAD, None, &clock);
    assert_eq!(o.barrier_max_wait_ms(), Some(75));
}

#[test]
fn batch_keeps_last_header_and_ignores_duplicates() {
    let mut o = AgentReasoningTranslationOrchestrator::default();
    let cfg = config(100);
    o.maybe_status_header_from_reasoning_buffer("**Plan**");
    o.begin_body_translation_barrier(100, THREAD, Some("Plan".to_string()), &at(0));
    let r = o.drain_body_translation_results(
        vec![done(0, Some("Plan"), "**计划**\n体"), done(0, Some("Plan"), "**别的**\n体")],
        Some(THREAD),
        Some(&cfg),
        &at(1),
    );
    assert_eq!(r.status_header_update, Some("Plan(计划)".to_string()));
    assert!(r.needs_redraw);
    assert_eq!(o.cached_title_translation(&"Plan".to_string()), Some("计划".to_string()));
}

#[test]
fn disabled_orchestrator_ignores_ticks() {
    let mut o = AgentReasoningTranslationOrchestrator::new(false);
    let r = o.on_draw_tick(vec![done(0, None, "x")], Some(THREAD), None, &at(0));
    assert!(!r.needs_redraw);
    assert!(!o.maybe_flush_timeout(None, Some(THREAD), &at(0)));
}

#[test]
fn timeout_fires_even_when_stale_messages_arrive_in_the_tick() {
    let mut o = AgentReasoningTranslationOrchestrator::new(true);
    let cfg = config(50);
    o.begin_body_translation_barrier(50, THREAD, Some("Plan".to_string()), &at(0));
    o.take_effects();
    let stale = CompletionMessage::new(41, THREAD, None, Some("x".to_string()), None);
    let r = o.on_draw_tick(vec![stale], Some(THREAD), Some(&cfg), &at(60));
    assert!(r.needs_redraw);
    assert!(r.status_header_update.is_none());
    assert!(!o.is_pending());
    match &o.take_effects()[0] {
        Effect::InsertHistory(HistoryUnit::TranslationFailed { title, reason }) => {
            assert_eq!(title.as_deref(), Some("Plan"));
            assert_eq!(reason, "waiting timed out (50ms); skipped translation output");
        }
        _ => panic!("expected the timeout placeholder"),
    }
}

#[test]
fn flush_without_chaining_inserts_every_unit_in_order() {
    let mut o = AgentReasoningTranslationOrchestrator::new(true);
    o.begin_body_translation_barrier(100, THREAD, None, &at(0));
    o.emit_history_cell(host(1));
    o.emit_history_cell(reasoning(2, "**Only title**"));
    o.emit_history_cell(host(3));
    o.take_effects();
    o.on_body_translated(done(0, None, "好"), Some(THREAD), None, &at(1));
    assert_eq!(inserted_ids(&o.take_effects()), vec![1, 2, 3]);
    assert_eq!(o.deferred_len(), 0);
    assert!(!o.is_pending());
}
