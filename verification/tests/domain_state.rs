use robot_harness::domain::{FaultKind, FirmwareFault, RobotEmotion, RobotMode};
use robot_harness::events::{event_record, AppEvent};
use robot_harness::orchestrator::{
    full_harness_verdict, inspection_outcome, motion_gate, panel_task, runtime_fault, transition,
    PanelTask, TouchWindow, TOUCH_TEST_POLLS,
};
use robot_harness::model::{ControlSource, MotionCommand, SystemAction, TestExecutionState, TestKind};
use robot_harness::state::{AppState, HarnessState};
use robot_harness::store::PendingPanelCommand;
use robot_harness::telemetry::{
    fault_record, heartbeat_record, level_label, test_failed_record, SerialTelemetry,
    TelemetryLevel,
};
use robot_harness::touch::TouchSnapshot;

#[test]
fn names_match_telemetry_vocabulary() {
    assert_eq!(RobotMode::Diagnostics.as_str(), "diagnostics");
    assert_eq!(RobotEmotion::Curious.as_str(), "curious");
    assert_eq!(FaultKind::Initialization.as_str(), "initialization");
    assert_eq!(HarnessState::TestAudioOutPlaceholder.as_str(), "test_audio_out_placeholder");
    assert_eq!(level_label(TelemetryLevel::Warn), "warn");
}

#[test]
fn fault_renders_kind_and_message() {
    let fault = FirmwareFault::runtime("display test failed: bus".to_string());
    assert_eq!(fault.kind(), FaultKind::Runtime);
    assert_eq!(fault.message(), "display test failed: bus");
    assert_eq!(fault.to_string(), "kind=runtime message=display test failed: bus");
    let init = FirmwareFault::initialization("no peripherals".to_string());
    assert_eq!(init.to_string(), "kind=initialization message=no peripherals");
}

#[test]
fn app_state_starts_booting() {
    let state = AppState::new(1_000);
    assert_eq!(state.harness_state(), HarnessState::Boot);
    assert_eq!(state.robot_mode(), RobotMode::Booting);
    assert_eq!(state.emotion(), RobotEmotion::Focused);
    assert!(state.last_fault().is_none());
}

#[test]
fn every_transition_takes_matching_mode_and_emotion() {
    let mut state = AppState::new(0);
    let cases = [
        (HarnessState::Idle, RobotMode::Idle, RobotEmotion::Neutral),
        (HarnessState::TestTouch, RobotMode::Diagnostics, RobotEmotion::Curious),
        (HarnessState::TestMotor, RobotMode::Diagnostics, RobotEmotion::Focused),
        (HarnessState::TestDisplay, RobotMode::Diagnostics, RobotEmotion::Focused),
        (HarnessState::TestAudioInPlaceholder, RobotMode::Diagnostics, RobotEmotion::Focused),
        (HarnessState::TestAudioOutPlaceholder, RobotMode::Diagnostics, RobotEmotion::Focused),
        (HarnessState::Fault, RobotMode::Faulted, RobotEmotion::Alert),
        (HarnessState::Boot, RobotMode::Booting, RobotEmotion::Focused),
    ];
    for (next, mode, emotion) in cases {
        state.transition_to(next);
        assert_eq!(state.harness_state(), next);
        assert_eq!(state.robot_mode(), mode);
        assert_eq!(state.emotion(), emotion);
    }
}

#[test]
fn set_fault_enters_fault_state() {
    let mut state = AppState::new(0);
    state.transition_to(HarnessState::Idle);
    state.set_fault(FirmwareFault::runtime("boom".to_string()));
    assert_eq!(state.harness_state(), HarnessState::Fault);
    assert_eq!(state.robot_mode(), RobotMode::Faulted);
    assert_eq!(state.emotion(), RobotEmotion::Alert);
    assert_eq!(state.last_fault().unwrap().message(), "boom");
}

#[test]
fn heartbeat_due_after_interval() {
    let mut state = AppState::new(1_000);
    assert!(!state.heartbeat_due(5_999, 5_000));
    assert!(state.heartbeat_due(6_000, 5_000));
    state.mark_heartbeat(6_000);
    assert!(!state.heartbeat_due(6_000, 5_000));
    assert!(state.heartbeat_due(6_000, 0));
    // a clock reading before the last heartbeat counts as no time passed
    assert!(!state.heartbeat_due(10, 1));
}

#[test]
fn transition_detail_names_new_mode() {
    let mut state = AppState::new(0);
    let detail = transition(&mut state, HarnessState::TestTouch);
    assert_eq!(detail, "from=boot to=test_touch mode=diagnostics emotion=curious");
}

#[test]
fn telemetry_records() {
    let fault = FirmwareFault::runtime("x".to_string());
    let r = test_failed_record("motor", &fault);
    assert_eq!(r.level, TelemetryLevel::Error);
    assert_eq!(r.action, "failure");
    assert_eq!(r.detail, "kind=runtime message=x");
    let h = heartbeat_record(RobotMode::Idle, "idle", "neutral");
    assert_eq!(h.component, "app");
    assert_eq!(h.detail, "mode=idle state=idle emotion=neutral");
    let f = fault_record(&fault);
    assert_eq!((f.component.as_str(), f.action.as_str()), ("fault", "active"));
}

#[test]
fn serial_line_quotes_detail() {
    let serial = SerialTelemetry::new();
    assert_eq!(
        serial.message_line("touch", "start", "test started"),
        "component=touch action=start detail=\"test started\""
    );
}

#[test]
fn events_map_to_records() {
    let r = event_record(&AppEvent::RecordTouchTriggered, "in", "out");
    assert_eq!(r.detail, "dispatching motor test");
    let r = event_record(&AppEvent::AudioOutPlaceholderReady, "in", "out");
    assert_eq!(r.level, TelemetryLevel::Warn);
    assert_eq!(r.detail, "out");
    let r = event_record(
        &AppEvent::FaultDetected(FirmwareFault::runtime("bad".to_string())),
        "in",
        "out",
    );
    assert_eq!(r.action, "fault_detected");
    assert_eq!(r.detail, "kind=runtime message=bad");
}

#[test]
fn touch_snapshot_describe() {
    let s = TouchSnapshot { pet: true, record: false };
    assert!(s.any_triggered());
    assert_eq!(s.describe(), "pet=true record=false");
    assert!(!TouchSnapshot::default().any_triggered());
}

#[test]
fn touch_window_needs_both_inputs() {
    let mut w = TouchWindow::new();
    assert!(!w.observe(TouchSnapshot { pet: true, record: false }));
    assert!(!w.observe(TouchSnapshot { pet: false, record: false }));
    assert!(w.observe(TouchSnapshot { pet: false, record: true }));
    assert!(w.passed());
    assert_eq!(w.detail(), "pet_seen=true record_seen=true");
}

#[test]
fn touch_window_runs_out() {
    let mut w = TouchWindow::new();
    for _ in 0..TOUCH_TEST_POLLS {
        assert!(!w.exhausted());
        w.observe(TouchSnapshot { pet: true, record: false });
    }
    assert!(w.exhausted());
    assert!(!w.passed());
    assert_eq!(w.detail(), "pet_seen=true record_seen=false");
}

#[test]
fn emergency_stop_is_a_safety_stop() {
    assert_eq!(
        panel_task(PendingPanelCommand::System(SystemAction::EmergencyStop)),
        PanelTask::Motion(MotionCommand::Stop, ControlSource::Safety)
    );
    assert_eq!(panel_task(PendingPanelCommand::System(SystemAction::ResetIdle)), PanelTask::ResetIdle);
    assert_eq!(
        panel_task(PendingPanelCommand::RunTest(TestKind::Motor)),
        PanelTask::Test(TestKind::Motor)
    );
}

#[test]
fn stop_is_never_refused() {
    assert!(motion_gate(MotionCommand::Stop, Some("locked".to_string())).is_none());
    assert_eq!(
        motion_gate(MotionCommand::Forward, Some("locked".to_string())).unwrap(),
        "command=forward reason=locked"
    );
    assert!(motion_gate(MotionCommand::Forward, None).is_none());
}

#[test]
fn full_harness_verdicts() {
    assert_eq!(full_harness_verdict(Ok(true)).0, TestExecutionState::Passed);
    let (state, detail) = full_harness_verdict(Ok(false));
    assert_eq!(state, TestExecutionState::Failed);
    assert_eq!(detail, "Tam test bitti ancak dokunmatik doğrulama başarısız oldu");
    let (state, detail) = full_harness_verdict(Err("i2c".to_string()));
    assert_eq!(state, TestExecutionState::Failed);
    assert_eq!(detail, "Tam test çalışma zamanı hatası: i2c");
}

#[test]
fn inspection_summary_text() {
    let (detail, summary) = inspection_outcome(false, TouchSnapshot { pet: false, record: true });
    assert_eq!(detail, "OLED 0x3C adresi I2C probuna cevap vermedi");
    assert_eq!(summary, "Tarama tamamlandı: oled_present=false pet_level=false record_level=true");
}

#[test]
fn runtime_fault_joins_context() {
    let f = runtime_fault("motor test failed", "gpio");
    assert_eq!(f.to_string(), "kind=runtime message=motor test failed: gpio");
}
