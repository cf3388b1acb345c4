use robot_harness::bench::{PanelRuntime, SystemAction};
use robot_harness::domain::{FirmwareFault, RobotEmotion, RobotMode};
use robot_harness::events::AppEvent;
use robot_harness::model::{GamepadLink, MotionCommand, SystemActionRequest, TestKind};
use robot_harness::orchestrator::{
    full_harness_stages, motor_test_actions, touch_dispatch, touch_trigger, StepPhase,
};
use robot_harness::panel::default_limitations;
use robot_harness::ports::{port_call, MotionPort, PortCall};
use robot_harness::state::{AppState, HarnessState};
use robot_harness::store::{PanelStateStore, PendingPanelCommand};
use robot_harness::touch::TouchSnapshot;

struct Recorder {
    calls: Vec<&'static str>,
}

impl MotionPort for Recorder {
    fn stop(&mut self) -> Result<(), String> {
        self.calls.push("stop");
        Ok(())
    }
    fn forward(&mut self) -> Result<(), String> {
        self.calls.push("forward");
        Ok(())
    }
    fn backward(&mut self) -> Result<(), String> {
        self.calls.push("backward");
        Ok(())
    }
    fn turn_left(&mut self) -> Result<(), String> {
        self.calls.push("turn_left");
        Ok(())
    }
    fn turn_right(&mut self) -> Result<(), String> {
        self.calls.push("turn_right");
        Ok(())
    }
}

#[test]
fn motor_commands_reach_their_port_calls() {
    let mut r = Recorder { calls: Vec::new() };
    for c in [
        MotionCommand::Forward,
        MotionCommand::ArcadeDrive,
        MotionCommand::TurnRight,
        MotionCommand::Backward,
        MotionCommand::TurnLeft,
        MotionCommand::Stop,
    ] {
        r.apply_command(c).unwrap();
    }
    assert_eq!(r.calls, vec!["forward", "stop", "turn_right", "backward", "turn_left", "stop"]);
}

#[test]
fn motor_steps_are_bracketed_by_stops() {
    let actions = motor_test_actions();
    assert_eq!(actions.len(), 12);
    let names = ["forward", "backward", "turn_left", "turn_right"];
    let commands = [MotionCommand::Forward, MotionCommand::Backward, MotionCommand::TurnLeft, MotionCommand::TurnRight];
    for i in 0..4 {
        assert_eq!((actions[3 * i].step, actions[3 * i].command, actions[3 * i].phase), (names[i], MotionCommand::Stop, StepPhase::PreStop));
        assert_eq!((actions[3 * i + 1].step, actions[3 * i + 1].command, actions[3 * i + 1].phase), (names[i], commands[i], StepPhase::Active));
        assert_eq!((actions[3 * i + 2].step, actions[3 * i + 2].command, actions[3 * i + 2].phase), (names[i], MotionCommand::Stop, StepPhase::Completed));
    }
    assert_eq!(StepPhase::PreStop.as_str(), "pre-stop");
    assert_eq!(StepPhase::Completed.as_str(), "completed");
}

#[test]
fn touch_dispatches_display_then_motor() {
    assert_eq!(touch_dispatch(TouchSnapshot { pet: true, record: true }), vec![TestKind::Display, TestKind::Motor]);
    assert_eq!(touch_dispatch(TouchSnapshot { pet: false, record: true }), vec![TestKind::Motor]);
    assert!(touch_dispatch(TouchSnapshot { pet: false, record: false }).is_empty());
    let (event, component) = touch_trigger(TestKind::Display);
    assert!(matches!(event, AppEvent::PetTouchTriggered));
    assert_eq!(component, "display");
    let (event, component) = touch_trigger(TestKind::Motor);
    assert!(matches!(event, AppEvent::RecordTouchTriggered));
    assert_eq!(component, "motor");
    assert_eq!(
        full_harness_stages(),
        vec![TestKind::Touch, TestKind::Display, TestKind::Motor, TestKind::AudioIn, TestKind::AudioOut]
    );
}

#[test]
fn state_stays_consistent_over_calls() {
    let mut s = AppState::new(0);
    s.transition_to(HarnessState::TestTouch);
    assert_eq!(s.emotion(), RobotEmotion::Curious);
    assert_eq!(s.robot_mode(), RobotMode::Diagnostics);
    s.mark_heartbeat(5000);
    s.set_fault(FirmwareFault::runtime("x".to_string()));
    assert_eq!((s.robot_mode(), s.emotion()), (RobotMode::Faulted, RobotEmotion::Alert));
    s.transition_to(HarnessState::Idle);
    assert_eq!((s.robot_mode(), s.emotion()), (RobotMode::Idle, RobotEmotion::Neutral));
}

#[test]
fn queued_commands_come_out_in_order() {
    let mut store = PanelStateStore::new("T+0.000s");
    store.request_system_action(SystemActionRequest { action: robot_harness::model::SystemAction::ResetIdle }, "T+0.1s");
    assert!(store.request_inspection_scan("T+0.2s"));
    store.request_system_action(SystemActionRequest { action: robot_harness::model::SystemAction::EmergencyStop }, "T+0.3s");
    assert_eq!(store.take_pending_command(), Some(PendingPanelCommand::System(robot_harness::model::SystemAction::ResetIdle)));
    assert_eq!(store.take_pending_command(), Some(PendingPanelCommand::RunInspection));
    assert_eq!(store.take_pending_command(), Some(PendingPanelCommand::System(robot_harness::model::SystemAction::EmergencyStop)));
    assert_eq!(store.take_pending_command(), None);
}

#[test]
fn scans_keep_the_limitation_texts() {
    let mut store = PanelStateStore::new("T+0.000s");
    store.complete_inspection_scan(false, "sessiz", "Tarama tamamlandı", "T+0.1s");
    assert_eq!(store.snapshot().inspection.limitations, default_limitations());
    store.fail_inspection_scan("i2c timeout", "T+0.2s");
    assert_eq!(store.snapshot().inspection.limitations, default_limitations());
}

#[test]
fn bench_start_changes_only_the_running_test() {
    let mut rt = PanelRuntime::new();
    rt.apply_system_action(SystemAction::InjectFault);
    let count = rt.snapshot().overview.heartbeat_count;
    assert!(rt.begin_test(TestKind::Display));
    let s = rt.snapshot();
    assert_eq!(s.overview.fault.as_deref(), Some("manual fault injected from localhost panel"));
    assert_eq!(s.overview.harness_state, HarnessState::Fault);
    assert_eq!(s.overview.heartbeat_count, count);
    assert_eq!(s.transport.backend, "mock_robot_transport");
    assert!(!rt.begin_test(TestKind::Motor));
    assert_eq!(rt.snapshot().tests.running, Some(TestKind::Display));
    rt.finish_test(TestKind::Display);
    assert!(rt.begin_test(TestKind::Motor));
}

#[test]
fn each_command_has_its_port_call() {
    assert_eq!(port_call(MotionCommand::Stop), PortCall::Stop);
    assert_eq!(port_call(MotionCommand::ArcadeDrive), PortCall::Stop);
    assert_eq!(port_call(MotionCommand::Forward), PortCall::Forward);
    assert_eq!(port_call(MotionCommand::Backward), PortCall::Backward);
    assert_eq!(port_call(MotionCommand::TurnLeft), PortCall::TurnLeft);
    assert_eq!(port_call(MotionCommand::TurnRight), PortCall::TurnRight);
    for action in motor_test_actions() {
        let call = port_call(action.command);
        assert_eq!(call == PortCall::Stop, action.phase != StepPhase::Active);
    }
}

#[test]
fn gamepad_drives_only_when_connected_and_enabled() {
    let link = |connected, driving_enabled| GamepadLink { connected, driving_enabled, id: Some("pad".to_string()) };
    assert!(link(true, true).drives());
    assert!(!link(true, false).drives());
    assert!(!link(false, true).drives());
}
