use robot_harness::bench::{bench_motor_steps, test_stages, PanelRuntime, SystemAction};
use robot_harness::domain::{RobotEmotion, RobotMode};
use robot_harness::model::{ControlSource, MotionCommand, MotorGpioState, TestKind};
use robot_harness::state::HarnessState;

fn last_detail(rt: &PanelRuntime) -> String {
    rt.snapshot().telemetry.last().unwrap().detail.clone()
}

#[test]
fn bench_starts_idle_with_boot_entry() {
    let rt = PanelRuntime::new();
    let s = rt.snapshot();
    assert_eq!(s.overview.harness_state, HarnessState::Idle);
    assert_eq!(s.overview.robot_mode, RobotMode::Idle);
    assert_eq!(s.overview.emotion, RobotEmotion::Neutral);
    assert_eq!(s.telemetry.len(), 1);
    assert_eq!(s.telemetry[0].action, "boot_completed");
    let ts = &s.telemetry[0].timestamp;
    assert_eq!(ts.len(), 8);
    assert_eq!(&ts[2..3], ":");
}

#[test]
fn bench_tests_do_not_overlap() {
    let mut rt = PanelRuntime::new();
    assert!(rt.begin_test(TestKind::Touch));
    assert_eq!(last_detail(&rt), "test=Touch");
    assert!(!rt.begin_test(TestKind::Motor));
    assert_eq!(rt.snapshot().tests.running, Some(TestKind::Touch));
    rt.run_touch_stage();
    assert_eq!(last_detail(&rt), "pet_touch=false record_touch=false");
    rt.finish_test(TestKind::Touch);
    assert_eq!(rt.snapshot().tests.running, None);
    assert_eq!(rt.snapshot().tests.last_completed, Some(TestKind::Touch));
    assert_eq!(rt.snapshot().overview.harness_state, HarnessState::Idle);
}

#[test]
fn bench_fault_and_reset() {
    let mut rt = PanelRuntime::new();
    rt.apply_motion_action(MotionCommand::Forward);
    assert_eq!(last_detail(&rt), "action=Forward source=panel_button");
    rt.apply_system_action(SystemAction::InjectFault);
    let s = rt.snapshot();
    assert_eq!(s.overview.harness_state, HarnessState::Fault);
    assert_eq!(s.overview.fault.as_deref(), Some("manual fault injected from localhost panel"));
    assert_eq!(s.motors.command, MotionCommand::Stop);
    assert_eq!(s.motors.source, ControlSource::Safety);
    // finishing a test while faulted stays faulted
    rt.finish_test(TestKind::Display);
    assert_eq!(rt.snapshot().overview.harness_state, HarnessState::Fault);
    rt.apply_system_action(SystemAction::ClearFault);
    assert_eq!(rt.snapshot().overview.fault, None);
    assert_eq!(rt.snapshot().overview.harness_state, HarnessState::Idle);
    assert_eq!(rt.snapshot().sensors.display_message, "IDLE: localhost panel armed");
    rt.apply_system_action(SystemAction::EmergencyStop);
    assert_eq!(last_detail(&rt), "motors forced to stop");
}

#[test]
fn bench_sensor_override_and_heartbeat() {
    let mut rt = PanelRuntime::new();
    rt.update_sensors(Some(true), None);
    assert!(rt.snapshot().sensors.pet_touch);
    assert_eq!(last_detail(&rt), "pet_touch=Some(true) record_touch=None");
    rt.heartbeat();
    assert_eq!(rt.snapshot().overview.heartbeat_count, 1);
    let arcade = MotorGpioState { in1: true, in2: false, in3: false, in4: true };
    rt.apply_motion(MotionCommand::ArcadeDrive, ControlSource::Gamepad, arcade, "throttle=0.00 turn=0.50 source=gamepad");
    assert_eq!(rt.snapshot().motors.gpio, arcade);
}

#[test]
fn bench_plans() {
    assert_eq!(
        test_stages(TestKind::FullHarness),
        vec![TestKind::Touch, TestKind::Display, TestKind::Motor, TestKind::AudioIn, TestKind::AudioOut]
    );
    assert_eq!(test_stages(TestKind::AudioIn), vec![TestKind::AudioIn]);
    let steps = bench_motor_steps();
    assert_eq!(steps[2], (MotionCommand::TurnLeft, "turn_left step"));
    let mut rt = PanelRuntime::new();
    rt.run_display_stage();
    assert_eq!(rt.snapshot().overview.harness_state, HarnessState::TestDisplay);
    rt.run_audio_in_stage();
    rt.run_audio_out_stage();
    rt.begin_motor_stage();
    assert_eq!(rt.snapshot().overview.harness_state, HarnessState::TestMotor);
    assert_eq!(rt.snapshot().overview.robot_mode, RobotMode::Diagnostics);
}

fn is_clock(s: &str) -> bool {
    let b = s.as_bytes();
    let two = |i: usize, max: u32| {
        b[i].is_ascii_digit() && b[i + 1].is_ascii_digit() && ((b[i] - b'0') as u32) * 10 + ((b[i + 1] - b'0') as u32) <= max
    };
    b.len() == 8 && b[2] == b':' && b[5] == b':' && two(0, 23) && two(3, 59) && two(6, 60)
}

#[test]
fn bench_times_are_wall_clock_readings() {
    let mut rt = PanelRuntime::new();
    rt.heartbeat();
    rt.transition(HarnessState::TestTouch);
    let s = rt.snapshot();
    assert!(is_clock(&s.overview.updated_at));
    assert!(s.telemetry.iter().all(|e| is_clock(&e.timestamp)));
}
