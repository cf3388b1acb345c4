use robot_harness::domain::{FirmwareFault, RobotEmotion, RobotMode};
use robot_harness::model::{
    ControlSource, ManualChecksRequest, MotionCommand, MotorActionRequest, MotorGpioState,
    PinConnectionStatus, RunTestRequest, SystemAction, SystemActionRequest, TestExecutionState,
    TestKind,
};
use robot_harness::panel::{check_body_len, default_limitations, default_test_reports, pin_from_manual, pin_from_motor, pin_from_touch, TELEMETRY_LIMIT};
use robot_harness::state::HarnessState;
use robot_harness::store::{PanelStateStore, PendingPanelCommand};
use robot_harness::telemetry::TelemetryLevel;

fn report(store: &PanelStateStore, test: TestKind) -> (TestExecutionState, bool, Option<String>, String) {
    let r = store
        .snapshot()
        .tests
        .reports
        .iter()
        .find(|r| r.test == test)
        .unwrap();
    (r.state, r.run_allowed, r.blocked_reason.clone(), r.last_detail.clone())
}

fn all_wired(store: &mut PanelStateStore) {
    store.update_manual_checks(
        ManualChecksRequest { motor_driver_wired: true, microphone_wired: true, speaker_wired: true },
        "T+1.000s",
    );
}

#[test]
fn new_store_is_booting_with_touch_runnable() {
    let store = PanelStateStore::new("T+0.001s");
    let s = store.snapshot();
    assert_eq!(s.overview.harness_state, HarnessState::Boot);
    assert_eq!(s.overview.robot_mode, RobotMode::Booting);
    assert_eq!(s.overview.updated_at, "T+0.001s");
    assert_eq!(s.sensors.display_message, "BAŞLATILIYOR");
    assert_eq!(s.inspection.pins.len(), 14);
    assert_eq!(s.inspection.limitations.len(), 3);
    assert_eq!(s.tests.reports.len(), 6);
    assert!(report(&store, TestKind::Touch).1);
    assert_eq!(
        report(&store, TestKind::Display).2.as_deref(),
        Some("Önce ön kontrol taraması çalıştırılmalı.")
    );
    assert!(!s.controls.motion_run_allowed);
    assert_eq!(
        s.controls.motion_blocked_reason.as_deref(),
        Some("Motor sürücüsü kablolaması onaylanmadan hareket komutu kilitlidir.")
    );
    assert_eq!(s.transport.target, "starting");
    assert!(s.telemetry.is_empty());
}

#[test]
fn pin_table_order_and_statuses() {
    let store = PanelStateStore::new("T+0.000s");
    let pins = &store.snapshot().inspection.pins;
    let keys: Vec<&str> = pins.iter().map(|p| p.key.as_str()).collect();
    assert_eq!(
        keys,
        vec![
            "oled_scl", "oled_sda", "pet_touch", "record_touch", "motor_in1", "motor_in2",
            "motor_in3", "motor_in4", "mic_sck", "mic_ws", "mic_sd", "speaker_lrc",
            "speaker_bclk", "speaker_din"
        ]
    );
    let gpios: Vec<u8> = pins.iter().map(|p| p.gpio).collect();
    assert_eq!(gpios, vec![9, 8, 5, 6, 1, 2, 41, 42, 12, 13, 11, 14, 16, 15]);
    assert_eq!(pins[0].connection_status, PinConnectionStatus::Unknown);
    assert_eq!(pins[0].detail, "OLED I2C doğrulaması henüz yapılmadı");
    assert_eq!(pins[4].connection_status, PinConnectionStatus::ManualRequired);
    assert_eq!(pins[2].signal, "LOW");
}

#[test]
fn pin_builders() {
    let p = pin_from_touch("pet_touch", "Pet", 5, true, true);
    assert_eq!(p.signal, "HIGH");
    assert_eq!(p.connection_status, PinConnectionStatus::Present);
    assert_eq!(p.required_by, vec!["Dokunmatik Testi", "Tam Test Harnesi"]);
    let m = pin_from_motor("motor_in1", "Motor IN1", 1, false, PinConnectionStatus::ManualConfirmed);
    assert_eq!(m.direction, "output");
    assert_eq!(m.required_by, vec!["Motor Testi", "Tam Test Harnesi"]);
    let q = pin_from_manual("mic_ws", "Mikrofon WS", 13, "I2S word select", PinConnectionStatus::ManualRequired, TestKind::AudioIn);
    assert_eq!(q.signal, "REZERVE");
    assert_eq!(q.required_by, vec!["Mikrofon Hazırlık Testi", "Tam Test Harnesi"]);
}

#[test]
fn defaults() {
    let reports = default_test_reports("T+0.000s");
    let tests: Vec<TestKind> = reports.iter().map(|r| r.test).collect();
    assert_eq!(
        tests,
        vec![TestKind::FullHarness, TestKind::Touch, TestKind::Motor, TestKind::Display, TestKind::AudioIn, TestKind::AudioOut]
    );
    assert!(reports.iter().all(|r| r.state == TestExecutionState::Idle && r.last_detail == "Henüz çalıştırılmadı"));
    assert_eq!(default_limitations()[0], "OLED için 0x3C I2C probu otomatik doğrulama yapar.");
}

#[test]
fn inspection_scan_enables_display_test() {
    let mut store = PanelStateStore::new("T+0.000s");
    assert!(store.request_inspection_scan("T+0.100s"));
    assert_eq!(store.take_pending_command(), Some(PendingPanelCommand::RunInspection));
    assert_eq!(
        store.test_block_reason(TestKind::Touch).as_deref(),
        Some("Ön kontrol taraması sürüyor; tamamlanmasını bekleyin.")
    );
    // a second scan while one is running is rejected
    assert!(!store.request_inspection_scan("T+0.150s"));
    store.complete_inspection_scan(true, "OLED cevap verdi", "Tarama tamamlandı", "T+0.200s");
    assert!(store.snapshot().sensors.display_ready);
    assert!(report(&store, TestKind::Display).1);
    assert_eq!(store.snapshot().inspection.pins[1].connection_status, PinConnectionStatus::Present);
    assert!(!store.snapshot().inspection.post_passed);
    all_wired(&mut store);
    assert!(store.snapshot().inspection.post_passed);
    assert!(report(&store, TestKind::FullHarness).1);
}

#[test]
fn failed_scan_leaves_display_unknown() {
    let mut store = PanelStateStore::new("T+0.000s");
    store.begin_inspection_scan("T+0.010s");
    assert_eq!(store.snapshot().inspection.last_scan_summary, "Ön kontrol çalışıyor");
    store.fail_inspection_scan("i2c timeout", "T+0.020s");
    let s = store.snapshot();
    assert!(s.inspection.scan_completed);
    assert!(!s.sensors.display_ready);
    assert_eq!(s.inspection.last_scan_summary, "Ön kontrol hatası: i2c timeout");
    assert_eq!(s.inspection.pins[0].detail, "i2c timeout");
    assert_eq!(
        report(&store, TestKind::Display).2.as_deref(),
        Some("OLED ekran otomatik I2C probunda bulunamadı.")
    );
}

#[test]
fn blocked_test_request_marks_report() {
    let mut store = PanelStateStore::new("T+0.000s");
    assert!(!store.request_test(RunTestRequest { test: TestKind::Motor }, "T+0.300s"));
    let (state, allowed, reason, detail) = report(&store, TestKind::Motor);
    assert_eq!(state, TestExecutionState::Blocked);
    assert!(!allowed);
    assert_eq!(reason.as_deref(), Some("Motor sürücüsü kablolaması operatör tarafından onaylanmalı."));
    assert_eq!(detail, "Motor sürücüsü kablolaması operatör tarafından onaylanmalı.");
    let last = store.snapshot().telemetry.last().unwrap();
    assert_eq!(last.level, "warn");
    assert_eq!(last.detail, "Motor Testi başlatılamadı: Motor sürücüsü kablolaması operatör tarafından onaylanmalı.");
    assert_eq!(store.take_pending_command(), None);
}

#[test]
fn runnable_test_request_is_queued() {
    let mut store = PanelStateStore::new("T+0.000s");
    assert!(store.request_test(RunTestRequest { test: TestKind::Touch }, "T+0.300s"));
    assert_eq!(store.snapshot().telemetry.last().unwrap().detail, "Dokunmatik Testi kuyruğa alındı");
    assert_eq!(store.take_pending_command(), Some(PendingPanelCommand::RunTest(TestKind::Touch)));
}

#[test]
fn running_test_blocks_others_and_motion() {
    let mut store = PanelStateStore::new("T+0.000s");
    all_wired(&mut store);
    assert!(store.snapshot().controls.motion_run_allowed);
    store.mark_test_running(TestKind::Touch, "başladı", "T+2.000s");
    let (state, allowed, reason, _) = report(&store, TestKind::Touch);
    assert_eq!(state, TestExecutionState::Running);
    assert!(!allowed);
    assert_eq!(reason, None);
    assert_eq!(
        store.test_block_reason(TestKind::Motor).as_deref(),
        Some("Şu anda Dokunmatik Testi çalışıyor; yeni test başlatılamaz.")
    );
    assert_eq!(
        store.motion_block_reason().as_deref(),
        Some("Test çalışırken manuel motor komutu gönderilemez.")
    );
    store.mark_test_passed(TestKind::Touch, "tamam", "T+3.000s");
    assert_eq!(store.snapshot().tests.running, None);
    assert_eq!(store.snapshot().tests.last_completed, Some(TestKind::Touch));
    assert_eq!(report(&store, TestKind::Touch).0, TestExecutionState::Passed);
    assert!(store.snapshot().controls.motion_run_allowed);
    store.mark_test_failed(TestKind::Motor, "hata", "T+4.000s");
    assert_eq!(report(&store, TestKind::Motor).0, TestExecutionState::Failed);
}

#[test]
fn motor_actions_respect_lock_but_stop_passes() {
    let mut store = PanelStateStore::new("T+0.000s");
    assert!(!store.request_motor_action(MotorActionRequest { action: MotionCommand::Forward }, "T+1.0s"));
    assert_eq!(
        store.snapshot().telemetry.last().unwrap().detail,
        "İleri komutu reddedildi: Motor sürücüsü kablolaması onaylanmadan hareket komutu kilitlidir."
    );
    assert!(store.request_motor_action(MotorActionRequest { action: MotionCommand::Stop }, "T+1.1s"));
    assert_eq!(
        store.take_pending_command(),
        Some(PendingPanelCommand::Motion(MotionCommand::Stop, ControlSource::PanelButton))
    );
    assert!(!store.request_arcade_drive(MotionCommand::Forward, "throttle=0.50 turn=0.00", "T+1.2s"));
    assert!(store.request_arcade_drive(MotionCommand::Stop, "throttle=0.00 turn=0.00", "T+1.3s"));
    assert_eq!(
        store.snapshot().telemetry.last().unwrap().detail,
        "Arcade sürüş kuyruğa alındı throttle=0.00 turn=0.00"
    );
    assert!(!store.apply_gamepad_update(Some(MotionCommand::TurnLeft), "T+1.4s"));
    assert_eq!(store.snapshot().telemetry.last().unwrap().component, "gamepad");
    assert!(!store.apply_gamepad_update(None, "T+1.5s"));
    all_wired(&mut store);
    assert!(store.request_motor_action(MotorActionRequest { action: MotionCommand::TurnRight }, "T+2.0s"));
    assert!(store.apply_gamepad_update(Some(MotionCommand::Forward), "T+2.1s"));
}

#[test]
fn system_actions_are_queued_in_order() {
    let mut store = PanelStateStore::new("T+0.000s");
    store.request_system_action(SystemActionRequest { action: SystemAction::EmergencyStop }, "T+0.5s");
    store.request_system_action(SystemActionRequest { action: SystemAction::ResetIdle }, "T+0.6s");
    assert_eq!(store.snapshot().telemetry.last().unwrap().detail, "sistem komutu kuyruğa alındı: Boşa Al / Dur");
    assert_eq!(store.take_pending_command(), Some(PendingPanelCommand::System(SystemAction::EmergencyStop)));
    assert_eq!(store.take_pending_command(), Some(PendingPanelCommand::System(SystemAction::ResetIdle)));
    assert_eq!(store.take_pending_command(), None);
}

#[test]
fn fault_locks_everything() {
    let mut store = PanelStateStore::new("T+0.000s");
    all_wired(&mut store);
    let fault = FirmwareFault::runtime("motor".to_string());
    store.set_fault(Some(&fault), "T+5.000s");
    let s = store.snapshot();
    assert_eq!(s.overview.harness_state, HarnessState::Fault);
    assert_eq!(s.overview.emotion, RobotEmotion::Alert);
    assert_eq!(s.overview.fault.as_deref(), Some("kind=runtime message=motor"));
    assert!(!s.controls.motion_run_allowed);
    assert!(s.tests.reports.iter().all(|r| !r.run_allowed));
    assert_eq!(
        store.test_block_reason(TestKind::Touch).as_deref(),
        Some("Sistem fault durumunda; önce güvenli şekilde sıfırlayın.")
    );
    store.sync_state(HarnessState::Idle, RobotMode::Idle, RobotEmotion::Neutral, "T+6.000s");
    assert_eq!(store.snapshot().overview.fault, None);
    assert!(store.snapshot().controls.motion_run_allowed);
}

#[test]
fn touch_levels_stay_seen() {
    let mut store = PanelStateStore::new("T+0.000s");
    store.update_touch_inputs(true, false, "T+0.1s");
    store.update_touch_inputs(false, false, "T+0.2s");
    let s = store.snapshot();
    assert!(!s.sensors.pet_touch);
    assert!(s.sensors.pet_touch_seen);
    assert!(!s.sensors.record_touch_seen);
    assert_eq!(s.inspection.pins[2].connection_status, PinConnectionStatus::Present);
    assert_eq!(s.inspection.pins[3].connection_status, PinConnectionStatus::Unknown);
}

#[test]
fn motion_updates_gpio_and_pins() {
    let mut store = PanelStateStore::new("T+0.000s");
    let low = MotorGpioState { in1: false, in2: false, in3: false, in4: false };
    store.update_motion(MotionCommand::TurnLeft, ControlSource::TestHarness, low, "test step=turn_left active", "T+1.0s");
    let s = store.snapshot();
    assert_eq!(s.motors.gpio, MotorGpioState { in1: false, in2: true, in3: true, in4: false });
    assert_eq!(s.inspection.pins[5].signal, "HIGH");
    assert_eq!(s.telemetry.last().unwrap().action, "panel_state_sync");
    let arcade = MotorGpioState { in1: true, in2: false, in3: false, in4: false };
    store.update_motion(MotionCommand::ArcadeDrive, ControlSource::Slider, arcade, "arcade", "T+1.1s");
    assert_eq!(store.snapshot().motors.gpio, arcade);
}

#[test]
fn telemetry_ring_keeps_latest_entries() {
    let mut store = PanelStateStore::new("T+0.000s");
    for i in 0..(TELEMETRY_LIMIT + 5) {
        store.push_log(TelemetryLevel::Info, "test", "tick", &format!("{i}"), "T+1.000s");
    }
    let t = &store.snapshot().telemetry;
    assert_eq!(t.len(), TELEMETRY_LIMIT);
    assert_eq!(t[0].detail, "5");
    assert_eq!(t[TELEMETRY_LIMIT - 1].detail, format!("{}", TELEMETRY_LIMIT + 4));
}

#[test]
fn transport_ready_and_misc_updates() {
    let mut store = PanelStateStore::new("T+0.000s");
    store.mark_transport_ready("http://192.168.71.1/", "T+0.5s");
    let s = store.snapshot();
    assert!(s.transport.connected);
    assert_eq!(s.transport.ssid, "robot-panel-s3");
    assert_eq!(s.sensors.display_message, "BAŞLATILIYOR: Wi-Fi kontrol paneli hazır");
    assert_eq!(
        s.telemetry.last().unwrap().detail,
        "SSID=robot-panel-s3 ağına bağlanıp http://192.168.71.1/ adresine gidin"
    );
    store.mark_heartbeat("T+5.0s");
    assert_eq!(store.snapshot().overview.heartbeat_count, 1);
    store.set_display_message("IDLE: pet=display record=motor", "T+5.1s");
    store.set_audio_placeholder_status(true, false, "T+5.2s");
    assert!(store.snapshot().sensors.audio_in_placeholder_ready);
    assert_eq!(store.snapshot().overview.updated_at, "T+5.2s");
}

#[test]
fn ensure_test_allowed_logs_reason() {
    let mut store = PanelStateStore::new("T+0.000s");
    assert!(!store.ensure_test_allowed(TestKind::AudioOut, "tests", "T+1.0s"));
    let last = store.snapshot().telemetry.last().unwrap();
    assert_eq!((last.component.as_str(), last.action.as_str()), ("tests", "blocked"));
    assert_eq!(report(&store, TestKind::AudioOut).0, TestExecutionState::Blocked);
    assert!(store.ensure_test_allowed(TestKind::Touch, "touch", "T+1.1s"));
}

#[test]
fn body_length_limit() {
    assert!(check_body_len(2048).is_ok());
    assert_eq!(
        check_body_len(2049).unwrap_err(),
        "request body too large: received 2049 bytes, limit is 2048"
    );
}
