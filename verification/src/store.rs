use vstd::prelude::*;
use std::collections::VecDeque;

use crate::model::{
    all_tests, clone_opt_string, opt_text, test_at, test_index, test_position, test_label, ControlAccess, ControlSource,
    InspectionStatus, ManualChecks, MotionCommand, MotorGpioState, MotorStatus, OverviewCard,
    PinConnectionStatus, PinStatus, PinVerificationMethod, RobotSnapshot, texts, SensorStatus, SystemAction, TelemetryEntry,
    TestExecutionState, TestKind, TestReport, TestStatus, TransportStatus, ManualChecksRequest,
    MotorActionRequest, RunTestRequest, SystemActionRequest, motion_command_label,
    system_action_label,
};
use crate::panel::{
    default_test_reports, NOT_RUN_DETAIL, CONTROL_PANEL_PASSWORD, CONTROL_PANEL_SSID, default_limitations, limitation_texts, manual_pin_view, motor_pin_view, pin_from_manual,
    pin_from_motor, pin_from_touch, touch_pin_view, two_labels, PinView, TELEMETRY_LIMIT,
};
use crate::pins::{board_pins, pin_map};
use crate::domain::{fault_text, FirmwareFault, RobotEmotion, RobotMode};
use crate::telemetry::{level_label, level_text, TelemetryLevel};
use crate::state::HarnessState;
use crate::text::{bool_str, bool_text};

verus! {

/// A command the panel's HTTP side queued for the orchestrator.
#[derive(Debug, Clone, Copy, PartialEq, Eq, Structural)]
pub enum PendingPanelCommand {
    RunInspection,
    RunTest(TestKind),
    Motion(MotionCommand, ControlSource),
    System(SystemAction),
}

pub const TEST_BLOCK_FAULT: &'static str = "Sistem fault durumunda; önce güvenli şekilde sıfırlayın.";

pub const TEST_BLOCK_SCAN: &'static str = "Ön kontrol taraması sürüyor; tamamlanmasını bekleyin.";

pub const TEST_BLOCK_RUNNING_PREFIX: &'static str = "Şu anda ";

pub const TEST_BLOCK_RUNNING_SUFFIX: &'static str = " çalışıyor; yeni test başlatılamaz.";

pub const DISPLAY_NEEDS_SCAN: &'static str = "Önce ön kontrol taraması çalıştırılmalı.";

pub const DISPLAY_NOT_FOUND: &'static str = "OLED ekran otomatik I2C probunda bulunamadı.";

pub const MOTOR_NEEDS_ACK: &'static str = "Motor sürücüsü kablolaması operatör tarafından onaylanmalı.";

pub const MIC_NEEDS_ACK: &'static str = "Mikrofon I2S kablolaması operatör tarafından onaylanmalı.";

pub const SPEAKER_NEEDS_ACK: &'static str = "Hoparlör/amfi I2S kablolaması operatör tarafından onaylanmalı.";

pub const FULL_NEEDS_SCAN: &'static str = "Tam test için önce ön kontrol taraması çalıştırılmalı.";

pub const FULL_NEEDS_DISPLAY: &'static str = "Tam test için OLED otomatik probu başarılı olmalı.";

pub const FULL_NEEDS_MOTOR: &'static str = "Tam test için motor sürücüsü kablolaması onaylanmalı.";

pub const FULL_NEEDS_MIC: &'static str = "Tam test için mikrofon kablolaması onaylanmalı.";

pub const FULL_NEEDS_SPEAKER: &'static str = "Tam test için hoparlör/amfi kablolaması onaylanmalı.";

pub const DRIVE_BLOCK_FAULT: &'static str = "Fault durumunda motor komutu gönderilemez.";

pub const DRIVE_BLOCK_SCAN: &'static str = "Ön kontrol sürerken manuel hareket komutu gönderilemez.";

pub const DRIVE_BLOCK_TEST: &'static str = "Test çalışırken manuel motor komutu gönderilemez.";

pub const DRIVE_BLOCK_WIRING: &'static str = "Motor sürücüsü kablolaması onaylanmadan hareket komutu kilitlidir.";

pub const INITIAL_TIMESTAMP: &'static str = "T+0.000s";

pub const PROBE_PENDING_DETAIL: &'static str = "OLED I2C doğrulaması henüz yapılmadı";

pub const NO_SCAN_YET: &'static str = "Henüz ön kontrol yapılmadı";

pub const BOOT_MESSAGE: &'static str = "BAŞLATILIYOR";

pub const TRANSPORT_BACKEND: &'static str = "esp32_softap_http";

pub const WIFI_READY_MESSAGE: &'static str = "BAŞLATILIYOR: Wi-Fi kontrol paneli hazır";

pub const SCAN_RUNNING_SUMMARY: &'static str = "Ön kontrol çalışıyor";

pub const SCAN_FAILED_PREFIX: &'static str = "Ön kontrol hatası: ";

/// H-bridge levels the panel reports for a digital command; an arcade
/// request reports the levels derived from its wheel outputs.
pub open spec fn reported_gpio(c: MotionCommand, arcade: MotorGpioState) -> MotorGpioState {
    match c {
        MotionCommand::Stop => MotorGpioState { in1: false, in2: false, in3: false, in4: false },
        MotionCommand::Forward => MotorGpioState { in1: true, in2: false, in3: true, in4: false },
        MotionCommand::Backward => MotorGpioState { in1: false, in2: true, in3: false, in4: true },
        MotionCommand::TurnLeft => MotorGpioState { in1: false, in2: true, in3: true, in4: false },
        MotionCommand::TurnRight => MotorGpioState { in1: true, in2: false, in3: false, in4: true },
        MotionCommand::ArcadeDrive => arcade,
    }
}

fn panel_gpio(c: MotionCommand, arcade: MotorGpioState) -> (gpio: MotorGpioState)
    ensures
        gpio == reported_gpio(c, arcade),
{
    match c {
        MotionCommand::Stop => MotorGpioState { in1: false, in2: false, in3: false, in4: false },
        MotionCommand::Forward => MotorGpioState { in1: true, in2: false, in3: true, in4: false },
        MotionCommand::Backward => MotorGpioState { in1: false, in2: true, in3: false, in4: true },
        MotionCommand::TurnLeft => MotorGpioState { in1: false, in2: true, in3: true, in4: false },
        MotionCommand::TurnRight => MotorGpioState { in1: true, in2: false, in3: false, in4: true },
        MotionCommand::ArcadeDrive => arcade,
    }
}

pub const SCAN_QUEUED_SUMMARY: &'static str = "Ön kontrol kuyruğa alındı";

pub const SCAN_BUSY_DETAIL: &'static str = "ön kontrol başlatılamadı; sistem meşgul";

pub const SCAN_QUEUED_DETAIL: &'static str = "otomatik ön kontrol kuyruğa alındı";

/// `motor=<b> mic=<b> speaker=<b>`.
pub open spec fn manual_checks_text(c: ManualChecks) -> Seq<char> {
    "motor="@ + bool_text(c.motor_driver_wired) + " mic="@ + bool_text(c.microphone_wired)
        + " speaker="@ + bool_text(c.speaker_wired)
}

/// Why `test` may not start now, if it may not.
pub open spec fn test_block(s: RobotSnapshot, probe: Option<bool>, test: TestKind) -> Option<
    Seq<char>,
> {
    let checks = s.inspection.manual_checks;
    if s.overview.harness_state == HarnessState::Fault {
        Some(TEST_BLOCK_FAULT@)
    } else if s.inspection.scan_in_progress {
        Some(TEST_BLOCK_SCAN@)
    } else if s.tests.running is Some {
        Some(TEST_BLOCK_RUNNING_PREFIX@ + test_label(s.tests.running->0) + TEST_BLOCK_RUNNING_SUFFIX@)
    } else {
        match test {
            TestKind::Touch => None,
            TestKind::Display => if !s.inspection.scan_completed {
                Some(DISPLAY_NEEDS_SCAN@)
            } else if probe != Some(true) {
                Some(DISPLAY_NOT_FOUND@)
            } else {
                None
            },
            TestKind::Motor => if !checks.motor_driver_wired {
                Some(MOTOR_NEEDS_ACK@)
            } else {
                None
            },
            TestKind::AudioIn => if !checks.microphone_wired {
                Some(MIC_NEEDS_ACK@)
            } else {
                None
            },
            TestKind::AudioOut => if !checks.speaker_wired {
                Some(SPEAKER_NEEDS_ACK@)
            } else {
                None
            },
            TestKind::FullHarness => if !s.inspection.scan_completed {
                Some(FULL_NEEDS_SCAN@)
            } else if probe != Some(true) {
                Some(FULL_NEEDS_DISPLAY@)
            } else if !checks.motor_driver_wired {
                Some(FULL_NEEDS_MOTOR@)
            } else if !checks.microphone_wired {
                Some(FULL_NEEDS_MIC@)
            } else if !checks.speaker_wired {
                Some(FULL_NEEDS_SPEAKER@)
            } else {
                None
            },
        }
    }
}

/// Why manual motion is locked now, if it is.
pub open spec fn drive_block(s: RobotSnapshot) -> Option<Seq<char>> {
    if s.overview.harness_state == HarnessState::Fault {
        Some(DRIVE_BLOCK_FAULT@)
    } else if s.inspection.scan_in_progress {
        Some(DRIVE_BLOCK_SCAN@)
    } else if s.tests.running is Some {
        Some(DRIVE_BLOCK_TEST@)
    } else if !s.inspection.manual_checks.motor_driver_wired {
        Some(DRIVE_BLOCK_WIRING@)
    } else {
        None
    }
}

/// One report per test, in panel order.
pub open spec fn reports_shaped(s: RobotSnapshot) -> bool {
    &&& s.tests.reports@.len() == 6
    &&& forall|i: int| 0 <= i < 6 ==> (#[trigger] s.tests.reports@[i]).test == all_tests()[i]
}

/// A report agrees with the gating rule for its test.
pub open spec fn report_ready(r: TestReport, reason: Option<Seq<char>>) -> bool {
    &&& r.run_allowed == (reason is None)
    &&& r.state != TestExecutionState::Running ==> opt_text(r.blocked_reason) == reason
}

/// The run flags and the motion lock the panel shows agree with the rules.
pub open spec fn readiness_holds(s: RobotSnapshot, probe: Option<bool>) -> bool {
    &&& forall|i: int|
        0 <= i < 6 ==> report_ready(
            #[trigger] s.tests.reports@[i],
            test_block(s, probe, all_tests()[i]),
        )
    &&& s.controls.motion_run_allowed == (drive_block(s) is None)
    &&& opt_text(s.controls.motion_blocked_reason) == drive_block(s)
}

/// The facts the gating rules read are the same in both snapshots.
pub open spec fn same_gates(a: RobotSnapshot, b: RobotSnapshot) -> bool {
    &&& a.overview.harness_state == b.overview.harness_state
    &&& a.inspection.scan_in_progress == b.inspection.scan_in_progress
    &&& a.inspection.scan_completed == b.inspection.scan_completed
    &&& a.inspection.manual_checks == b.inspection.manual_checks
    &&& a.tests.running == b.tests.running
}

/// Report `b` is report `a` refreshed against `reason` at time `now`.
pub open spec fn report_refreshed(
    a: TestReport,
    b: TestReport,
    reason: Option<Seq<char>>,
    now: Seq<char>,
) -> bool {
    &&& b.test == a.test
    &&& b.state == a.state
    &&& b.last_detail == a.last_detail
    &&& b.run_allowed == (reason is None)
    &&& opt_text(b.blocked_reason) == if a.state == TestExecutionState::Running {
        opt_text(a.blocked_reason)
    } else {
        reason
    }
    &&& b.last_updated@ == if a.last_updated@.len() == 0 {
        now
    } else {
        a.last_updated@
    }
}

/// Everything but the reports' run flags, reasons and stamps and the motion
/// lock is the same.
pub open spec fn same_but_readiness(a: RobotSnapshot, b: RobotSnapshot) -> bool {
    &&& a.overview == b.overview
    &&& a.motors == b.motors
    &&& a.sensors == b.sensors
    &&& a.inspection == b.inspection
    &&& a.transport == b.transport
    &&& a.telemetry == b.telemetry
    &&& a.tests.running == b.tests.running
    &&& a.tests.last_completed == b.tests.last_completed
}

/// The run flags, reasons and stamps of `b`'s reports and its motion lock
/// are those of `a` recomputed at time `now`.
pub open spec fn readiness_refreshed(
    a: RobotSnapshot,
    b: RobotSnapshot,
    probe: Option<bool>,
    now: Seq<char>,
) -> bool {
    &&& b.tests.reports@.len() == 6
    &&& forall|i: int|
        0 <= i < 6 ==> report_refreshed(
            #[trigger] a.tests.reports@[i],
            b.tests.reports@[i],
            test_block(a, probe, all_tests()[i]),
            now,
        )
    &&& b.controls.motion_run_allowed == (drive_block(a) is None)
    &&& opt_text(b.controls.motion_blocked_reason) == drive_block(a)
}

/// `b` is `a` after the readiness of every test and of motion was recomputed
/// at time `now`.
pub open spec fn recomputed(
    a: RobotSnapshot,
    b: RobotSnapshot,
    probe: Option<bool>,
    now: Seq<char>,
) -> bool {
    &&& same_but_readiness(a, b)
    &&& readiness_refreshed(a, b, probe, now)
}

/// Report `b` keeps the test, state and detail of `a`; a report without a
/// time gets `now`.
pub open spec fn report_kept(a: TestReport, b: TestReport, now: Seq<char>) -> bool {
    &&& b.test == a.test
    &&& b.state == a.state
    &&& b.last_detail == a.last_detail
    &&& b.last_updated@ == if a.last_updated@.len() == 0 {
        now
    } else {
        a.last_updated@
    }
}

/// Every report but the one of `skip` (if any) is kept.
pub open spec fn reports_kept(
    a: RobotSnapshot,
    b: RobotSnapshot,
    skip: Option<TestKind>,
    now: Seq<char>,
) -> bool {
    forall|i: int|
        0 <= i < 6 && skip != Some(all_tests()[i]) ==> report_kept(
            a.tests.reports@[i],
            #[trigger] b.tests.reports@[i],
            now,
        )
}

/// `b` is overview `a` with the time of the last update set to `now`.
pub open spec fn stamped(a: OverviewCard, b: OverviewCard, now: Seq<char>) -> bool {
    &&& b == (OverviewCard { updated_at: b.updated_at, ..a })
    &&& b.updated_at@ == now
}

/// Abstract value of a telemetry entry.
pub struct EntryView {
    pub timestamp: Seq<char>,
    pub level: Seq<char>,
    pub component: Seq<char>,
    pub action: Seq<char>,
    pub detail: Seq<char>,
}

impl View for TelemetryEntry {
    type V = EntryView;

    open spec fn view(&self) -> EntryView {
        EntryView {
            timestamp: self.timestamp@,
            level: self.level@,
            component: self.component@,
            action: self.action@,
            detail: self.detail@,
        }
    }
}

pub open spec fn entry_views(v: Seq<TelemetryEntry>) -> Seq<EntryView> {
    v.map_values(|e: TelemetryEntry| e@)
}

/// A bounded log after appending `e`: the oldest entry makes room when the
/// log is full.
pub open spec fn ring_push<T>(log: Seq<T>, e: T, limit: nat) -> Seq<T> {
    if log.len() >= limit {
        log.drop_first().push(e)
    } else {
        log.push(e)
    }
}

/// The entry logged at `now`.
pub open spec fn entry_at(
    now: Seq<char>,
    level: Seq<char>,
    component: Seq<char>,
    action: Seq<char>,
    detail: Seq<char>,
) -> EntryView {
    EntryView { timestamp: now, level, component, action, detail }
}

/// `b` is `a` with one more log entry `e` and its time stamped `now`.
pub open spec fn logged(a: RobotSnapshot, b: RobotSnapshot, e: EntryView, now: Seq<char>) -> bool {
    &&& stamped(a.overview, b.overview, now)
    &&& b.controls == a.controls
    &&& b.motors == a.motors
    &&& b.sensors == a.sensors
    &&& b.inspection == a.inspection
    &&& b.tests == a.tests
    &&& b.transport == a.transport
    &&& entry_views(b.telemetry@) == ring_push(entry_views(a.telemetry@), e, TELEMETRY_LIMIT as nat)
}

/// Connection state of the OLED pins after a probe result.
pub open spec fn display_pin_status(probe: Option<bool>) -> PinConnectionStatus {
    match probe {
        Some(true) => PinConnectionStatus::Present,
        Some(false) => PinConnectionStatus::Absent,
        None => PinConnectionStatus::Unknown,
    }
}

/// Connection state of pins only the operator can confirm.
pub open spec fn manual_pin_status(confirmed: bool) -> PinConnectionStatus {
    if confirmed {
        PinConnectionStatus::ManualConfirmed
    } else {
        PinConnectionStatus::ManualRequired
    }
}

/// Row of an OLED bus pin.
pub open spec fn oled_pin_view(
    key: Seq<char>,
    label: Seq<char>,
    gpio: u8,
    role: Seq<char>,
    status: PinConnectionStatus,
    detail: Seq<char>,
) -> PinView {
    PinView {
        key,
        label,
        gpio,
        role,
        direction: "bus"@,
        signal: "I2C"@,
        connection_status: status,
        verification_method: PinVerificationMethod::AutomaticProbe,
        detail,
        required_by: seq![test_label(TestKind::Display), test_label(TestKind::FullHarness)],
    }
}

/// The inspection page's pin table for snapshot `s` and the last probe.
pub open spec fn inspection_pins(s: RobotSnapshot, probe: Option<bool>, probe_detail: Seq<char>) -> Seq<
    PinView,
> {
    let m = board_pins();
    let display = display_pin_status(probe);
    let checks = s.inspection.manual_checks;
    let motor = manual_pin_status(checks.motor_driver_wired);
    let mic = manual_pin_status(checks.microphone_wired);
    let speaker = manual_pin_status(checks.speaker_wired);
    let gpio = s.motors.gpio;
    seq![
        oled_pin_view("oled_scl"@, "OLED SCL"@, m.oled_scl, "I2C saat hattı"@, display, probe_detail),
        oled_pin_view("oled_sda"@, "OLED SDA"@, m.oled_sda, "I2C veri hattı"@, display, probe_detail),
        touch_pin_view("pet_touch"@, "Pet Dokunma Sensörü"@, m.pet_touch, s.sensors.pet_touch, s.sensors.pet_touch_seen),
        touch_pin_view("record_touch"@, "Kayıt Dokunma Sensörü"@, m.record_touch, s.sensors.record_touch, s.sensors.record_touch_seen),
        motor_pin_view("motor_in1"@, "Motor IN1"@, m.motor_in1, gpio.in1, motor),
        motor_pin_view("motor_in2"@, "Motor IN2"@, m.motor_in2, gpio.in2, motor),
        motor_pin_view("motor_in3"@, "Motor IN3"@, m.motor_in3, gpio.in3, motor),
        motor_pin_view("motor_in4"@, "Motor IN4"@, m.motor_in4, gpio.in4, motor),
        manual_pin_view("mic_sck"@, "Mikrofon SCK"@, m.mic_sck, "I2S bit clock"@, mic, TestKind::AudioIn),
        manual_pin_view("mic_ws"@, "Mikrofon WS"@, m.mic_ws, "I2S word select"@, mic, TestKind::AudioIn),
        manual_pin_view("mic_sd"@, "Mikrofon SD"@, m.mic_sd, "I2S veri girişi"@, mic, TestKind::AudioIn),
        manual_pin_view("speaker_lrc"@, "Hoparlör LRC"@, m.speaker_lrc, "I2S left/right clock"@, speaker, TestKind::AudioOut),
        manual_pin_view("speaker_bclk"@, "Hoparlör BCLK"@, m.speaker_bclk, "I2S bit clock"@, speaker, TestKind::AudioOut),
        manual_pin_view("speaker_din"@, "Hoparlör DIN"@, m.speaker_din, "I2S veri çıkışı"@, speaker, TestKind::AudioOut),
    ]
}

pub open spec fn pin_views(v: Seq<PinStatus>) -> Seq<PinView> {
    v.map_values(|p: PinStatus| p@)
}

/// The power-on self-test passes when the scan is done, the OLED answered
/// and the operator confirmed every wire.
pub open spec fn post_passes(s: RobotSnapshot, probe: Option<bool>) -> bool {
    &&& s.inspection.scan_completed
    &&& probe == Some(true)
    &&& s.inspection.manual_checks.motor_driver_wired
    &&& s.inspection.manual_checks.microphone_wired
    &&& s.inspection.manual_checks.speaker_wired
}

/// `b` is `a` after the inspection page was rebuilt and readiness recomputed
/// at time `now`.
pub open spec fn rebuilt(
    a: RobotSnapshot,
    b: RobotSnapshot,
    probe: Option<bool>,
    probe_detail: Seq<char>,
    now: Seq<char>,
) -> bool {
    &&& stamped(a.overview, b.overview, now)
    &&& b.motors == a.motors
    &&& inspection_rebuilt(a, b, probe, probe_detail)
    &&& b.transport == a.transport
    &&& b.telemetry == a.telemetry
    &&& b.tests.running == a.tests.running
    &&& b.tests.last_completed == a.tests.last_completed
    &&& reports_kept(a, b, None, now)
}

/// The sensors and inspection page of `b` are those of `a` rebuilt after the
/// probe result `probe`.
pub open spec fn inspection_rebuilt(
    a: RobotSnapshot,
    b: RobotSnapshot,
    probe: Option<bool>,
    probe_detail: Seq<char>,
) -> bool {
    &&& b.sensors == (SensorStatus { display_ready: probe == Some(true), ..a.sensors })
    &&& b.inspection.scan_completed == a.inspection.scan_completed
    &&& b.inspection.scan_in_progress == a.inspection.scan_in_progress
    &&& b.inspection.last_scan_at == a.inspection.last_scan_at
    &&& b.inspection.last_scan_summary == a.inspection.last_scan_summary
    &&& b.inspection.manual_checks == a.inspection.manual_checks
    &&& b.inspection.post_passed == post_passes(a, probe)
    &&& texts(b.inspection.limitations@) == limitation_texts()
    &&& pin_views(b.inspection.pins@) == inspection_pins(a, probe, probe_detail)
}

/// The gates and the readiness fields are the same, so readiness carries
/// over.
pub proof fn lemma_readiness_carries(a: RobotSnapshot, b: RobotSnapshot, probe: Option<bool>)
    requires
        readiness_holds(a, probe),
        same_gates(a, b),
        b.tests.reports == a.tests.reports,
        b.controls == a.controls,
    ensures
        readiness_holds(b, probe),
{
    assert forall|i: int| 0 <= i < 6 implies report_ready(
        #[trigger] b.tests.reports@[i],
        test_block(b, probe, all_tests()[i]),
    ) by {
        assert(report_ready(a.tests.reports@[i], test_block(a, probe, all_tests()[i])));
    }
}

/// The inspection page's pin table.
#[verifier::rlimit(50)]
fn inspection_pin_table(snapshot: &RobotSnapshot, probe: Option<bool>, probe_detail: &String) -> (pins:
    Vec<PinStatus>)
    ensures
        pin_views(pins@) == inspection_pins(*snapshot, probe, probe_detail@),
{
    let display_status = match probe {
        Some(true) => PinConnectionStatus::Present,
        Some(false) => PinConnectionStatus::Absent,
        None => PinConnectionStatus::Unknown,
    };
    let checks = snapshot.inspection.manual_checks;
    let motor_status = if checks.motor_driver_wired {
        PinConnectionStatus::ManualConfirmed
    } else {
        PinConnectionStatus::ManualRequired
    };
    let mic_status = if checks.microphone_wired {
        PinConnectionStatus::ManualConfirmed
    } else {
        PinConnectionStatus::ManualRequired
    };
    let speaker_status = if checks.speaker_wired {
        PinConnectionStatus::ManualConfirmed
    } else {
        PinConnectionStatus::ManualRequired
    };
    let m = pin_map();
    let gpio = snapshot.motors.gpio;
    let sensors = &snapshot.sensors;
    let mut pins: Vec<PinStatus> = Vec::new();
    pins.push(
        PinStatus {
            key: String::from_str("oled_scl"),
            label: String::from_str("OLED SCL"),
            gpio: m.oled_scl,
            role: String::from_str("I2C saat hattı"),
            direction: String::from_str("bus"),
            signal: String::from_str("I2C"),
            connection_status: display_status,
            verification_method: PinVerificationMethod::AutomaticProbe,
            detail: probe_detail.clone(),
            required_by: two_labels(TestKind::Display, TestKind::FullHarness),
        },
    );
    pins.push(
        PinStatus {
            key: String::from_str("oled_sda"),
            label: String::from_str("OLED SDA"),
            gpio: m.oled_sda,
            role: String::from_str("I2C veri hattı"),
            direction: String::from_str("bus"),
            signal: String::from_str("I2C"),
            connection_status: display_status,
            verification_method: PinVerificationMethod::AutomaticProbe,
            detail: probe_detail.clone(),
            required_by: two_labels(TestKind::Display, TestKind::FullHarness),
        },
    );
    pins.push(
        pin_from_touch(
            "pet_touch",
            "Pet Dokunma Sensörü",
            m.pet_touch,
            sensors.pet_touch,
            sensors.pet_touch_seen,
        ),
    );
    pins.push(
        pin_from_touch(
            "record_touch",
            "Kayıt Dokunma Sensörü",
            m.record_touch,
            sensors.record_touch,
            sensors.record_touch_seen,
        ),
    );
    pins.push(pin_from_motor("motor_in1", "Motor IN1", m.motor_in1, gpio.in1, motor_status));
    pins.push(pin_from_motor("motor_in2", "Motor IN2", m.motor_in2, gpio.in2, motor_status));
    pins.push(pin_from_motor("motor_in3", "Motor IN3", m.motor_in3, gpio.in3, motor_status));
    pins.push(pin_from_motor("motor_in4", "Motor IN4", m.motor_in4, gpio.in4, motor_status));
    pins.push(
        pin_from_manual(
            "mic_sck",
            "Mikrofon SCK",
            m.mic_sck,
            "I2S bit clock",
            mic_status,
            TestKind::AudioIn,
        ),
    );
    pins.push(
        pin_from_manual(
            "mic_ws",
            "Mikrofon WS",
            m.mic_ws,
            "I2S word select",
            mic_status,
            TestKind::AudioIn,
        ),
    );
    pins.push(
        pin_from_manual(
            "mic_sd",
            "Mikrofon SD",
            m.mic_sd,
            "I2S veri girişi",
            mic_status,
            TestKind::AudioIn,
        ),
    );
    pins.push(
        pin_from_manual(
            "speaker_lrc",
            "Hoparlör LRC",
            m.speaker_lrc,
            "I2S left/right clock",
            speaker_status,
            TestKind::AudioOut,
        ),
    );
    pins.push(
        pin_from_manual(
            "speaker_bclk",
            "Hoparlör BCLK",
            m.speaker_bclk,
            "I2S bit clock",
            speaker_status,
            TestKind::AudioOut,
        ),
    );
    pins.push(
        pin_from_manual(
            "speaker_din",
            "Hoparlör DIN",
            m.speaker_din,
            "I2S veri çıkışı",
            speaker_status,
            TestKind::AudioOut,
        ),
    );
    assert(pin_views(pins@) =~= inspection_pins(*snapshot, probe, probe_detail@));
    pins
}

/// The report of `test` in `b` was rewritten with `state`, `detail` and
/// time `now`; every other report is kept; the rest of the snapshot but the
/// motion lock and `running`/`last_completed` is unchanged.
pub open spec fn report_written(
    a: RobotSnapshot,
    b: RobotSnapshot,
    test: TestKind,
    state: TestExecutionState,
    detail: Seq<char>,
    now: Seq<char>,
) -> bool {
    let r = b.tests.reports@[test_index(test)];
    &&& r.state == state
    &&& r.last_detail@ == detail
    &&& r.last_updated@ == now
    &&& reports_kept(a, b, Some(test), now)
    &&& stamped(a.overview, b.overview, now)
    &&& b.motors == a.motors
    &&& b.sensors == a.sensors
    &&& b.inspection == a.inspection
    &&& b.transport == a.transport
}

/// The panel's state: the snapshot it serves, the commands queued for the
/// orchestrator (oldest first) and the result of the last OLED probe.
pub struct PanelStateStore {
    snapshot: RobotSnapshot,
    pending: VecDeque<PendingPanelCommand>,
    display_probe_present: Option<bool>,
    display_probe_detail: String,
}

impl PanelStateStore {
    pub closed spec fn snap(&self) -> RobotSnapshot {
        self.snapshot
    }

    pub closed spec fn queue(&self) -> Seq<PendingPanelCommand> {
        self.pending@
    }

    pub closed spec fn probe(&self) -> Option<bool> {
        self.display_probe_present
    }

    pub closed spec fn probe_detail(&self) -> Seq<char> {
        self.display_probe_detail@
    }

    /// One report per test, a bounded log, and run flags that agree with the
    /// gating rules.
    pub open spec fn wf(&self) -> bool {
        &&& reports_shaped(self.snap())
        &&& self.snap().telemetry@.len() <= TELEMETRY_LIMIT
        &&& readiness_holds(self.snap(), self.probe())
    }

    /// The snapshot the panel serves.
    pub fn snapshot(&self) -> (s: &RobotSnapshot)
        ensures
            *s == self.snap(),
    {
        &self.snapshot
    }

    /// Why `test` may not start now (`None` when it may).
    pub fn test_block_reason(&self, test: TestKind) -> (reason: Option<String>)
        ensures
            opt_text(reason) == test_block(self.snap(), self.probe(), test),
    {
        let s = &self.snapshot;
        let checks = s.inspection.manual_checks;
        if s.overview.harness_state == HarnessState::Fault {
            return Some(String::from_str(TEST_BLOCK_FAULT));
        }
        if s.inspection.scan_in_progress {
            return Some(String::from_str(TEST_BLOCK_SCAN));
        }
        if let Some(running) = s.tests.running {
            let mut text = String::from_str(TEST_BLOCK_RUNNING_PREFIX);
            text.append(running.label_tr());
            text.append(TEST_BLOCK_RUNNING_SUFFIX);
            return Some(text);
        }
        let probe_ok = match self.display_probe_present {
            Some(p) => p,
            None => false,
        };
        match test {
            TestKind::Touch => None,
            TestKind::Display => {
                if !s.inspection.scan_completed {
                    Some(String::from_str(DISPLAY_NEEDS_SCAN))
                } else if !probe_ok {
                    Some(String::from_str(DISPLAY_NOT_FOUND))
                } else {
                    None
                }
            },
            TestKind::Motor => {
                if !checks.motor_driver_wired {
                    Some(String::from_str(MOTOR_NEEDS_ACK))
                } else {
                    None
                }
            },
            TestKind::AudioIn => {
                if !checks.microphone_wired {
                    Some(String::from_str(MIC_NEEDS_ACK))
                } else {
                    None
                }
            },
            TestKind::AudioOut => {
                if !checks.speaker_wired {
                    Some(String::from_str(SPEAKER_NEEDS_ACK))
                } else {
                    None
                }
            },
            TestKind::FullHarness => {
                if !s.inspection.scan_completed {
                    Some(String::from_str(FULL_NEEDS_SCAN))
                } else if !probe_ok {
                    Some(String::from_str(FULL_NEEDS_DISPLAY))
                } else if !checks.motor_driver_wired {
                    Some(String::from_str(FULL_NEEDS_MOTOR))
                } else if !checks.microphone_wired {
                    Some(String::from_str(FULL_NEEDS_MIC))
                } else if !checks.speaker_wired {
                    Some(String::from_str(FULL_NEEDS_SPEAKER))
                } else {
                    None
                }
            },
        }
    }

    /// Why manual motion is locked now (`None` when it is allowed).
    pub fn motion_block_reason(&self) -> (reason: Option<String>)
        ensures
            opt_text(reason) == drive_block(self.snap()),
    {
        let s = &self.snapshot;
        if s.overview.harness_state == HarnessState::Fault {
            Some(String::from_str(DRIVE_BLOCK_FAULT))
        } else if s.inspection.scan_in_progress {
            Some(String::from_str(DRIVE_BLOCK_SCAN))
        } else if s.tests.running.is_some() {
            Some(String::from_str(DRIVE_BLOCK_TEST))
        } else if !s.inspection.manual_checks.motor_driver_wired {
            Some(String::from_str(DRIVE_BLOCK_WIRING))
        } else {
            None
        }
    }



    /// The panel right after power-on, before Wi-Fi is up; `now` is the time
    /// of the first rebuild of the inspection page.
    pub fn new(now: &str) -> (store: Self)
        ensures
            store.wf(),
            store.queue() == Seq::<PendingPanelCommand>::empty(),
            store.probe() is None,
            store.probe_detail() == PROBE_PENDING_DETAIL@,
            ({
                let s = store.snap();
                &&& s.overview.harness_state == HarnessState::Boot
                &&& s.overview.robot_mode == RobotMode::Booting
                &&& s.overview.emotion == RobotEmotion::Focused
                &&& s.overview.heartbeat_count == 0
                &&& s.overview.fault is None
                &&& s.overview.updated_at@ == now@
                &&& s.motors == (MotorStatus {
                    command: MotionCommand::Stop,
                    source: ControlSource::Safety,
                    gpio: MotorGpioState { in1: false, in2: false, in3: false, in4: false },
                })
                &&& !s.sensors.pet_touch && !s.sensors.record_touch
                &&& !s.sensors.pet_touch_seen && !s.sensors.record_touch_seen
                &&& !s.sensors.display_ready
                &&& s.sensors.display_message@ == BOOT_MESSAGE@
                &&& !s.sensors.audio_in_placeholder_ready && !s.sensors.audio_out_placeholder_ready
                &&& !s.inspection.scan_completed && !s.inspection.scan_in_progress
                &&& !s.inspection.post_passed
                &&& s.inspection.last_scan_at@ == INITIAL_TIMESTAMP@
                &&& s.inspection.last_scan_summary@ == NO_SCAN_YET@
                &&& s.inspection.manual_checks == (ManualChecks {
                    motor_driver_wired: false,
                    microphone_wired: false,
                    speaker_wired: false,
                })
                &&& texts(s.inspection.limitations@) == limitation_texts()
                &&& pin_views(s.inspection.pins@) == inspection_pins(s, None, PROBE_PENDING_DETAIL@)
                &&& s.tests.running is None && s.tests.last_completed is None
                &&& forall|i: int|
                    0 <= i < 6 ==> {
                        let r = #[trigger] s.tests.reports@[i];
                        &&& r.state == TestExecutionState::Idle
                        &&& r.last_detail@ == NOT_RUN_DETAIL@
                        &&& r.last_updated@ == INITIAL_TIMESTAMP@
                    }
                &&& s.transport.backend@ == TRANSPORT_BACKEND@
                &&& s.transport.target@ == "starting"@
                &&& !s.transport.connected
                &&& s.transport.ssid@ == CONTROL_PANEL_SSID@
                &&& s.transport.password_hint@ == CONTROL_PANEL_PASSWORD@
                &&& s.telemetry@.len() == 0
            }),
    {
        let mut store = PanelStateStore {
            snapshot: RobotSnapshot {
                overview: OverviewCard {
                    harness_state: HarnessState::Boot,
                    robot_mode: RobotMode::Booting,
                    emotion: RobotEmotion::Focused,
                    heartbeat_count: 0,
                    fault: None,
                    updated_at: String::from_str(INITIAL_TIMESTAMP),
                },
                controls: ControlAccess {
                    motion_run_allowed: false,
                    motion_blocked_reason: Some(
                        String::from_str("Motor sürücüsü kablolaması henüz doğrulanmadı."),
                    ),
                },
                motors: MotorStatus {
                    command: MotionCommand::Stop,
                    source: ControlSource::Safety,
                    gpio: MotorGpioState { in1: false, in2: false, in3: false, in4: false },
                },
                sensors: SensorStatus {
                    pet_touch: false,
                    record_touch: false,
                    pet_touch_seen: false,
                    record_touch_seen: false,
                    display_ready: false,
                    display_message: String::from_str(BOOT_MESSAGE),
                    audio_in_placeholder_ready: false,
                    audio_out_placeholder_ready: false,
                },
                inspection: InspectionStatus {
                    scan_completed: false,
                    scan_in_progress: false,
                    post_passed: false,
                    last_scan_at: String::from_str(INITIAL_TIMESTAMP),
                    last_scan_summary: String::from_str(NO_SCAN_YET),
                    manual_checks: ManualChecks {
                        motor_driver_wired: false,
                        microphone_wired: false,
                        speaker_wired: false,
                    },
                    limitations: default_limitations(),
                    pins: Vec::new(),
                },
                tests: TestStatus {
                    running: None,
                    last_completed: None,
                    reports: default_test_reports(INITIAL_TIMESTAMP),
                },
                transport: TransportStatus {
                    backend: String::from_str(TRANSPORT_BACKEND),
                    target: String::from_str("starting"),
                    connected: false,
                    ssid: String::from_str(CONTROL_PANEL_SSID),
                    password_hint: String::from_str(CONTROL_PANEL_PASSWORD),
                },
                telemetry: Vec::new(),
            },
            pending: VecDeque::new(),
            display_probe_present: None,
            display_probe_detail: String::from_str(PROBE_PENDING_DETAIL),
        };
        let ghost pre = store.snapshot;
        store.rebuild_inspection(now);
        proof {
            assert(INITIAL_TIMESTAMP@.len() == 8) by {
                reveal_strlit("T+0.000s");
            }
            assert forall|i: int| 0 <= i < 6 implies {
                let r = #[trigger] store.snapshot.tests.reports@[i];
                &&& r.state == TestExecutionState::Idle
                &&& r.last_detail@ == NOT_RUN_DETAIL@
                &&& r.last_updated@ == INITIAL_TIMESTAMP@
            } by {
                assert(report_kept(pre.tests.reports@[i], store.snapshot.tests.reports@[i], now@));
            }
        }
        store
    }


    /// Logs an event from the orchestrator.
    pub fn push_log(
        &mut self,
        level: TelemetryLevel,
        component: &str,
        action: &str,
        detail: &str,
        now: &str,
    )
        requires
            old(self).wf(),
        ensures
            final(self).wf(),
            logged(
                old(self).snap(),
                final(self).snap(),
                entry_at(now@, level_text(level), component@, action@, detail@),
                now@,
            ),
            final(self).probe() == old(self).probe(),
            final(self).probe_detail() == old(self).probe_detail(),
            final(self).queue() == old(self).queue(),
    {
        self.log(level_label(level), component, action, detail, now);
        proof {
            lemma_readiness_carries(old(self).snap(), self.snapshot, self.display_probe_present);
        }
    }

    /// The SoftAP is up and serves the panel at `target`.
    pub fn mark_transport_ready(&mut self, target: &str, now: &str)
        requires
            old(self).wf(),
        ensures
            final(self).wf(),
            ({
                let (a, b) = (old(self).snap(), final(self).snap());
                &&& stamped(a.overview, b.overview, now@)
                &&& b.controls == a.controls
                &&& b.motors == a.motors
                &&& b.inspection == a.inspection
                &&& b.tests == a.tests
                &&& b.sensors == (SensorStatus { display_message: b.sensors.display_message, ..a.sensors })
                &&& b.sensors.display_message@ == WIFI_READY_MESSAGE@
                &&& b.transport.backend@ == TRANSPORT_BACKEND@
                &&& b.transport.target@ == target@
                &&& b.transport.connected
                &&& b.transport.ssid@ == CONTROL_PANEL_SSID@
                &&& b.transport.password_hint@ == CONTROL_PANEL_PASSWORD@
                &&& entry_views(b.telemetry@) == ring_push(
                    entry_views(a.telemetry@),
                    entry_at(
                        now@,
                        "info"@,
                        "panel"@,
                        "wifi_ready"@,
                        "SSID="@ + CONTROL_PANEL_SSID@ + " ağına bağlanıp "@ + target@ + " adresine gidin"@,
                    ),
                    TELEMETRY_LIMIT as nat,
                )
            }),
            final(self).probe() == old(self).probe(),
            final(self).probe_detail() == old(self).probe_detail(),
            final(self).queue() == old(self).queue(),
    {
        self.snapshot.transport = TransportStatus {
            backend: String::from_str(TRANSPORT_BACKEND),
            target: String::from_str(target),
            connected: true,
            ssid: String::from_str(CONTROL_PANEL_SSID),
            password_hint: String::from_str(CONTROL_PANEL_PASSWORD),
        };
        self.snapshot.sensors.display_message = String::from_str(WIFI_READY_MESSAGE);
        let mut detail = String::from_str("SSID=");
        detail.append(CONTROL_PANEL_SSID);
        detail.append(" ağına bağlanıp ");
        detail.append(target);
        detail.append(" adresine gidin");
        let ghost mid = self.snapshot;
        self.log("info", "panel", "wifi_ready", detail.as_str(), now);
        proof {
            lemma_readiness_carries(old(self).snap(), mid, self.display_probe_present);
            lemma_readiness_carries(mid, self.snapshot, self.display_probe_present);
        }
    }

    /// Shows `fault` (or clears it); a fault puts the overview into the fault
    /// state.
    pub fn set_fault(&mut self, fault: Option<&FirmwareFault>, now: &str)
        requires
            old(self).wf(),
        ensures
            final(self).wf(),
            ({
                let (a, b) = (old(self).snap(), final(self).snap());
                &&& opt_text(b.overview.fault) == match fault {
                    Some(f) => Some(fault_text(f@)),
                    None => None,
                }
                &&& match fault {
                    Some(_) => {
                        &&& b.overview.harness_state == HarnessState::Fault
                        &&& b.overview.robot_mode == RobotMode::Faulted
                        &&& b.overview.emotion == RobotEmotion::Alert
                    },
                    None => {
                        &&& b.overview.harness_state == a.overview.harness_state
                        &&& b.overview.robot_mode == a.overview.robot_mode
                        &&& b.overview.emotion == a.overview.emotion
                    },
                }
                &&& b.overview.heartbeat_count == a.overview.heartbeat_count
                &&& b.overview.updated_at@ == now@
                &&& b.motors == a.motors
                &&& b.sensors == a.sensors
                &&& b.inspection == a.inspection
                &&& b.transport == a.transport
                &&& b.telemetry == a.telemetry
                &&& b.tests.running == a.tests.running
                &&& b.tests.last_completed == a.tests.last_completed
                &&& reports_kept(a, b, None, now@)
            }),
            final(self).probe() == old(self).probe(),
            final(self).probe_detail() == old(self).probe_detail(),
            final(self).queue() == old(self).queue(),
    {
        match fault {
            Some(f) => {
                self.snapshot.overview.fault = Some(f.to_string());
                self.snapshot.overview.harness_state = HarnessState::Fault;
                self.snapshot.overview.robot_mode = RobotMode::Faulted;
                self.snapshot.overview.emotion = RobotEmotion::Alert;
            },
            None => {
                self.snapshot.overview.fault = None;
            },
        }
        self.recompute_test_readiness(now);
        self.refresh_updated_at(now);
    }

    /// Mirrors the orchestrator's state; leaving the fault state clears the
    /// shown fault.
    pub fn sync_state(&mut self, state: HarnessState, mode: RobotMode, emotion: RobotEmotion, now: &str)
        requires
            old(self).wf(),
        ensures
            final(self).wf(),
            ({
                let (a, b) = (old(self).snap(), final(self).snap());
                &&& b.overview.harness_state == state
                &&& b.overview.robot_mode == mode
                &&& b.overview.emotion == emotion
                &&& b.overview.fault == if state == HarnessState::Fault {
                    a.overview.fault
                } else {
                    None
                }
                &&& b.overview.heartbeat_count == a.overview.heartbeat_count
                &&& b.overview.updated_at@ == now@
                &&& b.motors == a.motors
                &&& b.sensors == a.sensors
                &&& b.inspection == a.inspection
                &&& b.transport == a.transport
                &&& b.telemetry == a.telemetry
                &&& b.tests.running == a.tests.running
                &&& b.tests.last_completed == a.tests.last_completed
                &&& reports_kept(a, b, None, now@)
            }),
            final(self).probe() == old(self).probe(),
            final(self).probe_detail() == old(self).probe_detail(),
            final(self).queue() == old(self).queue(),
    {
        self.snapshot.overview.harness_state = state;
        self.snapshot.overview.robot_mode = mode;
        self.snapshot.overview.emotion = emotion;
        if state != HarnessState::Fault {
            self.snapshot.overview.fault = None;
        }
        self.recompute_test_readiness(now);
        self.refresh_updated_at(now);
    }

    /// Counts one more heartbeat.
    pub fn mark_heartbeat(&mut self, now: &str)
        requires
            old(self).wf(),
            old(self).snap().overview.heartbeat_count < u64::MAX,
        ensures
            final(self).wf(),
            final(self).snap().overview.heartbeat_count == old(self).snap().overview.heartbeat_count + 1,
            final(self).snap().overview.updated_at@ == now@,
            final(self).snap() == (RobotSnapshot {
                overview: OverviewCard {
                    heartbeat_count: final(self).snap().overview.heartbeat_count,
                    updated_at: final(self).snap().overview.updated_at,
                    ..old(self).snap().overview
                },
                ..old(self).snap()
            }),
            final(self).probe() == old(self).probe(),
            final(self).probe_detail() == old(self).probe_detail(),
            final(self).queue() == old(self).queue(),
    {
        self.snapshot.overview.heartbeat_count = self.snapshot.overview.heartbeat_count + 1;
        self.refresh_updated_at(now);
        proof {
            lemma_readiness_carries(old(self).snap(), self.snapshot, self.display_probe_present);
        }
    }

    /// New touch levels; a level once high stays "seen" for the session.
    pub fn update_touch_inputs(&mut self, pet: bool, record: bool, now: &str)
        requires
            old(self).wf(),
        ensures
            final(self).wf(),
            rebuilt(
                RobotSnapshot {
                    sensors: SensorStatus {
                        pet_touch: pet,
                        record_touch: record,
                        pet_touch_seen: old(self).snap().sensors.pet_touch_seen || pet,
                        record_touch_seen: old(self).snap().sensors.record_touch_seen || record,
                        ..old(self).snap().sensors
                    },
                    ..old(self).snap()
                },
                final(self).snap(),
                old(self).probe(),
                old(self).probe_detail(),
                now@,
            ),
            final(self).snap().inspection.scan_in_progress == old(self).snap().inspection.scan_in_progress,
            final(self).probe() == old(self).probe(),
            final(self).probe_detail() == old(self).probe_detail(),
            final(self).queue() == old(self).queue(),
    {
        self.snapshot.sensors.pet_touch = pet;
        self.snapshot.sensors.record_touch = record;
        self.snapshot.sensors.pet_touch_seen = self.snapshot.sensors.pet_touch_seen || pet;
        self.snapshot.sensors.record_touch_seen = self.snapshot.sensors.record_touch_seen || record;
        self.rebuild_inspection(now);
    }

    /// Text the OLED currently shows.
    pub fn set_display_message(&mut self, message: &str, now: &str)
        requires
            old(self).wf(),
        ensures
            final(self).wf(),
            stamped(old(self).snap().overview, final(self).snap().overview, now@),
            final(self).snap().sensors == (SensorStatus {
                display_message: final(self).snap().sensors.display_message,
                ..old(self).snap().sensors
            }),
            final(self).snap().sensors.display_message@ == message@,
            final(self).snap() == (RobotSnapshot {
                overview: final(self).snap().overview,
                sensors: final(self).snap().sensors,
                ..old(self).snap()
            }),
            final(self).probe() == old(self).probe(),
            final(self).probe_detail() == old(self).probe_detail(),
            final(self).queue() == old(self).queue(),
    {
        self.snapshot.sensors.display_message = String::from_str(message);
        self.refresh_updated_at(now);
        proof {
            lemma_readiness_carries(old(self).snap(), self.snapshot, self.display_probe_present);
        }
    }

    /// Readiness of the audio placeholders.
    pub fn set_audio_placeholder_status(&mut self, audio_in_ready: bool, audio_out_ready: bool, now: &str)
        requires
            old(self).wf(),
        ensures
            final(self).wf(),
            stamped(old(self).snap().overview, final(self).snap().overview, now@),
            final(self).snap().sensors == (SensorStatus {
                audio_in_placeholder_ready: audio_in_ready,
                audio_out_placeholder_ready: audio_out_ready,
                ..old(self).snap().sensors
            }),
            final(self).snap() == (RobotSnapshot {
                overview: final(self).snap().overview,
                sensors: final(self).snap().sensors,
                ..old(self).snap()
            }),
            final(self).probe() == old(self).probe(),
            final(self).probe_detail() == old(self).probe_detail(),
            final(self).queue() == old(self).queue(),
    {
        self.snapshot.sensors.audio_in_placeholder_ready = audio_in_ready;
        self.snapshot.sensors.audio_out_placeholder_ready = audio_out_ready;
        self.refresh_updated_at(now);
        proof {
            lemma_readiness_carries(old(self).snap(), self.snapshot, self.display_probe_present);
        }
    }


    /// Records the motion command just applied (for an arcade request,
    /// `arcade_gpio` are the levels derived from its wheel outputs) and logs
    /// `detail`.
    pub fn update_motion(
        &mut self,
        command: MotionCommand,
        source: ControlSource,
        arcade_gpio: MotorGpioState,
        detail: &str,
        now: &str,
    )
        requires
            old(self).wf(),
        ensures
            final(self).wf(),
            ({
                let a = old(self).snap();
                let moved = RobotSnapshot {
                    motors: MotorStatus { command, source, gpio: reported_gpio(command, arcade_gpio) },
                    ..a
                };
                let b = final(self).snap();
                &&& b.motors == moved.motors
                &&& stamped(a.overview, b.overview, now@)
                &&& inspection_rebuilt(moved, b, old(self).probe(), old(self).probe_detail())
                &&& b.transport == a.transport
                &&& b.tests.running == a.tests.running
                &&& b.tests.last_completed == a.tests.last_completed
                &&& reports_kept(a, b, None, now@)
                &&& entry_views(b.telemetry@) == ring_push(
                    entry_views(a.telemetry@),
                    entry_at(now@, "info"@, "motor"@, "panel_state_sync"@, detail@),
                    TELEMETRY_LIMIT as nat,
                )
            }),
            final(self).probe() == old(self).probe(),
            final(self).probe_detail() == old(self).probe_detail(),
            final(self).queue() == old(self).queue(),
    {
        self.snapshot.motors = MotorStatus { command, source, gpio: panel_gpio(command, arcade_gpio) };
        self.rebuild_inspection(now);
        let ghost mid = self.snapshot;
        self.log("info", "motor", "panel_state_sync", detail, now);
        proof {
            lemma_readiness_carries(mid, self.snapshot, self.display_probe_present);
        }
    }

    /// The panel starts an inspection scan.
    pub fn begin_inspection_scan(&mut self, now: &str)
        requires
            old(self).wf(),
        ensures
            final(self).wf(),
            ({
                let (a, b) = (old(self).snap(), final(self).snap());
                &&& b.inspection.scan_in_progress
                &&& !b.inspection.scan_completed
                &&& !b.inspection.post_passed
                &&& b.inspection.last_scan_at@ == now@
                &&& b.inspection.last_scan_summary@ == SCAN_RUNNING_SUMMARY@
                &&& b.inspection.manual_checks == a.inspection.manual_checks
                &&& b.inspection.limitations == a.inspection.limitations
                &&& b.inspection.pins == a.inspection.pins
                &&& stamped(a.overview, b.overview, now@)
                &&& b.motors == a.motors
                &&& b.sensors == a.sensors
                &&& b.transport == a.transport
                &&& b.telemetry == a.telemetry
                &&& b.tests.running == a.tests.running
                &&& b.tests.last_completed == a.tests.last_completed
                &&& reports_kept(a, b, None, now@)
            }),
            final(self).probe() == old(self).probe(),
            final(self).probe_detail() == old(self).probe_detail(),
            final(self).queue() == old(self).queue(),
    {
        self.snapshot.inspection.scan_in_progress = true;
        self.snapshot.inspection.scan_completed = false;
        self.snapshot.inspection.post_passed = false;
        self.snapshot.inspection.last_scan_at = String::from_str(now);
        self.snapshot.inspection.last_scan_summary = String::from_str(SCAN_RUNNING_SUMMARY);
        self.recompute_test_readiness(now);
        self.refresh_updated_at(now);
    }

    /// The scan finished: the OLED did or did not answer its probe.
    pub fn complete_inspection_scan(
        &mut self,
        display_present: bool,
        display_detail: &str,
        summary: &str,
        now: &str,
    )
        requires
            old(self).wf(),
        ensures
            final(self).wf(),
            final(self).probe() == Some(display_present),
            final(self).probe_detail() == display_detail@,
            final(self).queue() == old(self).queue(),
            ({
                let a = old(self).snap();
                let b = final(self).snap();
                &&& !b.inspection.scan_in_progress
                &&& b.inspection.scan_completed
                &&& b.inspection.last_scan_at@ == now@
                &&& b.inspection.last_scan_summary@ == summary@
                &&& b.sensors.display_ready == display_present
                &&& b.inspection.manual_checks == a.inspection.manual_checks
                &&& b.inspection.post_passed == post_passes(b, Some(display_present))
                &&& texts(b.inspection.limitations@) == limitation_texts()
                &&& pin_views(b.inspection.pins@) == inspection_pins(
                    b,
                    Some(display_present),
                    display_detail@,
                )
                &&& stamped(a.overview, b.overview, now@)
                &&& b.motors == a.motors
                &&& b.sensors == (SensorStatus { display_ready: display_present, ..a.sensors })
                &&& b.transport == a.transport
                &&& b.telemetry == a.telemetry
                &&& b.tests.running == a.tests.running
                &&& b.tests.last_completed == a.tests.last_completed
                &&& reports_kept(a, b, None, now@)
            }),
    {
        self.display_probe_present = Some(display_present);
        self.display_probe_detail = String::from_str(display_detail);
        self.snapshot.sensors.display_ready = display_present;
        self.snapshot.inspection.scan_in_progress = false;
        self.snapshot.inspection.scan_completed = true;
        self.snapshot.inspection.last_scan_at = String::from_str(now);
        self.snapshot.inspection.last_scan_summary = String::from_str(summary);
        self.rebuild_inspection(now);
    }

    /// The scan could not finish; the OLED's state is unknown.
    pub fn fail_inspection_scan(&mut self, detail: &str, now: &str)
        requires
            old(self).wf(),
        ensures
            final(self).wf(),
            final(self).probe() is None,
            final(self).probe_detail() == detail@,
            final(self).queue() == old(self).queue(),
            ({
                let a = old(self).snap();
                let b = final(self).snap();
                &&& !b.inspection.scan_in_progress
                &&& b.inspection.scan_completed
                &&& !b.inspection.post_passed
                &&& b.inspection.last_scan_at@ == now@
                &&& b.inspection.last_scan_summary@ == SCAN_FAILED_PREFIX@ + detail@
                &&& !b.sensors.display_ready
                &&& b.inspection.manual_checks == a.inspection.manual_checks
                &&& pin_views(b.inspection.pins@) == inspection_pins(b, None, detail@)
                &&& texts(b.inspection.limitations@) == limitation_texts()
                &&& stamped(a.overview, b.overview, now@)
                &&& b.motors == a.motors
                &&& b.sensors == (SensorStatus { display_ready: false, ..a.sensors })
                &&& b.transport == a.transport
                &&& b.telemetry == a.telemetry
                &&& b.tests.running == a.tests.running
                &&& b.tests.last_completed == a.tests.last_completed
                &&& reports_kept(a, b, None, now@)
            }),
    {
        self.display_probe_present = None;
        self.display_probe_detail = String::from_str(detail);
        self.snapshot.sensors.display_ready = false;
        self.snapshot.inspection.scan_in_progress = false;
        self.snapshot.inspection.scan_completed = true;
        self.snapshot.inspection.last_scan_at = String::from_str(now);
        let mut summary = String::from_str(SCAN_FAILED_PREFIX);
        summary.append(detail);
        self.snapshot.inspection.last_scan_summary = summary;
        self.rebuild_inspection(now);
    }


    /// Rewrites the report of `test`.
    fn write_report(
        &mut self,
        test: TestKind,
        state: TestExecutionState,
        blocked: Option<String>,
        detail: &str,
        now: &str,
    )
        requires
            reports_shaped(old(self).snap()),
        ensures
            reports_shaped(final(self).snap()),
            ({
                let (a, b) = (old(self).snap(), final(self).snap());
                let r = b.tests.reports@[test_index(test)];
                &&& r.state == state
                &&& opt_text(r.blocked_reason) == opt_text(blocked)
                &&& r.last_detail@ == detail@
                &&& r.last_updated@ == now@
                &&& forall|j: int|
                    0 <= j < 6 && j != test_index(test) ==> #[trigger] b.tests.reports@[j]
                        == a.tests.reports@[j]
                &&& b == (RobotSnapshot {
                    tests: TestStatus { reports: b.tests.reports, ..a.tests },
                    ..a
                })
            }),
            final(self).probe() == old(self).probe(),
            final(self).probe_detail() == old(self).probe_detail(),
            final(self).queue() == old(self).queue(),
    {
        let i = test_position(test);
        let mut report = TestReport {
            test,
            state: TestExecutionState::Idle,
            run_allowed: false,
            blocked_reason: None,
            last_detail: String::new(),
            last_updated: String::new(),
        };
        self.snapshot.tests.reports.set_and_swap(i, &mut report);
        report.state = state;
        report.blocked_reason = blocked;
        report.last_detail = String::from_str(detail);
        report.last_updated = String::from_str(now);
        self.snapshot.tests.reports.set(i, report);
    }

    /// `test` starts running.
    pub fn mark_test_running(&mut self, test: TestKind, detail: &str, now: &str)
        requires
            old(self).wf(),
        ensures
            final(self).wf(),
            final(self).probe() == old(self).probe(),
            final(self).probe_detail() == old(self).probe_detail(),
            final(self).queue() == old(self).queue(),
            final(self).snap().telemetry == old(self).snap().telemetry,
            report_written(
                old(self).snap(),
                final(self).snap(),
                test,
                TestExecutionState::Running,
                detail@,
                now@,
            ),
            final(self).snap().tests.reports@[test_index(test)].blocked_reason is None,
            !final(self).snap().tests.reports@[test_index(test)].run_allowed,
            final(self).snap().tests.running == Some(test),
            final(self).snap().tests.last_completed == old(self).snap().tests.last_completed,
    {
        self.snapshot.tests.running = Some(test);
        self.write_report(test, TestExecutionState::Running, None, detail, now);
        let ghost mid = self.snapshot;
        self.recompute_test_readiness(now);
        self.refresh_updated_at(now);
        proof {
            assert(now@.len() == 0 ==> now@ == Seq::<char>::empty());
            assert(report_refreshed(
                mid.tests.reports@[test_index(test)],
                self.snapshot.tests.reports@[test_index(test)],
                test_block(mid, self.display_probe_present, all_tests()[test_index(test)]),
                now@,
            ));
            assert forall|i: int| 0 <= i < 6 && Some(test) != Some(all_tests()[i]) implies report_kept(
                old(self).snap().tests.reports@[i],
                #[trigger] self.snapshot.tests.reports@[i],
                now@,
            ) by {
                assert(report_refreshed(
                    mid.tests.reports@[i],
                    self.snapshot.tests.reports@[i],
                    test_block(mid, self.display_probe_present, all_tests()[i]),
                    now@,
                ));
            }
        }
    }

    fn set_test_finished(&mut self, test: TestKind, state: TestExecutionState, detail: &str, now: &str)
        requires
            old(self).wf(),
            state != TestExecutionState::Running,
        ensures
            final(self).wf(),
            final(self).probe() == old(self).probe(),
            final(self).probe_detail() == old(self).probe_detail(),
            final(self).queue() == old(self).queue(),
            final(self).snap().telemetry == old(self).snap().telemetry,
            report_written(old(self).snap(), final(self).snap(), test, state, detail@, now@),
            final(self).snap().tests.running is None,
            final(self).snap().tests.last_completed == Some(test),
    {
        self.snapshot.tests.running = None;
        self.snapshot.tests.last_completed = Some(test);
        self.write_report(test, state, None, detail, now);
        let ghost mid = self.snapshot;
        self.recompute_test_readiness(now);
        self.refresh_updated_at(now);
        proof {
            assert(report_refreshed(
                mid.tests.reports@[test_index(test)],
                self.snapshot.tests.reports@[test_index(test)],
                test_block(mid, self.display_probe_present, all_tests()[test_index(test)]),
                now@,
            ));
            assert forall|i: int| 0 <= i < 6 && Some(test) != Some(all_tests()[i]) implies report_kept(
                old(self).snap().tests.reports@[i],
                #[trigger] self.snapshot.tests.reports@[i],
                now@,
            ) by {
                assert(report_refreshed(
                    mid.tests.reports@[i],
                    self.snapshot.tests.reports@[i],
                    test_block(mid, self.display_probe_present, all_tests()[i]),
                    now@,
                ));
            }
        }
    }

    /// `test` finished and passed.
    pub fn mark_test_passed(&mut self, test: TestKind, detail: &str, now: &str)
        requires
            old(self).wf(),
        ensures
            final(self).wf(),
            final(self).probe() == old(self).probe(),
            final(self).probe_detail() == old(self).probe_detail(),
            final(self).queue() == old(self).queue(),
            final(self).snap().telemetry == old(self).snap().telemetry,
            report_written(
                old(self).snap(),
                final(self).snap(),
                test,
                TestExecutionState::Passed,
                detail@,
                now@,
            ),
            final(self).snap().tests.running is None,
            final(self).snap().tests.last_completed == Some(test),
    {
        self.set_test_finished(test, TestExecutionState::Passed, detail, now);
    }

    /// `test` finished and failed.
    pub fn mark_test_failed(&mut self, test: TestKind, detail: &str, now: &str)
        requires
            old(self).wf(),
        ensures
            final(self).wf(),
            final(self).probe() == old(self).probe(),
            final(self).probe_detail() == old(self).probe_detail(),
            final(self).queue() == old(self).queue(),
            final(self).snap().telemetry == old(self).snap().telemetry,
            report_written(
                old(self).snap(),
                final(self).snap(),
                test,
                TestExecutionState::Failed,
                detail@,
                now@,
            ),
            final(self).snap().tests.running is None,
            final(self).snap().tests.last_completed == Some(test),
    {
        self.set_test_finished(test, TestExecutionState::Failed, detail, now);
    }

    /// `test` was refused for the reason `detail`.
    pub fn mark_test_blocked(&mut self, test: TestKind, detail: &str, now: &str)
        requires
            old(self).wf(),
        ensures
            final(self).wf(),
            final(self).probe() == old(self).probe(),
            final(self).probe_detail() == old(self).probe_detail(),
            final(self).queue() == old(self).queue(),
            final(self).snap().telemetry == old(self).snap().telemetry,
            report_written(
                old(self).snap(),
                final(self).snap(),
                test,
                TestExecutionState::Blocked,
                detail@,
                now@,
            ),
            final(self).snap().tests.running == old(self).snap().tests.running,
            final(self).snap().tests.last_completed == old(self).snap().tests.last_completed,
    {
        self.write_report(
            test,
            TestExecutionState::Blocked,
            Some(String::from_str(detail)),
            detail,
            now,
        );
        let ghost mid = self.snapshot;
        self.recompute_test_readiness(now);
        self.refresh_updated_at(now);
        proof {
            assert(report_refreshed(
                mid.tests.reports@[test_index(test)],
                self.snapshot.tests.reports@[test_index(test)],
                test_block(mid, self.display_probe_present, all_tests()[test_index(test)]),
                now@,
            ));
            assert forall|i: int| 0 <= i < 6 && Some(test) != Some(all_tests()[i]) implies report_kept(
                old(self).snap().tests.reports@[i],
                #[trigger] self.snapshot.tests.reports@[i],
                now@,
            ) by {
                assert(report_refreshed(
                    mid.tests.reports@[i],
                    self.snapshot.tests.reports@[i],
                    test_block(mid, self.display_probe_present, all_tests()[i]),
                    now@,
                ));
            }
        }
    }


    /// The orchestrator's check before a test: a blocked test is marked
    /// blocked with the reason, which is logged as a warning of `component`.
    /// Returns whether the test may run.
    pub fn ensure_test_allowed(&mut self, test: TestKind, component: &str, now: &str) -> (allowed: bool)
        requires
            old(self).wf(),
        ensures
            final(self).wf(),
            final(self).probe() == old(self).probe(),
            final(self).probe_detail() == old(self).probe_detail(),
            final(self).queue() == old(self).queue(),
            allowed == (test_block(old(self).snap(), old(self).probe(), test) is None),
            allowed ==> final(self).snap() == old(self).snap(),
            !allowed ==> ({
                let (a, b) = (old(self).snap(), final(self).snap());
                let reason = test_block(a, old(self).probe(), test)->0;
                &&& report_written(a, b, test, TestExecutionState::Blocked, reason, now@)
                &&& b.tests.running == a.tests.running
                &&& b.tests.last_completed == a.tests.last_completed
                &&& entry_views(b.telemetry@) == ring_push(
                    entry_views(a.telemetry@),
                    entry_at(now@, "warn"@, component@, "blocked"@, reason),
                    TELEMETRY_LIMIT as nat,
                )
            }),
    {
        match self.test_block_reason(test) {
            Some(reason) => {
                self.mark_test_blocked(test, reason.as_str(), now);
                self.push_log(TelemetryLevel::Warn, component, "blocked", reason.as_str(), now);
                false
            },
            None => true,
        }
    }

    /// Takes the oldest queued command, if any.
    pub fn take_pending_command(&mut self) -> (command: Option<PendingPanelCommand>)
        requires
            old(self).wf(),
        ensures
            final(self).wf(),
            final(self).snap() == old(self).snap(),
            final(self).probe() == old(self).probe(),
            final(self).probe_detail() == old(self).probe_detail(),
            old(self).queue().len() == 0 ==> command is None && final(self).queue() == old(self).queue(),
            old(self).queue().len() > 0 ==> command == Some(old(self).queue()[0])
                && final(self).queue() == old(self).queue().drop_first(),
            (final(self).queue(), command) == queue_step(old(self).queue(), QueueCall::Take),
    {
        let command = self.pending.pop_front();
        proof {
            if old(self).queue().len() > 0 {
                assert(self.pending@ =~= old(self).queue().drop_first());
            }
        }
        command
    }


    /// The operator asked for an inspection scan; it is queued unless a test
    /// or another scan is running.
    pub fn request_inspection_scan(&mut self, now: &str) -> (queued: bool)
        requires
            old(self).wf(),
        ensures
            final(self).wf(),
            final(self).probe() == old(self).probe(),
            final(self).probe_detail() == old(self).probe_detail(),
            queued == !(old(self).snap().tests.running is Some
                || old(self).snap().inspection.scan_in_progress),
            !queued ==> final(self).queue() == old(self).queue() && logged(
                old(self).snap(),
                final(self).snap(),
                entry_at(now@, "warn"@, "inspection"@, "scan_rejected"@, SCAN_BUSY_DETAIL@),
                now@,
            ),
            queued ==> ({
                let (a, b) = (old(self).snap(), final(self).snap());
                &&& final(self).queue() == old(self).queue().push(PendingPanelCommand::RunInspection)
                &&& b.inspection.scan_in_progress
                &&& !b.inspection.scan_completed
                &&& !b.inspection.post_passed
                &&& b.inspection.last_scan_at@ == now@
                &&& b.inspection.last_scan_summary@ == SCAN_QUEUED_SUMMARY@
                &&& b.inspection.manual_checks == a.inspection.manual_checks
                &&& b.inspection.limitations == a.inspection.limitations
                &&& b.inspection.pins == a.inspection.pins
                &&& stamped(a.overview, b.overview, now@)
                &&& b.motors == a.motors
                &&& b.sensors == a.sensors
                &&& b.transport == a.transport
                &&& b.tests.running == a.tests.running
                &&& b.tests.last_completed == a.tests.last_completed
                &&& reports_kept(a, b, None, now@)
                &&& entry_views(b.telemetry@) == ring_push(
                    entry_views(a.telemetry@),
                    entry_at(now@, "info"@, "inspection"@, "scan_queued"@, SCAN_QUEUED_DETAIL@),
                    TELEMETRY_LIMIT as nat,
                )
            }),
    {
        if self.snapshot.tests.running.is_some() || self.snapshot.inspection.scan_in_progress {
            self.log("warn", "inspection", "scan_rejected", SCAN_BUSY_DETAIL, now);
            proof {
                lemma_readiness_carries(old(self).snap(), self.snapshot, self.display_probe_present);
            }
            false
        } else {
            self.snapshot.inspection.scan_in_progress = true;
            self.snapshot.inspection.scan_completed = false;
            self.snapshot.inspection.post_passed = false;
            self.snapshot.inspection.last_scan_at = String::from_str(now);
            self.snapshot.inspection.last_scan_summary = String::from_str(SCAN_QUEUED_SUMMARY);
            self.pending.push_back(PendingPanelCommand::RunInspection);
            self.log("info", "inspection", "scan_queued", SCAN_QUEUED_DETAIL, now);
            self.recompute_test_readiness(now);
            true
        }
    }

    /// The operator confirmed (or withdrew) the wiring checks.
    pub fn update_manual_checks(&mut self, request: ManualChecksRequest, now: &str)
        requires
            old(self).wf(),
        ensures
            final(self).wf(),
            final(self).probe() == old(self).probe(),
            final(self).probe_detail() == old(self).probe_detail(),
            final(self).queue() == old(self).queue(),
            ({
                let a = old(self).snap();
                let checks = ManualChecks {
                    motor_driver_wired: request.motor_driver_wired,
                    microphone_wired: request.microphone_wired,
                    speaker_wired: request.speaker_wired,
                };
                let confirmed = RobotSnapshot {
                    inspection: InspectionStatus { manual_checks: checks, ..a.inspection },
                    ..a
                };
                let b = final(self).snap();
                &&& b.inspection.manual_checks == checks
                &&& inspection_rebuilt(confirmed, b, old(self).probe(), old(self).probe_detail())
                &&& stamped(a.overview, b.overview, now@)
                &&& b.motors == a.motors
                &&& b.transport == a.transport
                &&& b.tests.running == a.tests.running
                &&& b.tests.last_completed == a.tests.last_completed
                &&& reports_kept(a, b, None, now@)
                &&& entry_views(b.telemetry@) == ring_push(
                    entry_views(a.telemetry@),
                    entry_at(now@, "info"@, "inspection"@, "manual_checks_updated"@, manual_checks_text(checks)),
                    TELEMETRY_LIMIT as nat,
                )
            }),
    {
        let checks = ManualChecks {
            motor_driver_wired: request.motor_driver_wired,
            microphone_wired: request.microphone_wired,
            speaker_wired: request.speaker_wired,
        };
        self.snapshot.inspection.manual_checks = checks;
        let mut detail = String::from_str("motor=");
        detail.append(bool_str(checks.motor_driver_wired));
        detail.append(" mic=");
        detail.append(bool_str(checks.microphone_wired));
        detail.append(" speaker=");
        detail.append(bool_str(checks.speaker_wired));
        self.log("info", "inspection", "manual_checks_updated", detail.as_str(), now);
        self.rebuild_inspection(now);
    }

    /// The operator asked to run a test: it is queued when the rules allow
    /// it, and marked blocked with the reason otherwise.
    pub fn request_test(&mut self, request: RunTestRequest, now: &str) -> (queued: bool)
        requires
            old(self).wf(),
        ensures
            final(self).wf(),
            final(self).probe() == old(self).probe(),
            final(self).probe_detail() == old(self).probe_detail(),
            queued == (test_block(old(self).snap(), old(self).probe(), request.test) is None),
            queued ==> final(self).queue() == old(self).queue().push(
                PendingPanelCommand::RunTest(request.test),
            ) && logged(
                old(self).snap(),
                final(self).snap(),
                entry_at(now@, "info"@, "tests"@, "queued"@, test_label(request.test) + " kuyruğa alındı"@),
                now@,
            ),
            !queued ==> ({
                let (a, b) = (old(self).snap(), final(self).snap());
                let reason = test_block(a, old(self).probe(), request.test)->0;
                &&& final(self).queue() == old(self).queue()
                &&& report_written(a, b, request.test, TestExecutionState::Blocked, reason, now@)
                &&& b.tests.running == a.tests.running
                &&& b.tests.last_completed == a.tests.last_completed
                &&& entry_views(b.telemetry@) == ring_push(
                    entry_views(a.telemetry@),
                    entry_at(
                        now@,
                        "warn"@,
                        "tests"@,
                        "blocked"@,
                        test_label(request.test) + " başlatılamadı: "@ + reason,
                    ),
                    TELEMETRY_LIMIT as nat,
                )
            }),
    {
        let test = request.test;
        match self.test_block_reason(test) {
            Some(reason) => {
                self.mark_test_blocked(test, reason.as_str(), now);
                let mut detail = String::from_str(test.label_tr());
                detail.append(" başlatılamadı: ");
                detail.append(reason.as_str());
                let ghost mid = self.snapshot;
                self.log("warn", "tests", "blocked", detail.as_str(), now);
                proof {
                    lemma_readiness_carries(mid, self.snapshot, self.display_probe_present);
                }
                false
            },
            None => {
                self.pending.push_back(PendingPanelCommand::RunTest(test));
                let mut detail = String::from_str(test.label_tr());
                detail.append(" kuyruğa alındı");
                self.log("info", "tests", "queued", detail.as_str(), now);
                proof {
                    lemma_readiness_carries(old(self).snap(), self.snapshot, self.display_probe_present);
                }
                true
            },
        }
    }

    /// A motion button on the panel: stop always goes through, other
    /// commands only while motion is unlocked.
    pub fn request_motor_action(&mut self, request: MotorActionRequest, now: &str) -> (queued: bool)
        requires
            old(self).wf(),
        ensures
            final(self).wf(),
            final(self).probe() == old(self).probe(),
            final(self).probe_detail() == old(self).probe_detail(),
            queued == (request.action == MotionCommand::Stop || drive_block(old(self).snap()) is None),
            queued ==> final(self).queue() == old(self).queue().push(
                PendingPanelCommand::Motion(request.action, ControlSource::PanelButton),
            ) && logged(
                old(self).snap(),
                final(self).snap(),
                entry_at(
                    now@,
                    "info"@,
                    "motor"@,
                    "command_queued"@,
                    motion_command_label(request.action) + " komutu kuyruğa alındı"@,
                ),
                now@,
            ),
            !queued ==> final(self).queue() == old(self).queue() && logged(
                old(self).snap(),
                final(self).snap(),
                entry_at(
                    now@,
                    "warn"@,
                    "motor"@,
                    "command_blocked"@,
                    motion_command_label(request.action) + " komutu reddedildi: "@ + drive_block(
                        old(self).snap(),
                    )->0,
                ),
                now@,
            ),
    {
        let action = request.action;
        let block = self.motion_block_reason();
        let can_move = action == MotionCommand::Stop || block.is_none();
        if !can_move {
            let reason = match block {
                Some(r) => r,
                None => String::from_str("hareket komutu kilitli"),
            };
            let mut detail = String::from_str(action.label_tr());
            detail.append(" komutu reddedildi: ");
            detail.append(reason.as_str());
            self.log("warn", "motor", "command_blocked", detail.as_str(), now);
        } else {
            self.pending.push_back(PendingPanelCommand::Motion(action, ControlSource::PanelButton));
            let mut detail = String::from_str(action.label_tr());
            detail.append(" komutu kuyruğa alındı");
            self.log("info", "motor", "command_queued", detail.as_str(), now);
        }
        proof {
            lemma_readiness_carries(old(self).snap(), self.snapshot, self.display_probe_present);
        }
        can_move
    }

    /// An arcade slider request that maps to `effective`; `drive_text` is
    /// its `throttle=<t> turn=<t>` part. Accepted when it stops or motion is
    /// unlocked.
    pub fn request_arcade_drive(&mut self, effective: MotionCommand, drive_text: &str, now: &str) -> (accepted:
        bool)
        requires
            old(self).wf(),
        ensures
            final(self).wf(),
            final(self).probe() == old(self).probe(),
            final(self).probe_detail() == old(self).probe_detail(),
            final(self).queue() == old(self).queue(),
            accepted == (effective == MotionCommand::Stop || drive_block(old(self).snap()) is None),
            accepted ==> logged(
                old(self).snap(),
                final(self).snap(),
                entry_at(
                    now@,
                    "info"@,
                    "motor"@,
                    "arcade_queued"@,
                    "Arcade sürüş kuyruğa alındı "@ + drive_text@,
                ),
                now@,
            ),
            !accepted ==> logged(
                old(self).snap(),
                final(self).snap(),
                entry_at(
                    now@,
                    "warn"@,
                    "motor"@,
                    "arcade_blocked"@,
                    "Arcade sürüş reddedildi: "@ + drive_block(old(self).snap())->0,
                ),
                now@,
            ),
    {
        let block = self.motion_block_reason();
        let can_move = effective == MotionCommand::Stop || block.is_none();
        if !can_move {
            let reason = match block {
                Some(r) => r,
                None => String::from_str("arcade sürüş kilitli"),
            };
            let mut detail = String::from_str("Arcade sürüş reddedildi: ");
            detail.append(reason.as_str());
            self.log("warn", "motor", "arcade_blocked", detail.as_str(), now);
        } else {
            let mut detail = String::from_str("Arcade sürüş kuyruğa alındı ");
            detail.append(drive_text);
            self.log("info", "motor", "arcade_queued", detail.as_str(), now);
        }
        proof {
            lemma_readiness_carries(old(self).snap(), self.snapshot, self.display_probe_present);
        }
        can_move
    }

    /// A gamepad update arrived; `drive` is the command its sticks map to
    /// when the gamepad is connected with driving enabled. Returns whether
    /// that drive request is accepted.
    pub fn apply_gamepad_update(&mut self, drive: Option<MotionCommand>, now: &str) -> (accepted: bool)
        requires
            old(self).wf(),
        ensures
            final(self).wf(),
            final(self).probe() == old(self).probe(),
            final(self).probe_detail() == old(self).probe_detail(),
            final(self).queue() == old(self).queue(),
            accepted == match drive {
                Some(e) => e == MotionCommand::Stop || drive_block(old(self).snap()) is None,
                None => false,
            },
            (drive is None || accepted) ==> final(self).snap() == (RobotSnapshot {
                overview: final(self).snap().overview,
                ..old(self).snap()
            }) && stamped(old(self).snap().overview, final(self).snap().overview, now@),
            (drive is Some && !accepted) ==> logged(
                old(self).snap(),
                final(self).snap(),
                entry_at(
                    now@,
                    "warn"@,
                    "gamepad"@,
                    "drive_blocked"@,
                    "Gamepad sürüş isteği reddedildi: "@ + drive_block(old(self).snap())->0,
                ),
                now@,
            ),
    {
        let mut accepted = false;
        if let Some(effective) = drive {
            let block = self.motion_block_reason();
            let can_move = effective == MotionCommand::Stop || block.is_none();
            if can_move {
                accepted = true;
            } else {
                let reason = match block {
                    Some(r) => r,
                    None => String::from_str("gamepad sürüşü kilitli"),
                };
                let mut detail = String::from_str("Gamepad sürüş isteği reddedildi: ");
                detail.append(reason.as_str());
                self.log("warn", "gamepad", "drive_blocked", detail.as_str(), now);
            }
        }
        self.refresh_updated_at(now);
        proof {
            lemma_readiness_carries(old(self).snap(), self.snapshot, self.display_probe_present);
        }
        accepted
    }

    /// A system action from the panel is always queued.
    pub fn request_system_action(&mut self, request: SystemActionRequest, now: &str)
        requires
            old(self).wf(),
        ensures
            final(self).wf(),
            final(self).probe() == old(self).probe(),
            final(self).probe_detail() == old(self).probe_detail(),
            final(self).queue() == old(self).queue().push(PendingPanelCommand::System(request.action)),
            logged(
                old(self).snap(),
                final(self).snap(),
                entry_at(
                    now@,
                    "warn"@,
                    "system"@,
                    "command_queued"@,
                    "sistem komutu kuyruğa alındı: "@ + system_action_label(request.action),
                ),
                now@,
            ),
    {
        self.pending.push_back(PendingPanelCommand::System(request.action));
        let mut detail = String::from_str("sistem komutu kuyruğa alındı: ");
        detail.append(request.action.label_tr());
        self.log("warn", "system", "command_queued", detail.as_str(), now);
        proof {
            lemma_readiness_carries(old(self).snap(), self.snapshot, self.display_probe_present);
        }
    }

    /// Sets the time of the last update.
    fn refresh_updated_at(&mut self, now: &str)
        ensures
            stamped(old(self).snap().overview, final(self).snap().overview, now@),
            final(self).snap() == (RobotSnapshot {
                overview: final(self).snap().overview,
                ..old(self).snap()
            }),
            final(self).probe() == old(self).probe(),
            final(self).probe_detail() == old(self).probe_detail(),
            final(self).queue() == old(self).queue(),
    {
        self.snapshot.overview.updated_at = String::from_str(now);
    }

    /// Appends an entry to the bounded log.
    fn log(&mut self, level: &str, component: &str, action: &str, detail: &str, now: &str)
        requires
            old(self).snap().telemetry@.len() <= TELEMETRY_LIMIT,
        ensures
            logged(
                old(self).snap(),
                final(self).snap(),
                entry_at(now@, level@, component@, action@, detail@),
                now@,
            ),
            final(self).snap().telemetry@.len() <= TELEMETRY_LIMIT,
            final(self).probe() == old(self).probe(),
            final(self).probe_detail() == old(self).probe_detail(),
            final(self).queue() == old(self).queue(),
    {
        let entry = TelemetryEntry {
            timestamp: String::from_str(now),
            level: String::from_str(level),
            component: String::from_str(component),
            action: String::from_str(action),
            detail: String::from_str(detail),
        };
        let ghost before = self.snapshot.telemetry@;
        if self.snapshot.telemetry.len() == TELEMETRY_LIMIT {
            self.snapshot.telemetry.remove(0);
        }
        self.snapshot.telemetry.push(entry);
        proof {
            let e = entry_at(now@, level@, component@, action@, detail@);
            if before.len() >= TELEMETRY_LIMIT {
                assert(self.snapshot.telemetry@ =~= before.drop_first().push(entry));
            } else {
                assert(self.snapshot.telemetry@ =~= before.push(entry));
            }
            assert(entry_views(self.snapshot.telemetry@) =~= ring_push(
                entry_views(before),
                e,
                TELEMETRY_LIMIT as nat,
            ));
        }
        self.refresh_updated_at(now);
    }

    /// Rebuilds the inspection page (pin table, limitations, self-test
    /// verdict, OLED readiness) and recomputes readiness.
    fn rebuild_inspection(&mut self, now: &str)
        requires
            reports_shaped(old(self).snap()),
        ensures
            rebuilt(old(self).snap(), final(self).snap(), old(self).probe(), old(self).probe_detail(), now@),
            reports_shaped(final(self).snap()),
            readiness_holds(final(self).snap(), final(self).probe()),
            final(self).probe() == old(self).probe(),
            final(self).probe_detail() == old(self).probe_detail(),
            final(self).queue() == old(self).queue(),
    {
        let ghost old_snap = self.snapshot;
        let probe_ok = match self.display_probe_present {
            Some(p) => p,
            None => false,
        };
        let checks = self.snapshot.inspection.manual_checks;
        let pins = inspection_pin_table(
            &self.snapshot,
            self.display_probe_present,
            &self.display_probe_detail,
        );
        self.snapshot.sensors.display_ready = probe_ok;
        self.snapshot.inspection.post_passed = self.snapshot.inspection.scan_completed && probe_ok
            && checks.motor_driver_wired && checks.microphone_wired && checks.speaker_wired;
        self.snapshot.inspection.limitations = default_limitations();
        self.snapshot.inspection.pins = pins;
        self.recompute_test_readiness(now);
        self.refresh_updated_at(now);
    }

    /// Recomputes every test's run flag and blocking reason and the motion
    /// lock; stamps reports that carry no time yet.
    fn recompute_test_readiness(&mut self, now: &str)
        requires
            reports_shaped(old(self).snap()),
        ensures
            recomputed(old(self).snap(), final(self).snap(), old(self).probe(), now@),
            reports_kept(old(self).snap(), final(self).snap(), None, now@),
            reports_shaped(final(self).snap()),
            readiness_holds(final(self).snap(), final(self).probe()),
            final(self).probe() == old(self).probe(),
            final(self).probe_detail() == old(self).probe_detail(),
            final(self).queue() == old(self).queue(),
    {
        let ghost old_snap = self.snapshot;
        let mut i: usize = 0;
        while i < 6
            invariant
                0 <= i <= 6,
                same_but_readiness(old_snap, self.snapshot),
                self.snapshot.tests.reports@.len() == 6,
                self.snapshot.controls == old_snap.controls,
                reports_shaped(old_snap),
                self.display_probe_present == old(self).probe(),
                self.display_probe_detail == old(self).display_probe_detail,
                self.pending == old(self).pending,
                old_snap == old(self).snap(),
                forall|j: int|
                    0 <= j < i ==> report_refreshed(
                        #[trigger] old_snap.tests.reports@[j],
                        self.snapshot.tests.reports@[j],
                        test_block(old_snap, self.display_probe_present, all_tests()[j]),
                        now@,
                    ),
                forall|j: int|
                    i <= j < 6 ==> #[trigger] self.snapshot.tests.reports@[j]
                        == old_snap.tests.reports@[j],
            decreases 6 - i,
        {
            let test = test_at(i);
            let reason = self.test_block_reason(test);
            let mut report = TestReport {
                test,
                state: TestExecutionState::Idle,
                run_allowed: false,
                blocked_reason: None,
                last_detail: String::new(),
                last_updated: String::new(),
            };
            self.snapshot.tests.reports.set_and_swap(i, &mut report);
            report.run_allowed = reason.is_none();
            if report.state != TestExecutionState::Running {
                report.blocked_reason = reason;
            }
            if report.last_updated.as_str().is_empty() {
                report.last_updated = String::from_str(now);
            }
            self.snapshot.tests.reports.set(i, report);
            i = i + 1;
        }
        let motion = self.motion_block_reason();
        self.snapshot.controls.motion_run_allowed = motion.is_none();
        self.snapshot.controls.motion_blocked_reason = motion;
        proof {
            assert(same_gates(old_snap, self.snapshot));
            assert forall|j: int| 0 <= j < 6 implies (#[trigger] self.snapshot.tests.reports@[
                j
            ]).test == all_tests()[j] by {
                assert(report_refreshed(
                    old_snap.tests.reports@[j],
                    self.snapshot.tests.reports@[j],
                    test_block(old_snap, self.display_probe_present, all_tests()[j]),
                    now@,
                ));
            }
            assert forall|j: int| 0 <= j < 6 implies report_ready(
                #[trigger] self.snapshot.tests.reports@[j],
                test_block(self.snapshot, self.display_probe_present, all_tests()[j]),
            ) by {
                assert(report_refreshed(
                    old_snap.tests.reports@[j],
                    self.snapshot.tests.reports@[j],
                    test_block(old_snap, self.display_probe_present, all_tests()[j]),
                    now@,
                ));
            }
        }
    }
}

/// A bounded log never grows past its limit; a new entry becomes the last
/// one, and the entries before it are the old ones, minus the oldest when
/// the log was full.
pub proof fn lemma_ring_push<T>(log: Seq<T>, e: T, limit: nat)
    requires
        0 < limit,
        log.len() <= limit,
    ensures
        ring_push(log, e, limit).len() == if log.len() == limit {
            limit
        } else {
            log.len() + 1
        },
        ring_push(log, e, limit).last() == e,
        ring_push(log, e, limit).drop_last() == if log.len() == limit {
            log.drop_first()
        } else {
            log
        },
{
    let r = ring_push(log, e, limit);
    if log.len() == limit {
        assert(r.drop_last() =~= log.drop_first());
    } else {
        assert(r.drop_last() =~= log);
    }
}

/// A test request is queued exactly when the panel shows the test as
/// runnable, and is refused with the very reason the panel shows.
pub proof fn lemma_run_flag_decides_request(store: PanelStateStore, test: TestKind)
    requires
        store.wf(),
    ensures
        store.snap().tests.reports@[test_index(test)].run_allowed == (test_block(
            store.snap(),
            store.probe(),
            test,
        ) is None),
        store.snap().tests.reports@[test_index(test)].state != TestExecutionState::Running
            ==> opt_text(store.snap().tests.reports@[test_index(test)].blocked_reason) == test_block(
            store.snap(),
            store.probe(),
            test,
        ),
{
    let i = test_index(test);
    assert(all_tests()[i] == test);
    assert(report_ready(store.snap().tests.reports@[i], test_block(store.snap(), store.probe(), all_tests()[i])));
}

/// A motion request other than stop is queued exactly when the panel shows
/// motion as allowed; a stop is always queued.
pub proof fn lemma_motion_flag_decides_request(store: PanelStateStore, action: MotionCommand)
    requires
        store.wf(),
    ensures
        (action == MotionCommand::Stop || drive_block(store.snap()) is None) == (action
            == MotionCommand::Stop || store.snap().controls.motion_run_allowed),
{
}

/// While the harness is faulted no test may start and no motion but a stop
/// is accepted.
pub proof fn lemma_fault_locks_panel(store: PanelStateStore, test: TestKind)
    requires
        store.wf(),
        store.snap().overview.harness_state == HarnessState::Fault,
    ensures
        test_block(store.snap(), store.probe(), test) == Some(TEST_BLOCK_FAULT@),
        drive_block(store.snap()) == Some(DRIVE_BLOCK_FAULT@),
        !store.snap().controls.motion_run_allowed,
        !store.snap().tests.reports@[test_index(test)].run_allowed,
{
    lemma_run_flag_decides_request(store, test);
}

/// The H-bridge levels the motor driver applies for a digital command are
/// the levels the panel reports for it, and the levels its wheel directions
/// call for.
pub proof fn lemma_driver_matches_panel(c: MotionCommand, arcade: MotorGpioState)
    requires
        c != MotionCommand::ArcadeDrive,
    ensures
        crate::motion::hbridge_pattern(c) == reported_gpio(c, arcade),
        crate::motion::hbridge_pattern(c) == crate::motion::directions_gpio(
            crate::motion::command_directions(c).0,
            crate::motion::command_directions(c).1,
        ),
{
}

/// What happens to the panel's command queue: a request puts a command at
/// its end, or the orchestrator takes the next one.
pub enum QueueCall {
    Put(PendingPanelCommand),
    Take,
}

/// The queue after one call, and the command a take returns.
pub open spec fn queue_step(q: Seq<PendingPanelCommand>, c: QueueCall) -> (
    Seq<PendingPanelCommand>,
    Option<PendingPanelCommand>,
) {
    match c {
        QueueCall::Put(x) => (q.push(x), None),
        QueueCall::Take => if q.len() == 0 {
            (q, None)
        } else {
            (q.drop_first(), Some(q[0]))
        },
    }
}

/// The queue after a sequence of calls.
pub open spec fn queue_after(q: Seq<PendingPanelCommand>, calls: Seq<QueueCall>) -> Seq<PendingPanelCommand>
    decreases calls.len(),
{
    if calls.len() == 0 {
        q
    } else {
        queue_step(queue_after(q, calls.drop_last()), calls.last()).0
    }
}

/// The commands the takes of a sequence of calls returned, in order.
pub open spec fn taken(q: Seq<PendingPanelCommand>, calls: Seq<QueueCall>) -> Seq<PendingPanelCommand>
    decreases calls.len(),
{
    if calls.len() == 0 {
        Seq::empty()
    } else {
        let before = queue_after(q, calls.drop_last());
        match queue_step(before, calls.last()).1 {
            Some(x) => taken(q, calls.drop_last()).push(x),
            None => taken(q, calls.drop_last()),
        }
    }
}

/// The commands a sequence of calls put, in order.
pub open spec fn put_by(calls: Seq<QueueCall>) -> Seq<PendingPanelCommand>
    decreases calls.len(),
{
    if calls.len() == 0 {
        Seq::empty()
    } else {
        match calls.last() {
            QueueCall::Put(x) => put_by(calls.drop_last()).push(x),
            QueueCall::Take => put_by(calls.drop_last()),
        }
    }
}

/// Panel commands come out first in, first out: over any calls, the
/// commands taken so far followed by those still queued are the commands
/// queued at the start followed by those put since, in order. (A take
/// returns nothing only when the queue is empty.)
pub proof fn lemma_queue_fifo(q: Seq<PendingPanelCommand>, calls: Seq<QueueCall>)
    ensures
        taken(q, calls) + queue_after(q, calls) == q + put_by(calls),
    decreases calls.len(),
{
    if calls.len() > 0 {
        let prev = calls.drop_last();
        lemma_queue_fifo(q, prev);
        let before = queue_after(q, prev);
        match calls.last() {
            QueueCall::Put(x) => {
                assert(taken(q, prev) + before.push(x) =~= (taken(q, prev) + before).push(x));
                assert((q + put_by(prev)).push(x) =~= q + put_by(prev).push(x));
            },
            QueueCall::Take => {
                if before.len() > 0 {
                    assert(taken(q, prev).push(before[0]) + before.drop_first() =~= taken(q, prev) + before);
                }
            },
        }
    }
}

/// When a test may start. A fault blocks every test; next a running scan;
/// next a running test, whose name the reason gives. On an idle panel the
/// touch test may always start, the display test once a finished scan found
/// the OLED, and the motor, microphone and speaker tests once the operator
/// has confirmed the wiring of that part.
pub proof fn lemma_test_gate(s: RobotSnapshot, probe: Option<bool>, test: TestKind)
    ensures
        s.overview.harness_state == HarnessState::Fault ==> test_block(s, probe, test) == Some(
            TEST_BLOCK_FAULT@,
        ),
        s.overview.harness_state != HarnessState::Fault && s.inspection.scan_in_progress ==> test_block(
            s,
            probe,
            test,
        ) == Some(TEST_BLOCK_SCAN@),
        s.overview.harness_state != HarnessState::Fault && !s.inspection.scan_in_progress
            && s.tests.running is Some ==> test_block(s, probe, test) == Some(
            TEST_BLOCK_RUNNING_PREFIX@ + test_label(s.tests.running->0) + TEST_BLOCK_RUNNING_SUFFIX@,
        ),
        ({
            let idle = s.overview.harness_state != HarnessState::Fault && !s.inspection.scan_in_progress
                && s.tests.running is None;
            let checks = s.inspection.manual_checks;
            &&& idle ==> test_block(s, probe, TestKind::Touch) is None
            &&& idle ==> (test_block(s, probe, TestKind::Display) is None <==> (s.inspection.scan_completed
                && probe == Some(true)))
            &&& idle && !s.inspection.scan_completed ==> test_block(s, probe, TestKind::Display) == Some(
                DISPLAY_NEEDS_SCAN@,
            )
            &&& idle && s.inspection.scan_completed && probe != Some(true) ==> test_block(
                s,
                probe,
                TestKind::Display,
            ) == Some(DISPLAY_NOT_FOUND@)
            &&& idle ==> (test_block(s, probe, TestKind::Motor) is None <==> checks.motor_driver_wired)
            &&& idle && !checks.motor_driver_wired ==> test_block(s, probe, TestKind::Motor) == Some(
                MOTOR_NEEDS_ACK@,
            )
            &&& idle ==> (test_block(s, probe, TestKind::AudioIn) is None <==> checks.microphone_wired)
            &&& idle && !checks.microphone_wired ==> test_block(s, probe, TestKind::AudioIn) == Some(
                MIC_NEEDS_ACK@,
            )
            &&& idle ==> (test_block(s, probe, TestKind::AudioOut) is None <==> checks.speaker_wired)
            &&& idle && !checks.speaker_wired ==> test_block(s, probe, TestKind::AudioOut) == Some(
                SPEAKER_NEEDS_ACK@,
            )
        }),
{
}

/// The full harness may start exactly when each of its parts (touch,
/// display, motor, microphone, speaker) may start on its own.
pub proof fn lemma_full_harness_needs_every_part(s: RobotSnapshot, probe: Option<bool>)
    ensures
        test_block(s, probe, TestKind::FullHarness) is None <==> (test_block(s, probe, TestKind::Touch) is None
            && test_block(s, probe, TestKind::Display) is None && test_block(s, probe, TestKind::Motor) is None
            && test_block(s, probe, TestKind::AudioIn) is None && test_block(s, probe, TestKind::AudioOut)
            is None),
{
}

/// The lock on manual motion: a fault, then a running scan,
/// then a running test, then unconfirmed motor wiring; with none of these
/// motion is free.
pub proof fn lemma_motion_lock(s: RobotSnapshot)
    ensures
        s.overview.harness_state == HarnessState::Fault ==> drive_block(s) == Some(DRIVE_BLOCK_FAULT@),
        s.overview.harness_state != HarnessState::Fault && s.inspection.scan_in_progress ==> drive_block(s)
            == Some(DRIVE_BLOCK_SCAN@),
        s.overview.harness_state != HarnessState::Fault && !s.inspection.scan_in_progress
            && s.tests.running is Some ==> drive_block(s) == Some(DRIVE_BLOCK_TEST@),
        s.overview.harness_state != HarnessState::Fault && !s.inspection.scan_in_progress
            && s.tests.running is None && !s.inspection.manual_checks.motor_driver_wired ==> drive_block(s)
            == Some(DRIVE_BLOCK_WIRING@),
        drive_block(s) is None <==> (s.overview.harness_state != HarnessState::Fault
            && !s.inspection.scan_in_progress && s.tests.running is None
            && s.inspection.manual_checks.motor_driver_wired),
{
}

/// Manual motion is free exactly when the motor test could start: both
/// wait for the same fault, scan, running test and motor wiring.
pub proof fn lemma_motion_free_iff_motor_test_runnable(s: RobotSnapshot, probe: Option<bool>)
    ensures
        drive_block(s) is None <==> test_block(s, probe, TestKind::Motor) is None,
{
}

/// The power-on self-test passes exactly when the full harness could start
/// on an otherwise idle panel: the scan found the OLED and the operator
/// confirmed the motor, microphone and speaker wiring.
pub proof fn lemma_post_matches_full_harness(s: RobotSnapshot, probe: Option<bool>)
    requires
        s.overview.harness_state != HarnessState::Fault,
        !s.inspection.scan_in_progress,
        s.tests.running is None,
    ensures
        post_passes(s, probe) <==> test_block(s, probe, TestKind::FullHarness) is None,
        post_passes(s, probe) <==> (s.inspection.scan_completed && probe == Some(true)
            && s.inspection.manual_checks.motor_driver_wired && s.inspection.manual_checks.microphone_wired
            && s.inspection.manual_checks.speaker_wired),
{
}

} // verus!
