use vstd::prelude::*;

use crate::domain::{RobotEmotion, RobotMode};
use crate::state::HarnessState;

verus! {

/// A digital drive command of the two-motor H-bridge.
#[derive(Debug, Clone, Copy, PartialEq, Eq, Structural, Hash)]
pub enum MotionCommand {
    Stop,
    Forward,
    Backward,
    TurnLeft,
    TurnRight,
    ArcadeDrive,
}

pub open spec fn motion_command_name(c: MotionCommand) -> Seq<char> {
    match c {
        MotionCommand::Stop => "stop"@,
        MotionCommand::Forward => "forward"@,
        MotionCommand::Backward => "backward"@,
        MotionCommand::TurnLeft => "turn_left"@,
        MotionCommand::TurnRight => "turn_right"@,
        MotionCommand::ArcadeDrive => "arcade_drive"@,
    }
}

pub open spec fn motion_command_label(c: MotionCommand) -> Seq<char> {
    match c {
        MotionCommand::Stop => "Dur"@,
        MotionCommand::Forward => "İleri"@,
        MotionCommand::Backward => "Geri"@,
        MotionCommand::TurnLeft => "Sola Dön"@,
        MotionCommand::TurnRight => "Sağa Dön"@,
        MotionCommand::ArcadeDrive => "Arcade Sürüş"@,
    }
}

impl MotionCommand {
    pub fn as_str(self) -> (name: &'static str)
        ensures
            name@ == motion_command_name(self),
    {
        match self {
            MotionCommand::Stop => "stop",
            MotionCommand::Forward => "forward",
            MotionCommand::Backward => "backward",
            MotionCommand::TurnLeft => "turn_left",
            MotionCommand::TurnRight => "turn_right",
            MotionCommand::ArcadeDrive => "arcade_drive",
        }
    }

    /// Turkish label shown on the panel.
    pub fn label_tr(self) -> (label: &'static str)
        ensures
            label@ == motion_command_label(self),
    {
        match self {
            MotionCommand::Stop => "Dur",
            MotionCommand::Forward => "İleri",
            MotionCommand::Backward => "Geri",
            MotionCommand::TurnLeft => "Sola Dön",
            MotionCommand::TurnRight => "Sağa Dön",
            MotionCommand::ArcadeDrive => "Arcade Sürüş",
        }
    }
}

/// Who issued a motion command.
#[derive(Debug, Clone, Copy, PartialEq, Eq, Structural)]
pub enum ControlSource {
    Safety,
    PanelButton,
    Slider,
    Gamepad,
    TestHarness,
}

pub open spec fn control_source_name(s: ControlSource) -> Seq<char> {
    match s {
        ControlSource::Safety => "safety"@,
        ControlSource::PanelButton => "panel_button"@,
        ControlSource::Slider => "slider"@,
        ControlSource::Gamepad => "gamepad"@,
        ControlSource::TestHarness => "test_harness"@,
    }
}

impl ControlSource {
    pub fn as_str(self) -> (name: &'static str)
        ensures
            name@ == control_source_name(self),
    {
        match self {
            ControlSource::Safety => "safety",
            ControlSource::PanelButton => "panel_button",
            ControlSource::Slider => "slider",
            ControlSource::Gamepad => "gamepad",
            ControlSource::TestHarness => "test_harness",
        }
    }
}

/// A self-test the panel can run.
#[derive(Debug, Clone, Copy, PartialEq, Eq, Structural, Hash)]
pub enum TestKind {
    FullHarness,
    Touch,
    Motor,
    Display,
    AudioIn,
    AudioOut,
}

pub open spec fn test_label(t: TestKind) -> Seq<char> {
    match t {
        TestKind::FullHarness => "Tam Test Harnesi"@,
        TestKind::Touch => "Dokunmatik Testi"@,
        TestKind::Motor => "Motor Testi"@,
        TestKind::Display => "Ekran Testi"@,
        TestKind::AudioIn => "Mikrofon Hazırlık Testi"@,
        TestKind::AudioOut => "Hoparlör Hazırlık Testi"@,
    }
}

/// The tests in the order the panel lists them.
pub open spec fn all_tests() -> Seq<TestKind> {
    seq![
        TestKind::FullHarness,
        TestKind::Touch,
        TestKind::Motor,
        TestKind::Display,
        TestKind::AudioIn,
        TestKind::AudioOut,
    ]
}

/// Position of a test in [`all_tests`].
pub open spec fn test_index(t: TestKind) -> int {
    match t {
        TestKind::FullHarness => 0,
        TestKind::Touch => 1,
        TestKind::Motor => 2,
        TestKind::Display => 3,
        TestKind::AudioIn => 4,
        TestKind::AudioOut => 5,
    }
}

pub fn test_position(t: TestKind) -> (i: usize)
    ensures
        i == test_index(t),
        i < 6,
        all_tests()[i as int] == t,
{
    match t {
        TestKind::FullHarness => 0,
        TestKind::Touch => 1,
        TestKind::Motor => 2,
        TestKind::Display => 3,
        TestKind::AudioIn => 4,
        TestKind::AudioOut => 5,
    }
}

pub fn test_at(i: usize) -> (t: TestKind)
    requires
        i < 6,
    ensures
        t == all_tests()[i as int],
        test_index(t) == i,
{
    if i == 0 {
        TestKind::FullHarness
    } else if i == 1 {
        TestKind::Touch
    } else if i == 2 {
        TestKind::Motor
    } else if i == 3 {
        TestKind::Display
    } else if i == 4 {
        TestKind::AudioIn
    } else {
        TestKind::AudioOut
    }
}

impl TestKind {
    /// Turkish label shown on the panel.
    pub fn label_tr(self) -> (label: &'static str)
        ensures
            label@ == test_label(self),
    {
        match self {
            TestKind::FullHarness => "Tam Test Harnesi",
            TestKind::Touch => "Dokunmatik Testi",
            TestKind::Motor => "Motor Testi",
            TestKind::Display => "Ekran Testi",
            TestKind::AudioIn => "Mikrofon Hazırlık Testi",
            TestKind::AudioOut => "Hoparlör Hazırlık Testi",
        }
    }
}

/// A system-level panel action.
#[derive(Debug, Clone, Copy, PartialEq, Eq, Structural)]
pub enum SystemAction {
    ResetIdle,
    EmergencyStop,
}

pub open spec fn system_action_label(a: SystemAction) -> Seq<char> {
    match a {
        SystemAction::ResetIdle => "Boşa Al / Dur"@,
        SystemAction::EmergencyStop => "Acil Durdur"@,
    }
}

impl SystemAction {
    pub fn label_tr(self) -> (label: &'static str)
        ensures
            label@ == system_action_label(self),
    {
        match self {
            SystemAction::ResetIdle => "Boşa Al / Dur",
            SystemAction::EmergencyStop => "Acil Durdur",
        }
    }
}

/// Life cycle of one test as the panel reports it.
#[derive(Debug, Clone, Copy, PartialEq, Eq, Structural)]
pub enum TestExecutionState {
    Idle,
    Running,
    Passed,
    Failed,
    Blocked,
}

/// What is known about the wiring of one pin.
#[derive(Debug, Clone, Copy, PartialEq, Eq, Structural)]
pub enum PinConnectionStatus {
    Present,
    Absent,
    ManualConfirmed,
    ManualRequired,
    Unknown,
}

/// How a pin's wiring is verified.
#[derive(Debug, Clone, Copy, PartialEq, Eq, Structural)]
pub enum PinVerificationMethod {
    AutomaticProbe,
    LiveSignal,
    ManualAck,
}

/// Text of an optional string.
pub open spec fn opt_text(o: Option<String>) -> Option<Seq<char>> {
    match o {
        Some(s) => Some(s@),
        None => None,
    }
}

/// Texts of a list of strings.
pub open spec fn texts(v: Seq<String>) -> Seq<Seq<char>> {
    v.map_values(|s: String| s@)
}

pub fn clone_opt_string(o: &Option<String>) -> (c: Option<String>)
    ensures
        c == *o,
{
    match o {
        Some(s) => Some(s.clone()),
        None => None,
    }
}

pub struct OverviewCard {
    pub harness_state: HarnessState,
    pub robot_mode: RobotMode,
    pub emotion: RobotEmotion,
    pub heartbeat_count: u64,
    pub fault: Option<String>,
    pub updated_at: String,
}

pub struct ControlAccess {
    pub motion_run_allowed: bool,
    pub motion_blocked_reason: Option<String>,
}

/// Levels of the four H-bridge inputs.
#[derive(Debug, Clone, Copy, PartialEq, Eq, Structural)]
pub struct MotorGpioState {
    pub in1: bool,
    pub in2: bool,
    pub in3: bool,
    pub in4: bool,
}

/// The motor state the panel shows: the last command, who issued it and the
/// H-bridge levels it produced. (Analog throttle/turn values live beside it.)
pub struct MotorStatus {
    pub command: MotionCommand,
    pub source: ControlSource,
    pub gpio: MotorGpioState,
}

pub struct SensorStatus {
    pub pet_touch: bool,
    pub record_touch: bool,
    pub pet_touch_seen: bool,
    pub record_touch_seen: bool,
    pub display_ready: bool,
    pub display_message: String,
    pub audio_in_placeholder_ready: bool,
    pub audio_out_placeholder_ready: bool,
}

/// Operator confirmations of wiring that cannot be probed.
#[derive(Debug, Clone, Copy, PartialEq, Eq, Structural)]
pub struct ManualChecks {
    pub motor_driver_wired: bool,
    pub microphone_wired: bool,
    pub speaker_wired: bool,
}

pub struct PinStatus {
    pub key: String,
    pub label: String,
    pub gpio: u8,
    pub role: String,
    pub direction: String,
    pub signal: String,
    pub connection_status: PinConnectionStatus,
    pub verification_method: PinVerificationMethod,
    pub detail: String,
    pub required_by: Vec<String>,
}

pub struct InspectionStatus {
    pub scan_completed: bool,
    pub scan_in_progress: bool,
    pub post_passed: bool,
    pub last_scan_at: String,
    pub last_scan_summary: String,
    pub manual_checks: ManualChecks,
    pub limitations: Vec<String>,
    pub pins: Vec<PinStatus>,
}

pub struct TestReport {
    pub test: TestKind,
    pub state: TestExecutionState,
    pub run_allowed: bool,
    pub blocked_reason: Option<String>,
    pub last_detail: String,
    pub last_updated: String,
}

pub struct TestStatus {
    pub running: Option<TestKind>,
    pub last_completed: Option<TestKind>,
    pub reports: Vec<TestReport>,
}

pub struct TransportStatus {
    pub backend: String,
    pub target: String,
    pub connected: bool,
    pub ssid: String,
    pub password_hint: String,
}

pub struct TelemetryEntry {
    pub timestamp: String,
    pub level: String,
    pub component: String,
    pub action: String,
    pub detail: String,
}

/// Everything the panel shows, but the analog drive and gamepad values.
pub struct RobotSnapshot {
    pub overview: OverviewCard,
    pub controls: ControlAccess,
    pub motors: MotorStatus,
    pub sensors: SensorStatus,
    pub inspection: InspectionStatus,
    pub tests: TestStatus,
    pub transport: TransportStatus,
    pub telemetry: Vec<TelemetryEntry>,
}

pub struct MotorActionRequest {
    pub action: MotionCommand,
}

pub struct RunTestRequest {
    pub test: TestKind,
}

pub struct SystemActionRequest {
    pub action: SystemAction,
}

pub struct ManualChecksRequest {
    pub motor_driver_wired: bool,
    pub microphone_wired: bool,
    pub speaker_wired: bool,
}

/// The gamepad as the panel tracks it, but for its analog axes and buttons.
pub struct GamepadLink {
    pub connected: bool,
    pub driving_enabled: bool,
    pub id: Option<String>,
}

impl GamepadLink {
    /// Its sticks drive the robot only while it is connected and driving is
    /// enabled.
    pub fn drives(&self) -> (b: bool)
        ensures
            b == (self.connected && self.driving_enabled),
    {
        self.connected && self.driving_enabled
    }
}

} // verus!
