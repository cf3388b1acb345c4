//! The localhost bench panel: the same robot model driven by a mock
//! transport, with wall-clock timestamps.
use vstd::prelude::*;

use crate::domain::{RobotEmotion, RobotMode};
use crate::model::{ControlSource, MotionCommand, MotorGpioState, MotorStatus, OverviewCard, TelemetryEntry, TestKind};
use crate::state::{emotion_for, mode_for, robot_emotion_for, robot_mode_for, HarnessState};
use crate::store::{reported_gpio, ring_push};
use crate::text::bool_text;

verus! {

/// Value of a decimal digit character.
pub open spec fn digit_value(c: char) -> int {
    c as int - '0' as int
}

/// Two decimal digits at `i` and `i + 1` forming a number no greater than
/// `max`.
pub open spec fn two_digits_upto(s: Seq<char>, i: int, max: int) -> bool {
    &&& '0' <= s[i] <= '9'
    &&& '0' <= s[i + 1] <= '9'
    &&& digit_value(s[i]) * 10 + digit_value(s[i + 1]) <= max
}

/// A wall-clock reading `HH:MM:SS`: hour 00 to 23, minute 00 to 59, second
/// 00 to 60 (a leap second), each zero-padded to two digits.
pub open spec fn clock_text(s: Seq<char>) -> bool {
    &&& s.len() == 8
    &&& s[2] == ':'
    &&& s[5] == ':'
    &&& two_digits_upto(s, 0, 23)
    &&& two_digits_upto(s, 3, 59)
    &&& two_digits_upto(s, 6, 60)
}

/// Local wall-clock time, `chrono::Local::now().format("%H:%M:%S")`.
/// Which time it reads depends on the clock and the machine's time zone, so
/// only its shape is promised: chrono documents `%H`, `%M` and `%S` as the
/// hour (00 to 23), minute (00 to 59) and second (00 to 60), each
/// zero-padded to two digits.
#[verifier::external_body]
fn timestamp_now() -> (stamp: String)
    ensures
        clock_text(stamp@),
{
    chrono::Local::now().format("%H:%M:%S").to_string()
}

/// Number of telemetry entries the bench panel keeps.
pub const BENCH_TELEMETRY_LIMIT: usize = 200;

/// System actions of the bench panel.
#[derive(Debug, Clone, Copy, PartialEq, Eq, Structural)]
pub enum SystemAction {
    ResetIdle,
    InjectFault,
    ClearFault,
    EmergencyStop,
}

/// A manual override of the touch levels; absent levels stay as they are.
pub struct SensorOverrideRequest {
    pub pet_touch: Option<bool>,
    pub record_touch: Option<bool>,
}

pub struct BenchSensors {
    pub pet_touch: bool,
    pub record_touch: bool,
    pub display_ready: bool,
    pub display_message: String,
    pub audio_in_placeholder_ready: bool,
    pub audio_out_placeholder_ready: bool,
}

pub struct BenchTests {
    pub running: Option<TestKind>,
    pub last_completed: Option<TestKind>,
}

pub struct BenchTransport {
    pub backend: String,
    pub target: String,
    pub connected: bool,
}

/// What the bench panel shows, but the analog drive and gamepad values.
pub struct BenchSnapshot {
    pub overview: OverviewCard,
    pub motors: MotorStatus,
    pub sensors: BenchSensors,
    pub tests: BenchTests,
    pub transport: BenchTransport,
    pub telemetry: Vec<TelemetryEntry>,
}

/// The bench panel's state.
pub struct PanelRuntime {
    snapshot: BenchSnapshot,
}

/// A log entry without its time: level, component, action, detail.
pub open spec fn untimed(v: Seq<TelemetryEntry>) -> Seq<(Seq<char>, Seq<char>, Seq<char>, Seq<char>)> {
    v.map_values(|e: TelemetryEntry| (e.level@, e.component@, e.action@, e.detail@))
}

/// `b` is `a` with one more log entry (level, component, action, detail),
/// stamped with the clock.
pub open spec fn bench_logged(
    a: BenchSnapshot,
    b: BenchSnapshot,
    e: (Seq<char>, Seq<char>, Seq<char>, Seq<char>),
) -> bool {
    &&& b == (BenchSnapshot {
        overview: OverviewCard { updated_at: b.overview.updated_at, ..a.overview },
        telemetry: b.telemetry,
        ..a
    })
    &&& untimed(b.telemetry@) == ring_push(untimed(a.telemetry@), e, BENCH_TELEMETRY_LIMIT as nat)
}

/// Name of a test as Rust's `Debug` prints it.
pub open spec fn test_debug_name(t: TestKind) -> Seq<char> {
    match t {
        TestKind::FullHarness => "FullHarness"@,
        TestKind::Touch => "Touch"@,
        TestKind::Motor => "Motor"@,
        TestKind::Display => "Display"@,
        TestKind::AudioIn => "AudioIn"@,
        TestKind::AudioOut => "AudioOut"@,
    }
}

pub fn test_debug_str(t: TestKind) -> (s: &'static str)
    ensures
        s@ == test_debug_name(t),
{
    match t {
        TestKind::FullHarness => "FullHarness",
        TestKind::Touch => "Touch",
        TestKind::Motor => "Motor",
        TestKind::Display => "Display",
        TestKind::AudioIn => "AudioIn",
        TestKind::AudioOut => "AudioOut",
    }
}

/// Name of a motion command as Rust's `Debug` prints it.
pub open spec fn motion_debug_name(c: MotionCommand) -> Seq<char> {
    match c {
        MotionCommand::Stop => "Stop"@,
        MotionCommand::Forward => "Forward"@,
        MotionCommand::Backward => "Backward"@,
        MotionCommand::TurnLeft => "TurnLeft"@,
        MotionCommand::TurnRight => "TurnRight"@,
        MotionCommand::ArcadeDrive => "ArcadeDrive"@,
    }
}

pub fn motion_debug_str(c: MotionCommand) -> (s: &'static str)
    ensures
        s@ == motion_debug_name(c),
{
    match c {
        MotionCommand::Stop => "Stop",
        MotionCommand::Forward => "Forward",
        MotionCommand::Backward => "Backward",
        MotionCommand::TurnLeft => "TurnLeft",
        MotionCommand::TurnRight => "TurnRight",
        MotionCommand::ArcadeDrive => "ArcadeDrive",
    }
}

/// An optional flag as Rust's `Debug` prints it.
pub open spec fn opt_bool_debug(o: Option<bool>) -> Seq<char> {
    match o {
        Some(b) => "Some("@ + bool_text(b) + ")"@,
        None => "None"@,
    }
}

pub fn opt_bool_debug_str(o: Option<bool>) -> (s: &'static str)
    ensures
        s@ == opt_bool_debug(o),
{
    proof {
        reveal_strlit("Some(true)");
        reveal_strlit("Some(false)");
        reveal_strlit("Some(");
        reveal_strlit("true");
        reveal_strlit("false");
        reveal_strlit(")");
    }
    match o {
        Some(true) => {
            assert("Some(true)"@ =~= "Some("@ + "true"@ + ")"@);
            "Some(true)"
        },
        Some(false) => {
            assert("Some(false)"@ =~= "Some("@ + "false"@ + ")"@);
            "Some(false)"
        },
        None => "None",
    }
}

/// `a` at harness state `next` with the mode and emotion that go with it,
/// stamped `at`.
pub open spec fn overview_in(a: OverviewCard, next: HarnessState, at: String) -> OverviewCard {
    OverviewCard { harness_state: next, robot_mode: mode_for(next), emotion: emotion_for(next), updated_at: at, ..a }
}

/// `a` stamped `at`, otherwise unchanged.
pub open spec fn stamped_at(a: OverviewCard, at: String) -> OverviewCard {
    OverviewCard { updated_at: at, ..a }
}

/// The bench panel's wiring stops with every H-bridge input low.
pub open spec fn motors_stopped_by(m: MotorStatus, source: ControlSource) -> bool {
    m == MotorStatus {
        command: MotionCommand::Stop,
        source,
        gpio: MotorGpioState { in1: false, in2: false, in3: false, in4: false },
    }
}

impl PanelRuntime {
    pub closed spec fn snap(&self) -> BenchSnapshot {
        self.snapshot
    }

    /// The log stays within its limit, and every time the panel shows is a
    /// wall-clock reading.
    pub open spec fn wf(&self) -> bool {
        &&& self.snap().telemetry@.len() <= BENCH_TELEMETRY_LIMIT
        &&& clock_text(self.snap().overview.updated_at@)
        &&& forall|i: int|
            0 <= i < self.snap().telemetry@.len() ==> clock_text(
                (#[trigger] self.snap().telemetry@[i]).timestamp@,
            )
    }

    /// The snapshot the bench panel serves.
    pub fn snapshot(&self) -> (s: &BenchSnapshot)
        ensures
            *s == self.snap(),
    {
        &self.snapshot
    }

    /// Appends an entry stamped with the wall clock to the bounded log.
    pub fn log(&mut self, level: &str, component: &str, action: &str, detail: &str)
        requires
            old(self).wf(),
        ensures
            final(self).wf(),
            bench_logged(old(self).snap(), final(self).snap(), (level@, component@, action@, detail@)),
    {
        let entry = TelemetryEntry {
            timestamp: timestamp_now(),
            level: String::from_str(level),
            component: String::from_str(component),
            action: String::from_str(action),
            detail: String::from_str(detail),
        };
        let ghost before = self.snapshot.telemetry@;
        if self.snapshot.telemetry.len() == BENCH_TELEMETRY_LIMIT {
            self.snapshot.telemetry.remove(0);
        }
        self.snapshot.telemetry.push(entry);
        proof {
            if before.len() >= BENCH_TELEMETRY_LIMIT {
                assert(self.snapshot.telemetry@ =~= before.drop_first().push(entry));
            } else {
                assert(self.snapshot.telemetry@ =~= before.push(entry));
            }
            assert(untimed(self.snapshot.telemetry@) =~= ring_push(
                untimed(before),
                (level@, component@, action@, detail@),
                BENCH_TELEMETRY_LIMIT as nat,
            ));
        }
        self.snapshot.overview.updated_at = timestamp_now();
    }


    /// The bench panel at start: idle, motors stopped, every placeholder
    /// ready, one boot entry in the log.
    pub fn new() -> (runtime: Self)
        ensures
            runtime.wf(),
            ({
                let s = runtime.snap();
                &&& s.overview.harness_state == HarnessState::Idle
                &&& s.overview.robot_mode == RobotMode::Idle
                &&& s.overview.emotion == RobotEmotion::Neutral
                &&& s.overview.heartbeat_count == 0
                &&& s.overview.fault is None
                &&& motors_stopped_by(s.motors, ControlSource::Safety)
                &&& !s.sensors.pet_touch && !s.sensors.record_touch
                &&& s.sensors.display_ready
                &&& s.sensors.display_message@ == "BOOT: localhost control panel ready"@
                &&& s.sensors.audio_in_placeholder_ready && s.sensors.audio_out_placeholder_ready
                &&& s.tests.running is None && s.tests.last_completed is None
                &&& s.transport.backend@ == "mock_robot_transport"@
                &&& s.transport.target@ == "localhost panel state"@
                &&& s.transport.connected
                &&& untimed(s.telemetry@) == seq![
                    (
                        "info"@,
                        "panel"@,
                        "boot_completed"@,
                        "localhost control panel initialized with mock robot backend"@,
                    ),
                ]
            }),
    {
        let mut runtime = PanelRuntime {
            snapshot: BenchSnapshot {
                overview: OverviewCard {
                    harness_state: HarnessState::Boot,
                    robot_mode: RobotMode::Booting,
                    emotion: RobotEmotion::Focused,
                    heartbeat_count: 0,
                    fault: None,
                    updated_at: timestamp_now(),
                },
                motors: MotorStatus {
                    command: MotionCommand::Stop,
                    source: ControlSource::Safety,
                    gpio: MotorGpioState { in1: false, in2: false, in3: false, in4: false },
                },
                sensors: BenchSensors {
                    pet_touch: false,
                    record_touch: false,
                    display_ready: true,
                    display_message: String::from_str("BOOT: localhost control panel ready"),
                    audio_in_placeholder_ready: true,
                    audio_out_placeholder_ready: true,
                },
                tests: BenchTests { running: None, last_completed: None },
                transport: BenchTransport {
                    backend: String::from_str("mock_robot_transport"),
                    target: String::from_str("localhost panel state"),
                    connected: true,
                },
                telemetry: Vec::new(),
            },
        };
        runtime.transition(HarnessState::Idle);
        runtime.log(
            "info",
            "panel",
            "boot_completed",
            "localhost control panel initialized with mock robot backend",
        );
        proof {
            assert(untimed(Seq::<TelemetryEntry>::empty()) =~= Seq::empty());
            assert(ring_push(
                Seq::<(Seq<char>, Seq<char>, Seq<char>, Seq<char>)>::empty(),
                (
                    "info"@,
                    "panel"@,
                    "boot_completed"@,
                    "localhost control panel initialized with mock robot backend"@,
                ),
                BENCH_TELEMETRY_LIMIT as nat,
            ) =~= seq![
                (
                    "info"@,
                    "panel"@,
                    "boot_completed"@,
                    "localhost control panel initialized with mock robot backend"@,
                ),
            ]);
        }
        runtime
    }

    /// Counts one more heartbeat.
    pub fn increment_heartbeat(&mut self)
        requires
            old(self).wf(),
            old(self).snap().overview.heartbeat_count < u64::MAX,
        ensures
            final(self).wf(),
            final(self).snap() == (BenchSnapshot {
                overview: OverviewCard {
                    heartbeat_count: (old(self).snap().overview.heartbeat_count + 1) as u64,
                    updated_at: final(self).snap().overview.updated_at,
                    ..old(self).snap().overview
                },
                ..old(self).snap()
            }),
    {
        self.snapshot.overview.heartbeat_count = self.snapshot.overview.heartbeat_count + 1;
        self.snapshot.overview.updated_at = timestamp_now();
    }

    /// Text the display shows.
    pub fn set_display_message(&mut self, message: &str)
        requires
            old(self).wf(),
        ensures
            final(self).wf(),
            final(self).snap().sensors.display_message@ == message@,
            final(self).snap() == (BenchSnapshot {
                overview: OverviewCard { updated_at: final(self).snap().overview.updated_at, ..old(self).snap().overview },
                sensors: BenchSensors {
                    display_message: final(self).snap().sensors.display_message,
                    ..old(self).snap().sensors
                },
                ..old(self).snap()
            }),
    {
        self.snapshot.sensors.display_message = String::from_str(message);
        self.snapshot.overview.updated_at = timestamp_now();
    }

    /// Overrides the touch levels that are given.
    pub fn set_touch_sensors(&mut self, pet_touch: Option<bool>, record_touch: Option<bool>)
        requires
            old(self).wf(),
        ensures
            final(self).wf(),
            final(self).snap() == (BenchSnapshot {
                overview: OverviewCard { updated_at: final(self).snap().overview.updated_at, ..old(self).snap().overview },
                sensors: BenchSensors {
                    pet_touch: match pet_touch {
                        Some(v) => v,
                        None => old(self).snap().sensors.pet_touch,
                    },
                    record_touch: match record_touch {
                        Some(v) => v,
                        None => old(self).snap().sensors.record_touch,
                    },
                    ..old(self).snap().sensors
                },
                ..old(self).snap()
            }),
    {
        if let Some(value) = pet_touch {
            self.snapshot.sensors.pet_touch = value;
        }
        if let Some(value) = record_touch {
            self.snapshot.sensors.record_touch = value;
        }
        self.snapshot.overview.updated_at = timestamp_now();
    }

    /// Something outside the snapshot (the gamepad) changed now.
    pub fn mark_updated(&mut self)
        requires
            old(self).wf(),
        ensures
            final(self).wf(),
            final(self).snap() == (BenchSnapshot {
                overview: OverviewCard { updated_at: final(self).snap().overview.updated_at, ..old(self).snap().overview },
                ..old(self).snap()
            }),
    {
        self.snapshot.overview.updated_at = timestamp_now();
    }

    /// Applies a motion command (for an arcade request, `arcade_gpio` are the
    /// levels derived from its wheel outputs) and logs `detail`.
    pub fn apply_motion(
        &mut self,
        command: MotionCommand,
        source: ControlSource,
        arcade_gpio: MotorGpioState,
        detail: &str,
    )
        requires
            old(self).wf(),
        ensures
            final(self).wf(),
            final(self).snap() == (BenchSnapshot {
                overview: stamped_at(old(self).snap().overview, final(self).snap().overview.updated_at),
                motors: MotorStatus { command, source, gpio: reported_gpio(command, arcade_gpio) },
                telemetry: final(self).snap().telemetry,
                ..old(self).snap()
            }),
            untimed(final(self).snap().telemetry@) == ring_push(
                untimed(old(self).snap().telemetry@),
                ("info"@, "motor"@, "command_applied"@, detail@),
                BENCH_TELEMETRY_LIMIT as nat,
            ),
    {
        let gpio = match command {
            MotionCommand::ArcadeDrive => arcade_gpio,
            _ => crate::motion::hbridge_levels(command),
        };
        self.snapshot.motors = MotorStatus { command, source, gpio };
        self.snapshot.overview.updated_at = timestamp_now();
        self.log("info", "motor", "command_applied", detail);
    }

    /// Shows `fault` (or clears it); a fault enters the fault state and
    /// stops the motors for safety.
    pub fn set_fault(&mut self, fault: Option<String>)
        requires
            old(self).wf(),
        ensures
            final(self).wf(),
            fault is None ==> final(self).snap() == (BenchSnapshot {
                overview: OverviewCard { fault: None, ..old(self).snap().overview },
                ..old(self).snap()
            }),
            fault is Some ==> final(self).snap() == (BenchSnapshot {
                overview: OverviewCard { fault: fault, ..overview_in(old(self).snap().overview, HarnessState::Fault, final(self).snap().overview.updated_at) },
                motors: MotorStatus {
                command: MotionCommand::Stop,
                source: ControlSource::Safety,
                gpio: MotorGpioState { in1: false, in2: false, in3: false, in4: false },
            },
                telemetry: final(self).snap().telemetry,
                ..old(self).snap()
            }),
            fault is Some ==> untimed(final(self).snap().telemetry@) == ring_push(
                untimed(old(self).snap().telemetry@),
                ("info"@, "motor"@, "command_applied"@, "fault forced emergency stop"@),
                BENCH_TELEMETRY_LIMIT as nat,
            ),
    {
        let is_fault = fault.is_some();
        self.snapshot.overview.fault = fault;
        if is_fault {
            self.transition(HarnessState::Fault);
            self.apply_motion(
                MotionCommand::Stop,
                ControlSource::Safety,
                MotorGpioState { in1: false, in2: false, in3: false, in4: false },
                "fault forced emergency stop",
            );
        }
    }

    /// Moves to `next`, taking the mode and emotion that go with it.
    pub fn transition(&mut self, next: HarnessState)
        requires
            old(self).wf(),
        ensures
            final(self).wf(),
            final(self).snap() == (BenchSnapshot {
                overview: overview_in(old(self).snap().overview, next, final(self).snap().overview.updated_at),
                ..old(self).snap()
            }),
    {
        self.snapshot.overview.harness_state = next;
        self.snapshot.overview.robot_mode = robot_mode_for(next);
        self.snapshot.overview.emotion = robot_emotion_for(next);
        self.snapshot.overview.updated_at = timestamp_now();
    }

    /// The UI polled: one more heartbeat, logged.
    pub fn heartbeat(&mut self)
        requires
            old(self).wf(),
            old(self).snap().overview.heartbeat_count < u64::MAX,
        ensures
            final(self).wf(),
            final(self).snap() == (BenchSnapshot {
                overview: OverviewCard {
                    heartbeat_count: (old(self).snap().overview.heartbeat_count + 1) as u64,
                    ..stamped_at(old(self).snap().overview, final(self).snap().overview.updated_at)
                },
                telemetry: final(self).snap().telemetry,
                ..old(self).snap()
            }),
            untimed(final(self).snap().telemetry@) == ring_push(
                untimed(old(self).snap().telemetry@),
                ("info"@, "panel"@, "heartbeat"@, "UI polling heartbeat refreshed"@),
                BENCH_TELEMETRY_LIMIT as nat,
            ),
    {
        self.increment_heartbeat();
        self.log("info", "panel", "heartbeat", "UI polling heartbeat refreshed");
    }

    /// A motion button: applied at once on the bench, logged as
    /// `action=<Debug> source=panel_button`.
    pub fn apply_motion_action(&mut self, action: MotionCommand)
        requires
            old(self).wf(),
        ensures
            final(self).wf(),
            final(self).snap() == (BenchSnapshot {
                overview: stamped_at(old(self).snap().overview, final(self).snap().overview.updated_at),
                motors: MotorStatus {
                    command: action,
                    source: ControlSource::PanelButton,
                    gpio: reported_gpio(action, MotorGpioState { in1: false, in2: false, in3: false, in4: false }),
                },
                telemetry: final(self).snap().telemetry,
                ..old(self).snap()
            }),
            untimed(final(self).snap().telemetry@) == ring_push(
                untimed(old(self).snap().telemetry@),
                ("info"@, "motor"@, "command_applied"@, "action="@ + motion_debug_name(action) + " source=panel_button"@),
                BENCH_TELEMETRY_LIMIT as nat,
            ),
    {
        let mut detail = String::from_str("action=");
        detail.append(motion_debug_str(action));
        detail.append(" source=panel_button");
        self.apply_motion(
            action,
            ControlSource::PanelButton,
            MotorGpioState { in1: false, in2: false, in3: false, in4: false },
            detail.as_str(),
        );
    }

    /// Manual override of the touch levels, logged.
    pub fn update_sensors(&mut self, pet_touch: Option<bool>, record_touch: Option<bool>)
        requires
            old(self).wf(),
        ensures
            final(self).wf(),
            final(self).snap() == (BenchSnapshot {
                overview: stamped_at(old(self).snap().overview, final(self).snap().overview.updated_at),
                sensors: BenchSensors {
                    pet_touch: match pet_touch {
                        Some(v) => v,
                        None => old(self).snap().sensors.pet_touch,
                    },
                    record_touch: match record_touch {
                        Some(v) => v,
                        None => old(self).snap().sensors.record_touch,
                    },
                    ..old(self).snap().sensors
                },
                telemetry: final(self).snap().telemetry,
                ..old(self).snap()
            }),
            untimed(final(self).snap().telemetry@) == ring_push(
                untimed(old(self).snap().telemetry@),
                (
                    "info"@,
                    "sensors"@,
                    "manual_override"@,
                    "pet_touch="@ + opt_bool_debug(pet_touch) + " record_touch="@ + opt_bool_debug(record_touch),
                ),
                BENCH_TELEMETRY_LIMIT as nat,
            ),
    {
        let mut detail = String::from_str("pet_touch=");
        detail.append(opt_bool_debug_str(pet_touch));
        detail.append(" record_touch=");
        detail.append(opt_bool_debug_str(record_touch));
        self.set_touch_sensors(pet_touch, record_touch);
        self.log("info", "sensors", "manual_override", detail.as_str());
    }

    /// A system action from the bench panel.
    pub fn apply_system_action(&mut self, action: SystemAction)
        requires
            old(self).wf(),
        ensures
            final(self).wf(),
            (action == SystemAction::ResetIdle || action == SystemAction::ClearFault) ==> {
                &&& final(self).snap() == (BenchSnapshot {
                    overview: OverviewCard { fault: None, ..overview_in(old(self).snap().overview, HarnessState::Idle, final(self).snap().overview.updated_at) },
                    sensors: BenchSensors { display_message: final(self).snap().sensors.display_message, ..old(self).snap().sensors },
                    telemetry: final(self).snap().telemetry,
                    ..old(self).snap()
                })
                &&& final(self).snap().sensors.display_message@ == "IDLE: localhost panel armed"@
                &&& untimed(final(self).snap().telemetry@) == ring_push(
                    untimed(old(self).snap().telemetry@),
                    ("info"@, "system"@, "clear_fault"@, "returned robot to idle"@),
                    BENCH_TELEMETRY_LIMIT as nat,
                )
            },
            action == SystemAction::InjectFault ==> {
                &&& final(self).snap() == (BenchSnapshot {
                    overview: OverviewCard {
                        fault: final(self).snap().overview.fault,
                        ..overview_in(old(self).snap().overview, HarnessState::Fault, final(self).snap().overview.updated_at)
                    },
                    motors: MotorStatus {
                command: MotionCommand::Stop,
                source: ControlSource::Safety,
                gpio: MotorGpioState { in1: false, in2: false, in3: false, in4: false },
            },
                    telemetry: final(self).snap().telemetry,
                    ..old(self).snap()
                })
                &&& final(self).snap().overview.fault is Some
                &&& final(self).snap().overview.fault->0@ == "manual fault injected from localhost panel"@
                &&& untimed(final(self).snap().telemetry@) == ring_push(
                    ring_push(
                        untimed(old(self).snap().telemetry@),
                        ("info"@, "motor"@, "command_applied"@, "fault forced emergency stop"@),
                        BENCH_TELEMETRY_LIMIT as nat,
                    ),
                    ("error"@, "system"@, "inject_fault"@, "operator injected a fault"@),
                    BENCH_TELEMETRY_LIMIT as nat,
                )
            },
            action == SystemAction::EmergencyStop ==> {
                &&& final(self).snap() == (BenchSnapshot {
                    overview: stamped_at(old(self).snap().overview, final(self).snap().overview.updated_at),
                    motors: MotorStatus {
                command: MotionCommand::Stop,
                source: ControlSource::Safety,
                gpio: MotorGpioState { in1: false, in2: false, in3: false, in4: false },
            },
                    telemetry: final(self).snap().telemetry,
                    ..old(self).snap()
                })
                &&& untimed(final(self).snap().telemetry@) == ring_push(
                    ring_push(
                        untimed(old(self).snap().telemetry@),
                        ("info"@, "motor"@, "command_applied"@, "manual emergency stop from localhost panel"@),
                        BENCH_TELEMETRY_LIMIT as nat,
                    ),
                    ("warn"@, "system"@, "emergency_stop"@, "motors forced to stop"@),
                    BENCH_TELEMETRY_LIMIT as nat,
                )
            },
    {
        match action {
            SystemAction::ResetIdle | SystemAction::ClearFault => {
                self.set_fault(None);
                self.transition(HarnessState::Idle);
                self.set_display_message("IDLE: localhost panel armed");
                self.log("info", "system", "clear_fault", "returned robot to idle");
            },
            SystemAction::InjectFault => {
                self.set_fault(Some(String::from_str("manual fault injected from localhost panel")));
                self.log("error", "system", "inject_fault", "operator injected a fault");
            },
            SystemAction::EmergencyStop => {
                self.apply_motion(
                    MotionCommand::Stop,
                    ControlSource::Safety,
                    MotorGpioState { in1: false, in2: false, in3: false, in4: false },
                    "manual emergency stop from localhost panel",
                );
                self.log("warn", "system", "emergency_stop", "motors forced to stop");
            },
        }
    }

    /// Starts `test` unless another test is running; returns whether it
    /// started.
    pub fn begin_test(&mut self, test: TestKind) -> (started: bool)
        requires
            old(self).wf(),
        ensures
            final(self).wf(),
            started == (old(self).snap().tests.running is None),
            (started, final(self).snap().tests) == begin_outcome(old(self).snap().tests, test),
            started ==> final(self).snap() == (BenchSnapshot {
                overview: stamped_at(old(self).snap().overview, final(self).snap().overview.updated_at),
                tests: BenchTests { running: Some(test), ..old(self).snap().tests },
                telemetry: final(self).snap().telemetry,
                ..old(self).snap()
            }),
            started ==> untimed(final(self).snap().telemetry@) == ring_push(
                untimed(old(self).snap().telemetry@),
                ("info"@, "tests"@, "start"@, "test="@ + test_debug_name(test)),
                BENCH_TELEMETRY_LIMIT as nat,
            ),
            !started ==> final(self).snap() == (BenchSnapshot {
                overview: stamped_at(old(self).snap().overview, final(self).snap().overview.updated_at),
                telemetry: final(self).snap().telemetry,
                ..old(self).snap()
            }),
            !started ==> untimed(final(self).snap().telemetry@) == ring_push(
                untimed(old(self).snap().telemetry@),
                ("warn"@, "tests"@, "busy"@, "ignored test request while another test was running"@),
                BENCH_TELEMETRY_LIMIT as nat,
            ),
    {
        if self.snapshot.tests.running.is_some() {
            self.log("warn", "tests", "busy", "ignored test request while another test was running");
            false
        } else {
            self.snapshot.tests.running = Some(test);
            let mut detail = String::from_str("test=");
            detail.append(test_debug_str(test));
            self.log("info", "tests", "start", detail.as_str());
            true
        }
    }

    /// `test` finished: nothing runs any more, it is the last completed
    /// test, and the robot returns to idle unless a fault is shown.
    pub fn finish_test(&mut self, test: TestKind)
        requires
            old(self).wf(),
        ensures
            final(self).wf(),
            final(self).snap() == (BenchSnapshot {
                overview: if old(self).snap().overview.fault is None {
                    overview_in(old(self).snap().overview, HarnessState::Idle, final(self).snap().overview.updated_at)
                } else {
                    stamped_at(old(self).snap().overview, final(self).snap().overview.updated_at)
                },
                tests: BenchTests { running: None, last_completed: Some(test) },
                telemetry: final(self).snap().telemetry,
                ..old(self).snap()
            }),
            untimed(final(self).snap().telemetry@) == ring_push(
                untimed(old(self).snap().telemetry@),
                ("info"@, "tests"@, "complete"@, "test="@ + test_debug_name(test)),
                BENCH_TELEMETRY_LIMIT as nat,
            ),
    {
        self.snapshot.tests.running = None;
        self.snapshot.tests.last_completed = Some(test);
        if self.snapshot.overview.fault.is_none() {
            self.transition(HarnessState::Idle);
        }
        let mut detail = String::from_str("test=");
        detail.append(test_debug_str(test));
        self.log("info", "tests", "complete", detail.as_str());
    }

    /// The touch stage: shows the current touch levels.
    pub fn run_touch_stage(&mut self)
        requires
            old(self).wf(),
        ensures
            final(self).wf(),
            final(self).snap() == (BenchSnapshot {
                overview: overview_in(old(self).snap().overview, HarnessState::TestTouch, final(self).snap().overview.updated_at),
                telemetry: final(self).snap().telemetry,
                ..old(self).snap()
            }),
            untimed(final(self).snap().telemetry@) == ring_push(
                untimed(old(self).snap().telemetry@),
                (
                    "info"@,
                    "touch"@,
                    "test_snapshot"@,
                    "pet_touch="@ + bool_text(old(self).snap().sensors.pet_touch) + " record_touch="@
                        + bool_text(old(self).snap().sensors.record_touch),
                ),
                BENCH_TELEMETRY_LIMIT as nat,
            ),
    {
        self.transition(HarnessState::TestTouch);
        let mut detail = String::from_str("pet_touch=");
        detail.append(crate::text::bool_str(self.snapshot.sensors.pet_touch));
        detail.append(" record_touch=");
        detail.append(crate::text::bool_str(self.snapshot.sensors.record_touch));
        self.log("info", "touch", "test_snapshot", detail.as_str());
    }

    /// The display stage.
    pub fn run_display_stage(&mut self)
        requires
            old(self).wf(),
        ensures
            final(self).wf(),
            final(self).snap() == (BenchSnapshot {
                overview: overview_in(old(self).snap().overview, HarnessState::TestDisplay, final(self).snap().overview.updated_at),
                sensors: BenchSensors { display_message: final(self).snap().sensors.display_message, ..old(self).snap().sensors },
                telemetry: final(self).snap().telemetry,
                ..old(self).snap()
            }),
            final(self).snap().sensors.display_message@ == "DISPLAY TEST: placeholder frame rendered"@,
            untimed(final(self).snap().telemetry@) == ring_push(
                untimed(old(self).snap().telemetry@),
                ("info"@, "display"@, "test_frame"@, "SSD1306 placeholder test frame requested"@),
                BENCH_TELEMETRY_LIMIT as nat,
            ),
    {
        self.transition(HarnessState::TestDisplay);
        self.set_display_message("DISPLAY TEST: placeholder frame rendered");
        self.log("info", "display", "test_frame", "SSD1306 placeholder test frame requested");
    }

    /// The microphone placeholder stage.
    pub fn run_audio_in_stage(&mut self)
        requires
            old(self).wf(),
        ensures
            final(self).wf(),
            final(self).snap() == (BenchSnapshot {
                overview: overview_in(old(self).snap().overview, HarnessState::TestAudioInPlaceholder, final(self).snap().overview.updated_at),
                telemetry: final(self).snap().telemetry,
                ..old(self).snap()
            }),
            untimed(final(self).snap().telemetry@) == ring_push(
                untimed(old(self).snap().telemetry@),
                (
                    "warn"@,
                    "audio_in"@,
                    "placeholder_ready"@,
                    "I2S microphone path reserved but no capture stream is connected yet"@,
                ),
                BENCH_TELEMETRY_LIMIT as nat,
            ),
    {
        self.transition(HarnessState::TestAudioInPlaceholder);
        self.log(
            "warn",
            "audio_in",
            "placeholder_ready",
            "I2S microphone path reserved but no capture stream is connected yet",
        );
    }

    /// The speaker placeholder stage.
    pub fn run_audio_out_stage(&mut self)
        requires
            old(self).wf(),
        ensures
            final(self).wf(),
            final(self).snap() == (BenchSnapshot {
                overview: overview_in(old(self).snap().overview, HarnessState::TestAudioOutPlaceholder, final(self).snap().overview.updated_at),
                telemetry: final(self).snap().telemetry,
                ..old(self).snap()
            }),
            untimed(final(self).snap().telemetry@) == ring_push(
                untimed(old(self).snap().telemetry@),
                (
                    "warn"@,
                    "audio_out"@,
                    "placeholder_ready"@,
                    "I2S speaker path reserved but no playback stream is connected yet"@,
                ),
                BENCH_TELEMETRY_LIMIT as nat,
            ),
    {
        self.transition(HarnessState::TestAudioOutPlaceholder);
        self.log(
            "warn",
            "audio_out",
            "placeholder_ready",
            "I2S speaker path reserved but no playback stream is connected yet",
        );
    }

    /// The start of the motor stage; its steps follow.
    pub fn begin_motor_stage(&mut self)
        requires
            old(self).wf(),
        ensures
            final(self).wf(),
            final(self).snap() == (BenchSnapshot {
                overview: overview_in(old(self).snap().overview, HarnessState::TestMotor, final(self).snap().overview.updated_at),
                telemetry: final(self).snap().telemetry,
                ..old(self).snap()
            }),
            untimed(final(self).snap().telemetry@) == ring_push(
                untimed(old(self).snap().telemetry@),
                ("info"@, "motor"@, "test_begin"@, "running deterministic forward/backward/turn sequence"@),
                BENCH_TELEMETRY_LIMIT as nat,
            ),
    {
        self.transition(HarnessState::TestMotor);
        self.log("info", "motor", "test_begin", "running deterministic forward/backward/turn sequence");
    }
}

/// The stages a bench test runs: the full harness runs touch, display,
/// motor, microphone and speaker in that order; any other test runs itself.
pub open spec fn stages_of(test: TestKind) -> Seq<TestKind> {
    if test == TestKind::FullHarness {
        seq![TestKind::Touch, TestKind::Display, TestKind::Motor, TestKind::AudioIn, TestKind::AudioOut]
    } else {
        seq![test]
    }
}

/// A single test runs just itself; the full harness runs every other test
/// exactly once, starting with the touch test, and never itself.
pub proof fn lemma_stages(test: TestKind, other: TestKind)
    ensures
        test != TestKind::FullHarness ==> stages_of(test) == seq![test],
        stages_of(TestKind::FullHarness).len() == 5,
        stages_of(TestKind::FullHarness)[0] == TestKind::Touch,
        !stages_of(TestKind::FullHarness).contains(TestKind::FullHarness),
        other != TestKind::FullHarness ==> stages_of(TestKind::FullHarness).contains(other),
{
    let f = stages_of(TestKind::FullHarness);
    if other != TestKind::FullHarness {
        if other == TestKind::Touch {
            assert(f[0] == other);
        } else if other == TestKind::Display {
            assert(f[1] == other);
        } else if other == TestKind::Motor {
            assert(f[2] == other);
        } else if other == TestKind::AudioIn {
            assert(f[3] == other);
        } else {
            assert(f[4] == other);
        }
    }
}

pub fn test_stages(test: TestKind) -> (stages: Vec<TestKind>)
    ensures
        stages@ == stages_of(test),
{
    let mut v = Vec::new();
    if test == TestKind::FullHarness {
        v.push(TestKind::Touch);
        v.push(TestKind::Display);
        v.push(TestKind::Motor);
        v.push(TestKind::AudioIn);
        v.push(TestKind::AudioOut);
    } else {
        v.push(test);
    }
    assert(v@ =~= stages_of(test));
    v
}

/// The bench motor stage's steps and the detail each active step is logged
/// with.
pub open spec fn bench_motor_plan() -> Seq<(MotionCommand, Seq<char>)> {
    seq![
        (MotionCommand::Forward, "forward step"@),
        (MotionCommand::Backward, "backward step"@),
        (MotionCommand::TurnLeft, "turn_left step"@),
        (MotionCommand::TurnRight, "turn_right step"@),
    ]
}

pub fn bench_motor_steps() -> (steps: Vec<(MotionCommand, &'static str)>)
    ensures
        steps@.len() == bench_motor_plan().len(),
        forall|i: int| 0 <= i < steps@.len() ==> ((#[trigger] steps@[i]).0, steps@[i].1@) == bench_motor_plan()[i],
{
    let mut v = Vec::new();
    v.push((MotionCommand::Forward, "forward step"));
    v.push((MotionCommand::Backward, "backward step"));
    v.push((MotionCommand::TurnLeft, "turn_left step"));
    v.push((MotionCommand::TurnRight, "turn_right step"));
    v
}

/// A call on the bench runtime as it bears on its tests: a start, a finish,
/// or any other method (each of which leaves the tests as they are).
pub enum BenchCall {
    Begin(TestKind),
    Finish(TestKind),
    Other,
}

/// Whether a start is granted, and the tests after it.
pub open spec fn begin_outcome(t: BenchTests, test: TestKind) -> (bool, BenchTests) {
    if t.running is None {
        (true, BenchTests { running: Some(test), ..t })
    } else {
        (false, t)
    }
}

/// The tests after one call.
pub open spec fn tests_step(t: BenchTests, c: BenchCall) -> BenchTests {
    match c {
        BenchCall::Begin(test) => begin_outcome(t, test).1,
        BenchCall::Finish(test) => BenchTests { running: None, last_completed: Some(test) },
        BenchCall::Other => t,
    }
}

/// The tests after a sequence of calls.
pub open spec fn tests_after(t: BenchTests, calls: Seq<BenchCall>) -> BenchTests
    decreases calls.len(),
{
    if calls.len() == 0 {
        t
    } else {
        tests_step(tests_after(t, calls.drop_last()), calls.last())
    }
}

/// The call at `i` is a start, and it is granted.
pub open spec fn start_granted(t: BenchTests, calls: Seq<BenchCall>, i: int) -> bool {
    &&& calls[i] is Begin
    &&& tests_after(t, calls.take(i)).running is None
}

proof fn lemma_running_until_finish(t: BenchTests, calls: Seq<BenchCall>, i: int, k: int)
    requires
        0 <= i < k <= calls.len(),
        start_granted(t, calls, i),
        forall|m: int| i < m < k ==> !(#[trigger] calls[m] is Finish),
    ensures
        tests_after(t, calls.take(k)).running is Some,
    decreases k - i,
{
    assert(calls.take(k).drop_last() =~= calls.take(k - 1));
    assert(calls.take(k).last() == calls[k - 1]);
    if k > i + 1 {
        lemma_running_until_finish(t, calls, i, k - 1);
        assert(!(calls[k - 1] is Finish));
    }
}

/// At most one bench test runs at a time: once a start is granted, every
/// later start is refused until a finish comes. (Each call runs under the
/// panel's lock, so concurrent requests are some sequence of calls.)
pub proof fn lemma_one_test_at_a_time(t: BenchTests, calls: Seq<BenchCall>, i: int, j: int)
    requires
        0 <= i < j < calls.len(),
        start_granted(t, calls, i),
        forall|m: int| i < m < j ==> !(#[trigger] calls[m] is Finish),
    ensures
        !start_granted(t, calls, j),
{
    lemma_running_until_finish(t, calls, i, j);
}

} // verus!
