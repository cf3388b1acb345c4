use vstd::prelude::*;

use crate::domain::{
    robot_emotion_name, robot_mode_name, FirmwareFault, RobotEmotion, RobotMode,
};
use crate::model::{
    control_source_name, motion_command_name, test_label, ControlSource, MotionCommand,
    SystemAction, TestExecutionState, TestKind,
};
use crate::state::{emotion_for, harness_state_name, mode_for, AppState, HarnessState};
use crate::store::PendingPanelCommand;
use crate::text::{bool_str, bool_text};
use crate::touch::TouchSnapshot;
use crate::ports::{port_call_for, PortCall};
use crate::events::AppEvent;
use crate::bench::{stages_of, test_stages};

verus! {

/// `from=<prev> to=<next> mode=<mode> emotion=<emotion>`.
pub open spec fn transition_text(
    previous: HarnessState,
    next: HarnessState,
    mode: RobotMode,
    emotion: RobotEmotion,
) -> Seq<char> {
    "from="@ + harness_state_name(previous) + " to="@ + harness_state_name(next) + " mode="@
        + robot_mode_name(mode) + " emotion="@ + robot_emotion_name(emotion)
}

pub fn transition_detail(
    previous: HarnessState,
    next: HarnessState,
    mode: RobotMode,
    emotion: RobotEmotion,
) -> (detail: String)
    ensures
        detail@ == transition_text(previous, next, mode, emotion),
{
    let mut d = String::from_str("from=");
    d.append(previous.as_str());
    d.append(" to=");
    d.append(next.as_str());
    d.append(" mode=");
    d.append(mode.as_str());
    d.append(" emotion=");
    d.append(emotion.as_str());
    d
}

/// Moves the harness to `next` and returns the detail the transition is
/// logged with: the previous state, the new one and its mode and emotion.
pub fn transition(state: &mut AppState, next: HarnessState) -> (detail: String)
    ensures
        final(state)@.harness_state == next,
        final(state)@.consistent(),
        final(state)@.last_heartbeat_ms == old(state)@.last_heartbeat_ms,
        final(state)@.last_fault == old(state)@.last_fault,
        detail@ == transition_text(old(state)@.harness_state, next, mode_for(next), emotion_for(next)),
{
    let previous = state.harness_state();
    state.transition_to(next);
    transition_detail(previous, next, state.robot_mode(), state.emotion())
}

/// What the orchestrator does for a queued panel command.
#[derive(Debug, Clone, Copy, PartialEq, Eq, Structural)]
pub enum PanelTask {
    Inspection,
    Test(TestKind),
    Motion(MotionCommand, ControlSource),
    ResetIdle,
}

/// Emergency stop is a stop on behalf of safety; reset returns to idle.
pub open spec fn task_for(c: PendingPanelCommand) -> PanelTask {
    match c {
        PendingPanelCommand::RunInspection => PanelTask::Inspection,
        PendingPanelCommand::RunTest(t) => PanelTask::Test(t),
        PendingPanelCommand::Motion(m, s) => PanelTask::Motion(m, s),
        PendingPanelCommand::System(SystemAction::EmergencyStop) => PanelTask::Motion(
            MotionCommand::Stop,
            ControlSource::Safety,
        ),
        PendingPanelCommand::System(SystemAction::ResetIdle) => PanelTask::ResetIdle,
    }
}

pub fn panel_task(command: PendingPanelCommand) -> (task: PanelTask)
    ensures
        task == task_for(command),
{
    match command {
        PendingPanelCommand::RunInspection => PanelTask::Inspection,
        PendingPanelCommand::RunTest(t) => PanelTask::Test(t),
        PendingPanelCommand::Motion(m, s) => PanelTask::Motion(m, s),
        PendingPanelCommand::System(SystemAction::EmergencyStop) => PanelTask::Motion(
            MotionCommand::Stop,
            ControlSource::Safety,
        ),
        PendingPanelCommand::System(SystemAction::ResetIdle) => PanelTask::ResetIdle,
    }
}

/// A motion request is carried out unless it moves while motion is
/// locked; a stop is never refused.
pub open spec fn motion_refused(command: MotionCommand, block: Option<Seq<char>>) -> bool {
    command != MotionCommand::Stop && block is Some
}

/// Decides a remote motion command: `None` to carry it out, or the detail
/// of the warning logged when it is refused (`command=<c> reason=<r>`).
pub fn motion_gate(command: MotionCommand, block: Option<String>) -> (refusal: Option<String>)
    ensures
        refusal is Some == motion_refused(command, crate::model::opt_text(block)),
        refusal is Some ==> refusal->0@ == "command="@ + motion_command_name(command) + " reason="@
            + block->0@,
{
    if command != MotionCommand::Stop {
        if let Some(reason) = block {
            let mut d = String::from_str("command=");
            d.append(command.as_str());
            d.append(" reason=");
            d.append(reason.as_str());
            return Some(d);
        }
    }
    None
}

/// Decides an arcade request mapped to `effective`; `drive_text` is its
/// `throttle=<t> turn=<t>` part. `None` to carry it out, or the refusal's
/// detail.
pub fn drive_gate(effective: MotionCommand, drive_text: &str, block: Option<String>) -> (refusal:
    Option<String>)
    ensures
        refusal is Some == motion_refused(effective, crate::model::opt_text(block)),
        refusal is Some ==> refusal->0@ == "effective_command="@ + motion_command_name(effective)
            + " "@ + drive_text@ + " reason="@ + block->0@,
{
    if effective != MotionCommand::Stop {
        if let Some(reason) = block {
            let mut d = String::from_str("effective_command=");
            d.append(effective.as_str());
            d.append(" ");
            d.append(drive_text);
            d.append(" reason=");
            d.append(reason.as_str());
            return Some(d);
        }
    }
    None
}

/// A stop is never refused; any other motion is refused exactly when motion
/// is locked.
pub proof fn lemma_stop_never_refused(command: MotionCommand, block: Option<Seq<char>>)
    ensures
        !motion_refused(MotionCommand::Stop, block),
        command != MotionCommand::Stop ==> (motion_refused(command, block) <==> block is Some),
{
}

/// Queued panel commands become tasks as they are: a test runs that test, a
/// motion request moves with its source, an emergency stop is a stop on
/// behalf of safety, and a reset returns to idle.
pub proof fn lemma_panel_tasks(t: TestKind, m: MotionCommand, src: ControlSource)
    ensures
        task_for(PendingPanelCommand::RunInspection) == PanelTask::Inspection,
        task_for(PendingPanelCommand::RunTest(t)) == PanelTask::Test(t),
        task_for(PendingPanelCommand::Motion(m, src)) == PanelTask::Motion(m, src),
        task_for(PendingPanelCommand::System(SystemAction::EmergencyStop)) == PanelTask::Motion(
            MotionCommand::Stop,
            ControlSource::Safety,
        ),
        task_for(PendingPanelCommand::System(SystemAction::ResetIdle)) == PanelTask::ResetIdle,
{
}

/// `command=<c> source=<s>`: how an applied panel command is logged.
pub fn motion_applied_detail(command: MotionCommand, source: ControlSource) -> (d: String)
    ensures
        d@ == "command="@ + motion_command_name(command) + " source="@ + control_source_name(source),
{
    let mut d = String::from_str("command=");
    d.append(command.as_str());
    d.append(" source=");
    d.append(source.as_str());
    d
}

/// `panel motion command=<c> source=<s>`: how the panel records it.
pub fn panel_motion_detail(command: MotionCommand, source: ControlSource) -> (d: String)
    ensures
        d@ == "panel motion command="@ + motion_command_name(command) + " source="@
            + control_source_name(source),
{
    let mut d = String::from_str("panel motion command=");
    d.append(command.as_str());
    d.append(" source=");
    d.append(source.as_str());
    d
}

/// How an applied arcade request is recorded.
pub fn arcade_mapped_detail(effective: MotionCommand, drive_text: &str) -> (d: String)
    ensures
        d@ == "arcade request mapped to digital command="@ + motion_command_name(effective) + " "@
            + drive_text@,
{
    let mut d = String::from_str("arcade request mapped to digital command=");
    d.append(effective.as_str());
    d.append(" ");
    d.append(drive_text);
    d
}

/// Polls in the guided touch test: a 10 s window sampled every 100 ms.
pub const TOUCH_TEST_POLLS: u32 = 100;

/// Delay between two polls of the guided touch test, in milliseconds.
pub const TOUCH_TEST_POLL_MS: u32 = 100;

/// The guided touch test: the operator must touch both inputs within the
/// window.
pub struct TouchWindow {
    pet_seen: bool,
    record_seen: bool,
    polls: u32,
    samples: Ghost<Seq<TouchSnapshot>>,
}

/// Some sample had the pet input high.
pub open spec fn pet_seen_in(samples: Seq<TouchSnapshot>) -> bool {
    exists|i: int| 0 <= i < samples.len() && (#[trigger] samples[i]).pet
}

/// Some sample had the record input high.
pub open spec fn record_seen_in(samples: Seq<TouchSnapshot>) -> bool {
    exists|i: int| 0 <= i < samples.len() && (#[trigger] samples[i]).record
}

impl TouchWindow {
    /// The samples taken so far.
    pub closed spec fn samples(&self) -> Seq<TouchSnapshot> {
        self.samples@
    }

    pub closed spec fn wf(&self) -> bool {
        &&& self.polls as int == self.samples@.len()
        &&& self.polls <= TOUCH_TEST_POLLS
        &&& self.pet_seen == pet_seen_in(self.samples@)
        &&& self.record_seen == record_seen_in(self.samples@)
    }

    pub fn new() -> (w: Self)
        ensures
            w.wf(),
            w.samples() == Seq::<TouchSnapshot>::empty(),
    {
        TouchWindow { pet_seen: false, record_seen: false, polls: 0, samples: Ghost(Seq::empty()) }
    }

    /// Records one sample; returns whether both inputs have now been seen.
    pub fn observe(&mut self, sample: TouchSnapshot) -> (both_seen: bool)
        requires
            old(self).wf(),
            old(self).samples().len() < TOUCH_TEST_POLLS,
        ensures
            final(self).wf(),
            final(self).samples() == old(self).samples().push(sample),
            both_seen == (pet_seen_in(final(self).samples()) && record_seen_in(final(self).samples())),
    {
        let ghost before = self.samples@;
        self.pet_seen = self.pet_seen || sample.pet;
        self.record_seen = self.record_seen || sample.record;
        self.polls = self.polls + 1;
        self.samples = Ghost(before.push(sample));
        proof {
            let after = before.push(sample);
            assert(after[after.len() - 1] == sample);
            if pet_seen_in(before) {
                let i = choose|i: int| 0 <= i < before.len() && (#[trigger] before[i]).pet;
                assert(after[i] == before[i]);
            }
            if record_seen_in(before) {
                let i = choose|i: int| 0 <= i < before.len() && (#[trigger] before[i]).record;
                assert(after[i] == before[i]);
            }
            if pet_seen_in(after) && !sample.pet {
                let i = choose|i: int| 0 <= i < after.len() && (#[trigger] after[i]).pet;
                assert(before[i] == after[i]);
            }
            if record_seen_in(after) && !sample.record {
                let i = choose|i: int| 0 <= i < after.len() && (#[trigger] after[i]).record;
                assert(before[i] == after[i]);
            }
        }
        self.pet_seen && self.record_seen
    }

    /// Whether the window has run out of polls.
    pub fn exhausted(&self) -> (done: bool)
        requires
            self.wf(),
        ensures
            done == (self.samples().len() == TOUCH_TEST_POLLS),
    {
        self.polls == TOUCH_TEST_POLLS
    }

    /// The test passes when both inputs were seen high.
    pub fn passed(&self) -> (ok: bool)
        requires
            self.wf(),
        ensures
            ok == (pet_seen_in(self.samples()) && record_seen_in(self.samples())),
    {
        self.pet_seen && self.record_seen
    }

    /// `pet_seen=<b> record_seen=<b>`.
    pub fn detail(&self) -> (d: String)
        requires
            self.wf(),
        ensures
            d@ == "pet_seen="@ + bool_text(pet_seen_in(self.samples())) + " record_seen="@
                + bool_text(record_seen_in(self.samples())),
    {
        let mut d = String::from_str("pet_seen=");
        d.append(bool_str(self.pet_seen));
        d.append(" record_seen=");
        d.append(bool_str(self.record_seen));
        d
    }
}

pub const TOUCH_TEST_PASSED: &'static str = "Her iki dokunmatik giriş de test penceresi içinde algılandı";

pub const TOUCH_TEST_FAILED: &'static str = "10 saniye içinde her iki dokunmatik giriş doğrulanamadı";

/// The report of the guided touch test.
pub fn touch_test_verdict(passed: bool) -> (verdict: (TestExecutionState, &'static str))
    ensures
        passed ==> verdict.0 == TestExecutionState::Passed && verdict.1@ == TOUCH_TEST_PASSED@,
        !passed ==> verdict.0 == TestExecutionState::Failed && verdict.1@ == TOUCH_TEST_FAILED@,
{
    if passed {
        (TestExecutionState::Passed, TOUCH_TEST_PASSED)
    } else {
        (TestExecutionState::Failed, TOUCH_TEST_FAILED)
    }
}

pub const FULL_HARNESS_PASSED: &'static str = "Tüm adımlar planlandığı gibi tamamlandı";

pub const FULL_HARNESS_TOUCH_FAILED: &'static str = "Tam test bitti ancak dokunmatik doğrulama başarısız oldu";

pub const FULL_HARNESS_ERROR_PREFIX: &'static str = "Tam test çalışma zamanı hatası: ";

/// The report of the full harness run: it passes when every step ran and
/// the touch check passed; a step error fails it with the error text.
pub fn full_harness_verdict(outcome: Result<bool, String>) -> (verdict: (TestExecutionState, String))
    ensures
        verdict.0 == match outcome {
            Ok(true) => TestExecutionState::Passed,
            _ => TestExecutionState::Failed,
        },
        verdict.1@ == match outcome {
            Ok(true) => FULL_HARNESS_PASSED@,
            Ok(false) => FULL_HARNESS_TOUCH_FAILED@,
            Err(e) => FULL_HARNESS_ERROR_PREFIX@ + e@,
        },
{
    match outcome {
        Ok(true) => (TestExecutionState::Passed, String::from_str(FULL_HARNESS_PASSED)),
        Ok(false) => (TestExecutionState::Failed, String::from_str(FULL_HARNESS_TOUCH_FAILED)),
        Err(e) => {
            let mut d = String::from_str(FULL_HARNESS_ERROR_PREFIX);
            d.append(e.as_str());
            (TestExecutionState::Failed, d)
        },
    }
}

/// The detail a panel-started test fails with: `<label> çalışma zamanı
/// hatası: <error>`.
pub fn panel_test_failure_detail(test: TestKind, error: &str) -> (d: String)
    ensures
        d@ == test_label(test) + " çalışma zamanı hatası: "@ + error@,
{
    let mut d = String::from_str(test.label_tr());
    d.append(" çalışma zamanı hatası: ");
    d.append(error);
    d
}

/// The texts a panel-started test is announced and reported with.
pub open spec fn panel_test_texts(test: TestKind) -> (Seq<char>, Seq<char>) {
    match test {
        TestKind::Display => (
            "Panel üzerinden ekran testi başlatıldı"@,
            "OLED gülen yüz testi başarıyla tamamlandı"@,
        ),
        TestKind::Motor => (
            "Panel üzerinden motor testi başlatıldı"@,
            "Motor test dizisi başarıyla tamamlandı"@,
        ),
        TestKind::AudioIn => (
            "Panel üzerinden mikrofon hazırlık testi başlatıldı"@,
            "Mikrofon placeholder hazırlık testi başarılı"@,
        ),
        TestKind::AudioOut => (
            "Panel üzerinden hoparlör hazırlık testi başlatıldı"@,
            "Hoparlör placeholder hazırlık testi başarılı"@,
        ),
        TestKind::Touch => (
            "10 saniyelik dokunmatik doğrulama penceresi başlatıldı"@,
            TOUCH_TEST_PASSED@,
        ),
        TestKind::FullHarness => ("Tam test harnesi başlatıldı"@, FULL_HARNESS_PASSED@),
    }
}

/// Start and success texts of a panel-started test.
pub fn panel_test_messages(test: TestKind) -> (m: (&'static str, &'static str))
    ensures
        (m.0@, m.1@) == panel_test_texts(test),
{
    match test {
        TestKind::Display => (
            "Panel üzerinden ekran testi başlatıldı",
            "OLED gülen yüz testi başarıyla tamamlandı",
        ),
        TestKind::Motor => (
            "Panel üzerinden motor testi başlatıldı",
            "Motor test dizisi başarıyla tamamlandı",
        ),
        TestKind::AudioIn => (
            "Panel üzerinden mikrofon hazırlık testi başlatıldı",
            "Mikrofon placeholder hazırlık testi başarılı",
        ),
        TestKind::AudioOut => (
            "Panel üzerinden hoparlör hazırlık testi başlatıldı",
            "Hoparlör placeholder hazırlık testi başarılı",
        ),
        TestKind::Touch => ("10 saniyelik dokunmatik doğrulama penceresi başlatıldı", TOUCH_TEST_PASSED),
        TestKind::FullHarness => ("Tam test harnesi başlatıldı", FULL_HARNESS_PASSED),
    }
}

/// One step of the motor self-test.
#[derive(Debug, Clone, Copy)]
pub struct MotorStep {
    pub name: &'static str,
    pub command: MotionCommand,
}

/// The steps of the motor self-test, in order: forward, backward, left,
/// right.
pub open spec fn motor_plan() -> Seq<(Seq<char>, MotionCommand)> {
    seq![
        ("forward"@, MotionCommand::Forward),
        ("backward"@, MotionCommand::Backward),
        ("turn_left"@, MotionCommand::TurnLeft),
        ("turn_right"@, MotionCommand::TurnRight),
    ]
}

pub fn motor_test_steps() -> (steps: Vec<MotorStep>)
    ensures
        steps@.len() == motor_plan().len(),
        forall|i: int|
            0 <= i < steps@.len() ==> ((#[trigger] steps@[i]).name@, steps@[i].command)
                == motor_plan()[i],
{
    let mut v = Vec::new();
    v.push(MotorStep { name: "forward", command: MotionCommand::Forward });
    v.push(MotorStep { name: "backward", command: MotionCommand::Backward });
    v.push(MotorStep { name: "turn_left", command: MotionCommand::TurnLeft });
    v.push(MotorStep { name: "turn_right", command: MotionCommand::TurnRight });
    v
}

/// Where a motor action stands within its step.
#[derive(Debug, Clone, Copy, PartialEq, Eq, Structural)]
pub enum StepPhase {
    PreStop,
    Active,
    Completed,
}

pub open spec fn phase_text(p: StepPhase) -> Seq<char> {
    match p {
        StepPhase::PreStop => "pre-stop"@,
        StepPhase::Active => "active"@,
        StepPhase::Completed => "completed"@,
    }
}

impl StepPhase {
    pub fn as_str(self) -> (s: &'static str)
        ensures
            s@ == phase_text(self),
    {
        match self {
            StepPhase::PreStop => "pre-stop",
            StepPhase::Active => "active",
            StepPhase::Completed => "completed",
        }
    }
}

/// One motor action of the self-test: the step it belongs to, the command
/// the motors get and the phase of the step.
#[derive(Debug, Clone, Copy)]
pub struct MotorAction {
    pub step: &'static str,
    pub command: MotionCommand,
    pub phase: StepPhase,
}

/// The motor self-test as motor actions: each step of `motor_plan` is a
/// stop, the step's command, and another stop.
pub open spec fn motor_action_plan() -> Seq<(Seq<char>, MotionCommand, StepPhase)> {
    Seq::new(
        3 * motor_plan().len(),
        |k: int|
            if k % 3 == 0 {
                (motor_plan()[k / 3].0, MotionCommand::Stop, StepPhase::PreStop)
            } else if k % 3 == 1 {
                (motor_plan()[k / 3].0, motor_plan()[k / 3].1, StepPhase::Active)
            } else {
                (motor_plan()[k / 3].0, MotionCommand::Stop, StepPhase::Completed)
            },
    )
}

pub fn motor_test_actions() -> (actions: Vec<MotorAction>)
    ensures
        actions@.len() == motor_action_plan().len(),
        forall|k: int|
            0 <= k < actions@.len() ==> ((#[trigger] actions@[k]).step@, actions@[k].command, actions@[k].phase)
                == motor_action_plan()[k],
{
    let steps = motor_test_steps();
    let mut v: Vec<MotorAction> = Vec::new();
    let mut i: usize = 0;
    while i < steps.len()
        invariant
            steps@.len() == motor_plan().len(),
            forall|j: int|
                0 <= j < steps@.len() ==> ((#[trigger] steps@[j]).name@, steps@[j].command) == motor_plan()[j],
            i <= steps@.len(),
            v@.len() == 3 * i,
            forall|k: int|
                0 <= k < v@.len() ==> ((#[trigger] v@[k]).step@, v@[k].command, v@[k].phase)
                    == motor_action_plan()[k],
        decreases steps@.len() - i,
    {
        let step = steps[i];
        let ghost before = v@;
        v.push(MotorAction { step: step.name, command: MotionCommand::Stop, phase: StepPhase::PreStop });
        v.push(MotorAction { step: step.name, command: step.command, phase: StepPhase::Active });
        v.push(MotorAction { step: step.name, command: MotionCommand::Stop, phase: StepPhase::Completed });
        proof {
            let b = 3 * i as int;
            assert(b / 3 == i && b % 3 == 0);
            assert((b + 1) / 3 == i && (b + 1) % 3 == 1);
            assert((b + 2) / 3 == i && (b + 2) % 3 == 2);
            assert forall|k: int| 0 <= k < v@.len() implies ((#[trigger] v@[k]).step@, v@[k].command, v@[k].phase)
                == motor_action_plan()[k] by {
                if k < b {
                    assert(v@[k] == before[k]);
                }
            }
        }
        i = i + 1;
    }
    v
}

/// Every step of the motor self-test runs between two stops: a stop, the
/// step's command, then a stop, all under the step's name; the stops reach
/// the port's `stop` and the step's command a moving call.
pub proof fn lemma_motor_steps_bracketed(i: int)
    requires
        0 <= i < motor_plan().len(),
    ensures
        motor_action_plan().len() == 3 * motor_plan().len(),
        motor_action_plan()[3 * i] == (motor_plan()[i].0, MotionCommand::Stop, StepPhase::PreStop),
        motor_action_plan()[3 * i + 1] == (motor_plan()[i].0, motor_plan()[i].1, StepPhase::Active),
        motor_action_plan()[3 * i + 2] == (motor_plan()[i].0, MotionCommand::Stop, StepPhase::Completed),
        port_call_for(motor_action_plan()[3 * i].1) == PortCall::Stop,
        port_call_for(motor_action_plan()[3 * i + 1].1) != PortCall::Stop,
        port_call_for(motor_action_plan()[3 * i + 2].1) == PortCall::Stop,
{
    assert((3 * i) / 3 == i && (3 * i) % 3 == 0);
    assert((3 * i + 1) / 3 == i && (3 * i + 1) % 3 == 1);
    assert((3 * i + 2) / 3 == i && (3 * i + 2) % 3 == 2);
}

/// The tests a touch sample dispatches, in order: the pet input the display
/// test, then the record input the motor test.
pub open spec fn touch_plan(s: TouchSnapshot) -> Seq<TestKind> {
    (if s.pet {
        seq![TestKind::Display]
    } else {
        Seq::empty()
    }) + (if s.record {
        seq![TestKind::Motor]
    } else {
        Seq::empty()
    })
}

pub fn touch_dispatch(s: TouchSnapshot) -> (tests: Vec<TestKind>)
    ensures
        tests@ == touch_plan(s),
{
    let mut v = Vec::new();
    if s.pet {
        v.push(TestKind::Display);
    }
    if s.record {
        v.push(TestKind::Motor);
    }
    assert(v@ =~= touch_plan(s));
    v
}

/// What a touch sample dispatches: the display test exactly when the pet
/// input is high and the motor test exactly when the record input is high,
/// each at most once, whatever the other input; the display test first.
pub proof fn lemma_touch_dispatch(s: TouchSnapshot)
    ensures
        forall|t: TestKind|
            #![trigger touch_plan(s).contains(t)]
            touch_plan(s).contains(t) <==> ((t == TestKind::Display && s.pet) || (t == TestKind::Motor
                && s.record)),
        touch_plan(s).len() == (if s.pet {
            1int
        } else {
            0int
        }) + (if s.record {
            1int
        } else {
            0int
        }),
        s.pet ==> touch_plan(s)[0] == TestKind::Display,
{
    let p = touch_plan(s);
    assert forall|t: TestKind| #![trigger p.contains(t)]
        p.contains(t) <==> ((t == TestKind::Display && s.pet) || (t == TestKind::Motor && s.record)) by {
        if s.pet && s.record {
            assert(p =~= seq![TestKind::Display, TestKind::Motor]);
        } else if s.pet {
            assert(p =~= seq![TestKind::Display]);
        } else if s.record {
            assert(p =~= seq![TestKind::Motor]);
        } else {
            assert(p =~= Seq::<TestKind>::empty());
        }
        if (t == TestKind::Display && s.pet) {
            assert(p[0] == t);
        }
        if (t == TestKind::Motor && s.record) {
            assert(p[p.len() - 1] == t);
        }
    }
}

/// The event a touch-dispatched test is announced with, and the component
/// its gate logs under: the pet touch for the display test, the record
/// touch for the motor test.
pub fn touch_trigger(test: TestKind) -> (r: (AppEvent, &'static str))
    requires
        test == TestKind::Display || test == TestKind::Motor,
    ensures
        test == TestKind::Display ==> r.0 is PetTouchTriggered && r.1@ == "display"@,
        test == TestKind::Motor ==> r.0 is RecordTouchTriggered && r.1@ == "motor"@,
{
    if test == TestKind::Display {
        (AppEvent::PetTouchTriggered, "display")
    } else {
        (AppEvent::RecordTouchTriggered, "motor")
    }
}

/// The stages of the full harness run from the panel, in order: touch,
/// display, motor, microphone, speaker.
pub fn full_harness_stages() -> (stages: Vec<TestKind>)
    ensures
        stages@ == stages_of(TestKind::FullHarness),
{
    test_stages(TestKind::FullHarness)
}

/// `test step=<name> <phase>`: how the panel records a motor step.
pub fn step_note(step_name: &str, phase: &str) -> (d: String)
    ensures
        d@ == "test step="@ + step_name@ + " "@ + phase@,
{
    let mut d = String::from_str("test step=");
    d.append(step_name);
    d.append(" ");
    d.append(phase);
    d
}

pub const OLED_ANSWERED: &'static str = "OLED 0x3C adresi I2C probuna cevap verdi";

pub const OLED_SILENT: &'static str = "OLED 0x3C adresi I2C probuna cevap vermedi";

/// The result of an inspection scan: the OLED's pin detail and the summary
/// `Tarama tamamlandı: oled_present=<b> pet_level=<b> record_level=<b>`.
pub fn inspection_outcome(display_present: bool, touch: TouchSnapshot) -> (r: (&'static str, String))
    ensures
        r.0@ == if display_present {
            OLED_ANSWERED@
        } else {
            OLED_SILENT@
        },
        r.1@ == "Tarama tamamlandı: oled_present="@ + bool_text(display_present) + " pet_level="@
            + bool_text(touch.pet) + " record_level="@ + bool_text(touch.record),
{
    let detail = if display_present {
        OLED_ANSWERED
    } else {
        OLED_SILENT
    };
    let mut summary = String::from_str("Tarama tamamlandı: oled_present=");
    summary.append(bool_str(display_present));
    summary.append(" pet_level=");
    summary.append(bool_str(touch.pet));
    summary.append(" record_level=");
    summary.append(bool_str(touch.record));
    (detail, summary)
}

/// A runtime fault `<context>: <error>`.
pub fn runtime_fault(context: &str, error: &str) -> (f: FirmwareFault)
    ensures
        f@.kind == crate::domain::FaultKind::Runtime,
        f@.message == context@ + ": "@ + error@,
{
    let mut m = String::from_str(context);
    m.append(": ");
    m.append(error);
    FirmwareFault::runtime(m)
}

} // verus!
