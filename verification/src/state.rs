use vstd::prelude::*;

use crate::domain::{FaultView, FirmwareFault, RobotEmotion, RobotMode};

verus! {

/// The harness's position in its boot / idle / self-test cycle.
#[derive(Debug, Clone, Copy, PartialEq, Eq, Structural)]
pub enum HarnessState {
    Boot,
    Idle,
    TestTouch,
    TestMotor,
    TestDisplay,
    TestAudioInPlaceholder,
    TestAudioOutPlaceholder,
    Fault,
}

pub open spec fn harness_state_name(state: HarnessState) -> Seq<char> {
    match state {
        HarnessState::Boot => "boot"@,
        HarnessState::Idle => "idle"@,
        HarnessState::TestTouch => "test_touch"@,
        HarnessState::TestMotor => "test_motor"@,
        HarnessState::TestDisplay => "test_display"@,
        HarnessState::TestAudioInPlaceholder => "test_audio_in_placeholder"@,
        HarnessState::TestAudioOutPlaceholder => "test_audio_out_placeholder"@,
        HarnessState::Fault => "fault"@,
    }
}

/// The robot mode that accompanies each harness state.
pub open spec fn mode_for(state: HarnessState) -> RobotMode {
    match state {
        HarnessState::Boot => RobotMode::Booting,
        HarnessState::Idle => RobotMode::Idle,
        HarnessState::Fault => RobotMode::Faulted,
        _ => RobotMode::Diagnostics,
    }
}

/// The emotion the robot shows in each harness state.
pub open spec fn emotion_for(state: HarnessState) -> RobotEmotion {
    match state {
        HarnessState::Boot => RobotEmotion::Focused,
        HarnessState::Idle => RobotEmotion::Neutral,
        HarnessState::TestTouch => RobotEmotion::Curious,
        HarnessState::Fault => RobotEmotion::Alert,
        _ => RobotEmotion::Focused,
    }
}

impl HarnessState {
    pub fn as_str(self) -> (name: &'static str)
        ensures
            name@ == harness_state_name(self),
    {
        match self {
            HarnessState::Boot => "boot",
            HarnessState::Idle => "idle",
            HarnessState::TestTouch => "test_touch",
            HarnessState::TestMotor => "test_motor",
            HarnessState::TestDisplay => "test_display",
            HarnessState::TestAudioInPlaceholder => "test_audio_in_placeholder",
            HarnessState::TestAudioOutPlaceholder => "test_audio_out_placeholder",
            HarnessState::Fault => "fault",
        }
    }
}

/// Computes the robot mode for a harness state.
pub fn robot_mode_for(state: HarnessState) -> (mode: RobotMode)
    ensures
        mode == mode_for(state),
{
    match state {
        HarnessState::Boot => RobotMode::Booting,
        HarnessState::Idle => RobotMode::Idle,
        HarnessState::Fault => RobotMode::Faulted,
        HarnessState::TestTouch | HarnessState::TestMotor | HarnessState::TestDisplay
        | HarnessState::TestAudioInPlaceholder | HarnessState::TestAudioOutPlaceholder => {
            RobotMode::Diagnostics
        },
    }
}

/// Computes the emotion for a harness state.
pub fn robot_emotion_for(state: HarnessState) -> (emotion: RobotEmotion)
    ensures
        emotion == emotion_for(state),
{
    match state {
        HarnessState::Boot => RobotEmotion::Focused,
        HarnessState::Idle => RobotEmotion::Neutral,
        HarnessState::TestTouch => RobotEmotion::Curious,
        HarnessState::TestMotor | HarnessState::TestDisplay
        | HarnessState::TestAudioInPlaceholder | HarnessState::TestAudioOutPlaceholder => {
            RobotEmotion::Focused
        },
        HarnessState::Fault => RobotEmotion::Alert,
    }
}

/// The orchestrator's own state: where the harness is, the mode and emotion
/// that go with it, when the last heartbeat was logged (milliseconds on the
/// firmware's monotonic clock) and the last fault, if any.
pub struct AppState {
    harness_state: HarnessState,
    robot_mode: RobotMode,
    emotion: RobotEmotion,
    last_heartbeat_ms: u64,
    last_fault: Option<FirmwareFault>,
}

pub struct AppStateView {
    pub harness_state: HarnessState,
    pub robot_mode: RobotMode,
    pub emotion: RobotEmotion,
    pub last_heartbeat_ms: u64,
    pub last_fault: Option<FaultView>,
}

impl AppStateView {
    /// Mode and emotion are the ones that go with the harness state.
    pub open spec fn consistent(self) -> bool {
        &&& self.robot_mode == mode_for(self.harness_state)
        &&& self.emotion == emotion_for(self.harness_state)
    }
}

pub open spec fn fault_opt_view(fault: Option<FirmwareFault>) -> Option<FaultView> {
    match fault {
        Some(f) => Some(f@),
        None => None,
    }
}

impl View for AppState {
    type V = AppStateView;

    closed spec fn view(&self) -> AppStateView {
        AppStateView {
            harness_state: self.harness_state,
            robot_mode: self.robot_mode,
            emotion: self.emotion,
            last_heartbeat_ms: self.last_heartbeat_ms,
            last_fault: fault_opt_view(self.last_fault),
        }
    }
}

/// A call that changes the orchestrator's state.
pub enum AppCall {
    TransitionTo(HarnessState),
    SetFault(FaultView),
    MarkHeartbeat(u64),
}

/// The state after one call, as the calls' contracts give it.
pub open spec fn app_step(s: AppStateView, c: AppCall) -> AppStateView {
    match c {
        AppCall::TransitionTo(next) => AppStateView {
            harness_state: next,
            robot_mode: mode_for(next),
            emotion: emotion_for(next),
            ..s
        },
        AppCall::SetFault(f) => AppStateView {
            harness_state: HarnessState::Fault,
            robot_mode: RobotMode::Faulted,
            emotion: RobotEmotion::Alert,
            last_fault: Some(f),
            ..s
        },
        AppCall::MarkHeartbeat(now_ms) => AppStateView { last_heartbeat_ms: now_ms, ..s },
    }
}

/// The state after a sequence of calls, in order.
pub open spec fn app_after(s: AppStateView, calls: Seq<AppCall>) -> AppStateView
    decreases calls.len(),
{
    if calls.len() == 0 {
        s
    } else {
        app_step(app_after(s, calls.drop_last()), calls.last())
    }
}

/// Milliseconds elapsed from `since` to `now`; zero when the clock reading is
/// earlier than `since`.
pub open spec fn elapsed_ms(since: u64, now: u64) -> int {
    if now >= since {
        now - since
    } else {
        0
    }
}

impl AppState {
    /// A fresh state at boot; `now_ms` is the monotonic clock reading, which
    /// counts as the last heartbeat.
    pub fn new(now_ms: u64) -> (state: Self)
        ensures
            state@.harness_state == HarnessState::Boot,
            state@.robot_mode == RobotMode::Booting,
            state@.emotion == RobotEmotion::Focused,
            state@.last_heartbeat_ms == now_ms,
            state@.last_fault is None,
            state@.consistent(),
    {
        AppState {
            harness_state: HarnessState::Boot,
            robot_mode: RobotMode::Booting,
            emotion: RobotEmotion::Focused,
            last_heartbeat_ms: now_ms,
            last_fault: None,
        }
    }

    pub fn harness_state(&self) -> (state: HarnessState)
        ensures
            state == self@.harness_state,
    {
        self.harness_state
    }

    pub fn robot_mode(&self) -> (mode: RobotMode)
        ensures
            mode == self@.robot_mode,
    {
        self.robot_mode
    }

    pub fn emotion(&self) -> (emotion: RobotEmotion)
        ensures
            emotion == self@.emotion,
    {
        self.emotion
    }

    pub fn last_fault(&self) -> (fault: Option<&FirmwareFault>)
        ensures
            match fault {
                Some(f) => self@.last_fault == Some(f@),
                None => self@.last_fault is None,
            },
    {
        match &self.last_fault {
            Some(f) => Some(f),
            None => None,
        }
    }

    /// Moves to `next`, taking the mode and emotion that go with it.
    pub fn transition_to(&mut self, next: HarnessState)
        ensures
            final(self)@.harness_state == next,
            final(self)@.robot_mode == mode_for(next),
            final(self)@.emotion == emotion_for(next),
            final(self)@.last_heartbeat_ms == old(self)@.last_heartbeat_ms,
            final(self)@.last_fault == old(self)@.last_fault,
            final(self)@.consistent(),
            final(self)@ == app_step(old(self)@, AppCall::TransitionTo(next)),
    {
        self.harness_state = next;
        self.robot_mode = robot_mode_for(next);
        self.emotion = robot_emotion_for(next);
    }

    /// Whether at least `interval_ms` milliseconds have passed on the
    /// monotonic clock since the last heartbeat.
    pub fn heartbeat_due(&self, now_ms: u64, interval_ms: u64) -> (due: bool)
        ensures
            due == (elapsed_ms(self@.last_heartbeat_ms, now_ms) >= interval_ms),
    {
        let elapsed: u64 = if now_ms >= self.last_heartbeat_ms {
            now_ms - self.last_heartbeat_ms
        } else {
            0
        };
        elapsed >= interval_ms
    }

    /// Records a heartbeat at `now_ms`.
    pub fn mark_heartbeat(&mut self, now_ms: u64)
        ensures
            final(self)@.last_heartbeat_ms == now_ms,
            final(self)@.harness_state == old(self)@.harness_state,
            final(self)@.robot_mode == old(self)@.robot_mode,
            final(self)@.emotion == old(self)@.emotion,
            final(self)@.last_fault == old(self)@.last_fault,
            final(self)@ == app_step(old(self)@, AppCall::MarkHeartbeat(now_ms)),
    {
        self.last_heartbeat_ms = now_ms;
    }

    /// Remembers `fault` and enters the fault state.
    pub fn set_fault(&mut self, fault: FirmwareFault)
        ensures
            final(self)@.last_fault == Some(fault@),
            final(self)@.harness_state == HarnessState::Fault,
            final(self)@.robot_mode == RobotMode::Faulted,
            final(self)@.emotion == RobotEmotion::Alert,
            final(self)@.last_heartbeat_ms == old(self)@.last_heartbeat_ms,
            final(self)@.consistent(),
            final(self)@ == app_step(old(self)@, AppCall::SetFault(fault@)),
    {
        self.last_fault = Some(fault);
        self.transition_to(HarnessState::Fault);
    }
}

/// Whatever calls are made from a consistent state (the boot state is one:
/// see `AppState::new`), the robot's mode and emotion stay the ones that go
/// with its harness state: faulted and alert exactly in the fault state,
/// curious exactly in the touch test, in diagnostics exactly in a test state.
pub proof fn lemma_state_stays_consistent(s: AppStateView, calls: Seq<AppCall>)
    requires
        s.consistent(),
    ensures
        app_after(s, calls).consistent(),
        ({
            let t = app_after(s, calls);
            &&& (t.harness_state == HarnessState::Fault) == (t.robot_mode == RobotMode::Faulted)
            &&& (t.harness_state == HarnessState::Fault) == (t.emotion == RobotEmotion::Alert)
            &&& (t.harness_state == HarnessState::TestTouch) == (t.emotion == RobotEmotion::Curious)
            &&& (t.robot_mode == RobotMode::Diagnostics) == (t.harness_state == HarnessState::TestTouch
                || t.harness_state == HarnessState::TestMotor || t.harness_state == HarnessState::TestDisplay
                || t.harness_state == HarnessState::TestAudioInPlaceholder
                || t.harness_state == HarnessState::TestAudioOutPlaceholder)
        }),
    decreases calls.len(),
{
    if calls.len() > 0 {
        lemma_state_stays_consistent(s, calls.drop_last());
    }
}

/// A heartbeat is due right after one was marked only for a zero interval,
/// and once due it stays due as the clock moves on.
pub proof fn lemma_heartbeat_schedule(last: u64, now: u64, later: u64, interval: u64)
    ensures
        (elapsed_ms(now, now) >= interval) <==> interval == 0,
        now <= later && now >= last && elapsed_ms(last, now) >= interval
            ==> elapsed_ms(last, later) >= interval,
{
}

} // verus!
