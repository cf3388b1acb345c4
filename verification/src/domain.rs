use vstd::prelude::*;

verus! {

/// Coarse operating mode reported by the robot.
#[derive(Debug, Clone, Copy, PartialEq, Eq, Structural)]
pub enum RobotMode {
    Booting,
    Idle,
    Diagnostics,
    Faulted,
}

/// Name of a robot mode as it appears in telemetry.
pub open spec fn robot_mode_name(mode: RobotMode) -> Seq<char> {
    match mode {
        RobotMode::Booting => "booting"@,
        RobotMode::Idle => "idle"@,
        RobotMode::Diagnostics => "diagnostics"@,
        RobotMode::Faulted => "faulted"@,
    }
}

impl RobotMode {
    pub fn as_str(self) -> (name: &'static str)
        ensures
            name@ == robot_mode_name(self),
    {
        match self {
            RobotMode::Booting => "booting",
            RobotMode::Idle => "idle",
            RobotMode::Diagnostics => "diagnostics",
            RobotMode::Faulted => "faulted",
        }
    }
}

/// Facial expression the robot shows.
#[derive(Debug, Clone, Copy, PartialEq, Eq, Structural)]
pub enum RobotEmotion {
    Neutral,
    Focused,
    Curious,
    Alert,
}

/// Name of an emotion as it appears in telemetry.
pub open spec fn robot_emotion_name(emotion: RobotEmotion) -> Seq<char> {
    match emotion {
        RobotEmotion::Neutral => "neutral"@,
        RobotEmotion::Focused => "focused"@,
        RobotEmotion::Curious => "curious"@,
        RobotEmotion::Alert => "alert"@,
    }
}

impl RobotEmotion {
    pub fn as_str(self) -> (name: &'static str)
        ensures
            name@ == robot_emotion_name(self),
    {
        match self {
            RobotEmotion::Neutral => "neutral",
            RobotEmotion::Focused => "focused",
            RobotEmotion::Curious => "curious",
            RobotEmotion::Alert => "alert",
        }
    }
}

/// Whether a fault happened while bringing the hardware up or while running.
#[derive(Debug, Clone, Copy, PartialEq, Eq, Structural)]
pub enum FaultKind {
    Initialization,
    Runtime,
}

pub open spec fn fault_kind_name(kind: FaultKind) -> Seq<char> {
    match kind {
        FaultKind::Initialization => "initialization"@,
        FaultKind::Runtime => "runtime"@,
    }
}

impl FaultKind {
    pub fn as_str(self) -> (name: &'static str)
        ensures
            name@ == fault_kind_name(self),
    {
        match self {
            FaultKind::Initialization => "initialization",
            FaultKind::Runtime => "runtime",
        }
    }
}

/// A firmware fault: its kind and a human readable message.
#[derive(Debug)]
pub struct FirmwareFault {
    kind: FaultKind,
    message: String,
}

/// Abstract value of a fault.
pub struct FaultView {
    pub kind: FaultKind,
    pub message: Seq<char>,
}

impl View for FirmwareFault {
    type V = FaultView;

    closed spec fn view(&self) -> FaultView {
        FaultView { kind: self.kind, message: self.message@ }
    }
}

/// The text a fault renders to: `kind=<kind> message=<message>`.
pub open spec fn fault_text(fault: FaultView) -> Seq<char> {
    "kind="@ + fault_kind_name(fault.kind) + " message="@ + fault.message
}

impl FirmwareFault {
    pub fn initialization(message: String) -> (fault: Self)
        ensures
            fault@.kind == FaultKind::Initialization,
            fault@.message == message@,
    {
        FirmwareFault { kind: FaultKind::Initialization, message }
    }

    pub fn runtime(message: String) -> (fault: Self)
        ensures
            fault@.kind == FaultKind::Runtime,
            fault@.message == message@,
    {
        FirmwareFault { kind: FaultKind::Runtime, message }
    }

    pub fn kind(&self) -> (kind: FaultKind)
        ensures
            kind == self@.kind,
    {
        self.kind
    }

    pub fn message(&self) -> (message: &str)
        ensures
            message@ == self@.message,
    {
        self.message.as_str()
    }

    /// Renders the fault as `kind=<kind> message=<message>`.
    pub fn to_string(&self) -> (text: String)
        ensures
            text@ == fault_text(self@),
    {
        let mut text = String::from_str("kind=");
        text.append(self.kind.as_str());
        text.append(" message=");
        text.append(self.message.as_str());
        text
    }

    pub fn clone(&self) -> (copy: Self)
        ensures
            copy@ == self@,
    {
        FirmwareFault { kind: self.kind, message: self.message.clone() }
    }
}

} // verus!
