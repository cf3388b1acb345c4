use vstd::prelude::*;

use crate::model::{MotionCommand, MotorGpioState};

verus! {

/// Levels the H-bridge driver puts on IN1..IN4 for a motion command:
/// left motor on IN1/IN2, right motor on IN3/IN4. Stop, and an arcade
/// request (which has no digital pattern), release every input.
pub open spec fn hbridge_pattern(c: MotionCommand) -> MotorGpioState {
    match c {
        MotionCommand::Forward => MotorGpioState { in1: true, in2: false, in3: true, in4: false },
        MotionCommand::Backward => MotorGpioState { in1: false, in2: true, in3: false, in4: true },
        MotionCommand::TurnLeft => MotorGpioState { in1: false, in2: true, in3: true, in4: false },
        MotionCommand::TurnRight => MotorGpioState { in1: true, in2: false, in3: false, in4: true },
        _ => MotorGpioState { in1: false, in2: false, in3: false, in4: false },
    }
}

/// The levels the motor driver applies for `command` (`true` is high).
pub fn hbridge_levels(command: MotionCommand) -> (levels: MotorGpioState)
    ensures
        levels == hbridge_pattern(command),
{
    match command {
        MotionCommand::Stop => MotorGpioState { in1: false, in2: false, in3: false, in4: false },
        MotionCommand::Forward => MotorGpioState { in1: true, in2: false, in3: true, in4: false },
        MotionCommand::Backward => MotorGpioState { in1: false, in2: true, in3: false, in4: true },
        MotionCommand::TurnLeft => MotorGpioState { in1: false, in2: true, in3: true, in4: false },
        MotionCommand::TurnRight => MotorGpioState { in1: true, in2: false, in3: false, in4: true },
        MotionCommand::ArcadeDrive => MotorGpioState {
            in1: false,
            in2: false,
            in3: false,
            in4: false,
        },
    }
}

/// Which way one wheel turns.
#[derive(Debug, Clone, Copy, PartialEq, Eq, Structural)]
pub enum WheelDirection {
    Forward,
    Reverse,
    Idle,
}

/// The wheel directions a digital command asks for (left, right): full
/// forward, full reverse, or a spin in place.
pub open spec fn command_directions(c: MotionCommand) -> (WheelDirection, WheelDirection) {
    match c {
        MotionCommand::Forward => (WheelDirection::Forward, WheelDirection::Forward),
        MotionCommand::Backward => (WheelDirection::Reverse, WheelDirection::Reverse),
        MotionCommand::TurnLeft => (WheelDirection::Reverse, WheelDirection::Forward),
        MotionCommand::TurnRight => (WheelDirection::Forward, WheelDirection::Reverse),
        _ => (WheelDirection::Idle, WheelDirection::Idle),
    }
}

/// The two H-bridge inputs of one wheel for a direction.
pub open spec fn wheel_inputs(d: WheelDirection) -> (bool, bool) {
    match d {
        WheelDirection::Forward => (true, false),
        WheelDirection::Reverse => (false, true),
        WheelDirection::Idle => (false, false),
    }
}

pub fn direction_to_gpio(d: WheelDirection) -> (inputs: (bool, bool))
    ensures
        inputs == wheel_inputs(d),
{
    match d {
        WheelDirection::Forward => (true, false),
        WheelDirection::Reverse => (false, true),
        WheelDirection::Idle => (false, false),
    }
}

/// H-bridge inputs for a pair of wheel directions.
pub open spec fn directions_gpio(left: WheelDirection, right: WheelDirection) -> MotorGpioState {
    MotorGpioState {
        in1: wheel_inputs(left).0,
        in2: wheel_inputs(left).1,
        in3: wheel_inputs(right).0,
        in4: wheel_inputs(right).1,
    }
}

pub fn gpio_from_directions(left: WheelDirection, right: WheelDirection) -> (gpio: MotorGpioState)
    ensures
        gpio == directions_gpio(left, right),
{
    let (in1, in2) = direction_to_gpio(left);
    let (in3, in4) = direction_to_gpio(right);
    MotorGpioState { in1, in2, in3, in4 }
}

/// How an analog drive request compares with the dead zone: whether each
/// axis is inside it, whether the turn axis is the larger one, and the sign
/// of each axis.
#[derive(Debug, Clone, Copy)]
pub struct DriveSample {
    pub throttle_in_deadzone: bool,
    pub turn_in_deadzone: bool,
    pub turn_dominates: bool,
    pub turn_positive: bool,
    pub throttle_positive: bool,
}

/// The digital command an analog drive request maps to: stop inside the
/// dead zone, otherwise turn or drive along the dominant axis.
pub open spec fn drive_command(s: DriveSample) -> MotionCommand {
    if s.throttle_in_deadzone && s.turn_in_deadzone {
        MotionCommand::Stop
    } else if s.turn_dominates {
        if s.turn_positive {
            MotionCommand::TurnRight
        } else {
            MotionCommand::TurnLeft
        }
    } else if s.throttle_positive {
        MotionCommand::Forward
    } else {
        MotionCommand::Backward
    }
}

pub fn effective_motion_command(sample: DriveSample) -> (command: MotionCommand)
    ensures
        command == drive_command(sample),
{
    if sample.throttle_in_deadzone && sample.turn_in_deadzone {
        MotionCommand::Stop
    } else if sample.turn_dominates {
        if sample.turn_positive {
            MotionCommand::TurnRight
        } else {
            MotionCommand::TurnLeft
        }
    } else if sample.throttle_positive {
        MotionCommand::Forward
    } else {
        MotionCommand::Backward
    }
}

/// A drive request never maps to the arcade pseudo-command.
pub proof fn lemma_drive_command_is_digital(s: DriveSample)
    ensures
        drive_command(s) != MotionCommand::ArcadeDrive,
{
}

/// The mirror image of a command: left and right swapped.
pub open spec fn mirrored(c: MotionCommand) -> MotionCommand {
    match c {
        MotionCommand::TurnLeft => MotionCommand::TurnRight,
        MotionCommand::TurnRight => MotionCommand::TurnLeft,
        _ => c,
    }
}

/// The command driven the other way: forward and backward swapped.
pub open spec fn reversed(c: MotionCommand) -> MotionCommand {
    match c {
        MotionCommand::Forward => MotionCommand::Backward,
        MotionCommand::Backward => MotionCommand::Forward,
        _ => c,
    }
}

/// How a drive request maps to a command. It stops exactly when both axes
/// are in the dead zone. Otherwise a dominant turn turns towards the turn's
/// sign (right when positive), and a dominant throttle drives towards the
/// throttle's sign (forward when positive). Turning the stick the other way
/// mirrors the command; pushing it the other way reverses it.
pub proof fn lemma_drive_mapping(s: DriveSample)
    ensures
        (drive_command(s) == MotionCommand::Stop) <==> (s.throttle_in_deadzone && s.turn_in_deadzone),
        !(s.throttle_in_deadzone && s.turn_in_deadzone) && s.turn_dominates ==> drive_command(s) == if s.turn_positive {
            MotionCommand::TurnRight
        } else {
            MotionCommand::TurnLeft
        },
        !(s.throttle_in_deadzone && s.turn_in_deadzone) && !s.turn_dominates ==> drive_command(s) == if s.throttle_positive {
            MotionCommand::Forward
        } else {
            MotionCommand::Backward
        },
        drive_command(DriveSample { turn_positive: !s.turn_positive, ..s }) == mirrored(drive_command(s)),
        drive_command(DriveSample { throttle_positive: !s.throttle_positive, ..s }) == reversed(drive_command(s)),
{
}

/// The left wheel (IN1/IN2) is driven forward.
pub open spec fn left_forward(g: MotorGpioState) -> bool {
    g.in1 && !g.in2
}

/// The left wheel is driven in reverse.
pub open spec fn left_reverse(g: MotorGpioState) -> bool {
    !g.in1 && g.in2
}

/// The right wheel (IN3/IN4) is driven forward.
pub open spec fn right_forward(g: MotorGpioState) -> bool {
    g.in3 && !g.in4
}

/// The right wheel is driven in reverse.
pub open spec fn right_reverse(g: MotorGpioState) -> bool {
    !g.in3 && g.in4
}

/// What each command does to the wheels: forward drives both wheels
/// forward, backward both in reverse, a left turn spins the left wheel back
/// and the right one forward, a right turn the other way round, and stop or
/// a bare arcade request releases every input. No wheel ever has both of its
/// inputs high.
pub proof fn lemma_hbridge_wheels(c: MotionCommand)
    ensures
        !(hbridge_pattern(c).in1 && hbridge_pattern(c).in2),
        !(hbridge_pattern(c).in3 && hbridge_pattern(c).in4),
        c == MotionCommand::Forward ==> left_forward(hbridge_pattern(c)) && right_forward(hbridge_pattern(c)),
        c == MotionCommand::Backward ==> left_reverse(hbridge_pattern(c)) && right_reverse(hbridge_pattern(c)),
        c == MotionCommand::TurnLeft ==> left_reverse(hbridge_pattern(c)) && right_forward(hbridge_pattern(c)),
        c == MotionCommand::TurnRight ==> left_forward(hbridge_pattern(c)) && right_reverse(hbridge_pattern(c)),
        (c == MotionCommand::Stop || c == MotionCommand::ArcadeDrive) ==> hbridge_pattern(c) == (MotorGpioState {
            in1: false,
            in2: false,
            in3: false,
            in4: false,
        }),
{
}

} // verus!
