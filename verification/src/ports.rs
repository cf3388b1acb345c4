use vstd::prelude::*;

use crate::model::MotionCommand;

verus! {

/// A method of the motor port.
#[derive(Debug, Clone, Copy, PartialEq, Eq, Structural)]
pub enum PortCall {
    Stop,
    Forward,
    Backward,
    TurnLeft,
    TurnRight,
}

/// The port method a command is carried out by. An arcade request is not a
/// digital command of its own: on its own it stops the motors.
pub open spec fn port_call_for(command: MotionCommand) -> PortCall {
    match command {
        MotionCommand::Stop | MotionCommand::ArcadeDrive => PortCall::Stop,
        MotionCommand::Forward => PortCall::Forward,
        MotionCommand::Backward => PortCall::Backward,
        MotionCommand::TurnLeft => PortCall::TurnLeft,
        MotionCommand::TurnRight => PortCall::TurnRight,
    }
}

pub fn port_call(command: MotionCommand) -> (c: PortCall)
    ensures
        c == port_call_for(command),
{
    match command {
        MotionCommand::Stop | MotionCommand::ArcadeDrive => PortCall::Stop,
        MotionCommand::Forward => PortCall::Forward,
        MotionCommand::Backward => PortCall::Backward,
        MotionCommand::TurnLeft => PortCall::TurnLeft,
        MotionCommand::TurnRight => PortCall::TurnRight,
    }
}

/// The two-motor drive.
pub trait MotionPort {
    fn stop(&mut self) -> Result<(), String>;

    fn forward(&mut self) -> Result<(), String>;

    fn backward(&mut self) -> Result<(), String>;

    fn turn_left(&mut self) -> Result<(), String>;

    fn turn_right(&mut self) -> Result<(), String>;

    /// Carries out a digital command through the port method `port_call`
    /// picks for it.
    fn apply_command(&mut self, command: MotionCommand) -> Result<(), String> {
        match port_call(command) {
            PortCall::Stop => self.stop(),
            PortCall::Forward => self.forward(),
            PortCall::Backward => self.backward(),
            PortCall::TurnLeft => self.turn_left(),
            PortCall::TurnRight => self.turn_right(),
        }
    }
}

/// The status display.
pub trait DisplayPort {
    fn show_status(&mut self, title: &str, detail: &str) -> Result<(), String>;

    fn run_test_frame(&mut self) -> Result<(), String>;
}

} // verus!
