//! The robot side: two motors that form a differential drive, and the
//! dispatch of command bytes to them.
//!
//! A motor is driven through two direction pins and one enable pin that
//! carries a PWM signal. This module keeps what the pins are meant to show:
//! the direction of each motor and the duty cycle. The firmware around it
//! mirrors that state onto the hardware, whatever the hardware is.
//!
//! The drive steers by direction alone. Both motors always run at one common
//! duty cycle.

use vstd::prelude::*;
use crate::command::{data_of, Command};

verus! {

/// Which way a motor is meant to turn.
#[derive(Clone, Copy, Debug, PartialEq, Eq, Structural)]
pub enum Direction {
    Forward,
    Backward,
    Stopped,
}

/// The levels of a motor's two direction pins, `true` for high: forward is
/// (low, high), backward is (high, low), stopped is (low, low).
pub open spec fn pin_levels(direction: Direction) -> (bool, bool) {
    match direction {
        Direction::Forward => (false, true),
        Direction::Backward => (true, false),
        Direction::Stopped => (false, false),
    }
}

/// What a motor is set to.
pub struct MotorState {
    pub direction: Direction,
    /// The PWM duty cycle of the enable pin.
    pub duty: u8,
}

/// One motor of the drive.
#[derive(Clone, Copy, Debug)]
pub struct Motor {
    direction: Direction,
    speed: u8,
}

impl View for Motor {
    type V = MotorState;

    closed spec fn view(&self) -> MotorState {
        MotorState { direction: self.direction, duty: self.speed }
    }
}

impl Motor {
    /// A motor at power-on: stopped, with its PWM enabled at duty cycle 0,
    /// so that no burst of power reaches it before a speed is set.
    pub fn new() -> (motor: Self)
        ensures
            motor@ == (MotorState { direction: Direction::Stopped, duty: 0 }),
    {
        Motor { direction: Direction::Stopped, speed: 0 }
    }

    /// Turns the motor forward. The duty cycle stays.
    pub fn forward(&mut self)
        ensures
            final(self)@ == (MotorState { direction: Direction::Forward, duty: old(self)@.duty }),
    {
        self.direction = Direction::Forward;
    }

    /// Turns the motor backward. The duty cycle stays.
    pub fn backward(&mut self)
        ensures
            final(self)@ == (MotorState { direction: Direction::Backward, duty: old(self)@.duty }),
    {
        self.direction = Direction::Backward;
    }

    /// Stops the motor. The duty cycle stays.
    pub fn stop(&mut self)
        ensures
            final(self)@ == (MotorState { direction: Direction::Stopped, duty: old(self)@.duty }),
    {
        self.direction = Direction::Stopped;
    }

    /// The duty cycle the motor is set to.
    pub fn get_speed(&self) -> (speed: u8)
        ensures
            speed == self@.duty,
    {
        self.speed
    }

    /// Sets the duty cycle. The direction stays.
    pub fn set_speed(&mut self, speed: u8)
        ensures
            final(self)@ == (MotorState { direction: old(self)@.direction, duty: speed }),
    {
        self.speed = speed;
    }

    /// The direction the motor is set to.
    pub fn direction(&self) -> (direction: Direction)
        ensures
            direction == self@.direction,
    {
        self.direction
    }

    /// The levels that the two direction pins are to show, `true` for high.
    pub fn pins(&self) -> (levels: (bool, bool))
        ensures
            levels == pin_levels(self@.direction),
            !(levels.0 && levels.1),
    {
        match self.direction {
            Direction::Forward => (false, true),
            Direction::Backward => (true, false),
            Direction::Stopped => (false, false),
        }
    }
}

/// What the drive is set to: a direction for each motor, and the one duty
/// cycle that both share.
pub struct NetworkState {
    pub left: Direction,
    pub right: Direction,
    pub duty: u8,
}

impl NetworkState {
    /// What the left motor is set to.
    pub open spec fn left_motor(self) -> MotorState {
        MotorState { direction: self.left, duty: self.duty }
    }

    /// What the right motor is set to.
    pub open spec fn right_motor(self) -> MotorState {
        MotorState { direction: self.right, duty: self.duty }
    }

    /// The drive with both directions replaced.
    pub open spec fn steer(self, left: Direction, right: Direction) -> NetworkState {
        NetworkState { left, right, duty: self.duty }
    }

    /// The drive after a command. Steering is differential: to turn left
    /// the left motor runs backward and the right one forward, to turn right
    /// the other way round.
    pub open spec fn apply(self, command: Command) -> NetworkState {
        match command {
            Command::Forward => self.steer(Direction::Forward, Direction::Forward),
            Command::Backward => self.steer(Direction::Backward, Direction::Backward),
            Command::Left => self.steer(Direction::Backward, Direction::Forward),
            Command::Right => self.steer(Direction::Forward, Direction::Backward),
            Command::Stop => self.steer(Direction::Stopped, Direction::Stopped),
            Command::SetSpeed(level) => NetworkState { left: self.left, right: self.right, duty: level },
        }
    }

    /// The drive after a command byte has arrived. A byte with a reserved
    /// tag changes nothing.
    pub open spec fn receive(self, byte: u8) -> NetworkState {
        match Command::decode(byte) {
            Some(command) => self.apply(command),
            None => self,
        }
    }
}

/// The pair of motors of a differential drive.
#[derive(Clone, Copy, Debug)]
pub struct Network {
    left: Motor,
    right: Motor,
}

impl View for Network {
    type V = NetworkState;

    closed spec fn view(&self) -> NetworkState {
        NetworkState {
            left: self.left.direction,
            right: self.right.direction,
            duty: self.left.speed,
        }
    }
}

impl Network {
    /// Holds of every drive: its two motors are set to one duty cycle.
    #[verifier::type_invariant]
    spec fn same_duty(self) -> bool {
        self.left.speed == self.right.speed
    }

    /// Joins two motors that are set to the same duty cycle.
    pub fn new(left: Motor, right: Motor) -> (network: Self)
        requires
            left@.duty == right@.duty,
        ensures
            network@.left_motor() == left@,
            network@.right_motor() == right@,
    {
        Network { left, right }
    }

    /// The left motor as it is set. Its duty cycle is the drive's.
    pub fn left_motor(&self) -> (motor: Motor)
        ensures
            motor@ == self@.left_motor(),
    {
        self.left
    }

    /// The right motor as it is set. Its duty cycle is the drive's.
    pub fn right_motor(&self) -> (motor: Motor)
        ensures
            motor@ == self@.right_motor(),
    {
        proof {
            use_type_invariant(self);
        }
        self.right
    }

    /// Drives straight ahead: both motors forward.
    pub fn forward(&mut self)
        ensures
            final(self)@ == old(self)@.apply(Command::Forward),
            final(self)@ == old(self)@.steer(Direction::Forward, Direction::Forward),
    {
        self.steer(Direction::Forward, Direction::Forward);
    }

    /// Drives straight back: both motors backward.
    pub fn backward(&mut self)
        ensures
            final(self)@ == old(self)@.apply(Command::Backward),
            final(self)@ == old(self)@.steer(Direction::Backward, Direction::Backward),
    {
        self.steer(Direction::Backward, Direction::Backward);
    }

    /// Turns left on the spot: left motor backward, right motor forward.
    pub fn left(&mut self)
        ensures
            final(self)@ == old(self)@.apply(Command::Left),
            final(self)@ == old(self)@.steer(Direction::Backward, Direction::Forward),
    {
        self.steer(Direction::Backward, Direction::Forward);
    }

    /// Turns right on the spot: left motor forward, right motor backward.
    pub fn right(&mut self)
        ensures
            final(self)@ == old(self)@.apply(Command::Right),
            final(self)@ == old(self)@.steer(Direction::Forward, Direction::Backward),
    {
        self.steer(Direction::Forward, Direction::Backward);
    }

    /// Stops both motors, whatever they did before.
    pub fn stop(&mut self)
        ensures
            final(self)@ == old(self)@.apply(Command::Stop),
            final(self)@ == old(self)@.steer(Direction::Stopped, Direction::Stopped),
            pin_levels(final(self)@.left) == (false, false),
            pin_levels(final(self)@.right) == (false, false),
    {
        self.steer(Direction::Stopped, Direction::Stopped);
    }

    /// Sets the duty cycle of both motors. Their directions stay.
    pub fn set_speed(&mut self, speed: u8)
        ensures
            final(self)@ == old(self)@.apply(Command::SetSpeed(speed)),
            final(self)@ == (NetworkState { left: old(self)@.left, right: old(self)@.right, duty: speed }),
    {
        let mut left = self.left;
        let mut right = self.right;
        left.set_speed(speed);
        right.set_speed(speed);
        *self = Network { left, right };
    }

    /// Carries out one command.
    pub fn apply(&mut self, command: Command)
        ensures
            final(self)@ == old(self)@.apply(command),
    {
        match command {
            Command::Forward => self.forward(),
            Command::Backward => self.backward(),
            Command::Left => self.left(),
            Command::Right => self.right(),
            Command::Stop => self.stop(),
            Command::SetSpeed(level) => self.set_speed(level),
        }
    }

    /// Takes one command byte from the serial line and carries out the
    /// command it holds, once. Hands back that command, or nothing for a
    /// byte with a reserved tag, which leaves the drive as it was.
    pub fn dispatch(&mut self, byte: u8) -> (executed: Option<Command>)
        ensures
            executed == Command::decode(byte),
            final(self)@ == old(self)@.receive(byte),
            executed matches Some(command) ==> final(self)@ == old(self)@.apply(command),
            executed is None ==> final(self)@ == old(self)@,
    {
        let decoded = Command::from_byte(byte);
        match decoded {
            Some(command) => self.apply(command),
            None => {},
        }
        decoded
    }

    /// Sets the direction of each motor. The duty cycle stays.
    fn steer(&mut self, left: Direction, right: Direction)
        ensures
            final(self)@ == old(self)@.steer(left, right),
    {
        proof {
            use_type_invariant(&*self);
        }
        let speed = self.left.get_speed();
        *self = Network { left: Motor { direction: left, speed }, right: Motor { direction: right, speed } };
    }
}

/// End to end: a command that is encoded on the operator side and
/// dispatched on the robot side is carried out as it was given, a
/// `SetSpeed` with its level rounded down to a multiple of 8.
pub proof fn lemma_receive_encoded(state: NetworkState, command: Command)
    ensures
        state.receive(command.wire()) == state.apply(command.quantized()),
        command matches Command::SetSpeed(level) ==> state.receive(command.wire()).duty == data_of(
            level,
        ),
{
}

/// Steering leaves the duty cycle alone, and setting the speed leaves the
/// directions alone.
pub proof fn lemma_steering_and_speed_are_independent(state: NetworkState, command: Command)
    ensures
        !(command is SetSpeed) ==> state.apply(command).duty == state.duty,
        command matches Command::SetSpeed(level) ==> state.apply(command) == (NetworkState {
            left: state.left,
            right: state.right,
            duty: level,
        }),
{
}

/// A steering command sets the drive without regard to what it did before,
/// so giving it twice is the same as giving it once.
pub proof fn lemma_apply_is_idempotent(state: NetworkState, command: Command)
    ensures
        state.apply(command).apply(command) == state.apply(command),
{
}

} // verus!
