//! The operator side's command dispatcher: from key presses, or their
//! absence, to the command of the current control cycle.
//!
//! The dispatcher remembers when the last recognized input arrived. While
//! the operator is silent for less than the timeout nothing is sent; once
//! the timeout has elapsed every cycle sends `Stop`, until the next input.
//! Quitting is final: after it every cycle only says that the loop is over.
//!
//! Speed is selected as an absolute level: the digit keys `1` to `9` and `0`,
//! in this order, stand for ten levels spread evenly from 0 to 255.

use vstd::prelude::*;
use crate::command::Command;

verus! {

/// Silence of this many milliseconds stops the robot.
pub const TIMEOUT_MS: u64 = 500;

/// The speed level that the operator side assumes before any is selected.
pub const INITIAL_SPEED: u8 = 255;

/// A key press as the terminal reports it.
#[derive(Clone, Copy, Debug, PartialEq, Eq, Structural)]
pub enum Key {
    Character(char),
    Up,
    Down,
    Left,
    Right,
    /// Any key that has no meaning here.
    Other,
}

/// What the operator asks for.
#[derive(Clone, Copy, Debug, PartialEq, Eq, Structural)]
pub enum Control {
    Forward,
    Backward,
    Left,
    Right,
    SetSpeed(u8),
    Quit,
}

/// What the control loop does in one cycle.
#[derive(Clone, Copy, Debug, PartialEq, Eq, Structural)]
pub enum Action {
    /// Transmit this command.
    Send(Command),
    /// Transmit nothing in this cycle.
    Skip,
    /// Leave the control loop.
    Quit,
}

/// The place of a digit key in the row `1 2 3 4 5 6 7 8 9 0`, counted from 0.
pub open spec fn digit_position(c: char) -> Option<int> {
    if '1' <= c <= '9' {
        Some(c as int - '1' as int)
    } else if c == '0' {
        Some(9)
    } else {
        None
    }
}

/// The speed level of a place in the digit row: the whole number nearest to
/// `position / 9 * 255`.
pub open spec fn speed_level(position: int) -> int {
    (255 * position + 4) / 9
}

/// The control that a key stands for, if it stands for one.
pub open spec fn control_of(key: Key) -> Option<Control> {
    match key {
        Key::Up => Some(Control::Forward),
        Key::Down => Some(Control::Backward),
        Key::Left => Some(Control::Left),
        Key::Right => Some(Control::Right),
        Key::Character(c) => if c == 'w' {
            Some(Control::Forward)
        } else if c == 's' {
            Some(Control::Backward)
        } else if c == 'a' {
            Some(Control::Left)
        } else if c == 'd' {
            Some(Control::Right)
        } else if c == 'q' {
            Some(Control::Quit)
        } else {
            match digit_position(c) {
                Some(position) => Some(Control::SetSpeed(speed_level(position) as u8)),
                None => None,
            }
        },
        Key::Other => None,
    }
}

/// The control recognized in a cycle: that of the key pressed in it, if one
/// was pressed and stands for a control.
pub open spec fn control_of_pressed(key: Option<Key>) -> Option<Control> {
    match key {
        Some(key) => control_of(key),
        None => None,
    }
}

/// The command that a control sends. `Quit` sends none.
pub open spec fn command_of(control: Control) -> Option<Command> {
    match control {
        Control::Forward => Some(Command::Forward),
        Control::Backward => Some(Command::Backward),
        Control::Left => Some(Command::Left),
        Control::Right => Some(Command::Right),
        Control::SetSpeed(level) => Some(Command::SetSpeed(level)),
        Control::Quit => None,
    }
}

/// The time from `earlier` to `now`, and 0 if `now` is not later.
pub open spec fn elapsed_ms(earlier: u64, now: u64) -> int {
    if now >= earlier {
        now - earlier
    } else {
        0
    }
}

/// The speed level that a digit key selects, if `c` is a digit.
pub fn digit_speed(c: char) -> (level: Option<u8>)
    ensures
        level == match digit_position(c) {
            Some(position) => Some(speed_level(position) as u8),
            None => None,
        },
{
    let code: u32 = c as u32;
    if 0x31 <= code && code <= 0x39 {
        let position: u32 = code - 0x31;
        Some(((255 * position + 4) / 9) as u8)
    } else if code == 0x30 {
        Some(255)
    } else {
        None
    }
}

/// Maps a key to the control it stands for: the arrow keys and `w`, `s`,
/// `a`, `d` steer, the digits select a speed, `q` quits.
pub fn control_for_key(key: Key) -> (control: Option<Control>)
    ensures
        control == control_of(key),
{
    match key {
        Key::Up => Some(Control::Forward),
        Key::Down => Some(Control::Backward),
        Key::Left => Some(Control::Left),
        Key::Right => Some(Control::Right),
        Key::Character(c) => {
            if c == 'w' {
                Some(Control::Forward)
            } else if c == 's' {
                Some(Control::Backward)
            } else if c == 'a' {
                Some(Control::Left)
            } else if c == 'd' {
                Some(Control::Right)
            } else if c == 'q' {
                Some(Control::Quit)
            } else {
                match digit_speed(c) {
                    Some(level) => Some(Control::SetSpeed(level)),
                    None => None,
                }
            }
        },
        Key::Other => None,
    }
}

/// The dispatcher's state.
#[derive(Clone, Copy, Debug, PartialEq, Eq, Structural)]
pub struct Dispatcher {
    /// When the last recognized input arrived, in milliseconds on the
    /// control loop's clock.
    pub last_input_ms: u64,
    /// The speed level selected last.
    pub speed: u8,
    /// The operator has quit. This state is never left.
    pub quit: bool,
}

impl Dispatcher {
    /// What the cycle at `now_ms` does on `control`.
    pub open spec fn action(self, now_ms: u64, control: Option<Control>) -> Action {
        if self.quit {
            Action::Quit
        } else {
            match control {
                Some(control) => match command_of(control) {
                    Some(command) => Action::Send(command),
                    None => Action::Quit,
                },
                None => if elapsed_ms(self.last_input_ms, now_ms) < TIMEOUT_MS {
                    Action::Skip
                } else {
                    Action::Send(Command::Stop)
                },
            }
        }
    }

    /// The state after the cycle at `now_ms` on `control`. Only an input
    /// that sends a command restarts the timeout, only `SetSpeed` changes
    /// the speed, and once the operator has quit nothing changes any more.
    pub open spec fn next(self, now_ms: u64, control: Option<Control>) -> Dispatcher {
        if self.quit {
            self
        } else {
            match control {
                None => self,
                Some(Control::Quit) => Dispatcher {
                    last_input_ms: self.last_input_ms,
                    speed: self.speed,
                    quit: true,
                },
                Some(Control::SetSpeed(level)) => Dispatcher {
                    last_input_ms: now_ms,
                    speed: level,
                    quit: false,
                },
                Some(_) => Dispatcher { last_input_ms: now_ms, speed: self.speed, quit: false },
            }
        }
    }

    /// A dispatcher whose timeout starts at `now_ms`.
    pub fn new(now_ms: u64) -> (dispatcher: Self)
        ensures
            dispatcher == (Dispatcher { last_input_ms: now_ms, speed: INITIAL_SPEED, quit: false }),
    {
        Dispatcher { last_input_ms: now_ms, speed: INITIAL_SPEED, quit: false }
    }

    /// Runs one control cycle at `now_ms`, on the control that was
    /// recognized in it, if any.
    pub fn step(&mut self, now_ms: u64, control: Option<Control>) -> (action: Action)
        ensures
            action == old(self).action(now_ms, control),
            *final(self) == old(self).next(now_ms, control),
    {
        if self.quit {
            return Action::Quit;
        }
        match control {
            Some(Control::Quit) => {
                self.quit = true;
                Action::Quit
            },
            Some(Control::Forward) => {
                self.last_input_ms = now_ms;
                Action::Send(Command::Forward)
            },
            Some(Control::Backward) => {
                self.last_input_ms = now_ms;
                Action::Send(Command::Backward)
            },
            Some(Control::Left) => {
                self.last_input_ms = now_ms;
                Action::Send(Command::Left)
            },
            Some(Control::Right) => {
                self.last_input_ms = now_ms;
                Action::Send(Command::Right)
            },
            Some(Control::SetSpeed(level)) => {
                self.last_input_ms = now_ms;
                self.speed = level;
                Action::Send(Command::SetSpeed(level))
            },
            None => {
                if now_ms >= self.last_input_ms && now_ms - self.last_input_ms >= TIMEOUT_MS {
                    Action::Send(Command::Stop)
                } else {
                    Action::Skip
                }
            },
        }
    }

    /// Runs one control cycle at `now_ms`, on the key that was pressed in
    /// it, if any. A key that stands for no control counts as silence.
    pub fn on_key(&mut self, now_ms: u64, key: Option<Key>) -> (action: Action)
        ensures
            action == old(self).action(now_ms, control_of_pressed(key)),
            *final(self) == old(self).next(now_ms, control_of_pressed(key)),
    {
        let control = match key {
            Some(key) => control_for_key(key),
            None => None,
        };
        self.step(now_ms, control)
    }
}

/// A speed level is the whole number nearest to `position / 9 * 255`: it is
/// less than half a unit away. The levels rise with the position, from 0 at
/// the first place to 255 at the last.
pub proof fn lemma_speed_level_is_nearest(position: int)
    requires
        0 <= position <= 9,
    ensures
        -9 < 2 * (9 * speed_level(position) - 255 * position) < 9,
        0 <= speed_level(position) <= 255,
        speed_level(0) == 0,
        speed_level(9) == 255,
        position < 9 ==> speed_level(position) < speed_level(position + 1),
{
}

/// Silence shorter than the timeout sends nothing; from the timeout on,
/// every silent cycle sends exactly `Stop`. Silence leaves the state as it
/// was, so the stop is repeated until an input arrives.
pub proof fn lemma_silence(dispatcher: Dispatcher, now_ms: u64)
    requires
        !dispatcher.quit,
    ensures
        elapsed_ms(dispatcher.last_input_ms, now_ms) < TIMEOUT_MS ==> dispatcher.action(now_ms, None)
            == Action::Skip,
        elapsed_ms(dispatcher.last_input_ms, now_ms) >= TIMEOUT_MS ==> dispatcher.action(
            now_ms,
            None,
        ) == Action::Send(Command::Stop),
        dispatcher.next(now_ms, None) == dispatcher,
{
}

/// The fail-safe: after an input at `input_ms` that sends a command, a
/// silent cycle at `poll_ms` sends nothing while less than the timeout has
/// passed, and sends `Stop` from then on, whatever happened before.
pub proof fn lemma_stop_after_timeout(
    dispatcher: Dispatcher,
    input_ms: u64,
    control: Control,
    poll_ms: u64,
)
    requires
        !dispatcher.quit,
        control != Control::Quit,
        input_ms <= poll_ms,
    ensures
        dispatcher.action(input_ms, Some(control)) == Action::Send(command_of(control)->0),
        dispatcher.next(input_ms, Some(control)).action(poll_ms, None) == if poll_ms - input_ms
            < TIMEOUT_MS {
            Action::Skip
        } else {
            Action::Send(Command::Stop)
        },
{
}

/// Quitting sends nothing and is final: the cycle that sees `Quit` leaves
/// the loop, and so does every cycle after it, whatever the operator does
/// then. Neither the timeout nor the speed changes any more.
pub proof fn lemma_quit_is_final(
    dispatcher: Dispatcher,
    quit_ms: u64,
    later_ms: u64,
    control: Option<Control>,
)
    ensures
        dispatcher.action(quit_ms, Some(Control::Quit)) == Action::Quit,
        dispatcher.next(quit_ms, Some(Control::Quit)).quit,
        dispatcher.next(quit_ms, Some(Control::Quit)).last_input_ms == dispatcher.last_input_ms,
        dispatcher.next(quit_ms, Some(Control::Quit)).speed == dispatcher.speed,
        dispatcher.next(quit_ms, Some(Control::Quit)).action(later_ms, control) == Action::Quit,
        dispatcher.next(quit_ms, Some(Control::Quit)).next(later_ms, control) == dispatcher.next(
            quit_ms,
            Some(Control::Quit),
        ),
{
}

/// Every cycle either sends exactly one command, or sends nothing, or ends
/// the loop; it ends the loop exactly when the operator quits in it or has
/// quit before.
pub proof fn lemma_quit_only_on_request(dispatcher: Dispatcher, now_ms: u64, control: Option<Control>)
    ensures
        dispatcher.action(now_ms, control) == Action::Quit <==> dispatcher.quit || control == Some(
            Control::Quit,
        ),
        dispatcher.next(now_ms, control).quit <==> dispatcher.quit || control == Some(Control::Quit),
{
}

} // verus!
