use robot_car::command::Command;
use robot_car::dispatcher::{
    control_for_key, digit_speed, Action, Control, Dispatcher, Key, INITIAL_SPEED, TIMEOUT_MS,
};

#[test]
fn timeout_is_half_a_second() {
    assert_eq!(TIMEOUT_MS, 500);
    assert_eq!(INITIAL_SPEED, 255);
}

#[test]
fn new_dispatcher_starts_its_timeout_now() {
    let dispatcher = Dispatcher::new(42);
    assert_eq!(dispatcher, Dispatcher { last_input_ms: 42, speed: 255, quit: false });
}

#[test]
fn arrow_keys_and_letters_steer() {
    assert_eq!(control_for_key(Key::Up), Some(Control::Forward));
    assert_eq!(control_for_key(Key::Down), Some(Control::Backward));
    assert_eq!(control_for_key(Key::Left), Some(Control::Left));
    assert_eq!(control_for_key(Key::Right), Some(Control::Right));
    assert_eq!(control_for_key(Key::Character('w')), Some(Control::Forward));
    assert_eq!(control_for_key(Key::Character('s')), Some(Control::Backward));
    assert_eq!(control_for_key(Key::Character('a')), Some(Control::Left));
    assert_eq!(control_for_key(Key::Character('d')), Some(Control::Right));
    assert_eq!(control_for_key(Key::Character('q')), Some(Control::Quit));
}

#[test]
fn other_keys_stand_for_nothing() {
    assert_eq!(control_for_key(Key::Other), None);
    assert_eq!(control_for_key(Key::Character('W')), None);
    assert_eq!(control_for_key(Key::Character('x')), None);
    assert_eq!(control_for_key(Key::Character(' ')), None);
    assert_eq!(control_for_key(Key::Character('/')), None);
    assert_eq!(control_for_key(Key::Character(':')), None);
    assert_eq!(control_for_key(Key::Character('\u{661}')), None);
}

#[test]
fn digit_keys_select_ten_even_levels() {
    let row = ['1', '2', '3', '4', '5', '6', '7', '8', '9', '0'];
    let levels = [0u8, 28, 57, 85, 113, 142, 170, 198, 227, 255];
    for (key, level) in row.into_iter().zip(levels) {
        assert_eq!(digit_speed(key), Some(level));
        assert_eq!(control_for_key(Key::Character(key)), Some(Control::SetSpeed(level)));
    }
}

#[test]
fn digit_levels_are_the_nearest_whole_numbers() {
    let row = ['1', '2', '3', '4', '5', '6', '7', '8', '9', '0'];
    for (position, key) in row.into_iter().enumerate() {
        let exact = position as f64 / 9.0 * 255.0;
        assert_eq!(digit_speed(key), Some(exact.round() as u8));
    }
}

#[test]
fn non_digits_select_no_level() {
    assert_eq!(digit_speed('a'), None);
    assert_eq!(digit_speed('/'), None);
    assert_eq!(digit_speed(':'), None);
}

#[test]
fn controls_send_their_commands_and_restart_the_timeout() {
    let cases = [
        (Control::Forward, Command::Forward),
        (Control::Backward, Command::Backward),
        (Control::Left, Command::Left),
        (Control::Right, Command::Right),
    ];
    for (control, command) in cases {
        let mut dispatcher = Dispatcher::new(0);
        assert_eq!(dispatcher.step(1234, Some(control)), Action::Send(command));
        assert_eq!(dispatcher, Dispatcher { last_input_ms: 1234, speed: 255, quit: false });
    }
}

#[test]
fn set_speed_is_sent_and_remembered() {
    let mut dispatcher = Dispatcher::new(0);
    assert_eq!(dispatcher.step(10, Some(Control::SetSpeed(85))), Action::Send(Command::SetSpeed(85)));
    assert_eq!(dispatcher, Dispatcher { last_input_ms: 10, speed: 85, quit: false });
    assert_eq!(dispatcher.step(20, Some(Control::Left)), Action::Send(Command::Left));
    assert_eq!(dispatcher.speed, 85);
}

#[test]
fn quit_leaves_the_loop_and_restarts_no_timeout() {
    let mut dispatcher = Dispatcher::new(5);
    assert_eq!(dispatcher.step(700, Some(Control::Quit)), Action::Quit);
    assert_eq!(dispatcher, Dispatcher { last_input_ms: 5, speed: 255, quit: true });
}

#[test]
fn quit_is_final() {
    let mut dispatcher = Dispatcher::new(0);
    assert_eq!(dispatcher.step(10, Some(Control::SetSpeed(85))), Action::Send(Command::SetSpeed(85)));
    assert_eq!(dispatcher.step(20, Some(Control::Quit)), Action::Quit);
    let quit = Dispatcher { last_input_ms: 10, speed: 85, quit: true };
    assert_eq!(dispatcher, quit);
    assert_eq!(dispatcher.step(30, Some(Control::Forward)), Action::Quit);
    assert_eq!(dispatcher.step(40, Some(Control::SetSpeed(0))), Action::Quit);
    assert_eq!(dispatcher.step(50, None), Action::Quit);
    assert_eq!(dispatcher.step(5000, None), Action::Quit);
    assert_eq!(dispatcher.on_key(5001, Some(Key::Up)), Action::Quit);
    assert_eq!(dispatcher, quit);
}

#[test]
fn no_stop_one_millisecond_before_the_timeout() {
    let mut dispatcher = Dispatcher::new(1000);
    assert_eq!(dispatcher.step(1000 + TIMEOUT_MS - 1, None), Action::Skip);
    assert_eq!(dispatcher, Dispatcher { last_input_ms: 1000, speed: 255, quit: false });
}

#[test]
fn stop_at_the_timeout() {
    let mut dispatcher = Dispatcher::new(1000);
    assert_eq!(dispatcher.step(1000 + TIMEOUT_MS, None), Action::Send(Command::Stop));
}

#[test]
fn one_stop_one_millisecond_after_the_timeout() {
    let mut dispatcher = Dispatcher::new(1000);
    assert_eq!(dispatcher.step(1000 + TIMEOUT_MS + 1, None), Action::Send(Command::Stop));
    assert_eq!(dispatcher, Dispatcher { last_input_ms: 1000, speed: 255, quit: false });
}

#[test]
fn stop_is_sent_in_every_silent_cycle_until_an_input() {
    let mut dispatcher = Dispatcher::new(0);
    assert_eq!(dispatcher.step(100, Some(Control::Forward)), Action::Send(Command::Forward));
    assert_eq!(dispatcher.step(300, None), Action::Skip);
    assert_eq!(dispatcher.step(599, None), Action::Skip);
    assert_eq!(dispatcher.step(600, None), Action::Send(Command::Stop));
    assert_eq!(dispatcher.step(601, None), Action::Send(Command::Stop));
    assert_eq!(dispatcher.step(5000, None), Action::Send(Command::Stop));
    assert_eq!(dispatcher.step(5001, Some(Control::Right)), Action::Send(Command::Right));
    assert_eq!(dispatcher.step(5500, None), Action::Skip);
    assert_eq!(dispatcher.step(5501, None), Action::Send(Command::Stop));
}

#[test]
fn a_clock_that_runs_behind_counts_as_no_time_passed() {
    let mut dispatcher = Dispatcher::new(1000);
    assert_eq!(dispatcher.step(0, None), Action::Skip);
    assert_eq!(dispatcher.step(999, None), Action::Skip);
}

#[test]
fn late_in_the_clock_nothing_overflows() {
    let mut dispatcher = Dispatcher::new(u64::MAX - 10);
    assert_eq!(dispatcher.step(u64::MAX, None), Action::Skip);
    let mut dispatcher = Dispatcher::new(0);
    assert_eq!(dispatcher.step(u64::MAX, None), Action::Send(Command::Stop));
}

#[test]
fn keys_drive_the_dispatcher() {
    let mut dispatcher = Dispatcher::new(0);
    assert_eq!(dispatcher.on_key(10, Some(Key::Up)), Action::Send(Command::Forward));
    assert_eq!(dispatcher.on_key(20, Some(Key::Character('5'))), Action::Send(Command::SetSpeed(113)));
    assert_eq!(dispatcher, Dispatcher { last_input_ms: 20, speed: 113, quit: false });
    assert_eq!(dispatcher.on_key(30, Some(Key::Character('x'))), Action::Skip);
    assert_eq!(dispatcher.on_key(519, Some(Key::Other)), Action::Skip);
    assert_eq!(dispatcher.on_key(520, Some(Key::Other)), Action::Send(Command::Stop));
    assert_eq!(dispatcher.on_key(521, None), Action::Send(Command::Stop));
    assert_eq!(dispatcher.last_input_ms, 20);
    assert_eq!(dispatcher.on_key(530, Some(Key::Character('q'))), Action::Quit);
}
