use matrix_rain::events::handle_event;
use matrix_rain::events::handle_key_event;
use matrix_rain::events::Action;
use matrix_rain::events::Event;
use matrix_rain::events::KeyCode;

#[test]
fn q_and_escape_leave_with_any_modifiers() {
    for control in [false, true] {
        assert_eq!(handle_key_event(KeyCode::Char('q'), control), Action::Exit);
        assert_eq!(handle_key_event(KeyCode::Esc, control), Action::Exit);
    }
}

#[test]
fn c_leaves_with_control_alone() {
    assert_eq!(handle_key_event(KeyCode::Char('c'), true), Action::Exit);
    assert_eq!(handle_key_event(KeyCode::Char('c'), false), Action::Continue);
}

#[test]
fn other_keys_go_on() {
    for control in [false, true] {
        assert_eq!(handle_key_event(KeyCode::Char('Q'), control), Action::Continue);
        assert_eq!(handle_key_event(KeyCode::Char('x'), control), Action::Continue);
        assert_eq!(handle_key_event(KeyCode::Other, control), Action::Continue);
    }
}

#[test]
fn only_key_presses_are_heard() {
    let press = Event::Press {
        code: KeyCode::Char('q'),
        control: false,
    };
    assert_eq!(handle_event(press), Action::Exit);
    let press = Event::Press {
        code: KeyCode::Char('a'),
        control: true,
    };
    assert_eq!(handle_event(press), Action::Continue);
    assert_eq!(handle_event(Event::Other), Action::Continue);
}
