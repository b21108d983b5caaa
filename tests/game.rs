use asteroids::app::{App, FrameAction};
use asteroids::display_controller::DisplayControllerError;
use asteroids::element::{Color, Element};
use asteroids::game_state::{GameState, InputEvent};
use asteroids::point::Point;

#[test]
fn game_state_starts_stopped() {
    let mut state = GameState::new();
    assert!(!state.is_running());
    state.start_game();
    assert!(state.is_running());
    state.stop_game();
    assert!(!state.is_running());
}

#[test]
fn app_new_reports_a_small_terminal() {
    let r = App::new(&Point::new(50, 50), 40, 40);
    assert!(matches!(r, Err(DisplayControllerError::DisplayTooSmallForDimensions)));
}

#[test]
fn app_frame_cycle() {
    let mut app = App::new(&Point::new(30, 30), 40, 40).unwrap();
    app.start();
    assert!(app.game_state.is_running());
    assert_eq!(app.process_event(Some(InputEvent::Up)), FrameAction::Continue);
    assert_eq!(app.game_state.keyboard_event, Some(InputEvent::Up));
    assert_eq!(app.reset(), Ok(()));
    assert_eq!(app.game_state.keyboard_event, None);
    assert!(app.display_controller.print_display().iter().all(|e| *e == Element::default()));
    let frame = app.finish_frame();
    let border = Element::new('x', Color::Blue, Color::Green);
    assert_eq!(frame.len(), 1600);
    assert_eq!(frame[5 * 40 + 5], border);
    assert_eq!(frame[34 * 40 + 34], border);
    assert_eq!(frame[6 * 40 + 6], Element::default());
    assert_eq!(frame.iter().filter(|e| **e == border).count(), 116);
    assert_eq!(app.process_event(Some(InputEvent::Esc)), FrameAction::Exit);
    assert!(!app.game_state.is_running());
}

#[test]
fn app_shut_down_stops_the_game() {
    let mut app = App::new(&Point::new(10, 10), 12, 12).unwrap();
    app.start();
    assert_eq!(app.process_event(None), FrameAction::Continue);
    assert!(app.game_state.is_running());
    assert_eq!(app.shut_down(), Ok(()));
    assert!(!app.game_state.is_running());
}
