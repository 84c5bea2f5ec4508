use fitr::control::{command_for, QUIT_KEY};
use fitr::{Command, Direction, Event, Flow, Input, Key, TrackPoint, ViewportModel};

fn model() -> ViewportModel {
    let track = vec![
        TrackPoint { latitude: 0, longitude: 10, elevation: None, timestamp: None, speed: None },
        TrackPoint { latitude: 8, longitude: 30, elevation: None, timestamp: None, speed: None },
    ];
    ViewportModel::init(&track, 10_000, 10_000).unwrap()
}

#[test]
fn arrow_keys_are_pan_commands() {
    assert_eq!(command_for(Input::Key(Key::Up)), Command::Apply(Event::Scroll(Direction::Up)));
    assert_eq!(command_for(Input::Key(Key::Down)), Command::Apply(Event::Scroll(Direction::Down)));
    assert_eq!(command_for(Input::Key(Key::Left)), Command::Apply(Event::Scroll(Direction::Left)));
    assert_eq!(
        command_for(Input::Key(Key::Right)),
        Command::Apply(Event::Scroll(Direction::Right))
    );
}

#[test]
fn the_tick_is_the_tick() {
    assert_eq!(command_for(Input::Tick), Command::Apply(Event::Tick));
}

#[test]
fn the_quit_key_quits() {
    assert_eq!(QUIT_KEY, 'q');
    assert_eq!(command_for(Input::Key(Key::Char('q'))), Command::Quit);
}

#[test]
fn other_keys_are_ignored() {
    assert_eq!(command_for(Input::Key(Key::Char('Q'))), Command::Ignore);
    assert_eq!(command_for(Input::Key(Key::Char('x'))), Command::Ignore);
    assert_eq!(command_for(Input::Key(Key::Char(' '))), Command::Ignore);
    assert_eq!(command_for(Input::Key(Key::Other)), Command::Ignore);
}

#[test]
fn handle_quits_without_touching_the_viewport() {
    let mut m = model();
    m.scroll(Direction::Down);
    let before = m;
    assert_eq!(m.handle(Input::Key(Key::Char('q'))), Flow::Quit);
    assert_eq!(m, before);
}

#[test]
fn handle_ignores_other_keys() {
    let mut m = model();
    let before = m;
    assert_eq!(m.handle(Input::Key(Key::Char('a'))), Flow::Continue);
    assert_eq!(m.handle(Input::Key(Key::Other)), Flow::Continue);
    assert_eq!(m, before);
}

#[test]
fn handle_pans_on_arrow_keys_and_moves_on_the_tick() {
    let mut m = model();
    let start = m.current_bounds();
    assert_eq!(m.handle(Input::Key(Key::Down)), Flow::Continue);
    assert_eq!(m.handle(Input::Key(Key::Down)), Flow::Continue);
    assert_eq!(m.handle(Input::Key(Key::Right)), Flow::Continue);
    assert_eq!(m.current_pan_state().pending_vertical, 2);
    assert_eq!(m.current_pan_state().pending_horizontal, -1);
    assert_eq!(m.current_bounds(), start);
    assert_eq!(m.handle(Input::Tick), Flow::Continue);
    let moved = m.current_bounds();
    assert_eq!(moved.y_min - start.y_min, 2_400_000);
    assert_eq!(moved.x_min - start.x_min, -1_200_000);
    assert_eq!(m.current_pan_state().pending_vertical, 0);
    assert_eq!(m.current_pan_state().pending_horizontal, 0);
}

#[test]
fn handle_drops_what_does_not_fit() {
    let track = vec![
        TrackPoint {
            latitude: i32::MIN,
            longitude: i32::MIN,
            elevation: None,
            timestamp: None,
            speed: None,
        },
        TrackPoint {
            latitude: i32::MAX,
            longitude: i32::MAX,
            elevation: None,
            timestamp: None,
            speed: None,
        },
    ];
    let mut m = ViewportModel::init(&track, u32::MAX, u32::MAX).unwrap();
    assert_eq!(m.handle(Input::Key(Key::Left)), Flow::Continue);
    let before = m;
    assert_eq!(m.handle(Input::Tick), Flow::Continue);
    assert_eq!(m, before);
}
