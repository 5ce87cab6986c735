use diorama::controls::{after_render, resize_for, Action, Camera, Key, RenderOutcome, WindowInput};

#[test]
fn camera_starts_fifteen_units_away() {
    let c = Camera::new();
    assert_eq!(c.camera_distance, 15);
    assert_eq!(c.camera_angle, 0);
}

#[test]
fn arrows_are_handled_and_other_keys_are_not() {
    let mut c = Camera::new();
    assert!(c.input(Key::Up));
    assert!(c.input(Key::Down));
    assert!(c.input(Key::Left));
    assert!(c.input(Key::Right));
    assert!(!c.input(Key::Escape));
    assert!(!c.input(Key::Other));
    assert_eq!((c.camera_distance, c.camera_angle), (15, 0));
}

#[test]
fn up_stops_at_five_units() {
    let mut c = Camera::new();
    c.input(Key::Up);
    assert_eq!(c.camera_distance, 14);
    for _ in 0..20 {
        c.input(Key::Up);
    }
    assert_eq!(c.camera_distance, 5);
}

#[test]
fn down_stops_at_thirty_units() {
    let mut c = Camera::new();
    c.input(Key::Down);
    assert_eq!(c.camera_distance, 16);
    for _ in 0..40 {
        c.input(Key::Down);
    }
    assert_eq!(c.camera_distance, 30);
}

#[test]
fn up_from_outside_the_bounds_lands_on_them() {
    let mut near = Camera { camera_distance: 0, camera_angle: 0 };
    near.input(Key::Up);
    assert_eq!(near.camera_distance, 5);
    let mut far = Camera { camera_distance: u32::MAX, camera_angle: 0 };
    far.input(Key::Down);
    assert_eq!(far.camera_distance, 30);
}

#[test]
fn left_and_right_turn_by_a_tenth() {
    let mut c = Camera::new();
    c.input(Key::Left);
    assert_eq!(c.camera_angle, -1);
    c.input(Key::Right);
    c.input(Key::Right);
    assert_eq!(c.camera_angle, 1);
    assert_eq!(c.camera_distance, 15);
}

#[test]
fn turn_back_law_on_values() {
    let mut c = Camera { camera_distance: 12, camera_angle: 37 };
    c.input(Key::Left);
    c.input(Key::Right);
    assert_eq!((c.camera_distance, c.camera_angle), (12, 37));
    let mut m = Camera { camera_distance: 12, camera_angle: i64::MIN };
    m.input(Key::Left);
    assert_eq!(m.camera_angle, i64::MIN);
}

#[test]
fn zoom_back_law_on_values() {
    let mut c = Camera { camera_distance: 9, camera_angle: 0 };
    c.input(Key::Up);
    c.input(Key::Down);
    assert_eq!(c.camera_distance, 9);
    let mut at_min = Camera { camera_distance: 5, camera_angle: 0 };
    at_min.input(Key::Up);
    at_min.input(Key::Down);
    assert_eq!(at_min.camera_distance, 6);
}

#[test]
fn escape_and_close_end_the_program() {
    let mut c = Camera::new();
    assert_eq!(c.handle_window_event(WindowInput::KeyPressed(Key::Escape)), Action::Exit);
    assert_eq!(c.handle_window_event(WindowInput::CloseRequested), Action::Exit);
}

#[test]
fn arrow_events_move_the_camera_and_go_on() {
    let mut c = Camera::new();
    assert_eq!(c.handle_window_event(WindowInput::KeyPressed(Key::Up)), Action::Continue);
    assert_eq!(c.camera_distance, 14);
    assert_eq!(c.handle_window_event(WindowInput::KeyPressed(Key::Other)), Action::Continue);
    assert_eq!(c.handle_window_event(WindowInput::Other), Action::Continue);
    assert_eq!(c.camera_distance, 14);
}

#[test]
fn resizes_need_a_drawable_size() {
    let mut c = Camera::new();
    assert_eq!(
        c.handle_window_event(WindowInput::Resized { width: 800, height: 600 }),
        Action::Resize { width: 800, height: 600 }
    );
    assert_eq!(
        c.handle_window_event(WindowInput::Resized { width: 0, height: 600 }),
        Action::Continue
    );
    assert_eq!(
        c.handle_window_event(WindowInput::ScaleFactorChanged { width: 1600, height: 1200 }),
        Action::Resize { width: 1600, height: 1200 }
    );
    assert_eq!(
        c.handle_window_event(WindowInput::ScaleFactorChanged { width: 1600, height: 0 }),
        Action::Continue
    );
    assert_eq!(resize_for(1, 1), Action::Resize { width: 1, height: 1 });
    assert_eq!(resize_for(0, 0), Action::Continue);
}

#[test]
fn render_outcomes() {
    assert_eq!(after_render(RenderOutcome::Drawn, 800, 600), Action::Continue);
    assert_eq!(
        after_render(RenderOutcome::SurfaceLost, 800, 600),
        Action::Resize { width: 800, height: 600 }
    );
    assert_eq!(after_render(RenderOutcome::SurfaceLost, 0, 600), Action::Continue);
    assert_eq!(after_render(RenderOutcome::OutOfMemory, 800, 600), Action::Exit);
    assert_eq!(after_render(RenderOutcome::OtherError, 800, 600), Action::ReportError);
}
