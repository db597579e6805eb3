use quadpan::events::{choose_format, recover, Key, Reaction, Recovery, SurfaceError, WindowEvent};
use quadpan::input::Input;
use quadpan::state::State;

#[test]
fn input_starts_clear() {
    let i = Input::new();
    assert!(!i.a && !i.d && !i.w && !i.s);
}

#[test]
fn set_key_tracks_press_and_release() {
    let mut i = Input::new();
    i.set_key(Key::A, true);
    assert!(i.a && !i.d && !i.w && !i.s);
    i.set_key(Key::W, true);
    assert!(i.a && i.w);
    i.set_key(Key::A, false);
    assert!(!i.a && i.w);
    i.set_key(Key::Escape, true);
    i.set_key(Key::Other, true);
    assert!(!i.a && !i.d && i.w && !i.s);
}

#[test]
fn state_starts_at_origin() {
    let s = State::new(800, 800);
    assert_eq!(s.uniform.pos, [0, 0]);
    assert!(!s.input.a && !s.input.d && !s.input.w && !s.input.s);
    assert_eq!((s.config_width, s.config_height), (800, 800));
    assert_eq!((s.size_width, s.size_height), (800, 800));
}

#[test]
fn close_request_exits() {
    let mut s = State::new(800, 800);
    assert_eq!(s.handle_window_event(&WindowEvent::CloseRequested), Reaction::Exit);
}

#[test]
fn escape_press_exits_release_does_not() {
    let mut s = State::new(800, 800);
    let r = s.handle_window_event(&WindowEvent::KeyInput { key: Key::Escape, pressed: true });
    assert_eq!(r, Reaction::Exit);
    let r = s.handle_window_event(&WindowEvent::KeyInput { key: Key::Escape, pressed: false });
    assert_eq!(r, Reaction::Proceed);
}

#[test]
fn directional_key_updates_input_and_proceeds() {
    let mut s = State::new(800, 800);
    let r = s.handle_window_event(&WindowEvent::KeyInput { key: Key::D, pressed: true });
    assert_eq!(r, Reaction::Proceed);
    assert!(s.input.d);
}

#[test]
fn valid_resize_reconfigures() {
    let mut s = State::new(800, 800);
    let r = s.handle_window_event(&WindowEvent::Resized { width: 640, height: 480 });
    assert_eq!(r, Reaction::Reconfigure);
    assert_eq!((s.config_width, s.config_height), (640, 480));
    assert_eq!((s.size_width, s.size_height), (640, 480));
}

#[test]
fn zero_sized_resize_is_ignored() {
    let mut s = State::new(800, 800);
    let r = s.handle_window_event(&WindowEvent::Resized { width: 0, height: 480 });
    assert_eq!(r, Reaction::Proceed);
    assert_eq!((s.config_width, s.config_height), (800, 800));
    let r = s.handle_window_event(&WindowEvent::Resized { width: 640, height: 0 });
    assert_eq!(r, Reaction::Proceed);
    assert_eq!((s.size_width, s.size_height), (800, 800));
}

#[test]
fn scale_factor_change_resizes_too() {
    let mut s = State::new(800, 800);
    let r = s.handle_window_event(&WindowEvent::ScaleFactorChanged { width: 1600, height: 1600 });
    assert_eq!(r, Reaction::Reconfigure);
    assert_eq!((s.config_width, s.config_height), (1600, 1600));
}

#[test]
fn ignored_event_changes_nothing() {
    let mut s = State::new(800, 800);
    let before = s;
    assert_eq!(s.handle_window_event(&WindowEvent::Other), Reaction::Proceed);
    assert_eq!(s, before);
}

#[test]
fn update_without_keys_is_clean() {
    let mut s = State::new(800, 800);
    assert!(!s.update());
    assert_eq!(s.uniform.pos, [0, 0]);
}

#[test]
fn update_moves_one_step_per_held_key() {
    let mut s = State::new(800, 800);
    s.input.set_key(Key::A, true);
    assert!(s.update());
    assert_eq!(s.uniform.pos, [1, 0]);
    s.input.set_key(Key::A, false);
    s.input.set_key(Key::D, true);
    assert!(s.update());
    assert_eq!(s.uniform.pos, [0, 0]);
    s.input.set_key(Key::D, false);
    s.input.set_key(Key::W, true);
    assert!(s.update());
    assert_eq!(s.uniform.pos, [0, -1]);
    s.input.set_key(Key::W, false);
    s.input.set_key(Key::S, true);
    assert!(s.update());
    assert_eq!(s.uniform.pos, [0, 0]);
}

#[test]
fn opposite_keys_cancel_but_still_write() {
    let mut s = State::new(800, 800);
    s.input.set_key(Key::A, true);
    s.input.set_key(Key::D, true);
    assert!(s.update());
    assert_eq!(s.uniform.pos, [0, 0]);
}

#[test]
fn held_key_accumulates_over_frames() {
    let mut s = State::new(800, 800);
    s.input.set_key(Key::S, true);
    for _ in 0..5 {
        assert!(s.update());
    }
    assert_eq!(s.uniform.pos, [0, 5]);
}

#[test]
fn recovery_per_surface_error() {
    assert_eq!(recover(&SurfaceError::Lost), Recovery::Reconfigure);
    assert_eq!(recover(&SurfaceError::OutOfMemory), Recovery::Exit);
    assert_eq!(recover(&SurfaceError::Timeout), Recovery::Skip);
    assert_eq!(recover(&SurfaceError::Outdated), Recovery::Skip);
}

#[test]
fn format_choice_prefers_first_srgb() {
    assert_eq!(choose_format(&vec![true, false]), 0);
    assert_eq!(choose_format(&vec![false, true, true]), 1);
    assert_eq!(choose_format(&vec![false, false]), 0);
    assert_eq!(choose_format(&vec![false]), 0);
}
