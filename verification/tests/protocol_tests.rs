use yawsf::protocol::{duplicate_window_states, DEFAULT_WINDOW_HEIGHT, DEFAULT_WINDOW_WIDTH};
use yawsf::{
    AppCommand, AppState, ExclusiveZone, KeyboardMode, Layer, LayerShellAnchors, LayerShellMargins,
    LayerShellWindowSpec, LayerShellWindowState, SessionLockState,
};

fn spec(url: &str) -> LayerShellWindowSpec {
    LayerShellWindowSpec {
        url: url.to_string(),
        namespace: None,
        layer: Layer::default(),
        anchors: LayerShellAnchors::default(),
        exclusive_zone: ExclusiveZone::default(),
        margins: LayerShellMargins::default(),
        keyboard_mode: KeyboardMode::default(),
        width: None,
        height: None,
        monitor: None,
        visible: None,
    }
}

#[test]
fn defaults_match_the_documented_ones() {
    assert_eq!(SessionLockState::default(), SessionLockState::Unlocked);
    assert_eq!(Layer::default(), Layer::Top);
    assert_eq!(KeyboardMode::default(), KeyboardMode::NoFocus);
    assert_eq!(ExclusiveZone::default(), ExclusiveZone::NoSpace);
    let anchors = LayerShellAnchors::default();
    assert!(!anchors.top && !anchors.bottom && !anchors.left && !anchors.right);
    let margins = LayerShellMargins::default();
    assert_eq!((margins.top, margins.bottom, margins.left, margins.right), (0, 0, 0, 0));
    let state = AppState::default();
    assert!(state.layer_shell_windows.is_empty());
    assert_eq!(state.session_lock, SessionLockState::Unlocked);
}

#[test]
fn omitted_size_defaults_to_500_by_240_and_visible() {
    let s = spec("http://127.0.0.1:12551/topbar");
    assert_eq!(DEFAULT_WINDOW_WIDTH, 500);
    assert_eq!(DEFAULT_WINDOW_HEIGHT, 240);
    assert_eq!(s.effective_width(), 500);
    assert_eq!(s.effective_height(), 240);
    assert!(s.effective_visible());
    assert_eq!(s.default_size(), (500, 240));
}

#[test]
fn given_size_and_visibility_are_used() {
    let mut s = spec("http://127.0.0.1:12551/topbar");
    s.width = Some(1920);
    s.height = Some(32);
    s.visible = Some(false);
    assert_eq!(s.effective_width(), 1920);
    assert_eq!(s.effective_height(), 32);
    assert!(!s.effective_visible());
    assert_eq!(s.default_size(), (1920, 32));
}

#[test]
fn oversized_width_wraps_like_a_cast() {
    let mut s = spec("http://h/");
    s.width = Some(u32::MAX);
    s.height = Some(2_147_483_648);
    assert_eq!(s.default_size(), (-1, i32::MIN));
}

#[test]
fn exclusive_zone_sizes() {
    let mut s = spec("http://h/");
    assert_eq!(s.exclusive_zone_size(), Some(0));
    s.exclusive_zone = ExclusiveZone::Auto;
    assert_eq!(s.exclusive_zone_size(), None);
    s.exclusive_zone = ExclusiveZone::Fixed(32);
    assert_eq!(s.exclusive_zone_size(), Some(32));
}

#[test]
fn duplicate_keeps_every_field() {
    let mut s = spec("http://h/a");
    s.namespace = Some("bar".to_string());
    s.monitor = Some("DP-1".to_string());
    s.margins.left = 4;
    let d = s.duplicate();
    assert_eq!(d.url, "http://h/a");
    assert_eq!(d.namespace.as_deref(), Some("bar"));
    assert_eq!(d.monitor.as_deref(), Some("DP-1"));
    assert_eq!(d.margins.left, 4);
}

#[test]
fn session_lock_update_keeps_windows() {
    let windows = vec![LayerShellWindowState { id: "bar".to_string(), spec: spec("http://h/") }];
    let state = AppState::default().with_layer_shell_windows(windows);
    let next = state.with_session_lock(SessionLockState::Pending);
    assert_eq!(next.session_lock, SessionLockState::Pending);
    assert_eq!(next.layer_shell_windows.len(), 1);
    assert_eq!(next.layer_shell_windows[0].id, "bar");
    assert_eq!(next.session_lock_status().state, SessionLockState::Pending);
    let listing = next.layer_shell_listing();
    assert_eq!(listing.layer_shell_windows.len(), 1);
    assert_eq!(duplicate_window_states(&next.layer_shell_windows)[0].spec.url, "http://h/");
}

#[test]
fn only_quit_stops_the_command_loop() {
    assert!(!AppCommand::<()>::Quit.keeps_running());
    assert!(AppCommand::<()>::UnlockSession.keeps_running());
    assert!(AppCommand::CloseLayerShellWindow("bar".to_string(), ()).keeps_running());
    assert!(AppCommand::UpsertLayerShellWindow("bar".to_string(), spec("http://h/"), ())
        .keeps_running());
}
