use yawsf::idmap::IdMap;
use yawsf::windows::LayerShellWindows;
use yawsf::{
    AppState, ExclusiveZone, KeyboardMode, Layer, LayerShellAnchors, LayerShellMargins,
    LayerShellWindowSpec, SessionLockState,
};

fn spec(url: &str) -> LayerShellWindowSpec {
    LayerShellWindowSpec {
        url: url.to_string(),
        namespace: None,
        layer: Layer::Top,
        anchors: LayerShellAnchors::default(),
        exclusive_zone: ExclusiveZone::NoSpace,
        margins: LayerShellMargins::default(),
        keyboard_mode: KeyboardMode::NoFocus,
        width: None,
        height: None,
        monitor: None,
        visible: None,
    }
}

#[test]
fn id_map_insert_get_remove() {
    let mut map: IdMap<u32> = IdMap::new();
    assert_eq!(map.insert("b".to_string(), 2), None);
    assert_eq!(map.insert("a".to_string(), 1), None);
    assert_eq!(map.insert("c".to_string(), 3), None);
    assert_eq!(map.insert("b".to_string(), 20), Some(2));
    assert_eq!(map.len(), 3);
    assert_eq!(map.get("b"), Some(&20));
    assert_eq!(map.get("z"), None);
    assert!(map.contains("a"));
    let ids: Vec<String> = (0..map.len()).map(|i| map.id_at(i).clone()).collect();
    assert_eq!(ids, vec!["a", "b", "c"]);
    assert_eq!(map.remove("a"), Some(1));
    assert_eq!(map.remove("a"), None);
    assert_eq!(map.len(), 2);
    assert_eq!(*map.value_at(0), 20);
}

#[test]
fn id_map_orders_like_a_btree_map() {
    let keys = ["topbar-DP-1", "topbar-HDMI-A-1", "Zeta", "alpha", "é", "e", "", "topbar"];
    let mut map: IdMap<usize> = IdMap::new();
    let mut reference = std::collections::BTreeMap::new();
    for (i, k) in keys.iter().enumerate() {
        map.insert(k.to_string(), i);
        reference.insert(k.to_string(), i);
    }
    let ours: Vec<(String, usize)> =
        (0..map.len()).map(|i| (map.id_at(i).clone(), *map.value_at(i))).collect();
    let theirs: Vec<(String, usize)> = reference.into_iter().collect();
    assert_eq!(ours, theirs);
}

#[test]
fn upsert_creates_then_updates_in_place() {
    let mut windows: LayerShellWindows<&str> = LayerShellWindows::new();
    let returned = windows.update_existing("bar", spec("http://h/a")).unwrap_err();
    assert_eq!(returned.url, "http://h/a");
    windows.insert_new("bar".to_string(), returned, "window-1");
    assert!(matches!(windows.update_existing("bar", spec("http://h/a")), Ok(false)));
    assert!(matches!(windows.update_existing("bar", spec("http://h/b")), Ok(true)));
    let slot = windows.get("bar").unwrap();
    assert_eq!(slot.spec.url, "http://h/b");
    assert_eq!(slot.handle, "window-1");
}

#[test]
fn closing_unknown_id_changes_nothing() {
    let mut windows: LayerShellWindows<u8> = LayerShellWindows::new();
    windows.insert_new("bar".to_string(), spec("http://h/"), 7);
    assert_eq!(windows.close("missing"), None);
    assert_eq!(windows.snapshot().len(), 1);
    assert_eq!(windows.close("bar"), Some(7));
    assert!(windows.snapshot().is_empty());
    assert!(windows.get("bar").is_none());
}

#[test]
fn snapshot_lists_windows_by_id() {
    let mut windows: LayerShellWindows<()> = LayerShellWindows::new();
    windows.insert_new("topbar-b".to_string(), spec("http://h/b"), ());
    windows.insert_new("lock".to_string(), spec("http://h/l"), ());
    windows.insert_new("topbar-a".to_string(), spec("http://h/a"), ());
    let listed: Vec<(String, String)> =
        windows.snapshot().into_iter().map(|s| (s.id, s.spec.url)).collect();
    assert_eq!(
        listed,
        vec![
            ("lock".to_string(), "http://h/l".to_string()),
            ("topbar-a".to_string(), "http://h/a".to_string()),
            ("topbar-b".to_string(), "http://h/b".to_string()),
        ]
    );
}

#[test]
fn publish_keeps_session_lock_state() {
    let mut windows: LayerShellWindows<()> = LayerShellWindows::new();
    windows.insert_new("bar".to_string(), spec("http://h/"), ());
    let state = AppState::default().with_session_lock(SessionLockState::Locked);
    let next = windows.publish(&state);
    assert_eq!(next.session_lock, SessionLockState::Locked);
    assert_eq!(next.layer_shell_windows.len(), 1);
    assert_eq!(next.layer_shell_windows[0].id, "bar");
}

#[test]
fn same_id_gives_back_the_same_entry() {
    let mut map: IdMap<u32> = IdMap::new();
    let first = map.entry_or_insert("bar", 1);
    assert_eq!(*map.value_at(first), 1);
    let again = map.entry_or_insert("bar", 2);
    assert_eq!(again, first);
    assert_eq!(*map.value_at(again), 1);
    let other = map.entry_or_insert("alpha", 3);
    assert_eq!(*map.value_at(other), 3);
    assert_eq!(map.len(), 2);
    assert_eq!(map.get("bar"), Some(&1));
}
