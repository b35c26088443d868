use focus_capture::focus::focus_snapshot;
use focus_capture::focus::title_is_blank;
use focus_capture::icon::largest_frame_index;

#[test]
fn snapshot_from_a_windows_path() {
    let snap = focus_snapshot("C:\\Users\\me\\AppData\\Spotify.exe", "Drake - Mob Ties")
        .expect("usable focus");
    assert_eq!(snap.exe_name, "Spotify.exe");
    assert_eq!(snap.title, "Drake - Mob Ties");
    assert_eq!(snap.fallback, "Spotify:Drake - Mob Ties:Spotify.exe");
}

#[test]
fn snapshot_from_a_device_path() {
    let snap = focus_snapshot("\\Device\\HarddiskVolume3\\Program Files\\App\\app.exe", "Doc")
        .expect("usable focus");
    assert_eq!(snap.exe_name, "app.exe");
    assert_eq!(snap.fallback, "app:Doc:app.exe");
}

#[test]
fn blank_title_gives_no_snapshot() {
    assert!(focus_snapshot("C:\\a\\b.exe", "").is_none());
    assert!(focus_snapshot("C:\\a\\b.exe", "  \t ").is_none());
    assert!(focus_snapshot("C:\\a\\b.exe", "\u{3000}").is_none());
}

#[test]
fn blank_test_matches_trimming() {
    assert!(title_is_blank(""));
    assert!(title_is_blank(" \r\n\t"));
    assert!(!title_is_blank(" x "));
}

#[test]
fn path_without_separators_is_its_own_name() {
    let snap = focus_snapshot("standalone.exe", "T").expect("usable focus");
    assert_eq!(snap.exe_name, "standalone.exe");
    assert_eq!(snap.fallback, "standalone:T:standalone.exe");
}

#[test]
fn trailing_separators_are_ignored() {
    let snap = focus_snapshot("C:\\dir\\app.exe\\", "T").expect("usable focus");
    assert_eq!(snap.exe_name, "app.exe");
    assert_eq!(snap.fallback, "app:T:app.exe");
}

#[test]
fn separators_alone_give_the_unknown_name() {
    let snap = focus_snapshot("\\\\", "T").expect("usable focus");
    assert_eq!(snap.exe_name, "unknown.exe");
    assert_eq!(snap.fallback, "unknown:T:unknown.exe");
}

#[test]
fn the_exe_extension_is_stripped_once() {
    let snap = focus_snapshot("C:\\x\\tool.exe.exe", "T").expect("usable focus");
    assert_eq!(snap.exe_name, "tool.exe.exe");
    assert_eq!(snap.fallback, "tool.exe:T:tool.exe.exe");
}

#[test]
fn name_without_suffix_is_kept_whole() {
    let snap = focus_snapshot("/usr/bin/tool", "T").expect("usable focus");
    assert_eq!(snap.exe_name, "tool");
    assert_eq!(snap.fallback, "tool:T:tool");
}

#[test]
fn largest_frame_wins() {
    let dims = vec![(16u32, 16u32), (48, 48), (32, 32)];
    assert_eq!(largest_frame_index(&dims), Some(1));
}

#[test]
fn equal_areas_go_to_the_later_frame() {
    let dims = vec![(32u32, 32u32), (16, 64), (8, 8)];
    assert_eq!(largest_frame_index(&dims), Some(1));
}

#[test]
fn empty_listing_has_no_frame() {
    let dims: Vec<(u32, u32)> = Vec::new();
    assert_eq!(largest_frame_index(&dims), None);
}
