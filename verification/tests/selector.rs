use focus_capture::selector::select_candidate;

fn strings(items: &[&str]) -> Vec<String> {
    items.iter().map(|s| s.to_string()).collect()
}

#[test]
fn title_match_wins() {
    let candidates = strings(&["[Spotify.exe]: Spotify", "[Spotify.exe]: Drake - Mob Ties"]);
    let chosen = select_candidate(
        "Spotify.exe",
        "Drake - Mob Ties",
        &candidates,
        "Spotify:Drake - Mob Ties:Spotify.exe",
    );
    assert_eq!(chosen, "[Spotify.exe]: Drake - Mob Ties");
}

#[test]
fn unrelated_title_gives_longest() {
    let candidates = strings(&["[Spotify.exe]: Spotify", "[Spotify.exe]: Drake - Mob Ties"]);
    let chosen = select_candidate(
        "Spotify.exe",
        "Unrelated Title",
        &candidates,
        "Spotify:Unrelated Title:Spotify.exe",
    );
    assert_eq!(chosen, "[Spotify.exe]: Drake - Mob Ties");
}

#[test]
fn empty_candidates_give_fallback() {
    let candidates: Vec<String> = Vec::new();
    let chosen = select_candidate(
        "Spotify.exe",
        "Unrelated Title",
        &candidates,
        "Spotify:Unrelated Title:Spotify.exe",
    );
    assert_eq!(chosen, "Spotify:Unrelated Title:Spotify.exe");
}

#[test]
fn foreign_prefixes_give_fallback() {
    let candidates = strings(&["[Other.exe]: Other", "[More.exe]: Spotify", "Spotify"]);
    let chosen = select_candidate("Spotify.exe", "Spotify", &candidates, "fallback-value");
    assert_eq!(chosen, "fallback-value");
}

#[test]
fn unique_title_match_is_returned() {
    let candidates = strings(&[
        "[App.exe]: generic window with a very long name",
        "[App.exe]: Notes - draft",
        "[Other.exe]: Notes - draft elsewhere",
    ]);
    let chosen = select_candidate("App.exe", "Notes", &candidates, "fb");
    assert_eq!(chosen, "[App.exe]: Notes - draft");
}

#[test]
fn title_match_is_case_insensitive() {
    let candidates = strings(&["[App.exe]: THE SONG", "[App.exe]: something much longer here"]);
    let chosen = select_candidate("App.exe", "the song", &candidates, "fb");
    assert_eq!(chosen, "[App.exe]: THE SONG");
}

#[test]
fn equal_length_ties_go_to_the_later_candidate() {
    let candidates = strings(&["[App.exe]: song A", "[App.exe]: song B"]);
    let chosen = select_candidate("App.exe", "song", &candidates, "fb");
    assert_eq!(chosen, "[App.exe]: song B");
}

#[test]
fn selector_is_deterministic() {
    let candidates = strings(&["[App.exe]: one", "[App.exe]: two longer"]);
    let first = select_candidate("App.exe", "missing", &candidates, "fb");
    let second = select_candidate("App.exe", "missing", &candidates, "fb");
    assert_eq!(first, second);
}

#[test]
fn prefix_must_be_at_the_start() {
    let candidates = strings(&["window [App.exe]: one"]);
    let chosen = select_candidate("App.exe", "one", &candidates, "fb");
    assert_eq!(chosen, "fb");
}
