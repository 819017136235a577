use torrent_throttle::monitor::{match_lowered, match_patterns};

fn strings(items: &[&str]) -> Vec<String> {
    items.iter().map(|s| s.to_string()).collect()
}

#[test]
fn matches_case_insensitively_and_once() {
    let names = strings(&["Steam", "firefox", "steamwebhelper", "Steam", "bash"]);
    let patterns = strings(&["STEAM", ""]);
    assert_eq!(match_patterns(&names, &patterns), strings(&["Steam", "steamwebhelper"]));
}

#[test]
fn matches_on_given_lowered_forms() {
    let names = strings(&["Steam", "bash", "Steam", "GAME"]);
    // The lowered forms are taken as given, not recomputed.
    let lowered = strings(&["steam", "bash", "steam", "other"]);
    let patterns = strings(&["ste", "", "game"]);
    assert_eq!(match_lowered(&names, &lowered, &patterns), strings(&["Steam"]));
    assert!(match_lowered(&names, &lowered, &strings(&[""])).is_empty());
}
