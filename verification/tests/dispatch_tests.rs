use turtle::config::{compile_keybinds, compile_mousebinds};
use turtle::dispatch::{find_keybind, find_mousebind};

fn keys(entries: &[(&str, &str)]) -> Vec<turtle::config::Keybind> {
    let raw = entries
        .iter()
        .map(|(sym, action)| (64u32, sym.to_string(), action.to_string(), None))
        .collect();
    compile_keybinds(raw).unwrap()
}

#[test]
fn find_keybind_returns_the_first_match() {
    let ks = keys(&[("a", "stack"), ("x", "maximize"), ("x", "kill")]);
    assert_eq!(find_keybind(&ks, &"x".to_string()), Some(1));
}

#[test]
fn find_keybind_misses_cleanly() {
    let ks = keys(&[("a", "stack")]);
    assert_eq!(find_keybind(&ks, &"b".to_string()), None);
    assert_eq!(find_keybind(&Vec::new(), &"a".to_string()), None);
}

#[test]
fn find_mousebind_matches_by_button() {
    let ms = compile_mousebinds(vec![
        (64u32, 1u32, "move".to_string()),
        (64u32, 3u32, "resize".to_string()),
        (64u32, 3u32, "move".to_string()),
    ]);
    assert_eq!(find_mousebind(&ms, 3), Some(1));
    assert_eq!(find_mousebind(&ms, 2), None);
}
