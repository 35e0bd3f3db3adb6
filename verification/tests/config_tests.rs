use turtle::config::{
    compile_keybinds, compile_mousebinds, parse_action, Action, Config, ConfigError, RonConfig,
};

#[test]
fn parse_action_resolves_every_name() {
    assert_eq!(parse_action(&"quit".to_string()), Action::Quit);
    assert_eq!(parse_action(&"kill".to_string()), Action::Kill);
    assert_eq!(parse_action(&"kill_window".to_string()), Action::Kill);
    assert_eq!(parse_action(&"spawn".to_string()), Action::Spawn);
    assert_eq!(parse_action(&"maximize".to_string()), Action::Maximize);
    assert_eq!(parse_action(&"stack".to_string()), Action::Stack);
    assert_eq!(parse_action(&"shrink".to_string()), Action::Shrink);
    assert_eq!(parse_action(&"next".to_string()), Action::Next);
    assert_eq!(parse_action(&"prev".to_string()), Action::Prev);
    assert_eq!(parse_action(&"last".to_string()), Action::Last);
    assert_eq!(parse_action(&"move".to_string()), Action::Move);
    assert_eq!(parse_action(&"resize".to_string()), Action::Resize);
    assert_eq!(parse_action(&"frobnicate".to_string()), Action::Unknown);
    assert_eq!(parse_action(&"".to_string()), Action::Unknown);
}

#[test]
fn compile_keybinds_keeps_order_and_fields() {
    let raw = vec![
        (64u32, "q".to_string(), "quit".to_string(), None),
        (
            64u32,
            "Return".to_string(),
            "spawn".to_string(),
            Some(vec!["st".to_string(), "-e".to_string(), "sh".to_string()]),
        ),
        (8u32, "k".to_string(), "kill".to_string(), None),
    ];
    let ks = compile_keybinds(raw).unwrap();
    assert_eq!(ks.len(), 3);
    assert_eq!(ks[0].modmask, 64);
    assert_eq!(ks[0].sym, "q");
    assert_eq!(ks[0].action, Action::Quit);
    assert!(ks[0].args.is_empty());
    assert_eq!(ks[1].sym, "Return");
    assert_eq!(ks[1].action, Action::Spawn);
    assert_eq!(ks[1].args, vec!["st", "-e", "sh"]);
    assert_eq!(ks[2].modmask, 8);
    assert_eq!(ks[2].action, Action::Kill);
}

#[test]
fn compile_keybinds_rejects_spawn_without_list() {
    let raw = vec![(64u32, "d".to_string(), "spawn".to_string(), None)];
    assert_eq!(compile_keybinds(raw), Err(ConfigError::SpawnWithoutArgs));
}

#[test]
fn compile_keybinds_rejects_spawn_with_empty_list() {
    let raw = vec![
        (64u32, "q".to_string(), "quit".to_string(), None),
        (64u32, "d".to_string(), "spawn".to_string(), Some(vec![])),
    ];
    assert_eq!(compile_keybinds(raw), Err(ConfigError::SpawnWithoutArgs));
}

#[test]
fn compile_keybinds_keeps_unknown_actions() {
    let raw = vec![(64u32, "z".to_string(), "warp".to_string(), None)];
    let ks = compile_keybinds(raw).unwrap();
    assert_eq!(ks[0].action, Action::Unknown);
}

#[test]
fn compile_mousebinds_keeps_order_and_fields() {
    let raw = vec![
        (64u32, 1u32, "move".to_string()),
        (64u32, 3u32, "resize".to_string()),
    ];
    let ms = compile_mousebinds(raw);
    assert_eq!(ms.len(), 2);
    assert_eq!(ms[0].button, 1);
    assert_eq!(ms[0].action, Action::Move);
    assert_eq!(ms[1].button, 3);
    assert_eq!(ms[1].action, Action::Resize);
}

#[test]
fn config_from_ron_config_takes_the_gaps() {
    let rc = RonConfig {
        top_gap: 20,
        edge_gap: 10,
        keybinds: vec![(64u32, "q".to_string(), "quit".to_string(), None)],
        mousebinds: vec![(64u32, 1u32, "move".to_string())],
    };
    let cfg = Config::from(rc);
    assert_eq!(cfg.top_gap, 20);
    assert_eq!(cfg.edge_gap, 10);
}
