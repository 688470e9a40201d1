use voiceflow::{KeyCode, Modifier, Modifiers, Shortcut, ShortcutConfig};

fn config(modifiers: &[&str], key: &str) -> ShortcutConfig {
    ShortcutConfig::new(modifiers.iter().map(|m| m.to_string()).collect(), key.to_string())
}

fn none() -> Modifiers {
    Modifiers { alt: false, control: false, shift: false, super_key: false }
}

#[test]
fn default_is_alt_space() {
    let default = ShortcutConfig::default();
    assert_eq!(default.modifiers, vec!["Alt".to_string()]);
    assert_eq!(default.key, "Space");
}

#[test]
fn default_resolves_to_alt_space() {
    let shortcut = ShortcutConfig::default().to_shortcut();
    assert_eq!(
        shortcut,
        Some(Shortcut { mods: Modifiers { alt: true, ..none() }, key: KeyCode::Space })
    );
}

#[test]
fn names_are_matched_without_regard_to_case() {
    let shortcut = config(&["SHIFT", "cOnTrOl"], "A").to_shortcut();
    assert_eq!(
        shortcut,
        Some(Shortcut {
            mods: Modifiers { shift: true, control: true, ..none() },
            key: KeyCode::KeyA
        })
    );
    assert_eq!(config(&[], "f12").to_shortcut().map(|s| s.key), Some(KeyCode::F12));
    assert_eq!(config(&[], "F12").to_shortcut().map(|s| s.key), Some(KeyCode::F12));
    assert_eq!(config(&[], "SPACE").to_shortcut().map(|s| s.key), Some(KeyCode::Space));
}

#[test]
fn lowercasing_is_unicode_lowercasing() {
    // U+212A, the Kelvin sign, lowercases to the letter k.
    assert_eq!(config(&[], "\u{212A}").to_shortcut().map(|s| s.key), Some(KeyCode::KeyK));
}

#[test]
fn every_modifier_alias_is_known() {
    for name in ["alt", "option", "Alt", "OPTION"] {
        let mods = config(&[name], "a").to_shortcut().unwrap().mods;
        assert_eq!(mods, Modifiers { alt: true, ..none() }, "{name}");
    }
    for name in ["ctrl", "control", "Ctrl"] {
        let mods = config(&[name], "a").to_shortcut().unwrap().mods;
        assert_eq!(mods, Modifiers { control: true, ..none() }, "{name}");
    }
    for name in ["shift", "Shift"] {
        let mods = config(&[name], "a").to_shortcut().unwrap().mods;
        assert_eq!(mods, Modifiers { shift: true, ..none() }, "{name}");
    }
    for name in ["super", "cmd", "command", "meta", "Cmd", "META"] {
        let mods = config(&[name], "a").to_shortcut().unwrap().mods;
        assert_eq!(mods, Modifiers { super_key: true, ..none() }, "{name}");
    }
}

#[test]
fn unknown_modifiers_are_passed_over() {
    let shortcut = config(&["hyper", "", "alt gr", "shift"], "z").to_shortcut();
    assert_eq!(
        shortcut,
        Some(Shortcut { mods: Modifiers { shift: true, ..none() }, key: KeyCode::KeyZ })
    );
}

#[test]
fn repeated_modifiers_count_once() {
    let shortcut = config(&["alt", "option", "Alt"], "1").to_shortcut();
    assert_eq!(
        shortcut,
        Some(Shortcut { mods: Modifiers { alt: true, ..none() }, key: KeyCode::Digit1 })
    );
}

#[test]
fn no_modifiers_is_a_shortcut_too() {
    let shortcut = config(&[], "f5").to_shortcut().unwrap();
    assert_eq!(shortcut.key, KeyCode::F5);
    assert!(shortcut.mods.is_empty());
    assert!(!shortcut.mods.contains(Modifier::Alt));
}

#[test]
fn all_four_modifiers_together() {
    let shortcut = config(&["alt", "ctrl", "shift", "cmd"], "q").to_shortcut().unwrap();
    assert_eq!(
        shortcut.mods,
        Modifiers { alt: true, control: true, shift: true, super_key: true }
    );
    assert!(!shortcut.mods.is_empty());
    for m in [Modifier::Alt, Modifier::Control, Modifier::Shift, Modifier::Super] {
        assert!(shortcut.mods.contains(m));
    }
}

#[test]
fn an_unknown_key_does_not_resolve() {
    assert_eq!(config(&[], "NotAKey").to_shortcut(), None);
    assert_eq!(config(&["alt"], "").to_shortcut(), None);
    assert_eq!(config(&["alt"], "f13").to_shortcut(), None);
    assert_eq!(config(&["alt"], "f0").to_shortcut(), None);
    assert_eq!(config(&["alt"], "ab").to_shortcut(), None);
    assert_eq!(config(&["alt"], " a").to_shortcut(), None);
    assert_eq!(config(&["alt"], "enter").to_shortcut(), None);
}

#[test]
fn modifiers_alone_do_not_resolve() {
    assert_eq!(config(&["alt", "shift"], "shift").to_shortcut(), None);
    assert_eq!(config(&["alt"], "alt").to_shortcut(), None);
}

#[test]
fn display_of_the_default() {
    assert_eq!(ShortcutConfig::default().display_string(), "\u{2325} Space");
}

#[test]
fn display_shows_each_modifier_sign_in_order() {
    let shown = config(&["ctrl", "Shift", "cmd", "option"], "K").display_string();
    assert_eq!(shown, "\u{2303} \u{21E7} \u{2318} \u{2325} K");
}

#[test]
fn display_keeps_the_key_as_written() {
    assert_eq!(config(&[], "NotAKey").display_string(), "NotAKey");
    assert_eq!(config(&["shift"], "a").display_string(), "\u{21E7} a");
    assert_eq!(config(&["shift"], "").display_string(), "\u{21E7} ");
}

#[test]
fn display_repeats_what_is_written_twice_and_skips_the_unknown() {
    let shown = config(&["alt", "hyper", "ALT", "meta"], "F1").display_string();
    assert_eq!(shown, "\u{2325} \u{2325} \u{2318} F1");
}

#[test]
fn a_clone_holds_the_same() {
    let first = config(&["Shift", "x"], "A");
    let copy = first.clone();
    assert_eq!(copy.modifiers, first.modifiers);
    assert_eq!(copy.key, first.key);
}
