use std::path::PathBuf;
use voiceflow::{
    KeyCode, Modifiers, RebindError, RegistryAction, Shortcut, ShortcutConfig, ShortcutManager,
    ShortcutRegistry,
};

/// A stand-in for the platform: it remembers what is bound, refuses what it
/// is told to refuse, and keeps what it is handed to store.
struct Platform {
    bound: Vec<Shortcut>,
    refused: Vec<Shortcut>,
    stored: Option<ShortcutConfig>,
    registrations: usize,
}

impl Platform {
    fn new() -> Self {
        Platform { bound: Vec::new(), refused: Vec::new(), stored: None, registrations: 0 }
    }

    fn register(&mut self, shortcut: Shortcut) -> bool {
        self.registrations += 1;
        if self.refused.contains(&shortcut) || self.bound.contains(&shortcut) {
            return false;
        }
        self.bound.push(shortcut);
        true
    }

    fn unregister(&mut self, shortcut: Shortcut) {
        self.bound.retain(|s| *s != shortcut);
    }

    /// Performs actions until the operation is over.
    fn drive(
        &mut self,
        registry: &mut ShortcutRegistry,
        first: RegistryAction,
    ) -> Result<(), RebindError> {
        let mut action = first;
        loop {
            match action {
                RegistryAction::Claim { release, claim } => {
                    if let Some(old) = release {
                        self.unregister(old);
                    }
                    let ok = self.register(claim);
                    assert!(self.bound.len() <= 1);
                    action = registry.registered(ok);
                }
                RegistryAction::Committed { persist } => {
                    self.stored = Some(persist);
                    return Ok(());
                }
                RegistryAction::Done(result) => return result,
            }
        }
    }
}

fn config(modifiers: &[&str], key: &str) -> ShortcutConfig {
    ShortcutConfig::new(modifiers.iter().map(|m| m.to_string()).collect(), key.to_string())
}

fn mods(alt: bool, control: bool, shift: bool, super_key: bool) -> Modifiers {
    Modifiers { alt, control, shift, super_key }
}

fn alt_space() -> Shortcut {
    Shortcut { mods: mods(true, false, false, false), key: KeyCode::Space }
}

fn shift_a() -> Shortcut {
    Shortcut { mods: mods(false, false, true, false), key: KeyCode::KeyA }
}

fn registry_with(loaded: Option<ShortcutConfig>) -> ShortcutRegistry {
    ShortcutRegistry::new(ShortcutManager::new(PathBuf::from("shortcut.json"), loaded))
}

fn started(platform: &mut Platform, loaded: Option<ShortcutConfig>) -> ShortcutRegistry {
    let mut registry = registry_with(loaded);
    let first = registry.startup();
    assert_eq!(platform.drive(&mut registry, first), Ok(()));
    registry
}

fn same(config: &ShortcutConfig, modifiers: &[&str], key: &str) -> bool {
    config.modifiers == modifiers && config.key == key
}

#[test]
fn a_new_registry_has_nothing_bound() {
    let registry = registry_with(None);
    assert_eq!(registry.active(), None);
    assert!(registry.is_idle());
    assert!(same(&registry.current_config(), &["Alt"], "Space"));
}

#[test]
fn the_registry_keeps_the_path_of_the_store() {
    let mut platform = Platform::new();
    let path = PathBuf::from("some/dir/shortcut.json");
    let mut registry = ShortcutRegistry::new(ShortcutManager::new(path.clone(), None));
    assert_eq!(registry.manager().config_path(), &path);
    let first = registry.startup();
    assert_eq!(platform.drive(&mut registry, first), Ok(()));
    let first = registry.rebind(config(&["shift"], "a"));
    assert_eq!(platform.drive(&mut registry, first), Ok(()));
    assert_eq!(registry.manager().config_path().clone(), path);
    assert!(same(&registry.manager().get_config(), &["shift"], "a"));
}

#[test]
fn startup_binds_the_stored_shortcut() {
    let mut platform = Platform::new();
    let registry = started(&mut platform, Some(config(&["shift"], "a")));
    assert_eq!(registry.active(), Some(shift_a()));
    assert_eq!(platform.bound, vec![shift_a()]);
    assert!(same(&registry.current_config(), &["shift"], "a"));
    assert!(registry.is_idle());
}

#[test]
fn startup_without_a_stored_shortcut_binds_the_default() {
    let mut platform = Platform::new();
    let registry = started(&mut platform, None);
    assert_eq!(registry.active(), Some(alt_space()));
    assert_eq!(platform.bound, vec![alt_space()]);
    assert_eq!(platform.registrations, 1);
}

#[test]
fn startup_falls_back_when_the_stored_shortcut_does_not_resolve() {
    let mut platform = Platform::new();
    let registry = started(&mut platform, Some(config(&["alt"], "NotAKey")));
    assert_eq!(registry.active(), Some(alt_space()));
    assert_eq!(platform.bound, vec![alt_space()]);
    assert!(same(&registry.current_config(), &["Alt"], "Space"));
}

#[test]
fn startup_falls_back_when_the_stored_shortcut_is_refused() {
    let mut platform = Platform::new();
    platform.refused.push(shift_a());
    let registry = started(&mut platform, Some(config(&["shift"], "a")));
    assert_eq!(registry.active(), Some(alt_space()));
    assert_eq!(platform.bound, vec![alt_space()]);
    assert_eq!(platform.registrations, 2);
    assert!(same(&registry.current_config(), &["Alt"], "Space"));
}

#[test]
fn startup_gives_up_when_the_default_is_refused_too() {
    let mut platform = Platform::new();
    platform.refused.push(shift_a());
    platform.refused.push(alt_space());
    let mut registry = registry_with(Some(config(&["shift"], "a")));
    let first = registry.startup();
    assert_eq!(
        platform.drive(&mut registry, first),
        Err(RebindError::RegistrationFailed)
    );
    assert_eq!(registry.active(), None);
    assert!(platform.bound.is_empty());
    assert!(registry.is_idle());
    assert_eq!(platform.registrations, 2);
}

#[test]
fn startup_does_not_try_the_default_twice() {
    let mut platform = Platform::new();
    platform.refused.push(alt_space());
    let mut registry = registry_with(None);
    let first = registry.startup();
    assert_eq!(
        platform.drive(&mut registry, first),
        Err(RebindError::RegistrationFailed)
    );
    assert_eq!(platform.registrations, 1);
}

#[test]
fn a_second_startup_asks_for_nothing() {
    let mut platform = Platform::new();
    let mut registry = started(&mut platform, None);
    assert!(matches!(registry.startup(), RegistryAction::Done(Ok(()))));
    assert_eq!(registry.active(), Some(alt_space()));
}

#[test]
fn rebind_from_the_default_to_shift_a() {
    let mut platform = Platform::new();
    let mut registry = started(&mut platform, None);
    assert!(same(&registry.current_config(), &["Alt"], "Space"));

    let first = registry.rebind(config(&["Shift"], "A"));
    match &first {
        RegistryAction::Claim { release, claim } => {
            assert_eq!(*release, Some(alt_space()));
            assert_eq!(*claim, shift_a());
        }
        other => panic!("unexpected action {other:?}"),
    }
    assert_eq!(platform.drive(&mut registry, first), Ok(()));

    assert!(same(&registry.current_config(), &["Shift"], "A"));
    assert_eq!(registry.active(), Some(shift_a()));
    assert_eq!(platform.bound, vec![shift_a()]);

    // What was handed over to be stored is what a later start reads back.
    let stored = platform.stored.take().expect("the new definition is stored");
    assert!(same(&stored, &["Shift"], "A"));
    let reloaded = ShortcutManager::new(PathBuf::from("shortcut.json"), Some(stored));
    assert!(same(&reloaded.get_config(), &["Shift"], "A"));
}

#[test]
fn rebind_to_an_unknown_key_is_invalid() {
    let mut platform = Platform::new();
    let mut registry = started(&mut platform, None);
    let action = registry.rebind(config(&[], "NotAKey"));
    assert!(matches!(action, RegistryAction::Done(Err(RebindError::InvalidShortcut))));
    assert!(same(&registry.current_config(), &["Alt"], "Space"));
    assert_eq!(registry.active(), Some(alt_space()));
    assert_eq!(platform.bound, vec![alt_space()]);
    assert!(platform.stored.is_none());
    assert!(registry.is_idle());
}

#[test]
fn a_refused_rebind_is_rolled_back() {
    let mut platform = Platform::new();
    let mut registry = started(&mut platform, None);
    platform.refused.push(shift_a());

    let first = registry.rebind(config(&["shift"], "a"));
    assert_eq!(
        platform.drive(&mut registry, first),
        Err(RebindError::RegistrationFailed)
    );
    assert!(same(&registry.current_config(), &["Alt"], "Space"));
    assert_eq!(registry.active(), Some(alt_space()));
    assert_eq!(platform.bound, vec![alt_space()]);
    assert!(platform.stored.is_none());
    assert!(registry.is_idle());
}

#[test]
fn the_steps_of_a_rollback() {
    let mut registry = registry_with(None);
    assert!(matches!(registry.startup(), RegistryAction::Claim { release: None, .. }));
    assert!(matches!(registry.registered(true), RegistryAction::Done(Ok(()))));

    let asked = registry.rebind(config(&["shift"], "a"));
    assert!(matches!(
        asked,
        RegistryAction::Claim { release: Some(r), claim } if r == alt_space() && claim == shift_a()
    ));
    assert_eq!(registry.active(), None);
    assert!(!registry.is_idle());
    assert!(same(&registry.current_config(), &["Alt"], "Space"));

    let refused = registry.registered(false);
    assert!(matches!(
        refused,
        RegistryAction::Claim { release: None, claim } if claim == alt_space()
    ));
    assert!(same(&registry.current_config(), &["Alt"], "Space"));

    let restored = registry.registered(true);
    assert!(matches!(restored, RegistryAction::Done(Err(RebindError::RegistrationFailed))));
    assert_eq!(registry.active(), Some(alt_space()));
    assert!(registry.is_idle());
}

#[test]
fn a_rollback_that_is_refused_leaves_the_trigger_unbound() {
    let mut registry = registry_with(None);
    registry.startup();
    registry.registered(true);
    registry.rebind(config(&["shift"], "a"));
    registry.registered(false);
    let end = registry.registered(false);
    assert!(matches!(end, RegistryAction::Done(Err(RebindError::RegistrationFailed))));
    assert_eq!(registry.active(), None);
    assert!(registry.is_idle());
    assert!(same(&registry.current_config(), &["Alt"], "Space"));
}

#[test]
fn a_refused_rebind_with_nothing_bound_ends_at_once() {
    let mut registry = registry_with(None);
    let asked = registry.rebind(config(&["shift"], "a"));
    assert!(matches!(asked, RegistryAction::Claim { release: None, .. }));
    let end = registry.registered(false);
    assert!(matches!(end, RegistryAction::Done(Err(RebindError::RegistrationFailed))));
    assert_eq!(registry.active(), None);
    assert!(registry.is_idle());
}

#[test]
fn a_rebind_during_another_is_turned_away() {
    let mut registry = registry_with(None);
    registry.startup();
    assert!(matches!(
        registry.rebind(config(&["shift"], "a")),
        RegistryAction::Done(Err(RebindError::Busy))
    ));
    assert!(matches!(registry.startup(), RegistryAction::Done(Err(RebindError::Busy))));
    // An unresolvable definition is invalid whatever is going on.
    assert!(matches!(
        registry.rebind(config(&[], "NotAKey")),
        RegistryAction::Done(Err(RebindError::InvalidShortcut))
    ));
    registry.registered(true);
    assert!(matches!(
        registry.rebind(config(&["shift"], "a")),
        RegistryAction::Claim { .. }
    ));
}

#[test]
fn a_report_nobody_asked_for_changes_nothing() {
    let mut platform = Platform::new();
    let mut registry = started(&mut platform, None);
    assert!(matches!(registry.registered(false), RegistryAction::Done(Ok(()))));
    assert!(matches!(registry.registered(true), RegistryAction::Done(Ok(()))));
    assert_eq!(registry.active(), Some(alt_space()));
    assert!(same(&registry.current_config(), &["Alt"], "Space"));
}

#[test]
fn rebinding_twice_keeps_one_bound() {
    let mut platform = Platform::new();
    let mut registry = started(&mut platform, None);
    for (modifiers, key) in [(vec!["ctrl"], "f1"), (vec!["cmd", "shift"], "9"), (vec![], "space")] {
        let first = registry.rebind(config(&modifiers, key));
        assert_eq!(platform.drive(&mut registry, first), Ok(()));
        assert_eq!(platform.bound.len(), 1);
        assert_eq!(registry.active(), Some(platform.bound[0]));
        assert!(same(&registry.current_config(), &modifiers, key));
    }
    assert_eq!(
        platform.bound,
        vec![Shortcut { mods: mods(false, false, false, false), key: KeyCode::Space }]
    );
}

#[test]
fn error_messages() {
    assert_eq!(RebindError::InvalidShortcut.message(), "Invalid shortcut configuration");
    assert_eq!(RebindError::RegistrationFailed.message(), "Failed to register shortcut");
    assert_eq!(RebindError::Busy.message(), "Another shortcut change is in progress");
}
