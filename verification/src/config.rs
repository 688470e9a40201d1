//! The stored definition of the hotkey: some modifier names and a key name.
//!
//! Names are what the user wrote. They are matched without regard to case,
//! and modifier names that mean nothing are passed over; a key name that
//! means nothing makes the whole definition unresolvable.

use vstd::prelude::*;
use vstd::string::*;
use crate::keys::{
    key_for, key_named, modifier_for, modifier_named, Modifier, Modifiers, Shortcut,
};
use crate::text::{lowercase, to_lowercase};

verus! {

/// The persisted hotkey definition.
#[derive(Debug)]
pub struct ShortcutConfig {
    pub modifiers: Vec<String>,
    pub key: String,
}

/// What a `ShortcutConfig` holds, as plain sequences of characters.
pub struct ConfigView {
    pub modifiers: Seq<Seq<char>>,
    pub key: Seq<char>,
}

impl View for ShortcutConfig {
    type V = ConfigView;

    open spec fn view(&self) -> ConfigView {
        ConfigView { modifiers: self.modifiers.deep_view(), key: self.key@ }
    }
}

/// The built-in definition: Alt and the space bar.
pub open spec fn default_config() -> ConfigView {
    ConfigView { modifiers: seq!["Alt"@], key: "Space"@ }
}

/// Whether one of the names, lowercased, stands for the given modifier.
pub open spec fn names_give(names: Seq<Seq<char>>, modifier: Modifier) -> bool {
    exists|i: int|
        0 <= i < names.len() && modifier_named(lowercase(#[trigger] names[i])) == Some(modifier)
}

/// The modifiers that a list of names stands for.
pub open spec fn resolved_modifiers(names: Seq<Seq<char>>) -> Modifiers {
    Modifiers {
        alt: names_give(names, Modifier::Alt),
        control: names_give(names, Modifier::Control),
        shift: names_give(names, Modifier::Shift),
        super_key: names_give(names, Modifier::Super),
    }
}

/// The key combination that a definition stands for, if its key name is known.
pub open spec fn resolve(config: ConfigView) -> Option<Shortcut> {
    match key_named(lowercase(config.key)) {
        Some(key) => Some(Shortcut { mods: resolved_modifiers(config.modifiers), key }),
        None => None,
    }
}

/// The sign under which a modifier is shown to the user.
pub open spec fn symbol_of(modifier: Modifier) -> Seq<char> {
    match modifier {
        Modifier::Alt => "\u{2325}"@,
        Modifier::Control => "\u{2303}"@,
        Modifier::Shift => "\u{21E7}"@,
        Modifier::Super => "\u{2318}"@,
    }
}

/// The signs of the names that stand for a modifier, in the order written and
/// each followed by a space. A name written twice shows twice.
pub open spec fn display_prefix(names: Seq<Seq<char>>) -> Seq<char>
    decreases names.len(),
{
    if names.len() == 0 {
        Seq::empty()
    } else {
        let earlier = display_prefix(names.drop_last());
        match modifier_named(lowercase(names.last())) {
            Some(modifier) => earlier + symbol_of(modifier) + " "@,
            None => earlier,
        }
    }
}

/// How a definition is shown to the user: the modifier signs, then the key
/// name as written, with single spaces between.
pub open spec fn display_text(config: ConfigView) -> Seq<char> {
    display_prefix(config.modifiers) + config.key
}

/// The sign under which a modifier is shown to the user.
pub fn symbol(modifier: Modifier) -> (sign: &'static str)
    ensures
        sign@ == symbol_of(modifier),
{
    match modifier {
        Modifier::Alt => "\u{2325}",
        Modifier::Control => "\u{2303}",
        Modifier::Shift => "\u{21E7}",
        Modifier::Super => "\u{2318}",
    }
}

impl Clone for ShortcutConfig {
    fn clone(&self) -> (copy: Self)
        ensures
            copy@ == self@,
    {
        let copy = ShortcutConfig { modifiers: self.modifiers.clone(), key: self.key.clone() };
        assert(copy.modifiers.deep_view() =~= self.modifiers.deep_view());
        copy
    }
}

impl Default for ShortcutConfig {
    fn default() -> (config: Self)
        ensures
            config@ == default_config(),
    {
        let mut modifiers: Vec<String> = Vec::new();
        modifiers.push("Alt".to_owned());
        let config = ShortcutConfig { modifiers, key: "Space".to_owned() };
        assert(config.modifiers.deep_view() =~= seq!["Alt"@]);
        config
    }
}

impl ShortcutConfig {
    /// A definition from its parts.
    pub fn new(modifiers: Vec<String>, key: String) -> (config: Self)
        ensures
            config.modifiers == modifiers,
            config.key == key,
    {
        ShortcutConfig { modifiers, key }
    }

    /// Resolves the definition to a key combination.
    ///
    /// Returns `None` exactly when the key name, lowercased, is not the name
    /// of a key. Modifier names that are not known are ignored.
    pub fn to_shortcut(&self) -> (shortcut: Option<Shortcut>)
        ensures
            shortcut == resolve(self@),
    {
        let ghost names = self@.modifiers;
        let mut mods = Modifiers::empty();
        let mut i: usize = 0;
        while i < self.modifiers.len()
            invariant
                i <= self.modifiers.len(),
                names == self@.modifiers,
                forall|m: Modifier| mods.has(m) == names_give(names.take(i as int), m),
            decreases self.modifiers.len() - i,
        {
            let lowered = to_lowercase(self.modifiers[i].as_str());
            let found = modifier_for(lowered.as_str());
            let ghost before = mods;
            if let Some(modifier) = found {
                mods.insert(modifier);
            }
            proof {
                let shorter = names.take(i as int);
                let longer = names.take(i as int + 1);
                assert(longer[i as int] == self.modifiers@[i as int]@);
                assert forall|m: Modifier| mods.has(m) == names_give(longer, m) by {
                    if names_give(longer, m) {
                        let j = choose|j: int|
                            0 <= j < longer.len() && modifier_named(lowercase(#[trigger] longer[j]))
                                == Some(m);
                        if j < i {
                            assert(shorter[j] == longer[j]);
                        }
                    }
                    if before.has(m) {
                        let j = choose|j: int|
                            0 <= j < shorter.len() && modifier_named(
                                lowercase(#[trigger] shorter[j]),
                            ) == Some(m);
                        assert(longer[j] == shorter[j]);
                    }
                }
            }
            i += 1;
        }
        assert(names.take(i as int) =~= names);
        let lowered_key = to_lowercase(self.key.as_str());
        match key_for(lowered_key.as_str()) {
            Some(key) => {
                assert(mods.has(Modifier::Alt) == names_give(names, Modifier::Alt));
                assert(mods.has(Modifier::Control) == names_give(names, Modifier::Control));
                assert(mods.has(Modifier::Shift) == names_give(names, Modifier::Shift));
                assert(mods.has(Modifier::Super) == names_give(names, Modifier::Super));
                Some(Shortcut { mods, key })
            },
            None => None,
        }
    }

    /// The text under which the definition is shown to the user.
    pub fn display_string(&self) -> (text: String)
        ensures
            text@ == display_text(self@),
    {
        let ghost names = self@.modifiers;
        let mut text = String::new();
        let mut i: usize = 0;
        while i < self.modifiers.len()
            invariant
                i <= self.modifiers.len(),
                names == self@.modifiers,
                text@ == display_prefix(names.take(i as int)),
            decreases self.modifiers.len() - i,
        {
            let lowered = to_lowercase(self.modifiers[i].as_str());
            proof {
                let longer = names.take(i as int + 1);
                assert(longer.drop_last() =~= names.take(i as int));
                assert(longer.last() == self.modifiers@[i as int]@);
            }
            if let Some(modifier) = modifier_for(lowered.as_str()) {
                text.append(symbol(modifier));
                text.append(" ");
            }
            i += 1;
        }
        assert(names.take(i as int) =~= names);
        text.append(self.key.as_str());
        text
    }
}

proof fn lemma_names_give_by_membership(
    first: Seq<Seq<char>>,
    second: Seq<Seq<char>>,
    modifier: Modifier,
)
    requires
        forall|name: Seq<char>| first.contains(name) ==> second.contains(name),
        names_give(first, modifier),
    ensures
        names_give(second, modifier),
{
    let i = choose|i: int|
        0 <= i < first.len() && modifier_named(lowercase(#[trigger] first[i])) == Some(modifier);
    assert(first.contains(first[i]));
    let j = choose|j: int| 0 <= j < second.len() && second[j] == first[i];
    assert(modifier_named(lowercase(second[j])) == Some(modifier));
}

/// The modifier names of a definition count as a set: two lists that hold
/// the same names, in whatever order and however often, stand for the same
/// modifiers.
pub proof fn law_modifier_names_form_a_set(first: Seq<Seq<char>>, second: Seq<Seq<char>>)
    requires
        forall|name: Seq<char>| first.contains(name) <==> second.contains(name),
    ensures
        resolved_modifiers(first) == resolved_modifiers(second),
{
    assert forall|modifier: Modifier|
        names_give(first, modifier) == names_give(second, modifier) by {
        if names_give(first, modifier) {
            lemma_names_give_by_membership(first, second, modifier);
        }
        if names_give(second, modifier) {
            lemma_names_give_by_membership(second, first, modifier);
        }
    }
}

/// A definition resolves exactly when its key name is known; the modifier
/// names have no part in that.
pub proof fn law_only_the_key_decides(config: ConfigView, modifiers: Seq<Seq<char>>)
    ensures
        resolve(config) is Some <==> key_named(lowercase(config.key)) is Some,
        resolve(ConfigView { modifiers, key: config.key }) is Some <==> resolve(config) is Some,
{
}

} // verus!
