//! The binding of the global hotkey, and its replacement with rollback.
//!
//! The registry never talks to the platform. It hands out one action at a
//! time; the shell performs it and reports how it went, and the registry
//! answers with the next action until the operation is over. While an
//! operation is under way a second one is turned away, so the actions of two
//! operations are never interleaved.
//!
//! What the registry calls `active` is the combination it knows to be bound.
//! It is empty from the moment a replacement is handed out until the platform
//! has confirmed a registration.

use vstd::prelude::*;
use crate::config::{default_config, resolve, ConfigView, ShortcutConfig};
use crate::keys::{KeyCode, Modifiers, Shortcut};
use crate::manager::ShortcutManager;

verus! {

/// Why a change of the hotkey did not take effect.
#[derive(Clone, Copy, Debug, PartialEq, Eq, Structural)]
pub enum RebindError {
    /// The definition does not resolve to a key combination.
    InvalidShortcut,
    /// The platform refused to bind the combination.
    RegistrationFailed,
    /// Another operation on the registry is still under way.
    Busy,
}

impl RebindError {
    /// The words in which the error is told to the user.
    pub open spec fn text(self) -> Seq<char> {
        match self {
            RebindError::InvalidShortcut => "Invalid shortcut configuration"@,
            RebindError::RegistrationFailed => "Failed to register shortcut"@,
            RebindError::Busy => "Another shortcut change is in progress"@,
        }
    }

    /// The words in which the error is told to the user.
    pub fn message(self) -> (message: &'static str)
        ensures
            message@ == self.text(),
    {
        match self {
            RebindError::InvalidShortcut => "Invalid shortcut configuration",
            RebindError::RegistrationFailed => "Failed to register shortcut",
            RebindError::Busy => "Another shortcut change is in progress",
        }
    }
}

/// What the shell is to do next.
#[derive(Debug)]
pub enum RegistryAction {
    /// Unregister `release`, if there is one, without regard to how that
    /// goes; then register `claim` and report the outcome with `registered`.
    Claim { release: Option<Shortcut>, claim: Shortcut },
    /// The new definition is in effect. Write it to the store; a failure to
    /// write is logged and does not undo the change.
    Committed { persist: ShortcutConfig },
    /// The operation is over, with this result.
    Done(Result<(), RebindError>),
}

/// A `RegistryAction` with the definition it carries as plain sequences.
pub enum ActionView {
    Claim { release: Option<Shortcut>, claim: Shortcut },
    Committed { persist: ConfigView },
    Done(Result<(), RebindError>),
}

impl View for RegistryAction {
    type V = ActionView;

    open spec fn view(&self) -> ActionView {
        match *self {
            RegistryAction::Claim { release, claim } => ActionView::Claim { release, claim },
            RegistryAction::Committed { persist } => ActionView::Committed { persist: persist@ },
            RegistryAction::Done(result) => ActionView::Done(result),
        }
    }
}

/// Where the registry stands between two reports of the shell.
pub enum PhaseView {
    /// No operation is under way.
    Idle,
    /// The first registration after startup is out. `fallback` says whether
    /// the built-in combination is still to be tried should this one fail.
    Booting { claim: Shortcut, fallback: bool },
    /// The registration of a new combination is out; `previous` is what was
    /// bound before and has been given up for it.
    Claiming { candidate: ConfigView, claim: Shortcut, previous: Option<Shortcut> },
    /// The new combination was refused and the registration of the previous
    /// one is out again.
    Restoring { target: Shortcut },
}

/// The registry as the contracts see it.
pub struct RegistryView {
    /// The definition in effect.
    pub current: ConfigView,
    /// The combination known to be bound.
    pub active: Option<Shortcut>,
    pub phase: PhaseView,
}

/// The built-in combination: Alt and the space bar.
pub open spec fn default_shortcut() -> Shortcut {
    Shortcut {
        mods: Modifiers { alt: true, control: false, shift: false, super_key: false },
        key: KeyCode::Space,
    }
}

/// The registry as it is made: nothing bound, nothing under way.
pub open spec fn initial(config: ConfigView) -> RegistryView {
    RegistryView { current: config, active: None, phase: PhaseView::Idle }
}

/// Startup: bind the combination of the definition in effect, or the
/// built-in one where the definition does not resolve.
pub open spec fn startup_step(state: RegistryView) -> (RegistryView, ActionView) {
    if state.phase != PhaseView::Idle {
        (state, ActionView::Done(Err(RebindError::Busy)))
    } else if state.active is Some {
        (state, ActionView::Done(Ok(())))
    } else {
        match resolve(state.current) {
            Some(claim) => (
                RegistryView {
                    phase: PhaseView::Booting { claim, fallback: claim != default_shortcut() },
                    ..state
                },
                ActionView::Claim { release: None, claim },
            ),
            None => (
                RegistryView {
                    current: default_config(),
                    phase: PhaseView::Booting { claim: default_shortcut(), fallback: false },
                    ..state
                },
                ActionView::Claim { release: None, claim: default_shortcut() },
            ),
        }
    }
}

/// A request to replace the definition in effect.
pub open spec fn rebind_step(state: RegistryView, candidate: ConfigView) -> (
    RegistryView,
    ActionView,
) {
    match resolve(candidate) {
        None => (state, ActionView::Done(Err(RebindError::InvalidShortcut))),
        Some(claim) => if state.phase != PhaseView::Idle {
            (state, ActionView::Done(Err(RebindError::Busy)))
        } else {
            (
                RegistryView {
                    active: None,
                    phase: PhaseView::Claiming { candidate, claim, previous: state.active },
                    ..state
                },
                ActionView::Claim { release: state.active, claim },
            )
        },
    }
}

/// The shell's report of how the registration it was asked for went.
pub open spec fn registered_step(state: RegistryView, ok: bool) -> (RegistryView, ActionView) {
    match state.phase {
        PhaseView::Idle => (state, ActionView::Done(Ok(()))),
        PhaseView::Booting { claim, fallback } => if ok {
            (
                RegistryView { active: Some(claim), phase: PhaseView::Idle, ..state },
                ActionView::Done(Ok(())),
            )
        } else if fallback {
            (
                RegistryView {
                    current: default_config(),
                    phase: PhaseView::Booting { claim: default_shortcut(), fallback: false },
                    ..state
                },
                ActionView::Claim { release: None, claim: default_shortcut() },
            )
        } else {
            (
                RegistryView { phase: PhaseView::Idle, ..state },
                ActionView::Done(Err(RebindError::RegistrationFailed)),
            )
        },
        PhaseView::Claiming { candidate, claim, previous } => if ok {
            (
                RegistryView { current: candidate, active: Some(claim), phase: PhaseView::Idle },
                ActionView::Committed { persist: candidate },
            )
        } else {
            match previous {
                Some(previous) => (
                    RegistryView { phase: PhaseView::Restoring { target: previous }, ..state },
                    ActionView::Claim { release: None, claim: previous },
                ),
                None => (
                    RegistryView { phase: PhaseView::Idle, ..state },
                    ActionView::Done(Err(RebindError::RegistrationFailed)),
                ),
            }
        },
        PhaseView::Restoring { target } => (
            RegistryView {
                active: if ok {
                    Some(target)
                } else {
                    None
                },
                phase: PhaseView::Idle,
                ..state
            },
            ActionView::Done(Err(RebindError::RegistrationFailed)),
        ),
    }
}

/// Whether a definition and a combination belong together: the definition
/// resolves to the combination, or both are the built-in ones.
pub open spec fn stands_for(config: ConfigView, shortcut: Shortcut) -> bool {
    resolve(config) == Some(shortcut) || (config == default_config() && shortcut
        == default_shortcut())
}

/// Whether the definition in effect and the combinations the registry holds
/// belong together, and nothing counts as bound while a registration is
/// outstanding.
pub open spec fn in_sync(state: RegistryView) -> bool {
    match state.phase {
        PhaseView::Idle => state.active matches Some(shortcut) ==> stands_for(
            state.current,
            shortcut,
        ),
        PhaseView::Booting { claim, .. } => {
            &&& state.active is None
            &&& stands_for(state.current, claim)
        },
        PhaseView::Claiming { candidate, claim, previous } => {
            &&& state.active is None
            &&& resolve(candidate) == Some(claim)
            &&& previous matches Some(shortcut) ==> stands_for(state.current, shortcut)
        },
        PhaseView::Restoring { target } => {
            &&& state.active is None
            &&& stands_for(state.current, target)
        },
    }
}

enum Phase {
    Idle,
    Booting { claim: Shortcut, fallback: bool },
    Claiming { candidate: ShortcutConfig, claim: Shortcut, previous: Option<Shortcut> },
    Restoring { target: Shortcut },
}

impl View for Phase {
    type V = PhaseView;

    closed spec fn view(&self) -> PhaseView {
        match *self {
            Phase::Idle => PhaseView::Idle,
            Phase::Booting { claim, fallback } => PhaseView::Booting { claim, fallback },
            Phase::Claiming { candidate, claim, previous } => PhaseView::Claiming {
                candidate: candidate@,
                claim,
                previous,
            },
            Phase::Restoring { target } => PhaseView::Restoring { target },
        }
    }
}

/// The one place that knows which combination is bound to the trigger.
pub struct ShortcutRegistry {
    manager: ShortcutManager,
    active: Option<Shortcut>,
    phase: Phase,
}

impl View for ShortcutRegistry {
    type V = RegistryView;

    closed spec fn view(&self) -> RegistryView {
        RegistryView { current: self.manager.config(), active: self.active, phase: self.phase@ }
    }
}

/// The built-in combination: Alt and the space bar.
pub fn builtin_shortcut() -> (shortcut: Shortcut)
    ensures
        shortcut == default_shortcut(),
{
    Shortcut {
        mods: Modifiers { alt: true, control: false, shift: false, super_key: false },
        key: KeyCode::Space,
    }
}

impl ShortcutRegistry {
    #[verifier::type_invariant]
    spec fn holds_together(self) -> bool {
        in_sync(self@)
    }

    /// The manager that holds the definition in effect and the store's path.
    pub closed spec fn store(&self) -> ShortcutManager {
        self.manager
    }

    /// A registry over the given manager, with nothing bound yet.
    pub fn new(manager: ShortcutManager) -> (registry: Self)
        ensures
            registry@ == initial(manager.config()),
            registry.store() == manager,
            in_sync(registry@),
    {
        ShortcutRegistry { manager, active: None, phase: Phase::Idle }
    }

    /// The definition in effect.
    pub fn current_config(&self) -> (config: ShortcutConfig)
        ensures
            config@ == self@.current,
            in_sync(self@),
    {
        proof {
            use_type_invariant(self);
        }
        self.manager.get_config()
    }

    /// The combination known to be bound. Where there is one and no
    /// operation is under way, it belongs to the definition in effect.
    pub fn active(&self) -> (active: Option<Shortcut>)
        ensures
            active == self@.active,
            in_sync(self@),
    {
        proof {
            use_type_invariant(self);
        }
        self.active
    }

    /// Whether no operation is under way.
    pub fn is_idle(&self) -> (idle: bool)
        ensures
            idle == (self@.phase == PhaseView::Idle),
    {
        match self.phase {
            Phase::Idle => true,
            _ => false,
        }
    }

    /// The manager that holds the definition in effect and the store's path.
    pub fn manager(&self) -> (manager: &ShortcutManager)
        ensures
            *manager == self.store(),
            manager.config() == self@.current,
    {
        &self.manager
    }

    /// Begins the binding at startup.
    pub fn startup(&mut self) -> (action: RegistryAction)
        ensures
            (final(self)@, action@) == startup_step(old(self)@),
            final(self).store().path() == old(self).store().path(),
            in_sync(final(self)@),
    {
        proof {
            use_type_invariant(&*self);
        }
        if !self.is_idle() {
            return RegistryAction::Done(Err(RebindError::Busy));
        }
        if self.active.is_some() {
            return RegistryAction::Done(Ok(()));
        }
        match self.manager.get_config().to_shortcut() {
            Some(claim) => {
                self.phase = Phase::Booting { claim, fallback: claim != builtin_shortcut() };
                RegistryAction::Claim { release: None, claim }
            },
            None => {
                self.manager.set_config(ShortcutConfig::default());
                self.phase = Phase::Booting { claim: builtin_shortcut(), fallback: false };
                RegistryAction::Claim { release: None, claim: builtin_shortcut() }
            },
        }
    }

    /// Begins the replacement of the definition in effect by `candidate`.
    ///
    /// A definition that does not resolve is turned away with
    /// `InvalidShortcut` and nothing changes.
    pub fn rebind(&mut self, candidate: ShortcutConfig) -> (action: RegistryAction)
        ensures
            (final(self)@, action@) == rebind_step(old(self)@, candidate@),
            final(self).store() == old(self).store(),
            in_sync(final(self)@),
    {
        proof {
            use_type_invariant(&*self);
        }
        match candidate.to_shortcut() {
            None => RegistryAction::Done(Err(RebindError::InvalidShortcut)),
            Some(claim) => {
                if !self.is_idle() {
                    return RegistryAction::Done(Err(RebindError::Busy));
                }
                let previous = self.active;
                self.active = None;
                self.phase = Phase::Claiming { candidate, claim, previous };
                RegistryAction::Claim { release: previous, claim }
            },
        }
    }

    /// Takes the shell's report of how the registration it was asked for went.
    pub fn registered(&mut self, ok: bool) -> (action: RegistryAction)
        ensures
            (final(self)@, action@) == registered_step(old(self)@, ok),
            final(self).store().path() == old(self).store().path(),
            in_sync(final(self)@),
    {
        proof {
            use_type_invariant(&*self);
        }
        let mut phase = Phase::Idle;
        core::mem::swap(&mut self.phase, &mut phase);
        match phase {
            Phase::Idle => RegistryAction::Done(Ok(())),
            Phase::Booting { claim, fallback } => {
                if ok {
                    self.active = Some(claim);
                    RegistryAction::Done(Ok(()))
                } else if fallback {
                    self.manager.set_config(ShortcutConfig::default());
                    self.phase = Phase::Booting { claim: builtin_shortcut(), fallback: false };
                    RegistryAction::Claim { release: None, claim: builtin_shortcut() }
                } else {
                    RegistryAction::Done(Err(RebindError::RegistrationFailed))
                }
            },
            Phase::Claiming { candidate, claim, previous } => {
                if ok {
                    let persist = candidate.clone();
                    self.manager.set_config(candidate);
                    self.active = Some(claim);
                    RegistryAction::Committed { persist }
                } else {
                    match previous {
                        Some(previous) => {
                            self.phase = Phase::Restoring { target: previous };
                            RegistryAction::Claim { release: None, claim: previous }
                        },
                        None => RegistryAction::Done(Err(RebindError::RegistrationFailed)),
                    }
                }
            },
            Phase::Restoring { target } => {
                self.active = if ok {
                    Some(target)
                } else {
                    None
                };
                RegistryAction::Done(Err(RebindError::RegistrationFailed))
            },
        }
    }
}

/// The combinations bound when exactly the given one is, or none.
pub open spec fn bound_by(active: Option<Shortcut>) -> Set<Shortcut> {
    match active {
        Some(shortcut) => set![shortcut],
        None => Set::empty(),
    }
}

/// What is bound at the platform once the shell has performed an action with
/// the given outcome: a combination that is released is bound no longer, and
/// one that is claimed is bound if the platform accepted it.
pub open spec fn performed(bound: Set<Shortcut>, action: ActionView, ok: bool) -> Set<Shortcut> {
    match action {
        ActionView::Claim { release, claim } => {
            let freed = match release {
                Some(released) => bound.remove(released),
                None => bound,
            };
            if ok {
                freed.insert(claim)
            } else {
                freed
            }
        },
        _ => bound,
    }
}

/// The action that asks the shell for a report, if the given one does.
pub open spec fn awaits_report(action: ActionView) -> Option<ActionView> {
    match action {
        ActionView::Claim { .. } => Some(action),
        _ => None,
    }
}

/// The registration that the shell has been asked for and has not yet
/// reported on.
pub open spec fn outstanding(state: RegistryView) -> Option<ActionView> {
    match state.phase {
        PhaseView::Idle => None,
        PhaseView::Booting { claim, .. } => Some(ActionView::Claim { release: None, claim }),
        PhaseView::Claiming { claim, previous, .. } => Some(
            ActionView::Claim { release: previous, claim },
        ),
        PhaseView::Restoring { target } => Some(ActionView::Claim { release: None, claim: target }),
    }
}

/// Whether what the registry holds matches what is bound at the platform,
/// the outstanding registration not yet performed.
pub open spec fn agrees(state: RegistryView, bound: Set<Shortcut>) -> bool {
    match state.phase {
        PhaseView::Idle => bound =~= bound_by(state.active),
        PhaseView::Claiming { previous, .. } => state.active is None && bound =~= bound_by(
            previous,
        ),
        PhaseView::Booting { .. } | PhaseView::Restoring { .. } => state.active is None && bound
            =~= Set::<Shortcut>::empty(),
    }
}

/// As long as the registry and the platform agree, at most one combination is
/// bound.
pub proof fn law_at_most_one_bound(state: RegistryView, bound: Set<Shortcut>)
    requires
        agrees(state, bound),
    ensures
        bound.finite(),
        bound.len() <= 1,
{
}

/// A new registry agrees with a platform on which nothing is bound, and its
/// definition and combinations belong together.
pub proof fn law_initial_registry_is_sound(config: ConfigView)
    ensures
        agrees(initial(config), Set::empty()),
        in_sync(initial(config)),
        outstanding(initial(config)) is None,
{
}

/// Beginning an operation keeps the registry and the platform in agreement,
/// and the registration asked for, if any, is the one outstanding afterwards.
pub proof fn law_requests_keep_agreement(
    state: RegistryView,
    candidate: ConfigView,
    bound: Set<Shortcut>,
)
    requires
        agrees(state, bound),
    ensures
        agrees(startup_step(state).0, bound),
        state.phase == PhaseView::Idle ==> outstanding(startup_step(state).0) == awaits_report(
            startup_step(state).1,
        ),
        agrees(rebind_step(state, candidate).0, bound),
        state.phase == PhaseView::Idle ==> outstanding(rebind_step(state, candidate).0)
            == awaits_report(rebind_step(state, candidate).1),
{
}

/// Once the shell has performed the outstanding registration and reported on
/// it, the registry and the platform agree again, and the registration asked
/// for next, if any, is the one outstanding afterwards.
pub proof fn law_reports_keep_agreement(state: RegistryView, bound: Set<Shortcut>, ok: bool)
    requires
        agrees(state, bound),
    ensures
        match outstanding(state) {
            Some(action) => agrees(registered_step(state, ok).0, performed(bound, action, ok)),
            None => agrees(registered_step(state, ok).0, bound),
        },
        outstanding(registered_step(state, ok).0) == awaits_report(registered_step(state, ok).1),
{
}

/// No step parts the definition in effect from the combinations held.
pub proof fn law_steps_keep_sync(state: RegistryView, candidate: ConfigView, ok: bool)
    requires
        in_sync(state),
    ensures
        in_sync(startup_step(state).0),
        in_sync(rebind_step(state, candidate).0),
        in_sync(registered_step(state, ok).0),
{
}

/// Startup does not leave the trigger unbound where the platform accepts the
/// built-in combination: whatever the stored definition is, and whether or
/// not the platform accepts its combination, startup ends after one or two
/// registrations with a combination bound that the platform accepted.
pub proof fn law_startup_binds_where_the_default_is_accepted(
    config: ConfigView,
    accepts: spec_fn(Shortcut) -> bool,
)
    requires
        accepts(default_shortcut()),
    ensures
        ({
            let begun = startup_step(initial(config));
            let first = registered_step(begun.0, accepts(begun.1->claim));
            let end = if first.1 is Claim {
                registered_step(first.0, accepts(first.1->claim))
            } else {
                first
            };
            &&& begun.1 is Claim
            &&& end.1 == ActionView::Done(Ok(()))
            &&& end.0.phase == PhaseView::Idle
            &&& end.0.active is Some
            &&& accepts(end.0.active->0)
            &&& stands_for(end.0.current, end.0.active->0)
        }),
{
}

/// A definition that does not resolve is turned away with `InvalidShortcut`,
/// whatever the registry is doing, and leaves it as it was.
pub proof fn law_invalid_rebind_changes_nothing(state: RegistryView, candidate: ConfigView)
    requires
        resolve(candidate) is None,
    ensures
        rebind_step(state, candidate) == (
            state,
            ActionView::Done(Err(RebindError::InvalidShortcut)),
        ),
{
}

/// A replacement that the platform refuses is rolled back. The combination
/// bound before is released and the new one claimed; on the refusal the
/// previous one is claimed again, and once the platform has accepted that the
/// registry is as it was before the request, with the same combination
/// bound, and the request ends with `RegistrationFailed`. The definition in
/// effect is the old one at every step.
pub proof fn law_refused_rebind_is_rolled_back(
    state: RegistryView,
    candidate: ConfigView,
    bound: Set<Shortcut>,
)
    requires
        state.phase == PhaseView::Idle,
        state.active is Some,
        resolve(candidate) is Some,
        agrees(state, bound),
    ensures
        ({
            let previous = state.active->0;
            let claim = resolve(candidate)->0;
            let asked = rebind_step(state, candidate);
            let refused = registered_step(asked.0, false);
            let restored = registered_step(refused.0, true);
            let released = performed(bound, asked.1, false);
            &&& asked.1 == ActionView::Claim { release: Some(previous), claim }
            &&& asked.0.current == state.current
            &&& refused.1 == ActionView::Claim { release: None, claim: previous }
            &&& refused.0.current == state.current
            &&& restored.1 == ActionView::Done(Err(RebindError::RegistrationFailed))
            &&& restored.0 == state
            &&& performed(released, refused.1, true) == bound
        }),
{
    let previous = state.active->0;
    let asked = rebind_step(state, candidate);
    let refused = registered_step(asked.0, false);
    let released = performed(bound, asked.1, false);
    assert(performed(released, refused.1, true) =~= bound);
}

/// A replacement that the platform refuses while nothing was bound leaves
/// the registry as it was, and the request ends with `RegistrationFailed`.
pub proof fn law_refused_rebind_without_binding(state: RegistryView, candidate: ConfigView)
    requires
        state.phase == PhaseView::Idle,
        state.active is None,
        resolve(candidate) is Some,
    ensures
        ({
            let asked = rebind_step(state, candidate);
            let refused = registered_step(asked.0, false);
            &&& asked.1 == ActionView::Claim { release: None, claim: resolve(candidate)->0 }
            &&& refused.1 == ActionView::Done(Err(RebindError::RegistrationFailed))
            &&& refused.0 == state
        }),
{
}

/// A replacement that the platform accepts takes effect at once: the new
/// definition is the one in effect, its combination is the one bound and the
/// only one, and the shell is handed that same definition to store.
pub proof fn law_accepted_rebind_takes_effect(
    state: RegistryView,
    candidate: ConfigView,
    bound: Set<Shortcut>,
)
    requires
        state.phase == PhaseView::Idle,
        resolve(candidate) is Some,
        agrees(state, bound),
    ensures
        ({
            let claim = resolve(candidate)->0;
            let asked = rebind_step(state, candidate);
            let accepted = registered_step(asked.0, true);
            &&& asked.1 == ActionView::Claim { release: state.active, claim }
            &&& accepted.1 == ActionView::Committed { persist: candidate }
            &&& accepted.0 == RegistryView {
                current: candidate,
                active: Some(claim),
                phase: PhaseView::Idle,
            }
            &&& performed(bound, asked.1, true) == set![claim]
        }),
{
    let claim = resolve(candidate)->0;
    let asked = rebind_step(state, candidate);
    assert(performed(bound, asked.1, true) =~= set![claim]);
}

} // verus!
