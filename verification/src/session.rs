//! The recording state machine.
//!
//! A session is either idle or recording. Requests to start or stop come from
//! the global hotkey and from explicit commands; a request that asks for the
//! state the session is already in is a silent no-op. Every real transition
//! hands back exactly one notification for the shell to deliver.

use vstd::prelude::*;

verus! {

/// The two states of a session.
#[derive(Clone, Copy, Debug, PartialEq, Eq, Structural)]
pub enum SessionState {
    Idle,
    Recording,
}

/// A request to change the state of a session.
#[derive(Clone, Copy, Debug, PartialEq, Eq, Structural)]
pub enum Request {
    Start,
    Stop,
}

/// What the shell announces after a transition.
#[derive(Clone, Copy, Debug, PartialEq, Eq, Structural)]
pub enum Notification {
    RecordingStart,
    RecordingStop,
}

/// An edge of the global hotkey.
#[derive(Clone, Copy, Debug, PartialEq, Eq, Structural)]
pub enum HotkeyEdge {
    Pressed,
    Released,
}

/// How hotkey edges are turned into requests.
///
/// `Hold` records while the key is held: a press starts, a release stops.
/// `Toggle` flips the state on every press and ignores releases.
#[derive(Clone, Copy, Debug, PartialEq, Eq, Structural)]
pub enum TriggerMode {
    Hold,
    Toggle,
}

/// The state a request leaves the session in, whatever state it found.
pub open spec fn apply(state: SessionState, request: Request) -> SessionState {
    match request {
        Request::Start => SessionState::Recording,
        Request::Stop => SessionState::Idle,
    }
}

/// The notification a request gives rise to: one for a real transition, none
/// for a request that finds the session already where it wants it.
pub open spec fn emits(state: SessionState, request: Request) -> Option<Notification> {
    match (state, request) {
        (SessionState::Idle, Request::Start) => Some(Notification::RecordingStart),
        (SessionState::Recording, Request::Stop) => Some(Notification::RecordingStop),
        _ => None,
    }
}

/// The request that a hotkey edge stands for in the given mode and state.
pub open spec fn request_of(mode: TriggerMode, state: SessionState, edge: HotkeyEdge) -> Option<
    Request,
> {
    match (mode, edge) {
        (TriggerMode::Hold, HotkeyEdge::Pressed) => Some(Request::Start),
        (TriggerMode::Hold, HotkeyEdge::Released) => Some(Request::Stop),
        (TriggerMode::Toggle, HotkeyEdge::Pressed) => Some(
            if state == SessionState::Recording {
                Request::Stop
            } else {
                Request::Start
            },
        ),
        (TriggerMode::Toggle, HotkeyEdge::Released) => None,
    }
}

/// The state after a whole sequence of requests, applied in order.
pub open spec fn run(state: SessionState, requests: Seq<Request>) -> SessionState
    decreases requests.len(),
{
    if requests.len() == 0 {
        state
    } else {
        apply(run(state, requests.drop_last()), requests.last())
    }
}

/// The notifications a sequence of requests gives rise to, in order.
pub open spec fn emitted(state: SessionState, requests: Seq<Request>) -> Seq<Notification>
    decreases requests.len(),
{
    if requests.len() == 0 {
        Seq::empty()
    } else {
        let before = run(state, requests.drop_last());
        let earlier = emitted(state, requests.drop_last());
        match emits(before, requests.last()) {
            Some(n) => earlier.push(n),
            None => earlier,
        }
    }
}

/// Whether the request at `index` changes the state it finds.
pub open spec fn changes(state: SessionState, requests: Seq<Request>, index: int) -> bool {
    run(state, requests.take(index)) != run(state, requests.take(index + 1))
}

/// How many requests of a sequence change the state they find.
pub open spec fn transitions(state: SessionState, requests: Seq<Request>) -> nat
    decreases requests.len(),
{
    if requests.len() == 0 {
        0
    } else {
        let before = run(state, requests.drop_last());
        let earlier = transitions(state, requests.drop_last());
        if apply(before, requests.last()) != before {
            earlier + 1
        } else {
            earlier
        }
    }
}

/// The authoritative "is recording" flag together with the trigger mode.
#[derive(Debug)]
pub struct RecordingSession {
    state: SessionState,
    mode: TriggerMode,
}

impl RecordingSession {
    /// The current state.
    pub closed spec fn state(&self) -> SessionState {
        self.state
    }

    /// The mode the session was created with.
    pub closed spec fn mode(&self) -> TriggerMode {
        self.mode
    }

    /// A session that is idle.
    pub fn new(mode: TriggerMode) -> (session: Self)
        ensures
            session.state() == SessionState::Idle,
            session.mode() == mode,
    {
        RecordingSession { state: SessionState::Idle, mode }
    }

    /// Whether a recording is under way. Changes nothing.
    pub fn is_recording(&self) -> (recording: bool)
        ensures
            recording == (self.state() == SessionState::Recording),
    {
        self.state == SessionState::Recording
    }

    /// The mode the session was created with.
    pub fn trigger_mode(&self) -> (mode: TriggerMode)
        ensures
            mode == self.mode(),
    {
        self.mode
    }

    /// Applies one request and hands back the notification to deliver, if the
    /// request changed the state.
    pub fn request(&mut self, request: Request) -> (notification: Option<Notification>)
        ensures
            final(self).state() == apply(old(self).state(), request),
            final(self).mode() == old(self).mode(),
            notification == emits(old(self).state(), request),
    {
        let before = self.state;
        match request {
            Request::Start => {
                self.state = SessionState::Recording;
                if before == SessionState::Idle {
                    Some(Notification::RecordingStart)
                } else {
                    None
                }
            },
            Request::Stop => {
                self.state = SessionState::Idle;
                if before == SessionState::Recording {
                    Some(Notification::RecordingStop)
                } else {
                    None
                }
            },
        }
    }

    /// Starts recording. A no-op, with no notification, when already recording.
    pub fn start(&mut self) -> (notification: Option<Notification>)
        ensures
            final(self).state() == SessionState::Recording,
            final(self).mode() == old(self).mode(),
            notification == emits(old(self).state(), Request::Start),
    {
        self.request(Request::Start)
    }

    /// Stops recording. A no-op, with no notification, when already idle.
    pub fn stop(&mut self) -> (notification: Option<Notification>)
        ensures
            final(self).state() == SessionState::Idle,
            final(self).mode() == old(self).mode(),
            notification == emits(old(self).state(), Request::Stop),
    {
        self.request(Request::Stop)
    }

    /// Reacts to an edge of the global hotkey according to the trigger mode.
    pub fn on_hotkey(&mut self, edge: HotkeyEdge) -> (notification: Option<Notification>)
        ensures
            final(self).mode() == old(self).mode(),
            match request_of(old(self).mode(), old(self).state(), edge) {
                Some(request) => {
                    &&& final(self).state() == apply(old(self).state(), request)
                    &&& notification == emits(old(self).state(), request)
                },
                None => {
                    &&& final(self).state() == old(self).state()
                    &&& notification is None
                },
            },
    {
        match (self.mode, edge) {
            (TriggerMode::Hold, HotkeyEdge::Pressed) => self.request(Request::Start),
            (TriggerMode::Hold, HotkeyEdge::Released) => self.request(Request::Stop),
            (TriggerMode::Toggle, HotkeyEdge::Pressed) => {
                if self.state == SessionState::Recording {
                    self.request(Request::Stop)
                } else {
                    self.request(Request::Start)
                }
            },
            (TriggerMode::Toggle, HotkeyEdge::Released) => None,
        }
    }
}

/// Whether the request at `index` changes the state it finds and no later
/// request does.
pub open spec fn is_last_change(state: SessionState, requests: Seq<Request>, index: int) -> bool {
    &&& 0 <= index < requests.len()
    &&& changes(state, requests, index)
    &&& forall|later: int| index < later < requests.len() ==> !changes(state, requests, later)
}

proof fn lemma_changes_of_prefix(state: SessionState, requests: Seq<Request>, index: int)
    requires
        0 <= index < requests.len() - 1,
    ensures
        changes(state, requests.drop_last(), index) == changes(state, requests, index),
{
    let shorter = requests.drop_last();
    assert(shorter.take(index) =~= requests.take(index));
    assert(shorter.take(index + 1) =~= requests.take(index + 1));
}

/// Whether some request of the sequence is the last to change the state and
/// is a start.
pub open spec fn last_change_is_start(state: SessionState, requests: Seq<Request>) -> bool {
    exists|i: int| #[trigger] is_last_change(state, requests, i) && requests[i] == Request::Start
}

/// Whether no request of the sequence changes the state it finds.
pub open spec fn nothing_changes(state: SessionState, requests: Seq<Request>) -> bool {
    forall|i: int| 0 <= i < requests.len() ==> !#[trigger] changes(state, requests, i)
}

/// After any sequence of requests the session is recording exactly when the
/// last request that changed its state was a start; where no request changed
/// it, the session is where it began.
pub proof fn law_last_change_decides(state: SessionState, requests: Seq<Request>)
    ensures
        run(state, requests) == SessionState::Recording <==> {
            ||| last_change_is_start(state, requests)
            ||| state == SessionState::Recording && nothing_changes(state, requests)
        },
    decreases requests.len(),
{
    if requests.len() == 0 {
        assert(!last_change_is_start(state, requests));
        assert(nothing_changes(state, requests));
    } else {
        let shorter = requests.drop_last();
        let end = requests.len() - 1;
        let before = run(state, shorter);
        law_last_change_decides(state, shorter);
        assert(requests.take(end) =~= shorter);
        assert(requests.take(end + 1) =~= requests);
        assert forall|i: int| 0 <= i < end implies changes(state, shorter, i) == changes(
            state,
            requests,
            i,
        ) by {
            lemma_changes_of_prefix(state, requests, i);
        }
        if changes(state, requests, end) {
            assert(!nothing_changes(state, requests));
            assert(is_last_change(state, requests, end));
            if last_change_is_start(state, requests) {
                let i = choose|i: int| #[trigger]
                    is_last_change(state, requests, i) && requests[i] == Request::Start;
                if i < end {
                    assert(!changes(state, requests, end));
                }
            }
        } else {
            if nothing_changes(state, shorter) {
                assert forall|i: int| 0 <= i < requests.len() implies !#[trigger] changes(
                    state,
                    requests,
                    i,
                ) by {
                    if i < end {
                        assert(!changes(state, shorter, i));
                    }
                }
            }
            if nothing_changes(state, requests) {
                assert forall|i: int| 0 <= i < shorter.len() implies !#[trigger] changes(
                    state,
                    shorter,
                    i,
                ) by {
                    assert(!changes(state, requests, i));
                }
            }
            if last_change_is_start(state, shorter) {
                let i = choose|i: int| #[trigger]
                    is_last_change(state, shorter, i) && shorter[i] == Request::Start;
                assert forall|later: int| i < later < requests.len() implies !changes(
                    state,
                    requests,
                    later,
                ) by {
                    if later < end {
                        assert(!changes(state, shorter, later));
                    }
                }
                assert(is_last_change(state, requests, i) && requests[i] == Request::Start);
            }
            if last_change_is_start(state, requests) {
                let i = choose|i: int| #[trigger]
                    is_last_change(state, requests, i) && requests[i] == Request::Start;
                assert forall|later: int| i < later < shorter.len() implies !changes(
                    state,
                    shorter,
                    later,
                ) by {
                    assert(!changes(state, requests, later));
                }
                assert(is_last_change(state, shorter, i) && shorter[i] == Request::Start);
            }
        }
    }
}

/// The notifications of a sequence of requests are as many as the requests
/// that changed the state, however many requests there were.
pub proof fn law_one_notification_per_transition(state: SessionState, requests: Seq<Request>)
    ensures
        emitted(state, requests).len() == transitions(state, requests),
    decreases requests.len(),
{
    if requests.len() > 0 {
        law_one_notification_per_transition(state, requests.drop_last());
    }
}

/// A request repeated at once changes nothing and notifies nobody.
pub proof fn law_repeated_request_is_silent(state: SessionState, request: Request)
    ensures
        apply(apply(state, request), request) == apply(state, request),
        emits(apply(state, request), request) is None,
{
}

} // verus!
