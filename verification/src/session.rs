//! The session state machine: one operator, one connection. It owns the
//! endpoint address, the in-progress query text, the cached last-submitted
//! query, and the last request/response pair, consumes abstract input events,
//! and runs the synchronous send-then-await-one-reply exchange as an explicit
//! two-phase machine (idle / awaiting a reply).

use vstd::prelude::*;
use vstd::string::StringExecFns;
use crate::envelope;
use crate::envelope::build_spec;

verus! {

/// Which text field currently receives character and backspace events.
#[derive(Clone, Copy, PartialEq, Eq, Structural, Debug)]
pub enum Focus {
    /// The endpoint-address field is being edited.
    Endpoint,
    /// The action-text field is being edited.
    Query,
}

/// Where the session stands in the exchange protocol.
#[derive(Clone, Copy, PartialEq, Eq, Structural, Debug)]
pub enum Phase {
    /// Waiting for the next input event.
    Idle,
    /// Blocked inside an exchange until one reply frame or one error arrives.
    AwaitingReply,
}

/// An abstract input event, as the input layer decodes it from a keystroke.
#[derive(Clone, Copy, PartialEq, Eq, Structural, Debug)]
pub enum InputEvent {
    /// Close the connection and terminate.
    Quit,
    /// Append one character to the focused buffer.
    Character(char),
    /// Remove the last character of the focused buffer.
    Backspace,
    /// Replace the query buffer with the cached query.
    RecallCached,
    /// Flip the focus between the endpoint field and the query field.
    ToggleFocus,
    /// Send the current query, then block until one reply or error arrives.
    Submit,
}

/// What the surrounding loop must do after an input event was applied.
#[derive(Clone, Copy, PartialEq, Eq, Structural, Debug)]
pub enum Action {
    /// Render the updated state; nothing else to perform.
    Nothing,
    /// Close the connection and terminate.
    Quit,
    /// Transmit the freshly built request over the connection, then feed
    /// every receive outcome back in until the exchange is over.
    Send,
}

/// One outcome of the blocking receive step, or of the transmit that
/// precedes it, reduced to plain values.
pub enum RecvEvent {
    /// A text frame was decoded; its payload.
    TextFrame(String),
    /// A non-text frame arrived; it is silently discarded.
    OtherFrame,
    /// The connection reports no more data is currently available.
    NoMoreData,
    /// Transmitting failed or receiving failed; the error's description.
    Failure(String),
}

/// A session snapshot at the specification level: each text field as a
/// sequence of characters, plus the focus and the protocol phase.
pub struct StateModel {
    pub url: Seq<char>,
    pub query: Seq<char>,
    pub cached_query: Seq<char>,
    pub request: Seq<char>,
    pub response: Seq<char>,
    pub mode: Focus,
    pub phase: Phase,
}

/// All mutable session data. The surrounding loop renders from it; during
/// the event loop every change goes through `handle_event` and
/// `handle_recv`.
pub struct State {
    /// The endpoint address; editable, but taking effect only on a connect.
    pub url: String,
    /// The in-progress action text the operator is typing.
    pub query: String,
    /// The most recently submitted query, recallable into the buffer.
    pub cached_query: String,
    /// The envelope text most recently transmitted.
    pub request: String,
    /// The most recently received reply payload, or the description of the
    /// most recent transmit/receive failure.
    pub response: String,
    /// Which buffer keystrokes currently apply to.
    pub mode: Focus,
    /// Idle, or blocked awaiting exactly one reply.
    pub phase: Phase,
}

impl View for State {
    type V = StateModel;

    open spec fn view(&self) -> StateModel {
        StateModel {
            url: self.url@,
            query: self.query@,
            cached_query: self.cached_query@,
            request: self.request@,
            response: self.response@,
            mode: self.mode,
            phase: self.phase,
        }
    }
}

/// The text field that character and backspace events currently edit.
pub open spec fn focused_text(m: StateModel) -> Seq<char> {
    match m.mode {
        Focus::Endpoint => m.url,
        Focus::Query => m.query,
    }
}

/// The session state after one input event is applied while idle.
pub open spec fn step_input(m: StateModel, e: InputEvent) -> StateModel {
    match e {
        InputEvent::Quit => m,
        InputEvent::Character(c) => match m.mode {
            Focus::Endpoint => StateModel { url: m.url.push(c), ..m },
            Focus::Query => StateModel { query: m.query.push(c), ..m },
        },
        InputEvent::Backspace => match m.mode {
            Focus::Endpoint => if m.url.len() == 0 {
                m
            } else {
                StateModel { url: m.url.drop_last(), ..m }
            },
            Focus::Query => if m.query.len() == 0 {
                m
            } else {
                StateModel { query: m.query.drop_last(), ..m }
            },
        },
        InputEvent::RecallCached => StateModel { query: m.cached_query, ..m },
        InputEvent::ToggleFocus => match m.mode {
            Focus::Endpoint => StateModel { mode: Focus::Query, ..m },
            Focus::Query => StateModel { mode: Focus::Endpoint, ..m },
        },
        InputEvent::Submit => if m.mode == Focus::Endpoint {
            m
        } else {
            StateModel {
                request: build_spec(m.query),
                cached_query: m.query,
                query: Seq::<char>::empty(),
                phase: Phase::AwaitingReply,
                ..m
            }
        },
    }
}

/// The action the surrounding loop must perform after an input event.
pub open spec fn action_of(m: StateModel, e: InputEvent) -> Action {
    match e {
        InputEvent::Quit => Action::Quit,
        InputEvent::Submit => if m.mode == Focus::Query {
            Action::Send
        } else {
            Action::Nothing
        },
        _ => Action::Nothing,
    }
}

/// The session state after one receive outcome while awaiting a reply.
pub open spec fn step_recv(m: StateModel, e: RecvEvent) -> StateModel {
    match e {
        RecvEvent::TextFrame(t) => StateModel { response: t@, phase: Phase::Idle, ..m },
        RecvEvent::OtherFrame => m,
        RecvEvent::NoMoreData => StateModel { phase: Phase::Idle, ..m },
        RecvEvent::Failure(d) => StateModel { response: d@, phase: Phase::Idle, ..m },
    }
}

/// Whether a receive outcome ends the wait for a reply.
pub open spec fn recv_done(e: RecvEvent) -> bool {
    !(e is OtherFrame)
}

/// Relies on String::push: appends the character to the end of the string.
pub assume_specification[ String::push ](s: &mut String, c: char)
    ensures
        final(s)@ == old(s)@.push(c),
;

/// Relies on String::pop: removes and returns the last character, or returns
/// None and leaves the string as it is when it is empty.
pub assume_specification[ String::pop ](s: &mut String) -> (r: Option<char>)
    ensures
        old(s)@.len() == 0 ==> final(s)@ == old(s)@ && r is None,
        old(s)@.len() > 0 ==> final(s)@ == old(s)@.drop_last() && r == Some(old(s)@.last()),
;

impl State {
    /// A fresh session: the default endpoint address, empty text fields,
    /// focus on the query, idle.
    pub fn new() -> (r: State)
        ensures
            r@.url == "ws://127.0.0.1:3001/ws"@,
            r@.query == Seq::<char>::empty(),
            r@.cached_query == Seq::<char>::empty(),
            r@.request == Seq::<char>::empty(),
            r@.response == Seq::<char>::empty(),
            r@.mode == Focus::Query,
            r@.phase == Phase::Idle,
    {
        State {
            url: String::from_str("ws://127.0.0.1:3001/ws"),
            query: String::new(),
            cached_query: String::new(),
            request: String::new(),
            response: String::new(),
            mode: Focus::Query,
            phase: Phase::Idle,
        }
    }

    /// Applies one abstract input event and says what the surrounding loop
    /// must do next. Called only while idle: while a reply is awaited, no
    /// input events are processed.
    pub fn handle_event(&mut self, e: InputEvent) -> (r: Action)
        requires
            old(self)@.phase == Phase::Idle,
        ensures
            final(self)@ == step_input(old(self)@, e),
            r == action_of(old(self)@, e),
    {
        match e {
            InputEvent::Quit => Action::Quit,
            InputEvent::Character(c) => {
                match self.mode {
                    Focus::Endpoint => self.url.push(c),
                    Focus::Query => self.query.push(c),
                }
                Action::Nothing
            },
            InputEvent::Backspace => {
                match self.mode {
                    Focus::Endpoint => {
                        self.url.pop();
                    },
                    Focus::Query => {
                        self.query.pop();
                    },
                }
                Action::Nothing
            },
            InputEvent::RecallCached => {
                self.query = self.cached_query.clone();
                Action::Nothing
            },
            InputEvent::ToggleFocus => {
                self.mode = match self.mode {
                    Focus::Endpoint => Focus::Query,
                    Focus::Query => Focus::Endpoint,
                };
                Action::Nothing
            },
            InputEvent::Submit => {
                if self.mode == Focus::Endpoint {
                    Action::Nothing
                } else {
                    let payload = envelope::build(self.query.as_str());
                    self.request = payload;
                    self.cached_query = self.query.clone();
                    self.query = String::new();
                    self.phase = Phase::AwaitingReply;
                    Action::Send
                }
            },
        }
    }

    /// Feeds one receive outcome (or the outcome of the transmit that
    /// preceded it) into the session. Returns whether the exchange is over;
    /// while it is not, the surrounding loop keeps receiving.
    pub fn handle_recv(&mut self, e: RecvEvent) -> (done: bool)
        requires
            old(self)@.phase == Phase::AwaitingReply,
        ensures
            final(self)@ == step_recv(old(self)@, e),
            done == recv_done(e),
    {
        match e {
            RecvEvent::TextFrame(t) => {
                self.response = t;
                self.phase = Phase::Idle;
                true
            },
            RecvEvent::OtherFrame => false,
            RecvEvent::NoMoreData => {
                self.phase = Phase::Idle;
                true
            },
            RecvEvent::Failure(d) => {
                self.response = d;
                self.phase = Phase::Idle;
                true
            },
        }
    }
}

/// After a submit while focus is on the query, the query buffer is empty and
/// the cached query equals the pre-submit query buffer contents, whatever the
/// buffer held (including nothing).
pub proof fn lemma_submit_clears_and_caches(m: StateModel)
    requires
        m.mode == Focus::Query,
    ensures
        step_input(m, InputEvent::Submit).query == Seq::<char>::empty(),
        step_input(m, InputEvent::Submit).cached_query == m.query,
{
}

/// Recalling the cached query after a submit restores the query buffer to
/// exactly what was last submitted, once the exchange has resolved with any
/// outcome that ends the wait.
pub proof fn lemma_recall_restores_submitted(m: StateModel, e: RecvEvent)
    requires
        m.mode == Focus::Query,
        m.phase == Phase::Idle,
        recv_done(e),
    ensures
        ({
            let resolved = step_recv(step_input(m, InputEvent::Submit), e);
            resolved.phase == Phase::Idle
                && step_input(resolved, InputEvent::RecallCached).query == m.query
        }),
{
}

/// Backspace on an empty focused buffer is a no-op: the whole session state
/// is unchanged.
pub proof fn lemma_backspace_empty_noop(m: StateModel)
    requires
        focused_text(m).len() == 0,
    ensures
        step_input(m, InputEvent::Backspace) == m,
{
}

/// The session state after n consecutive focus toggles.
pub open spec fn toggle_n(m: StateModel, n: nat) -> StateModel
    decreases n,
{
    if n == 0 {
        m
    } else {
        step_input(toggle_n(m, (n - 1) as nat), InputEvent::ToggleFocus)
    }
}

/// Focus toggling alternates strictly: starting at the query field, an even
/// number of toggles lands on the query field and an odd number on the
/// endpoint field.
pub proof fn lemma_toggle_alternates(m: StateModel, n: nat)
    requires
        m.mode == Focus::Query,
    ensures
        toggle_n(m, n).mode == (if n % 2 == 0 {
            Focus::Query
        } else {
            Focus::Endpoint
        }),
    decreases n,
{
    if n > 0 {
        lemma_toggle_alternates(m, (n - 1) as nat);
    }
}

} // verus!
