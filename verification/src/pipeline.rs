//! The life of one request, as a state machine without side effects.
//!
//! A request runs through `Idle`, `Loaded`, `Marshalled`, `Invoked`, `Decoded`
//! and `Done`, in this order and never back; the first failure ends it in
//! `Failed`. The machine reads no file, calls no bridge and prints nothing:
//! each state names the action that its driver is to perform, and the driver
//! reports what came of it as an event.

use crate::decode::{decode, decode_spec};
use crate::error::Error;
use crate::request::{marshal_fields_spec, BridgeCall, CallView, RequestFields};
use vstd::prelude::*;

verus! {

/// What a request starts from: where its configuration lies, and the three
/// texts that go to the bridge as they are.
#[derive(Debug)]
pub struct Request {
    /// The path of the configuration file.
    pub config_path: String,
    /// The method of the request.
    pub method: String,
    /// The path of the request.
    pub path: String,
    /// The body of the request.
    pub body: String,
}

/// Where a request stands.
///
/// `'a` is the time for which the bridge's response buffer stays valid. The
/// buffer belongs to the bridge: `Invoked` only borrows it, and `Decoded` holds
/// a copy of its text and the borrow no longer.
#[derive(Debug)]
pub enum State<'a> {
    /// Nothing has happened yet.
    Idle(Request),
    /// The configuration file is in memory, whole.
    Loaded(RequestFields),
    /// The four buffers are made and wait for the one call of the bridge.
    Marshalled(BridgeCall),
    /// The bridge has returned; its buffers are released, its response is
    /// borrowed.
    Invoked(&'a [u8]),
    /// The text of the response is copied out.
    Decoded(String),
    /// The text is printed.
    Done,
    /// The request was abandoned.
    Failed(Error),
}

/// What the driver reports.
#[derive(Debug)]
pub enum Event<'a> {
    /// The configuration file was read, and this is all of its content.
    ConfigLoaded(String),
    /// The configuration file could not be opened or read.
    ConfigUnreadable,
    /// There was nothing to do outside.
    Continue,
    /// The bridge returned this buffer.
    BridgeReturned(&'a [u8]),
    /// The text was printed.
    Printed,
}

/// What the driver is to do next.
#[derive(Debug)]
pub enum Action<'a> {
    /// Read the file at this path, whole, and report `ConfigLoaded` or
    /// `ConfigUnreadable`.
    LoadConfig(&'a str),
    /// Nothing: report `Continue`.
    Continue,
    /// Call the bridge once with the arguments of this call, in their order,
    /// and report `BridgeReturned`.
    Invoke(&'a BridgeCall),
    /// Print this text as it is and report `Printed`.
    Print(&'a str),
    /// Stop: the request succeeded.
    Exit,
    /// Stop and report this error: nothing was printed.
    Abort(Error),
}

/// A state, as contracts see it.
pub enum StateView {
    Idle { config_path: Seq<char>, method: Seq<char>, path: Seq<char>, body: Seq<char> },
    Loaded { config: Seq<char>, method: Seq<char>, path: Seq<char>, body: Seq<char> },
    Marshalled { call: CallView },
    Invoked { response: Seq<u8> },
    Decoded { text: Seq<char> },
    Done,
    Failed { error: Error },
}

/// An event, as contracts see it.
pub enum EventView {
    ConfigLoaded { content: Seq<char> },
    ConfigUnreadable,
    Continue,
    BridgeReturned { response: Seq<u8> },
    Printed,
}

/// An action, as contracts see it.
pub enum ActionView {
    LoadConfig { path: Seq<char> },
    Continue,
    Invoke { call: CallView },
    Print { text: Seq<char> },
    Exit,
    Abort { error: Error },
}

impl<'a> View for State<'a> {
    type V = StateView;

    open spec fn view(&self) -> StateView {
        match *self {
            State::Idle(request) => StateView::Idle {
                config_path: request.config_path@,
                method: request.method@,
                path: request.path@,
                body: request.body@,
            },
            State::Loaded(fields) => StateView::Loaded {
                config: fields.config@,
                method: fields.method@,
                path: fields.path@,
                body: fields.body@,
            },
            State::Marshalled(call) => StateView::Marshalled { call: call@ },
            State::Invoked(response) => StateView::Invoked { response: response@ },
            State::Decoded(text) => StateView::Decoded { text: text@ },
            State::Done => StateView::Done,
            State::Failed(error) => StateView::Failed { error },
        }
    }
}

impl<'a> View for Event<'a> {
    type V = EventView;

    open spec fn view(&self) -> EventView {
        match *self {
            Event::ConfigLoaded(content) => EventView::ConfigLoaded { content: content@ },
            Event::ConfigUnreadable => EventView::ConfigUnreadable,
            Event::Continue => EventView::Continue,
            Event::BridgeReturned(response) => EventView::BridgeReturned { response: response@ },
            Event::Printed => EventView::Printed,
        }
    }
}

impl<'a> View for Action<'a> {
    type V = ActionView;

    open spec fn view(&self) -> ActionView {
        match *self {
            Action::LoadConfig(path) => ActionView::LoadConfig { path: path@ },
            Action::Continue => ActionView::Continue,
            Action::Invoke(call) => ActionView::Invoke { call: call@ },
            Action::Print(text) => ActionView::Print { text: text@ },
            Action::Exit => ActionView::Exit,
            Action::Abort(error) => ActionView::Abort { error },
        }
    }
}

/// The action that a state asks of its driver.
pub open spec fn action_of(state: StateView) -> ActionView {
    match state {
        StateView::Idle { config_path, .. } => ActionView::LoadConfig { path: config_path },
        StateView::Loaded { .. } => ActionView::Continue,
        StateView::Marshalled { call } => ActionView::Invoke { call },
        StateView::Invoked { .. } => ActionView::Continue,
        StateView::Decoded { text } => ActionView::Print { text },
        StateView::Done => ActionView::Exit,
        StateView::Failed { error } => ActionView::Abort { error },
    }
}

/// Whether `event` is the report that `state` waits for. `Done` and `Failed`
/// wait for none.
pub open spec fn awaits(state: StateView, event: EventView) -> bool {
    match state {
        StateView::Idle { .. } => event is ConfigLoaded || event is ConfigUnreadable,
        StateView::Loaded { .. } => event is Continue,
        StateView::Marshalled { .. } => event is BridgeReturned,
        StateView::Invoked { .. } => event is Continue,
        StateView::Decoded { .. } => event is Printed,
        StateView::Done => false,
        StateView::Failed { .. } => false,
    }
}

/// The state that follows `state` on `event`.
///
/// An awaited event moves the request one state on, or into `Failed`. An
/// event that the state does not wait for changes nothing.
pub open spec fn step_spec(state: StateView, event: EventView) -> StateView {
    match (state, event) {
        (
            StateView::Idle { method, path, body, .. },
            EventView::ConfigLoaded { content },
        ) => StateView::Loaded { config: content, method, path, body },
        (StateView::Idle { .. }, EventView::ConfigUnreadable) => StateView::Failed {
            error: Error::Io,
        },
        (StateView::Loaded { config, method, path, body }, EventView::Continue) => {
            match marshal_fields_spec(config, method, path, body) {
                Ok(call) => StateView::Marshalled { call },
                Err(error) => StateView::Failed { error },
            }
        },
        (
            StateView::Marshalled { .. },
            EventView::BridgeReturned { response },
        ) => StateView::Invoked { response },
        (StateView::Invoked { response }, EventView::Continue) => {
            match decode_spec(response) {
                Ok(text) => StateView::Decoded { text },
                Err(error) => StateView::Failed { error },
            }
        },
        (StateView::Decoded { .. }, EventView::Printed) => StateView::Done,
        _ => state,
    }
}

impl<'a> State<'a> {
    /// The state in which every request starts.
    pub fn new(request: Request) -> (state: State<'a>)
        ensures
            state@ == (StateView::Idle {
                config_path: request.config_path@,
                method: request.method@,
                path: request.path@,
                body: request.body@,
            }),
    {
        State::Idle(request)
    }

    /// What the driver is to do in this state.
    pub fn action(&self) -> (action: Action<'_>)
        ensures
            action@ == action_of(self@),
    {
        match self {
            State::Idle(request) => Action::LoadConfig(request.config_path.as_str()),
            State::Loaded(_) => Action::Continue,
            State::Marshalled(call) => Action::Invoke(call),
            State::Invoked(_) => Action::Continue,
            State::Decoded(text) => Action::Print(text.as_str()),
            State::Done => Action::Exit,
            State::Failed(error) => Action::Abort(*error),
        }
    }
}

/// Takes one step of the request: the state that follows `state` on `event`.
///
/// Leaving `Marshalled` releases the four buffers of the call; leaving
/// `Invoked` gives up the borrow of the response buffer, which is never
/// released here.
pub fn step<'a>(state: State<'a>, event: Event<'a>) -> (next: State<'a>)
    ensures
        next@ == step_spec(state@, event@),
{
    match (state, event) {
        (State::Idle(request), Event::ConfigLoaded(content)) => State::Loaded(
            RequestFields {
                config: content,
                method: request.method,
                path: request.path,
                body: request.body,
            },
        ),
        (State::Idle(_), Event::ConfigUnreadable) => State::Failed(Error::Io),
        (State::Loaded(fields), Event::Continue) => match fields.marshal() {
            Ok(call) => State::Marshalled(call),
            Err(error) => State::Failed(error),
        },
        (State::Marshalled(_), Event::BridgeReturned(response)) => State::Invoked(response),
        (State::Invoked(response), Event::Continue) => match decode(response) {
            Ok(text) => State::Decoded(text),
            Err(error) => State::Failed(error),
        },
        (State::Decoded(_), Event::Printed) => State::Done,
        (state, _) => state,
    }
}

} // verus!
