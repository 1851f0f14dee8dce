use vstd::prelude::*;
use crate::engine::Engine;
use crate::plugin::method_reset;
use crate::types::{Action as EngineAction, ActionModel};

verus! {

/// Request from the keystroke hook to the engine host.
#[derive(Debug, Clone, Copy, PartialEq, Eq, Structural)]
pub enum IpcRequest {
    /// Process a keystroke
    ProcessKey(char),
    /// Process backspace
    ProcessBackspace,
    /// Reset engine state
    Reset,
    /// Ping to check if the host is alive
    Ping,
}

/// Response from the engine host.
#[derive(Debug, Clone, PartialEq, Eq)]
pub enum IpcResponse {
    /// Action to execute
    Action(Action),
    /// Pong response
    Pong,
    /// Error occurred
    Error(String),
}

/// Action to execute in the application.
#[derive(Debug, Clone, PartialEq, Eq)]
pub enum Action {
    /// Do nothing, pass through
    DoNothing,
    /// Replace text: delete N chars, insert string
    Replace { delete: usize, insert: String },
}

/// What a wire action asks, as values: a commit is a replacement that
/// deletes nothing.
pub open spec fn wire_model(a: ActionModel) -> ActionModel {
    match a {
        ActionModel::Commit(s) => ActionModel::Replace { delete: 0, insert: s },
        _ => a,
    }
}

impl View for Action {
    type V = ActionModel;

    open spec fn view(&self) -> ActionModel {
        match self {
            Action::DoNothing => ActionModel::DoNothing,
            Action::Replace { delete, insert } => ActionModel::Replace { delete: *delete as nat, insert: insert@ },
        }
    }
}

/// The wire form of an engine action: `Commit` becomes a replacement that
/// deletes nothing.
pub fn to_wire(a: EngineAction) -> (r: Action)
    ensures
        r@ == wire_model(a@),
{
    match a {
        EngineAction::DoNothing => Action::DoNothing,
        EngineAction::Commit(text) => Action::Replace { delete: 0, insert: text },
        EngineAction::Replace { backspace_count, text } => Action::Replace { delete: backspace_count, insert: text },
    }
}

/// Process one request with the engine: keys and backspace go to the
/// engine and their action is sent back in wire form; `Reset` resets the
/// engine and answers `DoNothing`; `Ping` answers `Pong`.
pub fn process_request(request: IpcRequest, engine: &mut Engine) -> (r: IpcResponse)
    requires
        old(engine).wf(),
    ensures
        final(engine).wf(),
        final(engine).registry_view() == old(engine).registry_view(),
        match request {
            IpcRequest::ProcessKey(ch) => {
                &&& r matches IpcResponse::Action(w) && w@ == wire_model(old(engine).key_outcome(ch))
                &&& final(engine).method() == old(engine).method_after_key(ch)
            },
            IpcRequest::ProcessBackspace => {
                &&& r matches IpcResponse::Action(w) && w@ == wire_model(old(engine).backspace_outcome())
                &&& final(engine).method() == old(engine).method_after_backspace()
            },
            IpcRequest::Reset => {
                &&& r matches IpcResponse::Action(w) && w@ == ActionModel::DoNothing
                &&& final(engine).buffer_view().len() == 0
                &&& final(engine).method() == match old(engine).method() {
                    Some(m) => Some(method_reset(m)),
                    None => None,
                }
            },
            IpcRequest::Ping => r is Pong && final(engine).method() == old(engine).method(),
        },
{
    match request {
        IpcRequest::ProcessKey(ch) => IpcResponse::Action(to_wire(engine.process(ch))),
        IpcRequest::ProcessBackspace => IpcResponse::Action(to_wire(engine.process_backspace())),
        IpcRequest::Reset => {
            engine.reset();
            IpcResponse::Action(Action::DoNothing)
        },
        IpcRequest::Ping => IpcResponse::Pong,
    }
}

} // verus!

verus! {

/// A channel that carries one request to the engine host and brings back
/// its response, or the reason it failed.
pub trait Transport {
    fn exchange(&mut self, request: &IpcRequest) -> Result<IpcResponse, String>;
}

/// What a client's call gives back, as values.
pub open spec fn result_view(r: Result<Action, String>) -> Result<ActionModel, Seq<char>> {
    match r {
        Ok(a) => Ok(a@),
        Err(e) => Err(e@),
    }
}

/// The outcome of a request that expects an action: the action, the
/// host's error, "Unexpected response" for any other answer, or the
/// transport's error.
pub open spec fn action_outcome(resp: Result<IpcResponse, String>) -> Result<ActionModel, Seq<char>> {
    match resp {
        Ok(IpcResponse::Action(a)) => Ok(a@),
        Ok(IpcResponse::Error(e)) => Err(e@),
        Ok(IpcResponse::Pong) => Err("Unexpected response"@),
        Err(e) => Err(e@),
    }
}

/// Client of the engine host, used by the keystroke hook.
pub struct IpcClient {
    pipe_path: String,
    connected: bool,
}

impl IpcClient {
    /// Whether the client believes the host is reachable.
    pub closed spec fn is_up(&self) -> bool {
        self.connected
    }

    /// Where the host listens.
    pub closed spec fn path(&self) -> Seq<char> {
        self.pipe_path@
    }

    /// A client that is not connected yet.
    pub fn new() -> (r: Self)
        ensures
            !r.is_up(),
            r.path() == r"\\.\pipe\vikey-broker"@,
    {
        IpcClient { pipe_path: r"\\.\pipe\vikey-broker".to_owned(), connected: false }
    }

    /// Where the host listens.
    pub fn pipe_path(&self) -> (r: &str)
        ensures
            r@ == self.path(),
    {
        self.pipe_path.as_str()
    }

    /// Record whether the host could be reached.
    pub fn set_connected(&mut self, connected: bool)
        ensures
            final(self).is_up() == connected,
            final(self).path() == old(self).path(),
    {
        self.connected = connected;
    }

    /// Check if connected.
    pub fn is_connected(&self) -> (r: bool)
        ensures
            r == self.is_up(),
    {
        self.connected
    }

    /// The outcome of a request that expects an action.
    pub fn action_from_response(response: Result<IpcResponse, String>) -> (r: Result<Action, String>)
        ensures
            result_view(r) == action_outcome(response),
    {
        match response {
            Ok(IpcResponse::Action(action)) => Ok(action),
            Ok(IpcResponse::Error(err)) => Err(err),
            Ok(IpcResponse::Pong) => Err("Unexpected response".to_owned()),
            Err(e) => Err(e),
        }
    }

    fn send_request<T: Transport>(&mut self, transport: &mut T, request: &IpcRequest) -> (r: Result<IpcResponse, String>)
        ensures
            final(self).is_up() == old(self).is_up(),
            final(self).path() == old(self).path(),
            !old(self).is_up() ==> (r matches Err(e) && e@ == "Not connected"@),
    {
        if !self.connected {
            return Err("Not connected".to_owned());
        }
        transport.exchange(request)
    }

    /// Send a keystroke; not connected, the call fails at once. Otherwise
    /// the reply is read as `action_from_response` says.
    pub fn process_key<T: Transport>(&mut self, transport: &mut T, ch: char) -> (r: Result<Action, String>)
        ensures
            final(self).is_up() == old(self).is_up(),
            final(self).path() == old(self).path(),
            !old(self).is_up() ==> result_view(r) == Err::<ActionModel, Seq<char>>("Not connected"@),
    {
        let response = self.send_request(transport, &IpcRequest::ProcessKey(ch));
        Self::action_from_response(response)
    }

    /// Send backspace; not connected, the call fails at once. Otherwise
    /// the reply is read as `action_from_response` says.
    pub fn process_backspace<T: Transport>(&mut self, transport: &mut T) -> (r: Result<Action, String>)
        ensures
            final(self).is_up() == old(self).is_up(),
            final(self).path() == old(self).path(),
            !old(self).is_up() ==> result_view(r) == Err::<ActionModel, Seq<char>>("Not connected"@),
    {
        let response = self.send_request(transport, &IpcRequest::ProcessBackspace);
        Self::action_from_response(response)
    }

    /// Reset the host's engine: succeeds when the host answers with an
    /// action.
    pub fn reset<T: Transport>(&mut self, transport: &mut T) -> (r: Result<(), String>)
        ensures
            final(self).is_up() == old(self).is_up(),
            final(self).path() == old(self).path(),
            !old(self).is_up() ==> (r matches Err(e) && e@ == "Not connected"@),
    {
        match self.send_request(transport, &IpcRequest::Reset) {
            Ok(IpcResponse::Action(_)) => Ok(()),
            Ok(IpcResponse::Error(err)) => Err(err),
            Ok(IpcResponse::Pong) => Err("Unexpected response".to_owned()),
            Err(e) => Err(e),
        }
    }
}

impl Default for IpcClient {
    fn default() -> (r: Self)
        ensures
            !r.is_up(),
    {
        IpcClient::new()
    }
}

} // verus!
