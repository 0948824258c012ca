//! The state actor: a finite-state machine that caches the result of the
//! last refresh and serves a consistent snapshot to readers while a refresh
//! may be in flight.
//!
//! The mailbox and the spawning of refresh tasks live outside the verified
//! world; every decision — what a message does to the state, what a reader
//! is answered, when a refresh is started — is taken here.

use vstd::prelude::*;

verus! {

/// The states the actor can be in.
#[derive(Debug, PartialEq)]
pub enum ActorState {
    /// A refresh failed; the message is served with a server-error
    /// indication.
    Error(String),
    /// The snapshot of the last successful refresh.
    Loaded(String),
    /// No refresh has completed yet; the first state after start.
    Loading,
    /// The last refresh succeeded but found no token at all.
    NoToken,
}

impl Clone for ActorState {
    /// An exact copy: the variant and any carried text are preserved.
    fn clone(&self) -> (r: Self)
        ensures
            r == *self,
    {
        match self {
            ActorState::Error(e) => ActorState::Error(e.clone()),
            ActorState::Loaded(s) => ActorState::Loaded(s.clone()),
            ActorState::Loading => ActorState::Loading,
            ActorState::NoToken => ActorState::NoToken,
        }
    }
}

/// The messages the actor handles.
#[derive(Debug)]
pub enum Message {
    /// Ask for the current state; the actor answers with a copy.
    Get,
    /// The result of a finished refresh: the aggregated snapshot text, or
    /// an error message.
    SetResult(Result<String, String>),
    /// Trigger a refresh; the state itself is not touched.
    Update,
}

/// What the caller of [`StateActor::handle`] has to do after a message:
/// send the reply, if any, back to the asker, and start a detached refresh
/// task if one was requested.
#[derive(Debug)]
pub struct ActorEffect {
    /// The state copy to send back to the asker of a `Get`.
    pub reply: Option<ActorState>,
    /// Whether a refresh task must be spawned.
    pub start_refresh: bool,
}

/// The state a finished refresh leaves the actor in: an empty snapshot
/// means no token was found, a non-empty one is published whole, and an
/// error is recorded as such.
pub open spec fn spec_applied_set(result: Result<String, String>) -> ActorState {
    match result {
        Ok(data) => if data@.len() == 0 {
            ActorState::NoToken
        } else {
            ActorState::Loaded(data)
        },
        Err(e) => ActorState::Error(e),
    }
}

/// The single piece of mutable state, owned exclusively by the actor loop
/// that processes one message at a time.
#[derive(Debug)]
pub struct StateActor {
    state: ActorState,
}

impl StateActor {
    /// The current state.
    pub closed spec fn spec_state(&self) -> ActorState {
        self.state
    }

    /// A fresh actor, in the `Loading` state.
    pub fn new() -> (r: StateActor)
        ensures
            r.spec_state() == ActorState::Loading,
    {
        StateActor { state: ActorState::Loading }
    }

    /// Processes one message.
    ///
    /// `Get` answers with a copy of the current state and changes nothing:
    /// a reader that asks while a refresh is in flight observes the
    /// previous completed state.  `Update` only requests that a refresh
    /// task be started.  `Set` is the one mutator: an empty successful
    /// snapshot yields `NoToken`, a non-empty one is published whole as
    /// `Loaded`, and an error is recorded as `Error`.
    pub fn handle(&mut self, msg: Message) -> (r: ActorEffect)
        ensures
            match msg {
                Message::Get => {
                    &&& *final(self) == *old(self)
                    &&& r.reply == Some(old(self).spec_state())
                    &&& !r.start_refresh
                },
                Message::Update => {
                    &&& *final(self) == *old(self)
                    &&& r.reply is None
                    &&& r.start_refresh
                },
                Message::SetResult(result) => {
                    &&& final(self).spec_state() == spec_applied_set(result)
                    &&& r.reply is None
                    &&& !r.start_refresh
                },
            },
    {
        match msg {
            Message::Get => ActorEffect { reply: Some(self.state.clone()), start_refresh: false },
            Message::Update => ActorEffect { reply: None, start_refresh: true },
            Message::SetResult(result) => {
                match result {
                    Ok(data) => {
                        if data.as_str().is_empty() {
                            self.state = ActorState::NoToken;
                        } else {
                            self.state = ActorState::Loaded(data);
                        }
                    },
                    Err(e) => {
                        self.state = ActorState::Error(e);
                    },
                }
                ActorEffect { reply: None, start_refresh: false }
            },
        }
    }

    /// The reader-facing view of a state: `Loading` and `NoToken` read as
    /// an empty body with a no-content status, `Loaded` as the full
    /// aggregated text, and `Error` as the message with a server-error
    /// status.
    pub fn state_response(state: &ActorState) -> (r: (u16, String))
        ensures
            match state {
                ActorState::Loading => r.0 == 204 && r.1@.len() == 0,
                ActorState::NoToken => r.0 == 204 && r.1@.len() == 0,
                ActorState::Loaded(s) => r.0 == 200 && r.1@ == s@,
                ActorState::Error(e) => r.0 == 500 && r.1@ == e@,
            },
    {
        match state {
            ActorState::Loading => (204, String::new()),
            ActorState::NoToken => (204, String::new()),
            ActorState::Loaded(s) => (200, s.clone()),
            ActorState::Error(e) => (500, e.clone()),
        }
    }
}

} // verus!
