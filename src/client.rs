use vstd::prelude::*;

use crate::actor::{ActionRequest, BroadcastMessage, ObjectServerAction, ObjectServerMessage};
use crate::ident::{new_random_id, VERSION_VARIANT_BITS, VERSION_VARIANT_MASK};
use crate::object::DefinedObjectWithId;

verus! {

broadcast use vstd::string::group_string_axioms;

/// A message from the server to a client.
#[derive(Debug)]
pub enum WebsocketServerMessage {
    /// The client is authenticated.
    Authenticated,
    /// The client's message was refused.
    Error { message: String },
    /// An action applied on behalf of another session.
    ServerActionReported { action: ObjectServerAction },
    /// Every object in the store, with its identifier.
    Objects { objects: Vec<DefinedObjectWithId> },
}

/// A message from a client to the server.
#[derive(Debug)]
pub enum WebsocketClientMessage {
    Authenticate { username: String, password: String },
    /// An action to apply to the shared canvas.
    ServerAction { action: ActionRequest },
    /// A request for the list of objects.
    RequestObjects,
}

/// What a session does in answer to one client message.
#[derive(Debug)]
pub enum SessionStep {
    /// Write this message back to the client.
    Reply(WebsocketServerMessage),
    /// Send this command to the coordinator.
    Forward(ObjectServerMessage),
}

/// The text of the error that answers an action sent before authentication.
pub open spec fn not_authenticated_text() -> Seq<char> {
    "not authenticated"@
}

/// The state of one connection: its identifier and whether it has
/// authenticated.
pub struct WebSocketSession {
    session_id: u128,
    authenticated: bool,
}

impl WebSocketSession {
    /// The identifier of the session.
    pub closed spec fn id(&self) -> u128 {
        self.session_id
    }

    /// Whether the session has authenticated.
    pub closed spec fn is_authenticated(&self) -> bool {
        self.authenticated
    }

    /// A session with identifier `session_id` that has not authenticated yet.
    pub fn new(session_id: u128) -> (r: Self)
        ensures
            r.id() == session_id,
            !r.is_authenticated(),
    {
        WebSocketSession { session_id, authenticated: false }
    }

    /// A session with a fresh random identifier that has not authenticated yet.
    pub fn open() -> (r: Self)
        ensures
            !r.is_authenticated(),
            r.id() & VERSION_VARIANT_MASK == VERSION_VARIANT_BITS,
    {
        WebSocketSession::new(new_random_id())
    }

    /// The identifier of the session.
    pub fn session_id(&self) -> (r: u128)
        ensures
            r == self.id(),
    {
        self.session_id
    }

    /// Whether the session has authenticated.
    pub fn authenticated(&self) -> (r: bool)
        ensures
            r == self.is_authenticated(),
    {
        self.authenticated
    }

    /// Decides what to do with one client message. Authentication always
    /// succeeds and is never lost; an action is forwarded only once the session
    /// has authenticated, and refused with an error before that; a request for
    /// the objects is forwarded in either state.
    pub fn handle_socket_msg(&mut self, msg: WebsocketClientMessage) -> (r: SessionStep)
        ensures
            final(self).id() == old(self).id(),
            final(self).is_authenticated() == (old(self).is_authenticated()
                || msg is Authenticate),
            match msg {
                WebsocketClientMessage::Authenticate { .. } => r == SessionStep::Reply(
                    WebsocketServerMessage::Authenticated,
                ),
                WebsocketClientMessage::ServerAction { action } => if old(
                    self,
                ).is_authenticated() {
                    r == SessionStep::Forward(
                        ObjectServerMessage::Action { session_id: old(self).id(), action },
                    )
                } else {
                    r matches SessionStep::Reply(WebsocketServerMessage::Error { message })
                        && message@ == not_authenticated_text()
                },
                WebsocketClientMessage::RequestObjects => r == SessionStep::Forward(
                    ObjectServerMessage::RequestObjects,
                ),
            },
    {
        match msg {
            WebsocketClientMessage::Authenticate { .. } => {
                self.authenticated = true;
                SessionStep::Reply(WebsocketServerMessage::Authenticated)
            },
            WebsocketClientMessage::ServerAction { action } => {
                if !self.authenticated {
                    SessionStep::Reply(
                        WebsocketServerMessage::Error { message: "not authenticated".to_string() },
                    )
                } else {
                    SessionStep::Forward(
                        ObjectServerMessage::Action { session_id: self.session_id, action },
                    )
                }
            },
            WebsocketClientMessage::RequestObjects => SessionStep::Forward(
                ObjectServerMessage::RequestObjects,
            ),
        }
    }

    /// Decides what to write for one change notification: nothing when the
    /// action came from this session, its report otherwise.
    pub fn handle_socket_broadcast(&self, msg: BroadcastMessage) -> (r: Option<WebsocketServerMessage>)
        ensures
            match msg {
                BroadcastMessage::ServerActionReported { session_id, action } => if session_id
                    == self.id() {
                    r is None
                } else {
                    r == Some(WebsocketServerMessage::ServerActionReported { action })
                },
            },
    {
        match msg {
            BroadcastMessage::ServerActionReported { session_id, action } => {
                if self.session_id == session_id {
                    None
                } else {
                    Some(WebsocketServerMessage::ServerActionReported { action })
                }
            },
        }
    }
}

} // verus!
