use canvas_sync::actor::{ActionRequest, BroadcastMessage, ObjectServerAction, ObjectServerMessage};
use canvas_sync::client::{SessionStep, WebSocketSession, WebsocketClientMessage, WebsocketServerMessage};

#[test]
fn authenticate_replies_and_sticks() {
    let mut s = WebSocketSession::new(8);
    assert!(!s.authenticated());
    let step = s.handle_socket_msg(WebsocketClientMessage::Authenticate {
        username: "any".to_string(),
        password: "thing".to_string(),
    });
    assert!(matches!(step, SessionStep::Reply(WebsocketServerMessage::Authenticated)));
    assert!(s.authenticated());
    s.handle_socket_msg(WebsocketClientMessage::RequestObjects);
    assert!(s.authenticated());
    assert_eq!(s.session_id(), 8);
}

#[test]
fn request_objects_is_forwarded_without_authentication() {
    let mut s = WebSocketSession::new(1);
    let step = s.handle_socket_msg(WebsocketClientMessage::RequestObjects);
    assert!(matches!(step, SessionStep::Forward(ObjectServerMessage::RequestObjects)));
    assert!(!s.authenticated());
}

#[test]
fn authenticated_action_is_forwarded_with_session_id() {
    let mut s = WebSocketSession::new(42);
    s.handle_socket_msg(WebsocketClientMessage::Authenticate { username: String::new(), password: String::new() });
    let step = s.handle_socket_msg(WebsocketClientMessage::ServerAction { action: ActionRequest::RemoveObject { id: 3 } });
    assert!(matches!(
        step,
        SessionStep::Forward(ObjectServerMessage::Action { session_id: 42, action: ActionRequest::RemoveObject { id: 3 } })
    ));
}

#[test]
fn own_notifications_are_suppressed() {
    let s = WebSocketSession::new(5);
    let own = BroadcastMessage::ServerActionReported { session_id: 5, action: ObjectServerAction::ClearObjects };
    assert!(s.handle_socket_broadcast(own).is_none());
    let other = BroadcastMessage::ServerActionReported { session_id: 6, action: ObjectServerAction::ClearObjects };
    assert!(matches!(
        s.handle_socket_broadcast(other),
        Some(WebsocketServerMessage::ServerActionReported { action: ObjectServerAction::ClearObjects })
    ));
}

#[test]
fn opened_sessions_get_distinct_identifiers() {
    let a = WebSocketSession::open();
    let b = WebSocketSession::open();
    assert!(!a.authenticated());
    assert_ne!(a.session_id(), b.session_id());
}
