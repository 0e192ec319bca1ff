use chat_app::handlers::message::{
    chat_partner_ids, check_receiver_exists, validate_send_message, DbError, SendMessageRequest,
};
use chat_app::handlers::ws_handler::{ws_action, ws_user, WsAction, WsEvent};

fn request(text: Option<&str>, image: Option<&str>) -> SendMessageRequest {
    SendMessageRequest { text: text.map(String::from), image: image.map(String::from) }
}

#[test]
fn send_message_checks() {
    let e = validate_send_message(1, 2, &request(None, None)).unwrap_err();
    assert_eq!(e.0, "Text or image is required");
    let e = validate_send_message(1, 1, &request(Some("hi"), None)).unwrap_err();
    assert_eq!(e.0, "Cannot send messages to yourself");
    // The payload check comes first.
    let e = validate_send_message(1, 1, &request(None, None)).unwrap_err();
    assert_eq!(e.0, "Text or image is required");
    assert!(validate_send_message(1, 2, &request(Some("hi"), None)).is_ok());
    assert!(validate_send_message(1, 2, &request(None, Some("pic.png"))).is_ok());
    assert!(check_receiver_exists(true).is_ok());
    assert_eq!(check_receiver_exists(false).unwrap_err().0, "Receiver not found");
}

#[test]
fn db_error_response() {
    let e = DbError("boom".to_string());
    assert_eq!(e.status_code(), 500);
    assert_eq!(e.body(), "boom");
    assert_eq!(e.message(), "error occured while processing request.");
    assert_eq!(DbError::pool_not_found().0, "database connection pool not found");
}

#[test]
fn chat_partners_are_sorted_and_distinct() {
    let me = 5u128;
    let messages = [(5, 9), (3, 5), (5, 9), (9, 5), (5, 1), (2, 5), (3, 5)];
    assert_eq!(chat_partner_ids(me, &messages), vec![1, 2, 3, 9]);
    assert_eq!(chat_partner_ids(me, &[]), Vec::<u128>::new());
    // A message to oneself lists oneself.
    assert_eq!(chat_partner_ids(me, &[(5, 5)]), vec![5]);
    assert_eq!(chat_partner_ids(u128::MAX, &[(u128::MAX, 0), (7, u128::MAX)]), vec![0, 7]);
}

#[test]
fn websocket_frames() {
    match ws_action(WsEvent::Ping(vec![1, 2, 3])) {
        WsAction::Pong(p) => assert_eq!(p, vec![1, 2, 3]),
        other => panic!("unexpected {:?}", other),
    }
    assert!(matches!(ws_action(WsEvent::Close), WsAction::CloseAndStop));
    assert!(matches!(ws_action(WsEvent::Other), WsAction::Ignore));
    assert_eq!(ws_user(Some(4)), Ok(4));
    assert_eq!(ws_user(None), Err("Unauthorized access"));
}
