use luro::ai::{ai_command_handler, ai_request, message_body, update_due, ChatMessage, ChatResponse, ClockError, MessageBody};

#[test]
fn answers_replies_to_the_bot_and_mentions() {
    assert!(ai_command_handler(Some(7), &vec![], 7));
    assert!(!ai_command_handler(Some(8), &vec![7], 7));
    assert!(ai_command_handler(None, &vec![1, 7], 7));
    assert!(!ai_command_handler(None, &vec![1, 2], 7));
}

#[test]
fn request_is_oldest_first_with_roles() {
    let gathered = vec![("newest".to_string(), false), ("middle".to_string(), true), ("oldest".to_string(), false)];
    let r = ai_request(gathered);
    assert_eq!(r.model, "wizard-vicuna-uncensored");
    let m: Vec<(&str, &str)> = r.messages.iter().map(|m| (m.role.as_str(), m.content.as_str())).collect();
    assert_eq!(m, vec![("user", "oldest"), ("assistant", "middle"), ("user", "newest")]);
    assert!(r.messages.iter().all(|m| m.images.is_none()));
}

fn piece(text: Option<&str>, done: bool) -> ChatResponse {
    let mut p = ChatResponse::new();
    p.done = done;
    p.model = "m".to_string();
    p.message = text.map(|t| ChatMessage { role: "assistant".to_string(), content: t.to_string(), images: None });
    p
}

#[test]
fn streamed_pieces_add_up() {
    let mut r = ChatResponse::new();
    assert_eq!(r.shown_text(), "Still generating response...");
    for (text, done) in [(Some("Hel"), false), (None, false), (Some("lo"), false), (Some("!"), true)] {
        r.merge(piece(text, done));
    }
    assert_eq!(r.shown_text(), "Hello!");
    assert!(r.done);
    assert_eq!(r.model, "m");
}

#[test]
fn answer_shape_follows_its_length() {
    match message_body("a", true) {
        MessageBody::Text(s) => assert_eq!(s, "Still generating response..."),
        _ => panic!("expected text"),
    }
    match message_body("hello", true) {
        MessageBody::Text(s) => assert_eq!(s, "hello"),
        _ => panic!("expected text"),
    }
    let mid = "x".repeat(2000);
    match message_body(&mid, true) {
        MessageBody::Embed(s) => assert_eq!(s, mid),
        _ => panic!("expected an embed"),
    }
    let long = "é".repeat(2048);
    match message_body(&long, true) {
        MessageBody::File { file_name, bytes, note } => {
            assert_eq!(file_name, "result.txt");
            assert_eq!(bytes, long.as_bytes());
            assert_eq!(note, "Wow, I created a response with `4096` characters! You can find the response in the attached file.");
        }
        _ => panic!("expected a file"),
    }
    match message_body(&long, false) {
        MessageBody::File { note, .. } => {
            assert_eq!(note, "Wow, I created a response with `4096` characters! You can find th response in the attached file.")
        }
        _ => panic!("expected a file"),
    }
}

#[test]
fn updates_are_due_after_three_seconds() {
    assert_eq!(update_due((103, 0), 100), Ok(false));
    assert_eq!(update_due((103, 1), 100), Ok(true));
    assert_eq!(update_due((104, 0), 100), Ok(true));
    assert_eq!(update_due((100, 0), 100), Ok(false));
    assert_eq!(update_due((99, 999), 100), Err(ClockError::Earlier));
}

#[test]
fn clock_is_read_for_updates() {
    // Any clock reading of this century is long past the epoch.
    assert_eq!(luro::ai::update_due_now(0), Ok(true));
    // An edit far in the future is not due yet... and the clock is earlier.
    assert_eq!(luro::ai::update_due_now(i64::MAX / 2), Err(ClockError::Earlier));
}
