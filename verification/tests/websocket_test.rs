use wikify_web::websocket::{
    chat_unavailable_answer, complete_update_id, error_update_id, next_action, reply_to,
    research_progress_update_id, research_update_id, started_update_id, welcome_text, ClientRequest,
    DeliveryFilter, SocketAction, SocketEvent, SocketReply, REMEMBERED_UPDATES,
};

#[test]
fn updates_are_sent_once() {
    let mut f = DeliveryFilter::new();
    assert!(f.should_send(started_update_id("r1")));
    assert!(!f.should_send(started_update_id("r1")));
    assert!(f.should_send(complete_update_id("r1")));
    assert_eq!(f.remembered(), 2);
}

#[test]
fn memory_is_dropped_past_the_limit() {
    let mut f = DeliveryFilter::new();
    for i in 0..REMEMBERED_UPDATES {
        assert!(f.should_send(format!("id-{}", i)));
    }
    assert_eq!(f.remembered(), REMEMBERED_UPDATES);
    assert!(f.should_send("one-more".to_string()));
    assert_eq!(f.remembered(), 0);
    assert!(f.should_send("id-0".to_string()));
}

#[test]
fn update_ids() {
    assert_eq!(started_update_id("r"), "started-r");
    assert_eq!(error_update_id("r"), "error-r");
    assert_eq!(research_update_id("complete", "r", "q"), "research-complete-r-q");
    assert_eq!(research_progress_update_id("r", "q", 3), "research-progress-r-q-3");
    assert!(welcome_text().starts_with("WebSocket connection established."));
}

#[test]
fn session_decisions() {
    let mut f = DeliveryFilter::new();
    assert_eq!(next_action(&mut f, SocketEvent::ClientText), SocketAction::HandleMessage);
    assert_eq!(next_action(&mut f, SocketEvent::ClientOther), SocketAction::Wait);
    assert_eq!(next_action(&mut f, SocketEvent::Lagged), SocketAction::Wait);
    assert_eq!(next_action(&mut f, SocketEvent::Update("a".to_string())), SocketAction::SendUpdate);
    assert_eq!(next_action(&mut f, SocketEvent::Update("a".to_string())), SocketAction::Wait);
    assert_eq!(f.remembered(), 1);
    for e in [
        SocketEvent::ClientClosed,
        SocketEvent::ClientFailed,
        SocketEvent::ClientEnded,
        SocketEvent::HandlingFailed,
        SocketEvent::SendFailed,
        SocketEvent::UpdatesClosed,
    ] {
        assert_eq!(next_action(&mut f, e), SocketAction::Close);
    }
    assert_eq!(f.remembered(), 1);
}

#[test]
fn replies_to_client_requests() {
    match reply_to(ClientRequest::Chat { repository_id: "r".to_string(), question: "why?".to_string() }) {
        SocketReply::ChatAnswer { repository_id, answer } => {
            assert_eq!(repository_id, "r");
            assert_eq!(answer, "Chat functionality not yet implemented for question: why?");
        }
        other => panic!("unexpected reply {:?}", other),
    }
    match reply_to(ClientRequest::WikiGenerate { repository_id: "r".to_string() }) {
        SocketReply::WikiComplete { repository_id, wiki_id, pages_count, sections_count } => {
            assert_eq!(repository_id, "r");
            assert_eq!(wiki_id, "placeholder");
            assert_eq!((pages_count, sections_count), (0, 0));
        }
        other => panic!("unexpected reply {:?}", other),
    }
    assert!(matches!(reply_to(ClientRequest::Ping), SocketReply::Pong));
    assert!(matches!(reply_to(ClientRequest::Pong), SocketReply::Nothing));
    assert!(matches!(reply_to(ClientRequest::Unsupported), SocketReply::Nothing));
    assert_eq!(chat_unavailable_answer(""), "Chat functionality not yet implemented for question: ");
}
