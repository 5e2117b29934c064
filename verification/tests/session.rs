use ws_console::session::{Action, Focus, InputEvent, Phase, RecvEvent, State};

fn type_text(state: &mut State, text: &str) {
    for c in text.chars() {
        let action = state.handle_event(InputEvent::Character(c));
        assert_eq!(action, Action::Nothing);
    }
}

#[test]
fn new_session_is_idle_on_query() {
    let s = State::new();
    assert_eq!(s.url, "ws://127.0.0.1:3001/ws");
    assert_eq!(s.query, "");
    assert_eq!(s.cached_query, "");
    assert_eq!(s.request, "");
    assert_eq!(s.response, "");
    assert_eq!(s.mode, Focus::Query);
    assert_eq!(s.phase, Phase::Idle);
}

#[test]
fn characters_go_to_the_focused_buffer() {
    let mut s = State::new();
    type_text(&mut s, "ab");
    assert_eq!(s.query, "ab");
    s.handle_event(InputEvent::ToggleFocus);
    type_text(&mut s, "xy");
    assert_eq!(s.url, "ws://127.0.0.1:3001/wsxy");
    assert_eq!(s.query, "ab");
}

#[test]
fn backspace_removes_last_character() {
    let mut s = State::new();
    type_text(&mut s, "ab");
    let action = s.handle_event(InputEvent::Backspace);
    assert_eq!(action, Action::Nothing);
    assert_eq!(s.query, "a");
}

#[test]
fn backspace_on_empty_buffer_is_a_noop() {
    let mut s = State::new();
    let action = s.handle_event(InputEvent::Backspace);
    assert_eq!(action, Action::Nothing);
    assert_eq!(s.query, "");
    assert_eq!(s.phase, Phase::Idle);
}

#[test]
fn toggle_alternates_strictly() {
    let mut s = State::new();
    assert_eq!(s.mode, Focus::Query);
    for round in 1..=6 {
        s.handle_event(InputEvent::ToggleFocus);
        let expected = if round % 2 == 0 { Focus::Query } else { Focus::Endpoint };
        assert_eq!(s.mode, expected);
    }
}

#[test]
fn submit_clears_buffer_and_caches_it() {
    let mut s = State::new();
    type_text(&mut s, "status");
    let action = s.handle_event(InputEvent::Submit);
    assert_eq!(action, Action::Send);
    assert_eq!(s.query, "");
    assert_eq!(s.cached_query, "status");
    assert_eq!(s.phase, Phase::AwaitingReply);
}

#[test]
fn submit_of_empty_buffer_also_caches() {
    let mut s = State::new();
    type_text(&mut s, "old");
    s.handle_event(InputEvent::Submit);
    s.handle_recv(RecvEvent::TextFrame("done".to_string()));
    let action = s.handle_event(InputEvent::Submit);
    assert_eq!(action, Action::Send);
    assert_eq!(s.query, "");
    assert_eq!(s.cached_query, "");
    assert_eq!(s.request, "{\"General\":{\"action\":\"\"}}");
}

#[test]
fn recall_restores_last_submitted_query() {
    let mut s = State::new();
    type_text(&mut s, "ping");
    s.handle_event(InputEvent::Submit);
    s.handle_recv(RecvEvent::TextFrame("pong".to_string()));
    assert_eq!(s.query, "");
    let action = s.handle_event(InputEvent::RecallCached);
    assert_eq!(action, Action::Nothing);
    assert_eq!(s.query, "ping");
}

#[test]
fn recall_works_regardless_of_focus() {
    let mut s = State::new();
    type_text(&mut s, "ping");
    s.handle_event(InputEvent::Submit);
    s.handle_recv(RecvEvent::TextFrame("pong".to_string()));
    s.handle_event(InputEvent::ToggleFocus);
    s.handle_event(InputEvent::RecallCached);
    assert_eq!(s.query, "ping");
    assert_eq!(s.url, "ws://127.0.0.1:3001/ws");
}

#[test]
fn submit_while_editing_endpoint_is_a_noop() {
    let mut s = State::new();
    type_text(&mut s, "status");
    s.handle_event(InputEvent::ToggleFocus);
    let action = s.handle_event(InputEvent::Submit);
    assert_eq!(action, Action::Nothing);
    assert_eq!(s.query, "status");
    assert_eq!(s.request, "");
    assert_eq!(s.phase, Phase::Idle);
}

#[test]
fn quit_changes_nothing_but_signals() {
    let mut s = State::new();
    type_text(&mut s, "st");
    let action = s.handle_event(InputEvent::Quit);
    assert_eq!(action, Action::Quit);
    assert_eq!(s.query, "st");
    assert_eq!(s.phase, Phase::Idle);
}

#[test]
fn full_exchange_with_text_reply() {
    let mut s = State::new();
    type_text(&mut s, "status");
    let action = s.handle_event(InputEvent::Submit);
    assert_eq!(action, Action::Send);
    assert_eq!(s.request, "{\"General\":{\"action\":\"status\"}}");
    let done = s.handle_recv(RecvEvent::TextFrame("{\"ok\":true}".to_string()));
    assert!(done);
    assert_eq!(s.response, "{\"ok\":true}");
    assert_eq!(s.phase, Phase::Idle);
}

#[test]
fn submit_on_closed_connection_reports_the_failure() {
    let mut s = State::new();
    type_text(&mut s, "status");
    s.handle_event(InputEvent::Submit);
    assert_eq!(s.query, "");
    assert_eq!(s.cached_query, "status");
    let done = s.handle_recv(RecvEvent::Failure("Connection closed".to_string()));
    assert!(done);
    assert!(!s.response.is_empty());
    assert_eq!(s.response, "Connection closed");
    assert_eq!(s.query, "");
    assert_eq!(s.cached_query, "status");
    assert_eq!(s.phase, Phase::Idle);
}

#[test]
fn non_text_frames_are_discarded_while_waiting() {
    let mut s = State::new();
    type_text(&mut s, "status");
    s.handle_event(InputEvent::Submit);
    let done = s.handle_recv(RecvEvent::OtherFrame);
    assert!(!done);
    assert_eq!(s.phase, Phase::AwaitingReply);
    let done = s.handle_recv(RecvEvent::TextFrame("{\"ok\":true}".to_string()));
    assert!(done);
    assert_eq!(s.response, "{\"ok\":true}");
}

#[test]
fn no_more_data_ends_the_wait_and_keeps_the_old_response() {
    let mut s = State::new();
    type_text(&mut s, "first");
    s.handle_event(InputEvent::Submit);
    s.handle_recv(RecvEvent::TextFrame("earlier reply".to_string()));
    type_text(&mut s, "second");
    s.handle_event(InputEvent::Submit);
    let done = s.handle_recv(RecvEvent::NoMoreData);
    assert!(done);
    assert_eq!(s.response, "earlier reply");
    assert_eq!(s.phase, Phase::Idle);
}
