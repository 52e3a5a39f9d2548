use chat_app::response::{generate_echo, join_context, ChatError, RESPONSE_PREFIX};
use chat_app::session::{ChatApp, Message, CONTEXT_WINDOW};
use chat_app::store::HistoryStore;

fn s(t: &str) -> String {
    t.to_string()
}

#[test]
fn new_session_is_empty() {
    let app = ChatApp::new();
    assert_eq!(app.draft(), "");
    assert!(app.history().is_empty());
    assert_eq!(app.title(), "ChatApp - Rust with AI");
}

#[test]
fn draft_is_last_edit() {
    let mut app = ChatApp::new();
    app.on_draft_changed(s("h"));
    app.on_draft_changed(s("he"));
    app.on_draft_changed(s("hello there"));
    assert_eq!(app.draft(), "hello there");
    assert!(app.history().is_empty());
}

#[test]
fn draft_kept_verbatim() {
    let mut app = ChatApp::new();
    app.on_draft_changed(s("  ünïcode ✓ \n"));
    assert_eq!(app.draft(), "  ünïcode ✓ \n");
}

#[test]
fn send_clears_draft() {
    let mut app = ChatApp::new();
    app.on_draft_changed(s("something"));
    app.on_send();
    assert_eq!(app.draft(), "");
}

#[test]
fn history_len_equals_sends() {
    let mut app = ChatApp::new();
    for i in 0..5 {
        app.on_draft_changed(format!("m{}", i));
        app.on_send();
        assert_eq!(app.history().len(), i + 1);
    }
    assert_eq!(app.history()[0], "AI: m0");
    assert_eq!(app.history()[4], "AI: m4");
}

#[test]
fn send_hello_then_empty() {
    let mut app = ChatApp::new();
    app.on_draft_changed(s("hello"));
    let r = app.on_send();
    assert_eq!(r, "AI: hello");
    assert_eq!(app.history(), &vec![s("AI: hello")]);
    assert_eq!(app.draft(), "");
    let r = app.on_send();
    assert_eq!(r, "AI: ");
    assert_eq!(app.history(), &vec![s("AI: hello"), s("AI: ")]);
}

#[test]
fn generation_error_keeps_history_and_clears_draft() {
    let mut app = ChatApp::new();
    app.on_draft_changed(s("first"));
    app.on_send();
    app.on_draft_changed(s("second"));
    let r = app.on_send_generated(Err(ChatError::GenerationError));
    assert_eq!(r, Err(ChatError::GenerationError));
    assert_eq!(app.history().len(), 1);
    assert_eq!(app.draft(), "");
}

#[test]
fn generated_response_is_appended() {
    let mut app = ChatApp::new();
    app.on_draft_changed(s("question"));
    let r = app.on_send_generated(Ok(s("an answer")));
    assert_eq!(r, Ok(s("an answer")));
    assert_eq!(app.history(), &vec![s("an answer")]);
    assert_eq!(app.draft(), "");
}

#[test]
fn store_error_passes_through() {
    let mut app = ChatApp::new();
    let r = app.on_send_generated(Err(ChatError::StoreError));
    assert_eq!(r, Err(ChatError::StoreError));
    assert!(app.history().is_empty());
}

#[test]
fn two_sends_read_back_most_recent_first() {
    let mut app = ChatApp::new();
    app.on_draft_changed(s("a"));
    app.on_send();
    app.on_draft_changed(s("b"));
    app.on_send();
    assert_eq!(app.read_recent(3), vec![s("AI: b"), s("AI: a")]);
}

#[test]
fn update_routes_events() {
    let mut app = ChatApp::new();
    assert_eq!(app.update(Message::InputChanged(s("x"))), None);
    assert_eq!(app.draft(), "x");
    assert_eq!(app.update(Message::SendPressed), Some(s("AI: x")));
    assert_eq!(app.draft(), "");
    assert_eq!(app.history(), &vec![s("AI: x")]);
}

#[test]
fn context_window_joins_recent_most_recent_first() {
    let mut app = ChatApp::new();
    assert_eq!(app.context_window(), "");
    for t in ["one", "two", "three", "four"] {
        app.on_draft_changed(s(t));
        app.on_send();
    }
    assert_eq!(CONTEXT_WINDOW, 3);
    assert_eq!(app.context_window(), "AI: four AI: three AI: two");
}

#[test]
fn echo_prefix() {
    assert_eq!(RESPONSE_PREFIX, "AI: ");
    assert_eq!(generate_echo("hi"), "AI: hi");
    assert_eq!(generate_echo(""), "AI: ");
}

#[test]
fn join_context_cases() {
    assert_eq!(join_context(&vec![]), "");
    assert_eq!(join_context(&vec![s("a")]), "a");
    assert_eq!(join_context(&vec![s("a"), s("b c"), s("")]), "a b c ");
}

#[test]
fn read_recent_zero_is_empty() {
    let mut store = HistoryStore::new();
    assert!(store.read_recent(0).is_empty());
    store.append(s("x"));
    store.append(s("y"));
    assert!(store.read_recent(0).is_empty());
}

#[test]
fn append_then_read_one() {
    let mut store = HistoryStore::new();
    store.append(s("old"));
    store.append(s("new"));
    assert_eq!(store.read_recent(1), vec![s("new")]);
    assert_eq!(store.len(), 2);
}

#[test]
fn read_recent_more_than_held() {
    let mut store = HistoryStore::new();
    assert!(store.read_recent(5).is_empty());
    store.append(s("p"));
    store.append(s("q"));
    assert_eq!(store.read_recent(5), vec![s("q"), s("p")]);
    assert_eq!(store.rows(), &vec![s("p"), s("q")]);
}
