use k_aiti::chat_client::{ChatClient, InputAction, SessionState, StreamEvent};
use k_aiti::chat_types::{
    ChatCompletionChoice, ChatCompletionChunk, ChatCompletionDelta, Role,
};
use k_aiti::terminal_renderer::{TerminalRenderer, TextStyle};

fn chunk_with(texts: &[&str]) -> ChatCompletionChunk {
    let choices = texts
        .iter()
        .enumerate()
        .map(|(i, t)| ChatCompletionChoice {
            index: i as u32,
            delta: ChatCompletionDelta {
                content: Some((*t).to_string()),
                role: Some(Role::Assistant),
            },
            finish_reason: None,
        })
        .collect();
    ChatCompletionChunk {
        id: None,
        object: "chat.completion.chunk".to_string(),
        created: 0,
        model: "test-model".to_string(),
        choices,
        usage: None,
    }
}

fn run_episode(client: &mut ChatClient, input: &str, events: Vec<StreamEvent>) {
    let action = client.handle_input(input);
    assert!(matches!(action, InputAction::Request(_)));
    client.stream_opened();
    let mut renderer = TerminalRenderer::new();
    client.drain_stream(&events, &mut renderer);
}

#[test]
fn scenario_two_chunk_stream() {
    let mut client = ChatClient::new();
    let action = client.handle_input("Hi");
    match action {
        InputAction::Request(req) => {
            assert_eq!(req.messages.len(), 1);
            assert_eq!(req.messages[0].content, "Hi");
            assert_eq!(req.messages[0].role, Role::User);
        }
        InputAction::Quit => panic!("ordinary input must issue a request"),
    }
    client.stream_opened();
    let mut renderer = TerminalRenderer::new();
    let events: Vec<StreamEvent> = vec![Ok(chunk_with(&["Hel"])), Ok(chunk_with(&["lo"]))];
    client.drain_stream(&events, &mut renderer);

    assert_eq!(client.log_len(), 2);
    assert_eq!(client.log_turn(0).role, Role::User);
    assert_eq!(client.log_turn(0).content, "Hi");
    assert_eq!(client.log_turn(1).role, Role::Assistant);
    assert_eq!(client.log_turn(1).content, "Hello");
    assert_eq!(client.current_state(), SessionState::AwaitingInput);
}

#[test]
fn scenario_error_chunk_tolerated() {
    let mut client = ChatClient::new();
    client.handle_input("q");
    client.stream_opened();
    let mut renderer = TerminalRenderer::new();
    let events: Vec<StreamEvent> =
        vec![Err("transport".to_string()), Ok(chunk_with(&["partial"]))];
    let out = client.drain_stream(&events, &mut renderer);

    let annotation: String = out
        .iter()
        .filter(|sc| sc.style == TextStyle::ErrorNote)
        .map(|sc| sc.ch)
        .collect();
    assert_eq!(annotation, "error: transport");
    assert_eq!(client.log_len(), 2);
    assert_eq!(client.log_turn(1).role, Role::Assistant);
    assert_eq!(client.log_turn(1).content, "partial");
}

#[test]
fn scenario_stop_sentinel() {
    let mut client = ChatClient::new();
    let action = client.handle_input("stop");
    assert!(matches!(action, InputAction::Quit));
    assert_eq!(client.current_state(), SessionState::Terminated);
    assert_eq!(client.log_len(), 0);
}

#[test]
fn stop_sentinel_is_trimmed() {
    let mut client = ChatClient::new();
    let action = client.handle_input("  stop \n");
    assert!(matches!(action, InputAction::Quit));
    assert_eq!(client.log_len(), 0);
}

#[test]
fn stop_sentinel_is_exact() {
    let mut client = ChatClient::new();
    let action = client.handle_input("Stop");
    assert!(matches!(action, InputAction::Request(_)));
    assert_eq!(client.log_len(), 1);
    assert_eq!(client.log_turn(0).content, "Stop");
}

#[test]
fn log_ordering_across_episodes() {
    let mut client = ChatClient::new();
    run_episode(&mut client, "first question", vec![Ok(chunk_with(&["first answer"]))]);
    run_episode(&mut client, "second question", vec![Ok(chunk_with(&["second answer"]))]);

    assert_eq!(client.log_len(), 4);
    let expected = [
        (Role::User, "first question"),
        (Role::Assistant, "first answer"),
        (Role::User, "second question"),
        (Role::Assistant, "second answer"),
    ];
    for (i, (role, content)) in expected.iter().enumerate() {
        assert_eq!(client.log_turn(i).role, *role);
        assert_eq!(client.log_turn(i).content, *content);
    }

    let snapshot = client.snapshot();
    assert_eq!(snapshot.len(), 4);
    for (i, (role, content)) in expected.iter().enumerate() {
        assert_eq!(snapshot[i].role, *role);
        assert_eq!(snapshot[i].content, *content);
    }
}

#[test]
fn single_commit_empty_stream() {
    let mut client = ChatClient::new();
    run_episode(&mut client, "hello", vec![]);
    assert_eq!(client.log_len(), 2);
    assert_eq!(client.log_turn(1).role, Role::Assistant);
    assert_eq!(client.log_turn(1).content, "");
}

#[test]
fn single_commit_one_chunk() {
    let mut client = ChatClient::new();
    run_episode(&mut client, "hello", vec![Ok(chunk_with(&["x"]))]);
    assert_eq!(client.log_len(), 2);
}

#[test]
fn single_commit_many_chunks() {
    let mut client = ChatClient::new();
    let events: Vec<StreamEvent> = (0..50).map(|_| Ok(chunk_with(&["ab"]))).collect();
    run_episode(&mut client, "hello", events);
    assert_eq!(client.log_len(), 2);
    assert_eq!(client.log_turn(1).content, "ab".repeat(50));
}

#[test]
fn single_commit_all_errors() {
    let mut client = ChatClient::new();
    let events: Vec<StreamEvent> =
        vec![Err("one".to_string()), Err("two".to_string())];
    run_episode(&mut client, "hello", events);
    assert_eq!(client.log_len(), 2);
    assert_eq!(client.log_turn(1).role, Role::Assistant);
    assert_eq!(client.log_turn(1).content, "");
}

#[test]
fn build_failure_keeps_user_turn() {
    let mut client = ChatClient::new();
    let action = client.handle_input("orphan");
    assert!(matches!(action, InputAction::Request(_)));
    client.stream_failed();
    assert_eq!(client.current_state(), SessionState::AwaitingInput);
    assert_eq!(client.log_len(), 1);
    assert_eq!(client.log_turn(0).role, Role::User);
    assert_eq!(client.log_turn(0).content, "orphan");
}

#[test]
fn multi_choice_chunk_concatenates_in_order() {
    let mut client = ChatClient::new();
    run_episode(&mut client, "q", vec![Ok(chunk_with(&["ab", "cd"]))]);
    assert_eq!(client.log_turn(1).content, "abcd");
}

#[test]
fn fence_state_survives_chunk_boundary_in_stream() {
    let mut client = ChatClient::new();
    client.handle_input("q");
    client.stream_opened();
    let mut renderer = TerminalRenderer::new();
    let events: Vec<StreamEvent> = vec![Ok(chunk_with(&["a``"])), Ok(chunk_with(&["`b```c"]))];
    let out = client.drain_stream(&events, &mut renderer);
    let visible: Vec<(char, TextStyle)> = out.iter().map(|sc| (sc.ch, sc.style)).collect();
    assert_eq!(
        visible,
        vec![('a', TextStyle::Plain), ('b', TextStyle::Code), ('c', TextStyle::Plain)]
    );
    assert_eq!(client.log_turn(1).content, "a```b```c");
}

#[test]
fn error_between_chunks_does_not_disturb_fence() {
    let mut client = ChatClient::new();
    client.handle_input("q");
    client.stream_opened();
    let mut renderer = TerminalRenderer::new();
    let events: Vec<StreamEvent> = vec![
        Ok(chunk_with(&["a``"])),
        Err("hiccup".to_string()),
        Ok(chunk_with(&["`b```"])),
    ];
    let out = client.drain_stream(&events, &mut renderer);
    let visible: Vec<(char, TextStyle)> = out
        .iter()
        .filter(|sc| sc.style != TextStyle::ErrorNote)
        .map(|sc| (sc.ch, sc.style))
        .collect();
    assert_eq!(visible, vec![('a', TextStyle::Plain), ('b', TextStyle::Code)]);
    let annotation: String = out
        .iter()
        .filter(|sc| sc.style == TextStyle::ErrorNote)
        .map(|sc| sc.ch)
        .collect();
    assert_eq!(annotation, "error: hiccup");
    assert_eq!(client.log_turn(1).content, "a```b```");
}
