use llmq::api::{
    build_request, chunk_of, payload_of, read_document, read_line, request_body, LineStep,
    Message, Msg, Role,
};
use llmq::config::Api;
use llmq::json::{parse, set_member, Json};
use llmq::worker::{
    refusal_message, LineRead, Phase, Worker, WorkerAction, WorkerEvent,
};

fn chat() -> Vec<Message> {
    vec![
        Message {
            role: Role::System,
            content: "be brief".to_string(),
        },
        Message {
            role: Role::User,
            content: "list files".to_string(),
        },
    ]
}

fn string(value: Option<&Json>) -> &str {
    value.and_then(|v| v.text()).unwrap()
}

#[test]
fn documents_are_read() {
    let doc = parse(r#" {"b": [1, -2.5, "é\n", null], "a": {"x": true}} "#).unwrap();
    let b = doc.member("b").unwrap();
    assert!(matches!(b.element(0), Some(Json::Number(n)) if n == "1"));
    assert!(matches!(b.element(1), Some(Json::Number(n)) if n == "-2.5"));
    assert_eq!(string(b.element(2)), "é\n");
    assert!(matches!(b.element(3), Some(Json::Null)));
    assert!(b.element(4).is_none());
    let a = doc.member("a").unwrap();
    assert!(matches!(a.member("x"), Some(Json::Bool(true))));
    assert!(a.member("y").is_none());
    assert!(doc.element(0).is_none());
    assert!(b.member("x").is_none());
    assert!(a.text().is_none());
    assert!(matches!(doc.clone().member("a").and_then(|a| a.member("x")), Some(Json::Bool(true))));
    // A number comes back as it is displayed, not as it was written.
    assert!(matches!(parse("1e2"), Some(Json::Number(n)) if n == "100.0"));
    assert!(parse("{").is_none());
    assert!(parse("").is_none());
    assert!(parse("1 2").is_none());
}

#[test]
fn members_are_set_in_place_or_at_the_end() {
    let mut members = vec![("a".to_string(), Json::Null), ("b".to_string(), Json::Null)];
    set_member(&mut members, "a", Json::Bool(true));
    set_member(&mut members, "c", Json::Bool(false));
    let keys: Vec<&str> = members.iter().map(|m| m.0.as_str()).collect();
    assert_eq!(keys, vec!["a", "b", "c"]);
    let object = Json::Object(members);
    assert!(matches!(object.member("a"), Some(Json::Bool(true))));
    assert!(matches!(object.member("b"), Some(Json::Null)));
    assert!(matches!(object.member("c"), Some(Json::Bool(false))));
}

#[test]
fn a_request_carries_the_chat() {
    let body = request_body(&Api::default(), &chat());
    assert_eq!(string(body.member("model")), "gpt-4o-mini");
    assert!(matches!(body.member("stream"), Some(Json::Bool(true))));
    assert!(matches!(body.member("temperature"), Some(Json::Double(bits)) if f64::from_bits(*bits) == 0.2));
    assert!(matches!(body.member("max_tokens"), Some(Json::Number(n)) if n == "1024"));
    let messages = body.member("messages").unwrap();
    let first = messages.element(0).unwrap();
    assert_eq!(string(first.member("role")), "system");
    assert_eq!(string(first.member("content")), "be brief");
    let second = messages.element(1).unwrap();
    assert_eq!(string(second.member("role")), "user");
    assert_eq!(string(second.member("content")), "list files");
    assert!(messages.element(2).is_none());
}

#[test]
fn extra_is_merged_into_the_body() {
    let reasoning = Json::Object(vec![("enabled".to_string(), Json::Bool(false))]);
    let api = Api {
        extra: vec![
            ("reasoning".to_string(), reasoning),
            ("stream".to_string(), Json::Bool(false)),
            ("stream".to_string(), Json::Null),
        ],
        ..Api::default()
    };
    let body = request_body(&api, &chat());
    let enabled = body.member("reasoning").and_then(|r| r.member("enabled"));
    assert!(matches!(enabled, Some(Json::Bool(false))));
    assert!(matches!(body.member("stream"), Some(Json::Null)));
    assert_eq!(string(body.member("model")), "gpt-4o-mini");
}

#[test]
fn only_a_key_is_sent_as_authorization() {
    let api = Api {
        url: "http://x/v1/".to_string(),
        timeout: 7,
        ..Api::default()
    };
    let open = build_request(&api, "", &chat());
    assert_eq!(open.url, "http://x/v1/chat/completions");
    assert_eq!(open.timeout, 7);
    let json = ("Content-Type".to_string(), "application/json".to_string());
    assert_eq!(open.headers, vec![json.clone()]);
    let closed = build_request(&api, "sk", &chat());
    let bearer = ("Authorization".to_string(), "Bearer sk".to_string());
    assert_eq!(closed.headers, vec![json, bearer]);
}

#[test]
fn lines_of_the_reply() {
    let line = r#"  data: {"choices":[{"delta":{"content":"hé"}},{"delta":{"content":"no"}}]} "#;
    assert!(matches!(read_line(line), LineStep::Chunk(s) if s == "hé"));
    assert!(matches!(read_line("data: [DONE]"), LineStep::Finish));
    assert!(matches!(read_line("data:[DONE]\t"), LineStep::Finish));
    for line in [
        "",
        ": keep-alive",
        "event: message",
        "data:",
        "data: {",
        "data: {}",
        "data: []",
        "data: {\"choices\":[]}",
        "data: {\"choices\":{\"0\":{}}}",
        "data: {\"choices\":[{\"delta\":{}}]}",
        "data: {\"choices\":[{\"delta\":{\"content\":null}}]}",
        "data: {\"choices\":[{\"delta\":{\"content\":7}}]}",
        "data: {\"choices\":[{\"delta\":{\"content\":\"\"}}]}",
    ] {
        assert!(matches!(read_line(line), LineStep::Skip), "{}", line);
    }
    assert_eq!(payload_of(" data:  x "), Some("x"));
    assert_eq!(payload_of("x data: y"), None);
    assert!(matches!(read_document(None), LineStep::Skip));
    let doc = parse(r#"{"choices":[{"delta":{"content":"a"}}]}"#).unwrap();
    assert_eq!(chunk_of(&doc), "a");
    assert!(matches!(read_document(Some(doc)), LineStep::Chunk(s) if s == "a"));
}

fn text(line: &str) -> WorkerEvent {
    WorkerEvent::Line(false, LineRead::Text(line.to_string()))
}

fn chunk(content: &str) -> WorkerEvent {
    text(&format!("data: {{\"choices\":[{{\"delta\":{{\"content\":\"{}\"}}}}]}}", content))
}

/// Drives a worker with what the server does, and gives what it says.
fn drive(server: Vec<WorkerEvent>, taken: bool) -> Vec<String> {
    let mut worker = Worker::new(Api::default(), chat());
    let mut server = server.into_iter();
    let mut said: Vec<String> = Vec::new();
    let mut action = worker.step(server.next().unwrap());
    loop {
        let event = match action {
            WorkerAction::Emit(msg) => {
                said.push(match msg {
                    Msg::Chunk(s) => format!("chunk {}", s),
                    Msg::Error(s) => format!("error {}", s),
                    Msg::Done => "done".to_string(),
                });
                WorkerEvent::Delivered(taken)
            }
            WorkerAction::Quit => break,
            WorkerAction::Wait => panic!("nothing was asked"),
            _ => server.next().unwrap(),
        };
        action = worker.step(event);
    }
    assert_eq!(worker.phase, Phase::Ended);
    assert!(matches!(worker.step(WorkerEvent::Delivered(true)), WorkerAction::Wait));
    said
}

fn key() -> WorkerEvent {
    WorkerEvent::Key(Ok("sk".to_string()))
}

#[test]
fn an_answer_streams_in() {
    let said = drive(
        vec![
            key(),
            WorkerEvent::Sent(Ok(200)),
            chunk("ls"),
            text(": comment"),
            chunk(" -la"),
            text("data: [DONE]"),
        ],
        true,
    );
    assert_eq!(said, vec!["chunk ls", "chunk  -la", "done"]);
}

#[test]
fn every_way_out_says_done_once() {
    let failed = |r: &str| WorkerEvent::Line(false, LineRead::Failed(r.to_string()));
    let sent = || WorkerEvent::Sent(Ok(299));
    let cases: Vec<(Vec<WorkerEvent>, Vec<&str>)> = vec![
        (
            vec![WorkerEvent::Key(Err("no".to_string()))],
            vec!["error key_command failed: no", "done"],
        ),
        (
            vec![key(), WorkerEvent::Sent(Err("refused".to_string()))],
            vec!["error refused", "done"],
        ),
        (
            vec![key(), WorkerEvent::Sent(Ok(401)), WorkerEvent::Body("who?".to_string())],
            vec!["error HTTP 401: who?", "done"],
        ),
        (
            vec![key(), sent(), chunk("a"), WorkerEvent::Line(false, LineRead::End)],
            vec!["chunk a", "done"],
        ),
        (
            vec![key(), sent(), chunk("a"), failed("reset")],
            vec!["chunk a", "error reset", "done"],
        ),
        (
            vec![key(), sent(), WorkerEvent::Line(true, LineRead::Failed("reset".to_string()))],
            vec!["done"],
        ),
        (
            vec![key(), sent(), WorkerEvent::Line(true, LineRead::Text("data: x".to_string()))],
            vec!["done"],
        ),
    ];
    for (server, expected) in cases {
        assert_eq!(drive(server, true), expected);
    }
    // Nobody listens: the worker stops at the first chunk.
    assert_eq!(drive(vec![key(), sent(), chunk("a")], false), vec!["chunk a", "done"]);
}

#[test]
fn a_refusal_shows_the_start_of_the_body() {
    assert_eq!(refusal_message(500, ""), "HTTP 500: ");
    let long = "é".repeat(1000);
    assert_eq!(
        refusal_message(199, &long),
        format!("HTTP 199: {}", "é".repeat(400))
    );
    assert_eq!(refusal_message(300, "moved"), "HTTP 300: moved");
}

#[test]
fn a_worker_posts_the_request() {
    let mut worker = Worker::new(Api::default(), chat());
    match worker.step(key()) {
        WorkerAction::Post(request) => {
            assert_eq!(request.url, "https://api.openai.com/v1/chat/completions");
            assert_eq!(request.headers[1].1, "Bearer sk");
            assert_eq!(request.timeout, 60);
        }
        other => panic!("{:?}", other),
    }
    assert!(matches!(worker.step(WorkerEvent::Body(String::new())), WorkerAction::Wait));
    assert!(matches!(worker.step(WorkerEvent::Sent(Ok(404))), WorkerAction::ReadBody));
    assert_eq!(worker.phase, Phase::Refused(404));
}

#[test]
fn only_answers_count() {
    let mut worker = Worker::new(Api::default(), chat());
    for event in [WorkerEvent::Sent(Ok(200)), WorkerEvent::Delivered(true), chunk("a")] {
        assert!(matches!(worker.step(event), WorkerAction::Wait));
        assert_eq!(worker.phase, Phase::Key);
    }
    assert!(matches!(worker.step(key()), WorkerAction::Post(_)));
    assert!(matches!(worker.step(key()), WorkerAction::Wait));
    assert!(matches!(worker.step(WorkerEvent::Sent(Ok(200))), WorkerAction::ReadLine));
    assert!(matches!(worker.step(text("data: [DONE]")), WorkerAction::Emit(Msg::Done)));
    assert_eq!(worker.phase, Phase::Closing);
    assert!(matches!(worker.step(WorkerEvent::Delivered(false)), WorkerAction::Quit));
}
