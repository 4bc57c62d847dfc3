use chat_relay::codec::{decode, encode};
use chat_relay::envelope::{ChatPayload, DecodeError, Message, ProConfig};
use chat_relay::json::{lookup, str_equal, Json};
use chat_relay::session::{Action, Activity, Event, Phase, Supervisor, FORMAT_ERROR, WELCOME};

fn chat(username: &str, content: &str, pro_config: Option<ProConfig>) -> Message {
    Message::Chat(ChatPayload {
        username: username.to_string(),
        content: content.to_string(),
        pro_config,
    })
}

fn running() -> Supervisor {
    let mut s = Supervisor::new();
    let _ = s.step(Event::Opened);
    s
}

fn sent_text(a: Action) -> String {
    match a {
        Action::Send(t) => t,
        other => panic!("expected a frame for the client, got {:?}", other),
    }
}

#[test]
fn decodes_chat_with_null_decoration() {
    let text = r#"{"type":"chat","payload":{"username":"a","content":"hi","pro_config":null}}"#;
    assert_eq!(decode(text), Ok(chat("a", "hi", None)));
}

#[test]
fn decodes_chat_with_decoration() {
    let text = r#"{"type":"chat","payload":{"username":"bo","content":"yo","pro_config":{"frame_style":"gold","badge":"vip"}}}"#;
    let pc = ProConfig { frame_style: "gold".to_string(), badge: "vip".to_string() };
    assert_eq!(decode(text), Ok(chat("bo", "yo", Some(pc))));
}

#[test]
fn absent_decoration_is_none() {
    let text = r#"{"payload":{"content":"x","username":"u"},"type":"chat"}"#;
    assert_eq!(decode(text), Ok(chat("u", "x", None)));
}

#[test]
fn decodes_system_and_ignores_other_members() {
    let text = r#" { "type" : "system", "payload" : "up", "extra": [1.5, true] } "#;
    assert_eq!(decode(text), Ok(Message::System("up".to_string())));
}

#[test]
fn empty_strings_are_kept() {
    let text = r#"{"type":"chat","payload":{"username":"","content":""}}"#;
    assert_eq!(decode(text), Ok(chat("", "", None)));
}

#[test]
fn text_that_is_not_json_is_a_syntax_error() {
    assert_eq!(decode("not json"), Err(DecodeError::Syntax));
    assert_eq!(decode(""), Err(DecodeError::Syntax));
    assert_eq!(decode(r#"{"type":"system","payload":"x"} trailing"#), Err(DecodeError::Syntax));
}

#[test]
fn json_that_is_not_an_envelope_is_a_shape_error() {
    assert_eq!(decode(r#"{"type":"other","payload":"x"}"#), Err(DecodeError::Shape));
    assert_eq!(decode(r#"{"type":"system","payload":1}"#), Err(DecodeError::Shape));
    assert_eq!(decode(r#"{"type":"system"}"#), Err(DecodeError::Shape));
    assert_eq!(decode(r#"{"payload":"x"}"#), Err(DecodeError::Shape));
    assert_eq!(decode(r#"["system","x"]"#), Err(DecodeError::Shape));
    assert_eq!(decode(r#"{"type":"chat","payload":{"username":"a"}}"#), Err(DecodeError::Shape));
    assert_eq!(
        decode(r#"{"type":"chat","payload":{"username":"a","content":"b","pro_config":{"badge":"x"}}}"#),
        Err(DecodeError::Shape)
    );
    assert_eq!(
        decode(r#"{"type":"chat","payload":{"username":"a","content":"b","pro_config":7}}"#),
        Err(DecodeError::Shape)
    );
}

#[test]
fn encodes_system_notice_exactly() {
    let text = encode(&Message::System("hi".to_string()));
    assert_eq!(text, r#"{"payload":"hi","type":"system"}"#);
}

#[test]
fn encodes_chat_exactly() {
    let text = encode(&chat("a", "hi", None));
    assert_eq!(
        text,
        r#"{"payload":{"content":"hi","pro_config":null,"username":"a"},"type":"chat"}"#
    );
}

#[test]
fn round_trip_keeps_field_values() {
    let pc = ProConfig { frame_style: "neon \"x\"".to_string(), badge: "\u{2605}".to_string() };
    for m in [
        chat("a", "hi", None),
        chat("b\n", "", Some(pc)),
        Message::System("format error".to_string()),
    ] {
        assert_eq!(decode(&encode(&m)), Ok(m.clone()));
    }
    let original = r#"{"type":"chat","payload":{"username":"z","content":"q","pro_config":{"frame_style":"f","badge":"b"},"more":0}}"#;
    let m = decode(original).unwrap();
    assert_eq!(decode(&encode(&m)), Ok(m));
}

#[test]
fn json_model_round_trip_through_values() {
    let m = chat("a", "b", None);
    let doc = m.to_json();
    assert_eq!(Message::from_json(&doc), Ok(m));
    assert_eq!(Message::from_json(&Json::Null), Err(DecodeError::Shape));
}

#[test]
fn lookup_finds_the_first_member() {
    let doc = Json::Object(vec![
        ("k".to_string(), Json::Str("one".to_string())),
        ("k".to_string(), Json::Str("two".to_string())),
    ]);
    assert!(matches!(lookup(&doc, "k"), Some(Json::Str(s)) if s == "one"));
    assert!(lookup(&doc, "x").is_none());
    assert!(lookup(&Json::Bool(true), "k").is_none());
}

#[test]
fn string_equality() {
    assert!(str_equal("abc", "abc"));
    assert!(!str_equal("abc", "abd"));
    assert!(!str_equal("ab", "abc"));
    assert!(str_equal("", ""));
}

#[test]
fn session_greets_the_client_on_open() {
    let mut s = Supervisor::new();
    assert_eq!(s.phase(), Phase::Starting);
    assert!(s.is_subscribed());
    assert_eq!(s.step(Event::Frame("x".to_string())), Action::Idle);
    let greeting = sent_text(s.step(Event::Opened));
    assert_eq!(decode(&greeting), Ok(Message::System(WELCOME.to_string())));
    assert_eq!(s.phase(), Phase::Running);
    assert_eq!(s.step(Event::Opened), Action::Idle);
}

#[test]
fn malformed_frame_gets_one_notice_and_session_stays() {
    let mut s = running();
    let reply = sent_text(s.step(Event::Frame("not json".to_string())));
    assert_eq!(decode(&reply), Ok(Message::System(FORMAT_ERROR.to_string())));
    assert_eq!(s.phase(), Phase::Running);
    let good = r#"{"type":"system","payload":"still here"}"#;
    assert_eq!(
        s.step(Event::Frame(good.to_string())),
        Action::Publish(Message::System("still here".to_string()))
    );
}

#[test]
fn chat_from_one_client_reaches_the_others() {
    let text = r#"{"type":"chat","payload":{"username":"a","content":"hi","pro_config":null}}"#;
    let mut a = running();
    let mut b = running();
    let mut c = running();
    let published = match a.step(Event::Frame(text.to_string())) {
        Action::Publish(m) => m,
        other => panic!("expected a publish, got {:?}", other),
    };
    assert_eq!(published, chat("a", "hi", None));
    for s in [&mut b, &mut c] {
        let frame = sent_text(s.step(Event::Delivered(published.clone())));
        assert_eq!(decode(&frame), Ok(chat("a", "hi", None)));
    }
    // The sender is a subscriber like any other and gets its own message back.
    let echo = sent_text(a.step(Event::Delivered(published.clone())));
    assert_eq!(decode(&echo), Ok(published));
}

#[test]
fn deliveries_are_written_in_order() {
    let mut s = running();
    let ms: Vec<Message> = (0..5).map(|i| Message::System(format!("m{}", i))).collect();
    for m in &ms {
        let frame = sent_text(s.step(Event::Delivered(m.clone())));
        assert_eq!(frame, encode(m));
    }
}

#[test]
fn ending_an_activity_tears_down_only_that_session() {
    let mut a = running();
    let mut b = running();
    assert_eq!(a.step(Event::Ended(Activity::Inbound)), Action::CancelAll);
    assert_eq!(a.phase(), Phase::Closing);
    assert_eq!(a.step(Event::Ended(Activity::Writer)), Action::Idle);
    assert_eq!(a.step(Event::Frame("{}".to_string())), Action::Idle);
    assert_eq!(a.step(Event::Joined), Action::Release);
    assert_eq!(a.phase(), Phase::Closed);
    assert!(!a.is_subscribed());
    assert_eq!(a.step(Event::Opened), Action::Idle);
    assert_eq!(a.phase(), Phase::Closed);
    assert_eq!(b.phase(), Phase::Running);
    assert!(b.is_subscribed());
    assert_eq!(b.step(Event::Ended(Activity::Outbound)), Action::CancelAll);
}

#[test]
fn joined_while_running_changes_nothing() {
    let mut s = running();
    assert_eq!(s.step(Event::Joined), Action::Idle);
    assert_eq!(s.phase(), Phase::Running);
    assert!(s.is_subscribed());
}
