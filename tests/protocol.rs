use chat_client::clock::{clock_text, time_text_with_offset};
use chat_client::event::{decode_event, decode_fields, topic_of, InboundEvent, Topic};
use chat_client::input::{classify_line, line_or_default, LineAction};
use chat_client::payload::{find_member, Field};
use chat_client::roster::{roster_line, unique_names};
use chat_client::session::{Channel, ConnectionState, OutboundCommand, Session, Step};
use chat_client::username::is_valid_username;

fn session() -> Session {
    Session::new("alice").unwrap()
}

fn event(topic: Topic, payload: &str) -> InboundEvent {
    decode_event(topic, Some(payload.to_string()))
}

fn names(v: &[&str]) -> Vec<String> {
    v.iter().map(|s| s.to_string()).collect()
}

fn notice_text(s: &mut Session, e: InboundEvent) -> (Channel, String) {
    let n = s.handle_event(e).notice.unwrap();
    (n.channel, n.text)
}

#[test]
fn username_accepts_letters_digits_underscore_dash() {
    assert!(is_valid_username("abc"));
    assert!(is_valid_username("a_b-C9"));
    assert!(is_valid_username("abcdefghijklmnopqrst"));
    assert!(is_valid_username("___"));
}

#[test]
fn username_rejects_bad_lengths_and_characters() {
    assert!(!is_valid_username(""));
    assert!(!is_valid_username("ab"));
    assert!(!is_valid_username("abcdefghijklmnopqrstu"));
    assert!(!is_valid_username("has space"));
    assert!(!is_valid_username("a@b"));
    assert!(!is_valid_username("ñandú"));
    assert!(Session::new("a b").is_none());
}

#[test]
fn lines_are_classified_after_trimming() {
    assert_eq!(classify_line("  /quitar \n"), LineAction::Quit);
    assert_eq!(classify_line("/listar"), LineAction::ListUsers);
    assert_eq!(classify_line(""), LineAction::Skip);
    assert_eq!(classify_line("   \t"), LineAction::Skip);
    assert_eq!(classify_line("  hello world \n"), LineAction::Say("hello world".to_string()));
    assert_eq!(classify_line("/QUITAR"), LineAction::Say("/QUITAR".to_string()));
}

#[test]
fn clock_is_two_digit_hour_and_minute() {
    assert_eq!(clock_text(1700000000, 0), "22:13");
    assert_eq!(clock_text(1700000000, 3600), "23:13");
    assert_eq!(clock_text(1700000000, 7200), "00:13");
    assert_eq!(clock_text(1700000000, -22 * 3600), "00:13");
    assert_eq!(clock_text(0, -60), "23:59");
    assert_eq!(clock_text(65, 0), "00:01");
}

#[test]
fn missing_or_non_positive_time_shows_placeholder() {
    assert_eq!(time_text_with_offset(None, Some(3600)), "--:--");
    assert_eq!(time_text_with_offset(Some(0), Some(3600)), "--:--");
    assert_eq!(time_text_with_offset(Some(-5), None), "--:--");
}

#[test]
fn milliseconds_are_truncated_to_seconds() {
    assert_eq!(time_text_with_offset(Some(1700000000000), Some(0)), "22:13");
    assert_eq!(time_text_with_offset(Some(1700000039999), Some(0)), "22:13");
    assert_eq!(time_text_with_offset(Some(1700000040000), Some(0)), "22:14");
    assert_eq!(time_text_with_offset(Some(i64::MAX), None), "00:00");
}

#[test]
fn chat_time_follows_local_clock() {
    let at: i64 = 1700000000000;
    let local = chrono::TimeZone::timestamp_opt(&chrono::Local, at / 1000, 0).unwrap();
    let expected = local.format("[%H:%M] bob: hi").to_string();
    let mut s = session();
    let e = event(Topic::ChatPublic, r#"{"username":"bob","text":"hi","sentAtEpochMillis":1700000000000}"#);
    assert_eq!(notice_text(&mut s, e), (Channel::Output, expected));
}

#[test]
fn untimed_chat_shows_placeholder_time() {
    let mut s = session();
    let e = event(Topic::ChatPublic, r#"{"username":"bob","text":"hi","sentAtEpochMillis":0}"#);
    assert_eq!(notice_text(&mut s, e), (Channel::Output, "[--:--] bob: hi".to_string()));
    let e = event(Topic::ChatPublic, r#"{"username":"bob","text":"hi"}"#);
    assert_eq!(notice_text(&mut s, e), (Channel::Output, "[--:--] bob: hi".to_string()));
}

#[test]
fn chat_without_sender_or_text_uses_placeholders() {
    let mut s = session();
    s.handle_event(event(Topic::UsersList, r#"{"users":["bob"]}"#));
    let e = event(Topic::ChatPublic, r#"{}"#);
    assert_eq!(notice_text(&mut s, e), (Channel::Output, "[--:--] ¿?: ".to_string()));
    assert_eq!(s.roster(), &names(&["bob"]));
    assert_eq!(s.state(), ConnectionState::Disconnected);
}

#[test]
fn welcome_connects_and_sets_roster() {
    let mut s = session();
    s.connection_opened();
    assert_eq!(s.state(), ConnectionState::Connecting);
    let e = event(Topic::Welcome, r#"{"username":"alice","connectedUsers":["bob","carol"]}"#);
    let (ch, text) = notice_text(&mut s, e);
    assert_eq!(ch, Channel::Output);
    assert_eq!(text, "✅ Connected as \"alice\". Users online: bob, carol");
    assert_eq!(s.state(), ConnectionState::Connected);
    assert_eq!(s.roster(), &names(&["bob", "carol"]));
}

#[test]
fn welcome_with_repeats_keeps_each_user_once() {
    let mut s = session();
    let e = event(Topic::Welcome, r#"{"username":"alice","connectedUsers":["bob","carol","bob"]}"#);
    s.handle_event(e);
    assert_eq!(s.roster(), &names(&["bob", "carol"]));
}

#[test]
fn malformed_welcome_changes_nothing() {
    let mut s = session();
    let e = event(Topic::Welcome, r#"{"username":"alice","connectedUsers":["bob",3]}"#);
    assert!(matches!(e, InboundEvent::WelcomeUnexpected));
    assert_eq!(notice_text(&mut s, e).1, "(welcome) unexpected payload");
    assert_eq!(s.state(), ConnectionState::Disconnected);
    let e = event(Topic::Welcome, "not json");
    assert!(matches!(e, InboundEvent::NotJson(Topic::Welcome)));
    assert_eq!(notice_text(&mut s, e).1, "(welcome) payload is not JSON");
}

#[test]
fn empty_users_list_empties_roster() {
    let mut s = session();
    s.handle_event(event(Topic::UsersList, r#"{"users":["bob"]}"#));
    let e = event(Topic::UsersList, r#"{"users":[]}"#);
    assert_eq!(notice_text(&mut s, e), (Channel::Output, "👥 Users online: —".to_string()));
    assert!(s.roster().is_empty());
}

#[test]
fn latest_users_list_replaces_roster() {
    let mut s = session();
    s.handle_event(event(Topic::UsersList, r#"{"users":["bob","carol"]}"#));
    s.handle_event(event(Topic::UsersList, r#"{"users":["dave"]}"#));
    assert_eq!(s.roster(), &names(&["dave"]));
}

#[test]
fn users_list_skips_non_strings_and_reports_bad_shape() {
    let mut s = session();
    s.handle_event(event(Topic::UsersList, r#"{"users":["bob",1,null,"carol"]}"#));
    assert_eq!(s.roster(), &names(&["bob", "carol"]));
    let e = event(Topic::UsersList, r#"{"people":[]}"#);
    assert_eq!(notice_text(&mut s, e).1, "(users:list) unexpected payload");
    assert_eq!(s.roster(), &names(&["bob", "carol"]));
    assert!(s.handle_event(event(Topic::UsersList, "[")).notice.is_none());
}

#[test]
fn joins_and_leaves_are_only_shown() {
    let mut s = session();
    let e = event(Topic::UserJoined, r#"{"username":"bob"}"#);
    assert_eq!(notice_text(&mut s, e).1, "➕ bob joined");
    let e = event(Topic::UserLeft, r#"{}"#);
    assert_eq!(notice_text(&mut s, e).1, "➖ ¿? left");
    assert!(s.roster().is_empty());
}

#[test]
fn server_errors_go_to_error_channel() {
    let mut s = session();
    let e = event(Topic::ServerError, r#"{"code":"E1","message":"bad"}"#);
    assert_eq!(notice_text(&mut s, e), (Channel::Error, "⚠️  server:error [E1] bad".to_string()));
    let e = event(Topic::ServerError, r#"{}"#);
    assert_eq!(notice_text(&mut s, e).1, "⚠️  server:error [UNKNOWN] ");
    let e = event(Topic::ServerError, "oops");
    assert_eq!(notice_text(&mut s, e), (Channel::Error, "⚠️  server:error (payload is not JSON)".to_string()));
}

#[test]
fn transport_events() {
    let mut s = session();
    let r = s.handle_event(decode_event(Topic::Connect, None));
    assert!(matches!(r.command, Some(OutboundCommand::Hello { ref username }) if username == "alice"));
    let e = decode_event(Topic::Disconnect, Some("io server disconnect".to_string()));
    assert_eq!(notice_text(&mut s, e), (Channel::Error, "🔌 Disconnected: io server disconnect".to_string()));
    let e = decode_event(Topic::Disconnect, None);
    assert_eq!(notice_text(&mut s, e).1, "🔌 Disconnected (binary payload)");
    assert_eq!(s.state(), ConnectionState::Disconnected);
}

#[test]
fn quit_emits_once_then_disconnects_once() {
    let mut s = session();
    let steps = s.handle_line(" /quitar ");
    assert_eq!(steps.len(), 2);
    assert!(matches!(steps[0], Step::Emit(OutboundCommand::QuitRequest)));
    assert!(matches!(steps[1], Step::Disconnect));
    assert!(s.is_finished());
    assert!(s.handle_line("/quitar").is_empty());
    assert!(!s.shutdown());
}

#[test]
fn lines_become_commands() {
    let mut s = session();
    assert!(s.handle_line("   ").is_empty());
    let steps = s.handle_line("/listar");
    assert!(matches!(steps[..], [Step::Emit(OutboundCommand::ListUsersRequest)]));
    let steps = s.handle_line(" hi all ");
    assert!(matches!(&steps[..], [Step::Emit(OutboundCommand::PublicMessage { text })] if text == "hi all"));
    assert!(s.shutdown());
    assert!(!s.shutdown());
}

#[test]
fn wire_names() {
    assert_eq!(topic_of("chat:public"), Some(Topic::ChatPublic));
    assert_eq!(topic_of("users:list"), Some(Topic::UsersList));
    assert_eq!(topic_of("nope"), None);
    assert_eq!(Topic::ServerError.name(), "server:error");
    assert_eq!(OutboundCommand::QuitRequest.event_name(), "command:quit");
    assert_eq!(OutboundCommand::ListUsersRequest.event_name(), "command:list");
    assert_eq!(OutboundCommand::Hello { username: "x".to_string() }.event_name(), "hello");
}

#[test]
fn roster_helpers() {
    assert_eq!(unique_names(&names(&["a", "b", "a", "c", "b"])), names(&["a", "b", "c"]));
    assert_eq!(roster_line(&names(&[])), "—");
    assert_eq!(roster_line(&names(&["a", "b"])), "a, b");
}

#[test]
fn prompt_answer_falls_back_to_default() {
    assert_eq!(line_or_default("  \n", "3000"), "3000");
    assert_eq!(line_or_default(" 8080 \n", "3000"), "8080");
}

#[test]
fn members_decode_by_topic() {
    let ms = vec![
        ("connectedUsers".to_string(), Field::List(vec![Some("bob".to_string()), Some("carol".to_string())])),
        ("username".to_string(), Field::Text("alice".to_string())),
    ];
    match decode_fields(Topic::Welcome, &ms) {
        InboundEvent::Welcome { username, users } => {
            assert_eq!(username, "alice");
            assert_eq!(users, names(&["bob", "carol"]));
        }
        other => panic!("unexpected {:?}", other),
    }
    let ms = vec![("users".to_string(), Field::List(vec![Some("bob".to_string()), None]))];
    assert!(matches!(decode_fields(Topic::UsersList, &ms), InboundEvent::UsersList(u) if u == names(&["bob"])));
    assert!(matches!(decode_fields(Topic::Welcome, &ms), InboundEvent::WelcomeUnexpected));
    let ms = vec![("sentAtEpochMillis".to_string(), Field::Int(5)), ("text".to_string(), Field::Other)];
    assert!(matches!(
        decode_fields(Topic::ChatPublic, &ms),
        InboundEvent::Chat { username: None, text: None, sent_at: Some(5) }
    ));
    assert!(matches!(find_member(&ms, "text"), Some(Field::Other)));
    assert!(find_member(&ms, "nope").is_none());
}

#[test]
fn chat_payload_fields_are_read() {
    let e = event(Topic::ChatPublic, r#"{"username":"bob","text":"hi","sentAtEpochMillis":1700000000000}"#);
    assert!(matches!(e, InboundEvent::Chat { username: Some(ref u), text: Some(ref t), sent_at: Some(1700000000000) } if u == "bob" && t == "hi"));
    let e = event(Topic::ChatPublic, r#"{"sentAtEpochMillis":1.5}"#);
    assert!(matches!(e, InboundEvent::Chat { username: None, text: None, sent_at: None }));
}
