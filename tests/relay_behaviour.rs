use ask_the_caterpillar::document::{decode_response, extract, find_overlong_fraction, MAX_FRACTION_DIGITS};
use ask_the_caterpillar::multipart::{content_length, query_body};
use ask_the_caterpillar::relay::{Action, Incoming, Input, Relay};
use ask_the_caterpillar::router::{
    answer_text, classify, command_replies, welcome, Command, HAVING_ISSUES, HELP,
};

fn text_event(text: &str, name: &str) -> Input {
    Input::Event(Incoming::Text { text: text.to_string(), first_name: name.to_string() })
}

fn sent_text(a: &Action) -> String {
    match a {
        Action::Send(s) => s.clone(),
        _ => panic!("expected a send"),
    }
}

fn reply_for(body: &str) -> Option<String> {
    extract(&decode_response(Some(body.as_bytes().to_vec())))
}

#[test]
fn query_body_for_hello() {
    let body = query_body("hello");
    let expected = "--atc\r\nContent-Disposition: form-data; name=\"query\"\r\n\r\nhello\r\n--atc--\r\n\r\n";
    assert_eq!(body, expected);
    assert_eq!(content_length(&body), expected.len() as u64);
    assert_eq!(content_length(&body), 73);
}

#[test]
fn content_length_counts_bytes_not_characters() {
    let body = query_body("é");
    assert_eq!(content_length(&body), 70);
    assert_eq!(body.chars().count(), 69);
}

#[test]
fn extracts_first_message_content() {
    assert_eq!(reply_for(r#"{"data":{"messages":[{"content":"X"}]}}"#), Some("X".to_string()));
}

#[test]
fn extracts_only_the_first_message() {
    let body = r#"{"data":{"messages":[{"content":"one"},{"content":"two"}]}}"#;
    assert_eq!(reply_for(body), Some("one".to_string()));
}

#[test]
fn empty_message_list_extracts_empty_text() {
    assert_eq!(reply_for(r#"{"data":{"messages":[]}}"#), Some(String::new()));
}

#[test]
fn broken_paths_extract_empty_text() {
    assert_eq!(reply_for(r#"{}"#), Some(String::new()));
    assert_eq!(reply_for(r#"{"data":[]}"#), Some(String::new()));
    assert_eq!(reply_for(r#"{"data":{"messages":{"content":"X"}}}"#), Some(String::new()));
    assert_eq!(reply_for(r#"{"data":{"messages":[{"content":7}]}}"#), Some(String::new()));
    assert_eq!(reply_for(r#"{"data":{"messages":[{"text":"X"}]}}"#), Some(String::new()));
    assert_eq!(reply_for(r#"[1, 2]"#), Some(String::new()));
}

#[test]
fn non_json_body_decodes_to_nothing() {
    assert!(decode_response(Some(b"<html>oops</html>".to_vec())).is_none());
    assert_eq!(reply_for("<html>oops</html>"), None);
}

#[test]
fn non_utf8_body_decodes_to_nothing() {
    assert!(decode_response(Some(vec![0x7b, 0xff, 0xfe, 0x7d])).is_none());
}

#[test]
fn missing_body_decodes_to_nothing() {
    assert!(decode_response(None).is_none());
    assert_eq!(extract(&None), None);
}

#[test]
fn commands_are_recognised_exactly() {
    assert_eq!(classify("/start"), Command::Start);
    assert_eq!(classify("/help"), Command::Help);
    assert_eq!(classify("/start "), Command::Query);
    assert_eq!(classify("/HELP"), Command::Query);
    assert_eq!(classify(""), Command::Query);
    assert_eq!(classify("Is alcohol toxic?"), Command::Query);
}

#[test]
fn welcome_names_the_sender() {
    assert_eq!(welcome("Alice"), "Welcome, Alice!");
}

#[test]
fn command_replies_in_order() {
    assert_eq!(command_replies("/start", "Bo"), vec!["Welcome, Bo!".to_string(), HELP.to_string()]);
    assert_eq!(command_replies("/help", "Bo"), vec![HELP.to_string()]);
    assert!(command_replies("what is DMT?", "Bo").is_empty());
}

#[test]
fn answer_text_falls_back_on_empty_or_missing() {
    assert_eq!(answer_text(Some("Take care.".to_string())), "Take care.");
    assert_eq!(answer_text(Some(String::new())), HAVING_ISSUES);
    assert_eq!(answer_text(None), HAVING_ISSUES);
}

#[test]
fn unreachable_service_gets_fallback_and_loop_goes_on() {
    let mut relay = Relay::new();
    let a = relay.step(text_event("Is cocaine safe?", "Cy"));
    match a {
        Action::Query(body) => assert_eq!(body, query_body("Is cocaine safe?")),
        _ => panic!("expected a query"),
    }
    let a = relay.step(Input::Answer(None));
    assert_eq!(sent_text(&a), HAVING_ISSUES);
    assert!(matches!(relay.step(Input::Sent(true)), Action::Ack));
    let a = relay.step(text_event("/help", "Cy"));
    assert_eq!(sent_text(&a), HELP);
}

#[test]
fn answered_query_is_relayed() {
    let mut relay = Relay::new();
    assert!(matches!(relay.step(text_event("hello", "Di")), Action::Query(_)));
    let body = br#"{"data":{"messages":[{"content":"Hi there"}]}}"#.to_vec();
    let a = relay.step(Input::Answer(Some(body)));
    assert_eq!(sent_text(&a), "Hi there");
    assert!(matches!(relay.step(Input::Sent(true)), Action::Ack));
}

#[test]
fn non_json_answer_gets_fallback() {
    let mut relay = Relay::new();
    relay.step(text_event("hello", "Di"));
    let a = relay.step(Input::Answer(Some(b"Bad Gateway".to_vec())));
    assert_eq!(sent_text(&a), HAVING_ISSUES);
}

#[test]
fn start_sends_greeting_then_help() {
    let mut relay = Relay::new();
    let a = relay.step(text_event("/start", "Eve"));
    let greeting = sent_text(&a);
    assert!(greeting.contains("Eve"));
    assert_eq!(greeting, "Welcome, Eve!");
    let b = relay.step(Input::Sent(true));
    assert_eq!(sent_text(&b), HELP);
    assert!(matches!(relay.step(Input::Sent(true)), Action::Ack));
}

#[test]
fn start_stops_after_failed_greeting() {
    let mut relay = Relay::new();
    relay.step(text_event("/start", "Eve"));
    assert!(matches!(relay.step(Input::Sent(false)), Action::Ack));
}

#[test]
fn help_sends_help_only() {
    let mut relay = Relay::new();
    let a = relay.step(text_event("/help", "Fay"));
    assert_eq!(sent_text(&a), HELP);
    assert!(matches!(relay.step(Input::Sent(true)), Action::Ack));
}

#[test]
fn listener_errors_and_other_messages_are_acknowledged() {
    let mut relay = Relay::new();
    assert!(matches!(relay.step(Input::Event(Incoming::ListenerError)), Action::Ack));
    assert!(matches!(relay.step(Input::Event(Incoming::Ignored)), Action::Ack));
}

#[test]
fn reports_out_of_turn_are_ignored() {
    let mut relay = Relay::new();
    assert!(matches!(relay.step(Input::Sent(true)), Action::Wait));
    assert!(matches!(relay.step(Input::Answer(None)), Action::Wait));
    relay.step(text_event("hello", "Gus"));
    assert!(matches!(relay.step(Input::Event(Incoming::Ignored)), Action::Wait));
    assert!(matches!(relay.step(Input::Sent(true)), Action::Wait));
}

#[test]
fn one_ack_per_event_despite_failures() {
    let mut relay = Relay::new();
    let texts = ["/start", "/help", "dose of LSD?", "/start", "mixing MDMA?"];
    let mut events = 0u32;
    let mut acks = 0u32;
    for (n, t) in texts.iter().enumerate() {
        let mut action = relay.step(text_event(t, "Hal"));
        events += 1;
        loop {
            action = match action {
                Action::Ack => {
                    acks += 1;
                    break;
                }
                Action::Query(_) => relay.step(Input::Answer(None)),
                Action::Send(_) => relay.step(Input::Sent(n % 2 == 0)),
                Action::Wait => panic!("the relay waited within a cycle"),
            };
        }
    }
    let action = relay.step(Input::Event(Incoming::ListenerError));
    events += 1;
    if matches!(action, Action::Ack) {
        acks += 1;
    }
    assert_eq!(events, 6);
    assert_eq!(acks, events);
}

fn body_with_fraction(zeros: usize) -> String {
    format!(r#"{{"data":{{"messages":[{{"content":"ok"}}]}},"x":0.{}}}"#, "0".repeat(zeros))
}

#[test]
fn longest_allowed_fraction_is_parsed() {
    assert_eq!(reply_for(&body_with_fraction(MAX_FRACTION_DIGITS)), Some("ok".to_string()));
}

#[test]
fn overlong_fraction_decodes_to_nothing() {
    assert_eq!(reply_for(&body_with_fraction(MAX_FRACTION_DIGITS + 1)), None);
    assert_eq!(reply_for(&body_with_fraction(40000)), None);
}

#[test]
fn overlong_fraction_is_found_only_after_a_dot() {
    let digits = "7".repeat(MAX_FRACTION_DIGITS + 1);
    assert!(find_overlong_fraction(&format!(".{}", digits).into_bytes()));
    assert!(!find_overlong_fraction(&format!("1{}", digits).into_bytes()));
    assert!(!find_overlong_fraction(&format!(".{}", &digits[1..]).into_bytes()));
    assert!(!find_overlong_fraction(&b"0.5".to_vec()));
}

#[test]
fn long_digit_runs_inside_strings_are_parsed() {
    let zeros = "0".repeat(MAX_FRACTION_DIGITS + 10);
    let body = format!(r#"{{"data":{{"messages":[{{"content":".{}"}}]}}}}"#, zeros);
    assert_eq!(reply_for(&body), Some(format!(".{}", zeros)));
    let escaped = format!(r#"{{"data":{{"messages":[{{"content":"a\".{}"}}]}}}}"#, zeros);
    assert_eq!(reply_for(&escaped), Some(format!("a\".{}", zeros)));
    assert!(!find_overlong_fraction(&format!("\".{}\"", zeros).into_bytes()));
    assert!(find_overlong_fraction(&format!("\"\\\\\" 0.{}", zeros).into_bytes()));
}
