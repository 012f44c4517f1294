use chatgpt_cli::chat::{authorization_value, read_completion, ChatResponse, Choice, CustomError, Message};

fn msg(role: &str, content: &str) -> Message {
    Message { role: role.to_string(), content: content.to_string() }
}

#[test]
fn first_choice_is_the_reply() {
    let resp = ChatResponse {
        choices: vec![
            Choice { message: msg("assistant", "Hi there.") },
            Choice { message: msg("assistant", "Hello!") },
        ],
    };
    let c = read_completion("{}", Some(resp));
    assert!(c.diagnostic.is_none());
    let reply = c.reply.unwrap();
    assert_eq!(reply.role, "assistant");
    assert_eq!(reply.content, "Hi there.");
}

#[test]
fn reply_role_is_taken_verbatim() {
    let resp = ChatResponse { choices: vec![Choice { message: msg("system", "odd") }] };
    let reply = read_completion("", Some(resp)).reply.unwrap();
    assert_eq!(reply, msg("system", "odd"));
}

#[test]
fn empty_choices_give_fallback_reply() {
    let c = read_completion("{\"choices\":[]}", Some(ChatResponse { choices: vec![] }));
    assert!(c.diagnostic.is_none());
    let reply = c.reply.unwrap();
    assert_eq!(reply.role, "assistant");
    assert_eq!(reply.content, "I don't have an answer for that.");
}

#[test]
fn undecodable_body_is_parse_error_with_raw_log() {
    let body = "<html>502 Bad Gateway</html>\n  ünïcode ";
    let c = read_completion(body, None);
    assert_eq!(c.diagnostic.unwrap(), format!("Raw response: {}", body));
    match c.reply {
        Err(CustomError::ParseError(s)) => assert_eq!(s, "Error parsing the API response"),
        _ => panic!("expected a parse error"),
    }
}

#[test]
fn parse_error_description() {
    let e = CustomError::ParseError("Error parsing the API response".to_string());
    assert_eq!(e.describe(), "Parse error: Error parsing the API response");
}

#[test]
fn transport_error_converts_and_describes() {
    let err = reqwest::Client::new().get("not a url").build().unwrap_err();
    let text = err.to_string();
    let e = CustomError::from(err);
    assert!(matches!(e, CustomError::ReqwestError(_)));
    assert_eq!(e.describe(), format!("Reqwest error: {}", text));
}

#[test]
fn bearer_header_value() {
    assert_eq!(authorization_value("sk-abc"), "Bearer sk-abc");
    assert_eq!(authorization_value(""), "Bearer ");
}
