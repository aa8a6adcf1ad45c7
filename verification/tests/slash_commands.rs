use dalbozz::event::SlashCommand;
use dalbozz::slash_commands::{
    acknowledge, configure_commands, frame_response, generate_response, send_response, Header,
    HttpRequest,
};

fn header(name: &str, value: &str) -> Header {
    Header { name: name.to_string(), value: value.to_string() }
}

#[test]
fn response_kinds() {
    assert_eq!(generate_response(false, None), r#"{"type":2,"data":null}"#);
    assert_eq!(generate_response(true, None), r#"{"type":5,"data":null}"#);
    assert_eq!(generate_response(false, Some("hi")), r#"{"type":3,"data":{"content":"hi"}}"#);
    assert_eq!(generate_response(true, Some("hi")), r#"{"type":4,"data":{"content":"hi"}}"#);
}

#[test]
fn response_message_is_escaped() {
    assert_eq!(
        generate_response(true, Some("say \"hi\"\n\\o/")),
        r#"{"type":4,"data":{"content":"say \"hi\"\n\\o/"}}"#
    );
    assert_eq!(generate_response(false, Some("")), r#"{"type":3,"data":{"content":""}}"#);
    assert_eq!(
        generate_response(false, Some("\u{1F1E6} Catan")),
        "{\"type\":3,\"data\":{\"content\":\"\u{1F1E6} Catan\"}}"
    );
}

#[test]
fn response_is_json() {
    let body = generate_response(true, Some("tab\there"));
    let value: serde_json::Value = serde_json::from_str(&body).unwrap();
    assert_eq!(value["type"], 4);
    assert_eq!(value["data"]["content"], "tab\there");
    let body = generate_response(false, None);
    let value: serde_json::Value = serde_json::from_str(&body).unwrap();
    assert_eq!(value["type"], 2);
    assert!(value["data"].is_null());
}

#[test]
fn send_response_goes_to_the_callback_of_the_command() {
    let command = SlashCommand {
        id: 123456789,
        name: "anything".to_string(),
        token: "tok-en".to_string(),
        user: 1,
        channel: 2,
    };
    assert_eq!(
        send_response(&command, false, None),
        HttpRequest {
            url: "https://discord.com/api/v8/interactions/123456789/tok-en/callback".to_string(),
            headers: vec![header("content-type", "application/json")],
            body: r#"{"type":2,"data":null}"#.to_string(),
        }
    );
    assert_eq!(
        send_response(&command, true, Some("ok")).body,
        r#"{"type":4,"data":{"content":"ok"}}"#
    );
}

#[test]
fn configure_commands_for_all_servers() {
    assert_eq!(
        configure_commands("s3cr3t", "app1", &None, "[]".to_string()),
        HttpRequest {
            url: "https://discord.com/api/v8/applications/app1/commands".to_string(),
            headers: vec![
                header("authorization", "Bot s3cr3t"),
                header("content-length", "2"),
                header("content-type", "application/json"),
            ],
            body: "[]".to_string(),
        }
    );
}

#[test]
fn configure_commands_for_one_server() {
    let data = "{\"name\":\"lfg \u{1F1E6}\"}".to_string();
    assert_eq!(data.len(), 19);
    assert_eq!(
        configure_commands("t", "9", &Some("77".to_string()), data.clone()),
        HttpRequest {
            url: "https://discord.com/api/v8/applications/9/guilds/77/commands".to_string(),
            headers: vec![
                header("authorization", "Bot t"),
                header("content-length", "19"),
                header("content-type", "application/json"),
            ],
            body: data,
        }
    );
}

#[test]
fn configure_commands_with_an_empty_body() {
    let request = configure_commands("", "", &None, String::new());
    assert_eq!(request.url, "https://discord.com/api/v8/applications//commands");
    assert_eq!(request.headers[0], header("authorization", "Bot "));
    assert_eq!(request.headers[1], header("content-length", "0"));
    assert_eq!(request.body, "");
}

#[test]
fn frame_takes_the_content_as_it_is() {
    assert_eq!(frame_response(false, None), r#"{"type":2,"data":null}"#);
    assert_eq!(frame_response(true, None), r#"{"type":5,"data":null}"#);
    assert_eq!(frame_response(false, Some("\"a\"")), r#"{"type":3,"data":{"content":"a"}}"#);
    assert_eq!(frame_response(true, Some("\"\\n\"")), r#"{"type":4,"data":{"content":"\n"}}"#);
}

#[test]
fn every_escape_of_a_json_string() {
    assert_eq!(
        generate_response(false, Some("\"\\\u{8}\t\n\u{c}\r")),
        "{\"type\":3,\"data\":{\"content\":\"\\\"\\\\\\b\\t\\n\\f\\r\"}}"
    );
    assert_eq!(
        generate_response(false, Some("\u{0}\u{1}\u{b}\u{e}\u{1a}\u{1f}")),
        "{\"type\":3,\"data\":{\"content\":\"\\u0000\\u0001\\u000b\\u000e\\u001a\\u001f\"}}"
    );
    assert_eq!(
        generate_response(false, Some(" /\u{7f}\u{80}\u{e9}\u{2028}\u{1F1E6}'")),
        "{\"type\":3,\"data\":{\"content\":\" /\u{7f}\u{80}\u{e9}\u{2028}\u{1F1E6}'\"}}"
    );
}

#[test]
fn only_the_start_command_is_acknowledged() {
    let mut command = SlashCommand {
        id: 5,
        name: "lfg".to_string(),
        token: "t".to_string(),
        user: 1,
        channel: 2,
    };
    assert_eq!(
        acknowledge(&command),
        Some(HttpRequest {
            url: "https://discord.com/api/v8/interactions/5/t/callback".to_string(),
            headers: vec![header("content-type", "application/json")],
            body: r#"{"type":2,"data":null}"#.to_string(),
        })
    );
    assert_eq!(acknowledge(&command), Some(send_response(&command, false, None)));
    command.name = "Lfg".to_string();
    assert_eq!(acknowledge(&command), None);
    command.name = String::new();
    assert_eq!(acknowledge(&command), None);
}
