//! The requests by which the bot answers a slash command and registers its
//! commands with the chat platform. They are built here and sent elsewhere.

use vstd::prelude::*;
use vstd::utf8::encode_utf8;

use crate::event::{CommandKind, CommandView, SlashCommand};
use crate::text::{decimal, decimal_string};

verus! {

/// Where the answer to a slash command goes: the id of the command follows.
pub const INTERACTIONS_URL: &'static str = "https://discord.com/api/v8/interactions/";

/// Ends the address of the answer to a slash command.
pub const CALLBACK: &'static str = "/callback";

/// Where commands are registered: the id of the application follows.
pub const APPLICATIONS_URL: &'static str = "https://discord.com/api/v8/applications/";

/// Stands before the id of a server in the address for that server's commands.
pub const GUILDS: &'static str = "/guilds/";

/// Ends the address for the registration of commands.
pub const COMMANDS: &'static str = "/commands";

/// The name of the header that says who asks.
pub const AUTHORIZATION: &'static str = "authorization";

/// Stands before the bot's token in the `authorization` header.
pub const BOT: &'static str = "Bot ";

/// The name of the header that gives the number of bytes of the body.
pub const CONTENT_LENGTH: &'static str = "content-length";

/// The name of the header that says what the body is.
pub const CONTENT_TYPE: &'static str = "content-type";

/// The value of `content-type` for a JSON body.
pub const JSON: &'static str = "application/json";

/// One header of a request.
#[derive(Clone, Debug, PartialEq, Eq)]
pub struct Header {
    pub name: String,
    pub value: String,
}

/// The mathematical view of `Header`.
pub struct HeaderView {
    pub name: Seq<char>,
    pub value: Seq<char>,
}

impl View for Header {
    type V = HeaderView;

    open spec fn view(&self) -> HeaderView {
        HeaderView { name: self.name@, value: self.value@ }
    }
}

/// A request to be sent with the method POST.
#[derive(Clone, Debug, PartialEq, Eq)]
pub struct HttpRequest {
    pub url: String,
    pub headers: Vec<Header>,
    pub body: String,
}

/// The mathematical view of `HttpRequest`.
pub struct RequestView {
    pub url: Seq<char>,
    pub headers: Seq<HeaderView>,
    pub body: Seq<char>,
}

impl View for HttpRequest {
    type V = RequestView;

    open spec fn view(&self) -> RequestView {
        RequestView {
            url: self.url@,
            headers: Seq::new(self.headers@.len(), |i: int| self.headers@[i]@),
            body: self.body@,
        }
    }
}

#[verifier::external_type_specification]
#[verifier::external_body]
pub struct ExJsonError(serde_json::Error);

/// The character of the hexadecimal digit `d`, a lower-case letter from ten on.
pub open spec fn hex_digit(d: int) -> char
    recommends
        0 <= d < 16,
{
    if d < 10 {
        ('0' as int + d) as char
    } else {
        ('a' as int + d - 10) as char
    }
}

/// One character inside a JSON string. The double quote and the backslash
/// get a backslash before them. Backspace, tab, line feed, form feed and
/// carriage return are a backslash and their letter. Any other character
/// below U+0020 is `\u00` and its two hexadecimal digits. Every other
/// character stands for itself.
pub open spec fn json_escape(c: char) -> Seq<char> {
    if c == '"' {
        seq!['\\', '"']
    } else if c == '\\' {
        seq!['\\', '\\']
    } else if c == '\u{8}' {
        seq!['\\', 'b']
    } else if c == '\t' {
        seq!['\\', 't']
    } else if c == '\n' {
        seq!['\\', 'n']
    } else if c == '\u{c}' {
        seq!['\\', 'f']
    } else if c == '\r' {
        seq!['\\', 'r']
    } else if (c as int) < 0x20 {
        seq!['\\', 'u', '0', '0', hex_digit((c as int) / 16), hex_digit((c as int) % 16)]
    } else {
        seq![c]
    }
}

/// A text as a JSON string: its characters, each as `json_escape` has it,
/// between double quotes.
pub open spec fn json_string(text: Seq<char>) -> Seq<char> {
    seq!['"'] + text.map_values(|c: char| json_escape(c)).flatten() + seq!['"']
}

/// `serde_json::to_string`, given a `str`: the string as JSON text, which
/// is the string between double quotes, with the escapes of the crate's
/// table for the characters below U+0080 and every other character
/// unchanged. It writes into memory and a `str` has nothing that cannot be
/// written, so it never fails.
#[verifier::external_body]
fn to_json_string(text: &str) -> (r: Result<String, serde_json::Error>)
    ensures
        match r {
            Ok(json) => json@ == json_string(text@),
            Err(_) => false,
        },
{
    serde_json::to_string(text)
}

/// The kind of an answer to a slash command, as the chat platform numbers
/// them: whether the user's command stays visible, and whether the answer
/// brings a message.
pub open spec fn response_kind(show_user_command: bool, has_message: bool) -> u8 {
    match (show_user_command, has_message) {
        (false, true) => 3,
        (false, false) => 2,
        (true, true) => 4,
        (true, false) => 5,
    }
}

/// The body of an answer to a slash command: a JSON object with the kind of
/// the answer under `type`, and under `data` either `null` or an object
/// that holds the message under `content`. `content` is the message as a
/// JSON string, quotes and escapes included.
pub open spec fn response_frame(show_user_command: bool, content: Option<Seq<char>>) -> Seq<char> {
    "{\"type\":"@ + decimal(response_kind(show_user_command, content is Some) as nat)
        + ",\"data\":"@ + (match content {
        Some(json) => "{\"content\":"@ + json + "}"@,
        None => "null"@,
    }) + "}"@
}

/// The body of an answer to a slash command that brings `message`.
pub open spec fn response_json(show_user_command: bool, message: Option<Seq<char>>) -> Seq<char> {
    response_frame(
        show_user_command,
        match message {
            Some(text) => Some(json_string(text)),
            None => None,
        },
    )
}

/// The address to which the answer to the slash command `id` goes.
pub open spec fn callback_url(id: u64, token: Seq<char>) -> Seq<char> {
    INTERACTIONS_URL@ + decimal(id as nat) + seq!['/'] + token + CALLBACK@
}

/// The request that answers a slash command.
pub open spec fn response_request(
    id: u64,
    token: Seq<char>,
    show_user_command: bool,
    message: Option<Seq<char>>,
) -> RequestView {
    RequestView {
        url: callback_url(id, token),
        headers: seq![HeaderView { name: CONTENT_TYPE@, value: JSON@ }],
        body: response_json(show_user_command, message),
    }
}

/// The address at which commands are registered: for one server where one
/// is given, else for all.
pub open spec fn commands_url(app_id: Seq<char>, server_id: Option<Seq<char>>) -> Seq<char> {
    match server_id {
        None => APPLICATIONS_URL@ + app_id + COMMANDS@,
        Some(server) => APPLICATIONS_URL@ + app_id + GUILDS@ + server + COMMANDS@,
    }
}

/// The request that registers the commands described in `post_data`.
pub open spec fn commands_request(
    token: Seq<char>,
    app_id: Seq<char>,
    server_id: Option<Seq<char>>,
    post_data: Seq<char>,
) -> RequestView {
    RequestView {
        url: commands_url(app_id, server_id),
        headers: seq![
            HeaderView { name: AUTHORIZATION@, value: BOT@ + token },
            HeaderView { name: CONTENT_LENGTH@, value: decimal(encode_utf8(post_data).len()) },
            HeaderView { name: CONTENT_TYPE@, value: JSON@ },
        ],
        body: post_data,
    }
}

/// The view of an optional string.
pub open spec fn option_text(s: Option<&str>) -> Option<Seq<char>> {
    match s {
        Some(text) => Some(text@),
        None => None,
    }
}

/// The view of an optional owned string.
pub open spec fn option_string(s: Option<String>) -> Option<Seq<char>> {
    match s {
        Some(text) => Some(text@),
        None => None,
    }
}

/// The body of an answer to a slash command, given the message that it
/// brings as a JSON string.
pub fn frame_response(show_user_command: bool, content: Option<&str>) -> (body: String)
    ensures
        body@ == response_frame(show_user_command, option_text(content)),
{
    let type_id: u8 = match (show_user_command, content) {
        (false, Some(_)) => 3,
        (false, None) => 2,
        (true, Some(_)) => 4,
        (true, None) => 5,
    };
    let mut body = String::from_str("{\"type\":");
    body.append(decimal_string(type_id as u64).as_str());
    body.append(",\"data\":");
    match content {
        Some(json) => {
            body.append("{\"content\":");
            body.append(json);
            body.append("}");
        },
        None => {
            body.append("null");
        },
    }
    body.append("}");
    assert(body@ =~= response_frame(show_user_command, option_text(content)));
    body
}

/// The body of an answer to a slash command, as JSON text.
pub fn generate_response(show_user_command: bool, message: Option<&str>) -> (body: String)
    ensures
        body@ == response_json(show_user_command, option_text(message)),
{
    match message {
        Some(text) => {
            let json = to_json_string(text).unwrap();
            frame_response(show_user_command, Some(json.as_str()))
        },
        None => frame_response(show_user_command, None),
    }
}

/// The view of an optional request.
pub open spec fn option_request(request: Option<HttpRequest>) -> Option<RequestView> {
    match request {
        Some(r) => Some(r@),
        None => None,
    }
}

/// How the bot acknowledges a slash command before it acts on it: with an
/// answer that brings no message and hides the command. A command that the
/// bot does not recognize gets no answer.
pub open spec fn acknowledgement(command: CommandView) -> Option<RequestView> {
    match command.kind() {
        CommandKind::StartPoll => Some(response_request(command.id, command.token, false, None)),
        CommandKind::Unrecognized => None,
    }
}

/// The request that acknowledges `command`, for the program to send before
/// it tells the bot of the command; `None` for a command to ignore.
pub fn acknowledge(command: &SlashCommand) -> (request: Option<HttpRequest>)
    ensures
        option_request(request) == acknowledgement(command@),
{
    match command.kind() {
        CommandKind::StartPoll => Some(send_response(command, false, None)),
        CommandKind::Unrecognized => None,
    }
}

/// The request that answers `command`, for the program to send.
pub fn send_response(command: &SlashCommand, show_user_command: bool, message: Option<&str>) -> (request:
    HttpRequest)
    ensures
        request@ == response_request(
            command.id,
            command.token@,
            show_user_command,
            option_text(message),
        ),
{
    let mut url = String::from_str(INTERACTIONS_URL);
    url.append(decimal_string(command.id).as_str());
    url.append("/");
    url.append(command.token.as_str());
    url.append(CALLBACK);
    proof {
        reveal_strlit("/");
        assert("/"@ =~= seq!['/']);
        assert(url@ =~= callback_url(command.id, command.token@));
    }
    let mut headers: Vec<Header> = Vec::new();
    headers.push(Header { name: String::from_str(CONTENT_TYPE), value: String::from_str(JSON) });
    let request = HttpRequest {
        url,
        headers,
        body: generate_response(show_user_command, message),
    };
    assert(request@.headers =~= seq![HeaderView { name: CONTENT_TYPE@, value: JSON@ }]);
    request
}

/// The request that registers the bot's commands, for the program to send:
/// for the server `server_id` where one is given, else for all servers.
/// `post_data` describes the commands; it becomes the body as it is.
pub fn configure_commands(
    token: &str,
    app_id: &str,
    server_id: &Option<String>,
    post_data: String,
) -> (request: HttpRequest)
    ensures
        request@ == commands_request(token@, app_id@, option_string(*server_id), post_data@),
{
    let mut url = String::from_str(APPLICATIONS_URL);
    url.append(app_id);
    match server_id {
        None => {},
        Some(server) => {
            url.append(GUILDS);
            url.append(server.as_str());
        },
    }
    url.append(COMMANDS);
    assert(url@ =~= commands_url(app_id@, option_string(*server_id)));
    let mut authorization = String::from_str(BOT);
    authorization.append(token);
    let length = decimal_string(post_data.as_str().as_bytes().len() as u64);
    let mut headers: Vec<Header> = Vec::new();
    headers.push(Header { name: String::from_str(AUTHORIZATION), value: authorization });
    headers.push(Header { name: String::from_str(CONTENT_LENGTH), value: length });
    headers.push(Header { name: String::from_str(CONTENT_TYPE), value: String::from_str(JSON) });
    let request = HttpRequest { url, headers, body: post_data };
    assert(request@.headers =~= commands_request(
        token@,
        app_id@,
        option_string(*server_id),
        post_data@,
    ).headers);
    request
}

} // verus!
