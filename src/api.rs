//! The share request: its headers and endpoint, and what the server's
//! reply means.
use vstd::prelude::*;
use crate::action::{ActionOptions, CreateAction, DataSource};
use crate::config::ConfigData;
use crate::text::{decimal, decimal_text};

verus! {

/// One request header.
#[derive(Debug)]
pub struct Header {
    pub name: String,
    pub value: String,
}

/// Headers as pairs of name and value.
pub open spec fn header_pairs(hs: Seq<Header>) -> Seq<(Seq<char>, Seq<char>)> {
    hs.map_values(|h: Header| (h.name@, h.value@))
}

/// The `Share-Type` value of each kind of share.
pub open spec fn share_type(action: CreateAction) -> Seq<char> {
    match action {
        CreateAction::Link { .. } => "link"@,
        CreateAction::Paste { .. } => "paste"@,
        CreateAction::File { .. } => "file"@,
    }
}

/// An optional header, present only when its value is given and not empty.
pub open spec fn optional_header(name: Seq<char>, value: Option<String>) -> Seq<
    (Seq<char>, Seq<char>),
> {
    if value is Some && value.unwrap()@.len() > 0 {
        seq![(name, value.unwrap()@)]
    } else {
        Seq::empty()
    }
}

/// The headers that the kind of share decides: its type, and the
/// highlighting of a paste or the MIME type of a file.
pub open spec fn kind_headers(action: CreateAction) -> Seq<(Seq<char>, Seq<char>)> {
    seq![("Share-Type"@, share_type(action))] + match action {
        CreateAction::Link { .. } => Seq::empty(),
        CreateAction::Paste { highlighting, .. } => optional_header(
            "Share-Highlighting"@,
            highlighting,
        ),
        CreateAction::File { mime_type, .. } => optional_header("Content-Type"@, mime_type),
    }
}

/// The expiry in whole seconds, when one is set.
pub open spec fn expire_headers(options: ActionOptions) -> Seq<(Seq<char>, Seq<char>)> {
    match options.expire_after {
        Some(d) => seq![("Expire-After"@, decimal(d.secs as nat))],
        None => Seq::empty(),
    }
}

/// The password scheme, when a password is configured.
pub open spec fn auth_headers(config: ConfigData) -> Seq<(Seq<char>, Seq<char>)> {
    match config.password {
        Some(p) => seq![("Authorization"@, "Password "@ + p@)],
        None => Seq::empty(),
    }
}

pub open spec fn headers_for(action: CreateAction, options: ActionOptions, config: ConfigData) -> Seq<
    (Seq<char>, Seq<char>),
> {
    kind_headers(action) + expire_headers(options) + auth_headers(config)
}

fn push_header(headers: &mut Vec<Header>, name: &str, value: String)
    ensures
        header_pairs(final(headers)@) == header_pairs(old(headers)@).push((name@, value@)),
{
    headers.push(Header { name: String::from_str(name), value });
    assert(header_pairs(final(headers)@) =~= header_pairs(old(headers)@).push((name@, value@)));
}

fn push_optional_header(headers: &mut Vec<Header>, name: &str, value: &Option<String>)
    ensures
        header_pairs(final(headers)@) == header_pairs(old(headers)@) + optional_header(
            name@,
            *value,
        ),
{
    if let Some(v) = value {
        if v.as_str().unicode_len() > 0 {
            push_header(headers, name, v.clone());
            return;
        }
    }
    assert(header_pairs(old(headers)@) + optional_header(name@, *value) =~= header_pairs(
        old(headers)@,
    ));
}

/// The request headers of a share: `Share-Type` always, the highlighting of a
/// paste, the MIME type of a file, the expiry in whole seconds and the
/// password when these are set.
pub fn get_headers(action: &CreateAction, options: &ActionOptions, config: &ConfigData) -> (r: Vec<
    Header,
>)
    ensures
        header_pairs(r@) == headers_for(*action, *options, *config),
{
    let mut headers: Vec<Header> = Vec::new();
    match action {
        CreateAction::Link { .. } => {
            push_header(&mut headers, "Share-Type", String::from_str("link"));
        },
        CreateAction::Paste { highlighting, .. } => {
            push_header(&mut headers, "Share-Type", String::from_str("paste"));
            push_optional_header(&mut headers, "Share-Highlighting", highlighting);
        },
        CreateAction::File { mime_type, .. } => {
            push_header(&mut headers, "Share-Type", String::from_str("file"));
            push_optional_header(&mut headers, "Content-Type", mime_type);
        },
    }
    assert(header_pairs(headers@) =~= kind_headers(*action));
    if let Some(expire_after) = options.expire_after {
        push_header(&mut headers, "Expire-After", decimal_text(expire_after.as_secs()));
    }
    assert(header_pairs(headers@) =~= kind_headers(*action) + expire_headers(*options));
    if let Some(password) = &config.password {
        let mut value = String::from_str("Password ");
        value.append(password.as_str());
        push_header(&mut headers, "Authorization", value);
    }
    assert(header_pairs(headers@) =~= headers_for(*action, *options, *config));
    headers
}

/// Across every kind, options and configuration: `Share-Type` comes first,
/// carries the kind's name and occurs once; a link or a file never carries
/// `Share-Highlighting`; a link or a paste never carries `Content-Type`; an
/// `Expire-After` header is present exactly when an expiry is set, and holds
/// its whole seconds in decimal.
pub proof fn lemma_header_kinds(action: CreateAction, options: ActionOptions, config: ConfigData)
    ensures
        ({
            let hs = headers_for(action, options, config);
            &&& hs.len() > 0
            &&& hs[0] == ("Share-Type"@, share_type(action))
            &&& forall|i: int| 0 < i < hs.len() ==> hs[i].0 != "Share-Type"@
            &&& !(action is Paste) ==> forall|i: int|
                0 <= i < hs.len() ==> hs[i].0 != "Share-Highlighting"@
            &&& !(action is File) ==> forall|i: int|
                0 <= i < hs.len() ==> hs[i].0 != "Content-Type"@
            &&& forall|i: int|
                0 <= i < hs.len() && hs[i].0 == "Expire-After"@ ==> options.expire_after is Some
                    && hs[i].1 == decimal(options.expire_after.unwrap().secs as nat)
            &&& options.expire_after is Some ==> exists|i: int|
                0 <= i < hs.len() && hs[i] == ("Expire-After"@, decimal(
                    options.expire_after.unwrap().secs as nat,
                ))
        }),
{
    reveal_strlit("Share-Type");
    reveal_strlit("Share-Highlighting");
    reveal_strlit("Content-Type");
    reveal_strlit("Expire-After");
    reveal_strlit("Authorization");
    assert("Content-Type"@[0] != "Expire-After"@[0]);
    let k = kind_headers(action);
    let e = expire_headers(options);
    let a = auth_headers(config);
    let hs = headers_for(action, options, config);
    assert(forall|i: int| 0 <= i < k.len() ==> hs[i] == k[i]);
    assert(forall|i: int| 0 <= i < e.len() ==> hs[k.len() + i] == e[i]);
    assert(forall|i: int| 0 <= i < a.len() ==> hs[k.len() + e.len() + i] == a[i]);
    assert("Share-Type"@.len() == 10);
    assert("Share-Highlighting"@.len() == 18);
    assert("Content-Type"@.len() == 12);
    assert("Expire-After"@.len() == 12);
    assert("Authorization"@.len() == 13);
    assert(forall|i: int| 0 <= i < hs.len() ==> hs[i].0 == "Share-Type"@ || hs[i].0 == "Share-Highlighting"@ || hs[i].0 == "Content-Type"@ || hs[i].0 == "Expire-After"@ || hs[i].0 == "Authorization"@);
    assert(forall|i: int| 0 < i < hs.len() ==> hs[i].0 != "Share-Type"@);
    assert(!(action is Paste) ==> forall|i: int|
                0 <= i < hs.len() ==> hs[i].0 != "Share-Highlighting"@);
    assert(!(action is File) ==> forall|i: int|
                0 <= i < hs.len() ==> hs[i].0 != "Content-Type"@);
    assert(forall|i: int|
                0 <= i < hs.len() && hs[i].0 == "Expire-After"@ ==> options.expire_after is Some
                    && hs[i].1 == decimal(options.expire_after.unwrap().secs as nat));
    if options.expire_after is Some {
        assert(hs[k.len() as int] == e[0]);
    }
}

/// A share request ready to send: `POST` to `url` with `headers`, the body
/// taken from `source`.
#[derive(Debug)]
pub struct Request {
    pub url: String,
    pub headers: Vec<Header>,
    pub source: DataSource,
}

/// `{base_url}/{name}`, with an empty name when none is chosen.
pub open spec fn endpoint(base_url: Seq<char>, name: Option<String>) -> Seq<char> {
    base_url + "/"@ + match name {
        Some(n) => n@,
        None => Seq::empty(),
    }
}

pub open spec fn missing_base_url_message() -> Seq<char> {
    "No API URL configured. Try running 'shareit --config base_url <url>'."@
}

fn copy_source(source: &DataSource) -> (r: DataSource)
    ensures
        r == *source,
{
    match source {
        DataSource::String(s) => DataSource::String(s.clone()),
        DataSource::File(p) => DataSource::File(p.clone()),
        DataSource::Clipboard => DataSource::Clipboard,
        DataSource::Stdin => DataSource::Stdin,
    }
}

/// The request for a share, or the configuration error when no base URL is
/// configured.
pub fn build_request(action: &CreateAction, config: &ConfigData) -> (r: Result<Request, String>)
    ensures
        config.base_url is None ==> (r matches Err(e) && e@ == missing_base_url_message()),
        config.base_url is Some ==> (r matches Ok(req) && req.url@ == endpoint(
            config.base_url.unwrap()@,
            action.options().name,
        ) && header_pairs(req.headers@) == headers_for(*action, action.options(), *config)
            && req.source == action.options().source),
{
    let options = action.get_options();
    match &config.base_url {
        None => Err(
            String::from_str("No API URL configured. Try running 'shareit --config base_url <url>'."),
        ),
        Some(base_url) => {
            let mut url = base_url.clone();
            url.append("/");
            if let Some(name) = &options.name {
                url.append(name.as_str());
            }
            let headers = get_headers(action, options, config);
            Ok(Request { url, headers, source: copy_source(&options.source) })
        },
    }
}

/// Reading a share from standard input announces itself only when both
/// standard input and standard output are terminals.
pub fn wants_stdin_prompt(source: &DataSource, stdin_is_terminal: bool, stdout_is_terminal: bool) -> (r: bool)
    ensures
        r == (*source is Stdin && stdin_is_terminal && stdout_is_terminal),
{
    match source {
        DataSource::Stdin => stdin_is_terminal && stdout_is_terminal,
        _ => false,
    }
}

/// The reason phrase that the HTTP registry gives a status code, if any.
pub uninterp spec fn reason_phrase(code: u16) -> Option<Seq<char>>;

/// Relies on `reqwest::StatusCode::from_u16`, which accepts the codes from 100
/// to 999, and `StatusCode::canonical_reason`, which gives the registered
/// phrase of the code, or none.
#[verifier::external_body]
fn canonical_reason(code: u16) -> (r: Option<String>)
    requires
        100 <= code < 1000,
    ensures
        r is Some <==> reason_phrase(code) is Some,
        r is Some ==> r.unwrap()@ == reason_phrase(code).unwrap(),
{
    match reqwest::StatusCode::from_u16(code) {
        Ok(status) => status.canonical_reason().map(String::from),
        Err(_) => None,
    }
}

/// A status as the HTTP library shows it: the code, a space and the reason
/// phrase.
pub open spec fn status_text(code: u16) -> Seq<char> {
    decimal(code as nat) + " "@ + match reason_phrase(code) {
        Some(p) => p,
        None => "<unknown status code>"@,
    }
}

pub open spec fn unauthorized_hint() -> Seq<char> {
    "Your password may be incorrect - set it with 'shareit --config password <password>'."@
}

pub open spec fn forbidden_hint() -> Seq<char> {
    "You can set your password with 'shareit --config password <password>'."@
}

pub open spec fn conflict_hint() -> Seq<char> {
    "If you omit the '--name' flag, the server will generate a random one."@
}

pub open spec fn server_error_hint() -> Seq<char> {
    "This is probably not your fault, or an issue with the CLI. Try contacting the server administrators."@
}

/// The guidance given for a failed status, looked up by exact code.
pub open spec fn hint_for(code: u16) -> Option<Seq<char>> {
    if code == 401 {
        Some(unauthorized_hint())
    } else if code == 403 {
        Some(forbidden_hint())
    } else if code == 409 {
        Some(conflict_hint())
    } else if code == 500 {
        Some(server_error_hint())
    } else {
        None
    }
}

/// The report of a failed status, before any hint.
pub open spec fn error_head(message: Seq<char>, code: u16) -> Seq<char> {
    "Server returned an error ("@ + status_text(code) + "):\n\n  "@ + message
}

/// The report of a failed status: the status, the server's message and the
/// hint for the status, if there is one.
pub open spec fn error_text(message: Seq<char>, code: u16) -> Seq<char> {
    error_head(message, code) + match hint_for(code) {
        Some(h) => "\n\nHint: "@ + h,
        None => Seq::empty(),
    }
}

fn hint(code: u16) -> (r: Option<&'static str>)
    ensures
        r is Some <==> hint_for(code) is Some,
        r is Some ==> r.unwrap()@ == hint_for(code).unwrap(),
{
    if code == 401 {
        Some("Your password may be incorrect - set it with 'shareit --config password <password>'.")
    } else if code == 403 {
        Some("You can set your password with 'shareit --config password <password>'.")
    } else if code == 409 {
        Some("If you omit the '--name' flag, the server will generate a random one.")
    } else if code == 500 {
        Some(
            "This is probably not your fault, or an issue with the CLI. Try contacting the server administrators.",
        )
    } else {
        None
    }
}

/// The text of a failed status, with the server's message and its hint.
pub fn api_error_message(message: String, status: u16) -> (r: String)
    requires
        100 <= status < 1000,
    ensures
        r@ == error_text(message@, status),
{
    let mut output = String::from_str("Server returned an error (");
    let code = decimal_text(status as u64);
    output.append(code.as_str());
    output.append(" ");
    match canonical_reason(status) {
        Some(reason) => output.append(reason.as_str()),
        None => output.append("<unknown status code>"),
    }
    output.append("):\n\n  ");
    output.append(message.as_str());
    if let Some(h) = hint(status) {
        output.append("\n\nHint: ");
        output.append(h);
    }
    output
}

/// A wrong password is hinted at verbatim on 401; a status with no hint, such
/// as 418, gets the bare report.
pub proof fn lemma_status_hints(message: Seq<char>)
    ensures
        error_text(message, 401) == error_head(message, 401) + "\n\nHint: "@ + unauthorized_hint(),
        error_text(message, 418) == error_head(message, 418),
{
    assert(error_text(message, 418) =~= error_head(message, 418));
}

/// A status in the success range, 200 to 299.
pub open spec fn is_success(code: u16) -> bool {
    200 <= code < 300
}

/// What to do with the URL of a created share.
#[derive(Debug)]
pub enum Delivery {
    Print(String),
    CopyToClipboard(String),
}

pub open spec fn undecodable_success_message() -> Seq<char> {
    "API success but could not decode response."@
}

pub open spec fn undecodable_error_message() -> Seq<char> {
    "API error and could not decode response."@
}

/// Interprets the server's reply: its status and its body as text (`None`
/// when the body could not be decoded). On success the body is the share's
/// URL, to be copied to the clipboard or printed; otherwise it is the
/// server's message, reported with the status and its hint.
pub fn handle_response(status: u16, text: Option<String>, options: &ActionOptions) -> (r: Result<
    Delivery,
    String,
>)
    requires
        100 <= status < 1000,
    ensures
        is_success(status) && text is None ==> (r matches Err(e) && e@
            == undecodable_success_message()),
        is_success(status) && text is Some && options.to_clipboard ==> (r matches Ok(
            Delivery::CopyToClipboard(u),
        ) && u == text.unwrap()),
        is_success(status) && text is Some && !options.to_clipboard ==> (r matches Ok(
            Delivery::Print(u),
        ) && u == text.unwrap()),
        !is_success(status) && text is None ==> (r matches Err(e) && e@
            == undecodable_error_message()),
        !is_success(status) && text is Some ==> (r matches Err(e) && e@ == error_text(
            text.unwrap()@,
            status,
        )),
{
    if 200 <= status && status < 300 {
        match text {
            None => Err(String::from_str("API success but could not decode response.")),
            Some(url) => {
                if options.to_clipboard {
                    Ok(Delivery::CopyToClipboard(url))
                } else {
                    Ok(Delivery::Print(url))
                }
            },
        }
    } else {
        match text {
            None => Err(String::from_str("API error and could not decode response.")),
            Some(message) => Err(api_error_message(message, status)),
        }
    }
}

} // verus!
