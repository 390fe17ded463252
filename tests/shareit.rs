use shareit::action::{Action, ActionOptions, ConfigAction, CreateAction, DataSource};
use shareit::api::{
    api_error_message, build_request, get_headers, handle_response, wants_stdin_prompt,
    Delivery, Header,
};
use shareit::args::{Duration, ShareIt};
use shareit::config::{Config, ConfigData, ConfigEffect};
use shareit::text::decimal_text;

fn empty_args() -> ShareIt {
    ShareIt {
        link: None,
        paste: None,
        file: None,
        config: None,
        name: None,
        expire_after: None,
        mime_type: None,
        syntax: None,
        from_clipboard: false,
        to_clipboard: false,
    }
}

fn options(source: DataSource) -> ActionOptions {
    ActionOptions { source, name: None, expire_after: None, to_clipboard: false }
}

fn pairs(headers: &[Header]) -> Vec<(String, String)> {
    headers.iter().map(|h| (h.name.clone(), h.value.clone())).collect()
}

fn header<'a>(headers: &'a [Header], name: &str) -> Option<&'a str> {
    headers.iter().find(|h| h.name == name).map(|h| h.value.as_str())
}

fn empty_config() -> Config {
    Config { data: ConfigData { base_url: None, password: None }, path: String::from("config.json") }
}

fn strings(parts: &[&str]) -> Vec<String> {
    parts.iter().map(|s| s.to_string()).collect()
}

#[test]
fn file_argument_wins_over_paste_and_link() {
    let mut args = empty_args();
    args.file = Some(Some("a.txt".to_string()));
    args.paste = Some(Some("b.txt".to_string()));
    args.link = Some(Some("https://c".to_string()));
    args.from_clipboard = true;
    assert!(matches!(DataSource::from_args(&args), DataSource::File(p) if p == "a.txt"));
}

#[test]
fn paste_argument_wins_over_link() {
    let mut args = empty_args();
    args.paste = Some(Some("b.txt".to_string()));
    args.link = Some(Some("https://c".to_string()));
    assert!(matches!(DataSource::from_args(&args), DataSource::File(p) if p == "b.txt"));
}

#[test]
fn link_argument_is_a_literal_string() {
    let mut args = empty_args();
    args.link = Some(Some("https://c".to_string()));
    args.from_clipboard = true;
    assert!(matches!(DataSource::from_args(&args), DataSource::String(s) if s == "https://c"));
}

#[test]
fn argument_of_inactive_kind_still_counts() {
    let mut args = empty_args();
    args.link = Some(None);
    args.file = Some(Some("f.bin".to_string()));
    let action = CreateAction::from_args(args);
    assert!(matches!(&action, CreateAction::Link { .. }));
    assert!(matches!(&action.get_options().source, DataSource::File(p) if p == "f.bin"));
}

#[test]
fn clipboard_then_stdin_by_default() {
    let mut args = empty_args();
    args.paste = Some(None);
    args.from_clipboard = true;
    assert!(matches!(DataSource::from_args(&args), DataSource::Clipboard));
    args.from_clipboard = false;
    assert!(matches!(DataSource::from_args(&args), DataSource::Stdin));
}

#[test]
fn options_are_copied_verbatim() {
    let mut args = empty_args();
    args.file = Some(None);
    args.name = Some("n".to_string());
    args.expire_after = Some(Duration::new(90, 500));
    args.to_clipboard = true;
    let o = ActionOptions::from_args(&args);
    assert_eq!(o.name.as_deref(), Some("n"));
    assert_eq!(o.expire_after.unwrap().as_secs(), 90);
    assert!(o.to_clipboard);
}

#[test]
fn create_kinds_carry_their_metadata() {
    let mut args = empty_args();
    args.paste = Some(None);
    args.syntax = Some("rust".to_string());
    match CreateAction::from_args(args) {
        CreateAction::Paste { highlighting, .. } => assert_eq!(highlighting.as_deref(), Some("rust")),
        _ => panic!("expected a paste"),
    }
    let mut args = empty_args();
    args.file = Some(None);
    args.mime_type = Some("image/png".to_string());
    match CreateAction::from_args(args) {
        CreateAction::File { mime_type, .. } => assert_eq!(mime_type.as_deref(), Some("image/png")),
        _ => panic!("expected a file"),
    }
}

#[test]
fn config_directive_with_no_values_lists() {
    let mut args = empty_args();
    args.config = Some(vec![]);
    assert!(matches!(ConfigAction::from_args(args), ConfigAction::List));
}

#[test]
fn config_directive_with_one_value_gets() {
    let mut args = empty_args();
    args.config = Some(strings(&["password"]));
    assert!(matches!(ConfigAction::from_args(args), ConfigAction::Get(k) if k == "password"));
}

#[test]
fn config_directive_with_more_values_sets_joined() {
    let mut args = empty_args();
    args.config = Some(strings(&["base_url", "https://x", "y"]));
    match ConfigAction::from_args(args) {
        ConfigAction::Assign(k, v) => {
            assert_eq!(k, "base_url");
            assert_eq!(v, "https://x y");
        }
        _ => panic!("expected an assignment"),
    }
}

#[test]
fn config_directive_wins_over_create_flags() {
    let mut args = empty_args();
    args.config = Some(strings(&["base_url", "u"]));
    args.link = Some(Some("l".to_string()));
    assert!(matches!(Action::from_args(args), Action::Config(ConfigAction::Assign(_, _))));
    let mut args = empty_args();
    args.link = Some(None);
    assert!(matches!(Action::from_args(args), Action::Create(CreateAction::Link { .. })));
}

#[test]
fn link_headers_have_share_type_only() {
    let action = CreateAction::Link { options: options(DataSource::Stdin) };
    let config = ConfigData { base_url: None, password: None };
    let h = get_headers(&action, action.get_options(), &config);
    assert_eq!(pairs(&h), vec![("Share-Type".to_string(), "link".to_string())]);
}

#[test]
fn paste_headers_carry_highlighting() {
    let action = CreateAction::Paste {
        options: options(DataSource::Stdin),
        highlighting: Some("python".to_string()),
    };
    let config = ConfigData { base_url: None, password: None };
    let h = get_headers(&action, action.get_options(), &config);
    assert_eq!(header(&h, "Share-Type"), Some("paste"));
    assert_eq!(header(&h, "Share-Highlighting"), Some("python"));
    assert_eq!(header(&h, "Content-Type"), None);
}

#[test]
fn empty_highlighting_is_left_out() {
    let action = CreateAction::Paste {
        options: options(DataSource::Stdin),
        highlighting: Some(String::new()),
    };
    let config = ConfigData { base_url: None, password: None };
    let h = get_headers(&action, action.get_options(), &config);
    assert_eq!(pairs(&h), vec![("Share-Type".to_string(), "paste".to_string())]);
}

#[test]
fn file_headers_carry_content_type() {
    let action = CreateAction::File {
        options: options(DataSource::Stdin),
        mime_type: Some("text/plain".to_string()),
    };
    let config = ConfigData { base_url: None, password: None };
    let h = get_headers(&action, action.get_options(), &config);
    assert_eq!(header(&h, "Share-Type"), Some("file"));
    assert_eq!(header(&h, "Content-Type"), Some("text/plain"));
    assert_eq!(header(&h, "Share-Highlighting"), None);
    assert_eq!(h.iter().filter(|x| x.name == "Share-Type").count(), 1);
}

#[test]
fn expiry_is_whole_seconds() {
    let mut o = options(DataSource::Stdin);
    o.expire_after = Some(Duration::new(90, 999_999_999));
    let action = CreateAction::Link { options: o };
    let config = ConfigData { base_url: None, password: None };
    let h = get_headers(&action, action.get_options(), &config);
    assert_eq!(header(&h, "Expire-After"), Some("90"));
}

#[test]
fn password_becomes_authorization() {
    let action = CreateAction::Link { options: options(DataSource::Stdin) };
    let config = ConfigData { base_url: None, password: Some("hunter2".to_string()) };
    let h = get_headers(&action, action.get_options(), &config);
    assert_eq!(header(&h, "Authorization"), Some("Password hunter2"));
}

#[test]
fn link_request_end_to_end() {
    let action = CreateAction::Link {
        options: options(DataSource::String("https://long.example/path".to_string())),
    };
    let config = ConfigData { base_url: Some("https://s.example".to_string()), password: None };
    let req = build_request(&action, &config).unwrap();
    assert_eq!(req.url, "https://s.example/");
    assert_eq!(header(&req.headers, "Share-Type"), Some("link"));
    assert_eq!(header(&req.headers, "Authorization"), None);
    assert!(matches!(req.source, DataSource::String(s) if s == "https://long.example/path"));
}

#[test]
fn named_request_endpoint() {
    let mut o = options(DataSource::Stdin);
    o.name = Some("mine".to_string());
    let action = CreateAction::Paste { options: o, highlighting: None };
    let config = ConfigData { base_url: Some("http://h".to_string()), password: None };
    assert_eq!(build_request(&action, &config).unwrap().url, "http://h/mine");
}

#[test]
fn missing_base_url_is_a_configuration_error() {
    let action = CreateAction::Link { options: options(DataSource::Stdin) };
    let config = ConfigData { base_url: None, password: Some("p".to_string()) };
    assert_eq!(
        build_request(&action, &config).unwrap_err(),
        "No API URL configured. Try running 'shareit --config base_url <url>'."
    );
}

#[test]
fn stdin_prompt_only_on_two_terminals() {
    assert!(wants_stdin_prompt(&DataSource::Stdin, true, true));
    assert!(!wants_stdin_prompt(&DataSource::Stdin, true, false));
    assert!(!wants_stdin_prompt(&DataSource::Stdin, false, true));
    assert!(!wants_stdin_prompt(&DataSource::Clipboard, true, true));
}

#[test]
fn unauthorized_carries_password_hint() {
    assert_eq!(
        api_error_message("bad password".to_string(), 401),
        "Server returned an error (401 Unauthorized):\n\n  bad password\n\nHint: Your password may be incorrect - set it with 'shareit --config password <password>'."
    );
}

#[test]
fn teapot_has_no_hint() {
    assert_eq!(
        api_error_message("short and stout".to_string(), 418),
        "Server returned an error (418 I'm a teapot):\n\n  short and stout"
    );
}

#[test]
fn other_hints() {
    assert!(api_error_message("m".to_string(), 403)
        .ends_with("Hint: You can set your password with 'shareit --config password <password>'."));
    assert!(api_error_message("m".to_string(), 409)
        .ends_with("Hint: If you omit the '--name' flag, the server will generate a random one."));
    assert!(api_error_message("m".to_string(), 500).starts_with(
        "Server returned an error (500 Internal Server Error):\n\n  m\n\nHint: This is probably not your fault"
    ));
}

#[test]
fn unregistered_status_code() {
    assert_eq!(
        api_error_message("x".to_string(), 599),
        "Server returned an error (599 <unknown status code>):\n\n  x"
    );
}

#[test]
fn success_prints_or_copies() {
    let mut o = options(DataSource::Stdin);
    let r = handle_response(201, Some("https://s/abc".to_string()), &o);
    assert!(matches!(r, Ok(Delivery::Print(u)) if u == "https://s/abc"));
    o.to_clipboard = true;
    let r = handle_response(200, Some("https://s/abc".to_string()), &o);
    assert!(matches!(r, Ok(Delivery::CopyToClipboard(u)) if u == "https://s/abc"));
}

#[test]
fn undecodable_bodies() {
    let o = options(DataSource::Stdin);
    assert_eq!(
        handle_response(200, None, &o).unwrap_err(),
        "API success but could not decode response."
    );
    assert_eq!(
        handle_response(404, None, &o).unwrap_err(),
        "API error and could not decode response."
    );
}

#[test]
fn failure_status_reports_message() {
    let o = options(DataSource::Stdin);
    assert_eq!(
        handle_response(409, Some("taken".to_string()), &o).unwrap_err(),
        "Server returned an error (409 Conflict):\n\n  taken\n\nHint: If you omit the '--name' flag, the server will generate a random one."
    );
}

#[test]
fn get_unknown_key_fails_without_change() {
    let mut c = empty_config();
    c.data.base_url = Some("u".to_string());
    let r = c.do_action(ConfigAction::Get("nonexistent".to_string()));
    assert_eq!(r.unwrap_err(), "No such config option: nonexistent");
    let r = c.do_action(ConfigAction::Assign("nonexistent".to_string(), "v".to_string()));
    assert_eq!(r.unwrap_err(), "No such config option: nonexistent");
    assert_eq!(c.data.base_url.as_deref(), Some("u"));
    assert_eq!(c.data.password, None);
}

#[test]
fn set_then_get_and_list() {
    let mut c = empty_config();
    let r = c.do_action(ConfigAction::Assign(
        "base_url".to_string(),
        "https://example.com".to_string(),
    ));
    assert!(matches!(r, Ok(ConfigEffect::Save)));
    assert_eq!(c.data.base_url.as_deref(), Some("https://example.com"));
    match c.do_action(ConfigAction::Get("base_url".to_string())) {
        Ok(ConfigEffect::Print(t)) => assert_eq!(t, "\"https://example.com\"\n"),
        _ => panic!("expected text"),
    }
    match c.do_action(ConfigAction::List) {
        Ok(ConfigEffect::Print(t)) => {
            assert_eq!(t, "base_url: \"https://example.com\"\npassword: null\n")
        }
        _ => panic!("expected text"),
    }
}

#[test]
fn get_absent_value_is_null() {
    let mut c = empty_config();
    match c.do_action(ConfigAction::Get("password".to_string())) {
        Ok(ConfigEffect::Print(t)) => assert_eq!(t, "null\n"),
        _ => panic!("expected text"),
    }
}

#[test]
fn json_escapes_values() {
    let mut c = empty_config();
    c.data.password = Some("a\"b".to_string());
    match c.do_action(ConfigAction::Get("password".to_string())) {
        Ok(ConfigEffect::Print(t)) => assert_eq!(t, "\"a\\\"b\"\n"),
        _ => panic!("expected text"),
    }
}

#[test]
fn decimal_rendering() {
    assert_eq!(decimal_text(0), "0");
    assert_eq!(decimal_text(90), "90");
    assert_eq!(decimal_text(u64::MAX), "18446744073709551615");
}
