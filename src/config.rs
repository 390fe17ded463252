//! The persisted configuration record and the config actions on it.
use vstd::prelude::*;
use crate::action::ConfigAction;

verus! {

/// The persisted settings: the service's base URL and the password.
#[derive(Debug)]
pub struct ConfigData {
    pub base_url: Option<String>,
    pub password: Option<String>,
}

impl Default for ConfigData {
    /// The record before anything is stored: every field absent.
    fn default() -> (r: ConfigData)
        ensures
            r.base_url is None,
            r.password is None,
    {
        ConfigData { base_url: None, password: None }
    }
}

/// The loaded configuration together with where it is stored.
#[derive(Debug)]
pub struct Config {
    pub data: ConfigData,
    pub path: String,
}

/// What a config action leaves to be done outside: text to write to standard
/// output, or the record to be written back to storage.
#[derive(Debug)]
pub enum ConfigEffect {
    Print(String),
    Save,
}

/// The JSON text of a string value, as serde_json renders it.
pub uninterp spec fn json_string_text(s: Seq<char>) -> Seq<char>;

/// Relies on serde_json's `Display` for `Value::String`: the compact JSON
/// text of the string, which depends on its characters alone.
#[verifier::external_body]
fn json_text(s: &String) -> (r: String)
    ensures
        r@ == json_string_text(s@),
{
    serde_json::Value::String(s.clone()).to_string()
}

/// How a stored value is shown: its JSON text, or `null` when absent.
pub open spec fn value_text(v: Option<String>) -> Seq<char> {
    match v {
        Some(s) => json_string_text(s@),
        None => "null"@,
    }
}

/// The value stored under `key`, or `None` when `key` names no field.
pub open spec fn field_value(d: ConfigData, key: Seq<char>) -> Option<Option<String>> {
    if key == "base_url"@ {
        Some(d.base_url)
    } else if key == "password"@ {
        Some(d.password)
    } else {
        None
    }
}

/// `d` with the field named `key` set to `value`.
pub open spec fn with_field(d: ConfigData, key: Seq<char>, value: String) -> ConfigData {
    if key == "base_url"@ {
        ConfigData { base_url: Some(value), ..d }
    } else if key == "password"@ {
        ConfigData { password: Some(value), ..d }
    } else {
        d
    }
}

/// One `key: value` line.
pub open spec fn list_line(key: Seq<char>, v: Option<String>) -> Seq<char> {
    key + ": "@ + value_text(v) + "\n"@
}

/// Every field, in the record's order, one line each.
pub open spec fn list_text(d: ConfigData) -> Seq<char> {
    list_line("base_url"@, d.base_url) + list_line("password"@, d.password)
}

pub open spec fn unknown_key_message(key: Seq<char>) -> Seq<char> {
    "No such config option: "@ + key
}

/// The outcome of a config action on `d`: the new record with the text to
/// print (`None` when the record is to be saved), or the error message.
pub open spec fn action_outcome(d: ConfigData, a: ConfigAction) -> Result<
    (ConfigData, Option<Seq<char>>),
    Seq<char>,
> {
    match a {
        ConfigAction::List => Ok((d, Some(list_text(d)))),
        ConfigAction::Get(key) => match field_value(d, key@) {
            Some(v) => Ok((d, Some(value_text(v) + "\n"@))),
            None => Err(unknown_key_message(key@)),
        },
        ConfigAction::Assign(key, value) => match field_value(d, key@) {
            Some(_) => Ok((with_field(d, key@, value), None)),
            None => Err(unknown_key_message(key@)),
        },
    }
}

fn render_value(v: &Option<String>) -> (r: String)
    ensures
        r@ == value_text(*v),
{
    match v {
        Some(s) => json_text(s),
        None => String::from_str("null"),
    }
}

fn render_line(key: &str, v: &Option<String>) -> (r: String)
    ensures
        r@ == list_line(key@, *v),
{
    let mut out = String::from_str(key);
    out.append(": ");
    let value = render_value(v);
    out.append(value.as_str());
    out.append("\n");
    out
}

fn unknown_key(key: &String) -> (r: String)
    ensures
        r@ == unknown_key_message(key@),
{
    let mut out = String::from_str("No such config option: ");
    out.append(key.as_str());
    out
}

/// A lookup or an assignment on a key that names no field fails with
/// `No such config option: <key>`, and the record stays as it was.
pub proof fn lemma_unknown_key(d: ConfigData, key: String, value: String)
    requires
        key@ != "base_url"@,
        key@ != "password"@,
    ensures
        action_outcome(d, ConfigAction::Get(key)) == Err::<(ConfigData, Option<Seq<char>>), _>(
            unknown_key_message(key@),
        ),
        action_outcome(d, ConfigAction::Assign(key, value)) == Err::<
            (ConfigData, Option<Seq<char>>),
            _,
        >(unknown_key_message(key@)),
{
}

/// Setting the base URL and then reading it back shows the value just set, as
/// JSON text; a listing afterwards starts with the line `base_url: <value>`.
pub proof fn lemma_assign_then_get(d: ConfigData, key: String, value: String)
    requires
        key@ == "base_url"@,
    ensures
        ({
            let d2 = with_field(d, key@, value);
            let line = "base_url: "@ + json_string_text(value@) + "\n"@;
            &&& d2.base_url == Some(value)
            &&& d2.password == d.password
            &&& action_outcome(d, ConfigAction::Assign(key, value)) == Ok::<_, Seq<char>>(
                (d2, None::<Seq<char>>),
            )
            &&& action_outcome(d2, ConfigAction::Get(key)) == Ok::<_, Seq<char>>(
                (d2, Some(json_string_text(value@) + "\n"@)),
            )
            &&& list_text(d2).subrange(0, line.len() as int) == line
        }),
{
    let d2 = with_field(d, key@, value);
    let line = "base_url: "@ + json_string_text(value@) + "\n"@;
    reveal_strlit("base_url");
    reveal_strlit(": ");
    reveal_strlit("base_url: ");
    assert(line =~= list_line("base_url"@, d2.base_url));
    assert(list_text(d2).subrange(0, line.len() as int) =~= line);
}

impl Config {
    /// Carries out a config action: a listing or a lookup yields the text to
    /// print; an assignment updates the record and asks for it to be saved.
    /// An unknown key leaves the record untouched.
    pub fn do_action(&mut self, action: ConfigAction) -> (r: Result<ConfigEffect, String>)
        ensures
            final(self).path == old(self).path,
            match action_outcome(old(self).data, action) {
                Ok((d, Some(t))) => r matches Ok(ConfigEffect::Print(p)) && p@ == t
                    && final(self).data == d,
                Ok((d, None)) => r matches Ok(ConfigEffect::Save) && final(self).data == d,
                Err(m) => r matches Err(e) && e@ == m && final(self).data == old(self).data,
            },
    {
        let base_url = String::from_str("base_url");
        let password = String::from_str("password");
        match action {
            ConfigAction::List => {
                let mut out = render_line("base_url", &self.data.base_url);
                let second = render_line("password", &self.data.password);
                out.append(second.as_str());
                Ok(ConfigEffect::Print(out))
            },
            ConfigAction::Get(key) => {
                let mut out;
                if key == base_url {
                    out = render_value(&self.data.base_url);
                } else if key == password {
                    out = render_value(&self.data.password);
                } else {
                    return Err(unknown_key(&key));
                }
                out.append("\n");
                Ok(ConfigEffect::Print(out))
            },
            ConfigAction::Assign(key, value) => {
                if key == base_url {
                    self.data.base_url = Some(value);
                } else if key == password {
                    self.data.password = Some(value);
                } else {
                    return Err(unknown_key(&key));
                }
                Ok(ConfigEffect::Save)
            },
        }
    }
}

} // verus!
