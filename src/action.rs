//! The action an invocation resolves to, derived from the options bag.
use vstd::prelude::*;
use crate::args::{Duration, ShareIt};

verus! {

/// Where the bytes of a share come from.
#[derive(Debug)]
pub enum DataSource {
    String(String),
    File(String),
    Clipboard,
    Stdin,
}

/// The data source the options bag selects, by fixed precedence: a file
/// argument of the file flag, then one of the paste flag, then the link
/// flag's argument, then the clipboard flag, and standard input otherwise.
pub open spec fn source_of(args: ShareIt) -> DataSource {
    if args.file matches Some(Some(_)) {
        DataSource::File(args.file.unwrap().unwrap())
    } else if args.paste matches Some(Some(_)) {
        DataSource::File(args.paste.unwrap().unwrap())
    } else if args.link matches Some(Some(_)) {
        DataSource::String(args.link.unwrap().unwrap())
    } else if args.from_clipboard {
        DataSource::Clipboard
    } else {
        DataSource::Stdin
    }
}

/// Whether a create flag carries an explicit argument.
pub open spec fn carries_argument<T>(flag: Option<Option<T>>) -> bool {
    flag matches Some(Some(_))
}

/// When exactly one of the file, paste and link flags carries an argument,
/// that argument is the source, whatever the other flags hold: a path for file
/// or paste, the literal string for link.
pub proof fn lemma_single_argument_source(args: ShareIt)
    requires
        (carries_argument(args.file) as int) + (carries_argument(args.paste) as int) + (
        carries_argument(args.link) as int) == 1,
    ensures
        carries_argument(args.file) ==> source_of(args) == DataSource::File(
            args.file.unwrap().unwrap(),
        ),
        carries_argument(args.paste) ==> source_of(args) == DataSource::File(
            args.paste.unwrap().unwrap(),
        ),
        carries_argument(args.link) ==> source_of(args) == DataSource::String(
            args.link.unwrap().unwrap(),
        ),
{
}

/// With no create flag carrying an argument, the clipboard flag decides
/// between the clipboard and standard input.
pub proof fn lemma_default_source(args: ShareIt)
    requires
        !carries_argument(args.file),
        !carries_argument(args.paste),
        !carries_argument(args.link),
    ensures
        source_of(args) == (if args.from_clipboard {
            DataSource::Clipboard
        } else {
            DataSource::Stdin
        }),
{
}

pub(crate) fn clone_opt_string(o: &Option<String>) -> (r: Option<String>)
    ensures
        r == *o,
{
    match o {
        Some(s) => Some(s.clone()),
        None => None,
    }
}

impl DataSource {
    pub fn from_args(args: &ShareIt) -> (r: DataSource)
        ensures
            r == source_of(*args),
    {
        if let Some(Some(filename)) = &args.file {
            DataSource::File(filename.clone())
        } else if let Some(Some(filename)) = &args.paste {
            DataSource::File(filename.clone())
        } else if let Some(Some(url)) = &args.link {
            DataSource::String(url.clone())
        } else if args.from_clipboard {
            DataSource::Clipboard
        } else {
            DataSource::Stdin
        }
    }
}

/// The settings shared by every create action.
#[derive(Debug)]
pub struct ActionOptions {
    pub source: DataSource,
    pub name: Option<String>,
    pub expire_after: Option<Duration>,
    pub to_clipboard: bool,
}

/// The options bag's create settings, copied verbatim.
pub open spec fn options_of(args: ShareIt) -> ActionOptions {
    ActionOptions {
        source: source_of(args),
        name: args.name,
        expire_after: args.expire_after,
        to_clipboard: args.to_clipboard,
    }
}

impl ActionOptions {
    pub fn from_args(args: &ShareIt) -> (r: ActionOptions)
        ensures
            r == options_of(*args),
    {
        ActionOptions {
            source: DataSource::from_args(args),
            name: clone_opt_string(&args.name),
            expire_after: args.expire_after,
            to_clipboard: args.to_clipboard,
        }
    }
}

/// A share to create: a shortlink, a paste or a file upload.
#[derive(Debug)]
pub enum CreateAction {
    Link { options: ActionOptions },
    Paste { options: ActionOptions, highlighting: Option<String> },
    File { options: ActionOptions, mime_type: Option<String> },
}

/// The create action the options bag selects: the link flag first, then
/// paste, then file.
pub open spec fn create_action_of(args: ShareIt) -> CreateAction {
    if args.link is Some {
        CreateAction::Link { options: options_of(args) }
    } else if args.paste is Some {
        CreateAction::Paste { options: options_of(args), highlighting: args.syntax }
    } else {
        CreateAction::File { options: options_of(args), mime_type: args.mime_type }
    }
}

impl CreateAction {
    pub open spec fn options(self) -> ActionOptions {
        match self {
            CreateAction::Link { options } => options,
            CreateAction::Paste { options, .. } => options,
            CreateAction::File { options, .. } => options,
        }
    }

    pub fn from_args(args: ShareIt) -> (r: CreateAction)
        requires
            args.has_create_kind(),
        ensures
            r == create_action_of(args),
    {
        let options = ActionOptions::from_args(&args);
        if args.link.is_some() {
            CreateAction::Link { options }
        } else if args.paste.is_some() {
            CreateAction::Paste { options, highlighting: args.syntax }
        } else {
            CreateAction::File { options, mime_type: args.mime_type }
        }
    }

    pub fn get_options(&self) -> (r: &ActionOptions)
        ensures
            *r == self.options(),
    {
        match self {
            CreateAction::Link { options } => options,
            CreateAction::Paste { options, .. } => options,
            CreateAction::File { options, .. } => options,
        }
    }
}

/// A request on the persisted configuration.
#[derive(Debug)]
pub enum ConfigAction {
    List,
    Get(String),
    Assign(String, String),
}

/// The views of `parts`, each followed by one space but the last.
pub open spec fn joined(parts: Seq<String>) -> Seq<char>
    decreases parts.len(),
{
    if parts.len() == 0 {
        Seq::empty()
    } else if parts.len() == 1 {
        parts[0]@
    } else {
        joined(parts.drop_last()) + seq![' '] + parts.last()@
    }
}

/// `a` is the config action that the directive's values `parts` ask for:
/// none lists, one gets that key, more set the first key to the rest joined
/// by single spaces.
pub open spec fn is_config_action_of(parts: Seq<String>, a: ConfigAction) -> bool {
    if parts.len() == 0 {
        a is List
    } else if parts.len() == 1 {
        a == ConfigAction::Get(parts[0])
    } else {
        a matches ConfigAction::Assign(k, v) && k == parts[0] && v@ == joined(parts.skip(1))
    }
}

fn join_with_spaces(parts: &Vec<String>, start: usize) -> (r: String)
    requires
        start <= parts.len(),
    ensures
        r@ == joined(parts@.skip(start as int)),
{
    let mut out = String::new();
    let mut i: usize = start;
    let space = " ";
    proof {
        reveal_strlit(" ");
    }
    while i < parts.len()
        invariant
            start <= i <= parts.len(),
            space@ == seq![' '],
            out@ == joined(parts@.subrange(start as int, i as int)),
        decreases parts.len() - i,
    {
        let ghost prev = parts@.subrange(start as int, i as int);
        let ghost next = parts@.subrange(start as int, i + 1);
        assert(next.drop_last() =~= prev);
        if i > start {
            out.append(space);
        }
        out.append(parts[i].as_str());
        i = i + 1;
    }
    assert(parts@.subrange(start as int, parts.len() as int) =~= parts@.skip(start as int));
    out
}

impl ConfigAction {
    pub fn from_args(args: ShareIt) -> (r: ConfigAction)
        requires
            args.config is Some,
        ensures
            is_config_action_of(args.config.unwrap()@, r),
    {
        let parts = args.config.unwrap();
        if parts.len() == 0 {
            ConfigAction::List
        } else if parts.len() == 1 {
            ConfigAction::Get(parts[0].clone())
        } else {
            ConfigAction::Assign(parts[0].clone(), join_with_spaces(&parts, 1))
        }
    }
}

/// What an invocation does: manage the configuration or create a share.
#[derive(Debug)]
pub enum Action {
    Create(CreateAction),
    Config(ConfigAction),
}

impl Action {
    /// A config directive wins over any create flag.
    pub fn from_args(args: ShareIt) -> (r: Action)
        requires
            args.has_action(),
        ensures
            args.config is Some ==> (r matches Action::Config(c) && is_config_action_of(
                args.config.unwrap()@,
                c,
            )),
            args.config is None ==> r == Action::Create(create_action_of(args)),
    {
        if args.config.is_some() {
            Action::Config(ConfigAction::from_args(args))
        } else {
            Action::Create(CreateAction::from_args(args))
        }
    }
}

} // verus!
