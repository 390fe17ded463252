//! The options bag: the flat set of values the command line supplies.
use vstd::prelude::*;

verus! {

/// A span of time, held as whole seconds and the nanoseconds beyond them.
#[derive(Clone, Copy, Debug)]
pub struct Duration {
    pub secs: u64,
    pub nanos: u32,
}

impl Duration {
    pub open spec fn wf(self) -> bool {
        self.nanos < 1_000_000_000
    }

    pub fn new(secs: u64, nanos: u32) -> (r: Duration)
        requires
            nanos < 1_000_000_000,
        ensures
            r.wf(),
            r.secs == secs,
            r.nanos == nanos,
    {
        Duration { secs, nanos }
    }

    /// The whole seconds of the span; the fraction is dropped.
    pub fn as_secs(&self) -> (r: u64)
        ensures
            r == self.secs,
    {
        self.secs
    }
}

/// The user-supplied flags and values.
///
/// `link`, `paste` and `file` are `None` when the flag is absent, `Some(None)`
/// when it is given without an argument and `Some(Some(v))` when it carries one.
/// `config` holds the config directive's trailing values when it is present.
#[derive(Debug)]
pub struct ShareIt {
    pub link: Option<Option<String>>,
    pub paste: Option<Option<String>>,
    pub file: Option<Option<String>>,
    pub config: Option<Vec<String>>,
    pub name: Option<String>,
    pub expire_after: Option<Duration>,
    pub mime_type: Option<String>,
    pub syntax: Option<String>,
    pub from_clipboard: bool,
    pub to_clipboard: bool,
}

impl ShareIt {
    /// Some action flag is present: a config directive or a create kind.
    pub open spec fn has_action(&self) -> bool {
        self.config is Some || self.has_create_kind()
    }

    /// One of the create flags (link, paste, file) is present.
    pub open spec fn has_create_kind(&self) -> bool {
        self.link is Some || self.paste is Some || self.file is Some
    }
}

} // verus!
