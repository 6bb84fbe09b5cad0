//! Data carried between the host, the plugins and the engine.

use vstd::prelude::*;

verus! {

/// One candidate result produced by a plugin for a query.
///
/// `id` is plugin-private correlation data, opaque to the engine. `icon` is
/// either an absolute file path or a symbolic icon name; the engine only
/// passes the string through to the rendering layer.
#[derive(Debug, PartialEq, Eq)]
pub struct Match {
    pub title: String,
    pub description: Option<String>,
    pub use_pango: bool,
    pub icon: Option<String>,
    pub id: Option<u64>,
}

impl Clone for Match {
    fn clone(&self) -> (r: Self)
        ensures
            r == *self,
    {
        Match {
            title: self.title.clone(),
            description: clone_opt_string(&self.description),
            use_pango: self.use_pango,
            icon: clone_opt_string(&self.icon),
            id: self.id,
        }
    }
}

/// Static metadata of a loaded plugin.
#[derive(Debug, PartialEq, Eq)]
pub struct PluginInfo {
    pub name: String,
    pub icon: String,
}

/// What polling an outstanding request returns. `Ready` and `Cancelled` are
/// terminal: the task that received one must not poll again.
#[derive(Debug, PartialEq, Eq)]
pub enum PollResult {
    Ready(Vec<Match>),
    Pending,
    Cancelled,
}

/// Verdict of one invocation of a polling task: reschedule it or retire it.
#[derive(Debug, PartialEq, Eq, Clone, Copy)]
pub enum PollVerdict {
    Continue,
    Stop,
}

/// What a plugin's selection handler returns for an activated match.
#[derive(Debug, PartialEq, Eq)]
pub enum HandleResult {
    Close,
    Refresh(bool),
    Copy(Vec<u8>),
    Stdout(Vec<u8>),
}

/// What the host must do after the engine has interpreted a selection.
#[derive(Debug, PartialEq, Eq)]
pub enum EngineAction {
    /// Terminate the session with no further action.
    Close,
    /// Re-dispatch the current query text; the arbiter state was updated.
    Refresh,
    /// Terminate the session; the clipboard payload to keep serving is held
    /// in the engine's post-run action.
    CopyAndClose,
    /// Write the bytes to standard output, then terminate the session.
    StdoutAndClose(Vec<u8>),
}

/// Failure of resolving a stale row index.
#[derive(Debug, PartialEq, Eq, Clone, Copy)]
pub enum SelectionError {
    OutOfRange,
}

/// One renderer-facing row: a match tagged with the plugin that produced it
/// and a flag marking the first row of that plugin's group.
#[derive(Debug, PartialEq, Eq)]
pub struct MatchRow {
    pub title: String,
    pub description: Option<String>,
    pub use_pango: bool,
    pub icon: Option<String>,
    pub id: Option<u64>,
    pub plugin_id: u64,
    pub first: bool,
}

impl Clone for MatchRow {
    fn clone(&self) -> (r: Self)
        ensures
            r == *self,
    {
        MatchRow {
            title: self.title.clone(),
            description: clone_opt_string(&self.description),
            use_pango: self.use_pango,
            icon: clone_opt_string(&self.icon),
            id: self.id,
            plugin_id: self.plugin_id,
            first: self.first,
        }
    }
}

impl Default for MatchRow {
    fn default() -> (r: Self)
        ensures
            r.title@ == Seq::<char>::empty(),
            r.description == Option::<String>::None,
            r.use_pango == false,
            r.icon == Option::<String>::None,
            r.id == Option::<u64>::None,
            r.plugin_id == 0,
            r.first == false,
    {
        MatchRow::new()
    }
}

/// A bare match becomes a row with the neutral tags the aggregator will
/// overwrite: owned by the first plugin and heading its group.
impl From<Match> for MatchRow {
    fn from(value: Match) -> (r: MatchRow) {
        MatchRow {
            title: value.title,
            description: value.description,
            use_pango: value.use_pango,
            icon: value.icon,
            id: value.id,
            plugin_id: 0,
            first: true,
        }
    }
}

impl vstd::std_specs::convert::FromSpecImpl<Match> for MatchRow {
    open spec fn obeys_from_spec() -> bool {
        true
    }

    open spec fn from_spec(value: Match) -> MatchRow {
        MatchRow {
            title: value.title,
            description: value.description,
            use_pango: value.use_pango,
            icon: value.icon,
            id: value.id,
            plugin_id: 0,
            first: true,
        }
    }
}

/// A row hands its match back, tags stripped.
impl From<MatchRow> for Match {
    fn from(value: MatchRow) -> (r: Match) {
        Match {
            title: value.title,
            description: value.description,
            use_pango: value.use_pango,
            icon: value.icon,
            id: value.id,
        }
    }
}

impl vstd::std_specs::convert::FromSpecImpl<MatchRow> for Match {
    open spec fn obeys_from_spec() -> bool {
        true
    }

    open spec fn from_spec(value: MatchRow) -> Match {
        value.spec_to_match()
    }
}

/// Clones an optional string; the copy holds the same characters.
fn clone_opt_string(value: &Option<String>) -> (r: Option<String>)
    ensures
        r == *value,
{
    match value {
        Some(s) => Some(s.clone()),
        None => None,
    }
}

impl MatchRow {
    pub fn new() -> (r: Self)
        ensures
            r.title@ == Seq::<char>::empty(),
            r.description == Option::<String>::None,
            r.use_pango == false,
            r.icon == Option::<String>::None,
            r.id == Option::<u64>::None,
            r.plugin_id == 0,
            r.first == false,
    {
        MatchRow {
            title: String::new(),
            description: None,
            use_pango: false,
            icon: None,
            id: None,
            plugin_id: 0,
            first: false,
        }
    }

    pub fn get_title(&self) -> (r: String)
        ensures
            r@ == self.title@,
    {
        self.title.clone()
    }

    pub fn set_title(&mut self, value: String)
        ensures
            *final(self) == (MatchRow { title: value, ..*old(self) }),
    {
        self.title = value;
    }

    pub fn get_description(&self) -> (r: Option<String>)
        ensures
            r == self.description,
    {
        clone_opt_string(&self.description)
    }

    pub fn set_description(&mut self, value: Option<String>)
        ensures
            *final(self) == (MatchRow { description: value, ..*old(self) }),
    {
        self.description = value;
    }

    pub fn get_use_pango(&self) -> (r: bool)
        ensures
            r == self.use_pango,
    {
        self.use_pango
    }

    pub fn set_use_pango(&mut self, value: bool)
        ensures
            *final(self) == (MatchRow { use_pango: value, ..*old(self) }),
    {
        self.use_pango = value;
    }

    pub fn get_icon(&self) -> (r: Option<String>)
        ensures
            r == self.icon,
    {
        clone_opt_string(&self.icon)
    }

    pub fn set_icon(&mut self, value: Option<String>)
        ensures
            *final(self) == (MatchRow { icon: value, ..*old(self) }),
    {
        self.icon = value;
    }

    pub fn get_id(&self) -> (r: Option<u64>)
        ensures
            r == self.id,
    {
        self.id
    }

    pub fn set_id(&mut self, value: Option<u64>)
        ensures
            *final(self) == (MatchRow { id: value, ..*old(self) }),
    {
        self.id = value;
    }

    pub fn get_plugin_id(&self) -> (r: u64)
        ensures
            r == self.plugin_id,
    {
        self.plugin_id
    }

    pub fn set_plugin_id(&mut self, value: u64)
        ensures
            *final(self) == (MatchRow { plugin_id: value, ..*old(self) }),
    {
        self.plugin_id = value;
    }

    pub fn get_first(&self) -> (r: bool)
        ensures
            r == self.first,
    {
        self.first
    }

    pub fn set_first(&mut self, value: bool)
        ensures
            *final(self) == (MatchRow { first: value, ..*old(self) }),
    {
        self.first = value;
    }

    /// The match this row was built from, with the row tags stripped.
    pub open spec fn spec_to_match(self) -> Match {
        Match {
            title: self.title,
            description: self.description,
            use_pango: self.use_pango,
            icon: self.icon,
            id: self.id,
        }
    }

    /// Rebuilds the match a row carries, for handing back to its plugin.
    pub fn to_match(&self) -> (r: Match)
        ensures
            r == self.spec_to_match(),
    {
        Match {
            title: self.title.clone(),
            description: clone_opt_string(&self.description),
            use_pango: self.use_pango,
            icon: clone_opt_string(&self.icon),
            id: self.id,
        }
    }
}

} // verus!
