//! Window-level decisions: routing backend notifications by method, choosing
//! a theme, correlating replies with their requests, and what to do with a
//! view that is saved or closed.

use vstd::prelude::*;
use std::collections::HashMap;
use crate::protocol::str_eq;

verus! {

broadcast use vstd::std_specs::hash::group_hash_axioms;

/// The backend notifications, by method name.
#[derive(Clone, Copy, Debug, PartialEq, Eq, Structural)]
pub enum Method {
    Alert,
    AvailableThemes,
    AvailablePlugins,
    ConfigChanged,
    DefStyle,
    FindStatus,
    ReplaceStatus,
    Update,
    ScrollTo,
    ThemeChanged,
    MeasureWidth,
    AvailableLanguages,
    LanguageChanged,
    PluginStarted,
    PluginStopped,
    /// A method this front-end does not handle.
    Unknown,
}

/// The notification that a method name denotes.
pub open spec fn method_of(name: Seq<char>) -> Method {
    if name == "alert"@ {
        Method::Alert
    } else if name == "available_themes"@ {
        Method::AvailableThemes
    } else if name == "available_plugins"@ {
        Method::AvailablePlugins
    } else if name == "config_changed"@ {
        Method::ConfigChanged
    } else if name == "def_style"@ {
        Method::DefStyle
    } else if name == "find_status"@ {
        Method::FindStatus
    } else if name == "replace_status"@ {
        Method::ReplaceStatus
    } else if name == "update"@ {
        Method::Update
    } else if name == "scroll_to"@ {
        Method::ScrollTo
    } else if name == "theme_changed"@ {
        Method::ThemeChanged
    } else if name == "measure_width"@ {
        Method::MeasureWidth
    } else if name == "available_languages"@ {
        Method::AvailableLanguages
    } else if name == "language_changed"@ {
        Method::LanguageChanged
    } else if name == "plugin_started"@ {
        Method::PluginStarted
    } else if name == "plugin_stopped"@ {
        Method::PluginStopped
    } else {
        Method::Unknown
    }
}

/// The notification that `name` denotes.
pub fn route(name: &str) -> (r: Method)
    ensures
        r == method_of(name@),
{
    proof {
        reveal_strlit("alert");
        reveal_strlit("available_themes");
        reveal_strlit("available_plugins");
        reveal_strlit("config_changed");
        reveal_strlit("def_style");
        reveal_strlit("find_status");
        reveal_strlit("replace_status");
        reveal_strlit("update");
        reveal_strlit("scroll_to");
        reveal_strlit("theme_changed");
        reveal_strlit("measure_width");
        reveal_strlit("available_languages");
        reveal_strlit("language_changed");
        reveal_strlit("plugin_started");
        reveal_strlit("plugin_stopped");
    }
    if str_eq(name, "alert") {
        Method::Alert
    } else if str_eq(name, "available_themes") {
        Method::AvailableThemes
    } else if str_eq(name, "available_plugins") {
        Method::AvailablePlugins
    } else if str_eq(name, "config_changed") {
        Method::ConfigChanged
    } else if str_eq(name, "def_style") {
        Method::DefStyle
    } else if str_eq(name, "find_status") {
        Method::FindStatus
    } else if str_eq(name, "replace_status") {
        Method::ReplaceStatus
    } else if str_eq(name, "update") {
        Method::Update
    } else if str_eq(name, "scroll_to") {
        Method::ScrollTo
    } else if str_eq(name, "theme_changed") {
        Method::ThemeChanged
    } else if str_eq(name, "measure_width") {
        Method::MeasureWidth
    } else if str_eq(name, "available_languages") {
        Method::AvailableLanguages
    } else if str_eq(name, "language_changed") {
        Method::LanguageChanged
    } else if str_eq(name, "plugin_started") {
        Method::PluginStarted
    } else if str_eq(name, "plugin_stopped") {
        Method::PluginStopped
    } else {
        Method::Unknown
    }
}

/// Whether `name` is among `names`.
pub fn contains_name(names: &Vec<String>, name: &str) -> (r: bool)
    ensures
        r == exists|i: int| 0 <= i < names@.len() && #[trigger] names@[i]@ == name@,
{
    let mut i: usize = 0;
    while i < names.len()
        invariant
            forall|j: int| 0 <= j < i ==> #[trigger] names@[j]@ != name@,
        decreases names@.len() - i,
    {
        if str_eq(names[i].as_str(), name) {
            return true;
        }
        i += 1;
    }
    false
}

/// The theme to use once the backend lists `themes`: the current one where
/// it is listed, else the first listed, else none.
pub fn choose_theme(themes: &Vec<String>, current: &String) -> (r: Option<String>)
    ensures
        (exists|i: int| 0 <= i < themes@.len() && #[trigger] themes@[i]@ == current@) ==> (r matches Some(
            t,
        ) && t@ == current@),
        !(exists|i: int| 0 <= i < themes@.len() && #[trigger] themes@[i]@ == current@) ==> if themes@.len()
            > 0 {
            (r matches Some(t) && t@ == themes@[0]@)
        } else {
            r is None
        },
{
    if contains_name(themes, current.as_str()) {
        Some(current.clone())
    } else if themes.len() > 0 {
        Some(themes[0].clone())
    } else {
        None
    }
}

/// The plugin without which syntax highlighting is missing.
pub const SYNTAX_PLUGIN: &'static str = "xi-syntect-plugin";

/// Whether the syntax plugin is among the available `plugins`.
pub fn has_syntax_plugin(plugins: &Vec<String>) -> (r: bool)
    ensures
        r == exists|i: int| 0 <= i < plugins@.len() && #[trigger] plugins@[i]@ == SYNTAX_PLUGIN@,
{
    contains_name(plugins, SYNTAX_PLUGIN)
}

/// The answers of the dialog that asks about unsaved changes.
#[derive(Clone, Copy, Debug, PartialEq, Eq, Structural)]
pub enum SaveAction {
    Save,
    CloseWithoutSave,
    Cancel,
}

/// The dialog response code of each answer.
pub open spec fn save_action_of(value: i32) -> Option<SaveAction> {
    if value == 100 {
        Some(SaveAction::Save)
    } else if value == 101 {
        Some(SaveAction::CloseWithoutSave)
    } else if value == 102 {
        Some(SaveAction::Cancel)
    } else {
        None
    }
}

impl SaveAction {
    /// The answer with dialog response code `value`, if any.
    pub fn from_i32(value: i32) -> (r: Option<SaveAction>)
        ensures
            r == save_action_of(value),
    {
        if value == 100 {
            Some(SaveAction::Save)
        } else if value == 101 {
            Some(SaveAction::CloseWithoutSave)
        } else if value == 102 {
            Some(SaveAction::Cancel)
        } else {
            None
        }
    }

    /// The dialog response code of this answer.
    pub fn to_i32(self) -> (r: i32)
        ensures
            save_action_of(r) == Some(self),
    {
        match self {
            SaveAction::Save => 100,
            SaveAction::CloseWithoutSave => 101,
            SaveAction::Cancel => 102,
        }
    }
}

/// What closing a view leads to.
#[derive(Clone, Copy, Debug, PartialEq, Eq, Structural)]
pub enum CloseStep {
    /// Close the view at once.
    Close,
    /// Ask the user about the unsaved changes first.
    Ask,
}

/// A saved view closes at once; otherwise the user is asked.
pub fn close_step(pristine: bool) -> (r: CloseStep)
    ensures
        r == if pristine {
            CloseStep::Close
        } else {
            CloseStep::Ask
        },
{
    if pristine {
        CloseStep::Close
    } else {
        CloseStep::Ask
    }
}

/// Where a save goes.
#[derive(Clone, Debug, PartialEq, Eq)]
pub enum SaveTarget {
    /// The file the view already shows.
    File(String),
    /// No file yet: ask for one.
    AskForFile,
}

/// A view with a file saves there; one without asks for a file.
pub fn save_target(file_name: &Option<String>) -> (r: SaveTarget)
    ensures
        match file_name {
            Some(f) => (r matches SaveTarget::File(g) && g@ == f@),
            None => r == SaveTarget::AskForFile,
        },
{
    match file_name {
        Some(f) => SaveTarget::File(f.clone()),
        None => SaveTarget::AskForFile,
    }
}

/// The requests sent and not yet answered, by id, each with the file it
/// opens, if any. A reply is handed out at most once.
pub struct PendingRequests {
    by_id: HashMap<u64, Option<String>>,
    next_id: u64,
}

impl PendingRequests {
    pub closed spec fn view(&self) -> Map<u64, Option<String>> {
        self.by_id@
    }

    pub closed spec fn next(&self) -> u64 {
        self.next_id
    }

    /// Every waiting id lies below the next one handed out.
    pub open spec fn wf(&self) -> bool {
        forall|id: u64| #[trigger] self.view().contains_key(id) ==> id < self.next()
    }

    /// No request waiting.
    pub fn new() -> (r: PendingRequests)
        ensures
            r.view() == Map::<u64, Option<String>>::empty(),
            r.next() == 0,
            r.wf(),
    {
        PendingRequests { by_id: HashMap::new(), next_id: 0 }
    }

    /// Records a new request for `file_name` and returns its id, which no
    /// waiting request has.
    pub fn register(&mut self, file_name: Option<String>) -> (r: Option<u64>)
        requires
            old(self).wf(),
        ensures
            final(self).wf(),
            old(self).next() < u64::MAX ==> r == Some(old(self).next()) && final(self).view() == old(
                self,
            ).view().insert(old(self).next(), file_name) && final(self).next() == old(self).next() + 1,
            old(self).next() == u64::MAX ==> r is None && final(self).view() == old(self).view()
                && final(self).next() == old(self).next(),
    {
        if self.next_id == u64::MAX {
            return None;
        }
        let id = self.next_id;
        self.by_id.insert(id, file_name);
        self.next_id = id + 1;
        assert forall|k: u64| #[trigger] self.view().contains_key(k) implies k < self.next() by {
            if k != id {
                assert(old(self).view().contains_key(k));
            }
        }
        Some(id)
    }

    /// Takes the request answered by a reply with `id`: the first reply gets
    /// it, and any later one with the same id gets `None`.
    pub fn take(&mut self, id: u64) -> (r: Option<Option<String>>)
        requires
            old(self).wf(),
        ensures
            final(self).wf(),
            final(self).next() == old(self).next(),
            final(self).view() == old(self).view().remove(id),
            old(self).view().contains_key(id) ==> r == Some(old(self).view()[id]),
            !old(self).view().contains_key(id) ==> r is None,
    {
        let r = self.by_id.remove(&id);
        assert forall|k: u64| #[trigger] self.view().contains_key(k) implies k < self.next() by {
            assert(old(self).view().contains_key(k));
        }
        r
    }

    /// Whether a request with `id` is waiting.
    pub fn is_pending(&self, id: u64) -> (r: bool)
        ensures
            r == self.view().contains_key(id),
    {
        self.by_id.contains_key(&id)
    }
}

/// A reply is delivered at most once: after it is taken, a second reply
/// with the same id finds nothing.
pub proof fn law_reply_at_most_once(m: Map<u64, Option<String>>, id: u64)
    ensures
        !m.remove(id).contains_key(id),
{
}

} // verus!
