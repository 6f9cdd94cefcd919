//! Where the agent lives, worked out from the directory the shell runs in.
//!
//! Paths are held as text. Taking a path apart and putting one together is
//! left to `std::path`, which knows the platform's separators, roots and
//! prefixes; the rules about which directory is which are decided here.

use vstd::prelude::*;
use vstd::string::*;
use crate::text::{reply_text, text_of};

verus! {

/// What `std::path::Path::parent` returns for `path`: the path without its
/// last component, or `None` where there is no such component to drop. It
/// reads the text of the path and nothing else.
pub uninterp spec fn parent_of(path: Seq<char>) -> Option<Seq<char>>;

/// What `std::path::Path::join` returns for `base` and `part`: `part`
/// adjoined to `base`. It reads the two texts and nothing else.
pub uninterp spec fn joined(base: Seq<char>, part: Seq<char>) -> Seq<char>;

/// What the `Debug` impl of `std::path::Path` writes for `path`: the path
/// between double quotes, with the characters that need it escaped.
pub uninterp spec fn quoted(path: Seq<char>) -> Seq<char>;

/// Calls `std::path::Path::parent`. Trusted: the result is the one that
/// [`parent_of`] names, `None` exactly where `parent` returns `None`.
#[verifier::external_body]
pub(crate) fn path_parent(path: &str) -> (parent: Option<String>)
    ensures
        text_of(parent) == parent_of(path@),
{
    match std::path::Path::new(path).parent() {
        Some(dir) => Some(dir.to_string_lossy().into_owned()),
        None => None,
    }
}

/// Calls `std::path::Path::join`. Trusted: the result is the one that
/// [`joined`] names.
#[verifier::external_body]
pub(crate) fn path_join(base: &str, part: &str) -> (whole: String)
    ensures
        whole@ == joined(base@, part@),
{
    std::path::Path::new(base).join(part).to_string_lossy().into_owned()
}

/// Calls the `Debug` impl of `std::path::Path`, through `format!` with
/// `{:?}`. Trusted: the result is the one that [`quoted`] names.
#[verifier::external_body]
pub(crate) fn path_debug(path: &str) -> (rendered: String)
    ensures
        rendered@ == quoted(path@),
{
    format!("{:?}", std::path::Path::new(path))
}

/// The agent's project directory and the script that starts the agent.
#[derive(Debug, Clone, PartialEq, Eq)]
pub struct AgentLocation {
    /// The agent's project directory. The agent runs with this as its
    /// working directory.
    pub root: String,
    /// The script handed to the interpreter.
    pub entry_script: String,
}

/// An [`AgentLocation`] as two texts.
pub struct AgentLocationView {
    pub root: Seq<char>,
    pub entry_script: Seq<char>,
}

impl View for AgentLocation {
    type V = AgentLocationView;

    open spec fn view(&self) -> AgentLocationView {
        AgentLocationView { root: self.root@, entry_script: self.entry_script@ }
    }
}

/// The error for a working directory that has no parent.
pub open spec fn no_parent_text() -> Seq<char> {
    "[Rust] Failed to get parent of src-tauri"@
}

/// The error for a working directory whose parent has no parent.
pub open spec fn no_grandparent_text() -> Seq<char> {
    "[Rust] Failed to get parent of frontend/"@
}

/// The agent's location under a project root: the directory `agent` in it,
/// and `run-agent.js` in that directory.
pub open spec fn location_under(project_root: Seq<char>) -> AgentLocationView {
    AgentLocationView {
        root: joined(project_root, "agent"@),
        entry_script: joined(joined(project_root, "agent"@), "run-agent.js"@),
    }
}

/// The project root, given the working directory's parent and that parent's
/// parent: the second, where both exist.
pub open spec fn project_root_of(
    parent: Option<Seq<char>>,
    grandparent: Option<Seq<char>>,
) -> Result<Seq<char>, Seq<char>> {
    match (parent, grandparent) {
        (None, _) => Err(no_parent_text()),
        (Some(_), None) => Err(no_grandparent_text()),
        (Some(_), Some(root)) => Ok(root),
    }
}

/// Where the agent is, seen from `working_dir`: two levels up, then down
/// into `agent`.
pub open spec fn located(working_dir: Seq<char>) -> Result<AgentLocationView, Seq<char>> {
    let parent = parent_of(working_dir);
    let grandparent = match parent {
        Some(dir) => parent_of(dir),
        None => None,
    };
    match project_root_of(parent, grandparent) {
        Ok(root) => Ok(location_under(root)),
        Err(reason) => Err(reason),
    }
}

/// The view of what [`locate_agent`] returns.
pub open spec fn location_view(outcome: Result<AgentLocation, String>) -> Result<
    AgentLocationView,
    Seq<char>,
> {
    match outcome {
        Ok(location) => Ok(location@),
        Err(reason) => Err(reason@),
    }
}

/// Picks the project root from the two directories above the working
/// directory.
///
/// Fails when the working directory has no parent, and with another message
/// when it has one that has no parent itself. A grandparent given without a
/// parent is not looked at.
pub fn project_root_from(parent: Option<String>, grandparent: Option<String>) -> (root: Result<
    String,
    String,
>)
    ensures
        reply_text(root) == project_root_of(text_of(parent), text_of(grandparent)),
{
    match parent {
        None => Err(String::from_str("[Rust] Failed to get parent of src-tauri")),
        Some(_) => match grandparent {
            None => Err(String::from_str("[Rust] Failed to get parent of frontend/")),
            Some(root) => Ok(root),
        },
    }
}

impl AgentLocation {
    /// The agent's location under `project_root`.
    pub fn under(project_root: &str) -> (location: AgentLocation)
        ensures
            location@ == location_under(project_root@),
    {
        let root = path_join(project_root, "agent");
        let entry_script = path_join(root.as_str(), "run-agent.js");
        AgentLocation { root, entry_script }
    }
}

/// Works out where the agent is from the directory the shell runs in.
///
/// The shell runs two levels below the project root, and the agent is the
/// root's `agent` directory. Nothing is looked up on disk: whether the entry
/// script exists is for the caller to find out.
pub fn locate_agent(working_dir: &str) -> (outcome: Result<AgentLocation, String>)
    ensures
        location_view(outcome) == located(working_dir@),
{
    let parent = path_parent(working_dir);
    let grandparent = match &parent {
        Some(dir) => path_parent(dir.as_str()),
        None => None,
    };
    match project_root_from(parent, grandparent) {
        Ok(root) => Ok(AgentLocation::under(root.as_str())),
        Err(reason) => Err(reason),
    }
}

} // verus!
