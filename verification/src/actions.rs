//! File operations, as values: the library works them out and its caller
//! performs them.

use vstd::prelude::*;
use crate::settings_finder::SettingsError;

verus! {

/// One file operation for the caller to perform.
#[derive(Debug, Clone, PartialEq, Eq)]
pub enum FileAction {
    /// Write `contents` to `path`, replacing any file that is there.
    WriteFile { path: String, contents: String },
    /// Create the directory `path`; an error if it exists already.
    CreateDir { path: String },
    /// Remove the file `path`; an error if that fails.
    RemoveFile { path: String },
    /// Remove the directory `path` with all it holds; an error if that fails.
    RemoveDirAll { path: String },
    /// Remove the file `path` if it is there; no error if it is not.
    DiscardFile { path: String },
    /// Remove the directory `path` with all it holds if it is there; no
    /// error if it is not.
    DiscardDir { path: String },
}

/// What a `FileAction` stands for.
pub enum Step {
    WriteFile { path: Seq<char>, contents: Seq<char> },
    CreateDir { path: Seq<char> },
    RemoveFile { path: Seq<char> },
    RemoveDirAll { path: Seq<char> },
    DiscardFile { path: Seq<char> },
    DiscardDir { path: Seq<char> },
}

impl Step {
    /// The file or directory that the operation is about.
    pub open spec fn path(self) -> Seq<char> {
        match self {
            Step::WriteFile { path, .. } => path,
            Step::CreateDir { path } => path,
            Step::RemoveFile { path } => path,
            Step::RemoveDirAll { path } => path,
            Step::DiscardFile { path } => path,
            Step::DiscardDir { path } => path,
        }
    }
}

impl FileAction {
    /// The file or directory that the operation is about.
    pub fn path(&self) -> (path: &String)
        ensures
            path@ == self@.path(),
    {
        match self {
            FileAction::WriteFile { path, .. } => path,
            FileAction::CreateDir { path } => path,
            FileAction::RemoveFile { path } => path,
            FileAction::RemoveDirAll { path } => path,
            FileAction::DiscardFile { path } => path,
            FileAction::DiscardDir { path } => path,
        }
    }
}

impl View for FileAction {
    type V = Step;

    open spec fn view(&self) -> Step {
        match self {
            FileAction::WriteFile { path, contents } => Step::WriteFile {
                path: path@,
                contents: contents@,
            },
            FileAction::CreateDir { path } => Step::CreateDir { path: path@ },
            FileAction::RemoveFile { path } => Step::RemoveFile { path: path@ },
            FileAction::RemoveDirAll { path } => Step::RemoveDirAll { path: path@ },
            FileAction::DiscardFile { path } => Step::DiscardFile { path: path@ },
            FileAction::DiscardDir { path } => Step::DiscardDir { path: path@ },
        }
    }
}

/// File operations to perform in their order, stopping at the first that
/// fails, and the failure to report once they are done, if there is one.
#[derive(Debug, Clone, PartialEq, Eq)]
pub struct Plan {
    pub actions: Vec<FileAction>,
    pub failure: Option<SettingsError>,
}

/// What a list of file operations stands for.
pub open spec fn steps(actions: Seq<FileAction>) -> Seq<Step> {
    actions.map_values(|action: FileAction| action@)
}

/// Adds `action` to the end of `actions`.
pub fn push_action(actions: &mut Vec<FileAction>, action: FileAction)
    ensures
        steps(final(actions)@) == steps(old(actions)@).push(action@),
{
    assert(steps(actions@.push(action)) =~= steps(actions@).push(action@));
    actions.push(action);
}

} // verus!
