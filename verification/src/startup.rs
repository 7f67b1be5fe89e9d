//! What the editor does when it is started: which screen comes up, and where
//! the document comes from.

use vstd::prelude::*;

verus! {

/// The file whose presence marks a directory as a project.
pub const PROJECT_MARKER: &'static str = "Zeus.toml";

/// The file, in the project directory, that holds the document.
pub const EDITOR_FILE: &'static str = "editor.json";

/// How the editor starts.
#[derive(Clone, Copy, Debug, PartialEq, Eq, Structural)]
pub enum Startup {
    /// No directory was named: show the error screen.
    NoPath,
    /// The directory named holds no project marker: show the error screen.
    NotAProject,
    /// The project has no document yet: start an empty one and store it.
    Create,
    /// The project has a document: read it.
    Load,
}

/// The start that fits what was found. The directory is looked at only if
/// one was named, and the document only if the directory is a project.
pub open spec fn startup_for(path_given: bool, marker_found: bool, document_found: bool)
    -> Startup {
    if !path_given {
        Startup::NoPath
    } else if !marker_found {
        Startup::NotAProject
    } else if !document_found {
        Startup::Create
    } else {
        Startup::Load
    }
}

/// What the editor tells the user about a start: the text of the error
/// screen, or the line printed before the document is made or read.
pub open spec fn notice_of(startup: Startup) -> Seq<char> {
    match startup {
        Startup::NoPath => "No path given!"@,
        Startup::NotAProject => "Not a zeus project!"@,
        Startup::Create => "Creating new editor.json..."@,
        Startup::Load => "Loading in editor.json..."@,
    }
}

/// Decides how the editor starts: `path_given` says that a directory was
/// named, `marker_found` that it holds the project marker, `document_found`
/// that it holds a document.
pub fn plan_startup(path_given: bool, marker_found: bool, document_found: bool) -> (startup:
    Startup)
    ensures
        startup == startup_for(path_given, marker_found, document_found),
{
    if !path_given {
        Startup::NoPath
    } else if !marker_found {
        Startup::NotAProject
    } else if !document_found {
        Startup::Create
    } else {
        Startup::Load
    }
}

impl Startup {
    /// True for the starts that end on the error screen.
    pub open spec fn refused(self) -> bool {
        self == Startup::NoPath || self == Startup::NotAProject
    }

    /// Tells whether this start ends on the error screen.
    pub fn is_refused(&self) -> (refused: bool)
        ensures
            refused == self.refused(),
    {
        match self {
            Startup::NoPath | Startup::NotAProject => true,
            Startup::Create | Startup::Load => false,
        }
    }

    /// The text that goes with this start.
    pub fn notice(&self) -> (text: &'static str)
        ensures
            text@ == notice_of(*self),
    {
        match self {
            Startup::NoPath => "No path given!",
            Startup::NotAProject => "Not a zeus project!",
            Startup::Create => "Creating new editor.json...",
            Startup::Load => "Loading in editor.json...",
        }
    }
}

} // verus!
