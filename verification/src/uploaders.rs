//! Destination uploaders.
//!
//! A backup specification names one of two delivery variants: a GitHub gist
//! update or an arbitrary shell pipe. Each variant validates its own
//! required parameters and plans the work the application is to carry out;
//! the outcome the application observes is classified back into a per-item
//! success or failure.

pub mod custom;
pub mod github;

use crate::paths::{file_name_spec, find_file_name_start, lemma_file_name_start_bounds};
use vstd::prelude::*;
use vstd::string::*;

verus! {

/// A per-item backup failure, by kind.
#[derive(Debug)]
pub enum BackupError {
    /// A required destination parameter is missing from the specification.
    Validation(String),
    /// A filesystem or subprocess failure.
    Io(String),
    /// An HTTP failure or a non-success response; carries the response body
    /// or the transport error text.
    Transport(String),
}

impl BackupError {
    /// The failure text, whatever the kind.
    pub open spec fn message_spec(self) -> Seq<char> {
        match self {
            BackupError::Validation(m) => m@,
            BackupError::Io(m) => m@,
            BackupError::Transport(m) => m@,
        }
    }

    /// Turn the failure into its text, to be recorded as an outcome cause.
    pub fn into_message(self) -> (r: String)
        ensures
            r@ == self.message_spec(),
    {
        match self {
            BackupError::Validation(m) => m,
            BackupError::Io(m) => m,
            BackupError::Transport(m) => m,
        }
    }
}

/// The delivery work planned for one file under one backup specification.
/// The application executes the plan and reports what it observed.
#[derive(Debug)]
pub enum UploadPlan {
    /// Run this shell command; it pipes the file's bytes into the
    /// configured custom command.
    RunPipe { command: String },
    /// Update the gist `gist_id`, authenticated by the bearer token
    /// `token`, with the file's content.
    PatchGist { token: String, gist_id: String },
}

/// The file name of a path: everything after its last `/`.
pub fn get_file_name(path: &String) -> (r: String)
    ensures
        r@ == file_name_spec(path@),
{
    let s = path.as_str();
    proof {
        lemma_file_name_start_bounds(s@);
    }
    let i = find_file_name_start(s);
    let n = s.unicode_len();
    let name = s.substring_char(i, n);
    String::from_str(name)
}

} // verus!
