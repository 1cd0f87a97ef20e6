//! Backup selection and dispatch.
//!
//! A file is offered to every configured backup specification. Whether a
//! file is recent enough to act on is decided from its age; which delivery
//! variant serves a specification is decided from the specification's name
//! by an exact match on the reserved gist name, with every other name
//! falling back to the shell-pipe variant.

use crate::appconfig::Backup;
use crate::uploaders::{custom, github, BackupError, UploadPlan};
use vstd::prelude::*;
use vstd::string::*;

verus! {

/// The name reserved for the GitHub-gist delivery variant.
pub open spec fn gist_backup_name() -> Seq<char> {
    "github-gists"@
}

/// How long ago a file was modified, as the application observed it:
/// whole seconds and the fraction in nanoseconds.
#[derive(Clone, Copy, Debug)]
pub struct Elapsed {
    pub secs: u64,
    pub subsec_nanos: u32,
}

/// Whether a file counts as recently modified: its age is known and
/// strictly below the threshold. An unknown age (the modification time
/// could not be read, or lies in the future) excludes the file rather than
/// including it.
pub fn has_been_modified(elapsed: Option<Elapsed>, secs: u64) -> (b: bool)
    ensures
        b == (elapsed matches Some(e) && e.secs < secs),
{
    match elapsed {
        Some(e) => e.secs < secs,
        None => false,
    }
}

/// Plan the delivery of the file at `path` under `backup`: the gist variant
/// exactly for the reserved name, the shell-pipe variant for every other
/// name. Each variant validates its own required parameters; a validation
/// failure plans no work.
pub fn plan_backup(path: &String, backup: &Backup) -> (r: Result<UploadPlan, BackupError>)
    ensures
        backup.name@ == gist_backup_name() && backup.credentials is None ==> (r matches Err(
            BackupError::Validation(m),
        ) && m@ == github::missing_token_message(path@)),
        backup.name@ == gist_backup_name() && backup.credentials is Some && backup.destination
            is None ==> (r matches Err(BackupError::Validation(m)) && m@
            == github::missing_gist_id_message(path@)),
        backup.name@ == gist_backup_name() && backup.credentials is Some && backup.destination
            is Some ==> (r matches Ok(UploadPlan::PatchGist { token, gist_id }) && token@
            == backup.credentials->0@ && gist_id@ == backup.destination->0@),
        backup.name@ != gist_backup_name() && backup.custom is None ==> (r matches Err(
            BackupError::Validation(m),
        ) && m@ == custom::missing_command_message(path@)),
        backup.name@ != gist_backup_name() && backup.custom is Some ==> (r matches Ok(
            UploadPlan::RunPipe { command },
        ) && command@ == custom::pipe_command_spec(path@, backup.custom->0@)),
{
    let gist_name = String::from_str("github-gists");
    if backup.name.eq(&gist_name) {
        github::plan_upload(path, backup)
    } else {
        custom::plan_upload(path, backup)
    }
}

} // verus!
