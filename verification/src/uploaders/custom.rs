//! The shell-pipe delivery variant: the file's bytes are piped into a
//! configured custom command. The variant requires `custom` to be present;
//! a missing command is a per-item configuration error, and no subprocess
//! is planned for it.

use crate::appconfig::Backup;
use crate::paths::file_name_spec;
use crate::uploaders::{get_file_name, BackupError, UploadPlan};
use vstd::prelude::*;
use vstd::string::*;

verus! {

/// The shell command that pipes a file into the custom command.
pub open spec fn pipe_command_spec(path: Seq<char>, cmd: Seq<char>) -> Seq<char> {
    "cat "@ + path + " | "@ + cmd
}

/// The failure text reported when the custom command is missing.
pub open spec fn missing_command_message(path: Seq<char>) -> Seq<char> {
    "Command is necessary to backup; skipping "@ + file_name_spec(path)
}

/// Build the shell command that pipes the file at `path` into `cmd`.
pub fn pipe_command(path: &String, cmd: &String) -> (r: String)
    ensures
        r@ == pipe_command_spec(path@, cmd@),
{
    let mut r = String::from_str("cat ");
    r.append(path.as_str());
    r.append(" | ");
    r.append(cmd.as_str());
    proof {
        assert(r@ =~= pipe_command_spec(path@, cmd@));
    }
    r
}

/// Plan the shell-pipe delivery of the file at `path` under `backup`:
/// the configured custom command with the file's bytes on its standard
/// input, or a validation error when no custom command is configured.
pub fn plan_upload(path: &String, backup: &Backup) -> (r: Result<UploadPlan, BackupError>)
    ensures
        backup.custom matches Some(cmd) ==> (r matches Ok(UploadPlan::RunPipe { command })
            && command@ == pipe_command_spec(path@, cmd@)),
        backup.custom is None ==> (r matches Err(BackupError::Validation(m)) && m@
            == missing_command_message(path@)),
{
    match backup.get_custom() {
        Some(cmd) => Ok(UploadPlan::RunPipe { command: pipe_command(path, &cmd) }),
        None => {
            let m = String::from_str("Command is necessary to backup; skipping ").concat(
                get_file_name(path).as_str(),
            );
            Err(BackupError::Validation(m))
        },
    }
}

/// Classify what the application observed from the piped command: success
/// exactly when the command exited successfully and wrote nothing to
/// standard error; otherwise a failure carrying the standard-error text.
pub fn classify_pipe_outcome(status_ok: bool, stderr: &String) -> (r: Result<(), BackupError>)
    ensures
        status_ok && stderr@.len() == 0 <==> r is Ok,
        r matches Err(e) ==> (e matches BackupError::Io(m) && m@ == stderr@),
{
    if status_ok && stderr.as_str().unicode_len() == 0 {
        Ok(())
    } else {
        Err(BackupError::Io(stderr.clone()))
    }
}

} // verus!
