//! Archive generation decisions.
//!
//! An archive is produced by running its configured shell command; the
//! surrounding application spawns the command and reads the archive file,
//! then hands the observed values to [`decide_archive_write`], which decides
//! whether the archive file is to be written, left alone, or the item
//! reported as failed. Writing is skipped when the freshly produced content
//! equals what is already on disk, so an unchanged generator output never
//! causes a redundant write.

use crate::paths::{build_path_spec, find_file_name_start, find_stem_end};
use vstd::prelude::*;
use vstd::string::*;

verus! {

/// What is to happen to one archive file.
#[derive(Debug)]
pub enum ArchiveDecision {
    /// Write this content to the archive's path.
    Write(String),
    /// The content is unchanged: no write occurs.
    Skip,
    /// The generator command failed; the item is reported with this cause.
    Reject(String),
}

/// Where an archive file lives: the archive directory joined with the
/// archive's name, under the `txt` extension.
pub fn build_path(archive_path: &String, filename: &String) -> (r: String)
    ensures
        r@ == build_path_spec(archive_path@, filename@),
{
    let mut joined = String::new();
    let f = filename.as_str();
    let flen = f.unicode_len();
    let abs = flen > 0 && f.get_char(0) == '/';
    if abs {
        joined.append(f);
    } else {
        let a = archive_path.as_str();
        let alen = a.unicode_len();
        if alen == 0 {
            joined.append(f);
        } else {
            joined.append(a);
            if a.get_char(alen - 1) != '/' {
                joined.append("/");
                proof {
                    reveal_strlit("/");
                    assert("/"@ =~= seq!['/']);
                }
            }
            joined.append(f);
        }
    }
    proof {
        assert(joined@ =~= crate::paths::join_paths(archive_path@, filename@));
    }
    let ns = find_file_name_start(joined.as_str());
    let cut = find_stem_end(joined.as_str(), ns);
    let stem_part = joined.as_str().substring_char(0, cut);
    let r = String::from_str(stem_part).concat(".txt");
    proof {
        assert(r@ =~= build_path_spec(archive_path@, filename@));
    }
    r
}

/// Whether freshly produced content differs from what is on disk (a missing
/// file reads as empty existing content): exactly then is a write due.
pub fn should_overwrite(existing_content: &String, new_content: &String) -> (b: bool)
    ensures
        b == (existing_content@ != new_content@),
{
    !existing_content.eq(new_content)
}

/// Decide what happens to one archive, given what the application observed:
/// whether the archive file already exists, whether the generator command
/// exited successfully, the command's standard output and standard error
/// (decoded to text), and the file's current content (empty when the file
/// exists but could not be read).
///
/// Over an existing file, any exit failure or any standard-error output is a
/// failure; otherwise the file is rewritten exactly when the output differs
/// from its current content. Over a missing file, a successful exit writes
/// the output and a failed exit reports the standard error.
pub fn decide_archive_write(
    exists: bool,
    status_ok: bool,
    stdout: &String,
    stderr: &String,
    old_content: &String,
) -> (d: ArchiveDecision)
    ensures
        exists && (!status_ok || stderr@.len() > 0) ==> (d matches ArchiveDecision::Reject(m)
            && m@ == "Error while trying to archive: "@ + stderr@),
        exists && status_ok && stderr@.len() == 0 && old_content@ != stdout@ ==> (d matches
            ArchiveDecision::Write(c) && c@ == stdout@),
        exists && status_ok && stderr@.len() == 0 && old_content@ == stdout@ ==> d matches
            ArchiveDecision::Skip,
        !exists && status_ok ==> (d matches ArchiveDecision::Write(c) && c@ == stdout@),
        !exists && !status_ok ==> (d matches ArchiveDecision::Reject(m) && m@ == stderr@),
{
    if exists {
        if !status_ok || stderr.as_str().unicode_len() > 0 {
            let m = String::from_str("Error while trying to archive: ").concat(stderr.as_str());
            ArchiveDecision::Reject(m)
        } else if should_overwrite(old_content, stdout) {
            ArchiveDecision::Write(stdout.clone())
        } else {
            ArchiveDecision::Skip
        }
    } else {
        if status_ok {
            ArchiveDecision::Write(stdout.clone())
        } else {
            ArchiveDecision::Reject(stderr.clone())
        }
    }
}

} // verus!
