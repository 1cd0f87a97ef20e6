//! Typed representation of the configuration: the archive directory, the
//! archive specifications and the backup destination specifications. The
//! configuration document itself is parsed by the surrounding application,
//! which hands these plain values to the library.

use vstd::prelude::*;

verus! {

/// The whole configuration for one run.
#[derive(Debug)]
pub struct AppConfig {
    pub archive_path: String,
    pub archives: Vec<Archive>,
    pub backups: Vec<Backup>,
}

/// One archive: a name and the shell command whose standard output becomes
/// the archive's content.
#[derive(Debug, Default)]
pub struct Archive {
    pub name: String,
    pub content: String,
}

/// One backup destination. `name` selects the delivery variant; the optional
/// fields are variant-specific parameters, validated only when the variant is
/// actually invoked.
#[derive(Debug, Default)]
pub struct Backup {
    pub name: String,
    pub custom: Option<String>,
    pub destination: Option<String>,
    pub credentials: Option<String>,
}

impl Backup {
    pub fn get_destination(&self) -> (r: Option<String>)
        ensures
            r == self.destination,
    {
        match &self.destination {
            Some(d) => Some(d.clone()),
            None => None,
        }
    }

    pub fn get_creds(&self) -> (r: Option<String>)
        ensures
            r == self.credentials,
    {
        match &self.credentials {
            Some(c) => Some(c.clone()),
            None => None,
        }
    }

    pub fn get_custom(&self) -> (r: Option<String>)
        ensures
            r == self.custom,
    {
        match &self.custom {
            Some(c) => Some(c.clone()),
            None => None,
        }
    }
}

} // verus!
