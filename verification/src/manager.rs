//! The running launcher configuration.
//!
//! The configuration file itself is the host's business: the host checks
//! for it, reads it, parses it, and writes the defaults out on a first
//! run. What is assembled from that — the parsed data when there was a
//! readable file, the documented defaults otherwise — is decided here.

use vstd::prelude::*;

use crate::data::ConfigData;
use crate::data::is_default_config;
use crate::file_probe::file_exists;

verus! {

/// The launcher's configuration for one run: where it came from and the
/// descriptors it holds.
#[derive(Clone)]
pub struct LauncherConfig<'a> {
    pub file_path: &'a str,
    pub config: ConfigData,
}

impl<'a> LauncherConfig<'a> {
    /// Is there a configuration file at this path right now?
    pub fn config_file_exists(file_path: &'a str) -> bool {
        file_exists(file_path)
    }

    /// Assemble the running configuration: the data the host loaded and
    /// parsed when there was any, else the documented defaults built for
    /// the host's application-data directory.
    pub fn from_loaded(
        file_path: &'a str,
        loaded: Option<ConfigData>,
        app_data_location: &str,
    ) -> (r: LauncherConfig<'a>)
        ensures
            r.file_path@ == file_path@,
            loaded matches Some(c) ==> r.config == c,
            loaded is None ==> is_default_config(r.config, app_data_location@),
    {
        match loaded {
            Some(config) => LauncherConfig { file_path, config },
            None => LauncherConfig { file_path, config: ConfigData::new(app_data_location) },
        }
    }
}

} // verus!
