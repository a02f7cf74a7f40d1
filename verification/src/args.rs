//! How the process was started.

use vstd::prelude::*;
use std::path::PathBuf;

verus! {

/// The parameters of a start.
#[derive(Debug, PartialEq, Eq)]
pub struct StartParam {
    /// The working directory.
    pub word_dir: PathBuf,
    /// The configuration file that was asked for, if one was.
    pub conf_file: Option<PathBuf>,
    /// Whether only an initial configuration file is to be written.
    pub init: bool,
}

/// The configuration file to use: the one that was asked for; else the
/// first that is there of the system's, the working directory's and the
/// user's; else the working directory's, though it is not there.
pub open spec fn config_file_spec(
    asked: Option<PathBuf>,
    system: Option<PathBuf>,
    local: PathBuf,
    local_found: bool,
    home: Option<PathBuf>,
) -> PathBuf {
    match asked {
        Some(file) => file,
        None => match system {
            Some(file) => file,
            None => if local_found {
                local
            } else {
                match home {
                    Some(file) => file,
                    None => local,
                }
            },
        },
    }
}

impl StartParam {
    /// The configuration file to use. `system` and `home` are the
    /// system's and the user's configuration files where they are there,
    /// `local` is the working directory's, and `local_found` says whether
    /// that one is there.
    pub fn get_config_file(
        &self,
        system: Option<PathBuf>,
        local: PathBuf,
        local_found: bool,
        home: Option<PathBuf>,
    ) -> (file: PathBuf)
        ensures
            file == config_file_spec(self.conf_file, system, local, local_found, home),
    {
        if let Some(file) = &self.conf_file {
            return file.clone();
        }
        if let Some(file) = system {
            return file;
        }
        if local_found {
            return local;
        }
        match home {
            Some(file) => file,
            None => local,
        }
    }
}

} // verus!
