//! Fixed names and the places of the files.

use vstd::prelude::*;
use std::path::PathBuf;

pub mod tjurls;

verus! {

/// The name of the configuration file.
pub const CONFIG_FILENAME: &'static str = "config.toml";

/// Seconds after which a request is given up.
pub const TIMEOUT_SECS: u64 = 5;

/// Redirects that a request may follow.
pub const MAX_REDIRECTS: usize = 3;

/// `std::path::PathBuf`. Nothing inside it is visible here; paths are only
/// kept and handed back.
#[verifier::external_type_specification]
#[verifier::external_body]
pub struct ExPathBuf(PathBuf);

/// Where the configuration and the saved sessions are kept.
pub struct Dirs {
    config_dir: PathBuf,
    config_path: PathBuf,
    status_dir: PathBuf,
}

/// The places as the contracts see them.
pub struct DirsView {
    pub config_dir: PathBuf,
    pub config_path: PathBuf,
    pub state_dir: PathBuf,
}

impl View for Dirs {
    type V = DirsView;

    closed spec fn view(&self) -> DirsView {
        DirsView {
            config_dir: self.config_dir,
            config_path: self.config_path,
            state_dir: self.status_dir,
        }
    }
}

impl Dirs {
    /// The places, each as given.
    pub fn new(config_dir: PathBuf, config_path: PathBuf, state_dir: PathBuf) -> (r: Self)
        ensures
            r@ == (DirsView { config_dir, config_path, state_dir }),
    {
        Dirs { config_dir, config_path, status_dir: state_dir }
    }

    /// The directory of the configuration file.
    pub fn config_dir(&self) -> (r: &PathBuf)
        ensures
            *r == self@.config_dir,
    {
        &self.config_dir
    }

    /// The configuration file.
    pub fn config_path(&self) -> (r: &PathBuf)
        ensures
            *r == self@.config_path,
    {
        &self.config_path
    }

    /// The directory of the saved sessions.
    pub fn state_dir(&self) -> (r: &PathBuf)
        ensures
            *r == self@.state_dir,
    {
        &self.status_dir
    }
}

} // verus!
