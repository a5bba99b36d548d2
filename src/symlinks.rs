//! The `NoSymlink` flag: whether not to follow symbolic links. It comes from
//! the command line, the configuration file, or its default, by way of
//! `Configurable::configure_from`.

use crate::arguments::is_present;
use crate::config_file::Config;
use crate::flags::{read_boolean, Configurable};
use clap::ArgMatches;
use vstd::prelude::*;

verus! {

/// The switch on the command line, and the key of the configuration file.
pub const NO_SYMLINK: &'static str = "no-symlink";

/// The flag showing whether not to follow symbolic links.
#[derive(Clone, Copy, Debug, PartialEq, Eq, Structural)]
pub struct NoSymlink(pub bool);

impl Default for NoSymlink {
    fn default() -> (r: Self)
        ensures
            r == NoSymlink(false),
    {
        NoSymlink(false)
    }
}

impl Configurable for NoSymlink {
    open spec fn switch() -> Seq<char> {
        "no-symlink"@
    }

    open spec fn key() -> Seq<char> {
        "no-symlink"@
    }

    open spec fn default_bool() -> bool {
        false
    }

    open spec fn from_bool(b: bool) -> Self {
        NoSymlink(b)
    }

    /// `Some(NoSymlink(true))` where the "no-symlink" switch is given.
    fn from_arg_matches(matches: &ArgMatches) -> (r: Option<Self>) {
        proof {
            reveal_strlit("no-symlink");
        }
        if is_present(matches, NO_SYMLINK) {
            Some(NoSymlink(true))
        } else {
            None
        }
    }

    /// The boolean at "no-symlink" of the configuration's document, where
    /// there is one; a warning where the key holds another type.
    fn from_config(config: &Config) -> (r: Option<Self>) {
        proof {
            reveal_strlit("no-symlink");
        }
        match config.entry(NO_SYMLINK) {
            Some(entry) => {
                let (value, warning) = read_boolean(NO_SYMLINK, entry);
                if let Some(w) = warning {
                    config.print_wrong_type_warning(w.key, w.expected);
                }
                match value {
                    Some(b) => Some(NoSymlink(b)),
                    None => None,
                }
            },
            None => None,
        }
    }

    fn default_value() -> (r: Self) {
        Self::default()
    }
}

} // verus!
