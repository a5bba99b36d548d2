//! The `TotalSize` flag: whether to show the total size of directories. It
//! comes from the command line, the configuration file, or its default, by way
//! of `Configurable::configure_from`.

use crate::arguments::is_present;
use crate::config_file::Config;
use crate::flags::{read_boolean, Configurable};
use clap::ArgMatches;
use vstd::prelude::*;

verus! {

/// The switch on the command line, and the key of the configuration file.
pub const TOTAL_SIZE: &'static str = "total-size";

/// The flag showing whether to show the total size of directories.
#[derive(Clone, Copy, Debug, PartialEq, Eq, Structural)]
pub struct TotalSize(pub bool);

impl Default for TotalSize {
    fn default() -> (r: Self)
        ensures
            r == TotalSize(false),
    {
        TotalSize(false)
    }
}

impl Configurable for TotalSize {
    open spec fn switch() -> Seq<char> {
        "total-size"@
    }

    open spec fn key() -> Seq<char> {
        "total-size"@
    }

    open spec fn default_bool() -> bool {
        false
    }

    open spec fn from_bool(b: bool) -> Self {
        TotalSize(b)
    }

    /// `Some(TotalSize(true))` where the "total-size" switch is given.
    fn from_arg_matches(matches: &ArgMatches) -> (r: Option<Self>) {
        proof {
            reveal_strlit("total-size");
        }
        if is_present(matches, TOTAL_SIZE) {
            Some(TotalSize(true))
        } else {
            None
        }
    }

    /// The boolean at "total-size" of the configuration's document, where
    /// there is one; a warning where the key holds another type.
    fn from_config(config: &Config) -> (r: Option<Self>) {
        proof {
            reveal_strlit("total-size");
        }
        match config.entry(TOTAL_SIZE) {
            Some(entry) => {
                let (value, warning) = read_boolean(TOTAL_SIZE, entry);
                if let Some(w) = warning {
                    config.print_wrong_type_warning(w.key, w.expected);
                }
                match value {
                    Some(b) => Some(TotalSize(b)),
                    None => None,
                }
            },
            None => None,
        }
    }

    fn default_value() -> (r: Self) {
        Self::default()
    }
}

} // verus!
