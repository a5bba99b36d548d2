//! Resolution of the boolean behaviour flags of a directory lister.
//!
//! Each flag may be given on the command line, in the configuration file, or
//! not at all. The command line wins over the configuration file, which wins
//! over the flag's built-in default.

pub mod arguments;
pub mod config_file;
pub mod flags;
pub mod symlinks;
pub mod total_size;
