//! The parsed command line, as far as the flags read it.

use clap::ArgMatches;
use vstd::prelude::*;

verus! {

#[verifier::external_type_specification]
#[verifier::external_body]
pub struct ExArgMatches<'a>(ArgMatches<'a>);

/// The names of the arguments, and of the subcommand, that were given on the
/// parsed command line.
pub uninterp spec fn present_names(matches: ArgMatches) -> Set<Seq<char>>;

/// Relies on clap's `ArgMatches::is_present`: whether the argument, or the
/// subcommand, called `name` was given.
#[verifier::external_body]
pub(crate) fn is_present(matches: &ArgMatches, name: &str) -> (r: bool)
    ensures
        r == present_names(*matches).contains(name@),
{
    matches.is_present(name)
}

} // verus!
