//! The protocol that every flag follows to find its value: the command line
//! first, then the configuration file, then the flag's default.

use crate::arguments::present_names;
use crate::config_file::{document_of, entry_at, Config, ConfigEntry};
use clap::ArgMatches;
use vstd::prelude::*;

verus! {

/// What the command line sets: `true` where `switch` is among the names given
/// on it, and nothing otherwise.
pub open spec fn arg_bool(names: Set<Seq<char>>, switch: Seq<char>) -> Option<bool> {
    if names.contains(switch) {
        Some(true)
    } else {
        None
    }
}

/// The boolean that an entry holds.
pub open spec fn boolean_of(entry: ConfigEntry) -> Option<bool> {
    match entry {
        ConfigEntry::Boolean(b) => Some(b),
        _ => None,
    }
}

/// What the configuration document sets: the boolean at `key`, and nothing
/// where there is no document, the key is not in it, or it holds another type.
pub open spec fn config_bool(doc: Option<Map<Seq<char>, Option<bool>>>, key: Seq<char>) -> Option<bool> {
    match doc {
        Some(entries) => boolean_of(entry_at(entries, key)),
        None => None,
    }
}

/// The first of the command line's value, the configuration's value and the
/// default that is there.
pub open spec fn resolve_bool(
    names: Set<Seq<char>>,
    doc: Option<Map<Seq<char>, Option<bool>>>,
    switch: Seq<char>,
    key: Seq<char>,
    default: bool,
) -> bool {
    match arg_bool(names, switch) {
        Some(b) => b,
        None => match config_bool(doc, key) {
            Some(b) => b,
            None => default,
        },
    }
}

/// A boolean flag that can be set by a switch on the command line, by a key of
/// the configuration file, or left at its default.
pub trait Configurable: Sized {
    /// The name of the command-line switch that turns the flag on.
    spec fn switch() -> Seq<char>;

    /// The configuration key that holds the flag's boolean.
    spec fn key() -> Seq<char>;

    /// The boolean that the flag holds by default.
    spec fn default_bool() -> bool;

    /// The flag holding `b`.
    spec fn from_bool(b: bool) -> Self;

    /// The flag as the command line sets it, or `None` where the switch is
    /// not given.
    fn from_arg_matches(matches: &ArgMatches) -> (r: Option<Self>)
        ensures
            r == match arg_bool(present_names(*matches), Self::switch()) {
                Some(b) => Some(Self::from_bool(b)),
                None => None,
            },
    ;

    /// The flag as the configuration file sets it, or `None` where there is no
    /// document or the key is not there. A key that holds something other than
    /// a boolean gives `None` too, and a warning naming the key.
    fn from_config(config: &Config) -> (r: Option<Self>)
        ensures
            r == match config_bool(document_of(*config), Self::key()) {
                Some(b) => Some(Self::from_bool(b)),
                None => None,
            },
    ;

    /// The flag's default.
    fn default_value() -> (r: Self)
        ensures
            r == Self::from_bool(Self::default_bool()),
    ;

    /// The flag's value: the command line's where the switch is given, else
    /// the configuration file's where it holds a boolean, else the default.
    fn configure_from(matches: &ArgMatches, config: &Config) -> (r: Self)
        ensures
            r == Self::from_bool(
                resolve_bool(
                    present_names(*matches),
                    document_of(*config),
                    Self::switch(),
                    Self::key(),
                    Self::default_bool(),
                ),
            ),
    {
        match Self::from_arg_matches(matches) {
            Some(value) => value,
            None => match Self::from_config(config) {
                Some(value) => value,
                None => Self::default_value(),
            },
        }
    }
}

/// A warning that a configuration key holds a value of another type than the
/// one expected.
#[derive(Clone, Copy, Debug, PartialEq, Eq)]
pub struct WrongType<'a> {
    pub key: &'a str,
    pub expected: &'a str,
}

/// Reads the boolean entry at `key`: gives the boolean where there is one,
/// and a warning naming the key and the type "boolean" where the key holds
/// another type.
pub fn read_boolean<'a>(key: &'a str, entry: ConfigEntry) -> (r: (Option<bool>, Option<WrongType<'a>>))
    ensures
        r.0 == boolean_of(entry),
        r.1 is Some <==> entry is Other,
        r.1 is Some ==> r.1->0.key@ == key@ && r.1->0.expected@ == "boolean"@,
{
    match entry {
        ConfigEntry::Absent => (None, None),
        ConfigEntry::Boolean(b) => (Some(b), None),
        ConfigEntry::Other => {
            proof {
                reveal_strlit("boolean");
            }
            (None, Some(WrongType { key, expected: "boolean" }))
        },
    }
}

/// Where the switch is on the command line, the flag is on, whatever the
/// configuration document holds or whether there is one.
pub proof fn lemma_switch_takes_precedence(
    names: Set<Seq<char>>,
    doc: Option<Map<Seq<char>, Option<bool>>>,
    other: Option<Map<Seq<char>, Option<bool>>>,
    switch: Seq<char>,
    key: Seq<char>,
    default: bool,
)
    requires
        names.contains(switch),
    ensures
        resolve_bool(names, doc, switch, key, default),
        resolve_bool(names, doc, switch, key, default) == resolve_bool(names, other, switch, key, default),
{
}

/// Where the switch is not on the command line, and there is no document or
/// the key is not in it, the flag takes its default.
pub proof fn lemma_falls_back_to_default(
    names: Set<Seq<char>>,
    doc: Option<Map<Seq<char>, Option<bool>>>,
    switch: Seq<char>,
    key: Seq<char>,
    default: bool,
)
    requires
        !names.contains(switch),
        doc is None || !doc->0.contains_key(key),
    ensures
        resolve_bool(names, doc, switch, key, default) == default,
{
}

/// A key that holds something other than a boolean sets nothing: the
/// configuration gives `None`, a warning is due, and without the switch the
/// flag takes its default.
pub proof fn lemma_wrong_type_sets_nothing(
    names: Set<Seq<char>>,
    entries: Map<Seq<char>, Option<bool>>,
    switch: Seq<char>,
    key: Seq<char>,
    default: bool,
)
    requires
        entries.contains_key(key),
        entries[key] is None,
    ensures
        entry_at(entries, key) is Other,
        config_bool(Some(entries), key) is None,
        !names.contains(switch) ==> resolve_bool(names, Some(entries), switch, key, default) == default,
{
}

/// Reading the configuration is repeatable: two configurations with the same
/// document give the same value at a key, a malformed one `None` each time.
pub proof fn lemma_config_repeatable(first: Config, second: Config, key: Seq<char>)
    requires
        first.yaml == second.yaml,
    ensures
        config_bool(document_of(first), key) == config_bool(document_of(second), key),
{
}

} // verus!
