//! The loaded configuration file, and what a lookup of one key in it gives.

use std::io::Write;
use vstd::prelude::*;
use yaml_rust::Yaml;

verus! {

#[verifier::external_type_specification]
#[verifier::external_body]
pub struct ExYaml(Yaml);

/// What the string keys of a YAML document hold, seen as a map from each such
/// key that has a value to `Some(b)` where the value is the boolean `b`, and to
/// `None` where it has another type. A document that is not a mapping has no
/// keys.
pub uninterp spec fn yaml_entries(doc: Yaml) -> Map<Seq<char>, Option<bool>>;

/// What one key of a configuration document holds.
#[derive(Clone, Copy, Debug, PartialEq, Eq, Structural)]
pub enum ConfigEntry {
    /// The key is not in the document.
    Absent,
    /// The key holds a boolean.
    Boolean(bool),
    /// The key holds a value of another type.
    Other,
}

/// The entry at `key` of a document whose keys hold `entries`.
pub open spec fn entry_at(entries: Map<Seq<char>, Option<bool>>, key: Seq<char>) -> ConfigEntry {
    if !entries.contains_key(key) {
        ConfigEntry::Absent
    } else {
        match entries[key] {
            Some(b) => ConfigEntry::Boolean(b),
            None => ConfigEntry::Other,
        }
    }
}

/// Relies on yaml_rust's `Index<&str>` for `Yaml`: it gives the value that a
/// hash holds at the string key, and `BadValue` where there is none or the
/// document is not a hash.
#[verifier::external_body]
fn lookup(doc: &Yaml, key: &str) -> (r: ConfigEntry)
    ensures
        r == entry_at(yaml_entries(*doc), key@),
{
    match &doc[key] {
        Yaml::BadValue => ConfigEntry::Absent,
        Yaml::Boolean(b) => ConfigEntry::Boolean(*b),
        _ => ConfigEntry::Other,
    }
}

/// The configuration file as loaded: its path, and its document where one was
/// found and parsed.
pub struct Config {
    pub file: String,
    pub yaml: Option<Yaml>,
}

/// The keys of the configuration's document, where it has one.
pub open spec fn document_of(config: Config) -> Option<Map<Seq<char>, Option<bool>>> {
    match config.yaml {
        Some(doc) => Some(yaml_entries(doc)),
        None => None,
    }
}

impl Config {
    /// A configuration without a document.
    pub fn with_none() -> (r: Self)
        ensures
            r.yaml is None,
            r.file@ == Seq::<char>::empty(),
    {
        Config { file: String::new(), yaml: None }
    }

    /// A configuration that holds `yaml`.
    pub fn with_yaml(yaml: Yaml) -> (r: Self)
        ensures
            r.yaml == Some(yaml),
            r.file@ == Seq::<char>::empty(),
    {
        Config { file: String::new(), yaml: Some(yaml) }
    }

    /// The entry at `key`, or `None` where there is no document.
    pub fn entry(&self, key: &str) -> (r: Option<ConfigEntry>)
        ensures
            r == match document_of(*self) {
                Some(entries) => Some(entry_at(entries, key@)),
                None => None,
            },
    {
        match &self.yaml {
            Some(doc) => Some(lookup(doc, key)),
            None => None,
        }
    }

    /// Relies on std's `writeln!` to standard error: tells the user that `key`
    /// of the configuration file does not hold a value of type `type_str`.
    #[verifier::external_body]
    pub(crate) fn print_wrong_type_warning(&self, key: &str, type_str: &str) {
        let _ = writeln!(
            std::io::stderr(),
            "lsd: config file {}: key {} has the wrong type, expected {}",
            self.file,
            key,
            type_str
        );
    }
}

} // verus!
