use clap::{App, Arg, ArgMatches};
use lsd::config_file::Config;
use lsd::flags::Configurable;
use lsd::symlinks::NoSymlink;
use yaml_rust::{Yaml, YamlLoader};

fn matches_from(argv: Vec<&str>) -> ArgMatches<'static> {
    App::new("lsd")
        .arg(Arg::with_name("no-symlink").long("no-symlink").multiple(true))
        .arg(Arg::with_name("total-size").long("total-size").multiple(true))
        .get_matches_from_safe(argv)
        .unwrap()
}

fn load(yaml_string: &str) -> Yaml {
    YamlLoader::load_from_str(yaml_string).unwrap()[0].clone()
}

#[test]
fn symlinks_test_from_arg_matches_none() {
    let argv = vec!["lsd"];
    let matches = matches_from(argv);
    assert_eq!(None, NoSymlink::from_arg_matches(&matches));
}

#[test]
fn symlinks_test_from_arg_matches_true() {
    let argv = vec!["lsd", "--no-symlink"];
    let matches = matches_from(argv);
    assert_eq!(Some(NoSymlink(true)), NoSymlink::from_arg_matches(&matches));
}

#[test]
fn symlinks_test_from_config_none() {
    assert_eq!(None, NoSymlink::from_config(&Config::with_none()));
}

#[test]
fn symlinks_test_from_config_empty() {
    let yaml = load("---");
    assert_eq!(None, NoSymlink::from_config(&Config::with_yaml(yaml)));
}

#[test]
fn symlinks_test_from_config_true() {
    let yaml = load("no-symlink: true");
    assert_eq!(
        Some(NoSymlink(true)),
        NoSymlink::from_config(&Config::with_yaml(yaml))
    );
}

#[test]
fn symlinks_test_from_config_false() {
    let yaml = load("no-symlink: false");
    assert_eq!(
        Some(NoSymlink(false)),
        NoSymlink::from_config(&Config::with_yaml(yaml))
    );
}

#[test]
fn symlinks_default_is_false() {
    assert_eq!(NoSymlink(false), NoSymlink::default());
    assert_eq!(NoSymlink(false), NoSymlink::default_value());
}

#[test]
fn symlinks_nothing_given_resolves_to_default() {
    let matches = matches_from(vec!["lsd"]);
    assert_eq!(None, NoSymlink::from_arg_matches(&matches));
    assert_eq!(None, NoSymlink::from_config(&Config::with_none()));
    assert_eq!(
        NoSymlink(false),
        NoSymlink::configure_from(&matches, &Config::with_none())
    );
    let empty = Config::with_yaml(load("---"));
    assert_eq!(None, NoSymlink::from_config(&empty));
    assert_eq!(NoSymlink(false), NoSymlink::configure_from(&matches, &empty));
}

#[test]
fn symlinks_switch_wins_over_config() {
    let matches = matches_from(vec!["lsd", "--no-symlink"]);
    assert_eq!(
        NoSymlink(true),
        NoSymlink::configure_from(&matches, &Config::with_none())
    );
    let off = Config::with_yaml(load("no-symlink: false"));
    assert_eq!(NoSymlink(true), NoSymlink::configure_from(&matches, &off));
    let bad = Config::with_yaml(load("no-symlink: 3"));
    assert_eq!(NoSymlink(true), NoSymlink::configure_from(&matches, &bad));
}

#[test]
fn symlinks_config_used_without_switch() {
    let matches = matches_from(vec!["lsd"]);
    let on = Config::with_yaml(load("no-symlink: true"));
    assert_eq!(NoSymlink(true), NoSymlink::configure_from(&matches, &on));
}

#[test]
fn symlinks_other_key_is_ignored() {
    let matches = matches_from(vec!["lsd", "--total-size"]);
    assert_eq!(None, NoSymlink::from_arg_matches(&matches));
    let other = Config::with_yaml(load("total-size: true"));
    assert_eq!(None, NoSymlink::from_config(&other));
    assert_eq!(NoSymlink(false), NoSymlink::configure_from(&matches, &other));
}

#[test]
fn symlinks_wrong_type_falls_through() {
    let matches = matches_from(vec!["lsd"]);
    let bad = Config::with_yaml(load("no-symlink: [1, 2]"));
    assert_eq!(None, NoSymlink::from_config(&bad));
    assert_eq!(None, NoSymlink::from_config(&bad));
    assert_eq!(NoSymlink(false), NoSymlink::configure_from(&matches, &bad));
}

#[test]
fn symlinks_document_not_a_mapping() {
    let list = Config::with_yaml(load("- no-symlink\n- true"));
    assert_eq!(None, NoSymlink::from_config(&list));
    let scalar = Config::with_yaml(load("true"));
    assert_eq!(None, NoSymlink::from_config(&scalar));
}
