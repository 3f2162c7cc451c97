use easily::cmd::grep;
use easily::composer::{Composer, Require};
use easily::config::{parent_dir, path, try_parent_dir, Aliases, Config};
use easily::docker::network_exists;
use easily::projects::try_to_guess;
use easily::ssl::{domain_from_slug, project_name_to_domain};
use easily::text::{contains, replace_double_slash, trim};

fn composer(name: &str) -> Composer {
    Composer { name: name.to_string(), require: Require { php: "^8.1".to_string() } }
}

fn config_with(pairs: &[(&str, &str)]) -> Config {
    let mut aliases = Aliases::new();
    for (k, v) in pairs {
        aliases.insert(k, v);
    }
    Config { path: "/home/dev/code".to_string(), aliases }
}

#[test]
fn config_path_joins_home_and_relative_path() {
    assert_eq!(path("/home/dev", "ssl/rootCA.pem"), "/home/dev/.config/easily/ssl/rootCA.pem");
}

#[test]
fn config_path_collapses_double_slashes() {
    assert_eq!(path("/home/dev/", "/projects.json"), "/home/dev/.config/easily/projects.json");
    assert_eq!(path("/", "x"), "/.config/easily/x");
}

#[test]
fn replace_double_slash_scans_left_to_right() {
    let chars: Vec<char> = "a///b//c".chars().collect();
    assert_eq!(replace_double_slash(&chars), "a//b/c");
}

#[test]
fn trim_removes_unicode_whitespace() {
    assert_eq!(trim("  start\t\n"), "start");
    assert_eq!(trim("\u{3000}x y\u{a0}"), "x y");
    assert_eq!(trim("   "), "");
}

#[test]
fn contains_finds_substrings() {
    assert!(contains("bridge\neasily\nhost\n", "easily"));
    assert!(!contains("bridge\nhost\n", "easily"));
    assert!(contains("abc", ""));
    assert!(!contains("ab", "abc"));
}

#[test]
fn grep_reports_a_listed_network() {
    assert!(grep("\"bridge\"\n\"easily\"\n", "easily"));
    assert!(network_exists("\"bridge\"\n\"easily\"\n", "easily"));
    assert!(!network_exists("\"bridge\"\n\"host\"\n", "easily"));
}

#[test]
fn parent_dir_drops_the_last_component() {
    assert_eq!(parent_dir("/home/dev/code/shop"), "/home/dev/code");
    assert_eq!(parent_dir("/home"), "/");
    assert_eq!(try_parent_dir("/"), None);
    assert_eq!(try_parent_dir(""), None);
    assert_eq!(try_parent_dir("/a/b"), Some("/a".to_string()));
}

#[test]
fn default_config_uses_the_parent_folder() {
    let c = Config::default_in("/home/dev/code/shop").unwrap();
    assert_eq!(c.path, "/home/dev/code");
    assert!(c.aliases.entries().is_empty());
    assert!(Config::default_in("/").is_none());
}

#[test]
fn aliases_insert_then_get() {
    let mut a = Aliases::new();
    assert!(!a.contains_key("x"));
    a.insert("x", "1");
    a.insert("y", "2");
    a.insert("x", "3");
    assert!(a.contains_key("x"));
    assert_eq!(a.get("x"), Some("3".to_string()));
    assert_eq!(a.get("y"), Some("2".to_string()));
    assert_eq!(a.get("z"), None);
    assert_eq!(a.entries(), vec![("x".to_string(), "3".to_string()), ("y".to_string(), "2".to_string())]);
}

#[test]
fn guess_uses_the_recorded_alias() {
    let mut config = config_with(&[]);
    assert_eq!(try_to_guess(&composer(" s90dev/fidelis-elite\n"), &mut config), "fidelis");
    assert_eq!(config.aliases.get("s90dev/fidelis-elite"), Some("fidelis".to_string()));
    assert_eq!(config.path, "/home/dev/code");
}

#[test]
fn guess_keeps_a_name_without_alias() {
    let mut config = config_with(&[]);
    assert_eq!(try_to_guess(&composer("acme/shop "), &mut config), "acme/shop ");
}

#[test]
fn guess_uses_other_aliases() {
    let mut config = config_with(&[("acme/shop", "shop")]);
    assert_eq!(try_to_guess(&composer("acme/shop"), &mut config), "shop");
    assert_eq!(config.aliases.entries().len(), 2);
}

#[test]
fn guess_overrides_a_stale_fidelis_alias() {
    let mut config = config_with(&[("s90dev/fidelis-elite", "old")]);
    assert_eq!(try_to_guess(&composer("s90dev/fidelis-elite"), &mut config), "fidelis");
}

#[test]
fn domain_of_a_plain_name_is_the_name() {
    assert_eq!(project_name_to_domain("shop"), "shop");
}

#[test]
fn domain_of_a_package_name() {
    assert_eq!(project_name_to_domain("laravel/laravel"), "laravel.laravel");
    assert_eq!(project_name_to_domain("s90dev/fidelis-elite"), "fidelis-elite.s90dev");
    assert_eq!(project_name_to_domain("Acme/My Project/Api"), "my-project-api.Acme");
    assert_eq!(project_name_to_domain("acme/__Shop__"), "shop.acme");
}

#[test]
fn domain_from_slug_joins_with_a_dot() {
    assert_eq!(domain_from_slug("shop", "acme"), "shop.acme");
}

#[test]
fn domains_hold_no_slash() {
    for name in ["a/b/c", "x/", "/y", "vendor//pkg", "plain"] {
        assert!(!project_name_to_domain(name).contains('/'), "{name}");
    }
    assert_eq!(project_name_to_domain("/y"), "y.");
    assert_eq!(project_name_to_domain("x/"), ".x");
}
