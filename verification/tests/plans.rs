use easily::action::Action;
use easily::composer::{Composer, Require};
use easily::docker;
use easily::msg;
use easily::projects::{self, Host};
use easily::ssl;

fn s(x: &str) -> String {
    x.to_string()
}

fn args(xs: &[&str]) -> Vec<String> {
    xs.iter().map(|x| x.to_string()).collect()
}

fn host(fresh: bool) -> Host {
    Host {
        home: s("/home/dev"),
        uid: 1000,
        gid: 1001,
        projects_root: s("/home/dev/code"),
        current_dir: s("/home/dev/code/shop"),
        network_exists: !fresh,
        root_ca_exists: !fresh,
        csr_exists: !fresh,
        projects_config_exists: !fresh,
        compose_exists: !fresh,
    }
}

fn composer(php: &str) -> Composer {
    Composer { name: s("acme/shop"), require: Require { php: s(php) } }
}

#[test]
fn docker_start_brings_up_shared_then_project_services() {
    let plan = docker::start("/home/dev", "shop", "projects/shop/compose.yaml");
    assert_eq!(
        plan,
        vec![
            Action::RunChecked(
                s("docker"),
                args(&["compose", "-f", "/home/dev/.config/easily/projects/global-compose.yaml", "-p", "easily", "up", "-d"]),
            ),
            Action::RunChecked(
                s("docker"),
                args(&["compose", "-f", "/home/dev/.config/easily/projects/shop/compose.yaml", "-p", "shop-test", "up", "-d"]),
            ),
        ]
    );
}

#[test]
fn docker_stop_and_halt_kill_what_start_started() {
    assert_eq!(
        docker::stop("/home/dev", "shop", "projects/shop/compose.yaml"),
        vec![Action::RunChecked(
            s("docker"),
            args(&["compose", "-f", "/home/dev/.config/easily/projects/shop/compose.yaml", "-p", "shop-test", "kill"]),
        )]
    );
    assert_eq!(
        docker::halt("/home/dev"),
        vec![Action::RunChecked(
            s("docker"),
            args(&["compose", "-f", "/home/dev/.config/easily/projects/global-compose.yaml", "-p", "easily", "kill"]),
        )]
    );
    assert_eq!(docker::ps(), vec![Action::RunChecked(s("docker"), args(&["ps"]))]);
}

#[test]
fn network_is_created_only_when_missing() {
    assert_eq!(docker::create_network_if_it_doesnt_exist("easily", true), vec![]);
    assert_eq!(
        docker::create_network_if_it_doesnt_exist("easily", false),
        vec![
            Action::Say(s("easily network not found, creating it")),
            Action::Spawn(s("docker"), args(&["network", "create", "easily", "--attachable"])),
        ]
    );
    assert_eq!(docker::network_list_args(), args(&["network", "ls", "--format", "\"{{.Name}}\""]));
}

#[test]
fn messages_carry_their_label() {
    assert_eq!(msg::info("hi"), "\x1B[0;44m INFO \x1B[m hi");
    assert_eq!(msg::error("hi"), "\x1B[0;41m ERROR \x1B[m hi");
    assert_eq!(msg::success("hi"), "\x1B[0;30;42m SUCCESS \x1B[m hi");
    assert_eq!(msg::warning("hi"), "\x1B[0;30;43m WARN \x1B[m hi");
}

#[test]
fn certificates_for_a_fresh_project() {
    let plan = ssl::certs("/home/dev", "acme/shop", false, false);
    let c = "/home/dev/.config/easily/nginx/certs/";
    assert_eq!(plan.len(), 8);
    assert_eq!(plan[0], Action::MakeDir(s("/home/dev/.config/easily/ssl")));
    assert_eq!(
        plan[1],
        Action::RunQuiet(
            s("openssl"),
            args(&["genrsa", "-des3", "-passout", "pass:secret", "-out", "/home/dev/.config/easily/ssl/rootCA.key", "2048"]),
        )
    );
    assert_eq!(plan[3], Action::MakeDir(s("/home/dev/.config/easily/nginx/certs")));
    assert_eq!(
        plan[4],
        Action::RunQuiet(s("openssl"), args(&["genrsa", "-out", &format!("{c}shop.acme.test.key"), "2048"]))
    );
    assert_eq!(
        plan[6],
        Action::Write(format!("{c}shop.acme.ext"), ssl::ext_content("shop.acme"), None)
    );
    match &plan[7] {
        Action::RunQuiet(p, a) => {
            assert_eq!(p, "openssl");
            assert_eq!(a[3], format!("{c}shop.acme.test.csr"));
            assert_eq!(a[10], format!("{c}shop.acme.test.crt"));
            assert_eq!(a[15], format!("{c}shop.acme.ext"));
        }
        other => panic!("unexpected {:?}", other),
    }
    assert_eq!(ssl::csr_file("/home/dev", "acme/shop"), format!("{c}shop.acme.test.csr"));
    assert_eq!(ssl::root_pem("/home/dev"), "/home/dev/.config/easily/ssl/rootCA.pem");
}

#[test]
fn certificates_already_made() {
    let plan = ssl::certs("/home/dev", "acme/shop", true, true);
    assert_eq!(plan, vec![Action::MakeDir(s("/home/dev/.config/easily/nginx/certs"))]);
    assert_eq!(ssl::create_root_ca("/home/dev", true), vec![]);
    assert_eq!(ssl::create_root_ca("/home/dev", false).len(), 3);
}

#[test]
fn extension_file_names_the_test_host() {
    let ext = ssl::ext_content("shop.acme");
    assert!(ext.starts_with("authorityKeyIdentifier=keyid,issuer\nbasicConstraints=CA:FALSE\n"));
    assert!(ext.ends_with("[alt_names]\nDNS.1 = shop.acme.test"));
}

#[test]
fn certificate_and_site_name_the_same_host() {
    let domain = ssl::project_name_to_domain("acme/shop");
    let ext = ssl::ext_content(&domain);
    let site = easily::stubs::nginx::project("acme/shop");
    assert!(ext.contains("DNS.1 = shop.acme.test"));
    assert!(site.contains("server_name \"shop.acme.test\""));
}

#[test]
fn create_file_makes_the_folder_first() {
    assert_eq!(
        projects::create_file("/home/dev", "nginx/sites/shop.conf", s("x")),
        vec![
            Action::MakeDir(s("/home/dev/.config/easily/nginx/sites")),
            Action::Write(s("/home/dev/.config/easily/nginx/sites/shop.conf"), s("x"), Some(s("Error trying to write file"))),
        ]
    );
    assert_eq!(projects::create_folder("/a/b"), Action::MakeDir(s("/a")));
    assert_eq!(
        projects::create_folder("/"),
        Action::Fail(s("called `Option::unwrap()` on a `None` value"))
    );
}

#[test]
fn structure_of_a_fresh_environment() {
    let plan = projects::create_structure(&host(true));
    assert_eq!(plan.len(), 13);
    assert_eq!(
        plan[12],
        Action::Write(
            s("/home/dev/.config/easily/projects.json"),
            s("{\"aliases\": {}}"),
            Some(s("Error trying to write projects config file")),
        )
    );
    match &plan[11] {
        Action::Write(p, content, _) => {
            assert_eq!(p, "/home/dev/.config/easily/projects/global-compose.yaml");
            assert!(content.contains("- UID=1000\n                - GID=1001\n"));
            assert!(content.contains("- /home/dev/code:/var/www/html\n"));
        }
        other => panic!("unexpected {:?}", other),
    }
    assert_eq!(projects::create_structure(&host(false)).len(), 12);
}

#[test]
fn start_plan_in_order() {
    let plan = projects::start("acme/shop", &host(true));
    assert_eq!(plan.len(), 27);
    assert_eq!(plan[0], Action::Say(msg::info("Starting project acme/shop")));
    assert_eq!(plan[1], Action::Say(s("easily network not found, creating it")));
    assert_eq!(plan[26], Action::Say(s("")));
    let started = docker::start("/home/dev", "acme/shop", "projects/acme/shop/compose.yaml");
    assert_eq!(plan[24..26].to_vec(), started);
    assert_eq!(projects::start("acme/shop", &host(false)).len(), 1 + 12 + 1 + 2 + 1);
}

#[test]
fn stop_and_halt_plans() {
    let h = host(false);
    let stop = projects::stop("shop", &h);
    assert_eq!(stop[0], Action::Say(msg::info("Stopping project shop")));
    assert_eq!(stop[1..2].to_vec(), docker::stop("/home/dev", "shop", "projects/shop/compose.yaml"));
    assert_eq!(stop[2], Action::Say(s("")));
    let halt = projects::halt("shop", &h);
    assert_eq!(halt[0..1].to_vec(), docker::halt("/home/dev"));
    assert_eq!(halt[1..4].to_vec(), stop);
    assert_eq!(halt[4], Action::Say(s("")));
}

fn written_compose(plan: &[Action]) -> String {
    for a in plan {
        if let Action::Write(p, c, _) = a {
            if p.ends_with("/compose.yaml") {
                return c.clone();
            }
        }
    }
    panic!("no compose file written")
}

#[test]
fn create_uses_the_php_version_of_composer() {
    let plan = projects::create("acme/shop", &composer("^8.1"), &host(true));
    assert_eq!(plan[0], Action::Say(msg::info("Creating project acme/shop")));
    let compose = written_compose(&plan);
    assert!(compose.contains("dockerfile: ../../php/8.1/Dockerfile"));
    assert!(compose.contains("- 9000:9000"));
    assert!(compose.contains("- /home/dev/code/shop:/var/www/html"));
    assert_eq!(plan.last(), Some(&Action::Say(s(""))));
}

#[test]
fn create_takes_the_last_alternative() {
    let plan = projects::create("acme/shop", &composer("^7.4|^8.0"), &host(true));
    assert!(written_compose(&plan).contains("../../php/8.0/Dockerfile"));
    let plan = projects::create("acme/shop", &composer(">=8.2.1"), &host(true));
    assert!(written_compose(&plan).contains("../../php/8.2/Dockerfile"));
}

#[test]
fn create_keeps_an_existing_compose_file() {
    let plan = projects::create("acme/shop", &composer("^8.1"), &host(false));
    // say, certificate folder, site folder and file, two starts, blank line
    assert_eq!(plan.len(), 7);
    assert_eq!(
        plan[3],
        Action::Write(
            s("/home/dev/.config/easily/nginx/sites/acme/shop.conf"),
            easily::stubs::nginx::project("acme/shop"),
            Some(s("Error trying to write file")),
        )
    );
}

#[test]
fn create_stops_on_a_short_version() {
    let plan = projects::create("acme/shop", &composer("^8"), &host(false));
    assert_eq!(plan.len(), 3);
    assert!(matches!(plan[2], Action::Fail(_)));
}

#[test]
fn version_prefix_is_three_bytes() {
    assert_eq!(projects::php_version_prefix("8.1", false), Some(s("8.1")));
    assert_eq!(projects::php_version_prefix(" 8.10 ", true), Some(s("8.1")));
    assert_eq!(projects::php_version_prefix("8.", false), None);
    assert_eq!(projects::php_version_prefix("8.\u{e9}", false), None);
    assert_eq!(projects::php_version_prefix("\u{e9}a", false), Some(s("\u{e9}a")));
}

#[test]
fn compose_file_location() {
    assert_eq!(projects::compose_file("shop"), "projects/shop/compose.yaml");
    assert_eq!(projects::projects_config_file("/home/dev"), "/home/dev/.config/easily/projects.json");
}

#[test]
fn php_version_of_composer_constraints() {
    assert_eq!(projects::get_php_version_from_composer("^8.1"), "8.1");
    assert_eq!(projects::get_php_version_from_composer("~8.2.0"), "8.2");
    assert_eq!(projects::get_php_version_from_composer("^7.4|^8.0"), "8.0");
    assert_eq!(projects::get_php_version_from_composer("^7.4 || ^8.2"), "8.2");
    assert_eq!(projects::try_php_version("^7.3 || ^8.1"), Some(s("8.1")));
    assert_eq!(projects::try_php_version(">=8"), None);
    assert_eq!(projects::try_php_version("*"), None);
    assert_eq!(projects::try_php_version("^8.1|"), None);
    assert_eq!(projects::try_php_version(""), None);
}
