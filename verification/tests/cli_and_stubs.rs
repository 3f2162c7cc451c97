use easily::cli::{help_text, init_answer, init_prompt, missing_folder_message, parse_command, Command};
use easily::stubs::{docker, nginx, php};

fn argv(xs: &[&str]) -> Vec<String> {
    xs.iter().map(|x| x.to_string()).collect()
}

#[test]
fn no_argument_asks_for_help() {
    assert_eq!(parse_command(&argv(&["easily"])), Command::Help);
    assert_eq!(parse_command(&argv(&["easily", "remove"])), Command::Help);
}

#[test]
fn commands_are_trimmed() {
    assert_eq!(parse_command(&argv(&["easily", " create "])), Command::Create);
    assert_eq!(parse_command(&argv(&["easily", "stop"])), Command::Stop);
    assert_eq!(parse_command(&argv(&["easily", "init"])), Command::Init);
    assert_eq!(parse_command(&argv(&["easily", "halt"])), Command::Halt);
}

#[test]
fn start_takes_an_optional_project() {
    assert_eq!(parse_command(&argv(&["easily", "start"])), Command::Start(None));
    assert_eq!(
        parse_command(&argv(&["easily", "start", " shop\n"])),
        Command::Start(Some("shop".to_string()))
    );
}

#[test]
fn help_lists_the_commands() {
    let h = help_text();
    assert!(h.starts_with("Usage: easily [start|stop|create|remove] <project>\n"));
    assert!(h.ends_with("- help\t\t\t Shows this help message\n\n"));
    assert_eq!(h.lines().count(), 8);
}

#[test]
fn init_texts() {
    assert_eq!(init_prompt("/home/dev"), "Plase, input the folder where your projects are stored: (/home/dev)");
    assert_eq!(init_answer("/home/dev", "\n"), "/home/dev");
    assert_eq!(init_answer("/home/dev", "/code\n"), "/home/dev/code");
    assert_eq!(missing_folder_message("/nope"), "Path \"/nope\" doesn't exist!");
}

#[test]
fn nginx_files() {
    assert!(nginx::dockerfile().starts_with("FROM nginx:stable-alpine\n"));
    assert!(nginx::dockerfile().ends_with("RUN mkdir -p /var/www/html"));
    assert!(nginx::default().ends_with("include sites/*.conf;\n"));
    assert!(nginx::include_redirect().contains("return 301 https://$host$request_uri;"));
    assert!(nginx::include_laravel().contains("fastcgi_pass php:9000;"));
}

#[test]
fn nginx_site_of_a_project() {
    let site = nginx::project("acme/shop");
    assert!(site.starts_with("server {\n    listen 443 ssl http2;\n"));
    assert!(site.contains("    server_name \"shop.acme.test\";\n"));
    assert!(site.contains("ssl_certificate /etc/nginx/certs/acme/shop.crt;"));
    assert!(site.contains("fastcgi_pass acme/shop-php:9000;"));
    assert!(site.contains("location ~ \\\\.php$ {"));
    assert!(site.ends_with("}\n"));
}

#[test]
fn php_images() {
    assert!(php::dockerfile81().starts_with("FROM php:8.1-fpm-alpine\n"));
    assert!(php::dockerfile82().starts_with("FROM php:8.2-fpm-alpine\n"));
    assert!(php::dockerfile82().ends_with("CMD [\"php-fpm\", \"-y\", \"/usr/local/etc/php-fpm.conf\", \"-R\"]\n"));
}

#[test]
fn compose_files() {
    let g = docker::compose_global(0, 20, "/srv");
    assert!(g.starts_with("networks:\n    easily:\n        external: true\n"));
    assert!(g.contains("- UID=0\n                - GID=20\n"));
    assert!(g.contains("MYSQL_DATABASE: easily\n"));
    assert!(g.contains("CREATE DATABASE IF NOT EXISTS easily_testing;"));
    assert!(g.contains("\"sh -c \\\"\n"));
    let p = docker::compose("8.2", "shop", 4294967295, 7, "/srv/shop");
    assert!(p.contains("dockerfile: ../../php/8.2/Dockerfile\n            args:\n                - UID=4294967295\n                - GID=7\n"));
    assert!(p.contains("entrypoint: [ 'php', '/var/www/html/artisan' ]"));
}
