//! The nginx image and its configuration files.

use vstd::prelude::*;
use crate::ssl::{domain_of, project_name_to_domain};
use crate::text::push_str;

verus! {

/// The main nginx configuration: redirect to HTTPS, the TLS domain map, and the project sites.
pub const DEFAULT_CONF: &'static str = "include include/https-redirect.conf;\nmap $ssl_server_name $ssl_domain_name {\n    volatile;\n    hostnames;\n    default 'localhost.test';\n    ~^(?<domain>[^.]+)\\.test$ $domain.test;\n}\n\ninclude sites/*.conf;\n";

/// The main nginx configuration file.
pub fn default() -> (res: String)
    ensures
        res@ == DEFAULT_CONF@,
{
    DEFAULT_CONF.to_owned()
}

/// The Dockerfile of the nginx image.
pub const DOCKERFILE: &'static str = "FROM nginx:stable-alpine\n\nARG UID\nARG GID\n\nENV UID=${UID}\nENV GID=${GID}\n\n# MacOS staff group's gid is 20, so is the dialout group in alpine linux. We're not using it, let's just remove it.\nRUN delgroup dialout\n\nRUN addgroup -g ${GID} --system laravel\nRUN adduser -G laravel --system -D -s /bin/sh -u ${UID} laravel\nRUN sed -i \"s/user  nginx/user laravel/g\" /etc/nginx/nginx.conf\n\nRUN mkdir -p /var/www/html";

/// The Dockerfile of the nginx image.
pub fn dockerfile() -> (res: String)
    ensures
        res@ == DOCKERFILE@,
{
    DOCKERFILE.to_owned()
}

/// The nginx server that redirects plain HTTP to HTTPS.
pub const HTTPS_REDIRECT: &'static str = "server {\n    listen 80 default_server;\n    server_name _;\n    return 301 https://$host$request_uri;\n}";

/// The nginx include that redirects plain HTTP to HTTPS.
pub fn include_redirect() -> (res: String)
    ensures
        res@ == HTTPS_REDIRECT@,
{
    HTTPS_REDIRECT.to_owned()
}

/// The nginx server settings of a Laravel application.
pub const LARAVEL_CONF: &'static str = "listen 443 ssl http2;\nlisten [::]:443 ssl http2;\nserver_name \"~^(?<app>.+)\\.test\";\nindex index.php index.html;\nroot /var/www/html/public;\n\nlocation / {\n    try_files $uri $uri/ /index.php?$query_string;\n}\n\nssl_certificate /etc/nginx/certs/$ssl_domain_name.crt;\nssl_certificate_key /etc/nginx/certs/$ssl_domain_name.key;\n\nlocation ~ \\.php$ {\n    try_files $uri =404;\n    fastcgi_split_path_info ^(.+\\.php)(/.+)$;\n    fastcgi_pass php:9000;\n    fastcgi_index index.php;\n    include fastcgi_params;\n    fastcgi_param SCRIPT_FILENAME $document_root$fastcgi_script_name;\n    fastcgi_param PATH_INFO $fastcgi_path_info;\n}";

/// The nginx include with the settings of a Laravel application.
pub fn include_laravel() -> (res: String)
    ensures
        res@ == LARAVEL_CONF@,
{
    LARAVEL_CONF.to_owned()
}

/// Part 1 of the text of `project`.
pub const SITE_0: &'static str = "server {\n    listen 443 ssl http2;\n    listen [::]:443 ssl http2;\n    ";

/// Part 2 of the text of `project`.
pub const SITE_1: &'static str = ";\n    index index.php index.html;\n    root /var/www/html/fidelis/public;\n\n    location / {\n        try_files $uri $uri/ /index.php?$query_string;\n    }\n\n    ssl_certificate /etc/nginx/certs/";

/// Part 3 of the text of `project`.
pub const SITE_2: &'static str = ".crt;\n    ssl_certificate_key /etc/nginx/certs/";

/// Part 4 of the text of `project`.
pub const SITE_3: &'static str = ".key;\n\n    location ~ \\\\.php$ {\n        try_files $uri =404;\n        fastcgi_split_path_info ^(.+\\.php)(/.+)$;\n        fastcgi_pass ";

/// Part 5 of the text of `project`.
pub const SITE_4: &'static str = "-php:9000;\n        fastcgi_index index.php;\n        include fastcgi_params;\n        fastcgi_param SCRIPT_FILENAME $document_root$fastcgi_script_name;\n        fastcgi_param PATH_INFO $fastcgi_path_info;\n    }\n}\n";

/// The directive that names the host an nginx site serves: `{domain}.test`.
pub open spec fn server_name_line(domain: Seq<char>) -> Seq<char> {
    "server_name \""@ + domain + ".test\""@
}

/// The nginx site of a project named `name` whose domain is `domain`.
pub open spec fn site_text(domain: Seq<char>, name: Seq<char>) -> Seq<char> {
    SITE_0@ + server_name_line(domain) + SITE_1@ + name + SITE_2@ + name + SITE_3@ + name + SITE_4@
}

/// The nginx site of project `name`, served as `{domain}.test` where the
/// domain is that of `project_name_to_domain`.
pub fn project(name: &str) -> (res: String)
    ensures
        res@ == site_text(domain_of(name@), name@),
{
    let domain = project_name_to_domain(name);
    let mut res = SITE_0.to_owned();
    let mut server_name = "server_name \"".to_owned();
    push_str(&mut server_name, domain.as_str());
    push_str(&mut server_name, ".test\"");
    push_str(&mut res, server_name.as_str());
    push_str(&mut res, SITE_1);
    push_str(&mut res, name);
    push_str(&mut res, SITE_2);
    push_str(&mut res, name);
    push_str(&mut res, SITE_3);
    push_str(&mut res, name);
    push_str(&mut res, SITE_4);
    res
}

} // verus!
