//! The compose files of the shared services and of each project.

use vstd::prelude::*;
use crate::text::{decimal, occurs_at, push_decimal, push_str};

verus! {

/// Part 1 of the text of `compose_global`.
pub const GLOBAL_0: &'static str = "networks:\n    easily:\n        external: true\n\nservices:\n    nginx:\n        build:\n            context: .\n            dockerfile: ../nginx/Dockerfile\n            args:\n                ";

/// Part 2 of the text of `compose_global`.
pub const GLOBAL_1: &'static str = "\n        ports:\n            - \"80:80\"\n            - \"443:443\"\n        volumes:\n            - ../nginx/conf.d:/etc/nginx/conf.d/\n            - ../nginx/includes:/etc/nginx/include\n            - ../nginx/certs:/etc/nginx/certs\n            - ../nginx/sites:/etc/nginx/sites\n            ";

/// Part 3 of the text of `compose_global`.
pub const GLOBAL_2: &'static str = "\n        networks:\n            - easily\n\n    mysql:\n        image: mysql:8\n        tty: true\n        ports:\n            - \"3306:3306\"\n        environment:\n            MYSQL_DATABASE: easily\n            MYSQL_ROOT_PASSWORD: secret\n            SERVICE_TAGS: dev\n            SERVICE_NAME: mysql\n        entrypoint:\n            \"sh -c \\\"\n            echo 'SET GLOBAL local_infile=1; CREATE DATABASE IF NOT EXISTS easily; CREATE DATABASE IF NOT EXISTS easily_testing;' > /docker-entrypoint-initdb.d/init.sql;\n            /usr/local/bin/docker-entrypoint.sh --character-set-server=utf8mb4 --collation-server=utf8mb4_unicode_ci\n            \\\"\"\n        networks:\n            - easily\n\n    redis:\n        image: redis:alpine\n        ports:\n            - \"6379:6379\"\n        networks:\n            - easily\n\n    mailhog:\n        image: mailhog/mailhog:latest\n        ports:\n            - \"1025:1025\"\n            - \"8025:8025\"\n        networks:\n            - easily\n";

/// The compose file of the shared services (nginx, MySQL, Redis, MailHog)
/// for the user and group ids `uid` and `gid`, serving the projects folder
/// `server_root`.
pub open spec fn global_compose_text(uid: nat, gid: nat, server_root: Seq<char>) -> Seq<char> {
    GLOBAL_0@ + ids_line(uid, gid) + GLOBAL_1@ + volume_line(server_root) + GLOBAL_2@
}

/// The compose file of the shared services, for the user and group ids
/// `uid` and `gid` and the projects folder `server_root`.
pub fn compose_global(uid: u32, gid: u32, server_root: &str) -> (res: String)
    ensures
        res@ == global_compose_text(uid as nat, gid as nat, server_root@),
{
    let ids = ids(uid, gid);
    let volume = volume(server_root);
    let mut res = GLOBAL_0.to_owned();
    push_str(&mut res, ids.as_str());
    push_str(&mut res, GLOBAL_1);
    push_str(&mut res, volume.as_str());
    push_str(&mut res, GLOBAL_2);
    res
}

/// Part 1 of the text of `compose`.
pub const PROJECT_0: &'static str = "networks:\n    easily:\n        external: true\n\nservices:\n    php:\n        build:\n            context: .\n            ";

/// Part 2 of the text of `compose`.
pub const PROJECT_1: &'static str = "\n            args:\n                ";

/// Part 3 of the text of `compose`.
pub const PROJECT_2: &'static str = "\n        ports:\n            - 9000:9000\n        volumes:\n            ";

/// Part 4 of the text of `compose`.
pub const PROJECT_3: &'static str = "\n        networks:\n            - easily\n\n    composer:\n        build:\n            context: .\n            ";

/// Part 5 of the text of `compose`.
pub const PROJECT_4: &'static str = "\n            args:\n                ";

/// Part 6 of the text of `compose`.
pub const PROJECT_5: &'static str = "\n        volumes:\n            ";

/// Part 7 of the text of `compose`.
pub const PROJECT_6: &'static str = "\n        depends_on:\n            - php\n        entrypoint: [ 'composer', '--ignore-platform-reqs' ]\n        networks:\n            - easily\n\n    npm:\n        image: node:current-alpine\n        volumes:\n            ";

/// Part 8 of the text of `compose`.
pub const PROJECT_7: &'static str = "\n        ports:\n            - \"3000:3000\"\n            - \"3001:3001\"\n            - \"5173:5173\"\n        working_dir: /var/www/html\n        entrypoint: [ 'npm', 'run', 'watch' ]\n        networks:\n            - easily\n\n    artisan:\n        build:\n            context: .\n            ";

/// Part 9 of the text of `compose`.
pub const PROJECT_8: &'static str = "\n            args:\n                ";

/// Part 10 of the text of `compose`.
pub const PROJECT_9: &'static str = "\n        volumes:\n            ";

/// Part 11 of the text of `compose`.
pub const PROJECT_10: &'static str = "\n        depends_on:\n            - php\n        entrypoint: [ 'php', '/var/www/html/artisan' ]\n        networks:\n            - easily\n";

/// The build file line of a service built on the PHP image `php`.
pub open spec fn build_file_line(php: Seq<char>) -> Seq<char> {
    "dockerfile: ../../php/"@ + php + "/Dockerfile"@
}

/// The build arguments that set the user and group ids of a service.
pub open spec fn ids_line(uid: nat, gid: nat) -> Seq<char> {
    "- UID="@ + decimal(uid) + "\n                - GID="@ + decimal(gid)
}

/// The volume line that mounts `server_root` as the web root.
pub open spec fn volume_line(server_root: Seq<char>) -> Seq<char> {
    "- "@ + server_root + ":/var/www/html"@
}

/// The compose file of a project (PHP, Composer, npm, Artisan) built on the
/// PHP image `php`, for the user and group ids `uid` and `gid`, serving the
/// project folder `server_root`.
pub open spec fn project_compose_text(
    php: Seq<char>,
    uid: nat,
    gid: nat,
    server_root: Seq<char>,
) -> Seq<char> {
    PROJECT_0@ + build_file_line(php) + PROJECT_1@ + ids_line(uid, gid) + PROJECT_2@
        + volume_line(server_root) + PROJECT_3@ + build_file_line(php) + PROJECT_4@
        + ids_line(uid, gid) + PROJECT_5@ + volume_line(server_root) + PROJECT_6@
        + volume_line(server_root) + PROJECT_7@ + build_file_line(php) + PROJECT_8@
        + ids_line(uid, gid) + PROJECT_9@ + volume_line(server_root) + PROJECT_10@
}

fn build_file(php: &str) -> (res: String)
    ensures
        res@ == build_file_line(php@),
{
    let mut res = "dockerfile: ../../php/".to_owned();
    push_str(&mut res, php);
    push_str(&mut res, "/Dockerfile");
    res
}

fn ids(uid: u32, gid: u32) -> (res: String)
    ensures
        res@ == ids_line(uid as nat, gid as nat),
{
    let mut res = "- UID=".to_owned();
    push_decimal(&mut res, uid);
    push_str(&mut res, "\n                - GID=");
    push_decimal(&mut res, gid);
    res
}

fn volume(server_root: &str) -> (res: String)
    ensures
        res@ == volume_line(server_root@),
{
    let mut res = "- ".to_owned();
    push_str(&mut res, server_root);
    push_str(&mut res, ":/var/www/html");
    res
}

/// The compose file of project `_name` on the PHP image version `php`, for
/// the user and group ids `uid` and `gid` and the project folder
/// `server_root`; the project's name plays no part in it.
pub fn compose(php: &str, _name: &str, uid: u32, gid: u32, server_root: &str) -> (res: String)
    ensures
        res@ == project_compose_text(php@, uid as nat, gid as nat, server_root@),
{
    let build = build_file(php);
    let ids = ids(uid, gid);
    let volume = volume(server_root);
    let mut res = PROJECT_0.to_owned();
    push_str(&mut res, build.as_str());
    push_str(&mut res, PROJECT_1);
    push_str(&mut res, ids.as_str());
    push_str(&mut res, PROJECT_2);
    push_str(&mut res, volume.as_str());
    push_str(&mut res, PROJECT_3);
    push_str(&mut res, build.as_str());
    push_str(&mut res, PROJECT_4);
    push_str(&mut res, ids.as_str());
    push_str(&mut res, PROJECT_5);
    push_str(&mut res, volume.as_str());
    push_str(&mut res, PROJECT_6);
    push_str(&mut res, volume.as_str());
    push_str(&mut res, PROJECT_7);
    push_str(&mut res, build.as_str());
    push_str(&mut res, PROJECT_8);
    push_str(&mut res, ids.as_str());
    push_str(&mut res, PROJECT_9);
    push_str(&mut res, volume.as_str());
    push_str(&mut res, PROJECT_10);
    res
}

/// `pat` occurs right after `pre` in `pre + pat`.
proof fn lemma_occurs_after(pre: Seq<char>, pat: Seq<char>)
    ensures
        occurs_at(pre + pat, pat, pre.len() as int),
{
    assert((pre + pat).subrange(pre.len() as int, (pre.len() + pat.len()) as int) =~= pat);
}

/// An occurrence stays where it is when text is appended.
proof fn lemma_occurs_extend(s: Seq<char>, pat: Seq<char>, i: int, x: Seq<char>)
    requires
        occurs_at(s, pat, i),
    ensures
        occurs_at(s + x, pat, i),
{
    assert((s + x).subrange(i, i + pat.len()) =~= s.subrange(i, i + pat.len()));
}

/// Where the build file, id and volume lines stand in a project's compose
/// file: the build file line of `php` and the id line at three places each,
/// the volume line of `server_root` at four.
proof fn lemma_compose_lines(php: Seq<char>, uid: nat, gid: nat, server_root: Seq<char>)
    ensures
        ({
            let t = project_compose_text(php, uid, gid, server_root);
            let b = build_file_line(php);
            let d = ids_line(uid, gid);
            let v = volume_line(server_root);
            &&& exists|i: int, j: int, k: int|
                i < j < k && occurs_at(t, b, i) && occurs_at(t, b, j) && occurs_at(t, b, k)
            &&& exists|i: int, j: int, k: int|
                i < j < k && occurs_at(t, d, i) && occurs_at(t, d, j) && occurs_at(t, d, k)
            &&& exists|i: int, j: int, k: int, l: int|
                i < j < k < l && occurs_at(t, v, i) && occurs_at(t, v, j) && occurs_at(t, v, k)
                    && occurs_at(t, v, l)
        }),
{
    let b = build_file_line(php);
    let d = ids_line(uid, gid);
    let v = volume_line(server_root);
    let pb0 = PROJECT_0@;
    lemma_occurs_after(pb0, b);
    lemma_occurs_extend(pb0 + b, b, pb0.len() as int, PROJECT_1@);
    lemma_occurs_extend(pb0 + b + PROJECT_1@, b, pb0.len() as int, d);
    lemma_occurs_extend(pb0 + b + PROJECT_1@ + d, b, pb0.len() as int, PROJECT_2@);
    lemma_occurs_extend(pb0 + b + PROJECT_1@ + d + PROJECT_2@, b, pb0.len() as int, v);
    lemma_occurs_extend(pb0 + b + PROJECT_1@ + d + PROJECT_2@ + v, b, pb0.len() as int, PROJECT_3@);
    lemma_occurs_extend(pb0 + b + PROJECT_1@ + d + PROJECT_2@ + v + PROJECT_3@, b, pb0.len() as int, b);
    lemma_occurs_extend(pb0 + b + PROJECT_1@ + d + PROJECT_2@ + v + PROJECT_3@ + b, b, pb0.len() as int, PROJECT_4@);
    lemma_occurs_extend(pb0 + b + PROJECT_1@ + d + PROJECT_2@ + v + PROJECT_3@ + b + PROJECT_4@, b, pb0.len() as int, d);
    lemma_occurs_extend(pb0 + b + PROJECT_1@ + d + PROJECT_2@ + v + PROJECT_3@ + b + PROJECT_4@ + d, b, pb0.len() as int, PROJECT_5@);
    lemma_occurs_extend(pb0 + b + PROJECT_1@ + d + PROJECT_2@ + v + PROJECT_3@ + b + PROJECT_4@ + d + PROJECT_5@, b, pb0.len() as int, v);
    lemma_occurs_extend(pb0 + b + PROJECT_1@ + d + PROJECT_2@ + v + PROJECT_3@ + b + PROJECT_4@ + d + PROJECT_5@ + v, b, pb0.len() as int, PROJECT_6@);
    lemma_occurs_extend(pb0 + b + PROJECT_1@ + d + PROJECT_2@ + v + PROJECT_3@ + b + PROJECT_4@ + d + PROJECT_5@ + v + PROJECT_6@, b, pb0.len() as int, v);
    lemma_occurs_extend(pb0 + b + PROJECT_1@ + d + PROJECT_2@ + v + PROJECT_3@ + b + PROJECT_4@ + d + PROJECT_5@ + v + PROJECT_6@ + v, b, pb0.len() as int, PROJECT_7@);
    lemma_occurs_extend(pb0 + b + PROJECT_1@ + d + PROJECT_2@ + v + PROJECT_3@ + b + PROJECT_4@ + d + PROJECT_5@ + v + PROJECT_6@ + v + PROJECT_7@, b, pb0.len() as int, b);
    lemma_occurs_extend(pb0 + b + PROJECT_1@ + d + PROJECT_2@ + v + PROJECT_3@ + b + PROJECT_4@ + d + PROJECT_5@ + v + PROJECT_6@ + v + PROJECT_7@ + b, b, pb0.len() as int, PROJECT_8@);
    lemma_occurs_extend(pb0 + b + PROJECT_1@ + d + PROJECT_2@ + v + PROJECT_3@ + b + PROJECT_4@ + d + PROJECT_5@ + v + PROJECT_6@ + v + PROJECT_7@ + b + PROJECT_8@, b, pb0.len() as int, d);
    lemma_occurs_extend(pb0 + b + PROJECT_1@ + d + PROJECT_2@ + v + PROJECT_3@ + b + PROJECT_4@ + d + PROJECT_5@ + v + PROJECT_6@ + v + PROJECT_7@ + b + PROJECT_8@ + d, b, pb0.len() as int, PROJECT_9@);
    lemma_occurs_extend(pb0 + b + PROJECT_1@ + d + PROJECT_2@ + v + PROJECT_3@ + b + PROJECT_4@ + d + PROJECT_5@ + v + PROJECT_6@ + v + PROJECT_7@ + b + PROJECT_8@ + d + PROJECT_9@, b, pb0.len() as int, v);
    lemma_occurs_extend(pb0 + b + PROJECT_1@ + d + PROJECT_2@ + v + PROJECT_3@ + b + PROJECT_4@ + d + PROJECT_5@ + v + PROJECT_6@ + v + PROJECT_7@ + b + PROJECT_8@ + d + PROJECT_9@ + v, b, pb0.len() as int, PROJECT_10@);
    let pb1 = PROJECT_0@ + b + PROJECT_1@ + d + PROJECT_2@ + v + PROJECT_3@;
    lemma_occurs_after(pb1, b);
    lemma_occurs_extend(pb1 + b, b, pb1.len() as int, PROJECT_4@);
    lemma_occurs_extend(pb1 + b + PROJECT_4@, b, pb1.len() as int, d);
    lemma_occurs_extend(pb1 + b + PROJECT_4@ + d, b, pb1.len() as int, PROJECT_5@);
    lemma_occurs_extend(pb1 + b + PROJECT_4@ + d + PROJECT_5@, b, pb1.len() as int, v);
    lemma_occurs_extend(pb1 + b + PROJECT_4@ + d + PROJECT_5@ + v, b, pb1.len() as int, PROJECT_6@);
    lemma_occurs_extend(pb1 + b + PROJECT_4@ + d + PROJECT_5@ + v + PROJECT_6@, b, pb1.len() as int, v);
    lemma_occurs_extend(pb1 + b + PROJECT_4@ + d + PROJECT_5@ + v + PROJECT_6@ + v, b, pb1.len() as int, PROJECT_7@);
    lemma_occurs_extend(pb1 + b + PROJECT_4@ + d + PROJECT_5@ + v + PROJECT_6@ + v + PROJECT_7@, b, pb1.len() as int, b);
    lemma_occurs_extend(pb1 + b + PROJECT_4@ + d + PROJECT_5@ + v + PROJECT_6@ + v + PROJECT_7@ + b, b, pb1.len() as int, PROJECT_8@);
    lemma_occurs_extend(pb1 + b + PROJECT_4@ + d + PROJECT_5@ + v + PROJECT_6@ + v + PROJECT_7@ + b + PROJECT_8@, b, pb1.len() as int, d);
    lemma_occurs_extend(pb1 + b + PROJECT_4@ + d + PROJECT_5@ + v + PROJECT_6@ + v + PROJECT_7@ + b + PROJECT_8@ + d, b, pb1.len() as int, PROJECT_9@);
    lemma_occurs_extend(pb1 + b + PROJECT_4@ + d + PROJECT_5@ + v + PROJECT_6@ + v + PROJECT_7@ + b + PROJECT_8@ + d + PROJECT_9@, b, pb1.len() as int, v);
    lemma_occurs_extend(pb1 + b + PROJECT_4@ + d + PROJECT_5@ + v + PROJECT_6@ + v + PROJECT_7@ + b + PROJECT_8@ + d + PROJECT_9@ + v, b, pb1.len() as int, PROJECT_10@);
    let pb2 = PROJECT_0@ + b + PROJECT_1@ + d + PROJECT_2@ + v + PROJECT_3@ + b + PROJECT_4@ + d + PROJECT_5@ + v + PROJECT_6@ + v + PROJECT_7@;
    lemma_occurs_after(pb2, b);
    lemma_occurs_extend(pb2 + b, b, pb2.len() as int, PROJECT_8@);
    lemma_occurs_extend(pb2 + b + PROJECT_8@, b, pb2.len() as int, d);
    lemma_occurs_extend(pb2 + b + PROJECT_8@ + d, b, pb2.len() as int, PROJECT_9@);
    lemma_occurs_extend(pb2 + b + PROJECT_8@ + d + PROJECT_9@, b, pb2.len() as int, v);
    lemma_occurs_extend(pb2 + b + PROJECT_8@ + d + PROJECT_9@ + v, b, pb2.len() as int, PROJECT_10@);
    let pd0 = PROJECT_0@ + b + PROJECT_1@;
    lemma_occurs_after(pd0, d);
    lemma_occurs_extend(pd0 + d, d, pd0.len() as int, PROJECT_2@);
    lemma_occurs_extend(pd0 + d + PROJECT_2@, d, pd0.len() as int, v);
    lemma_occurs_extend(pd0 + d + PROJECT_2@ + v, d, pd0.len() as int, PROJECT_3@);
    lemma_occurs_extend(pd0 + d + PROJECT_2@ + v + PROJECT_3@, d, pd0.len() as int, b);
    lemma_occurs_extend(pd0 + d + PROJECT_2@ + v + PROJECT_3@ + b, d, pd0.len() as int, PROJECT_4@);
    lemma_occurs_extend(pd0 + d + PROJECT_2@ + v + PROJECT_3@ + b + PROJECT_4@, d, pd0.len() as int, d);
    lemma_occurs_extend(pd0 + d + PROJECT_2@ + v + PROJECT_3@ + b + PROJECT_4@ + d, d, pd0.len() as int, PROJECT_5@);
    lemma_occurs_extend(pd0 + d + PROJECT_2@ + v + PROJECT_3@ + b + PROJECT_4@ + d + PROJECT_5@, d, pd0.len() as int, v);
    lemma_occurs_extend(pd0 + d + PROJECT_2@ + v + PROJECT_3@ + b + PROJECT_4@ + d + PROJECT_5@ + v, d, pd0.len() as int, PROJECT_6@);
    lemma_occurs_extend(pd0 + d + PROJECT_2@ + v + PROJECT_3@ + b + PROJECT_4@ + d + PROJECT_5@ + v + PROJECT_6@, d, pd0.len() as int, v);
    lemma_occurs_extend(pd0 + d + PROJECT_2@ + v + PROJECT_3@ + b + PROJECT_4@ + d + PROJECT_5@ + v + PROJECT_6@ + v, d, pd0.len() as int, PROJECT_7@);
    lemma_occurs_extend(pd0 + d + PROJECT_2@ + v + PROJECT_3@ + b + PROJECT_4@ + d + PROJECT_5@ + v + PROJECT_6@ + v + PROJECT_7@, d, pd0.len() as int, b);
    lemma_occurs_extend(pd0 + d + PROJECT_2@ + v + PROJECT_3@ + b + PROJECT_4@ + d + PROJECT_5@ + v + PROJECT_6@ + v + PROJECT_7@ + b, d, pd0.len() as int, PROJECT_8@);
    lemma_occurs_extend(pd0 + d + PROJECT_2@ + v + PROJECT_3@ + b + PROJECT_4@ + d + PROJECT_5@ + v + PROJECT_6@ + v + PROJECT_7@ + b + PROJECT_8@, d, pd0.len() as int, d);
    lemma_occurs_extend(pd0 + d + PROJECT_2@ + v + PROJECT_3@ + b + PROJECT_4@ + d + PROJECT_5@ + v + PROJECT_6@ + v + PROJECT_7@ + b + PROJECT_8@ + d, d, pd0.len() as int, PROJECT_9@);
    lemma_occurs_extend(pd0 + d + PROJECT_2@ + v + PROJECT_3@ + b + PROJECT_4@ + d + PROJECT_5@ + v + PROJECT_6@ + v + PROJECT_7@ + b + PROJECT_8@ + d + PROJECT_9@, d, pd0.len() as int, v);
    lemma_occurs_extend(pd0 + d + PROJECT_2@ + v + PROJECT_3@ + b + PROJECT_4@ + d + PROJECT_5@ + v + PROJECT_6@ + v + PROJECT_7@ + b + PROJECT_8@ + d + PROJECT_9@ + v, d, pd0.len() as int, PROJECT_10@);
    let pd1 = PROJECT_0@ + b + PROJECT_1@ + d + PROJECT_2@ + v + PROJECT_3@ + b + PROJECT_4@;
    lemma_occurs_after(pd1, d);
    lemma_occurs_extend(pd1 + d, d, pd1.len() as int, PROJECT_5@);
    lemma_occurs_extend(pd1 + d + PROJECT_5@, d, pd1.len() as int, v);
    lemma_occurs_extend(pd1 + d + PROJECT_5@ + v, d, pd1.len() as int, PROJECT_6@);
    lemma_occurs_extend(pd1 + d + PROJECT_5@ + v + PROJECT_6@, d, pd1.len() as int, v);
    lemma_occurs_extend(pd1 + d + PROJECT_5@ + v + PROJECT_6@ + v, d, pd1.len() as int, PROJECT_7@);
    lemma_occurs_extend(pd1 + d + PROJECT_5@ + v + PROJECT_6@ + v + PROJECT_7@, d, pd1.len() as int, b);
    lemma_occurs_extend(pd1 + d + PROJECT_5@ + v + PROJECT_6@ + v + PROJECT_7@ + b, d, pd1.len() as int, PROJECT_8@);
    lemma_occurs_extend(pd1 + d + PROJECT_5@ + v + PROJECT_6@ + v + PROJECT_7@ + b + PROJECT_8@, d, pd1.len() as int, d);
    lemma_occurs_extend(pd1 + d + PROJECT_5@ + v + PROJECT_6@ + v + PROJECT_7@ + b + PROJECT_8@ + d, d, pd1.len() as int, PROJECT_9@);
    lemma_occurs_extend(pd1 + d + PROJECT_5@ + v + PROJECT_6@ + v + PROJECT_7@ + b + PROJECT_8@ + d + PROJECT_9@, d, pd1.len() as int, v);
    lemma_occurs_extend(pd1 + d + PROJECT_5@ + v + PROJECT_6@ + v + PROJECT_7@ + b + PROJECT_8@ + d + PROJECT_9@ + v, d, pd1.len() as int, PROJECT_10@);
    let pd2 = PROJECT_0@ + b + PROJECT_1@ + d + PROJECT_2@ + v + PROJECT_3@ + b + PROJECT_4@ + d + PROJECT_5@ + v + PROJECT_6@ + v + PROJECT_7@ + b + PROJECT_8@;
    lemma_occurs_after(pd2, d);
    lemma_occurs_extend(pd2 + d, d, pd2.len() as int, PROJECT_9@);
    lemma_occurs_extend(pd2 + d + PROJECT_9@, d, pd2.len() as int, v);
    lemma_occurs_extend(pd2 + d + PROJECT_9@ + v, d, pd2.len() as int, PROJECT_10@);
    let pv0 = PROJECT_0@ + b + PROJECT_1@ + d + PROJECT_2@;
    lemma_occurs_after(pv0, v);
    lemma_occurs_extend(pv0 + v, v, pv0.len() as int, PROJECT_3@);
    lemma_occurs_extend(pv0 + v + PROJECT_3@, v, pv0.len() as int, b);
    lemma_occurs_extend(pv0 + v + PROJECT_3@ + b, v, pv0.len() as int, PROJECT_4@);
    lemma_occurs_extend(pv0 + v + PROJECT_3@ + b + PROJECT_4@, v, pv0.len() as int, d);
    lemma_occurs_extend(pv0 + v + PROJECT_3@ + b + PROJECT_4@ + d, v, pv0.len() as int, PROJECT_5@);
    lemma_occurs_extend(pv0 + v + PROJECT_3@ + b + PROJECT_4@ + d + PROJECT_5@, v, pv0.len() as int, v);
    lemma_occurs_extend(pv0 + v + PROJECT_3@ + b + PROJECT_4@ + d + PROJECT_5@ + v, v, pv0.len() as int, PROJECT_6@);
    lemma_occurs_extend(pv0 + v + PROJECT_3@ + b + PROJECT_4@ + d + PROJECT_5@ + v + PROJECT_6@, v, pv0.len() as int, v);
    lemma_occurs_extend(pv0 + v + PROJECT_3@ + b + PROJECT_4@ + d + PROJECT_5@ + v + PROJECT_6@ + v, v, pv0.len() as int, PROJECT_7@);
    lemma_occurs_extend(pv0 + v + PROJECT_3@ + b + PROJECT_4@ + d + PROJECT_5@ + v + PROJECT_6@ + v + PROJECT_7@, v, pv0.len() as int, b);
    lemma_occurs_extend(pv0 + v + PROJECT_3@ + b + PROJECT_4@ + d + PROJECT_5@ + v + PROJECT_6@ + v + PROJECT_7@ + b, v, pv0.len() as int, PROJECT_8@);
    lemma_occurs_extend(pv0 + v + PROJECT_3@ + b + PROJECT_4@ + d + PROJECT_5@ + v + PROJECT_6@ + v + PROJECT_7@ + b + PROJECT_8@, v, pv0.len() as int, d);
    lemma_occurs_extend(pv0 + v + PROJECT_3@ + b + PROJECT_4@ + d + PROJECT_5@ + v + PROJECT_6@ + v + PROJECT_7@ + b + PROJECT_8@ + d, v, pv0.len() as int, PROJECT_9@);
    lemma_occurs_extend(pv0 + v + PROJECT_3@ + b + PROJECT_4@ + d + PROJECT_5@ + v + PROJECT_6@ + v + PROJECT_7@ + b + PROJECT_8@ + d + PROJECT_9@, v, pv0.len() as int, v);
    lemma_occurs_extend(pv0 + v + PROJECT_3@ + b + PROJECT_4@ + d + PROJECT_5@ + v + PROJECT_6@ + v + PROJECT_7@ + b + PROJECT_8@ + d + PROJECT_9@ + v, v, pv0.len() as int, PROJECT_10@);
    let pv1 = PROJECT_0@ + b + PROJECT_1@ + d + PROJECT_2@ + v + PROJECT_3@ + b + PROJECT_4@ + d + PROJECT_5@;
    lemma_occurs_after(pv1, v);
    lemma_occurs_extend(pv1 + v, v, pv1.len() as int, PROJECT_6@);
    lemma_occurs_extend(pv1 + v + PROJECT_6@, v, pv1.len() as int, v);
    lemma_occurs_extend(pv1 + v + PROJECT_6@ + v, v, pv1.len() as int, PROJECT_7@);
    lemma_occurs_extend(pv1 + v + PROJECT_6@ + v + PROJECT_7@, v, pv1.len() as int, b);
    lemma_occurs_extend(pv1 + v + PROJECT_6@ + v + PROJECT_7@ + b, v, pv1.len() as int, PROJECT_8@);
    lemma_occurs_extend(pv1 + v + PROJECT_6@ + v + PROJECT_7@ + b + PROJECT_8@, v, pv1.len() as int, d);
    lemma_occurs_extend(pv1 + v + PROJECT_6@ + v + PROJECT_7@ + b + PROJECT_8@ + d, v, pv1.len() as int, PROJECT_9@);
    lemma_occurs_extend(pv1 + v + PROJECT_6@ + v + PROJECT_7@ + b + PROJECT_8@ + d + PROJECT_9@, v, pv1.len() as int, v);
    lemma_occurs_extend(pv1 + v + PROJECT_6@ + v + PROJECT_7@ + b + PROJECT_8@ + d + PROJECT_9@ + v, v, pv1.len() as int, PROJECT_10@);
    let pv2 = PROJECT_0@ + b + PROJECT_1@ + d + PROJECT_2@ + v + PROJECT_3@ + b + PROJECT_4@ + d + PROJECT_5@ + v + PROJECT_6@;
    lemma_occurs_after(pv2, v);
    lemma_occurs_extend(pv2 + v, v, pv2.len() as int, PROJECT_7@);
    lemma_occurs_extend(pv2 + v + PROJECT_7@, v, pv2.len() as int, b);
    lemma_occurs_extend(pv2 + v + PROJECT_7@ + b, v, pv2.len() as int, PROJECT_8@);
    lemma_occurs_extend(pv2 + v + PROJECT_7@ + b + PROJECT_8@, v, pv2.len() as int, d);
    lemma_occurs_extend(pv2 + v + PROJECT_7@ + b + PROJECT_8@ + d, v, pv2.len() as int, PROJECT_9@);
    lemma_occurs_extend(pv2 + v + PROJECT_7@ + b + PROJECT_8@ + d + PROJECT_9@, v, pv2.len() as int, v);
    lemma_occurs_extend(pv2 + v + PROJECT_7@ + b + PROJECT_8@ + d + PROJECT_9@ + v, v, pv2.len() as int, PROJECT_10@);
    let pv3 = PROJECT_0@ + b + PROJECT_1@ + d + PROJECT_2@ + v + PROJECT_3@ + b + PROJECT_4@ + d + PROJECT_5@ + v + PROJECT_6@ + v + PROJECT_7@ + b + PROJECT_8@ + d + PROJECT_9@;
    lemma_occurs_after(pv3, v);
    lemma_occurs_extend(pv3 + v, v, pv3.len() as int, PROJECT_10@);
    let t = project_compose_text(php, uid, gid, server_root);
    reveal_strlit("dockerfile: ../../php/");
    reveal_strlit("- UID=");
    reveal_strlit("- ");
    assert(occurs_at(t, b, pb0.len() as int) && occurs_at(t, b, pb1.len() as int) && occurs_at(
        t,
        b,
        pb2.len() as int,
    ));
    assert(pb0.len() < pb1.len() < pb2.len());
    assert(occurs_at(t, d, pd0.len() as int) && occurs_at(t, d, pd1.len() as int) && occurs_at(
        t,
        d,
        pd2.len() as int,
    ));
    assert(pd0.len() < pd1.len() < pd2.len());
    assert(occurs_at(t, v, pv0.len() as int) && occurs_at(t, v, pv1.len() as int) && occurs_at(
        t,
        v,
        pv2.len() as int,
    ) && occurs_at(t, v, pv3.len() as int));
    assert(pv0.len() < pv1.len() < pv2.len() < pv3.len());
}

/// The php, composer and artisan services of a project's compose file are
/// all built from the Dockerfile of the PHP image `php`, and the php,
/// composer, npm and artisan services all mount the project folder
/// `server_root` as the web root.
pub proof fn law_compose_uses_php_image_and_project_folder(
    php: Seq<char>,
    uid: nat,
    gid: nat,
    server_root: Seq<char>,
)
    ensures
        ({
            let t = project_compose_text(php, uid, gid, server_root);
            let b = "dockerfile: ../../php/"@ + php + "/Dockerfile"@;
            exists|i: int, j: int, k: int|
                i < j < k && occurs_at(t, b, i) && occurs_at(t, b, j) && occurs_at(t, b, k)
        }),
        ({
            let t = project_compose_text(php, uid, gid, server_root);
            let v = "- "@ + server_root + ":/var/www/html"@;
            exists|i: int, j: int, k: int, l: int|
                i < j < k < l && occurs_at(t, v, i) && occurs_at(t, v, j) && occurs_at(t, v, k)
                    && occurs_at(t, v, l)
        }),
{
    lemma_compose_lines(php, uid, gid, server_root);
}

/// The php, composer and artisan services of a project's compose file are
/// all built with the same user and group ids: the build arguments
/// `- UID={uid}` and `- GID={gid}` stand in it three times.
pub proof fn law_compose_builds_with_the_given_ids(
    php: Seq<char>,
    uid: nat,
    gid: nat,
    server_root: Seq<char>,
)
    ensures
        ({
            let t = project_compose_text(php, uid, gid, server_root);
            let d = "- UID="@ + decimal(uid) + "\n                - GID="@ + decimal(gid);
            exists|i: int, j: int, k: int|
                i < j < k && occurs_at(t, d, i) && occurs_at(t, d, j) && occurs_at(t, d, k)
        }),
{
    lemma_compose_lines(php, uid, gid, server_root);
}

/// The nginx service of the shared compose file is built with the given
/// user and group ids (`- UID={uid}` then `- GID={gid}`) and mounts the
/// projects folder `server_root` as the web root.
pub proof fn law_global_compose_uses_ids_and_projects_folder(
    uid: nat,
    gid: nat,
    server_root: Seq<char>,
)
    ensures
        ({
            let t = global_compose_text(uid, gid, server_root);
            let d = "- UID="@ + decimal(uid) + "\n                - GID="@ + decimal(gid);
            exists|i: int| occurs_at(t, d, i)
        }),
        ({
            let t = global_compose_text(uid, gid, server_root);
            let v = "- "@ + server_root + ":/var/www/html"@;
            exists|i: int| occurs_at(t, v, i)
        }),
{
    let d = ids_line(uid, gid);
    let v = volume_line(server_root);
    let g0 = GLOBAL_0@;
    lemma_occurs_after(g0, d);
    lemma_occurs_extend(g0 + d, d, g0.len() as int, GLOBAL_1@);
    lemma_occurs_extend(g0 + d + GLOBAL_1@, d, g0.len() as int, v);
    lemma_occurs_extend(g0 + d + GLOBAL_1@ + v, d, g0.len() as int, GLOBAL_2@);
    let g1 = g0 + d + GLOBAL_1@;
    lemma_occurs_after(g1, v);
    lemma_occurs_extend(g1 + v, v, g1.len() as int, GLOBAL_2@);
    let t = global_compose_text(uid, gid, server_root);
    assert(occurs_at(t, d, g0.len() as int));
    assert(occurs_at(t, v, g1.len() as int));
}

} // verus!
