//! Projects: guessing the current project's name, and the plans that start,
//! stop, halt and create a project's environment.

use vstd::prelude::*;
use vstd::string::StringSliceAdditionalSpecFns;
use vstd::utf8::{decode_utf8, encode_utf8, is_ascii_chars, is_char_boundary};
use crate::action::{Action, Step, append_actions, push_action};
use crate::composer::Composer;
use crate::config::{Config, config_path, parent_of, path, path_parent};
use crate::docker::{network_steps, start_steps, stop_steps, halt_steps};
use crate::msg::{info, info_line};
use crate::ssl::{cert_steps, certs, domain_of};
use crate::stubs;
use crate::stubs::docker::{global_compose_text, project_compose_text};
use crate::stubs::nginx::site_text;
use crate::text::{
    chars_of, decimal, has_substring, occurs_at, push_str, string_from_range, trim, trim_end, trim_start,
    trimmed,
};

verus! {

/// The message of a stop on a missing value.
pub open spec fn unwrap_none_message() -> Seq<char> {
    "called `Option::unwrap()` on a `None` value"@
}

/// The step that creates the folder holding the file at `full_path`; it
/// stops everything when the path has no parent.
pub open spec fn folder_step(full_path: Seq<char>) -> Step {
    match path_parent(full_path) {
        Some(p) => Step::MakeDir(p),
        None => Step::Fail(unwrap_none_message()),
    }
}

/// Creates the folder that holds the file at `full_path`.
pub fn create_folder(full_path: &str) -> (a: Action)
    ensures
        a.deep_view() == folder_step(full_path@),
        a matches Action::MakeDir(d) ==> d@.len() < full_path@.len() && d@ == full_path@.take(
            d@.len() as int,
        ),
{
    match parent_of(full_path) {
        Some(p) => Action::MakeDir(p),
        None => Action::Fail("called `Option::unwrap()` on a `None` value".to_owned()),
    }
}

/// The name under which a project whose package is `name` is known, given
/// the aliases: the alias of the name without surrounding whitespace, or
/// the name as written when it has none.
pub open spec fn guessed_name(aliases: Map<Seq<char>, Seq<char>>, name: Seq<char>) -> Seq<char> {
    if aliases.contains_key(trimmed(name)) {
        aliases[trimmed(name)]
    } else {
        name
    }
}

/// The package `s90dev/fidelis-elite` is always known as `fidelis`, once
/// the tool has recorded its alias, whatever the other aliases.
pub proof fn law_recorded_alias_wins(aliases: Map<Seq<char>, Seq<char>>, name: Seq<char>)
    requires
        trimmed(name) == "s90dev/fidelis-elite"@,
    ensures
        guessed_name(aliases.insert("s90dev/fidelis-elite"@, "fidelis"@), name) == "fidelis"@,
{
}

/// With no alias for its package name (surrounding whitespace aside), a
/// project is known by the package name exactly as written; with one, by
/// the alias.
pub proof fn law_guess_falls_back_to_the_package_name(
    aliases: Map<Seq<char>, Seq<char>>,
    name: Seq<char>,
)
    ensures
        !aliases.contains_key(trimmed(name)) ==> guessed_name(aliases, name) == name,
        aliases.contains_key(trimmed(name)) ==> guessed_name(aliases, name)
            == aliases[trimmed(name)],
{
}

/// The name under which the project of `composer.json` is known: after the
/// tool records the alias `s90dev/fidelis-elite` → `fidelis` in `config`,
/// the alias of the package name (without surrounding whitespace) when
/// there is one, else the package name as written.
pub fn try_to_guess(composer: &Composer, config: &mut Config) -> (res: String)
    ensures
        final(config).path == old(config).path,
        final(config).aliases@ == old(config).aliases@.insert(
            "s90dev/fidelis-elite"@,
            "fidelis"@,
        ),
        res@ == guessed_name(final(config).aliases@, composer.name@),
{
    config.aliases.insert("s90dev/fidelis-elite", "fidelis");
    let key = trim(composer.name.as_str());
    if !config.aliases.contains_key(key.as_str()) {
        return composer.name.clone();
    }
    match config.aliases.get(key.as_str()) {
        Some(alias) => alias,
        None => composer.name.clone(),
    }
}

/// What the environment reports to the planning functions: locations,
/// the user's ids, and which of the tool's files and networks exist.
pub struct Host {
    /// The user's home folder.
    pub home: String,
    /// The user id the containers run as.
    pub uid: u32,
    /// The group id the containers run as.
    pub gid: u32,
    /// The folder that holds the projects (`Config::path`).
    pub projects_root: String,
    /// The current directory, where the project lives.
    pub current_dir: String,
    /// Whether the `easily` network exists (see `docker::network_exists`).
    pub network_exists: bool,
    /// Whether the root certificate exists (see `ssl::root_pem`).
    pub root_ca_exists: bool,
    /// Whether the project's certificate request exists (see `ssl::csr_file`).
    pub csr_exists: bool,
    /// Whether `projects.json` exists (see `projects_config_file`).
    pub projects_config_exists: bool,
    /// Whether the project's compose file exists (see `compose_file`).
    pub compose_exists: bool,
}

/// The steps that write `content` to `p` inside the configuration folder,
/// creating its folder first.
pub open spec fn file_steps(home: Seq<char>, p: Seq<char>, content: Seq<char>) -> Seq<Step> {
    seq![
        folder_step(config_path(home, p)),
        Step::Write(config_path(home, p), content, Some("Error trying to write file"@)),
    ]
}

/// The plan that writes `content` to the file `p` inside the configuration
/// folder under `home`, creating its folder first.
pub fn create_file(home: &str, p: &str, content: String) -> (plan: Vec<Action>)
    ensures
        plan.deep_view() == file_steps(home@, p@, content@),
{
    let full = path(home, p);
    let folder = create_folder(full.as_str());
    let plan = vec![
        folder,
        Action::Write(full, content, Some("Error trying to write file".to_owned())),
    ];
    assert(plan.deep_view() =~= file_steps(home@, p@, content@));
    plan
}

/// The file that lists the projects.
pub open spec fn projects_config_path(home: Seq<char>) -> Seq<char> {
    config_path(home, "projects.json"@)
}

/// The file that lists the projects, under the home folder `home`.
pub fn projects_config_file(home: &str) -> (res: String)
    ensures
        res@ == projects_config_path(home@),
{
    path(home, "projects.json")
}

/// The steps that write the shared files: the images, the nginx
/// configuration and the shared compose file, then an empty project list
/// unless one exists.
pub open spec fn structure_steps(host: Host) -> Seq<Step> {
    let home = host.home@;
    file_steps(home, "php/8.1/Dockerfile"@, stubs::php::dockerfile81_text()) + file_steps(
        home,
        "php/8.2/Dockerfile"@,
        stubs::php::dockerfile82_text(),
    ) + file_steps(home, "nginx/Dockerfile"@, stubs::nginx::DOCKERFILE@) + file_steps(
        home,
        "nginx/conf.d/default.conf"@,
        stubs::nginx::DEFAULT_CONF@,
    ) + file_steps(home, "nginx/includes/https-redirect.conf"@, stubs::nginx::HTTPS_REDIRECT@)
        + file_steps(
        home,
        "projects/global-compose.yaml"@,
        global_compose_text(host.uid as nat, host.gid as nat, host.projects_root@),
    ) + if host.projects_config_exists {
        Seq::empty()
    } else {
        seq![
            Step::Write(
                projects_config_path(home),
                "{\"aliases\": {}}"@,
                Some("Error trying to write projects config file"@),
            ),
        ]
    }
}

/// Each PHP version's Dockerfile is that version's image: the shared
/// files include `php/8.1/Dockerfile` built `FROM php:8.1-fpm-alpine` and
/// `php/8.2/Dockerfile` built `FROM php:8.2-fpm-alpine`.
pub proof fn law_php_dockerfiles_match_their_versions(host: Host)
    ensures
        exists|i: int|
            {
                &&& 0 <= i < structure_steps(host).len()
                &&& #[trigger] structure_steps(host)[i] matches Step::Write(p, c, _) && p
                    == config_path(host.home@, "php/8.1/Dockerfile"@)
                    && "FROM php:8.1-fpm-alpine"@.is_prefix_of(c)
            },
        exists|i: int|
            {
                &&& 0 <= i < structure_steps(host).len()
                &&& #[trigger] structure_steps(host)[i] matches Step::Write(p, c, _) && p
                    == config_path(host.home@, "php/8.2/Dockerfile"@)
                    && "FROM php:8.2-fpm-alpine"@.is_prefix_of(c)
            },
{
    let st = structure_steps(host);
    let c81 = stubs::php::dockerfile81_text();
    let c82 = stubs::php::dockerfile82_text();
    assert("FROM php:8.1-fpm-alpine"@.is_prefix_of(c81)) by {
        assert(c81.take("FROM php:8.1-fpm-alpine"@.len() as int) =~= "FROM php:8.1-fpm-alpine"@);
    }
    assert("FROM php:8.2-fpm-alpine"@.is_prefix_of(c82)) by {
        assert(c82.take("FROM php:8.2-fpm-alpine"@.len() as int) =~= "FROM php:8.2-fpm-alpine"@);
    }
    assert(st[1] == Step::Write(
        config_path(host.home@, "php/8.1/Dockerfile"@),
        c81,
        Some("Error trying to write file"@),
    ));
    assert(st[3] == Step::Write(
        config_path(host.home@, "php/8.2/Dockerfile"@),
        c82,
        Some("Error trying to write file"@),
    ));
}

/// The plan that writes the shared files of the environment.
pub fn create_structure(host: &Host) -> (plan: Vec<Action>)
    ensures
        plan.deep_view() == structure_steps(*host),
{
    let home = host.home.as_str();
    let mut plan = create_file(home, "php/8.1/Dockerfile", stubs::php::dockerfile81());
    append_actions(&mut plan, create_file(home, "php/8.2/Dockerfile", stubs::php::dockerfile82()));
    append_actions(&mut plan, create_file(home, "nginx/Dockerfile", stubs::nginx::dockerfile()));
    append_actions(
        &mut plan,
        create_file(home, "nginx/conf.d/default.conf", stubs::nginx::default()),
    );
    append_actions(
        &mut plan,
        create_file(home, "nginx/includes/https-redirect.conf", stubs::nginx::include_redirect()),
    );
    append_actions(
        &mut plan,
        create_file(
            home,
            "projects/global-compose.yaml",
            stubs::docker::compose_global(host.uid, host.gid, host.projects_root.as_str()),
        ),
    );
    if !host.projects_config_exists {
        push_action(
            &mut plan,
            Action::Write(
                projects_config_file(home),
                "{\"aliases\": {}}".to_owned(),
                Some("Error trying to write projects config file".to_owned()),
            ),
        );
    }
    assert(plan.deep_view() =~= structure_steps(*host));
    plan
}

/// The compose file of project `name`, relative to the configuration folder.
pub open spec fn compose_yaml(name: Seq<char>) -> Seq<char> {
    "projects/"@ + name + "/compose.yaml"@
}

/// The compose file of project `name`, relative to the configuration folder.
pub fn compose_file(name: &str) -> (res: String)
    ensures
        res@ == compose_yaml(name@),
{
    let mut res = "projects/".to_owned();
    push_str(&mut res, name);
    push_str(&mut res, "/compose.yaml");
    res
}

fn said(prefix: &str, name: &str) -> (a: Action)
    ensures
        a.deep_view() == Step::Say(info_line(prefix@ + name@)),
{
    let mut text = prefix.to_owned();
    push_str(&mut text, name);
    Action::Say(info(text.as_str()))
}

/// The steps that bring project `name` up: report, make the shared network,
/// write the shared files, make the certificates, start the services.
pub open spec fn start_plan(name: Seq<char>, host: Host) -> Seq<Step> {
    seq![Step::Say(info_line("Starting project "@ + name))] + network_steps(
        "easily"@,
        host.network_exists,
    ) + structure_steps(host) + cert_steps(host.home@, name, host.root_ca_exists, host.csr_exists)
        + start_steps(host.home@, name, compose_yaml(name)) + seq![Step::Say(Seq::empty())]
}

/// The plan that brings project `name` up.
pub fn start(name: &str, host: &Host) -> (plan: Vec<Action>)
    ensures
        plan.deep_view() == start_plan(name@, *host),
{
    let mut plan = vec![said("Starting project ", name)];
    append_actions(
        &mut plan,
        crate::docker::create_network_if_it_doesnt_exist("easily", host.network_exists),
    );
    append_actions(&mut plan, create_structure(host));
    append_actions(
        &mut plan,
        certs(host.home.as_str(), name, host.root_ca_exists, host.csr_exists),
    );
    let yaml = compose_file(name);
    append_actions(&mut plan, crate::docker::start(host.home.as_str(), name, yaml.as_str()));
    push_action(&mut plan, Action::Say(String::new()));
    assert(plan.deep_view() =~= start_plan(name@, *host));
    plan
}

/// The steps that stop project `name`.
pub open spec fn stop_plan(name: Seq<char>, host: Host) -> Seq<Step> {
    seq![Step::Say(info_line("Stopping project "@ + name))] + stop_steps(
        host.home@,
        name,
        compose_yaml(name),
    ) + seq![Step::Say(Seq::empty())]
}

/// The plan that stops the services of project `name`.
pub fn stop(name: &str, host: &Host) -> (plan: Vec<Action>)
    ensures
        plan.deep_view() == stop_plan(name@, *host),
{
    let mut plan = vec![said("Stopping project ", name)];
    let yaml = compose_file(name);
    append_actions(&mut plan, crate::docker::stop(host.home.as_str(), name, yaml.as_str()));
    push_action(&mut plan, Action::Say(String::new()));
    assert(plan.deep_view() =~= stop_plan(name@, *host));
    plan
}

/// The steps that halt the shared services and stop project `name`.
pub open spec fn halt_plan(name: Seq<char>, host: Host) -> Seq<Step> {
    halt_steps(host.home@) + stop_plan(name, host) + seq![Step::Say(Seq::empty())]
}

/// The plan that halts the shared services, then stops project `name`.
pub fn halt(name: &str, host: &Host) -> (plan: Vec<Action>)
    ensures
        plan.deep_view() == halt_plan(name@, *host),
{
    let mut plan = crate::docker::halt(host.home.as_str());
    append_actions(&mut plan, stop(name, host));
    push_action(&mut plan, Action::Say(String::new()));
    assert(plan.deep_view() =~= halt_plan(name@, *host));
    plan
}

/// What `Regex::new(pattern)` followed by `replace_all(text, rep)` gives:
/// `None` for a pattern that does not compile.
pub uninterp spec fn regex_replaced(pattern: Seq<char>, text: Seq<char>, rep: Seq<char>) -> Option<
    Seq<char>,
>;

/// The pattern of the characters that are not part of a version number.
pub open spec fn non_version_pattern() -> Seq<char> {
    "[^\\d.]"@
}

/// An ASCII character that a version number keeps: a digit or a dot.
pub open spec fn is_version_char(c: char) -> bool {
    ('0' <= c && c <= '9') || c == '.'
}

/// The test of `is_version_char`, as a predicate.
pub open spec fn version_char_pred() -> spec_fn(char) -> bool {
    |c: char| is_version_char(c)
}

/// `regex::Regex::new(pattern)`, then `Regex::replace_all(text, rep)`.
/// Believed of it: the result is `regex_replaced(pattern, text, rep)`;
/// the pattern `[^\d.]` compiles, and on ASCII text replacing its matches
/// by nothing keeps exactly the ASCII digits and dots (`\d` is Unicode's
/// decimal digits, of which the ASCII ones are `0`-`9`). Which non-ASCII
/// characters count as digits is not stated.
#[verifier::external_body]
fn regex_replace_all(pattern: &str, text: &str, rep: &str) -> (res: Option<String>)
    ensures
        res.deep_view() == regex_replaced(pattern@, text@, rep@),
        pattern@ == non_version_pattern() ==> res is Some,
        pattern@ == non_version_pattern() && rep@ == Seq::<char>::empty() && is_ascii_chars(text@)
            ==> res.deep_view() == Some(text@.filter(version_char_pred())),
{
    match regex::Regex::new(pattern) {
        Ok(re) => Some(re.replace_all(text, rep).into_owned()),
        Err(_) => None,
    }
}

/// The index just past the last `|` of `s` (0 when it has none).
pub open spec fn last_bar_end(s: Seq<char>) -> int
    decreases s.len(),
{
    if s.len() == 0 {
        0
    } else if s.last() == '|' {
        s.len() as int
    } else {
        last_bar_end(s.drop_last())
    }
}

/// The first 3 bytes of the UTF-8 text `t`, as characters; `None` when `t`
/// is shorter or byte 3 falls inside a character.
pub open spec fn first_three_bytes(t: Seq<char>) -> Option<Seq<char>> {
    let bytes = encode_utf8(t);
    if 3 <= bytes.len() && is_char_boundary(bytes, 3) {
        Some(decode_utf8(bytes.take(3)))
    } else {
        None
    }
}

/// The PHP version that the constraint `c` asks for: the last of its
/// `|`-separated alternatives, without what is not part of a version
/// number (and, when there are alternatives, without surrounding
/// whitespace), cut to its first 3 bytes. `None` when those bytes do not
/// make whole characters.
pub open spec fn php_version_of(c: Seq<char>) -> Option<Seq<char>> {
    match regex_replaced(non_version_pattern(), c.skip(last_bar_end(c)), Seq::empty()) {
        Some(stripped) => first_three_bytes(
            if c.contains('|') {
                trimmed(stripped)
            } else {
                stripped
            },
        ),
        None => None,
    }
}

/// What `php_version_of` gives for an ASCII constraint: the first three
/// of the digits and dots of its last `|`-separated alternative, `None`
/// when there are fewer.
pub open spec fn ascii_version_of(c: Seq<char>) -> Option<Seq<char>> {
    let kept = c.skip(last_bar_end(c)).filter(version_char_pred());
    if kept.len() >= 3 {
        Some(kept.take(3))
    } else {
        None
    }
}

proof fn lemma_last_bar_end(c: Seq<char>)
    ensures
        0 <= last_bar_end(c) <= c.len(),
        last_bar_end(c) == 0 || c[last_bar_end(c) - 1] == '|',
        forall|j: int| last_bar_end(c) <= j < c.len() ==> c[j] != '|',
    decreases c.len(),
{
    if c.len() > 0 && c.last() != '|' {
        let d = c.drop_last();
        lemma_last_bar_end(d);
        assert forall|j: int| last_bar_end(c) <= j < c.len() implies c[j] != '|' by {
            if j < d.len() {
                assert(c[j] == d[j]);
            }
        }
    }
}

/// The version comes from the last `|`-separated alternative of the
/// constraint: for any index `k` just past the last `|` of `c` (or 0 when
/// `c` has no `|`), the version is cut from `c[k..]`; for ASCII text it is
/// the first three digits and dots found there (so `"^7.4|^8.0|^8.1"` asks
/// for `"8.1"`).
pub proof fn law_version_from_last_alternative(c: Seq<char>, k: int)
    requires
        0 <= k <= c.len(),
        k == 0 || c[k - 1] == '|',
        forall|j: int| k <= j < c.len() ==> c[j] != '|',
    ensures
        ascii_version_of(c) == ({
            let kept = c.skip(k).filter(version_char_pred());
            if kept.len() >= 3 {
                Some(kept.take(3))
            } else {
                None::<Seq<char>>
            }
        }),
        php_version_of(c) == match regex_replaced(non_version_pattern(), c.skip(k), Seq::empty()) {
            Some(stripped) => first_three_bytes(
                if c.contains('|') {
                    trimmed(stripped)
                } else {
                    stripped
                },
            ),
            None => None,
        },
        !c.skip(k).contains('|'),
{
    lemma_last_bar_end(c);
    let k0 = last_bar_end(c);
    if k < k0 {
        assert(c[k0 - 1] == '|');
    }
    if k0 < k {
        assert(c[k - 1] == '|');
    }
    assert(k == k0);
    if c.skip(k).contains('|') {
        let j = choose|j: int| 0 <= j < c.skip(k).len() && c.skip(k)[j] == '|';
        assert(c[k + j] == '|');
    }
}

/// A text made of digits and dots has no surrounding whitespace, and its
/// first 3 bytes are its first 3 characters.
proof fn lemma_version_text(t: Seq<char>)
    requires
        forall|i: int| 0 <= i < t.len() ==> is_version_char(#[trigger] t[i]),
    ensures
        trimmed(t) == t,
        first_three_bytes(t) == if t.len() >= 3 {
            Some(t.take(3))
        } else {
            None::<Seq<char>>
        },
{
    broadcast use vstd::utf8::encode_utf8_valid_utf8, vstd::utf8::encode_utf8_decode_utf8;

    if t.len() > 0 {
        assert(is_version_char(t[0]));
        assert(is_version_char(t[t.len() - 1]));
    }
    assert(trim_start(t) == t);
    assert(trim_end(t) == t);
    assert(is_ascii_chars(t));
    let bytes = encode_utf8(t);
    vstd::utf8::is_ascii_chars_encode_utf8(t);
    if t.len() >= 3 {
        if t.len() == 3 {
            vstd::utf8::is_char_boundary_start_end_of_seq(bytes);
        } else {
            assert(is_version_char(t[3]));
            assert(bytes[3] == t[3] as u8);
            vstd::utf8::is_char_boundary_iff_is_leading_byte(bytes, 3);
        }
        let head = t.take(3);
        assert(is_ascii_chars(head));
        vstd::utf8::is_ascii_chars_encode_utf8(head);
        assert(encode_utf8(head) =~= bytes.take(3));
    } else {
        reveal_with_fuel(is_char_boundary, 1);
        assert(!is_char_boundary(bytes, 3));
    }
}

/// The version given by a constraint alternative `stripped` from which the
/// characters that are not part of a version number have been removed:
/// its first 3 bytes, after trimming whitespace when `trim_first` holds.
pub fn php_version_prefix(stripped: &str, trim_first: bool) -> (res: Option<String>)
    ensures
        res.deep_view() == first_three_bytes(
            if trim_first {
                trimmed(stripped@)
            } else {
                stripped@
            },
        ),
{
    let owned;
    let t: &str = if trim_first {
        owned = trim(stripped);
        owned.as_str()
    } else {
        stripped
    };
    assert(t@ == if trim_first { trimmed(stripped@) } else { stripped@ });
    proof {
        broadcast use vstd::utf8::encode_utf8_decode_utf8, vstd::utf8::encode_utf8_valid_utf8;
    }
    if t.is_char_boundary(3) {
        let (head, _tail) = t.split_at(3);
        let r = head.to_owned();
        proof {
            assert(head.spec_bytes() =~= encode_utf8(t@).take(3));
            assert(decode_utf8(encode_utf8(head@)) == head@);
            assert(r@ == decode_utf8(encode_utf8(t@).take(3)));
            assert(first_three_bytes(t@) == Some(r@));
        }
        Some(r)
    } else {
        assert(first_three_bytes(t@) is None);
        None
    }
}

/// The PHP version that the constraint asks for, or `None` where its first
/// 3 bytes cannot be cut out.
fn extract_php_version(version_str: &str) -> (res: Option<String>)
    ensures
        res.deep_view() == php_version_of(version_str@),
        is_ascii_chars(version_str@) ==> res.deep_view() == ascii_version_of(version_str@),
{
    let v = chars_of(version_str);
    let n: usize = v.len();
    let mut i: usize = 0;
    let mut start: usize = 0;
    let mut multi = false;
    assert(version_str@.take(0) =~= Seq::<char>::empty());
    while i < n
        invariant
            v@ == version_str@,
            n == v@.len(),
            i <= n,
            start as int == last_bar_end(version_str@.take(i as int)),
            start <= i,
            multi == version_str@.take(i as int).contains('|'),
        decreases n - i,
    {
        let ghost before = version_str@.take(i as int);
        assert(version_str@.take(i + 1).drop_last() =~= before);
        if v[i] == '|' {
            start = i + 1;
            multi = true;
            assert(version_str@.take(i + 1)[i as int] == '|');
        } else {
            proof {
                let after = version_str@.take(i + 1);
                assert(after =~= before.push(v@[i as int]));
                if after.contains('|') {
                    let k = choose|k: int| 0 <= k < after.len() && after[k] == '|';
                    assert(before[k] == '|');
                }
                if before.contains('|') {
                    let k = choose|k: int| 0 <= k < before.len() && before[k] == '|';
                    assert(after[k] == '|');
                }
            }
        }
        i = i + 1;
    }
    assert(version_str@.take(n as int) =~= version_str@);
    let segment = string_from_range(&v, start, n);
    assert(segment@ =~= version_str@.skip(start as int));
    proof {
        reveal_strlit("");
        assert(""@ == Seq::<char>::empty());
    }
    match regex_replace_all("[^\\d.]", segment.as_str(), "") {
        Some(stripped) => {
            proof {
                if is_ascii_chars(version_str@) {
                    assert(is_ascii_chars(segment@)) by {
                        assert forall|k: int| 0 <= k < segment@.len() implies '\0'
                            <= #[trigger] segment@[k] <= '\u{7f}' by {
                            assert(segment@[k] == version_str@[start + k]);
                        }
                    }
                    let kept = segment@.filter(version_char_pred());
                    assert(stripped@ == kept);
                    assert forall|k: int| 0 <= k < kept.len() implies is_version_char(
                        #[trigger] kept[k],
                    ) by {
                        segment@.lemma_filter_pred(version_char_pred(), k);
                    }
                    lemma_version_text(kept);
                }
            }
            php_version_prefix(stripped.as_str(), multi)
        },
        None => None,
    }
}

/// The compose file that creating a project writes is the one that
/// starting (and stopping) it brings up.
pub proof fn law_created_compose_is_started(home: Seq<char>, name: Seq<char>, content: Seq<char>)
    ensures
        file_steps(home, compose_yaml(name), content)[1] matches Step::Write(p, _, _) && p
            == crate::docker::project_up_args(home, name, compose_yaml(name))[2] && p
            == crate::docker::project_kill_args(home, name, compose_yaml(name))[2],
{
}

/// The certificate made for a project is for the host that its nginx
/// site serves: both name `{domain}.test`, with the project's domain.
pub proof fn law_certificate_names_site_host(name: Seq<char>)
    ensures
        has_substring(crate::ssl::ext_text(domain_of(name)), "DNS.1 = "@ + domain_of(name) + ".test"@),
        has_substring(
            site_text(domain_of(name), name),
            "server_name \""@ + domain_of(name) + ".test\""@,
        ),
{
    let domain = domain_of(name);
    let ext = crate::ssl::ext_text(domain);
    let head = crate::ssl::EXT_HEAD@;
    let alt = "DNS.1 = "@ + domain + ".test"@;
    assert(ext.subrange(head.len() as int, (head.len() + alt.len()) as int) =~= alt);
    assert(occurs_at(ext, alt, head.len() as int));
    let site = site_text(domain, name);
    let pre = stubs::nginx::SITE_0@;
    let line = stubs::nginx::server_name_line(domain);
    assert(site.subrange(pre.len() as int, (pre.len() + line.len()) as int) =~= line);
    assert(occurs_at(site, line, pre.len() as int));
}

/// The PHP version that the `require.php` constraint of `composer.json`
/// asks for (see `php_version_of`), as in `"^8.1"` → `"8.1"` or
/// `"^7.4|^8.0"` → `"8.0"`, for a constraint whose version part has at
/// least 3 bytes and a character boundary at byte 3.
pub fn get_php_version_from_composer(version_str: &str) -> (res: String)
    requires
        php_version_of(version_str@) is Some,
    ensures
        res@ == php_version_of(version_str@)->0,
        is_ascii_chars(version_str@) ==> ascii_version_of(version_str@) == Some(res@),
{
    match extract_php_version(version_str) {
        Some(version) => version,
        None => {
            assert(false);
            String::new()
        },
    }
}

/// The PHP version that the constraint asks for (see
/// `get_php_version_from_composer`), or `None` for a constraint whose
/// version part is shorter than 3 bytes or has no character boundary at
/// byte 3, on which cutting out the version would fail.
pub fn try_php_version(version_str: &str) -> (res: Option<String>)
    ensures
        res.deep_view() == php_version_of(version_str@),
        is_ascii_chars(version_str@) ==> res.deep_view() == ascii_version_of(version_str@),
{
    match extract_php_version(version_str) {
        Some(_) => Some(get_php_version_from_composer(version_str)),
        None => None,
    }
}

/// The message of the stop on a PHP version constraint from which no version
/// can be cut out (see `try_php_version`): creating the project stops there,
/// after its certificates are made.
pub open spec fn bad_version_message() -> Seq<char> {
    "byte index 3 is not a char boundary of the PHP version"@
}

/// The steps that create project `name` whose `composer.json` asks for
/// the PHP version constraint `php`: report, make the certificates; then,
/// once the version is known, write the project's compose file unless it
/// exists, write its nginx site, and start the services.
pub open spec fn create_plan(name: Seq<char>, php: Seq<char>, host: Host) -> Seq<Step> {
    let home = host.home@;
    seq![Step::Say(info_line("Creating project "@ + name))] + cert_steps(
        home,
        name,
        host.root_ca_exists,
        host.csr_exists,
    ) + match php_version_of(php) {
        None => seq![Step::Fail(bad_version_message())],
        Some(version) => (if host.compose_exists {
            Seq::empty()
        } else {
            file_steps(
                home,
                compose_yaml(name),
                project_compose_text(version, host.uid as nat, host.gid as nat, host.current_dir@),
            )
        }) + file_steps(home, "nginx/sites/"@ + name + ".conf"@, site_text(domain_of(name), name))
            + start_steps(home, name, compose_yaml(name)) + seq![Step::Say(Seq::empty())],
    }
}

/// The build arguments `- UID={uid}` and `- GID={gid}` of a compose service.
pub open spec fn id_arguments(uid: u32, gid: u32) -> Seq<char> {
    "- UID="@ + decimal(uid as nat) + "\n                - GID="@ + decimal(gid as nat)
}

/// The compose file that creating a project writes builds every service
/// as the host's user: its build arguments `- UID=` and `- GID=` carry the
/// host's user id and group id, in that order, for the php, composer and
/// artisan services; and it builds them on the PHP version that the
/// constraint asks for.
pub proof fn law_created_compose_uses_host_ids(name: Seq<char>, php: Seq<char>, host: Host)
    requires
        php_version_of(php) is Some,
        !host.compose_exists,
    ensures
        exists|w: int|
            {
                &&& 0 <= w < create_plan(name, php, host).len()
                &&& #[trigger] create_plan(name, php, host)[w] matches Step::Write(p, c, _) && p
                    == config_path(host.home@, compose_yaml(name)) && exists|i: int, j: int, k: int|
                    i < j < k && occurs_at(c, id_arguments(host.uid, host.gid), i) && occurs_at(
                        c,
                        id_arguments(host.uid, host.gid),
                        j,
                    ) && occurs_at(c, id_arguments(host.uid, host.gid), k)
            },
        exists|w: int|
            {
                &&& 0 <= w < create_plan(name, php, host).len()
                &&& #[trigger] create_plan(name, php, host)[w] matches Step::Write(p, c, _) && p
                    == config_path(host.home@, compose_yaml(name)) && exists|i: int|
                    occurs_at(
                        c,
                        "dockerfile: ../../php/"@ + php_version_of(php)->0 + "/Dockerfile"@,
                        i,
                    )
            },
{
    let home = host.home@;
    let version = php_version_of(php)->0;
    let content = project_compose_text(
        version,
        host.uid as nat,
        host.gid as nat,
        host.current_dir@,
    );
    crate::stubs::docker::law_compose_builds_with_the_given_ids(
        version,
        host.uid as nat,
        host.gid as nat,
        host.current_dir@,
    );
    let head = seq![Step::Say(info_line("Creating project "@ + name))] + cert_steps(
        home,
        name,
        host.root_ca_exists,
        host.csr_exists,
    );
    let files = file_steps(home, compose_yaml(name), content);
    let plan = create_plan(name, php, host);
    let w = head.len() as int + 1;
    assert(plan[w] == files[1]);
    assert(files[1] == Step::Write(
        config_path(home, compose_yaml(name)),
        content,
        Some("Error trying to write file"@),
    ));
    let d = id_arguments(host.uid, host.gid);
    let (i, j, k) = choose|i: int, j: int, k: int|
        i < j < k && occurs_at(content, d, i) && occurs_at(content, d, j) && occurs_at(
            content,
            d,
            k,
        );
    assert(occurs_at(content, d, i) && occurs_at(content, d, j) && occurs_at(content, d, k));
    assert(i < j < k);
    assert(0 <= w < plan.len());
    assert(plan[w] matches Step::Write(p, c, _) && p == config_path(home, compose_yaml(name)) && c
        == content);
    crate::stubs::docker::law_compose_uses_php_image_and_project_folder(
        version,
        host.uid as nat,
        host.gid as nat,
        host.current_dir@,
    );
    let b = "dockerfile: ../../php/"@ + version + "/Dockerfile"@;
    let (bi, bj, bk) = choose|i: int, j: int, k: int|
        i < j < k && occurs_at(content, b, i) && occurs_at(content, b, j) && occurs_at(
            content,
            b,
            k,
        );
    assert(occurs_at(content, b, bi));
}

/// The plan that creates project `name`, described by `composer`.
pub fn create(name: &str, composer: &Composer, host: &Host) -> (plan: Vec<Action>)
    ensures
        plan.deep_view() == create_plan(name@, composer.require.php@, *host),
{
    let home = host.home.as_str();
    let mut plan = vec![said("Creating project ", name)];
    append_actions(&mut plan, certs(home, name, host.root_ca_exists, host.csr_exists));
    match try_php_version(composer.require.php.as_str()) {
        None => {
            push_action(
                &mut plan,
                Action::Fail(
                    "byte index 3 is not a char boundary of the PHP version".to_owned(),
                ),
            );
        },
        Some(php) => {
            let yaml = compose_file(name);
            if !host.compose_exists {
                append_actions(
                    &mut plan,
                    create_file(
                        home,
                        yaml.as_str(),
                        stubs::docker::compose(
                            php.as_str(),
                            name,
                            host.uid,
                            host.gid,
                            host.current_dir.as_str(),
                        ),
                    ),
                );
            }
            let mut server = "nginx/sites/".to_owned();
            push_str(&mut server, name);
            push_str(&mut server, ".conf");
            append_actions(
                &mut plan,
                create_file(home, server.as_str(), stubs::nginx::project(name)),
            );
            append_actions(&mut plan, crate::docker::start(home, name, yaml.as_str()));
            push_action(&mut plan, Action::Say(String::new()));
        },
    }
    assert(plan.deep_view() =~= create_plan(name@, composer.require.php@, *host));
    plan
}

/// Every file that the steps write lies in the configuration folder under
/// `home`.
pub open spec fn writes_inside(steps: Seq<Step>, home: Seq<char>) -> bool {
    forall|i: int|
        0 <= i < steps.len() ==> (#[trigger] steps[i] matches Step::Write(p, _, _) ==> exists|
            rel: Seq<char>,
        | p == config_path(home, rel))
}

proof fn lemma_writes_inside_concat(a: Seq<Step>, b: Seq<Step>, home: Seq<char>)
    requires
        writes_inside(a, home),
        writes_inside(b, home),
    ensures
        writes_inside(a + b, home),
{
    assert forall|i: int| 0 <= i < (a + b).len() implies (#[trigger] (a + b)[i] matches Step::Write(
        p,
        _,
        _,
    ) ==> exists|rel: Seq<char>| p == config_path(home, rel)) by {
        if i < a.len() {
            assert((a + b)[i] == a[i]);
        } else {
            assert((a + b)[i] == b[i - a.len()]);
        }
    }
}

proof fn lemma_file_steps_inside(home: Seq<char>, p: Seq<char>, content: Seq<char>)
    ensures
        writes_inside(file_steps(home, p, content), home),
{
    let steps = file_steps(home, p, content);
    assert forall|i: int| 0 <= i < steps.len() implies (#[trigger] steps[i] matches Step::Write(
        q,
        _,
        _,
    ) ==> exists|rel: Seq<char>| q == config_path(home, rel)) by {
        if i == 1 {
            assert(steps[1] == Step::Write(config_path(home, p), content, Some("Error trying to write file"@)));
        }
    }
}

proof fn lemma_no_writes(steps: Seq<Step>, home: Seq<char>)
    requires
        forall|i: int| 0 <= i < steps.len() ==> !(#[trigger] steps[i] is Write),
    ensures
        writes_inside(steps, home),
{
}

proof fn lemma_structure_inside(host: Host)
    ensures
        writes_inside(structure_steps(host), host.home@),
{
    let home = host.home@;
    lemma_file_steps_inside(home, "php/8.1/Dockerfile"@, stubs::php::dockerfile81_text());
    lemma_file_steps_inside(home, "php/8.2/Dockerfile"@, stubs::php::dockerfile82_text());
    lemma_file_steps_inside(home, "nginx/Dockerfile"@, stubs::nginx::DOCKERFILE@);
    lemma_file_steps_inside(home, "nginx/conf.d/default.conf"@, stubs::nginx::DEFAULT_CONF@);
    lemma_file_steps_inside(
        home,
        "nginx/includes/https-redirect.conf"@,
        stubs::nginx::HTTPS_REDIRECT@,
    );
    let g = global_compose_text(host.uid as nat, host.gid as nat, host.projects_root@);
    lemma_file_steps_inside(home, "projects/global-compose.yaml"@, g);
    let a = file_steps(home, "php/8.1/Dockerfile"@, stubs::php::dockerfile81_text());
    let b = file_steps(home, "php/8.2/Dockerfile"@, stubs::php::dockerfile82_text());
    let c = file_steps(home, "nginx/Dockerfile"@, stubs::nginx::DOCKERFILE@);
    let d = file_steps(home, "nginx/conf.d/default.conf"@, stubs::nginx::DEFAULT_CONF@);
    let e = file_steps(home, "nginx/includes/https-redirect.conf"@, stubs::nginx::HTTPS_REDIRECT@);
    let f = file_steps(home, "projects/global-compose.yaml"@, g);
    let last: Seq<Step> = if host.projects_config_exists {
        Seq::empty()
    } else {
        seq![
            Step::Write(
                projects_config_path(home),
                "{\"aliases\": {}}"@,
                Some("Error trying to write projects config file"@),
            ),
        ]
    };
    assert(writes_inside(last, home)) by {
        if !host.projects_config_exists {
            assert(last[0] matches Step::Write(p, _, _) && p == config_path(home, "projects.json"@));
        }
    }
    lemma_writes_inside_concat(a, b, home);
    lemma_writes_inside_concat(a + b, c, home);
    lemma_writes_inside_concat(a + b + c, d, home);
    lemma_writes_inside_concat(a + b + c + d, e, home);
    lemma_writes_inside_concat(a + b + c + d + e, f, home);
    lemma_writes_inside_concat(a + b + c + d + e + f, last, home);
    assert(structure_steps(host) == a + b + c + d + e + f + last);
}

proof fn lemma_certs_inside(home: Seq<char>, name: Seq<char>, root_exists: bool, csr_exists: bool)
    ensures
        writes_inside(cert_steps(home, name, root_exists, csr_exists), home),
{
    let root = crate::ssl::root_ca_steps(home, root_exists);
    assert(writes_inside(root, home)) by {
        if !root_exists {
            assert(!(root[0] is Write));
            assert(!(root[1] is Write));
            assert(!(root[2] is Write));
        }
        lemma_no_writes(root, home);
    }
    let domain = domain_of(name);
    let project = crate::ssl::project_cert_steps(home, domain, csr_exists);
    assert(writes_inside(project, home)) by {
        assert forall|i: int| 0 <= i < project.len() implies (#[trigger] project[i] matches Step::Write(
            p,
            _,
            _,
        ) ==> exists|rel: Seq<char>| p == config_path(home, rel)) by {
            if !csr_exists && i == 3 {
                let rel = "nginx/certs/"@ + domain + ".ext"@;
                assert(project[3] == Step::Write(
                    config_path(home, rel),
                    crate::ssl::ext_text(domain),
                    None,
                ));
            }
        }
    }
    lemma_writes_inside_concat(root, project, home);
}

/// Every file that the plans write lies in the tool's configuration folder
/// (`~/.config/easily`): starting, stopping, halting and creating a
/// project write nothing elsewhere.
pub proof fn law_plans_write_only_in_config(name: Seq<char>, php: Seq<char>, host: Host)
    ensures
        writes_inside(start_plan(name, host), host.home@),
        writes_inside(stop_plan(name, host), host.home@),
        writes_inside(halt_plan(name, host), host.home@),
        writes_inside(create_plan(name, php, host), host.home@),
{
    let home = host.home@;
    let say_start = seq![Step::Say(info_line("Starting project "@ + name))];
    let say_stop = seq![Step::Say(info_line("Stopping project "@ + name))];
    let say_create = seq![Step::Say(info_line("Creating project "@ + name))];
    let blank = seq![Step::Say(Seq::<char>::empty())];
    lemma_no_writes(say_start, home);
    lemma_no_writes(say_stop, home);
    lemma_no_writes(say_create, home);
    lemma_no_writes(blank, home);
    let net = network_steps("easily"@, host.network_exists);
    assert(writes_inside(net, home)) by {
        if !host.network_exists {
            assert(!(net[0] is Write));
            assert(!(net[1] is Write));
        }
        lemma_no_writes(net, home);
    }
    let up = start_steps(home, name, compose_yaml(name));
    assert(!(up[0] is Write) && !(up[1] is Write));
    lemma_no_writes(up, home);
    let down = stop_steps(home, name, compose_yaml(name));
    assert(!(down[0] is Write));
    lemma_no_writes(down, home);
    let halted = halt_steps(home);
    assert(!(halted[0] is Write));
    lemma_no_writes(halted, home);
    lemma_structure_inside(host);
    let certs_steps = cert_steps(home, name, host.root_ca_exists, host.csr_exists);
    lemma_certs_inside(home, name, host.root_ca_exists, host.csr_exists);

    lemma_writes_inside_concat(say_start, net, home);
    lemma_writes_inside_concat(say_start + net, structure_steps(host), home);
    lemma_writes_inside_concat(say_start + net + structure_steps(host), certs_steps, home);
    lemma_writes_inside_concat(say_start + net + structure_steps(host) + certs_steps, up, home);
    lemma_writes_inside_concat(
        say_start + net + structure_steps(host) + certs_steps + up,
        blank,
        home,
    );

    lemma_writes_inside_concat(say_stop, down, home);
    lemma_writes_inside_concat(say_stop + down, blank, home);
    lemma_writes_inside_concat(halted, stop_plan(name, host), home);
    lemma_writes_inside_concat(halted + stop_plan(name, host), blank, home);

    lemma_writes_inside_concat(say_create, certs_steps, home);
    match php_version_of(php) {
        None => {
            let failed = seq![Step::Fail(bad_version_message())];
            assert(!(failed[0] is Write));
            lemma_no_writes(failed, home);
            lemma_writes_inside_concat(say_create + certs_steps, failed, home);
        },
        Some(version) => {
            let compose: Seq<Step> = if host.compose_exists {
                Seq::empty()
            } else {
                file_steps(
                    home,
                    compose_yaml(name),
                    project_compose_text(
                        version,
                        host.uid as nat,
                        host.gid as nat,
                        host.current_dir@,
                    ),
                )
            };
            assert(writes_inside(compose, home)) by {
                if !host.compose_exists {
                    lemma_file_steps_inside(
                        home,
                        compose_yaml(name),
                        project_compose_text(
                            version,
                            host.uid as nat,
                            host.gid as nat,
                            host.current_dir@,
                        ),
                    );
                }
            }
            let site = file_steps(
                home,
                "nginx/sites/"@ + name + ".conf"@,
                site_text(domain_of(name), name),
            );
            lemma_file_steps_inside(
                home,
                "nginx/sites/"@ + name + ".conf"@,
                site_text(domain_of(name), name),
            );
            lemma_writes_inside_concat(compose, site, home);
            lemma_writes_inside_concat(compose + site, up, home);
            lemma_writes_inside_concat(compose + site + up, blank, home);
            lemma_writes_inside_concat(say_create + certs_steps, compose + site + up + blank, home);
        },
    }
}

} // verus!
