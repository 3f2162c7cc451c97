//! Local TLS certificates: the domain of a project, the root certificate
//! authority and the certificate of each project, made with `openssl`.

use vstd::prelude::*;
use crate::action::{Action, Step, push_action};
use crate::config::{config_path, path};
use crate::projects::{create_folder, folder_step};
use crate::text::{chars_of, push_char, push_str, string_from_range};

verus! {

/// What `slug::slugify` returns for `s`.
pub uninterp spec fn slugified(s: Seq<char>) -> Seq<char>;

/// A slug: only `a`-`z`, `0`-`9` and `-`, never two `-` in a row, and
/// neither starting nor ending with `-`.
pub open spec fn is_slug(t: Seq<char>) -> bool {
    &&& forall|i: int|
        0 <= i < t.len() ==> (('a' <= t[i] && t[i] <= 'z') || ('0' <= t[i] && t[i] <= '9')
            || t[i] == '-')
    &&& forall|i: int| 0 <= i < t.len() - 1 ==> !(#[trigger] t[i] == '-' && t[i + 1] == '-')
    &&& t.len() > 0 ==> t[0] != '-' && t.last() != '-'
}

/// `slug::slugify`. Believed of it: the result is `slugified(s)`, and it is
/// a slug as its documentation promises (see `is_slug`). How non-ASCII
/// characters are transliterated is not stated.
#[verifier::external_body]
fn slugify(s: &str) -> (res: String)
    ensures
        res@ == slugified(s@),
        is_slug(res@),
{
    slug::slugify(s)
}

/// The part of `s` before its first `/` (all of `s` when it has none).
pub open spec fn before_slash(s: Seq<char>) -> Seq<char>
    decreases s.len(),
{
    if s.len() == 0 {
        s
    } else if s[0] == '/' {
        Seq::empty()
    } else {
        seq![s[0]] + before_slash(s.drop_first())
    }
}

/// `s` with every `/` replaced by `-`.
pub open spec fn dashed(s: Seq<char>) -> Seq<char> {
    s.map_values(|c: char| if c == '/' { '-' } else { c })
}

/// The domain of the project `name`: the name itself when it has no `/`;
/// otherwise, for `vendor/a/b`, the slug of `a-b`, a dot and `vendor`.
pub open spec fn domain_of(name: Seq<char>) -> Seq<char> {
    if !name.contains('/') {
        name
    } else {
        let vendor = before_slash(name);
        slugified(dashed(name.skip(vendor.len() as int + 1))) + "."@ + vendor
    }
}

proof fn lemma_before_slash(s: Seq<char>, i: int)
    requires
        0 <= i < s.len(),
        s[i] == '/',
        forall|k: int| 0 <= k < i ==> s[k] != '/',
    ensures
        before_slash(s) == s.take(i),
    decreases i,
{
    if i > 0 {
        let rest = s.drop_first();
        assert forall|k: int| 0 <= k < i - 1 implies rest[k] != '/' by {
            assert(rest[k] == s[k + 1]);
        }
        lemma_before_slash(rest, i - 1);
        assert(seq![s[0]] + rest.take(i - 1) =~= s.take(i));
    } else {
        assert(s.take(0) =~= Seq::<char>::empty());
    }
}

/// The domain made of a slug and a vendor name: `"{slug}.{vendor}"`.
pub fn domain_from_slug(slug: &str, vendor: &str) -> (res: String)
    ensures
        res@ == slug@ + "."@ + vendor@,
{
    let mut res = String::new();
    push_str(&mut res, slug);
    push_str(&mut res, ".");
    push_str(&mut res, vendor);
    assert(res@ =~= slug@ + "."@ + vendor@);
    res
}

/// The domain of the project `name` (see `domain_of`); it holds no `/`,
/// so it can name a single file.
pub fn project_name_to_domain(name: &str) -> (res: String)
    ensures
        res@ == domain_of(name@),
        name@.contains('/') ==> is_slug(
            slugified(dashed(name@.skip(before_slash(name@).len() as int + 1))),
        ),
        !res@.contains('/'),
{
    let v = chars_of(name);
    let n: usize = v.len();
    let mut i: usize = 0;
    while i < n && v[i] != '/'
        invariant
            v@ == name@,
            n == v@.len(),
            i <= n,
            forall|k: int| 0 <= k < i ==> v@[k] != '/',
        decreases n - i,
    {
        i = i + 1;
    }
    if i == n {
        assert(!name@.contains('/')) by {
            if name@.contains('/') {
                let k = choose|k: int| 0 <= k < name@.len() && name@[k] == '/';
                assert(v@[k] != '/');
            }
        }
        return name.to_owned();
    }
    proof {
        lemma_before_slash(name@, i as int);
        assert(name@.contains('/')) by {
            assert(name@[i as int] == '/');
        }
    }
    let vendor = string_from_range(&v, 0, i);
    let mut rest = String::new();
    let mut j: usize = i + 1;
    while j < n
        invariant
            v@ == name@,
            n == v@.len(),
            i + 1 <= j <= n,
            rest@ == dashed(name@.subrange(i + 1, j as int)),
        decreases n - j,
    {
        let c = v[j];
        if c == '/' {
            push_char(&mut rest, '-');
        } else {
            push_char(&mut rest, c);
        }
        j = j + 1;
        assert(rest@ =~= dashed(name@.subrange(i + 1, j as int)));
    }
    assert(name@.subrange(i + 1, n as int) =~= name@.skip(i + 1));
    let slug = slugify(rest.as_str());
    let res = domain_from_slug(slug.as_str(), vendor.as_str());
    proof {
        let sl = slug@;
        let ve = vendor@;
        assert(res@ =~= sl + "."@ + ve);
        reveal_strlit(".");
        if res@.contains('/') {
            let k = choose|k: int| 0 <= k < res@.len() && res@[k] == '/';
            if k < sl.len() {
                assert(res@[k] == sl[k]);
            } else if k == sl.len() {
                assert(res@[k] == '.');
            } else {
                assert(res@[k] == ve[k - sl.len() - 1]);
                assert(ve[k - sl.len() - 1] == v@[k - sl.len() - 1]);
            }
        }
    }
    res
}

/// The root authority's private key file.
pub open spec fn root_key_file(home: Seq<char>) -> Seq<char> {
    config_path(home, "ssl/rootCA.key"@)
}

/// The root authority's certificate file.
pub open spec fn root_pem_file(home: Seq<char>) -> Seq<char> {
    config_path(home, "ssl/rootCA.pem"@)
}

/// The subject of every certificate the tool makes.
pub open spec fn subject() -> Seq<char> {
    "/O=Acme/C=CA/ST=Canada/L=Canada/O=IT/CN=server.example.com"@
}

/// The `openssl` arguments that make the root authority's key.
pub open spec fn root_genrsa_args(home: Seq<char>) -> Seq<Seq<char>> {
    seq!["genrsa"@, "-des3"@, "-passout"@, "pass:secret"@, "-out"@, root_key_file(home), "2048"@]
}

/// The `openssl` arguments that make the root authority's certificate.
pub open spec fn root_req_args(home: Seq<char>) -> Seq<Seq<char>> {
    seq![
        "req"@,
        "-x509"@,
        "-new"@,
        "-nodes"@,
        "-key"@,
        root_key_file(home),
        "-sha256"@,
        "-days"@,
        "1825"@,
        "-passin"@,
        "pass:secret"@,
        "-out"@,
        root_pem_file(home),
        "-subj"@,
        subject(),
    ]
}

/// The steps that make the root authority, none when its certificate exists.
pub open spec fn root_ca_steps(home: Seq<char>, root_exists: bool) -> Seq<Step> {
    if root_exists {
        Seq::empty()
    } else {
        seq![
            folder_step(root_pem_file(home)),
            Step::RunQuiet("openssl"@, root_genrsa_args(home)),
            Step::RunQuiet("openssl"@, root_req_args(home)),
        ]
    }
}

/// The root authority's certificate file under the home folder `home`.
pub fn root_pem(home: &str) -> (res: String)
    ensures
        res@ == root_pem_file(home@),
{
    path(home, "ssl/rootCA.pem")
}

/// The plan that makes the root certificate authority under the home folder
/// `home`; `root_exists` tells whether its certificate exists already.
pub fn create_root_ca(home: &str, root_exists: bool) -> (plan: Vec<Action>)
    ensures
        plan.deep_view() == root_ca_steps(home@, root_exists),
{
    let mut plan: Vec<Action> = Vec::new();
    if root_exists {
        assert(plan.deep_view() =~= root_ca_steps(home@, root_exists));
        return plan;
    }
    let key_path = path(home, "ssl/rootCA.key");
    let pem_path = path(home, "ssl/rootCA.pem");
    push_action(&mut plan, create_folder(pem_path.as_str()));
    let genrsa = vec![
        "genrsa".to_owned(),
        "-des3".to_owned(),
        "-passout".to_owned(),
        "pass:secret".to_owned(),
        "-out".to_owned(),
        key_path.clone(),
        "2048".to_owned(),
    ];
    assert(genrsa.deep_view() =~= root_genrsa_args(home@));
    push_action(&mut plan, Action::RunQuiet("openssl".to_owned(), genrsa));
    let req = vec![
        "req".to_owned(),
        "-x509".to_owned(),
        "-new".to_owned(),
        "-nodes".to_owned(),
        "-key".to_owned(),
        key_path,
        "-sha256".to_owned(),
        "-days".to_owned(),
        "1825".to_owned(),
        "-passin".to_owned(),
        "pass:secret".to_owned(),
        "-out".to_owned(),
        pem_path,
        "-subj".to_owned(),
        "/O=Acme/C=CA/ST=Canada/L=Canada/O=IT/CN=server.example.com".to_owned(),
    ];
    assert(req.deep_view() =~= root_req_args(home@));
    push_action(&mut plan, Action::RunQuiet("openssl".to_owned(), req));
    assert(plan.deep_view() =~= root_ca_steps(home@, root_exists));
    plan
}

/// A file of the project certificates for `domain`: `nginx/certs/{domain}{suffix}`
/// in the configuration folder.
pub open spec fn cert_file(home: Seq<char>, domain: Seq<char>, suffix: Seq<char>) -> Seq<char> {
    config_path(home, "nginx/certs/"@ + domain + suffix)
}

/// The start of the `openssl` extension file of a project certificate.
pub const EXT_HEAD: &'static str = "authorityKeyIdentifier=keyid,issuer\nbasicConstraints=CA:FALSE\nkeyUsage = digitalSignature, nonRepudiation, keyEncipherment, dataEncipherment\nsubjectAltName = @alt_names\n\n[alt_names]\n";

/// The line that names the host a certificate is for: `{domain}.test`.
pub open spec fn alt_name_line(domain: Seq<char>) -> Seq<char> {
    "DNS.1 = "@ + domain + ".test"@
}

/// The `openssl` extension file for the certificate of `domain`.
pub open spec fn ext_text(domain: Seq<char>) -> Seq<char> {
    EXT_HEAD@ + alt_name_line(domain)
}

/// The `openssl` arguments that sign the request of a project certificate.
pub open spec fn sign_args(home: Seq<char>, domain: Seq<char>) -> Seq<Seq<char>> {
    seq![
        "x509"@,
        "-req"@,
        "-in"@,
        cert_file(home, domain, ".test.csr"@),
        "-CA"@,
        root_pem_file(home),
        "-CAkey"@,
        root_key_file(home),
        "-CAcreateserial"@,
        "-out"@,
        cert_file(home, domain, ".test.crt"@),
        "-days"@,
        "1825"@,
        "-sha256"@,
        "-extfile"@,
        cert_file(home, domain, ".ext"@),
        "-passin"@,
        "pass:secret"@,
    ]
}

/// The steps that make the certificate of a project with domain `domain`,
/// once the root authority exists; none but the folder when its signing
/// request exists already.
pub open spec fn project_cert_steps(home: Seq<char>, domain: Seq<char>, csr_exists: bool) -> Seq<
    Step,
> {
    let key = cert_file(home, domain, ".test.key"@);
    let csr = cert_file(home, domain, ".test.csr"@);
    seq![folder_step(cert_file(home, domain, ".test.crt"@))] + if csr_exists {
        Seq::empty()
    } else {
        seq![
            Step::RunQuiet("openssl"@, seq!["genrsa"@, "-out"@, key, "2048"@]),
            Step::RunQuiet(
                "openssl"@,
                seq!["req"@, "-new"@, "-key"@, key, "-out"@, csr, "-subj"@, subject()],
            ),
            Step::Write(cert_file(home, domain, ".ext"@), ext_text(domain), None),
            Step::RunQuiet("openssl"@, sign_args(home, domain)),
        ]
    }
}

/// The steps that make the certificates of the project `name`.
pub open spec fn cert_steps(home: Seq<char>, name: Seq<char>, root_exists: bool, csr_exists: bool) -> Seq<
    Step,
> {
    root_ca_steps(home, root_exists) + project_cert_steps(home, domain_of(name), csr_exists)
}

/// The `openssl` steps that make a project's certificates hand their files
/// on: the root request signs with the root key written just before; the
/// project request uses the project key; and the signing step reads the
/// project request (`-in`), the root certificate (`-CA`, written by the root
/// request's `-out`), the root key (`-CAkey`, written by the root key
/// step's `-out`) and the extension file written just before it.
pub proof fn law_certificate_steps_use_the_files_they_write(home: Seq<char>, name: Seq<char>)
    ensures
        ({
            let st = cert_steps(home, name, false, false);
            &&& st.len() == 8
            &&& st[1] matches Step::RunQuiet(_, root_key)
            &&& st[2] matches Step::RunQuiet(_, root_req)
            &&& st[4] matches Step::RunQuiet(_, key)
            &&& st[5] matches Step::RunQuiet(_, req)
            &&& st[6] matches Step::Write(ext, _, _)
            &&& st[7] matches Step::RunQuiet(_, sign)
            &&& root_key[4] == "-out"@ && root_req[4] == "-key"@ && root_req[5] == root_key[5]
            &&& root_req[11] == "-out"@
            &&& key[1] == "-out"@ && req[2] == "-key"@ && req[3] == key[2] && req[4] == "-out"@
            &&& sign[2] == "-in"@ && sign[3] == req[5]
            &&& sign[4] == "-CA"@ && sign[5] == root_req[12]
            &&& sign[6] == "-CAkey"@ && sign[7] == root_key[5]
            &&& sign[14] == "-extfile"@ && sign[15] == ext
        }),
{
    let st = cert_steps(home, name, false, false);
    assert(st == root_ca_steps(home, false) + project_cert_steps(home, domain_of(name), false));
    assert(st[1] == root_ca_steps(home, false)[1]);
    assert(st[2] == root_ca_steps(home, false)[2]);
    assert(st[4] == project_cert_steps(home, domain_of(name), false)[1]);
    assert(st[5] == project_cert_steps(home, domain_of(name), false)[2]);
    assert(st[6] == project_cert_steps(home, domain_of(name), false)[3]);
    assert(st[7] == project_cert_steps(home, domain_of(name), false)[4]);
}

/// The file `nginx/certs/{domain}{suffix}` in the configuration folder.
fn cert_path(home: &str, domain: &str, suffix: &str) -> (res: String)
    ensures
        res@ == cert_file(home@, domain@, suffix@),
{
    let mut rel = String::new();
    push_str(&mut rel, "nginx/certs/");
    push_str(&mut rel, domain);
    push_str(&mut rel, suffix);
    assert(rel@ =~= "nginx/certs/"@ + domain@ + suffix@);
    path(home, rel.as_str())
}

/// The signing request file of the certificate of project `name`; the
/// certificate is made only while this file does not exist.
pub fn csr_file(home: &str, name: &str) -> (res: String)
    ensures
        res@ == cert_file(home@, domain_of(name@), ".test.csr"@),
{
    let domain = project_name_to_domain(name);
    cert_path(home, domain.as_str(), ".test.csr")
}

/// The `openssl` extension file text for `domain`.
pub fn ext_content(domain: &str) -> (res: String)
    ensures
        res@ == ext_text(domain@),
{
    let mut line = "DNS.1 = ".to_owned();
    push_str(&mut line, domain);
    push_str(&mut line, ".test");
    let mut res = EXT_HEAD.to_owned();
    push_str(&mut res, line.as_str());
    assert(res@ =~= ext_text(domain@));
    res
}

/// The plan that makes the TLS certificate of project `name` under the home
/// folder `home`, with the root authority first. `root_exists` tells whether
/// the root certificate exists, `csr_exists` whether the project's signing
/// request (see `csr_file`) exists.
pub fn certs(home: &str, name: &str, root_exists: bool, csr_exists: bool) -> (plan: Vec<Action>)
    ensures
        plan.deep_view() == cert_steps(home@, name@, root_exists, csr_exists),
{
    let mut plan = create_root_ca(home, root_exists);
    let ghost root_steps = plan.deep_view();
    let domain = project_name_to_domain(name);
    let d = domain.as_str();
    let keyfile = cert_path(home, d, ".test.key");
    let csrfile = cert_path(home, d, ".test.csr");
    let crtfile = cert_path(home, d, ".test.crt");
    let extfile = cert_path(home, d, ".ext");
    push_action(&mut plan, create_folder(crtfile.as_str()));
    if csr_exists {
        assert(plan.deep_view() =~= cert_steps(home@, name@, root_exists, csr_exists));
        return plan;
    }
    let genrsa = vec!["genrsa".to_owned(), "-out".to_owned(), keyfile.clone(), "2048".to_owned()];
    assert(genrsa.deep_view() =~= seq!["genrsa"@, "-out"@, keyfile@, "2048"@]);
    push_action(&mut plan, Action::RunQuiet("openssl".to_owned(), genrsa));
    let req = vec![
        "req".to_owned(),
        "-new".to_owned(),
        "-key".to_owned(),
        keyfile,
        "-out".to_owned(),
        csrfile.clone(),
        "-subj".to_owned(),
        "/O=Acme/C=CA/ST=Canada/L=Canada/O=IT/CN=server.example.com".to_owned(),
    ];
    assert(req.deep_view() =~= seq![
        "req"@,
        "-new"@,
        "-key"@,
        cert_file(home@, domain_of(name@), ".test.key"@),
        "-out"@,
        csrfile@,
        "-subj"@,
        subject(),
    ]);
    push_action(&mut plan, Action::RunQuiet("openssl".to_owned(), req));
    push_action(&mut plan, Action::Write(extfile.clone(), ext_content(d), None));
    let sign = vec![
        "x509".to_owned(),
        "-req".to_owned(),
        "-in".to_owned(),
        csrfile,
        "-CA".to_owned(),
        root_pem(home),
        "-CAkey".to_owned(),
        path(home, "ssl/rootCA.key"),
        "-CAcreateserial".to_owned(),
        "-out".to_owned(),
        crtfile,
        "-days".to_owned(),
        "1825".to_owned(),
        "-sha256".to_owned(),
        "-extfile".to_owned(),
        extfile,
        "-passin".to_owned(),
        "pass:secret".to_owned(),
    ];
    assert(sign.deep_view() =~= sign_args(home@, domain_of(name@)));
    push_action(&mut plan, Action::RunQuiet("openssl".to_owned(), sign));
    assert(plan.deep_view() =~= cert_steps(home@, name@, root_exists, csr_exists));
    plan
}

} // verus!
