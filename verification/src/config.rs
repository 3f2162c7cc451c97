//! Where the tool keeps its files, and its persisted configuration: the
//! folder that holds the projects and the aliases of project names.

use vstd::prelude::*;
use crate::text::{chars_of, collapse_slashes, push_str, replace_double_slash};

verus! {

/// The location of `p` inside the tool's configuration folder under `home`:
/// `"{home}/.config/easily/{p}"` with every `"//"` replaced by `"/"`.
pub open spec fn config_path(home: Seq<char>, p: Seq<char>) -> Seq<char> {
    collapse_slashes(home + "/.config/easily/"@ + p)
}

/// The location of `p` inside the tool's configuration folder under the
/// home folder `home`.
pub fn path(home: &str, p: &str) -> (res: String)
    ensures
        res@ == config_path(home@, p@),
{
    let mut joined = String::new();
    push_str(&mut joined, home);
    push_str(&mut joined, "/.config/easily/");
    push_str(&mut joined, p);
    assert(joined@ =~= home@ + "/.config/easily/"@ + p@);
    let v = chars_of(joined.as_str());
    replace_double_slash(&v)
}

/// What `std::path::Path::parent` returns for the path `p`, as text.
pub uninterp spec fn path_parent(p: Seq<char>) -> Option<Seq<char>>;

/// `std::path::Path::parent`. Believed of it: the result is
/// `path_parent(p)`; the empty path has no parent; a parent is a strict
/// prefix of the path (the path without its final component).
#[verifier::external_body]
pub(crate) fn parent_of(p: &str) -> (res: Option<String>)
    ensures
        res.deep_view() == path_parent(p@),
        p@.len() == 0 ==> res is None,
        res matches Some(q) ==> q@.len() < p@.len() && q@ == p@.take(q@.len() as int),
{
    match std::path::Path::new(p).parent() {
        Some(q) => Some(q.to_string_lossy().into_owned()),
        None => None,
    }
}

/// The folder that holds `current_dir`, for a directory that has one.
pub fn parent_dir(current_dir: &str) -> (res: String)
    requires
        path_parent(current_dir@) is Some,
    ensures
        res@ == path_parent(current_dir@)->0,
{
    match parent_of(current_dir) {
        Some(q) => q,
        None => {
            assert(false);
            String::new()
        },
    }
}

/// The folder that holds `current_dir`, or `None` for a path without one
/// (the root folder, the empty path).
pub fn try_parent_dir(current_dir: &str) -> (res: Option<String>)
    ensures
        res.deep_view() == path_parent(current_dir@),
{
    match parent_of(current_dir) {
        Some(_) => Some(parent_dir(current_dir)),
        None => None,
    }
}

/// The value bound to `key` by the first entry of `entries` that has it.
pub open spec fn lookup(entries: Seq<(Seq<char>, Seq<char>)>, key: Seq<char>) -> Option<Seq<char>>
    decreases entries.len(),
{
    if entries.len() == 0 {
        None
    } else if entries[0].0 == key {
        Some(entries[0].1)
    } else {
        lookup(entries.drop_first(), key)
    }
}

/// No key occurs twice in `entries`.
pub open spec fn distinct_keys(entries: Seq<(Seq<char>, Seq<char>)>) -> bool {
    forall|i: int, j: int|
        0 <= i < entries.len() && 0 <= j < entries.len() && i != j ==> entries[i].0
            != entries[j].0
}

/// The map that the entries describe.
pub open spec fn entries_map(entries: Seq<(Seq<char>, Seq<char>)>) -> Map<Seq<char>, Seq<char>> {
    Map::new(|k: Seq<char>| lookup(entries, k) is Some, |k: Seq<char>| lookup(entries, k)->0)
}

/// `lookup` finds the entry at `i` when the keys are distinct.
pub proof fn lemma_lookup_at(entries: Seq<(Seq<char>, Seq<char>)>, i: int)
    requires
        distinct_keys(entries),
        0 <= i < entries.len(),
    ensures
        lookup(entries, entries[i].0) == Some(entries[i].1),
    decreases entries.len(),
{
    if i > 0 {
        let rest = entries.drop_first();
        assert(distinct_keys(rest)) by {
            assert forall|a: int, b: int|
                0 <= a < rest.len() && 0 <= b < rest.len() && a != b implies rest[a].0
                != rest[b].0 by {
                assert(rest[a] == entries[a + 1]);
                assert(rest[b] == entries[b + 1]);
            }
        }
        assert(entries[0].0 != entries[i].0);
        lemma_lookup_at(rest, i - 1);
    }
}

/// `lookup` finds nothing for a key that no entry has.
pub proof fn lemma_lookup_absent(entries: Seq<(Seq<char>, Seq<char>)>, key: Seq<char>)
    requires
        forall|i: int| 0 <= i < entries.len() ==> entries[i].0 != key,
    ensures
        lookup(entries, key) is None,
    decreases entries.len(),
{
    if entries.len() > 0 {
        let rest = entries.drop_first();
        assert forall|i: int| 0 <= i < rest.len() implies rest[i].0 != key by {
            assert(rest[i] == entries[i + 1]);
        }
        lemma_lookup_absent(rest, key);
    }
}

/// With distinct keys, `lookup` gives the value of the entry that has the key,
/// and nothing when no entry has it.
pub proof fn lemma_lookup_distinct(entries: Seq<(Seq<char>, Seq<char>)>, key: Seq<char>)
    requires
        distinct_keys(entries),
    ensures
        forall|i: int| 0 <= i < entries.len() && entries[i].0 == key ==> lookup(entries, key)
            == Some(entries[i].1),
        (forall|i: int| 0 <= i < entries.len() ==> entries[i].0 != key) ==> lookup(
            entries,
            key,
        ) is None,
{
    assert forall|i: int| 0 <= i < entries.len() && entries[i].0 == key implies lookup(
        entries,
        key,
    ) == Some(entries[i].1) by {
        lemma_lookup_at(entries, i);
    }
    if forall|i: int| 0 <= i < entries.len() ==> entries[i].0 != key {
        lemma_lookup_absent(entries, key);
    }
}

/// Aliases of project names: a finite map from names to the names to use
/// in their place, kept as a list of entries with distinct keys.
pub struct Aliases {
    entries: Vec<(String, String)>,
}

impl Aliases {
    /// The entries, as text pairs.
    pub closed spec fn entries_view(&self) -> Seq<(Seq<char>, Seq<char>)> {
        self.entries.deep_view()
    }

    #[verifier::type_invariant]
    spec fn wf(&self) -> bool {
        distinct_keys(self.entries.deep_view())
    }
}

impl View for Aliases {
    type V = Map<Seq<char>, Seq<char>>;

    closed spec fn view(&self) -> Map<Seq<char>, Seq<char>> {
        entries_map(self.entries.deep_view())
    }
}

impl Aliases {
    /// No aliases.
    pub fn new() -> (res: Aliases)
        ensures
            res@ == Map::<Seq<char>, Seq<char>>::empty(),
    {
        let res = Aliases { entries: Vec::new() };
        assert(res@ =~= Map::<Seq<char>, Seq<char>>::empty());
        res
    }

    /// The index of the entry whose key is `key`, if there is one.
    fn find(&self, key: &String) -> (res: Option<usize>)
        ensures
            match res {
                Some(j) => j < self.entries_view().len() && self.entries_view()[j as int].0
                    == key@,
                None => forall|i: int|
                    0 <= i < self.entries_view().len() ==> self.entries_view()[i].0 != key@,
            },
    {
        let n: usize = self.entries.len();
        let mut i: usize = 0;
        while i < n
            invariant
                n == self.entries_view().len(),
                i <= n,
                forall|m: int| 0 <= m < i ==> self.entries_view()[m].0 != key@,
            decreases n - i,
        {
            if self.entries[i].0 == *key {
                return Some(i);
            }
            i = i + 1;
        }
        None
    }

    /// Binds `key` to `value`, replacing any value it had.
    pub fn insert(&mut self, key: &str, value: &str)
        ensures
            final(self)@ == old(self)@.insert(key@, value@),
    {
        proof {
            use_type_invariant(&*self);
        }
        let k = key.to_owned();
        let v = value.to_owned();
        let ghost old_entries = self.entries_view();
        let ghost new_entries;
        let found = self.find(&k);
        let mut es: Vec<(String, String)> = Vec::new();
        std::mem::swap(&mut es, &mut self.entries);
        assert(es.deep_view() == old_entries);
        match found {
            Some(j) => {
                proof {
                    new_entries = old_entries.update(j as int, (key@, value@));
                    assert(distinct_keys(new_entries)) by {
                        assert forall|a: int, b: int|
                            0 <= a < new_entries.len() && 0 <= b < new_entries.len() && a
                                != b implies new_entries[a].0 != new_entries[b].0 by {
                            if a != j && b != j {
                                assert(new_entries[a] == old_entries[a]);
                                assert(new_entries[b] == old_entries[b]);
                            } else if a == j {
                                assert(new_entries[b] == old_entries[b]);
                            } else {
                                assert(new_entries[a] == old_entries[a]);
                            }
                        }
                    }
                }
                es.set(j, (k, v));
                assert(es.deep_view() =~= new_entries);
                self.entries = es;
                proof {
                    lemma_lookup_distinct(new_entries, key@);
                    assert(new_entries[j as int].0 == key@);
                    assert(lookup(new_entries, key@) == Some(value@));
                }
            },
            None => {
                proof {
                    new_entries = old_entries.push((key@, value@));
                }
                assert(distinct_keys(new_entries)) by {
                    assert forall|a: int, b: int|
                        0 <= a < new_entries.len() && 0 <= b < new_entries.len() && a
                            != b implies new_entries[a].0 != new_entries[b].0 by {
                        if a < old_entries.len() && b < old_entries.len() {
                            assert(new_entries[a] == old_entries[a]);
                            assert(new_entries[b] == old_entries[b]);
                        } else if a < old_entries.len() {
                            assert(new_entries[a] == old_entries[a]);
                        } else {
                            assert(new_entries[b] == old_entries[b]);
                        }
                    }
                }
                es.push((k, v));
                assert(es.deep_view() =~= new_entries);
                self.entries = es;
                proof {
                    lemma_lookup_distinct(new_entries, key@);
                    let last = old_entries.len() as int;
                    assert(new_entries[last].0 == key@);
                    assert(lookup(new_entries, key@) == Some(value@));
                }
            },
        }
        assert(self.entries_view() == new_entries);
        proof {
            assert forall|other: Seq<char>| other != key@ implies lookup(new_entries, other)
                == lookup(old_entries, other) by {
                lemma_lookup_distinct(old_entries, other);
                lemma_lookup_distinct(new_entries, other);
                if exists|i: int| 0 <= i < old_entries.len() && old_entries[i].0 == other {
                    let i = choose|i: int| 0 <= i < old_entries.len() && old_entries[i].0 == other;
                    assert(new_entries[i] == old_entries[i]);
                } else {
                    assert forall|i: int| 0 <= i < new_entries.len() implies new_entries[i].0
                        != other by {
                        if i < old_entries.len() && new_entries[i] == old_entries[i] {
                        }
                    }
                }
            }
            assert(self@ =~= old(self)@.insert(key@, value@));
        }
    }

    /// Whether `key` has an alias.
    pub fn contains_key(&self, key: &str) -> (b: bool)
        ensures
            b == self@.contains_key(key@),
    {
        proof {
            use_type_invariant(self);
            lemma_lookup_distinct(self.entries_view(), key@);
        }
        let k = key.to_owned();
        match self.find(&k) {
            Some(_) => true,
            None => false,
        }
    }

    /// The alias of `key`, if it has one.
    pub fn get(&self, key: &str) -> (res: Option<String>)
        ensures
            res.deep_view() == if self@.contains_key(key@) {
                Some(self@[key@])
            } else {
                None::<Seq<char>>
            },
    {
        proof {
            use_type_invariant(self);
            lemma_lookup_distinct(self.entries_view(), key@);
        }
        let k = key.to_owned();
        match self.find(&k) {
            Some(j) => Some(self.entries[j].1.clone()),
            None => None,
        }
    }

    /// The aliases as pairs of name and alias, each name once.
    pub fn entries(&self) -> (res: Vec<(String, String)>)
        ensures
            distinct_keys(res.deep_view()),
            entries_map(res.deep_view()) == self@,
    {
        proof {
            use_type_invariant(self);
        }
        let n: usize = self.entries.len();
        let mut res: Vec<(String, String)> = Vec::new();
        let mut i: usize = 0;
        while i < n
            invariant
                n == self.entries_view().len(),
                i <= n,
                res.deep_view() == self.entries_view().take(i as int),
            decreases n - i,
        {
            let (a, b) = (self.entries[i].0.clone(), self.entries[i].1.clone());
            let ghost before = res.deep_view();
            res.push((a, b));
            assert(res.deep_view() =~= before.push(self.entries_view()[i as int]));
            assert(self.entries_view().take(i + 1) =~= self.entries_view().take(i as int).push(
                self.entries_view()[i as int],
            ));
            i = i + 1;
        }
        assert(self.entries_view().take(n as int) =~= self.entries_view());
        res
    }
}

/// After `Aliases::insert(key, value)`, `get(key)` gives `value`, and every
/// other key keeps whether it has an alias and which.
pub proof fn law_alias_read_after_write(
    aliases: Map<Seq<char>, Seq<char>>,
    key: Seq<char>,
    value: Seq<char>,
    other: Seq<char>,
)
    ensures
        aliases.insert(key, value).contains_key(key),
        aliases.insert(key, value)[key] == value,
        other != key ==> aliases.insert(key, value).contains_key(other) == aliases.contains_key(
            other,
        ),
        other != key && aliases.contains_key(other) ==> aliases.insert(key, value)[other]
            == aliases[other],
{
}

/// The tool's persisted configuration.
pub struct Config {
    /// The folder that holds the projects.
    pub path: String,
    /// Aliases of project names.
    pub aliases: Aliases,
}

impl Config {
    /// The configuration used when none is stored yet: the projects folder
    /// is the parent of `current_dir` and there are no aliases; `None` when
    /// `current_dir` has no parent.
    pub fn default_in(current_dir: &str) -> (res: Option<Config>)
        ensures
            res is Some <==> path_parent(current_dir@) is Some,
            res matches Some(c) ==> c.path@ == path_parent(current_dir@)->0 && c.aliases@
                == Map::<Seq<char>, Seq<char>>::empty(),
    {
        match try_parent_dir(current_dir) {
            Some(p) => Some(Config { path: p, aliases: Aliases::new() }),
            None => None,
        }
    }
}

} // verus!
