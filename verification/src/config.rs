//! Configuration: whether a cop is enabled and which severity it reports
//! at, and which files are excluded, as a `.rubocop.yml` file sets them.

use vstd::prelude::*;

use crate::cop::{Severity, severity_named};
use crate::text::{bytes_of, find_byte_from, find_byte_from_exec, lemma_find_byte_from_spec};

verus! {

/// Per-cop configuration.
pub struct CopConfig {
    pub enabled: Option<bool>,
    pub severity: Option<String>,
}

/// A cop's settings as plain values: `Enabled` and `Severity`.
pub open spec fn setting_view(c: CopConfig) -> (Option<bool>, Option<Seq<char>>) {
    (
        c.enabled,
        match c.severity {
            Some(s) => Some(s@),
            None => None,
        },
    )
}

/// The setting of the first entry named `name`.
pub open spec fn setting_of(s: Seq<(Seq<char>, (Option<bool>, Option<Seq<char>>))>, name: Seq<char>) -> Option<
    (Option<bool>, Option<Seq<char>>),
>
    decreases s.len(),
{
    if s.len() == 0 {
        None
    } else if s[0].0 == name {
        Some(s[0].1)
    } else {
        setting_of(s.skip(1), name)
    }
}

/// No two entries share a name.
pub open spec fn distinct_names(s: Seq<(Seq<char>, (Option<bool>, Option<Seq<char>>))>) -> bool {
    forall|i: int, j: int| 0 <= i < j < s.len() ==> #[trigger] s[i].0 != #[trigger] s[j].0
}

/// The per-cop sections of a configuration, by cop name, each name once.
pub struct CopSettings {
    entries: Vec<(String, CopConfig)>,
}

impl View for CopSettings {
    type V = Seq<(Seq<char>, (Option<bool>, Option<Seq<char>>))>;

    closed spec fn view(&self) -> Self::V {
        self.entries@.map_values(|e: (String, CopConfig)| (e.0@, setting_view(e.1)))
    }
}

proof fn lemma_setting_of_index(s: Seq<(Seq<char>, (Option<bool>, Option<Seq<char>>))>, name: Seq<char>)
    ensures
        match setting_of(s, name) {
            Some(v) => exists|i: int| 0 <= i < s.len() && s[i].0 == name && s[i].1 == v && forall|j: int| 0 <= j < i ==> s[j].0 != name,
            None => forall|j: int| 0 <= j < s.len() ==> s[j].0 != name,
        },
    decreases s.len(),
{
    if s.len() > 0 && s[0].0 != name {
        lemma_setting_of_index(s.skip(1), name);
        match setting_of(s.skip(1), name) {
            Some(v) => {
                let i = choose|i: int| 0 <= i < s.skip(1).len() && s.skip(1)[i].0 == name && s.skip(1)[i].1 == v && forall|j: int|
                    0 <= j < i ==> s.skip(1)[j].0 != name;
                assert(s[i + 1] == s.skip(1)[i]);
                assert forall|j: int| 0 <= j < i + 1 implies s[j].0 != name by {
                    if j > 0 {
                        assert(s[j] == s.skip(1)[j - 1]);
                    }
                }
            },
            None => {
                assert forall|j: int| 0 <= j < s.len() implies s[j].0 != name by {
                    if j > 0 {
                        assert(s[j] == s.skip(1)[j - 1]);
                    }
                }
            },
        }
    }
}

/// Where the entries differ in at most index `k`, names kept, lookups of
/// other names agree.
proof fn lemma_setting_of_at(
    s: Seq<(Seq<char>, (Option<bool>, Option<Seq<char>>))>,
    t: Seq<(Seq<char>, (Option<bool>, Option<Seq<char>>))>,
    k: int,
    name: Seq<char>,
)
    requires
        s.len() == t.len(),
        0 <= k < s.len(),
        forall|j: int| 0 <= j < s.len() ==> #[trigger] s[j].0 == t[j].0,
        forall|j: int| 0 <= j < s.len() && j != k ==> #[trigger] s[j] == t[j],
        s[k].0 != name,
    ensures
        setting_of(t, name) == setting_of(s, name),
    decreases s.len(),
{
    if s[0].0 != name {
        if k == 0 {
            assert(s.skip(1) =~= t.skip(1));
        } else {
            assert forall|j: int| 0 <= j < s.skip(1).len() implies #[trigger] s.skip(1)[j].0 == t.skip(1)[j].0 by {
                assert(s[j + 1].0 == t[j + 1].0);
            }
            assert forall|j: int| 0 <= j < s.skip(1).len() && j != k - 1 implies #[trigger] s.skip(1)[j] == t.skip(1)[j] by {
                assert(s[j + 1] == t[j + 1]);
            }
            lemma_setting_of_at(s.skip(1), t.skip(1), k - 1, name);
        }
    } else {
        assert(k != 0);
        assert(s[0] == t[0]);
    }
}

proof fn lemma_setting_of_push(
    s: Seq<(Seq<char>, (Option<bool>, Option<Seq<char>>))>,
    x: (Seq<char>, (Option<bool>, Option<Seq<char>>)),
    name: Seq<char>,
)
    requires
        forall|j: int| 0 <= j < s.len() ==> #[trigger] s[j].0 != x.0,
    ensures
        x.0 == name ==> setting_of(s.push(x), name) == Some(x.1),
        x.0 != name ==> setting_of(s.push(x), name) == setting_of(s, name),
    decreases s.len(),
{
    let t = s.push(x);
    if s.len() == 0 {
        assert(t.skip(1) =~= Seq::<(Seq<char>, (Option<bool>, Option<Seq<char>>))>::empty());
        assert(t[0] == x);
    } else {
        assert(t[0] == s[0]);
        assert(t.skip(1) =~= s.skip(1).push(x));
        assert forall|j: int| 0 <= j < s.skip(1).len() implies #[trigger] s.skip(1)[j].0 != x.0 by {
            assert(s.skip(1)[j] == s[j + 1]);
        }
        lemma_setting_of_push(s.skip(1), x, name);
        if s[0].0 == name {
            assert(setting_of(t, name) == Some(s[0].1));
        } else {
            assert(setting_of(t, name) == setting_of(t.skip(1), name));
            assert(setting_of(s, name) == setting_of(s.skip(1), name));
        }
    }
}

/// Replacing the setting of the entry at `i` with that of the same name.
proof fn lemma_update_keeps(
    s: Seq<(Seq<char>, (Option<bool>, Option<Seq<char>>))>,
    i: int,
    x: (Seq<char>, (Option<bool>, Option<Seq<char>>)),
)
    requires
        distinct_names(s),
        0 <= i < s.len(),
        s[i].0 == x.0,
    ensures
        distinct_names(s.update(i, x)),
        setting_of(s.update(i, x), x.0) == Some(x.1),
        forall|other: Seq<char>| other != x.0 ==> #[trigger] setting_of(s.update(i, x), other) == setting_of(s, other),
{
    let t = s.update(i, x);
    assert forall|a: int, b: int| 0 <= a < b < t.len() implies #[trigger] t[a].0 != #[trigger] t[b].0 by {
        assert(t[a].0 == s[a].0);
        assert(t[b].0 == s[b].0);
        assert(s[a].0 != s[b].0);
    }
    assert forall|other: Seq<char>| other != x.0 implies #[trigger] setting_of(t, other) == setting_of(s, other) by {
        lemma_setting_of_at(s, t, i, other);
    }
    lemma_setting_of_index(t, x.0);
    match setting_of(t, x.0) {
        Some(v) => {
            let q = choose|q: int| 0 <= q < t.len() && t[q].0 == x.0 && t[q].1 == v && forall|j: int| 0 <= j < q ==> t[j].0 != x.0;
            if q != i {
                assert(t[q].0 == s[q].0);
                assert(s[q].0 != s[i].0);
            }
        },
        None => {
            assert(t[i].0 == x.0);
        },
    }
}

/// Appending an entry with a new name.
proof fn lemma_push_keeps(s: Seq<(Seq<char>, (Option<bool>, Option<Seq<char>>))>, x: (Seq<char>, (Option<bool>, Option<Seq<char>>)))
    requires
        distinct_names(s),
        forall|j: int| 0 <= j < s.len() ==> #[trigger] s[j].0 != x.0,
    ensures
        distinct_names(s.push(x)),
        setting_of(s.push(x), x.0) == Some(x.1),
        forall|other: Seq<char>| other != x.0 ==> #[trigger] setting_of(s.push(x), other) == setting_of(s, other),
{
    let t = s.push(x);
    assert forall|a: int, b: int| 0 <= a < b < t.len() implies #[trigger] t[a].0 != #[trigger] t[b].0 by {
        assert(t[a] == s[a]);
        if b < s.len() {
            assert(t[b] == s[b]);
        }
    }
    lemma_setting_of_push(s, x, x.0);
    assert forall|other: Seq<char>| other != x.0 implies #[trigger] setting_of(t, other) == setting_of(s, other) by {
        lemma_setting_of_push(s, x, other);
    }
}

impl CopSettings {
    #[verifier::type_invariant]
    spec fn wf(self) -> bool {
        distinct_names(self@)
    }

    /// No cop configured.
    pub fn new() -> (r: CopSettings)
        ensures
            r@ == Seq::<(Seq<char>, (Option<bool>, Option<Seq<char>>))>::empty(),
    {
        let r = CopSettings { entries: Vec::new() };
        assert(r@ =~= Seq::<(Seq<char>, (Option<bool>, Option<Seq<char>>))>::empty());
        r
    }

    /// The number of configured cops.
    pub fn len(&self) -> (r: usize)
        ensures
            r == self@.len(),
    {
        self.entries.len()
    }

    /// Whether no cop is configured.
    pub fn is_empty(&self) -> (r: bool)
        ensures
            r == (self@.len() == 0),
    {
        self.entries.len() == 0
    }

    /// The position of the entry named `name`, if any.
    fn position(&self, name: &String) -> (r: Option<usize>)
        ensures
            match r {
                Some(i) => i < self@.len() && self@[i as int].0 == name@ && setting_of(self@, name@) == Some(self@[i as int].1),
                None => setting_of(self@, name@) is None && forall|j: int| 0 <= j < self@.len() ==> #[trigger] self@[j].0 != name@,
            },
    {
        proof {
            use_type_invariant(self);
            lemma_setting_of_index(self@, name@);
        }
        let mut i: usize = 0;
        while i < self.entries.len()
            invariant
                i <= self.entries@.len(),
                self@ == self.entries@.map_values(|e: (String, CopConfig)| (e.0@, setting_view(e.1))),
                distinct_names(self@),
                forall|j: int| 0 <= j < i ==> #[trigger] self@[j].0 != name@,
            decreases self.entries.len() - i,
        {
            if self.entries[i].0 == *name {
                assert(self@[i as int].0 == name@);
                proof {
                    lemma_setting_of_index(self@, name@);
                }
                return Some(i);
            }
            assert(self@[i as int].0 != name@);
            i = i + 1;
        }
        None
    }

    /// Sets the configuration of cop `name`, replacing any earlier one.
    pub fn insert(&mut self, name: String, config: CopConfig)
        ensures
            setting_of(final(self)@, name@) == Some(setting_view(config)),
            forall|other: Seq<char>| other != name@ ==> #[trigger] setting_of(final(self)@, other) == setting_of(old(self)@, other),
    {
        proof {
            use_type_invariant(&*self);
        }
        let ghost entry = (name@, setting_view(config));
        let ghost before = self@;
        let pos = self.position(&name);
        let mut entries: Vec<(String, CopConfig)> = Vec::new();
        std::mem::swap(&mut entries, &mut self.entries);
        assert(before == entries@.map_values(|e: (String, CopConfig)| (e.0@, setting_view(e.1))));
        match pos {
            Some(i) => {
                entries.set(i, (name, config));
                assert(entries@.map_values(|e: (String, CopConfig)| (e.0@, setting_view(e.1))) =~= before.update(i as int, entry));
                proof {
                    lemma_update_keeps(before, i as int, entry);
                }
            },
            None => {
                entries.push((name, config));
                assert(entries@.map_values(|e: (String, CopConfig)| (e.0@, setting_view(e.1))) =~= before.push(entry));
                proof {
                    lemma_push_keeps(before, entry);
                }
            },
        }
        self.entries = entries;
    }

    /// Whether cop `name` is explicitly enabled or disabled: `None` where the
    /// configuration does not say.
    pub fn is_cop_enabled(&self, cop_name: &str) -> (r: Option<bool>)
        ensures
            r == (match setting_of(self@, cop_name@) {
                Some(s) => s.0,
                None => None,
            }),
    {
        let name = cop_name.to_owned();
        match self.position(&name) {
            Some(i) => self.entries[i].1.enabled,
            None => None,
        }
    }

    /// The severity set for cop `name`, if any.
    pub fn cop_severity(&self, cop_name: &str) -> (r: Option<&str>)
        ensures
            match r {
                Some(s) => match setting_of(self@, cop_name@) {
                    Some(v) => v.1 == Some(s@),
                    None => false,
                },
                None => match setting_of(self@, cop_name@) {
                    Some(v) => v.1 is None,
                    None => true,
                },
            },
    {
        let name = cop_name.to_owned();
        match self.position(&name) {
            Some(i) => match &self.entries[i].1.severity {
                Some(s) => Some(s.as_str()),
                None => None,
            },
            None => None,
        }
    }
}

/// Some entry of `names` is `name`.
pub open spec fn names_include(names: Seq<String>, name: Seq<char>) -> bool {
    exists|k: int| 0 <= k < names.len() && #[trigger] names[k]@ == name
}

fn names_include_exec(names: &Vec<String>, name: &String) -> (r: bool)
    ensures
        r == names_include(names@, name@),
{
    let mut k: usize = 0;
    while k < names.len()
        invariant
            k <= names@.len(),
            forall|j: int| 0 <= j < k ==> #[trigger] names@[j]@ != name@,
        decreases names.len() - k,
    {
        if names[k] == *name {
            assert(names@[k as int]@ == name@);
            return true;
        }
        k = k + 1;
    }
    false
}

/// Whether cop `name` runs: it is listed in `only` where `only` lists any
/// cop, it is not listed in `except`, and the configuration does not disable it.
pub open spec fn runs(name: Seq<char>, only: Seq<String>, except: Seq<String>, settings: Seq<(Seq<char>, (Option<bool>, Option<Seq<char>>))>) -> bool {
    &&& (only.len() == 0 || names_include(only, name))
    &&& !names_include(except, name)
    &&& match setting_of(settings, name) {
        Some(s) => s.0 != Some(false),
        None => true,
    }
}

/// Whether cop `name` runs under the `only` and `except` lists and the configuration.
pub fn cop_runs(name: &str, only: &Vec<String>, except: &Vec<String>, settings: &CopSettings) -> (r: bool)
    ensures
        r == runs(name@, only@, except@, settings@),
{
    let owned = name.to_owned();
    let listed = only.len() == 0 || names_include_exec(only, &owned);
    let excluded = names_include_exec(except, &owned);
    let enabled = match settings.is_cop_enabled(name) {
        Some(e) => e,
        None => true,
    };
    listed && !excluded && enabled
}

/// Whether the path `s` from byte `j` on matches the glob pattern `p` from
/// byte `i` on, with path-aware wildcards: `*` matches any run of bytes other
/// than `/`, `?` one byte other than `/`, `**/` any number of whole
/// directories (none included), and any other byte itself.
pub open spec fn glob_from(p: Seq<u8>, i: int, s: Seq<u8>, j: int) -> bool
    decreases p.len() - i, s.len() - j,
{
    if i < 0 || j < 0 || i >= p.len() {
        i >= 0 && j >= 0 && j >= s.len()
    } else if i + 2 < p.len() && p[i] == 42u8 && p[i + 1] == 42u8 && p[i + 2] == 47u8 {
        glob_from(p, i + 3, s, j) || match find_byte_from(s, 47u8, j) {
            Some(k) => j <= k < s.len() && glob_from(p, i, s, k + 1),
            None => false,
        }
    } else if p[i] == 42u8 {
        glob_from(p, i + 1, s, j) || (j < s.len() && s[j] != 47u8 && glob_from(p, i, s, j + 1))
    } else if p[i] == 63u8 {
        j < s.len() && s[j] != 47u8 && glob_from(p, i + 1, s, j + 1)
    } else {
        j < s.len() && s[j] == p[i] && glob_from(p, i + 1, s, j + 1)
    }
}

/// Whether the whole path `s` matches the glob pattern `p`.
pub open spec fn glob_match(p: Seq<u8>, s: Seq<u8>) -> bool {
    glob_from(p, 0, s, 0)
}

fn glob_from_exec(p: &[u8], i: usize, s: &[u8], j: usize) -> (r: bool)
    requires
        i <= p@.len(),
        j <= s@.len(),
    ensures
        r == glob_from(p@, i as int, s@, j as int),
    decreases p@.len() - i, s@.len() - j,
{
    if i >= p.len() {
        j >= s.len()
    } else if p.len() - i > 2 && p[i] == 42u8 && p[i + 1] == 42u8 && p[i + 2] == 47u8 {
        if glob_from_exec(p, i + 3, s, j) {
            return true;
        }
        proof {
            lemma_find_byte_from_spec(s@, 47u8, j as int);
        }
        match find_byte_from_exec(s, 47u8, j) {
            Some(k) => {
                assert(j <= k < s@.len());
                let n = s.len();
                assert(k < n);
                glob_from_exec(p, i, s, k + 1)
            },
            None => false,
        }
    } else if p[i] == 42u8 {
        glob_from_exec(p, i + 1, s, j) || (j < s.len() && s[j] != 47u8 && glob_from_exec(p, i, s, j + 1))
    } else if p[i] == 63u8 {
        j < s.len() && s[j] != 47u8 && glob_from_exec(p, i + 1, s, j + 1)
    } else {
        j < s.len() && s[j] == p[i] && glob_from_exec(p, i + 1, s, j + 1)
    }
}

/// Whether the path `path` matches the glob pattern `pattern`.
pub fn glob_matches(pattern: &str, path: &str) -> (r: bool)
    ensures
        r == glob_match(bytes_of(pattern), bytes_of(path)),
{
    glob_from_exec(pattern.as_bytes(), 0, path.as_bytes(), 0)
}

/// The path as `AllCops: Exclude` patterns see it: without a leading `./`.
pub open spec fn relative_path(s: Seq<u8>) -> Seq<u8> {
    if s.len() >= 2 && s[0] == 46u8 && s[1] == 47u8 {
        s.skip(2)
    } else {
        s
    }
}

/// Whether the file at `path` is excluded: its relative path matches one of
/// the `AllCops: Exclude` patterns.
pub open spec fn is_excluded(path: Seq<u8>, patterns: Seq<String>) -> bool {
    exists|k: int| 0 <= k < patterns.len() && glob_match(vstd::utf8::encode_utf8((#[trigger] patterns[k])@), relative_path(path))
}

/// Whether the file at `path` is excluded by one of the `AllCops: Exclude`
/// patterns.
pub fn excluded(path: &str, patterns: &Vec<String>) -> (r: bool)
    ensures
        r == is_excluded(bytes_of(path), patterns@),
{
    let b = path.as_bytes();
    let rel: &[u8] = if b.len() >= 2 && b[0] == 46u8 && b[1] == 47u8 { &b[2..b.len()] } else { b };
    assert(rel@ == relative_path(b@));
    let mut k: usize = 0;
    while k < patterns.len()
        invariant
            k <= patterns@.len(),
            rel@ == relative_path(bytes_of(path)),
            forall|q: int| 0 <= q < k ==> !glob_match(vstd::utf8::encode_utf8((#[trigger] patterns@[q])@), rel@),
        decreases patterns@.len() - k,
    {
        if glob_from_exec(patterns[k].as_str().as_bytes(), 0, rel, 0) {
            return true;
        }
        k = k + 1;
    }
    false
}

/// The severity that the configuration sets for cop `name`: its `Severity:`
/// value, where it has one that names a severity.
pub open spec fn configured(settings: Seq<(Seq<char>, (Option<bool>, Option<Seq<char>>))>, name: Seq<char>) -> Option<Severity> {
    match setting_of(settings, name) {
        Some(v) => match v.1 {
            Some(s) => severity_named(vstd::utf8::encode_utf8(s)),
            None => None,
        },
        None => None,
    }
}

/// The severity that the configuration sets for cop `name`, if any.
pub fn configured_severity(settings: &CopSettings, name: &str) -> (r: Option<Severity>)
    ensures
        r == configured(settings@, name@),
{
    match settings.cop_severity(name) {
        Some(s) => Severity::from_name(s),
        None => None,
    }
}

} // verus!
