//! Remembering the first line on which each name was seen.

use vstd::prelude::*;

use crate::text::bytes_eq;

verus! {

/// The value of the first entry with key `k`.
pub open spec fn lookup(s: Seq<(Seq<u8>, int)>, k: Seq<u8>) -> Option<int>
    decreases s.len(),
{
    if s.len() == 0 {
        None
    } else {
        match lookup(s.drop_last(), k) {
            Some(v) => Some(v),
            None => if s.last().0 == k {
                Some(s.last().1)
            } else {
                None
            },
        }
    }
}

/// The 1-based number of the first of the first `n` lines whose name is `k`,
/// where `names(j)` is the name found on the 0-based line `j`.
pub open spec fn first_line_with(names: spec_fn(int) -> Option<Seq<u8>>, n: int, k: Seq<u8>) -> Option<int>
    decreases n,
{
    if n <= 0 {
        None
    } else {
        match first_line_with(names, n - 1, k) {
            Some(v) => Some(v),
            None => if names(n - 1) == Some(k) {
                Some(n)
            } else {
                None
            },
        }
    }
}

proof fn lemma_lookup_index(s: Seq<(Seq<u8>, int)>, k: Seq<u8>, i: int)
    requires
        0 <= i <= s.len(),
        forall|j: int| 0 <= j < i ==> (#[trigger] s[j]).0 != k,
    ensures
        i < s.len() && s[i].0 == k ==> lookup(s, k) == Some(s[i].1),
        i == s.len() ==> lookup(s, k) is None,
    decreases s.len(),
{
    if s.len() > 0 {
        let t = s.drop_last();
        if i < s.len() {
            if i < t.len() {
                assert forall|j: int| 0 <= j < i implies (#[trigger] t[j]).0 != k by {
                    assert(t[j] == s[j]);
                }
                lemma_lookup_index(t, k, i);
                assert(t[i] == s[i]);
            } else {
                assert forall|j: int| 0 <= j < t.len() implies (#[trigger] t[j]).0 != k by {
                    assert(t[j] == s[j]);
                }
                lemma_lookup_index(t, k, t.len() as int);
            }
        } else {
            assert forall|j: int| 0 <= j < t.len() implies (#[trigger] t[j]).0 != k by {
                assert(t[j] == s[j]);
            }
            lemma_lookup_index(t, k, t.len() as int);
        }
    }
}

/// Names with the line on which each was first seen.
pub struct Seen {
    entries: Vec<(Vec<u8>, usize)>,
}

impl View for Seen {
    type V = Seq<(Seq<u8>, int)>;

    closed spec fn view(&self) -> Seq<(Seq<u8>, int)> {
        self.entries@.map_values(|e: (Vec<u8>, usize)| (e.0@, e.1 as int))
    }
}

impl Seen {
    pub fn new() -> (r: Seen)
        ensures
            r@ == Seq::<(Seq<u8>, int)>::empty(),
    {
        let r = Seen { entries: Vec::new() };
        assert(r@ =~= Seq::<(Seq<u8>, int)>::empty());
        r
    }

    /// The line on which `k` was first seen.
    pub fn lookup(&self, k: &[u8]) -> (r: Option<usize>)
        ensures
            match r {
                Some(v) => lookup(self@, k@) == Some(v as int),
                None => lookup(self@, k@) is None,
            },
    {
        let mut i: usize = 0;
        while i < self.entries.len()
            invariant
                i <= self.entries@.len(),
                forall|j: int| 0 <= j < i ==> (#[trigger] self@[j]).0 != k@,
            decreases self.entries.len() - i,
        {
            if bytes_eq(self.entries[i].0.as_slice(), k) {
                proof {
                    lemma_lookup_index(self@, k@, i as int);
                }
                return Some(self.entries[i].1);
            }
            i = i + 1;
        }
        proof {
            lemma_lookup_index(self@, k@, i as int);
        }
        None
    }

    /// Records `k` as first seen on `line`.
    pub fn insert(&mut self, k: &[u8], line: usize)
        ensures
            final(self)@ == old(self)@.push((k@, line as int)),
    {
        self.entries.push((vstd::slice::slice_to_vec(k), line));
        assert(self@ =~= old(self)@.push((k@, line as int)));
    }
}

/// Seeing line `n` extends the record as `first_line_with` says.
pub proof fn lemma_seen_step(
    s: Seq<(Seq<u8>, int)>,
    names: spec_fn(int) -> Option<Seq<u8>>,
    n: int,
)
    requires
        0 <= n,
        forall|k: Seq<u8>| #[trigger] lookup(s, k) == first_line_with(names, n, k),
    ensures
        match names(n) {
            Some(nm) => match lookup(s, nm) {
                Some(_) => forall|k: Seq<u8>| #[trigger] lookup(s, k) == first_line_with(names, n + 1, k),
                None => forall|k: Seq<u8>| #[trigger] lookup(s.push((nm, n + 1)), k) == first_line_with(names, n + 1, k),
            },
            None => forall|k: Seq<u8>| #[trigger] lookup(s, k) == first_line_with(names, n + 1, k),
        },
{
    match names(n) {
        Some(nm) => match lookup(s, nm) {
            Some(_) => {
                assert forall|k: Seq<u8>| #[trigger] lookup(s, k) == first_line_with(names, n + 1, k) by {
                    assert(lookup(s, k) == first_line_with(names, n, k));
                }
            },
            None => {
                assert forall|k: Seq<u8>| #[trigger] lookup(s.push((nm, n + 1)), k) == first_line_with(names, n + 1, k) by {
                    assert(s.push((nm, n + 1)).drop_last() =~= s);
                    assert(lookup(s, k) == first_line_with(names, n, k));
                }
            },
        },
        None => {
            assert forall|k: Seq<u8>| #[trigger] lookup(s, k) == first_line_with(names, n + 1, k) by {
                assert(lookup(s, k) == first_line_with(names, n, k));
            }
        },
    }
}

} // verus!
