//! Offenses: what a cop reports, where, and with which message.

use vstd::prelude::*;

use crate::cop::Severity;
use crate::text::{bytes_of, contains, contains_str, decimal, decimal_exec};

verus! {

/// A position in a source file: 1-based line and column, and a length in bytes.
#[derive(Debug, Clone, Copy, PartialEq, Eq, Structural)]
pub struct Location {
    pub line: usize,
    pub column: usize,
    pub length: usize,
}

impl Location {
    pub fn new(line: usize, column: usize, length: usize) -> (r: Location)
        ensures
            r.line == line,
            r.column == column,
            r.length == length,
    {
        Location { line, column, length }
    }
}

/// The text of an offense message, as UTF-8 bytes.
#[derive(Debug, Clone)]
pub struct Message {
    bytes: Vec<u8>,
}

impl View for Message {
    type V = Seq<u8>;

    closed spec fn view(&self) -> Seq<u8> {
        self.bytes@
    }
}

impl Message {
    /// An empty message.
    pub fn new() -> (r: Message)
        ensures
            r@ == Seq::<u8>::empty(),
    {
        Message { bytes: Vec::new() }
    }

    /// A message with the given text.
    pub fn from_str(s: &str) -> (r: Message)
        ensures
            r@ == bytes_of(s),
    {
        let b = s.as_bytes();
        Message { bytes: vstd::slice::slice_to_vec(b) }
    }

    /// Appends text.
    pub fn push_str(&mut self, s: &str)
        ensures
            final(self)@ == old(self)@ + bytes_of(s),
    {
        self.push_bytes(s.as_bytes());
    }

    /// Appends raw bytes.
    pub fn push_bytes(&mut self, b: &[u8])
        ensures
            final(self)@ == old(self)@ + b@,
    {
        let mut i: usize = 0;
        while i < b.len()
            invariant
                i <= b.len(),
                self@ == old(self)@ + b@.take(i as int),
            decreases b.len() - i,
        {
            self.bytes.push(b[i]);
            i = i + 1;
            assert(self@ =~= old(self)@ + b@.take(i as int));
        }
        assert(b@.take(b@.len() as int) =~= b@);
    }

    /// Appends the decimal digits of `n`.
    pub fn push_decimal(&mut self, n: u128)
        ensures
            final(self)@ == old(self)@ + decimal(n as nat),
    {
        let d = decimal_exec(n);
        self.push_bytes(d.as_slice());
    }

    /// Whether the message contains `needle`.
    pub fn contains(&self, needle: &str) -> (r: bool)
        ensures
            r == contains(self@, bytes_of(needle)),
    {
        contains_str(self.bytes.as_slice(), needle)
    }

    /// The message bytes.
    pub fn as_bytes(&self) -> (r: &[u8])
        ensures
            r@ == self@,
    {
        self.bytes.as_slice()
    }

    /// The length of the message in bytes.
    pub fn len(&self) -> (r: usize)
        ensures
            r == self@.len(),
    {
        self.bytes.len()
    }
}

/// What a cop finds: a position and a message.
pub struct FindingView {
    pub line: int,
    pub column: int,
    pub length: int,
    pub message: Seq<u8>,
}

/// A finding with no message or cop attached yet.
pub open spec fn finding(line: int, column: int, length: int, message: Seq<u8>) -> FindingView {
    FindingView { line, column, length, message }
}

/// What a cop finds, in executable form.
pub struct Finding {
    pub line: usize,
    pub column: usize,
    pub length: usize,
    pub message: Message,
}

impl View for Finding {
    type V = FindingView;

    open spec fn view(&self) -> FindingView {
        FindingView {
            line: self.line as int,
            column: self.column as int,
            length: self.length as int,
            message: self.message@,
        }
    }
}

impl Finding {
    pub fn new(line: usize, column: usize, length: usize, message: Message) -> (r: Finding)
        ensures
            r@ == finding(line as int, column as int, length as int, message@),
    {
        Finding { line, column, length, message }
    }

    /// A finding whose message is the given text.
    pub fn text(line: usize, column: usize, length: usize, message: &str) -> (r: Finding)
        ensures
            r@ == finding(line as int, column as int, length as int, bytes_of(message)),
    {
        Finding { line, column, length, message: Message::from_str(message) }
    }
}

pub open spec fn finding_views(v: Seq<Finding>) -> Seq<FindingView> {
    v.map_values(|f: Finding| f@)
}

/// An offense as a value: the cop that reports it, its message, its severity and position.
pub struct OffenseView {
    pub cop: Seq<char>,
    pub message: Seq<u8>,
    pub severity: Severity,
    pub line: int,
    pub column: int,
    pub length: int,
}

/// An offense reported by a cop.
#[derive(Debug, Clone)]
pub struct Offense {
    pub cop_name: String,
    pub message: Message,
    pub severity: Severity,
    pub location: Location,
}

impl View for Offense {
    type V = OffenseView;

    open spec fn view(&self) -> OffenseView {
        OffenseView {
            cop: self.cop_name@,
            message: self.message@,
            severity: self.severity,
            line: self.location.line as int,
            column: self.location.column as int,
            length: self.location.length as int,
        }
    }
}

impl Offense {
    pub fn new(cop_name: &str, message: Message, severity: Severity, location: Location) -> (r: Offense)
        ensures
            r.cop_name@ == cop_name@,
            r.message@ == message@,
            r.severity == severity,
            r.location == location,
    {
        Offense { cop_name: cop_name.to_owned(), message, severity, location }
    }
}

pub open spec fn offense_views(v: Seq<Offense>) -> Seq<OffenseView> {
    v.map_values(|o: Offense| o@)
}

/// A finding reported by the named cop at the given severity.
pub open spec fn stamp_one(f: FindingView, name: Seq<char>, severity: Severity) -> OffenseView {
    OffenseView {
        cop: name,
        message: f.message,
        severity,
        line: f.line,
        column: f.column,
        length: f.length,
    }
}

/// Findings reported by the named cop at the given severity.
pub open spec fn stamp(fs: Seq<FindingView>, name: Seq<char>, severity: Severity) -> Seq<OffenseView> {
    fs.map_values(|f: FindingView| stamp_one(f, name, severity))
}

/// Turns findings into offenses of the named cop.
pub fn report(name: &str, severity: Severity, findings: Vec<Finding>) -> (r: Vec<Offense>)
    ensures
        offense_views(r@) == stamp(finding_views(findings@), name@, severity),
{
    let mut out: Vec<Offense> = Vec::new();
    let mut rest = findings;
    let ghost all = rest@;
    let mut i: usize = 0;
    let n = rest.len();
    while i < n
        invariant
            n == all.len(),
            i <= n,
            rest@ == all.skip(i as int),
            offense_views(out@) == stamp(finding_views(all.take(i as int)), name@, severity),
        decreases n - i,
    {
        let f = rest.remove(0);
        assert(f == all[i as int]);
        let ghost fv = f@;
        let loc = Location::new(f.line, f.column, f.length);
        let o = Offense::new(name, f.message, severity, loc);
        assert(o@ == stamp_one(fv, name@, severity));
        let ghost before = out@;
        out.push(o);
        assert(out@ == before.push(o));
        i = i + 1;
        assert(rest@ =~= all.skip(i as int));
        assert(all.take(i as int) =~= all.take(i - 1).push(all[i - 1]));
        assert(offense_views(before.push(o)) =~= offense_views(before).push(o@));
        assert(finding_views(all.take(i as int)) =~= finding_views(all.take(i - 1)).push(fv));
        assert(stamp(finding_views(all.take(i - 1)).push(fv), name@, severity) =~= stamp(
            finding_views(all.take(i - 1)),
            name@,
            severity,
        ).push(stamp_one(fv, name@, severity)));
        assert(offense_views(out@) =~= stamp(finding_views(all.take(i as int)), name@, severity));
    }
    assert(all.take(n as int) =~= all);
    out
}

/// Offense `a` comes no later than `b` in a report: an earlier line, or the
/// same line and a column no later.
pub open spec fn no_later(a: OffenseView, b: OffenseView) -> bool {
    a.line < b.line || (a.line == b.line && a.column <= b.column)
}

/// `x` inserted into `s` after every offense that comes no later than it.
pub open spec fn insert_offense(s: Seq<OffenseView>, x: OffenseView) -> Seq<OffenseView>
    decreases s.len(),
{
    if s.len() == 0 {
        seq![x]
    } else if no_later(s.last(), x) {
        s.push(x)
    } else {
        insert_offense(s.drop_last(), x).push(s.last())
    }
}

/// The offenses ordered by line and then column; offenses at the same
/// position keep their order (a stable sort).
pub open spec fn by_position(s: Seq<OffenseView>) -> Seq<OffenseView>
    decreases s.len(),
{
    if s.len() == 0 {
        s
    } else {
        insert_offense(by_position(s.drop_last()), s.last())
    }
}

/// Every offense comes no later than the ones after it.
pub open spec fn in_position_order(s: Seq<OffenseView>) -> bool {
    forall|i: int, j: int| 0 <= i < j < s.len() ==> no_later(#[trigger] s[i], #[trigger] s[j])
}

proof fn lemma_insert_offense(s: Seq<OffenseView>, x: OffenseView)
    requires
        in_position_order(s),
    ensures
        in_position_order(insert_offense(s, x)),
        insert_offense(s, x).to_multiset() == s.to_multiset().insert(x),
        insert_offense(s, x).len() == s.len() + 1,
    decreases s.len(),
{
    broadcast use vstd::seq_lib::group_to_multiset_ensures;
    if s.len() == 0 {
        assert(seq![x] =~= Seq::<OffenseView>::empty().push(x));
    } else if no_later(s.last(), x) {
    } else {
        let d = s.drop_last();
        assert(in_position_order(d)) by {
            assert forall|i: int, j: int| 0 <= i < j < d.len() implies no_later(#[trigger] d[i], #[trigger] d[j]) by {
                assert(d[i] == s[i] && d[j] == s[j]);
            }
        }
        lemma_insert_offense(d, x);
        let r = insert_offense(d, x);
        let y = s.last();
        assert(s =~= d.push(y));
        // Everything in `r` is `x` or an element of `d`, each no later than `y`.
        assert forall|i: int| 0 <= i < r.len() implies no_later(#[trigger] r[i], y) by {
            assert(r.to_multiset().count(r[i]) > 0);
            assert(d.to_multiset().insert(x).count(r[i]) > 0);
            if r[i] != x {
                assert(d.to_multiset().count(r[i]) > 0);
                assert(d.contains(r[i]));
                let k = choose|k: int| 0 <= k < d.len() && d[k] == r[i];
                assert(s[k] == d[k]);
                assert(no_later(s[k], s[s.len() - 1]));
            }
        }
        assert forall|i: int, j: int| 0 <= i < j < r.push(y).len() implies no_later(
            #[trigger] r.push(y)[i],
            #[trigger] r.push(y)[j],
        ) by {
            if j < r.len() {
                assert(r.push(y)[i] == r[i] && r.push(y)[j] == r[j]);
            } else {
                assert(r.push(y)[i] == r[i]);
            }
        }
        assert(r.push(y).to_multiset() == r.to_multiset().insert(y));
        assert(s.to_multiset() == d.to_multiset().insert(y));
        assert(r.push(y).to_multiset() =~= s.to_multiset().insert(x));
    }
}

/// The offenses in order of position hold the same offenses as before, and
/// are in order.
pub proof fn law_by_position_sorts(s: Seq<OffenseView>)
    ensures
        in_position_order(by_position(s)),
        by_position(s).to_multiset() == s.to_multiset(),
        by_position(s).len() == s.len(),
    decreases s.len(),
{
    broadcast use vstd::seq_lib::group_to_multiset_ensures;
    if s.len() > 0 {
        law_by_position_sorts(s.drop_last());
        lemma_insert_offense(by_position(s.drop_last()), s.last());
        assert(s =~= s.drop_last().push(s.last()));
        assert(s.to_multiset() == s.drop_last().to_multiset().insert(s.last()));
    }
}

fn no_later_exec(a: &Offense, b: &Offense) -> (r: bool)
    ensures
        r == no_later(a@, b@),
{
    a.location.line < b.location.line || (a.location.line == b.location.line && a.location.column <= b.location.column)
}

fn insert_offense_exec(v: &mut Vec<Offense>, x: Offense)
    ensures
        offense_views(final(v)@) == insert_offense(offense_views(old(v)@), x@),
    decreases old(v)@.len(),
{
    let ghost before = v@;
    if v.len() == 0 {
        v.push(x);
        assert(offense_views(v@) =~= seq![x@]);
    } else {
        let n = v.len();
        if no_later_exec(&v[n - 1], &x) {
            let ghost xv = x@;
            v.push(x);
            assert(offense_views(v@) =~= offense_views(before).push(xv));
        } else {
            let l = v.pop().unwrap();
            assert(v@ == before.drop_last());
            assert(offense_views(v@) =~= offense_views(before).drop_last());
            let ghost lv = l@;
            insert_offense_exec(v, x);
            let ghost mid = v@;
            v.push(l);
            assert(offense_views(v@) =~= offense_views(mid).push(lv));
        }
    }
}

/// The offenses ordered by line and then column, offenses at the same
/// position in the order given.
pub fn sort_by_position(offenses: Vec<Offense>) -> (r: Vec<Offense>)
    ensures
        offense_views(r@) == by_position(offense_views(offenses@)),
{
    let ghost all = offenses@;
    let mut rest = offenses;
    let mut out: Vec<Offense> = Vec::new();
    let mut i: usize = 0;
    let n = rest.len();
    proof {
        assert(all.skip(0) =~= all);
        assert(offense_views(all.take(0)) =~= Seq::<OffenseView>::empty());
    }
    while i < n
        invariant
            n == all.len(),
            i <= n,
            rest@ == all.skip(i as int),
            offense_views(out@) == by_position(offense_views(all.take(i as int))),
        decreases n - i,
    {
        let x = rest.remove(0);
        assert(x == all[i as int]);
        insert_offense_exec(&mut out, x);
        i = i + 1;
        assert(rest@ =~= all.skip(i as int));
        assert(offense_views(all.take(i as int)).drop_last() =~= offense_views(all.take(i - 1)));
    }
    assert(all.take(n as int) =~= all);
    out
}

/// The offenses with the given severity in place of their own.
pub open spec fn at_severity(s: Seq<OffenseView>, severity: Severity) -> Seq<OffenseView> {
    s.map_values(|o: OffenseView| OffenseView { severity, ..o })
}

/// The offenses with their severity replaced by `severity`, where one is
/// given; otherwise unchanged.
pub fn with_severity(offenses: Vec<Offense>, severity: Option<Severity>) -> (r: Vec<Offense>)
    ensures
        offense_views(r@) == match severity {
            Some(s) => at_severity(offense_views(offenses@), s),
            None => offense_views(offenses@),
        },
{
    let sev = match severity {
        Some(s) => s,
        None => return offenses,
    };
    let ghost all = offenses@;
    let mut rest = offenses;
    let mut out: Vec<Offense> = Vec::new();
    let mut i: usize = 0;
    let n = rest.len();
    proof {
        assert(all.skip(0) =~= all);
    }
    while i < n
        invariant
            n == all.len(),
            i <= n,
            rest@ == all.skip(i as int),
            offense_views(out@) == at_severity(offense_views(all.take(i as int)), sev),
        decreases n - i,
    {
        let mut o = rest.remove(0);
        assert(o == all[i as int]);
        let ghost ov = o@;
        o.severity = sev;
        assert(o@ == OffenseView { severity: sev, ..ov });
        let ghost before = out@;
        out.push(o);
        assert(out@ == before.push(o));
        i = i + 1;
        assert(rest@ =~= all.skip(i as int));
        assert(all.take(i as int) =~= all.take(i - 1).push(all[i - 1]));
        assert(offense_views(before.push(o)) =~= offense_views(before).push(o@));
        assert(offense_views(all.take(i - 1).push(all[i - 1])) =~= offense_views(all.take(i - 1)).push(ov));
        assert(at_severity(offense_views(all.take(i - 1)).push(ov), sev) =~= at_severity(
            offense_views(all.take(i - 1)),
            sev,
        ).push(OffenseView { severity: sev, ..ov }));
        assert(offense_views(out@) =~= at_severity(offense_views(all.take(i as int)), sev));
    }
    assert(all.take(n as int) =~= all);
    out
}

} // verus!
