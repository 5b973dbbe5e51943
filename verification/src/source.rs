//! Source files: the text of a Ruby file, split into lines.

use vstd::prelude::*;

use crate::text::{bytes_of, find_byte, find_byte_from, find_byte_from_exec, lemma_find_byte_from_spec};

verus! {

/// Whether `seg` is the path segment `.`.
pub open spec fn is_dot(seg: Seq<u8>) -> bool {
    seg == seq![46u8]
}

/// Whether `seg` is the path segment `..`.
pub open spec fn is_dot_dot(seg: Seq<u8>) -> bool {
    seg == seq![46u8, 46u8]
}

/// The number of bytes after the last `/` of `p`.
pub open spec fn last_segment_len(p: Seq<u8>) -> nat
    decreases p.len(),
{
    if p.len() == 0 || p.last() == 47u8 {
        0
    } else {
        1 + last_segment_len(p.drop_last())
    }
}

/// The final component of a `/`-separated path, as `Path::file_name` names
/// it: the last segment that is neither empty nor `.` (so trailing slashes
/// and `.` segments are passed over), or none where there is no such segment
/// or it is `..`.
pub open spec fn final_component(p: Seq<u8>) -> Option<Seq<u8>>
    decreases p.len(),
{
    if p.len() == 0 {
        None
    } else {
        let c = last_segment_len(p);
        proof {
            lemma_last_segment_len(p);
        }
        if c == 0 {
            final_component(p.drop_last())
        } else {
            let seg = p.skip(p.len() - c);
            if is_dot(seg) {
                final_component(p.take(p.len() - c))
            } else if is_dot_dot(seg) {
                None
            } else {
                Some(seg)
            }
        }
    }
}

/// The last segment of `p` lies within it, holds no `/`, and follows a `/`
/// where it does not start `p`.
pub proof fn lemma_last_segment_len(p: Seq<u8>)
    ensures
        last_segment_len(p) <= p.len(),
        forall|k: int| p.len() - last_segment_len(p) <= k < p.len() ==> p[k] != 47u8,
        last_segment_len(p) < p.len() ==> p[p.len() - last_segment_len(p) - 1] == 47u8,
    decreases p.len(),
{
    if p.len() > 0 && p.last() != 47u8 {
        let d = p.drop_last();
        lemma_last_segment_len(d);
        assert forall|k: int| p.len() - last_segment_len(p) <= k < p.len() implies p[k] != 47u8 by {
            if k < p.len() - 1 {
                assert(p[k] == d[k]);
            }
        }
        if last_segment_len(p) < p.len() {
            assert(p[p.len() - last_segment_len(p) - 1] == d[d.len() - last_segment_len(d) - 1]);
        }
    }
}

/// The final component of the path `p` (see `final_component`).
pub fn path_final_component(p: &[u8]) -> (r: Option<Vec<u8>>)
    ensures
        match r {
            Some(v) => final_component(p@) == Some(v@),
            None => final_component(p@) is None,
        },
{
    let mut end: usize = p.len();
    proof {
        assert(p@.take(end as int) =~= p@);
    }
    while end > 0
        invariant
            end <= p@.len(),
            final_component(p@) == final_component(p@.take(end as int)),
        decreases end,
    {
        let q = Ghost(p@.take(end as int));
        let mut start: usize = end;
        while start > 0 && p[start - 1] != 47u8
            invariant
                start <= end <= p@.len(),
                forall|k: int| start <= k < end ==> p@[k] != 47u8,
            decreases start,
        {
            start = start - 1;
        }
        proof {
            lemma_last_segment_len(q@);
            lemma_segment_len_is(q@, start as int);
        }
        let c = end - start;
        if c == 0 {
            proof {
                assert(q@.drop_last() =~= p@.take(end - 1));
            }
            end = end - 1;
        } else {
            let seg = &p[start..end];
            proof {
                assert(seg@ =~= q@.skip(q@.len() - c));
            }
            if seg.len() == 1 && seg[0] == 46u8 {
                proof {
                    assert(seg@ =~= seq![46u8]);
                    assert(q@.take(q@.len() - c) =~= p@.take(start as int));
                }
                end = start;
            } else if seg.len() == 2 && seg[0] == 46u8 && seg[1] == 46u8 {
                proof {
                    assert(seg@ =~= seq![46u8, 46u8]);
                }
                return None;
            } else {
                proof {
                    assert(!is_dot(seg@));
                    assert(!is_dot_dot(seg@));
                }
                return Some(vstd::slice::slice_to_vec(seg));
            }
        }
    }
    proof {
        assert(p@.take(0) =~= Seq::<u8>::empty());
    }
    None
}

/// Where the bytes of `q` from `start` on hold no `/` and `start` is 0 or
/// follows a `/`, the last segment of `q` is those bytes.
proof fn lemma_segment_len_is(q: Seq<u8>, start: int)
    requires
        0 <= start <= q.len(),
        forall|k: int| start <= k < q.len() ==> q[k] != 47u8,
        start == 0 || q[start - 1] == 47u8,
    ensures
        last_segment_len(q) == q.len() - start,
    decreases q.len(),
{
    if q.len() > start {
        lemma_segment_len_is(q.drop_last(), start);
    }
}

/// A source file as a value.
pub struct SourceView {
    /// The path, as text.
    pub path: Seq<u8>,
    /// The final component of the path, where it is valid UTF-8.
    pub file_name: Option<Seq<u8>>,
    /// The final component of the path, with invalid UTF-8 replaced.
    pub file_name_lossy: Option<Seq<u8>>,
    /// The whole content.
    pub content: Seq<u8>,
    /// The lines of the content.
    pub lines: Seq<Seq<u8>>,
}

/// A line without the carriage return of a CRLF ending.
pub open spec fn strip_cr(s: Seq<u8>) -> Seq<u8> {
    if s.len() > 0 && s.last() == 13u8 {
        s.drop_last()
    } else {
        s
    }
}

/// The lines of a text as `str::lines` gives them: split at each line feed,
/// a carriage return before a line feed dropped, and no empty last line after
/// a final line feed.
pub open spec fn split_lines(c: Seq<u8>) -> Seq<Seq<u8>>
    decreases c.len(),
{
    if c.len() == 0 {
        seq![]
    } else {
        match find_byte(c, 10u8) {
            Some(i) => {
                proof {
                    lemma_find_byte_from_spec(c, 10u8, 0);
                }
                seq![strip_cr(c.take(i))] + split_lines(c.skip(i + 1))
            },
            None => seq![c],
        }
    }
}

pub open spec fn lines_view(v: Seq<Vec<u8>>) -> Seq<Seq<u8>> {
    v.map_values(|l: Vec<u8>| l@)
}

/// Lexical state of a line prefix: code, inside a single- or double-quoted
/// string, or inside a comment.
#[derive(Debug, Clone, Copy, PartialEq, Eq, Structural)]
pub enum Lex {
    Code,
    Single,
    Double,
    Comment,
}

/// One step of the scan: the state after byte `b`, with whether a backslash
/// escape is pending inside a string.
pub open spec fn lex_step(st: (Lex, bool), b: u8) -> (Lex, bool) {
    match st.0 {
        Lex::Code => {
            if b == 35u8 {
                (Lex::Comment, false)
            } else if b == 39u8 {
                (Lex::Single, false)
            } else if b == 34u8 {
                (Lex::Double, false)
            } else {
                (Lex::Code, false)
            }
        },
        Lex::Single => {
            if st.1 {
                (Lex::Single, false)
            } else if b == 92u8 {
                (Lex::Single, true)
            } else if b == 39u8 {
                (Lex::Code, false)
            } else {
                (Lex::Single, false)
            }
        },
        Lex::Double => {
            if st.1 {
                (Lex::Double, false)
            } else if b == 92u8 {
                (Lex::Double, true)
            } else if b == 34u8 {
                (Lex::Code, false)
            } else {
                (Lex::Double, false)
            }
        },
        Lex::Comment => (Lex::Comment, false),
    }
}

/// The state after scanning the first `n` bytes of a line.
pub open spec fn lex_state(line: Seq<u8>, n: int) -> (Lex, bool)
    decreases n,
{
    if n <= 0 {
        (Lex::Code, false)
    } else {
        lex_step(lex_state(line, n - 1), line[n - 1])
    }
}

/// Whether the byte at 1-based column `col` of `line` lies inside a string
/// literal or a comment (a `#` that opens a comment counts as inside it).
pub open spec fn in_string_or_comment_at(line: Seq<u8>, col: int) -> bool {
    1 <= col <= line.len() && {
        let st = lex_state(line, col - 1);
        st.0 != Lex::Code || line[col - 1] == 35u8
    }
}

/// The byte at 1-based column `col` is part of a comment: the scan before it
/// is already in one, or it is a `#` in code.
pub open spec fn in_comment_at(line: Seq<u8>, col: int) -> bool {
    1 <= col <= line.len() && {
        let st = lex_state(line, col - 1);
        st.0 == Lex::Comment || (st.0 == Lex::Code && line[col - 1] == 35u8)
    }
}

proof fn lemma_comment_stays(line: Seq<u8>, a: int, b: int)
    requires
        0 <= a <= b,
        lex_state(line, a).0 == Lex::Comment,
    ensures
        lex_state(line, b).0 == Lex::Comment,
    decreases b - a,
{
    if b > a {
        lemma_comment_stays(line, a, b - 1);
    }
}

/// A comment runs to the end of its line: every byte after the start of a
/// comment is in the comment, and so counts as inside a string or comment.
pub proof fn law_comment_runs_to_line_end(line: Seq<u8>, c: int, d: int)
    requires
        in_comment_at(line, c),
        c <= d <= line.len(),
    ensures
        in_comment_at(line, d),
        in_string_or_comment_at(line, d),
{
    if lex_state(line, c - 1).0 == Lex::Comment {
        lemma_comment_stays(line, c - 1, d - 1);
    } else {
        assert(lex_state(line, c).0 == Lex::Comment);
        if d > c {
            lemma_comment_stays(line, c, d - 1);
        }
    }
}

impl SourceView {
    /// The 1-based line `n`, if there is one.
    pub open spec fn line(self, n: int) -> Option<Seq<u8>> {
        if 1 <= n <= self.lines.len() {
            Some(self.lines[n - 1])
        } else {
            None
        }
    }

    /// `in_string_or_comment` at a 1-based line and column.
    pub open spec fn in_string_or_comment(self, line_number: int, col: int) -> bool {
        1 <= line_number <= self.lines.len() && in_string_or_comment_at(self.lines[line_number - 1], col)
    }
}

/// A Ruby source file.
pub struct SourceFile {
    path: Vec<u8>,
    file_name: Option<Vec<u8>>,
    file_name_lossy: Option<Vec<u8>>,
    content: Vec<u8>,
    lines: Vec<Vec<u8>>,
}

impl View for SourceFile {
    type V = SourceView;

    closed spec fn view(&self) -> SourceView {
        SourceView {
            path: self.path@,
            file_name: match self.file_name {
                Some(v) => Some(v@),
                None => None,
            },
            file_name_lossy: match self.file_name_lossy {
                Some(v) => Some(v@),
                None => None,
            },
            content: self.content@,
            lines: lines_view(self.lines@),
        }
    }
}

proof fn lemma_find_byte_skip(c: Seq<u8>, b: u8, s: int)
    requires
        0 <= s <= c.len(),
    ensures
        find_byte(c.skip(s), b) == (match find_byte_from(c, b, s) {
            Some(i) => Some(i - s),
            None => None::<int>,
        }),
{
    let t = c.skip(s);
    lemma_find_byte_from_spec(c, b, s);
    lemma_find_byte_from_spec(t, b, 0);
    match find_byte_from(c, b, s) {
        Some(i) => {
            assert(t[i - s] == b);
            match find_byte(t, b) {
                Some(k) => {
                    if k < i - s {
                        assert(t[k] == c[k + s]);
                    }
                },
                None => {},
            }
        },
        None => {
            match find_byte(t, b) {
                Some(k) => {
                    assert(t[k] == c[k + s]);
                },
                None => {},
            }
        },
    }
}

/// Splits text into lines as `split_lines` says.
pub fn split_lines_exec(c: &[u8]) -> (r: Vec<Vec<u8>>)
    ensures
        lines_view(r@) == split_lines(c@),
{
    let mut out: Vec<Vec<u8>> = Vec::new();
    let mut start: usize = 0;
    assert(c@.skip(0) =~= c@);
    while start < c.len()
        invariant
            start <= c.len(),
            lines_view(out@) + split_lines(c@.skip(start as int)) == split_lines(c@),
        decreases c.len() - start,
    {
        let ghost rest = c@.skip(start as int);
        proof {
            lemma_find_byte_skip(c@, 10u8, start as int);
            lemma_find_byte_from_spec(c@, 10u8, start as int);
        }
        match find_byte_from_exec(c, 10u8, start) {
            Some(i) => {
                let mut end = i;
                if end > start && c[end - 1] == 13u8 {
                    end = end - 1;
                }
                let piece = vstd::slice::slice_to_vec(&c[start..end]);
                proof {
                    assert(rest.take(i - start) =~= c@.subrange(start as int, i as int));
                    assert(piece@ =~= strip_cr(rest.take(i - start)));
                    assert(rest.skip(i - start + 1) =~= c@.skip(i + 1));
                }
                let ghost before = out@;
                out.push(piece);
                proof {
                    assert(lines_view(out@) =~= lines_view(before).push(piece@));
                }
                start = i + 1;
            },
            None => {
                let piece = vstd::slice::slice_to_vec(&c[start..c.len()]);
                let ghost before = out@;
                out.push(piece);
                proof {
                    assert(lines_view(out@) =~= lines_view(before).push(piece@));
                    assert(piece@ =~= rest);
                    assert(c@.skip(c@.len() as int) =~= Seq::<u8>::empty());
                }
                start = c.len();
            },
        }
    }
    assert(c@.skip(start as int) =~= Seq::<u8>::empty());
    out
}

/// A text has no more lines than bytes, and no line is longer than the text.
pub proof fn lemma_split_lines_bounds(c: Seq<u8>)
    ensures
        split_lines(c).len() <= c.len(),
        forall|i: int| 0 <= i < split_lines(c).len() ==> #[trigger] split_lines(c)[i].len() <= c.len(),
    decreases c.len(),
{
    if c.len() > 0 {
        lemma_find_byte_from_spec(c, 10u8, 0);
        match find_byte(c, 10u8) {
            Some(k) => {
                let rest = c.skip(k + 1);
                lemma_split_lines_bounds(rest);
                let head = seq![strip_cr(c.take(k))];
                assert forall|i: int| 0 <= i < split_lines(c).len() implies #[trigger] split_lines(c)[i].len() <= c.len() by {
                    if i > 0 {
                        assert(split_lines(c)[i] == split_lines(rest)[i - 1]);
                    }
                }
            },
            None => {},
        }
    }
}

/// No line holds a line feed: the lines are the text between line feeds.
pub proof fn law_lines_have_no_line_feed(c: Seq<u8>)
    ensures
        forall|i: int, k: int| 0 <= i < split_lines(c).len() && 0 <= k < split_lines(c)[i].len() ==> #[trigger] split_lines(c)[i][k] != 10u8,
    decreases c.len(),
{
    if c.len() > 0 {
        lemma_find_byte_from_spec(c, 10u8, 0);
        match find_byte(c, 10u8) {
            Some(p) => {
                let rest = c.skip(p + 1);
                law_lines_have_no_line_feed(rest);
                assert forall|i: int, k: int| 0 <= i < split_lines(c).len() && 0 <= k < split_lines(c)[i].len() implies #[trigger] split_lines(c)[i][k] != 10u8 by {
                    if i == 0 {
                        assert(split_lines(c)[0] == strip_cr(c.take(p)));
                        assert(strip_cr(c.take(p))[k] == c[k]);
                    } else {
                        assert(split_lines(c)[i] == split_lines(rest)[i - 1]);
                    }
                }
            },
            None => {
                assert(split_lines(c) == seq![c]);
            },
        }
    }
}

/// Lines and their lengths fit the machine: at most `isize::MAX` of each.
pub open spec fn fits(src: SourceView) -> bool {
    &&& src.lines.len() <= isize::MAX
    &&& forall|i: int| 0 <= i < src.lines.len() ==> #[trigger] src.lines[i].len() <= isize::MAX
}

impl SourceFile {
    #[verifier::type_invariant]
    spec fn wf(self) -> bool {
        &&& lines_view(self.lines@) == split_lines(self.content@)
        &&& self.content@.len() <= isize::MAX
    }

    /// The file's lines and their lengths fit the machine.
    pub fn fits(&self)
        ensures
            fits(self@),
    {
        proof {
            use_type_invariant(self);
            lemma_split_lines_bounds(self.content@);
        }
    }

    /// A source file with the given path and content. Its file name is the
    /// final component of the path (`final_component`).
    pub fn from_string(path: &str, content: String) -> (r: SourceFile)
        requires
            vstd::utf8::encode_utf8(content@).len() <= isize::MAX,
        ensures
            r@.path == bytes_of(path),
            r@.file_name == final_component(bytes_of(path)),
            r@.file_name_lossy == final_component(bytes_of(path)),
            r@.content == vstd::utf8::encode_utf8(content@),
            r@.lines == split_lines(r@.content),
    {
        let bytes = content.as_str().as_bytes();
        let lines = split_lines_exec(bytes);
        let p = path.as_bytes();
        let name = path_final_component(p);
        let file_name_lossy = match &name {
            Some(v) => Some(v.clone()),
            None => None,
        };
        SourceFile {
            path: vstd::slice::slice_to_vec(p),
            file_name: name,
            file_name_lossy,
            content: vstd::slice::slice_to_vec(bytes),
            lines,
        }
    }

    /// Number of lines.
    pub fn line_count(&self) -> (r: usize)
        ensures
            r == self@.lines.len(),
            fits(self@),
    {
        self.fits();
        self.lines.len()
    }

    /// Whether the file has no content.
    pub fn is_empty(&self) -> (r: bool)
        ensures
            r == (self@.content.len() == 0),
    {
        self.content.len() == 0
    }

    /// The 1-based line `n`.
    pub fn line(&self, n: usize) -> (r: Option<&[u8]>)
        ensures
            match r {
                Some(l) => self@.line(n as int) == Some(l@),
                None => self@.line(n as int) is None,
            },
    {
        if n >= 1 && n <= self.lines.len() {
            Some(self.lines[n - 1].as_slice())
        } else {
            None
        }
    }

    /// The 0-based line `i`.
    pub fn line_at(&self, i: usize) -> (r: &[u8])
        requires
            i < self@.lines.len(),
        ensures
            r@ == self@.lines[i as int],
            fits(self@),
    {
        self.fits();
        self.lines[i].as_slice()
    }

    /// The whole content.
    pub fn content(&self) -> (r: &[u8])
        ensures
            r@ == self@.content,
            r@.len() <= isize::MAX,
    {
        proof {
            use_type_invariant(self);
        }
        self.content.as_slice()
    }

    /// The path as text.
    pub fn path(&self) -> (r: &[u8])
        ensures
            r@ == self@.path,
    {
        self.path.as_slice()
    }

    /// The final component of the path.
    pub fn file_name(&self) -> (r: Option<&[u8]>)
        ensures
            match r {
                Some(n) => self@.file_name == Some(n@),
                None => self@.file_name is None,
            },
    {
        match &self.file_name {
            Some(n) => Some(n.as_slice()),
            None => None,
        }
    }

    /// The final component of the path, with invalid UTF-8 replaced.
    pub fn file_name_lossy(&self) -> (r: Option<&[u8]>)
        ensures
            match r {
                Some(n) => self@.file_name_lossy == Some(n@),
                None => self@.file_name_lossy is None,
            },
    {
        match &self.file_name_lossy {
            Some(n) => Some(n.as_slice()),
            None => None,
        }
    }

    /// Whether the byte at 1-based `column` of 1-based line `line_number`
    /// lies inside a string literal or a comment.
    pub fn in_string_or_comment(&self, line_number: usize, column: usize) -> (r: bool)
        ensures
            r == self@.in_string_or_comment(line_number as int, column as int),
    {
        if line_number < 1 || line_number > self.lines.len() {
            return false;
        }
        in_string_or_comment_exec(self.lines[line_number - 1].as_slice(), column)
    }
}

/// Whether the byte at 1-based `col` of `line` lies inside a string or a comment.
pub fn in_string_or_comment_exec(line: &[u8], col: usize) -> (r: bool)
    ensures
        r == in_string_or_comment_at(line@, col as int),
{
    if col < 1 || col > line.len() {
        return false;
    }
    let mut st = Lex::Code;
    let mut esc = false;
    let mut i: usize = 0;
    while i < col - 1
        invariant
            col <= line.len(),
            i <= col - 1,
            (st, esc) == lex_state(line@, i as int),
        decreases col - 1 - i,
    {
        let b = line[i];
        let next = match st {
            Lex::Code => {
                if b == 35u8 {
                    (Lex::Comment, false)
                } else if b == 39u8 {
                    (Lex::Single, false)
                } else if b == 34u8 {
                    (Lex::Double, false)
                } else {
                    (Lex::Code, false)
                }
            },
            Lex::Single => {
                if esc {
                    (Lex::Single, false)
                } else if b == 92u8 {
                    (Lex::Single, true)
                } else if b == 39u8 {
                    (Lex::Code, false)
                } else {
                    (Lex::Single, false)
                }
            },
            Lex::Double => {
                if esc {
                    (Lex::Double, false)
                } else if b == 92u8 {
                    (Lex::Double, true)
                } else if b == 34u8 {
                    (Lex::Code, false)
                } else {
                    (Lex::Double, false)
                }
            },
            Lex::Comment => (Lex::Comment, false),
        };
        st = next.0;
        esc = next.1;
        i = i + 1;
    }
    match st {
        Lex::Code => line[col - 1] == 35u8,
        _ => true,
    }
}

} // verus!
