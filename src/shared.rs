use crate::consts::{COMMENT_U8, FIELDS, TABS, TAB_U8};
use vstd::prelude::*;
use vstd::string::StringSliceAdditionalSpecFns;
use vstd::utf8::{is_char_boundary, is_continuation_byte, is_leading_byte_width_1};

verus! {

broadcast use {vstd::utf8::group_utf8_lib, vstd::slice::group_slice_axioms};

/// Position of the first `sep` in `b`, or `b.len()` when there is none.
pub open spec fn first_index(b: Seq<u8>, sep: u8) -> nat
    decreases b.len(),
{
    if b.len() == 0 {
        0
    } else if b[0] == sep {
        0
    } else {
        1 + first_index(b.drop_first(), sep)
    }
}

/// The pieces of `b` between the occurrences of `sep`, in order.
#[verifier::opaque]
pub open spec fn segments(b: Seq<u8>, sep: u8) -> Seq<Seq<u8>>
    decreases b.len(),
{
    let t = first_index(b, sep);
    if t < b.len() {
        seq![b.subrange(0, t as int)] + segments(b.subrange(t + 1 as int, b.len() as int), sep)
    } else {
        seq![b]
    }
}

/// Number of occurrences of `sep` in `b`.
pub open spec fn occurrences(b: Seq<u8>, sep: u8) -> nat
    decreases b.len(),
{
    let t = first_index(b, sep);
    if t < b.len() {
        1 + occurrences(b.subrange(t + 1 as int, b.len() as int), sep)
    } else {
        0
    }
}

/// The fields of a line: its bytes split at every tab.
pub open spec fn fields_of(line: Seq<u8>) -> Seq<Seq<u8>> {
    segments(line, TAB_U8)
}

/// A line that is not empty, is no comment and has exactly 32 tabs.
pub open spec fn is_valid_line(line: Seq<u8>) -> bool {
    &&& line.len() > 0
    &&& line[0] != COMMENT_U8
    &&& occurrences(line, TAB_U8) == TABS
}

/// Why a line is rejected, checked in this order.
pub open spec fn line_error(line: Seq<u8>) -> Option<&'static str> {
    if line.len() == 0 {
        Some("Invalid log line (empty)")
    } else if line[0] == COMMENT_U8 {
        Some("Invalid log line (comment)")
    } else if occurrences(line, TAB_U8) != TABS {
        Some("Invalid log line (field count)")
    } else {
        None
    }
}

pub proof fn lemma_first_index_bounds(b: Seq<u8>, sep: u8)
    ensures
        first_index(b, sep) <= b.len(),
        first_index(b, sep) < b.len() ==> b[first_index(b, sep) as int] == sep,
        forall|j: int| 0 <= j < first_index(b, sep) ==> b[j] != sep,
    decreases b.len(),
{
    if b.len() > 0 && b[0] != sep {
        let d = b.drop_first();
        lemma_first_index_bounds(d, sep);
        if first_index(d, sep) < d.len() {
            assert(b[first_index(b, sep) as int] == d[first_index(d, sep) as int]);
        }
        assert forall|j: int| 0 <= j < first_index(b, sep) implies b[j] != sep by {
            if j > 0 {
                assert(b[j] == d[j - 1]);
            }
        }
    }
}

proof fn lemma_first_index_is(b: Seq<u8>, sep: u8, i: int)
    requires
        0 <= i <= b.len(),
        i < b.len() ==> b[i] == sep,
        forall|j: int| 0 <= j < i ==> b[j] != sep,
    ensures
        first_index(b, sep) == i,
    decreases b.len(),
{
    if b.len() > 0 && b[0] != sep {
        lemma_first_index_is(b.drop_first(), sep, i - 1);
    }
}

/// A line has one field more than it has tabs.
pub proof fn lemma_segments_len(b: Seq<u8>, sep: u8)
    ensures
        segments(b, sep).len() == occurrences(b, sep) + 1,
    decreases b.len(),
{
    reveal(segments);
    let t = first_index(b, sep);
    lemma_first_index_bounds(b, sep);
    if t < b.len() {
        lemma_segments_len(b.subrange(t + 1 as int, b.len() as int), sep);
    }
}

/// Relies on memchr::memchr: the position of the first `needle` in
/// `haystack`, or `None` when it does not occur.
#[verifier::external_body]
fn find_byte(needle: u8, haystack: &[u8]) -> (r: Option<usize>)
    ensures
        match r {
            Some(i) => i < haystack@.len() && haystack@[i as int] == needle && forall|j: int|
                0 <= j < i ==> haystack@[j] != needle,
            None => forall|j: int| 0 <= j < haystack@.len() ==> haystack@[j] != needle,
        },
{
    memchr::memchr(needle, haystack)
}

/// Position of the first `sep` in the text, `text.len()` when there is none.
pub fn first_index_in(text: &str, sep: u8) -> (r: usize)
    ensures
        r == first_index(text.spec_bytes(), sep),
{
    let bytes = text.as_bytes();
    let found = find_byte(sep, bytes);
    proof {
        lemma_first_index_bounds(text.spec_bytes(), sep);
    }
    match found {
        Some(i) => {
            proof {
                lemma_first_index_is(text.spec_bytes(), sep, i as int);
            }
            i
        },
        None => {
            proof {
                lemma_first_index_is(text.spec_bytes(), sep, bytes@.len() as int);
            }
            bytes.len()
        },
    }
}

/// Splits the text around the ASCII byte at position `i`, dropping that byte.
pub fn split_around<'a>(text: &'a str, i: usize) -> (r: (&'a str, &'a str))
    requires
        i < text.spec_bytes().len(),
        text.spec_bytes()[i as int] < 0x80,
    ensures
        r.0.spec_bytes() == text.spec_bytes().subrange(0, i as int),
        r.1.spec_bytes() == text.spec_bytes().subrange(i + 1, text.spec_bytes().len() as int),
{
    let ghost b = text.spec_bytes();
    proof {
        assert(!is_continuation_byte(b[i as int]));
        assert(is_char_boundary(b, i as int));
    }
    let (head, tail) = text.split_at(i);
    let ghost t = tail.spec_bytes();
    proof {
        assert(t[0] == b[i as int]);
        assert(is_leading_byte_width_1(t[0]));
        reveal_with_fuel(is_char_boundary, 2);
        assert(is_char_boundary(t, 1));
    }
    let (_sep, rest) = tail.split_at(1);
    proof {
        assert(rest.spec_bytes() =~= b.subrange(i + 1, b.len() as int));
    }
    (head, rest)
}

/// Number of `sep` bytes in the text.
pub fn count_in(text: &str, sep: u8) -> (r: usize)
    requires
        sep < 0x80,
    ensures
        r == occurrences(text.spec_bytes(), sep),
{
    let total = text.as_bytes().len();
    let mut rest = text;
    let mut n: usize = 0;
    loop
        invariant
            sep < 0x80,
            total == text.spec_bytes().len(),
            n + occurrences(rest.spec_bytes(), sep) == occurrences(text.spec_bytes(), sep),
            rest.spec_bytes().len() + n <= total,
        decreases rest.spec_bytes().len(),
    {
        let t = first_index_in(rest, sep);
        proof {
            lemma_first_index_bounds(rest.spec_bytes(), sep);
        }
        if t >= rest.len() {
            return n;
        }
        let (_head, tail) = split_around(rest, t);
        n = n + 1;
        rest = tail;
    }
}

/// Checks that a line is not empty, is no comment line and has exactly
/// 32 tab separators, in this order.
pub fn validate_line(line: &str) -> (r: Result<(), &'static str>)
    ensures
        r is Ok <==> is_valid_line(line.spec_bytes()),
        r is Err <==> line_error(line.spec_bytes()) is Some,
        r matches Err(e) ==> line_error(line.spec_bytes()) == Some(e),
{
    let bytes = line.as_bytes();
    if bytes.len() == 0 {
        return Err("Invalid log line (empty)");
    }
    if bytes[0] == COMMENT_U8 {
        return Err("Invalid log line (comment)");
    }
    if count_in(line, TAB_U8) != TABS {
        return Err("Invalid log line (field count)");
    }
    Ok(())
}

} // verus!

verus! {

/// A cursor over the fields of a line: each step finds the next tab and
/// hands out the text before it, without copying. A line that starts with
/// a tab is not accepted: no field of a log line is empty at its start.
pub struct TabSplitter<'a> {
    rest: &'a str,
    done: bool,
}

impl<'a> TabSplitter<'a> {
    /// The fields that the cursor has still to hand out, as bytes.
    pub closed spec fn remaining(&self) -> Seq<Seq<u8>> {
        if self.done {
            seq![]
        } else {
            fields_of(self.rest.spec_bytes())
        }
    }

    /// A cursor at the first field of `line`, which must not start with a
    /// tab.
    pub fn new(line: &'a str) -> (r: Self)
        requires
            !starts_with_tab(line.spec_bytes()),
        ensures
            r.remaining() == fields_of(line.spec_bytes()),
    {
        TabSplitter { rest: line, done: false }
    }

    /// Hands out the next field, or `None` once all fields were handed out.
    pub fn next(&mut self) -> (r: Option<&'a str>)
        ensures
            old(self).remaining().len() == 0 ==> r is None && final(self).remaining() == old(
                self,
            ).remaining(),
            old(self).remaining().len() > 0 ==> (r matches Some(f) && f.spec_bytes() == old(
                self,
            ).remaining()[0] && final(self).remaining() == old(self).remaining().drop_first()),
    {
        if self.done {
            return None;
        }
        let ghost b = self.rest.spec_bytes();
        proof {
            reveal(segments);
        }
        let t = first_index_in(self.rest, TAB_U8);
        proof {
            lemma_first_index_bounds(b, TAB_U8);
        }
        if t < self.rest.as_bytes().len() {
            let (field, tail) = split_around(self.rest, t);
            self.rest = tail;
            proof {
                assert(fields_of(b).drop_first() =~= fields_of(tail.spec_bytes()));
            }
            Some(field)
        } else {
            let field = self.rest;
            self.done = true;
            proof {
                assert(fields_of(b).drop_first() =~= seq![]);
            }
            Some(field)
        }
    }

    /// Skips `n` fields and hands out the one after them.
    pub fn nth(&mut self, n: usize) -> (r: Option<&'a str>)
        ensures
            n < old(self).remaining().len() ==> (r matches Some(f) && f.spec_bytes() == old(
                self,
            ).remaining()[n as int] && final(self).remaining() == old(self).remaining().skip(
                n + 1,
            )),
            n >= old(self).remaining().len() ==> r is None && final(self).remaining().len() == 0,
    {
        let ghost start = self.remaining();
        let mut i: usize = 0;
        while i < n
            invariant
                i <= n,
                i <= start.len() ==> self.remaining() == start.skip(i as int),
                i > start.len() ==> self.remaining().len() == 0,
            decreases n - i,
        {
            let _skipped = self.next();
            proof {
                if i < start.len() {
                    assert(start.skip(i as int).drop_first() =~= start.skip(i + 1));
                }
            }
            i = i + 1;
        }
        proof {
            if n <= start.len() {
                assert(start.skip(n as int).len() == start.len() - n);
                if n < start.len() {
                    assert(start.skip(n as int)[0] == start[n as int]);
                    assert(start.skip(n as int).drop_first() =~= start.skip(n + 1));
                }
            }
        }
        self.next()
    }
}

} // verus!

verus! {

/// Whether two texts are equal, compared byte by byte.
pub fn str_eq(a: &str, b: &str) -> (r: bool)
    ensures
        r == (a@ == b@),
{
    let x = a.as_bytes();
    let y = b.as_bytes();
    proof {
        vstd::utf8::encode_utf8_decode_utf8(a@);
        vstd::utf8::encode_utf8_decode_utf8(b@);
    }
    if x.len() != y.len() {
        return false;
    }
    let mut i: usize = 0;
    while i < x.len()
        invariant
            x@ == a.spec_bytes(),
            y@ == b.spec_bytes(),
            x@.len() == y@.len(),
            i <= x@.len(),
            forall|j: int| 0 <= j < i ==> x@[j] == y@[j],
        decreases x@.len() - i,
    {
        if x[i] != y[i] {
            return false;
        }
        i = i + 1;
    }
    assert(x@ =~= y@);
    true
}

} // verus!

verus! {

/// The sentinel `-` of an absent field, as bytes.
pub open spec fn dash() -> Seq<u8> {
    seq![0x2du8]
}

/// Whether the text is the sentinel `-` of an absent field.
pub fn is_sentinel(s: &str) -> (r: bool)
    ensures
        r == (s.spec_bytes() == dash()),
{
    let b = s.as_bytes();
    let r = b.len() == 1 && b[0] == 0x2d;
    proof {
        if r {
            assert(b@ =~= dash());
        }
    }
    r
}

/// The text, or `None` when it is the sentinel `-`.
pub fn as_optional_str<'a>(s: &'a str) -> (r: Option<&'a str>)
    ensures
        s.spec_bytes() == dash() <==> r is None,
        r matches Some(t) ==> t == s,
{
    if is_sentinel(s) {
        None
    } else {
        Some(s)
    }
}

/// An owned copy of the text, or `None` when it is the sentinel `-`.
pub fn to_optional_string(s: &str) -> (r: Option<String>)
    ensures
        s.spec_bytes() == dash() <==> r is None,
        r matches Some(t) ==> t@ == s@,
{
    if is_sentinel(s) {
        None
    } else {
        Some(s.to_owned())
    }
}

} // verus!

verus! {

/// A valid line passes validation, however often it is validated.
pub proof fn lemma_valid_line_passes(line: Seq<u8>)
    requires
        is_valid_line(line),
    ensures
        line_error(line) is None,
{
}

/// The three ways a line is rejected: an empty line, a comment line, and a
/// line whose tab count is not 32, such as 31 or 33.
pub proof fn lemma_line_rejections(line: Seq<u8>)
    ensures
        line.len() == 0 ==> line_error(line) == Some("Invalid log line (empty)"),
        line.len() > 0 && line[0] == COMMENT_U8 ==> line_error(line) == Some(
            "Invalid log line (comment)",
        ),
        line.len() > 0 && line[0] != COMMENT_U8 && occurrences(line, TAB_U8) != TABS
            ==> line_error(line) == Some("Invalid log line (field count)"),
        line_error(line) is None <==> is_valid_line(line),
{
}

} // verus!

verus! {

/// The line starts with a tab, which would make its first field empty.
pub open spec fn starts_with_tab(line: Seq<u8>) -> bool {
    line.len() > 0 && line[0] == TAB_U8
}

/// Why a line is not split into fields: the error of [`validate_line`],
/// else a tab at its start, which no log line holds and which the splitting
/// cursor does not accept.
pub open spec fn split_error(line: Seq<u8>) -> Option<&'static str> {
    if line_error(line) is Some {
        line_error(line)
    } else if starts_with_tab(line) {
        Some("Invalid log line (tab at start)")
    } else {
        None
    }
}

/// Checks a line with [`validate_line`], then that it does not start with a
/// tab.
pub fn validate_for_split(line: &str) -> (r: Result<(), &'static str>)
    ensures
        r is Ok <==> split_error(line.spec_bytes()) is None,
        r matches Err(e) ==> split_error(line.spec_bytes()) == Some(e),
        r is Ok ==> is_valid_line(line.spec_bytes()) && !starts_with_tab(line.spec_bytes()),
{
    validate_line(line)?;
    check_line_start(line)
}

/// Checks that a line does not start with a tab.
pub fn check_line_start(line: &str) -> (r: Result<(), &'static str>)
    ensures
        r is Ok <==> !starts_with_tab(line.spec_bytes()),
        r matches Err(e) ==> e == "Invalid log line (tab at start)",
{
    let b = line.as_bytes();
    if b.len() > 0 && b[0] == TAB_U8 {
        return Err("Invalid log line (tab at start)");
    }
    Ok(())
}

} // verus!
