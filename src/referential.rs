//! A log line that owns its text and hands out borrowed views of it.
//!
//! The line is kept together with the byte range of each field, so a view
//! borrows from the line that this value owns and from nothing else.

use crate::borrowed::raw::{line_field, line_fields, Logline as RawLogline};
use core::marker::PhantomData;
use crate::borrowed::typed::{time_line_error, Logline as TimeLogline};
use crate::consts::{FIELDS, TAB_U8};
use crate::shared::{
    fields_of, first_index_in, lemma_first_index_bounds, lemma_segments_len, split_around, split_error,
    validate_for_split,
};
use crate::types::{Marker, Unvalidated, Validated};
use vstd::prelude::*;
use vstd::string::StringSliceAdditionalSpecFns;
use vstd::utf8::{encode_utf8, is_continuation_byte};

verus! {

broadcast use {vstd::utf8::group_utf8_lib, vstd::slice::group_slice_axioms};

/// The bytes `b[from..to]` of the text, where the byte before `from` and
/// the byte at `to` are ASCII when they exist.
pub(crate) fn slice_between<'a>(s: &'a str, from: usize, to: usize) -> (r: &'a str)
    requires
        from <= to <= s.spec_bytes().len(),
        from < to && from > 0 ==> s.spec_bytes()[from - 1] < 0x80,
        to < s.spec_bytes().len() ==> s.spec_bytes()[to as int] < 0x80,
    ensures
        r.spec_bytes() == s.spec_bytes().subrange(from as int, to as int),
{
    let ghost b = s.spec_bytes();
    if from == to {
        proof {
            reveal_strlit("");
        }
        assert(""@ =~= seq![]);
        assert("".spec_bytes() =~= b.subrange(from as int, to as int));
        return "";
    }
    let tail = if from == 0 {
        assert(b.subrange(0, b.len() as int) =~= b);
        s
    } else {
        split_around(s, from - 1).1
    };
    let ghost t = tail.spec_bytes();
    assert(t == b.subrange(from as int, b.len() as int));
    proof {
        if to - from < t.len() {
            assert(t[to - from] == b[to as int]);
            assert(!is_continuation_byte(t[to - from]));
        }
    }
    let (field, _rest) = tail.split_at(to - from);
    assert(field.spec_bytes() =~= b.subrange(from as int, to as int));
    field
}

/// A log line that owns its text, together with the byte range of each
/// field in it.
pub struct Logline<V> {
    line: String,
    starts: Vec<usize>,
    ends: Vec<usize>,
    marker: PhantomData<V>,
}

/// An owning line that passed [`validate_line`].
///
/// [`validate_line`]: crate::shared::validate_line
pub type ValidatedLogline = Logline<Validated>;

/// An owning line that was not checked.
pub type UnvalidatedLogline = Logline<Unvalidated>;

/// The byte ranges fit the text: each is in bounds, has ASCII bytes around
/// it, and holds the text of its field.
pub open spec fn ranges_fit(text: Seq<u8>, starts: Seq<usize>, ends: Seq<usize>) -> bool {
    &&& starts.len() == FIELDS
    &&& ends.len() == FIELDS
    &&& forall|i: int|
        0 <= i < FIELDS ==> {
            &&& #[trigger] starts[i] <= ends[i] <= text.len()
            &&& starts[i] < ends[i] && starts[i] > 0 ==> text[starts[i] - 1] < 0x80
            &&& ends[i] < text.len() ==> text[ends[i] as int] < 0x80
            &&& text.subrange(starts[i] as int, ends[i] as int) == line_field(text, i)
        }
}

/// Finds the byte range of every field of `line`; a field that the line
/// lacks gets an empty range at its end.
pub(crate) fn field_ranges(line: &str) -> (r: (Vec<usize>, Vec<usize>))
    ensures
        ranges_fit(line.spec_bytes(), r.0@, r.1@),
{
    let ghost text = line.spec_bytes();
    let ghost all = fields_of(text);
    let len = line.as_bytes().len();
    let mut starts: Vec<usize> = Vec::new();
    let mut ends: Vec<usize> = Vec::new();
    let mut rest = line;
    let mut pos: usize = 0;
    let mut done = false;
    proof {
        lemma_segments_len(text, TAB_U8);
        assert(all.skip(0) =~= all);
        assert(text.subrange(0, len as int) =~= text);
    }
    while starts.len() < FIELDS
        invariant
            text == line.spec_bytes(),
            all == fields_of(text),
            len == text.len(),
            starts.len() == ends.len(),
            starts.len() <= FIELDS,
            pos <= len,
            !done ==> rest.spec_bytes() == text.subrange(pos as int, len as int),
            !done ==> pos == 0 || text[pos - 1] == TAB_U8,
            !done ==> all.skip(starts.len() as int) == fields_of(rest.spec_bytes()),
            !done ==> starts.len() < all.len(),
            done ==> starts.len() >= all.len() && pos == len,
            forall|i: int|
                0 <= i < starts.len() ==> {
                    &&& #[trigger] starts@[i] <= ends@[i] <= text.len()
                    &&& starts@[i] < ends@[i] && starts@[i] > 0 ==> text[starts@[i] - 1] < 0x80
                    &&& ends@[i] < text.len() ==> text[ends@[i] as int] < 0x80
                    &&& text.subrange(starts@[i] as int, ends@[i] as int) == line_field(text, i)
                },
        decreases FIELDS - starts.len(),
    {
        let ghost k = starts.len() as int;
        if done {
            starts.push(len);
            ends.push(len);
            proof {
                assert(text.subrange(len as int, len as int) =~= seq![]);
            }
        } else {
            let ghost rb = rest.spec_bytes();
            proof {
                reveal(crate::shared::segments);
                lemma_segments_len(rb, TAB_U8);
                lemma_first_index_bounds(rb, TAB_U8);
                assert(all.skip(k)[0] == all[k]);
            }
            let t = first_index_in(rest, TAB_U8);
            starts.push(pos);
            ends.push(pos + t);
            proof {
                assert(text.subrange(pos as int, pos + t) =~= rb.subrange(0, t as int));
                if pos + t < len {
                    assert(text[pos + t] == rb[t as int]);
                }
            }
            if t < rest.as_bytes().len() {
                let (_field, tail) = split_around(rest, t);
                proof {
                    assert(all.skip(k).drop_first() =~= all.skip(k + 1));
                    assert(tail.spec_bytes() =~= text.subrange(pos + t + 1, len as int));
                    lemma_segments_len(tail.spec_bytes(), TAB_U8);
                }
                rest = tail;
                pos = pos + t + 1;
            } else {
                proof {
                    assert(all.skip(k).len() == 1);
                }
                pos = len;
                done = true;
            }
        }
    }
    (starts, ends)
}

impl<V> Logline<V> {
    /// The ranges fit the owned text.
    #[verifier::type_invariant]
    closed spec fn wf(&self) -> bool {
        ranges_fit(encode_utf8(self.line@), self.starts@, self.ends@)
    }

    /// The owned text, as bytes.
    pub closed spec fn text(&self) -> Seq<u8> {
        encode_utf8(self.line@)
    }

    /// The fields that a view hands out, as bytes.
    pub open spec fn fields(&self) -> Seq<Seq<u8>> {
        line_fields(self.text())
    }

    /// Takes ownership of `line` and finds its fields.
    fn build(line: String) -> (r: Self)
        ensures
            r.text() == encode_utf8(line@),
    {
        let (starts, ends) = field_ranges(line.as_str());
        Logline { line, starts, ends, marker: PhantomData }
    }

    /// Field `i`, borrowed from the owned text.
    fn field(&self, i: usize) -> (r: &str)
        requires
            i < FIELDS,
        ensures
            r.spec_bytes() == self.fields()[i as int],
    {
        proof {
            use_type_invariant(self);
        }
        let s = self.line.as_str();
        assert(self.starts@[i as int] <= self.ends@[i as int]);
        slice_between(s, self.starts[i], self.ends[i])
    }

    /// A raw line borrowed from the owned text.
    #[verifier::rlimit(100)]
    pub fn view(&self) -> (r: RawLogline<'_, V>)
        ensures
            r.fields() == self.fields(),
    {
        let r = RawLogline {
            date: self.field(0),
            time: self.field(1),
            x_edge_location: self.field(2),
            sc_bytes: self.field(3),
            c_ip: self.field(4),
            cs_method: self.field(5),
            cs_host: self.field(6),
            cs_uri_stem: self.field(7),
            sc_status: self.field(8),
            cs_referer: self.field(9),
            cs_user_agent: self.field(10),
            cs_uri_query: self.field(11),
            cs_cookie: self.field(12),
            x_edge_result_type: self.field(13),
            x_edge_request_id: self.field(14),
            x_host_header: self.field(15),
            cs_protocol: self.field(16),
            cs_bytes: self.field(17),
            time_taken: self.field(18),
            x_forwarded_for: self.field(19),
            ssl_protocol: self.field(20),
            ssl_cipher: self.field(21),
            x_edge_response_result_type: self.field(22),
            cs_protocol_version: self.field(23),
            fle_status: self.field(24),
            fle_encrypted_fields: self.field(25),
            c_port: self.field(26),
            time_to_first_byte: self.field(27),
            x_edge_detailed_result_type: self.field(28),
            sc_content_type: self.field(29),
            sc_content_len: self.field(30),
            sc_range_start: self.field(31),
            sc_range_end: self.field(32),
            marker: Marker::new(),
        };
        assert(r.fields() =~= self.fields());
        r
    }

    /// The typed line read from the owned text, or the error of the first
    /// field that does not read.
    pub fn typed_view(&self) -> (r: Result<TimeLogline<'_, V>, &'static str>)
        ensures
            match r {
                Ok(l) => time_line_error(self.fields()) is None && l.matches_fields(self.fields()),
                Err(e) => time_line_error(self.fields()) == Some(e),
            },
    {
        let raw = self.view();
        TimeLogline::from_raw(&raw)
    }

    /// The owned text.
    pub fn as_raw(&self) -> (r: &str)
        ensures
            r.spec_bytes() == self.text(),
    {
        self.line.as_str()
    }

    /// Gives up the field ranges and returns the owned text.
    pub fn into_raw(self) -> (r: String)
        ensures
            encode_utf8(r@) == self.text(),
    {
        self.line
    }
}

impl Logline<Validated> {
    /// Validates `line` with [`validate_line`], rejects a tab at its start,
    /// then keeps it and the ranges of its fields.
    pub fn new(line: String) -> (r: Result<Self, &'static str>)
        ensures
            r is Ok <==> split_error(encode_utf8(line@)) is None,
            r matches Ok(l) ==> l.text() == encode_utf8(line@) && l.fields() == fields_of(l.text()),
            r matches Err(e) ==> split_error(encode_utf8(line@)) == Some(e),
    {
        validate_for_split(line.as_str())?;
        proof {
            crate::borrowed::raw::lemma_valid_line_fields(encode_utf8(line@));
        }
        Ok(Self::build(line))
    }
}

impl Logline<Unvalidated> {
    /// Keeps `line` and the ranges of its fields, without validating it.
    pub fn new(line: String) -> (r: Self)
        ensures
            r.text() == encode_utf8(line@),
    {
        Self::build(line)
    }
}

impl Logline<Unvalidated> {
    /// Validates the owned text with [`validate_line`] and rejects a tab at
    /// its start; on success the same
    /// text and ranges are marked validated.
    pub fn validate(self) -> (r: Result<Logline<Validated>, &'static str>)
        ensures
            r is Ok <==> split_error(self.text()) is None,
            r matches Ok(l) ==> l.text() == self.text(),
            r matches Err(e) ==> split_error(self.text()) == Some(e),
    {
        proof {
            use_type_invariant(&self);
        }
        validate_for_split(self.line.as_str())?;
        Ok(Logline { line: self.line, starts: self.starts, ends: self.ends, marker: PhantomData })
    }
}

impl Logline<Validated> {
    /// Drops the validation marker; the text and ranges stay as they are.
    pub fn into_unvalidated(self) -> (r: Logline<Unvalidated>)
        ensures
            r.text() == self.text(),
    {
        proof {
            use_type_invariant(&self);
        }
        Logline { line: self.line, starts: self.starts, ends: self.ends, marker: PhantomData }
    }
}

impl<V> Clone for Logline<V> {
    /// A copy of the text, with its field ranges found anew.
    fn clone(&self) -> (r: Self)
        ensures
            r.text() == self.text(),
    {
        Self::build(self.line.clone())
    }
}

impl<'a> TryFrom<&'a str> for Logline<Validated> {
    type Error = &'static str;

    /// Same as [`Logline::new`] on a copy of `line`.
    fn try_from(line: &'a str) -> (r: Result<Self, &'static str>)
        ensures
            r is Ok <==> split_error(line.spec_bytes()) is None,
            r matches Ok(l) ==> l.text() == line.spec_bytes(),
    {
        Self::new(line.to_owned())
    }
}

impl<'a> vstd::std_specs::convert::TryFromSpecImpl<&'a str> for Logline<Validated> {
    open spec fn obeys_try_from_spec() -> bool {
        false
    }

    open spec fn try_from_spec(line: &'a str) -> Result<Self, &'static str> {
        Err("")
    }
}

impl TryFrom<String> for Logline<Validated> {
    type Error = &'static str;

    /// Same as [`Logline::new`].
    fn try_from(line: String) -> (r: Result<Self, &'static str>)
        ensures
            r is Ok <==> split_error(encode_utf8(line@)) is None,
            r matches Ok(l) ==> l.text() == encode_utf8(line@),
    {
        Self::new(line)
    }
}

impl vstd::std_specs::convert::TryFromSpecImpl<String> for Logline<Validated> {
    open spec fn obeys_try_from_spec() -> bool {
        false
    }

    open spec fn try_from_spec(line: String) -> Result<Self, &'static str> {
        Err("")
    }
}

impl<'a> From<&'a str> for Logline<Unvalidated> {
    /// Same as [`Logline::new`] on a copy of `line`.
    fn from(line: &'a str) -> (r: Self)
        ensures
            r.text() == line.spec_bytes(),
    {
        Self::new(line.to_owned())
    }
}

impl<'a> vstd::std_specs::convert::FromSpecImpl<&'a str> for Logline<Unvalidated> {
    open spec fn obeys_from_spec() -> bool {
        false
    }

    open spec fn from_spec(line: &'a str) -> Self {
        arbitrary()
    }
}

} // verus!
