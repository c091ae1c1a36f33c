use crate::consts::FIELDS;
use crate::shared::{
    check_line_start, fields_of, is_valid_line, lemma_segments_len, split_error, starts_with_tab, validate_for_split,
    TabSplitter,
};
use crate::types::{Marker, Unvalidated, Validated};
use vstd::prelude::*;
use vstd::string::StringSliceAdditionalSpecFns;

verus! {

/// Field `i` of a line, or empty text when the line has fewer fields.
pub open spec fn line_field(line: Seq<u8>, i: int) -> Seq<u8> {
    if 0 <= i < fields_of(line).len() {
        fields_of(line)[i]
    } else {
        seq![]
    }
}

/// The 33 fields that a raw line takes from `line`.
pub open spec fn line_fields(line: Seq<u8>) -> Seq<Seq<u8>> {
    Seq::new(FIELDS as nat, |i: int| line_field(line, i))
}

/// A valid line has exactly the 33 fields that a raw line takes from it.
pub proof fn lemma_valid_line_fields(line: Seq<u8>)
    requires
        is_valid_line(line),
    ensures
        fields_of(line).len() == FIELDS,
        line_fields(line) == fields_of(line),
{
    lemma_segments_len(line, crate::consts::TAB_U8);
    assert(line_fields(line) =~= fields_of(line));
}

/// The raw log line: every field is a slice of the line it was split from.
///
/// `V` records whether the line went through [`validate_line`]
/// ([`Validated`]) or not ([`Unvalidated`]); it holds no data. Only this
/// crate makes a [`Marker`], so callers get a line from its constructors.
#[derive(Debug, Clone, Copy, PartialEq)]
pub struct Logline<'a, V> {
    pub date: &'a str,
    pub time: &'a str,
    pub x_edge_location: &'a str,
    pub sc_bytes: &'a str,
    pub c_ip: &'a str,
    pub cs_method: &'a str,
    pub cs_host: &'a str,
    pub cs_uri_stem: &'a str,
    pub sc_status: &'a str,
    pub cs_referer: &'a str,
    pub cs_user_agent: &'a str,
    pub cs_uri_query: &'a str,
    pub cs_cookie: &'a str,
    pub x_edge_result_type: &'a str,
    pub x_edge_request_id: &'a str,
    pub x_host_header: &'a str,
    pub cs_protocol: &'a str,
    pub cs_bytes: &'a str,
    pub time_taken: &'a str,
    pub x_forwarded_for: &'a str,
    pub ssl_protocol: &'a str,
    pub ssl_cipher: &'a str,
    pub x_edge_response_result_type: &'a str,
    pub cs_protocol_version: &'a str,
    pub fle_status: &'a str,
    pub fle_encrypted_fields: &'a str,
    pub c_port: &'a str,
    pub time_to_first_byte: &'a str,
    pub x_edge_detailed_result_type: &'a str,
    pub sc_content_type: &'a str,
    pub sc_content_len: &'a str,
    pub sc_range_start: &'a str,
    pub sc_range_end: &'a str,
    pub marker: Marker<V>,
}

/// A raw line built from text that passed [`validate_line`].
pub type ValidatedLogline<'a> = Logline<'a, Validated>;

/// A raw line built from text that was not checked.
pub type UnvalidatedLogline<'a> = Logline<'a, Unvalidated>;

impl<'a, V> Logline<'a, V> {
    /// Field `i` in schema order, as bytes.
    pub open spec fn field_text(&self, i: int) -> Seq<u8> {
        match i as u8 {
            0 => self.date.spec_bytes(),
            1 => self.time.spec_bytes(),
            2 => self.x_edge_location.spec_bytes(),
            3 => self.sc_bytes.spec_bytes(),
            4 => self.c_ip.spec_bytes(),
            5 => self.cs_method.spec_bytes(),
            6 => self.cs_host.spec_bytes(),
            7 => self.cs_uri_stem.spec_bytes(),
            8 => self.sc_status.spec_bytes(),
            9 => self.cs_referer.spec_bytes(),
            10 => self.cs_user_agent.spec_bytes(),
            11 => self.cs_uri_query.spec_bytes(),
            12 => self.cs_cookie.spec_bytes(),
            13 => self.x_edge_result_type.spec_bytes(),
            14 => self.x_edge_request_id.spec_bytes(),
            15 => self.x_host_header.spec_bytes(),
            16 => self.cs_protocol.spec_bytes(),
            17 => self.cs_bytes.spec_bytes(),
            18 => self.time_taken.spec_bytes(),
            19 => self.x_forwarded_for.spec_bytes(),
            20 => self.ssl_protocol.spec_bytes(),
            21 => self.ssl_cipher.spec_bytes(),
            22 => self.x_edge_response_result_type.spec_bytes(),
            23 => self.cs_protocol_version.spec_bytes(),
            24 => self.fle_status.spec_bytes(),
            25 => self.fle_encrypted_fields.spec_bytes(),
            26 => self.c_port.spec_bytes(),
            27 => self.time_to_first_byte.spec_bytes(),
            28 => self.x_edge_detailed_result_type.spec_bytes(),
            29 => self.sc_content_type.spec_bytes(),
            30 => self.sc_content_len.spec_bytes(),
            31 => self.sc_range_start.spec_bytes(),
            _ => self.sc_range_end.spec_bytes(),
        }
    }

    /// The fields in schema order, as bytes.
    pub open spec fn fields(&self) -> Seq<Seq<u8>> {
        Seq::new(FIELDS as nat, |i: int| self.field_text(i))
    }

    /// The same fields under another validation marker.
    pub open spec fn with_marker<W>(self) -> Logline<'a, W> {
        Logline {
            date: self.date,
            time: self.time,
            x_edge_location: self.x_edge_location,
            sc_bytes: self.sc_bytes,
            c_ip: self.c_ip,
            cs_method: self.cs_method,
            cs_host: self.cs_host,
            cs_uri_stem: self.cs_uri_stem,
            sc_status: self.sc_status,
            cs_referer: self.cs_referer,
            cs_user_agent: self.cs_user_agent,
            cs_uri_query: self.cs_uri_query,
            cs_cookie: self.cs_cookie,
            x_edge_result_type: self.x_edge_result_type,
            x_edge_request_id: self.x_edge_request_id,
            x_host_header: self.x_host_header,
            cs_protocol: self.cs_protocol,
            cs_bytes: self.cs_bytes,
            time_taken: self.time_taken,
            x_forwarded_for: self.x_forwarded_for,
            ssl_protocol: self.ssl_protocol,
            ssl_cipher: self.ssl_cipher,
            x_edge_response_result_type: self.x_edge_response_result_type,
            cs_protocol_version: self.cs_protocol_version,
            fle_status: self.fle_status,
            fle_encrypted_fields: self.fle_encrypted_fields,
            c_port: self.c_port,
            time_to_first_byte: self.time_to_first_byte,
            x_edge_detailed_result_type: self.x_edge_detailed_result_type,
            sc_content_type: self.sc_content_type,
            sc_content_len: self.sc_content_len,
            sc_range_start: self.sc_range_start,
            sc_range_end: self.sc_range_end,
            marker: Marker::spec_new(),
        }
    }

    /// Moves the fields under another validation marker.
    fn remark<W>(self) -> (r: Logline<'a, W>)
        ensures
            r == self.with_marker::<W>(),
    {
        Logline {
            date: self.date,
            time: self.time,
            x_edge_location: self.x_edge_location,
            sc_bytes: self.sc_bytes,
            c_ip: self.c_ip,
            cs_method: self.cs_method,
            cs_host: self.cs_host,
            cs_uri_stem: self.cs_uri_stem,
            sc_status: self.sc_status,
            cs_referer: self.cs_referer,
            cs_user_agent: self.cs_user_agent,
            cs_uri_query: self.cs_uri_query,
            cs_cookie: self.cs_cookie,
            x_edge_result_type: self.x_edge_result_type,
            x_edge_request_id: self.x_edge_request_id,
            x_host_header: self.x_host_header,
            cs_protocol: self.cs_protocol,
            cs_bytes: self.cs_bytes,
            time_taken: self.time_taken,
            x_forwarded_for: self.x_forwarded_for,
            ssl_protocol: self.ssl_protocol,
            ssl_cipher: self.ssl_cipher,
            x_edge_response_result_type: self.x_edge_response_result_type,
            cs_protocol_version: self.cs_protocol_version,
            fle_status: self.fle_status,
            fle_encrypted_fields: self.fle_encrypted_fields,
            c_port: self.c_port,
            time_to_first_byte: self.time_to_first_byte,
            x_edge_detailed_result_type: self.x_edge_detailed_result_type,
            sc_content_type: self.sc_content_type,
            sc_content_len: self.sc_content_len,
            sc_range_start: self.sc_range_start,
            sc_range_end: self.sc_range_end,
            marker: Marker::new(),
        }
    }
}

/// Splits `line` into the 33 field texts, in one pass.
///
/// A field that the line lacks is empty text; fields after the 33rd are
/// left out.
pub fn split_fields<'a>(line: &'a str) -> (v: Vec<&'a str>)
    requires
        !starts_with_tab(line.spec_bytes()),
    ensures
        v@.len() == FIELDS,
        forall|j: int| 0 <= j < FIELDS ==> #[trigger] v@[j].spec_bytes() == line_field(line.spec_bytes(), j),
{
    let ghost all = fields_of(line.spec_bytes());
    let mut iter = TabSplitter::new(line);
    let mut v: Vec<&'a str> = Vec::new();
    while v.len() < FIELDS
        invariant
            all == fields_of(line.spec_bytes()),
            v.len() <= FIELDS,
            forall|j: int| 0 <= j < v.len() ==> #[trigger] v@[j].spec_bytes() == line_field(line.spec_bytes(), j),
            v.len() <= all.len() ==> iter.remaining() == all.skip(v.len() as int),
            v.len() > all.len() ==> iter.remaining().len() == 0,
        decreases FIELDS - v.len(),
    {
        let ghost k = v.len() as int;
        let next = iter.next();
        let f = match next {
            Some(f) => f,
            None => "",
        };
        proof {
            if k < all.len() {
                assert(all.skip(k)[0] == all[k]);
                assert(all.skip(k).drop_first() =~= all.skip(k + 1));
                assert(f.spec_bytes() == line_field(line.spec_bytes(), k));
            } else {
                if k == all.len() {
                    assert(all.skip(k).len() == 0);
                }
                reveal_strlit("");
                assert(f@ =~= seq![]);
                assert(f.spec_bytes() =~= seq![]);
                assert(f.spec_bytes() == line_field(line.spec_bytes(), k));
            }
        }
        v.push(f);
        assert(v@[k] == f);
    }
    v
}

/// Splits `line` into a raw line.
#[verifier::rlimit(100)]
fn new_log_line<'a, V>(line: &'a str) -> (r: Logline<'a, V>)
    requires
        !starts_with_tab(line.spec_bytes()),
    ensures
        r.fields() == line_fields(line.spec_bytes()),
{
    let v = split_fields(line);
    let r = Logline {
        date: v[0],
        time: v[1],
        x_edge_location: v[2],
        sc_bytes: v[3],
        c_ip: v[4],
        cs_method: v[5],
        cs_host: v[6],
        cs_uri_stem: v[7],
        sc_status: v[8],
        cs_referer: v[9],
        cs_user_agent: v[10],
        cs_uri_query: v[11],
        cs_cookie: v[12],
        x_edge_result_type: v[13],
        x_edge_request_id: v[14],
        x_host_header: v[15],
        cs_protocol: v[16],
        cs_bytes: v[17],
        time_taken: v[18],
        x_forwarded_for: v[19],
        ssl_protocol: v[20],
        ssl_cipher: v[21],
        x_edge_response_result_type: v[22],
        cs_protocol_version: v[23],
        fle_status: v[24],
        fle_encrypted_fields: v[25],
        c_port: v[26],
        time_to_first_byte: v[27],
        x_edge_detailed_result_type: v[28],
        sc_content_type: v[29],
        sc_content_len: v[30],
        sc_range_start: v[31],
        sc_range_end: v[32],
        marker: Marker::new(),
    };
    assert(r.fields() =~= line_fields(line.spec_bytes()));
    r
}

impl<'a, V> Logline<'a, V> {
    /// The field texts, in schema order.
    pub fn to_vec(&self) -> (v: Vec<&'a str>)
        ensures
            v@.len() == FIELDS,
            forall|j: int| 0 <= j < FIELDS ==> #[trigger] v@[j].spec_bytes() == self.fields()[j],
    {
        let mut v: Vec<&'a str> = Vec::new();
        v.push(self.date);
        v.push(self.time);
        v.push(self.x_edge_location);
        v.push(self.sc_bytes);
        v.push(self.c_ip);
        v.push(self.cs_method);
        v.push(self.cs_host);
        v.push(self.cs_uri_stem);
        v.push(self.sc_status);
        v.push(self.cs_referer);
        v.push(self.cs_user_agent);
        v.push(self.cs_uri_query);
        v.push(self.cs_cookie);
        v.push(self.x_edge_result_type);
        v.push(self.x_edge_request_id);
        v.push(self.x_host_header);
        v.push(self.cs_protocol);
        v.push(self.cs_bytes);
        v.push(self.time_taken);
        v.push(self.x_forwarded_for);
        v.push(self.ssl_protocol);
        v.push(self.ssl_cipher);
        v.push(self.x_edge_response_result_type);
        v.push(self.cs_protocol_version);
        v.push(self.fle_status);
        v.push(self.fle_encrypted_fields);
        v.push(self.c_port);
        v.push(self.time_to_first_byte);
        v.push(self.x_edge_detailed_result_type);
        v.push(self.sc_content_type);
        v.push(self.sc_content_len);
        v.push(self.sc_range_start);
        v.push(self.sc_range_end);
        v
    }
}

impl<'a> Logline<'a, Validated> {
    /// Validates `line` with [`validate_line`], rejects a tab at its start,
    /// then splits it into its fields.
    pub fn parse(line: &'a str) -> (r: Result<Self, &'static str>)
        ensures
            r is Ok <==> split_error(line.spec_bytes()) is None,
            r matches Ok(l) ==> is_valid_line(line.spec_bytes()) && l.fields() == fields_of(line.spec_bytes()),
            r matches Err(e) ==> split_error(line.spec_bytes()) == Some(e),
    {
        validate_for_split(line)?;
        proof {
            lemma_valid_line_fields(line.spec_bytes());
        }
        Ok(new_log_line(line))
    }

    /// Drops the validation marker; the fields stay as they are.
    pub fn into_unvalidated(self) -> (r: Logline<'a, Unvalidated>)
        ensures
            r == self.with_marker::<Unvalidated>(),
    {
        self.remark()
    }
}

impl<'a> Logline<'a, Unvalidated> {
    /// Splits `line` into its fields without validating it; the caller
    /// makes sure that it does not start with a tab.
    ///
    /// A field that the line lacks is empty text.
    pub fn new(line: &'a str) -> (r: Self)
        requires
            !starts_with_tab(line.spec_bytes()),
        ensures
            r.fields() == line_fields(line.spec_bytes()),
    {
        new_log_line(line)
    }

    /// Marks the line as validated; the caller vouches that it was.
    pub fn assume_validated(self) -> (r: Logline<'a, Validated>)
        ensures
            r == self.with_marker::<Validated>(),
    {
        self.remark()
    }
}

impl<'a> TryFrom<&'a str> for Logline<'a, Validated> {
    type Error = &'static str;

    /// Same as [`Logline::parse`].
    fn try_from(line: &'a str) -> (r: Result<Self, &'static str>)
        ensures
            r is Ok <==> split_error(line.spec_bytes()) is None,
            r matches Ok(l) ==> is_valid_line(line.spec_bytes()) && l.fields() == fields_of(line.spec_bytes()),
            r matches Err(e) ==> split_error(line.spec_bytes()) == Some(e),
    {
        Self::parse(line)
    }
}

impl<'a> vstd::std_specs::convert::TryFromSpecImpl<&'a str> for Logline<'a, Validated> {
    open spec fn obeys_try_from_spec() -> bool {
        false
    }

    open spec fn try_from_spec(line: &'a str) -> Result<Self, &'static str> {
        Err("")
    }
}

impl<'a> TryFrom<&'a str> for Logline<'a, Unvalidated> {
    type Error = &'static str;

    /// Same as [`Logline::new`], but a line that starts with a tab is an
    /// error instead of a demand on the caller.
    fn try_from(line: &'a str) -> (r: Result<Self, &'static str>)
        ensures
            r is Ok <==> !starts_with_tab(line.spec_bytes()),
            r matches Ok(l) ==> l.fields() == line_fields(line.spec_bytes()),
            r matches Err(e) ==> e == "Invalid log line (tab at start)",
    {
        check_line_start(line)?;
        Ok(Self::new(line))
    }
}

impl<'a> vstd::std_specs::convert::TryFromSpecImpl<&'a str> for Logline<'a, Unvalidated> {
    open spec fn obeys_try_from_spec() -> bool {
        false
    }

    open spec fn try_from_spec(line: &'a str) -> Result<Self, &'static str> {
        Err("")
    }
}

impl<'a> From<Logline<'a, Validated>> for Logline<'a, Unvalidated> {
    fn from(l: Logline<'a, Validated>) -> (r: Self) {
        l.into_unvalidated()
    }
}

impl<'a> vstd::std_specs::convert::FromSpecImpl<Logline<'a, Validated>> for Logline<'a, Unvalidated> {
    open spec fn obeys_from_spec() -> bool {
        true
    }

    open spec fn from_spec(l: Logline<'a, Validated>) -> Self {
        l.with_marker::<Unvalidated>()
    }
}

impl<'a> From<Logline<'a, Unvalidated>> for Logline<'a, Validated> {
    fn from(l: Logline<'a, Unvalidated>) -> (r: Self) {
        l.assume_validated()
    }
}

impl<'a> vstd::std_specs::convert::FromSpecImpl<Logline<'a, Unvalidated>> for Logline<'a, Validated> {
    open spec fn obeys_from_spec() -> bool {
        true
    }

    open spec fn from_spec(l: Logline<'a, Unvalidated>) -> Self {
        l.with_marker::<Validated>()
    }
}

/// Converting a raw line to validated and back gives the same line.
pub proof fn lemma_marker_round_trip<'a>(l: Logline<'a, Unvalidated>)
    ensures
        l.with_marker::<Validated>().with_marker::<Unvalidated>() == l,
        l.with_marker::<Validated>().fields() == l.fields(),
{
    crate::types::lemma_marker_unique(l.marker, Marker::spec_new());
}

} // verus!
