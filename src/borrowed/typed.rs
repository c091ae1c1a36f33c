use crate::borrowed::raw::{line_fields, lemma_valid_line_fields, split_fields, Logline as RawLogline};
use crate::calendar::{date_of, parse_date, parse_time, time_of, Date, DateTime, Time, TIME_DATE_FMT, TIME_TIME_FMT};
use crate::consts::FIELDS;
use crate::forwarded::ForwardedForAddrs;
use crate::net::IpAddr;
use crate::num::Duration;
use crate::owned::simple::{
    detailed_field, detailed_result, duration_field, edge_field, edge_result, forwarded_field, ip_field,
    opt_u64_field, protocol_field, read_duration, read_forwarded, read_ip, read_optional_u64, read_protocol,
    read_ssl, read_u16, read_u64, read_version, ssl_field, typed_error, u16_field, u64_field, version_field,
};
use crate::shared::{
    as_optional_str, check_line_start, dash, fields_of, is_valid_line, split_error, starts_with_tab, validate_for_split,
};
use crate::types::{CsProtocol, CsProtocolVersion, DetailedEdgeResultType, EdgeResultType, SslProtocol, Marker, Unvalidated, Validated};
use vstd::prelude::*;
use vstd::string::StringSliceAdditionalSpecFns;
use vstd::utf8::{decode_utf8, encode_utf8_decode_utf8};

verus! {

/// A typed log line that borrows its texts from the line: the date and time
/// are read through the `time` crate, the other fields as in the owned
/// record.
#[derive(Debug, Clone, PartialEq)]
pub struct Logline<'a, V> {
    pub date: Date,
    pub time: Time,
    pub datetime: DateTime,
    pub x_edge_location: &'a str,
    pub sc_bytes: u64,
    pub c_ip: IpAddr,
    pub cs_method: &'a str,
    pub cs_host: &'a str,
    pub cs_uri_stem: &'a str,
    pub sc_status: u16,
    pub cs_referer: Option<&'a str>,
    pub cs_user_agent: &'a str,
    pub cs_uri_query: Option<&'a str>,
    pub cs_cookie: Option<&'a str>,
    pub x_edge_result_type: EdgeResultType,
    pub x_edge_request_id: &'a str,
    pub x_host_header: &'a str,
    pub cs_protocol: CsProtocol,
    pub cs_bytes: u64,
    pub time_taken: Duration,
    pub x_forwarded_for: Option<ForwardedForAddrs>,
    pub ssl_protocol: Option<SslProtocol>,
    pub ssl_cipher: Option<&'a str>,
    pub x_edge_response_result_type: EdgeResultType,
    pub cs_protocol_version: CsProtocolVersion,
    pub fle_status: Option<&'a str>,
    pub fle_encrypted_fields: Option<u64>,
    pub c_port: u16,
    pub time_to_first_byte: Duration,
    pub x_edge_detailed_result_type: DetailedEdgeResultType,
    pub sc_content_type: &'a str,
    pub sc_content_len: u64,
    pub sc_range_start: Option<u64>,
    pub sc_range_end: Option<u64>,
    pub marker: Marker<V>,
}

/// A typed line built from text that passed [`validate_line`].
pub type ValidatedLogline<'a> = Logline<'a, Validated>;

/// A typed line built from text that was not checked.
pub type UnvalidatedLogline<'a> = Logline<'a, Unvalidated>;

/// A borrowed text field: the bytes of the field.
pub open spec fn str_field(s: &str, b: Seq<u8>) -> bool {
    s.spec_bytes() == b
}

/// An optional borrowed text field: absent on the sentinel `-`.
pub open spec fn opt_str_field(o: Option<&str>, b: Seq<u8>) -> bool {
    if b == dash() {
        o is None
    } else {
        o matches Some(s) && s.spec_bytes() == b
    }
}

/// The error of the first field that does not read: the date and the time
/// first, then the fields that the owned record reads.
pub open spec fn time_line_error(f: Seq<Seq<u8>>) -> Option<&'static str> {
    if date_of(decode_utf8(f[0]), TIME_DATE_FMT@) is None {
        Some("date invalid")
    } else if time_of(decode_utf8(f[1]), TIME_TIME_FMT@) is None {
        Some("time invalid")
    } else {
        typed_error(f)
    }
}

impl<'a, V> Logline<'a, V> {
    /// Every field holds what its text in `f` reads as.
    pub open spec fn matches_fields(&self, f: Seq<Seq<u8>>) -> bool {
        &&& date_of(decode_utf8(f[0]), TIME_DATE_FMT@) == Some((self.date.year, self.date.month, self.date.day))
        &&& time_of(decode_utf8(f[1]), TIME_TIME_FMT@) == Some(
            (self.time.hour, self.time.minute, self.time.second, self.time.nanosecond),
        )
        &&& self.datetime == (DateTime { date: self.date, time: self.time })
        &&& str_field(self.x_edge_location, f[2])
        &&& u64_field(self.sc_bytes, f[3])
        &&& ip_field(self.c_ip, f[4])
        &&& str_field(self.cs_method, f[5])
        &&& str_field(self.cs_host, f[6])
        &&& str_field(self.cs_uri_stem, f[7])
        &&& u16_field(self.sc_status, f[8])
        &&& opt_str_field(self.cs_referer, f[9])
        &&& str_field(self.cs_user_agent, f[10])
        &&& opt_str_field(self.cs_uri_query, f[11])
        &&& opt_str_field(self.cs_cookie, f[12])
        &&& edge_field(self.x_edge_result_type, f[13])
        &&& str_field(self.x_edge_request_id, f[14])
        &&& str_field(self.x_host_header, f[15])
        &&& protocol_field(self.cs_protocol, f[16])
        &&& u64_field(self.cs_bytes, f[17])
        &&& duration_field(self.time_taken, f[18])
        &&& forwarded_field(self.x_forwarded_for, f[19])
        &&& ssl_field(self.ssl_protocol, f[20])
        &&& opt_str_field(self.ssl_cipher, f[21])
        &&& edge_field(self.x_edge_response_result_type, f[22])
        &&& version_field(self.cs_protocol_version, f[23])
        &&& opt_str_field(self.fle_status, f[24])
        &&& opt_u64_field(self.fle_encrypted_fields, f[25])
        &&& u16_field(self.c_port, f[26])
        &&& duration_field(self.time_to_first_byte, f[27])
        &&& detailed_field(self.x_edge_detailed_result_type, f[28])
        &&& str_field(self.sc_content_type, f[29])
        &&& u64_field(self.sc_content_len, f[30])
        &&& opt_u64_field(self.sc_range_start, f[31])
        &&& opt_u64_field(self.sc_range_end, f[32])
    }
}

/// Turns the 33 field texts into a typed line, failing on the first field,
/// in schema order, whose text does not read.
#[verifier::rlimit(50)]
fn convert<'a, V>(v: &Vec<&'a str>, Ghost(f): Ghost<Seq<Seq<u8>>>) -> (r: Result<Logline<'a, V>, &'static str>)
    requires
        v@.len() == FIELDS,
        f.len() == FIELDS,
        forall|j: int| 0 <= j < FIELDS ==> #[trigger] v@[j].spec_bytes() == f[j],
    ensures
        match r {
            Ok(l) => time_line_error(f) is None && l.matches_fields(f),
            Err(e) => time_line_error(f) == Some(e),
        },
{
    assert(v@[0].spec_bytes() == f[0]);
    assert(v@[1].spec_bytes() == f[1]);
    proof {
        encode_utf8_decode_utf8(v@[0]@);
        encode_utf8_decode_utf8(v@[1]@);
    }
    let date = match parse_date(v[0], TIME_DATE_FMT) {
        Some(d) => d,
        None => return Err("date invalid"),
    };
    let time = match parse_time(v[1], TIME_TIME_FMT) {
        Some(t) => t,
        None => return Err("time invalid"),
    };
    let datetime = DateTime { date, time };
    assert(v@[2].spec_bytes() == f[2]);
    let x_edge_location = v[2];
    assert(v@[3].spec_bytes() == f[3]);
    let sc_bytes = match read_u64(v[3]) {
        Some(x) => x,
        None => return Err("sc_bytes invalid"),
    };
    assert(v@[4].spec_bytes() == f[4]);
    let c_ip = match read_ip(v[4]) {
        Some(x) => x,
        None => return Err("c_ip invalid"),
    };
    assert(v@[5].spec_bytes() == f[5]);
    let cs_method = v[5];
    assert(v@[6].spec_bytes() == f[6]);
    let cs_host = v[6];
    assert(v@[7].spec_bytes() == f[7]);
    let cs_uri_stem = v[7];
    assert(v@[8].spec_bytes() == f[8]);
    let sc_status = match read_u16(v[8]) {
        Some(x) => x,
        None => return Err("sc_status invalid"),
    };
    assert(v@[9].spec_bytes() == f[9]);
    let cs_referer = as_optional_str(v[9]);
    assert(v@[10].spec_bytes() == f[10]);
    let cs_user_agent = v[10];
    assert(v@[11].spec_bytes() == f[11]);
    let cs_uri_query = as_optional_str(v[11]);
    assert(v@[12].spec_bytes() == f[12]);
    let cs_cookie = as_optional_str(v[12]);
    assert(v@[13].spec_bytes() == f[13]);
    let x_edge_result_type = edge_result(v[13]);
    assert(v@[14].spec_bytes() == f[14]);
    let x_edge_request_id = v[14];
    assert(v@[15].spec_bytes() == f[15]);
    let x_host_header = v[15];
    assert(v@[16].spec_bytes() == f[16]);
    let cs_protocol = read_protocol(v[16]);
    assert(v@[17].spec_bytes() == f[17]);
    let cs_bytes = match read_u64(v[17]) {
        Some(x) => x,
        None => return Err("cs_bytes invalid"),
    };
    assert(v@[18].spec_bytes() == f[18]);
    let time_taken = match read_duration(v[18]) {
        Some(x) => x,
        None => return Err("time_taken invalid"),
    };
    assert(v@[19].spec_bytes() == f[19]);
    let x_forwarded_for = match read_forwarded(v[19]) {
        Some(x) => x,
        None => return Err("x_forwarded_for invalid"),
    };
    assert(v@[20].spec_bytes() == f[20]);
    let ssl_protocol = read_ssl(v[20]);
    assert(v@[21].spec_bytes() == f[21]);
    let ssl_cipher = as_optional_str(v[21]);
    assert(v@[22].spec_bytes() == f[22]);
    let x_edge_response_result_type = edge_result(v[22]);
    assert(v@[23].spec_bytes() == f[23]);
    let cs_protocol_version = read_version(v[23]);
    assert(v@[24].spec_bytes() == f[24]);
    let fle_status = as_optional_str(v[24]);
    assert(v@[25].spec_bytes() == f[25]);
    let fle_encrypted_fields = match read_optional_u64(v[25]) {
        Some(x) => x,
        None => return Err("fle_encrypted_fields invalid"),
    };
    assert(v@[26].spec_bytes() == f[26]);
    let c_port = match read_u16(v[26]) {
        Some(x) => x,
        None => return Err("c_port invalid"),
    };
    assert(v@[27].spec_bytes() == f[27]);
    let time_to_first_byte = match read_duration(v[27]) {
        Some(x) => x,
        None => return Err("time_to_first_byte invalid"),
    };
    assert(v@[28].spec_bytes() == f[28]);
    let x_edge_detailed_result_type = detailed_result(v[28]);
    assert(v@[29].spec_bytes() == f[29]);
    let sc_content_type = v[29];
    assert(v@[30].spec_bytes() == f[30]);
    let sc_content_len = match read_u64(v[30]) {
        Some(x) => x,
        None => return Err("sc_content_len invalid"),
    };
    assert(v@[31].spec_bytes() == f[31]);
    let sc_range_start = match read_optional_u64(v[31]) {
        Some(x) => x,
        None => return Err("sc_range_start invalid"),
    };
    assert(v@[32].spec_bytes() == f[32]);
    let sc_range_end = match read_optional_u64(v[32]) {
        Some(x) => x,
        None => return Err("sc_range_end invalid"),
    };
    Ok(Logline {
        date,
        time,
        datetime,
        x_edge_location,
        sc_bytes,
        c_ip,
        cs_method,
        cs_host,
        cs_uri_stem,
        sc_status,
        cs_referer,
        cs_user_agent,
        cs_uri_query,
        cs_cookie,
        x_edge_result_type,
        x_edge_request_id,
        x_host_header,
        cs_protocol,
        cs_bytes,
        time_taken,
        x_forwarded_for,
        ssl_protocol,
        ssl_cipher,
        x_edge_response_result_type,
        cs_protocol_version,
        fle_status,
        fle_encrypted_fields,
        c_port,
        time_to_first_byte,
        x_edge_detailed_result_type,
        sc_content_type,
        sc_content_len,
        sc_range_start,
        sc_range_end,
        marker: Marker::new(),
    })
}

impl<'a, V> Logline<'a, V> {
    /// Builds the typed line from a raw line, without scanning the text
    /// again.
    pub fn from_raw(raw: &RawLogline<'a, V>) -> (r: Result<Self, &'static str>)
        ensures
            match r {
                Ok(l) => time_line_error(raw.fields()) is None && l.matches_fields(raw.fields()),
                Err(e) => time_line_error(raw.fields()) == Some(e),
            },
    {
        let v = raw.to_vec();
        convert(&v, Ghost(raw.fields()))
    }
}

impl<'a> Logline<'a, Validated> {
    /// Validates `line` and rejects a tab at its start, then splits and
    /// converts its fields in one pass.
    pub fn from_text(line: &'a str) -> (r: Result<Self, &'static str>)
        ensures
            r is Ok <==> split_error(line.spec_bytes()) is None && time_line_error(fields_of(line.spec_bytes())) is None,
            r matches Err(e) ==> e == (if split_error(line.spec_bytes()) is None {
                time_line_error(fields_of(line.spec_bytes()))->0
            } else {
                split_error(line.spec_bytes())->0
            }),
            r matches Ok(l) ==> l.matches_fields(fields_of(line.spec_bytes())),
    {
        validate_for_split(line)?;
        proof {
            lemma_valid_line_fields(line.spec_bytes());
        }
        let v = split_fields(line);
        convert(&v, Ghost(line_fields(line.spec_bytes())))
    }
}

impl<'a> Logline<'a, Unvalidated> {
    /// Splits and converts the fields of `line` without validating it; a
    /// field that the line lacks is empty text.
    pub fn from_text(line: &'a str) -> (r: Result<Self, &'static str>)
        ensures
            r is Ok <==> !starts_with_tab(line.spec_bytes()) && time_line_error(line_fields(line.spec_bytes())) is None,
            r matches Err(e) ==> e == (if starts_with_tab(line.spec_bytes()) {
                "Invalid log line (tab at start)"
            } else {
                time_line_error(line_fields(line.spec_bytes()))->0
            }),
            r matches Ok(l) ==> l.matches_fields(line_fields(line.spec_bytes())),
    {
        check_line_start(line)?;
        let v = split_fields(line);
        convert(&v, Ghost(line_fields(line.spec_bytes())))
    }
}

impl<'a> TryFrom<&'a str> for Logline<'a, Validated> {
    type Error = &'static str;

    /// Same as [`Logline::from_text`].
    fn try_from(line: &'a str) -> (r: Result<Self, &'static str>)
        ensures
            r is Ok <==> split_error(line.spec_bytes()) is None && time_line_error(fields_of(line.spec_bytes())) is None,
            r matches Err(e) ==> e == (if split_error(line.spec_bytes()) is None {
                time_line_error(fields_of(line.spec_bytes()))->0
            } else {
                split_error(line.spec_bytes())->0
            }),
            r matches Ok(l) ==> l.matches_fields(fields_of(line.spec_bytes())),
    {
        Self::from_text(line)
    }
}

impl<'a> vstd::std_specs::convert::TryFromSpecImpl<&'a str> for Logline<'a, Validated> {
    open spec fn obeys_try_from_spec() -> bool {
        false
    }

    open spec fn try_from_spec(line: &'a str) -> Result<Self, &'static str> {
        Err("")
    }
}

impl<'a> TryFrom<RawLogline<'a, Validated>> for Logline<'a, Validated> {
    type Error = &'static str;

    /// Same as [`Logline::from_raw`].
    fn try_from(raw: RawLogline<'a, Validated>) -> (r: Result<Self, &'static str>)
        ensures
            match r {
                Ok(l) => time_line_error(raw.fields()) is None && l.matches_fields(raw.fields()),
                Err(e) => time_line_error(raw.fields()) == Some(e),
            },
    {
        Self::from_raw(&raw)
    }
}

impl<'a> vstd::std_specs::convert::TryFromSpecImpl<RawLogline<'a, Validated>> for Logline<'a, Validated> {
    open spec fn obeys_try_from_spec() -> bool {
        false
    }

    open spec fn try_from_spec(raw: RawLogline<'a, Validated>) -> Result<Self, &'static str> {
        Err("")
    }
}

} // verus!

verus! {

impl<'a, V> Logline<'a, V> {
    /// The same fields under another validation marker.
    pub open spec fn with_marker<W>(self) -> Logline<'a, W> {
        Logline {
            date: self.date,
            time: self.time,
            datetime: self.datetime,
            x_edge_location: self.x_edge_location,
            sc_bytes: self.sc_bytes,
            c_ip: self.c_ip,
            cs_method: self.cs_method,
            cs_host: self.cs_host,
            cs_uri_stem: self.cs_uri_stem,
            sc_status: self.sc_status,
            cs_referer: self.cs_referer,
            cs_user_agent: self.cs_user_agent,
            cs_uri_query: self.cs_uri_query,
            cs_cookie: self.cs_cookie,
            x_edge_result_type: self.x_edge_result_type,
            x_edge_request_id: self.x_edge_request_id,
            x_host_header: self.x_host_header,
            cs_protocol: self.cs_protocol,
            cs_bytes: self.cs_bytes,
            time_taken: self.time_taken,
            x_forwarded_for: self.x_forwarded_for,
            ssl_protocol: self.ssl_protocol,
            ssl_cipher: self.ssl_cipher,
            x_edge_response_result_type: self.x_edge_response_result_type,
            cs_protocol_version: self.cs_protocol_version,
            fle_status: self.fle_status,
            fle_encrypted_fields: self.fle_encrypted_fields,
            c_port: self.c_port,
            time_to_first_byte: self.time_to_first_byte,
            x_edge_detailed_result_type: self.x_edge_detailed_result_type,
            sc_content_type: self.sc_content_type,
            sc_content_len: self.sc_content_len,
            sc_range_start: self.sc_range_start,
            sc_range_end: self.sc_range_end,
            marker: Marker::spec_new(),
        }
    }

    fn remark<W>(self) -> (r: Logline<'a, W>)
        ensures
            r == self.with_marker::<W>(),
    {
        Logline {
            date: self.date,
            time: self.time,
            datetime: self.datetime,
            x_edge_location: self.x_edge_location,
            sc_bytes: self.sc_bytes,
            c_ip: self.c_ip,
            cs_method: self.cs_method,
            cs_host: self.cs_host,
            cs_uri_stem: self.cs_uri_stem,
            sc_status: self.sc_status,
            cs_referer: self.cs_referer,
            cs_user_agent: self.cs_user_agent,
            cs_uri_query: self.cs_uri_query,
            cs_cookie: self.cs_cookie,
            x_edge_result_type: self.x_edge_result_type,
            x_edge_request_id: self.x_edge_request_id,
            x_host_header: self.x_host_header,
            cs_protocol: self.cs_protocol,
            cs_bytes: self.cs_bytes,
            time_taken: self.time_taken,
            x_forwarded_for: self.x_forwarded_for,
            ssl_protocol: self.ssl_protocol,
            ssl_cipher: self.ssl_cipher,
            x_edge_response_result_type: self.x_edge_response_result_type,
            cs_protocol_version: self.cs_protocol_version,
            fle_status: self.fle_status,
            fle_encrypted_fields: self.fle_encrypted_fields,
            c_port: self.c_port,
            time_to_first_byte: self.time_to_first_byte,
            x_edge_detailed_result_type: self.x_edge_detailed_result_type,
            sc_content_type: self.sc_content_type,
            sc_content_len: self.sc_content_len,
            sc_range_start: self.sc_range_start,
            sc_range_end: self.sc_range_end,
            marker: Marker::new(),
        }
    }
}

impl<'a, > Logline<'a, Validated> {
    /// Drops the validation marker; the fields stay as they are.
    pub fn into_unvalidated(self) -> (r: Logline<'a, Unvalidated>)
        ensures
            r == self.with_marker::<Unvalidated>(),
    {
        self.remark()
    }
}

impl<'a, > Logline<'a, Unvalidated> {
    /// Marks the line as validated; the caller vouches that it was.
    pub fn assume_validated(self) -> (r: Logline<'a, Validated>)
        ensures
            r == self.with_marker::<Validated>(),
    {
        self.remark()
    }
}

impl<'a, > From<Logline<'a, Validated>> for Logline<'a, Unvalidated> {
    fn from(l: Logline<'a, Validated>) -> (r: Self) {
        l.into_unvalidated()
    }
}

impl<'a, > vstd::std_specs::convert::FromSpecImpl<Logline<'a, Validated>> for Logline<'a, Unvalidated> {
    open spec fn obeys_from_spec() -> bool {
        true
    }

    open spec fn from_spec(l: Logline<'a, Validated>) -> Self {
        l.with_marker::<Unvalidated>()
    }
}

impl<'a, > From<Logline<'a, Unvalidated>> for Logline<'a, Validated> {
    fn from(l: Logline<'a, Unvalidated>) -> (r: Self) {
        l.assume_validated()
    }
}

impl<'a, > vstd::std_specs::convert::FromSpecImpl<Logline<'a, Unvalidated>> for Logline<'a, Validated> {
    open spec fn obeys_from_spec() -> bool {
        true
    }

    open spec fn from_spec(l: Logline<'a, Unvalidated>) -> Self {
        l.with_marker::<Validated>()
    }
}

} // verus!
