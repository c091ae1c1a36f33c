use crate::borrowed::raw::{line_fields, lemma_valid_line_fields, split_fields, Logline as RawLogline};
use crate::consts::FIELDS;
use crate::forwarded::{forwarded_for, Addressable, ForwardedForAddrs};
use crate::net::{parse_ip, parse_ip_addr, IpAddr};
use crate::num::{parse_duration, parse_seconds, parse_u16, parse_u64, parse_unsigned, Duration};
use crate::shared::{
    check_line_start, dash, fields_of, is_sentinel, is_valid_line, split_error, starts_with_tab, validate_for_split,
};
use crate::types::{CsProtocol, CsProtocolVersion, DetailedEdgeResultType, EdgeResultType, SslProtocol, Marker, Unvalidated, Validated};
use vstd::prelude::*;
use vstd::string::StringSliceAdditionalSpecFns;
use vstd::utf8::{decode_utf8, encode_utf8_decode_utf8};

verus! {

/// A log line whose fields are owned and typed.
///
/// Optional fields are `None` where the line holds the sentinel `-`.
#[derive(Debug, Clone)]
pub struct Logline<V> {
    pub date: String,
    pub time: String,
    pub x_edge_location: String,
    pub sc_bytes: u64,
    pub c_ip: IpAddr,
    pub cs_method: String,
    pub cs_host: String,
    pub cs_uri_stem: String,
    pub sc_status: u16,
    pub cs_referer: Option<String>,
    pub cs_user_agent: String,
    pub cs_uri_query: Option<String>,
    pub cs_cookie: Option<String>,
    pub x_edge_result_type: EdgeResultType,
    pub x_edge_request_id: String,
    pub x_host_header: String,
    pub cs_protocol: CsProtocol,
    pub cs_bytes: u64,
    pub time_taken: Duration,
    pub x_forwarded_for: Option<ForwardedForAddrs>,
    pub ssl_protocol: Option<SslProtocol>,
    pub ssl_cipher: Option<String>,
    pub x_edge_response_result_type: EdgeResultType,
    pub cs_protocol_version: CsProtocolVersion,
    pub fle_status: Option<String>,
    pub fle_encrypted_fields: Option<u64>,
    pub c_port: u16,
    pub time_to_first_byte: Duration,
    pub x_edge_detailed_result_type: DetailedEdgeResultType,
    pub sc_content_type: String,
    pub sc_content_len: u64,
    pub sc_range_start: Option<u64>,
    pub sc_range_end: Option<u64>,
    pub marker: Marker<V>,
}

/// A typed line built from text that passed [`validate_line`].
pub type ValidatedLogline = Logline<Validated>;

/// A typed line built from text that was not checked.
pub type UnvalidatedLogline = Logline<Unvalidated>;

/// A text field: the characters that the bytes encode.
pub open spec fn text_field(s: String, b: Seq<u8>) -> bool {
    s@ == decode_utf8(b)
}

/// An optional text field: absent on the sentinel `-`.
pub open spec fn opt_text_field(o: Option<String>, b: Seq<u8>) -> bool {
    if b == dash() {
        o is None
    } else {
        o matches Some(s) && s@ == decode_utf8(b)
    }
}

/// A `u64` field.
pub open spec fn u64_field(v: u64, b: Seq<u8>) -> bool {
    parse_unsigned(b, u64::MAX as nat) == Some(v as nat)
}

/// A `u16` field.
pub open spec fn u16_field(v: u16, b: Seq<u8>) -> bool {
    parse_unsigned(b, u16::MAX as nat) == Some(v as nat)
}

/// An optional `u64` field: absent on the sentinel `-`.
pub open spec fn opt_u64_field(o: Option<u64>, b: Seq<u8>) -> bool {
    if b == dash() {
        o is None
    } else {
        o matches Some(v) && parse_unsigned(b, u64::MAX as nat) == Some(v as nat)
    }
}

/// An IP address field.
pub open spec fn ip_field(ip: IpAddr, b: Seq<u8>) -> bool {
    parse_ip(b) == Some(ip)
}

/// A duration field, in decimal seconds.
pub open spec fn duration_field(d: Duration, b: Seq<u8>) -> bool {
    parse_seconds(b) == Some(d)
}

/// A result type field: the variant that the text reads as.
pub open spec fn edge_field(e: EdgeResultType, b: Seq<u8>) -> bool {
    e.name() == decode_utf8(b) && e.tag() == EdgeResultType::tag_of(decode_utf8(b))
}

/// A detailed result type field: the variant that the text reads as.
pub open spec fn detailed_field(e: DetailedEdgeResultType, b: Seq<u8>) -> bool {
    e.name() == decode_utf8(b) && e.tag() == DetailedEdgeResultType::tag_of(decode_utf8(b))
}

/// A protocol field: the variant that the text reads as.
pub open spec fn protocol_field(p: CsProtocol, b: Seq<u8>) -> bool {
    p.name() == decode_utf8(b) && p.tag() == CsProtocol::tag_of(decode_utf8(b))
}

/// A protocol version field: the variant that the text reads as.
pub open spec fn version_field(p: CsProtocolVersion, b: Seq<u8>) -> bool {
    p.name() == decode_utf8(b) && p.tag() == CsProtocolVersion::tag_of(decode_utf8(b))
}

/// An optional TLS version field: absent on the sentinel `-`, else the
/// variant that the text reads as.
pub open spec fn ssl_field(o: Option<SslProtocol>, b: Seq<u8>) -> bool {
    if b == dash() {
        o is None
    } else {
        o matches Some(p) && p.name() == decode_utf8(b) && p.tag() == SslProtocol::tag_of(decode_utf8(b))
    }
}

/// An optional forwarded-for field: absent on the sentinel `-`.
pub open spec fn forwarded_field(o: Option<ForwardedForAddrs>, b: Seq<u8>) -> bool {
    if b == dash() {
        o is None
    } else {
        o matches Some(a) && forwarded_for(b) == Some(a.0@)
    }
}

/// The error of the first field, in schema order, whose text does not read
/// as its type; `None` when all of them read.
pub open spec fn typed_error(f: Seq<Seq<u8>>) -> Option<&'static str> {
    if parse_unsigned(f[3], u64::MAX as nat) is None {
        Some("sc_bytes invalid")
    } else if parse_ip(f[4]) is None {
        Some("c_ip invalid")
    } else if parse_unsigned(f[8], u16::MAX as nat) is None {
        Some("sc_status invalid")
    } else if parse_unsigned(f[17], u64::MAX as nat) is None {
        Some("cs_bytes invalid")
    } else if parse_seconds(f[18]) is None {
        Some("time_taken invalid")
    } else if f[19] != dash() && forwarded_for(f[19]) is None {
        Some("x_forwarded_for invalid")
    } else if f[25] != dash() && parse_unsigned(f[25], u64::MAX as nat) is None {
        Some("fle_encrypted_fields invalid")
    } else if parse_unsigned(f[26], u16::MAX as nat) is None {
        Some("c_port invalid")
    } else if parse_seconds(f[27]) is None {
        Some("time_to_first_byte invalid")
    } else if parse_unsigned(f[30], u64::MAX as nat) is None {
        Some("sc_content_len invalid")
    } else if f[31] != dash() && parse_unsigned(f[31], u64::MAX as nat) is None {
        Some("sc_range_start invalid")
    } else if f[32] != dash() && parse_unsigned(f[32], u64::MAX as nat) is None {
        Some("sc_range_end invalid")
    } else {
        None
    }
}

/// Text equality of two string fields.
pub open spec fn text_eq(a: String, b: String) -> bool {
    a@ == b@
}

/// Text equality of two optional string fields.
pub open spec fn opt_text_eq(a: Option<String>, b: Option<String>) -> bool {
    match (a, b) {
        (None, None) => true,
        (Some(x), Some(y)) => x@ == y@,
        _ => false,
    }
}

/// Equality of two result types.
pub open spec fn edge_eq(a: EdgeResultType, b: EdgeResultType) -> bool {
    a.tag() == b.tag() && a.name() == b.name()
}

/// Equality of two protocols.
pub open spec fn protocol_eq(a: CsProtocol, b: CsProtocol) -> bool {
    a.tag() == b.tag() && a.name() == b.name()
}

/// Equality of two protocol versions.
pub open spec fn version_eq(a: CsProtocolVersion, b: CsProtocolVersion) -> bool {
    a.tag() == b.tag() && a.name() == b.name()
}

/// Equality of two optional TLS versions.
pub open spec fn ssl_eq(a: Option<SslProtocol>, b: Option<SslProtocol>) -> bool {
    match (a, b) {
        (None, None) => true,
        (Some(x), Some(y)) => x.tag() == y.tag() && x.name() == y.name(),
        _ => false,
    }
}

/// Equality of two detailed result types.
pub open spec fn detailed_eq(a: DetailedEdgeResultType, b: DetailedEdgeResultType) -> bool {
    a.tag() == b.tag() && a.name() == b.name()
}

/// Equality of two optional address lists.
pub open spec fn forwarded_eq(a: Option<ForwardedForAddrs>, b: Option<ForwardedForAddrs>) -> bool {
    match (a, b) {
        (None, None) => true,
        (Some(x), Some(y)) => x.0@ == y.0@,
        _ => false,
    }
}

impl<V> Logline<V> {
    /// Every field holds what its text in `f` reads as.
    pub open spec fn matches_fields(&self, f: Seq<Seq<u8>>) -> bool {
        &&& text_field(self.date, f[0])
        &&& text_field(self.time, f[1])
        &&& text_field(self.x_edge_location, f[2])
        &&& u64_field(self.sc_bytes, f[3])
        &&& ip_field(self.c_ip, f[4])
        &&& text_field(self.cs_method, f[5])
        &&& text_field(self.cs_host, f[6])
        &&& text_field(self.cs_uri_stem, f[7])
        &&& u16_field(self.sc_status, f[8])
        &&& opt_text_field(self.cs_referer, f[9])
        &&& text_field(self.cs_user_agent, f[10])
        &&& opt_text_field(self.cs_uri_query, f[11])
        &&& opt_text_field(self.cs_cookie, f[12])
        &&& edge_field(self.x_edge_result_type, f[13])
        &&& text_field(self.x_edge_request_id, f[14])
        &&& text_field(self.x_host_header, f[15])
        &&& protocol_field(self.cs_protocol, f[16])
        &&& u64_field(self.cs_bytes, f[17])
        &&& duration_field(self.time_taken, f[18])
        &&& forwarded_field(self.x_forwarded_for, f[19])
        &&& ssl_field(self.ssl_protocol, f[20])
        &&& opt_text_field(self.ssl_cipher, f[21])
        &&& edge_field(self.x_edge_response_result_type, f[22])
        &&& version_field(self.cs_protocol_version, f[23])
        &&& opt_text_field(self.fle_status, f[24])
        &&& opt_u64_field(self.fle_encrypted_fields, f[25])
        &&& u16_field(self.c_port, f[26])
        &&& duration_field(self.time_to_first_byte, f[27])
        &&& detailed_field(self.x_edge_detailed_result_type, f[28])
        &&& text_field(self.sc_content_type, f[29])
        &&& u64_field(self.sc_content_len, f[30])
        &&& opt_u64_field(self.sc_range_start, f[31])
        &&& opt_u64_field(self.sc_range_end, f[32])
    }

    /// Both records hold the same values, field for field.
    pub open spec fn same_fields(&self, o: &Logline<V>) -> bool {
        &&& text_eq(self.date, o.date)
        &&& text_eq(self.time, o.time)
        &&& text_eq(self.x_edge_location, o.x_edge_location)
        &&& self.sc_bytes == o.sc_bytes
        &&& self.c_ip == o.c_ip
        &&& text_eq(self.cs_method, o.cs_method)
        &&& text_eq(self.cs_host, o.cs_host)
        &&& text_eq(self.cs_uri_stem, o.cs_uri_stem)
        &&& self.sc_status == o.sc_status
        &&& opt_text_eq(self.cs_referer, o.cs_referer)
        &&& text_eq(self.cs_user_agent, o.cs_user_agent)
        &&& opt_text_eq(self.cs_uri_query, o.cs_uri_query)
        &&& opt_text_eq(self.cs_cookie, o.cs_cookie)
        &&& edge_eq(self.x_edge_result_type, o.x_edge_result_type)
        &&& text_eq(self.x_edge_request_id, o.x_edge_request_id)
        &&& text_eq(self.x_host_header, o.x_host_header)
        &&& protocol_eq(self.cs_protocol, o.cs_protocol)
        &&& self.cs_bytes == o.cs_bytes
        &&& self.time_taken == o.time_taken
        &&& forwarded_eq(self.x_forwarded_for, o.x_forwarded_for)
        &&& ssl_eq(self.ssl_protocol, o.ssl_protocol)
        &&& opt_text_eq(self.ssl_cipher, o.ssl_cipher)
        &&& edge_eq(self.x_edge_response_result_type, o.x_edge_response_result_type)
        &&& version_eq(self.cs_protocol_version, o.cs_protocol_version)
        &&& opt_text_eq(self.fle_status, o.fle_status)
        &&& self.fle_encrypted_fields == o.fle_encrypted_fields
        &&& self.c_port == o.c_port
        &&& self.time_to_first_byte == o.time_to_first_byte
        &&& detailed_eq(self.x_edge_detailed_result_type, o.x_edge_detailed_result_type)
        &&& text_eq(self.sc_content_type, o.sc_content_type)
        &&& self.sc_content_len == o.sc_content_len
        &&& self.sc_range_start == o.sc_range_start
        &&& self.sc_range_end == o.sc_range_end
    }
}


fn text_equal(a: &String, b: &String) -> (r: bool)
    ensures
        r == text_eq(*a, *b),
{
    crate::shared::str_eq(a.as_str(), b.as_str())
}

fn opt_text_equal(a: &Option<String>, b: &Option<String>) -> (r: bool)
    ensures
        r == opt_text_eq(*a, *b),
{
    match (a, b) {
        (None, None) => true,
        (Some(x), Some(y)) => crate::shared::str_eq(x.as_str(), y.as_str()),
        _ => false,
    }
}

fn addrs_equal(x: &Vec<Addressable>, y: &Vec<Addressable>) -> (r: bool)
    ensures
        r == (x@ == y@),
{
    if x.len() != y.len() {
        return false;
    }
    let mut i: usize = 0;
    while i < x.len()
        invariant
            x@.len() == y@.len(),
            i <= x@.len(),
            forall|j: int| 0 <= j < i ==> x@[j] == y@[j],
        decreases x@.len() - i,
    {
        if x[i] != y[i] {
            assert(x@[i as int] != y@[i as int]);
            return false;
        }
        i = i + 1;
    }
    assert(x@ =~= y@);
    true
}

fn ssl_equal(a: &Option<SslProtocol>, b: &Option<SslProtocol>) -> (r: bool)
    ensures
        r == ssl_eq(*a, *b),
{
    match (a, b) {
        (None, None) => true,
        (Some(x), Some(y)) => x == y,
        _ => false,
    }
}

fn forwarded_equal(a: &Option<ForwardedForAddrs>, b: &Option<ForwardedForAddrs>) -> (r: bool)
    ensures
        r == forwarded_eq(*a, *b),
{
    match (a, b) {
        (None, None) => true,
        (Some(x), Some(y)) => addrs_equal(&x.0, &y.0),
        _ => false,
    }
}

impl<V> PartialEq for Logline<V> {
    /// Field by field equality; texts compare by their characters.
    fn eq(&self, other: &Self) -> (r: bool) {
        text_equal(&self.date, &other.date)
            && text_equal(&self.time, &other.time)
            && text_equal(&self.x_edge_location, &other.x_edge_location)
            && self.sc_bytes == other.sc_bytes
            && self.c_ip == other.c_ip
            && text_equal(&self.cs_method, &other.cs_method)
            && text_equal(&self.cs_host, &other.cs_host)
            && text_equal(&self.cs_uri_stem, &other.cs_uri_stem)
            && self.sc_status == other.sc_status
            && opt_text_equal(&self.cs_referer, &other.cs_referer)
            && text_equal(&self.cs_user_agent, &other.cs_user_agent)
            && opt_text_equal(&self.cs_uri_query, &other.cs_uri_query)
            && opt_text_equal(&self.cs_cookie, &other.cs_cookie)
            && self.x_edge_result_type == other.x_edge_result_type
            && text_equal(&self.x_edge_request_id, &other.x_edge_request_id)
            && text_equal(&self.x_host_header, &other.x_host_header)
            && self.cs_protocol == other.cs_protocol
            && self.cs_bytes == other.cs_bytes
            && self.time_taken == other.time_taken
            && forwarded_equal(&self.x_forwarded_for, &other.x_forwarded_for)
            && ssl_equal(&self.ssl_protocol, &other.ssl_protocol)
            && opt_text_equal(&self.ssl_cipher, &other.ssl_cipher)
            && self.x_edge_response_result_type == other.x_edge_response_result_type
            && self.cs_protocol_version == other.cs_protocol_version
            && opt_text_equal(&self.fle_status, &other.fle_status)
            && self.fle_encrypted_fields == other.fle_encrypted_fields
            && self.c_port == other.c_port
            && self.time_to_first_byte == other.time_to_first_byte
            && self.x_edge_detailed_result_type == other.x_edge_detailed_result_type
            && text_equal(&self.sc_content_type, &other.sc_content_type)
            && self.sc_content_len == other.sc_content_len
            && self.sc_range_start == other.sc_range_start
            && self.sc_range_end == other.sc_range_end
    }
}

impl<V> vstd::std_specs::cmp::PartialEqSpecImpl for Logline<V> {
    open spec fn obeys_eq_spec() -> bool {
        true
    }

    open spec fn eq_spec(&self, other: &Self) -> bool {
        self.same_fields(other)
    }
}



fn owned_text(s: &str) -> (r: String)
    ensures
        text_field(r, s.spec_bytes()),
{
    proof {
        encode_utf8_decode_utf8(s@);
    }
    s.to_owned()
}

fn optional_text(s: &str) -> (r: Option<String>)
    ensures
        opt_text_field(r, s.spec_bytes()),
{
    proof {
        encode_utf8_decode_utf8(s@);
    }
    if is_sentinel(s) {
        None
    } else {
        Some(s.to_owned())
    }
}

pub(crate) fn edge_result(s: &str) -> (r: EdgeResultType)
    ensures
        edge_field(r, s.spec_bytes()),
{
    proof {
        encode_utf8_decode_utf8(s@);
    }
    EdgeResultType::parse(s)
}

pub(crate) fn detailed_result(s: &str) -> (r: DetailedEdgeResultType)
    ensures
        detailed_field(r, s.spec_bytes()),
{
    proof {
        encode_utf8_decode_utf8(s@);
    }
    DetailedEdgeResultType::parse(s)
}

pub(crate) fn read_u64(s: &str) -> (r: Option<u64>)
    ensures
        match r {
            Some(v) => u64_field(v, s.spec_bytes()),
            None => parse_unsigned(s.spec_bytes(), u64::MAX as nat) is None,
        },
{
    parse_u64(s)
}

pub(crate) fn read_u16(s: &str) -> (r: Option<u16>)
    ensures
        match r {
            Some(v) => u16_field(v, s.spec_bytes()),
            None => parse_unsigned(s.spec_bytes(), u16::MAX as nat) is None,
        },
{
    parse_u16(s)
}

pub(crate) fn read_ip(s: &str) -> (r: Option<IpAddr>)
    ensures
        match r {
            Some(v) => ip_field(v, s.spec_bytes()),
            None => parse_ip(s.spec_bytes()) is None,
        },
{
    parse_ip_addr(s.as_bytes())
}

pub(crate) fn read_duration(s: &str) -> (r: Option<Duration>)
    ensures
        match r {
            Some(v) => duration_field(v, s.spec_bytes()),
            None => parse_seconds(s.spec_bytes()) is None,
        },
{
    parse_duration(s)
}

pub(crate) fn read_protocol(s: &str) -> (r: CsProtocol)
    ensures
        protocol_field(r, s.spec_bytes()),
{
    proof {
        encode_utf8_decode_utf8(s@);
    }
    CsProtocol::parse(s)
}

pub(crate) fn read_version(s: &str) -> (r: CsProtocolVersion)
    ensures
        version_field(r, s.spec_bytes()),
{
    proof {
        encode_utf8_decode_utf8(s@);
    }
    CsProtocolVersion::parse(s)
}

pub(crate) fn read_ssl(s: &str) -> (r: Option<SslProtocol>)
    ensures
        ssl_field(r, s.spec_bytes()),
{
    proof {
        encode_utf8_decode_utf8(s@);
    }
    if is_sentinel(s) {
        None
    } else {
        Some(SslProtocol::parse(s))
    }
}

pub(crate) fn read_optional_u64(s: &str) -> (r: Option<Option<u64>>)
    ensures
        match r {
            Some(v) => opt_u64_field(v, s.spec_bytes()),
            None => s.spec_bytes() != dash() && parse_unsigned(s.spec_bytes(), u64::MAX as nat) is None,
        },
{
    if is_sentinel(s) {
        return Some(None);
    }
    match parse_u64(s) {
        Some(v) => Some(Some(v)),
        None => None,
    }
}

pub(crate) fn read_forwarded(s: &str) -> (r: Option<Option<ForwardedForAddrs>>)
    ensures
        match r {
            Some(v) => forwarded_field(v, s.spec_bytes()),
            None => s.spec_bytes() != dash() && forwarded_for(s.spec_bytes()) is None,
        },
{
    if is_sentinel(s) {
        return Some(None);
    }
    match ForwardedForAddrs::parse(s) {
        Ok(v) => Some(Some(v)),
        Err(_) => None,
    }
}

/// Turns the 33 field texts into a typed line, failing on the first field,
/// in schema order, whose text does not read.
#[verifier::rlimit(50)]
fn convert<V>(v: &Vec<&str>, Ghost(f): Ghost<Seq<Seq<u8>>>) -> (r: Result<Logline<V>, &'static str>)
    requires
        v@.len() == FIELDS,
        f.len() == FIELDS,
        forall|j: int| 0 <= j < FIELDS ==> #[trigger] v@[j].spec_bytes() == f[j],
    ensures
        match r {
            Ok(l) => typed_error(f) is None && l.matches_fields(f),
            Err(e) => typed_error(f) == Some(e),
        },
{
    assert(v@[0].spec_bytes() == f[0]);
    let date = owned_text(v[0]);
    assert(v@[1].spec_bytes() == f[1]);
    let time = owned_text(v[1]);
    assert(v@[2].spec_bytes() == f[2]);
    let x_edge_location = owned_text(v[2]);
    assert(v@[3].spec_bytes() == f[3]);
    let sc_bytes = match read_u64(v[3]) {
        Some(x) => x,
        None => return Err("sc_bytes invalid"),
    };
    assert(v@[4].spec_bytes() == f[4]);
    let c_ip = match read_ip(v[4]) {
        Some(x) => x,
        None => return Err("c_ip invalid"),
    };
    assert(v@[5].spec_bytes() == f[5]);
    let cs_method = owned_text(v[5]);
    assert(v@[6].spec_bytes() == f[6]);
    let cs_host = owned_text(v[6]);
    assert(v@[7].spec_bytes() == f[7]);
    let cs_uri_stem = owned_text(v[7]);
    assert(v@[8].spec_bytes() == f[8]);
    let sc_status = match read_u16(v[8]) {
        Some(x) => x,
        None => return Err("sc_status invalid"),
    };
    assert(v@[9].spec_bytes() == f[9]);
    let cs_referer = optional_text(v[9]);
    assert(v@[10].spec_bytes() == f[10]);
    let cs_user_agent = owned_text(v[10]);
    assert(v@[11].spec_bytes() == f[11]);
    let cs_uri_query = optional_text(v[11]);
    assert(v@[12].spec_bytes() == f[12]);
    let cs_cookie = optional_text(v[12]);
    assert(v@[13].spec_bytes() == f[13]);
    let x_edge_result_type = edge_result(v[13]);
    assert(v@[14].spec_bytes() == f[14]);
    let x_edge_request_id = owned_text(v[14]);
    assert(v@[15].spec_bytes() == f[15]);
    let x_host_header = owned_text(v[15]);
    assert(v@[16].spec_bytes() == f[16]);
    let cs_protocol = read_protocol(v[16]);
    assert(v@[17].spec_bytes() == f[17]);
    let cs_bytes = match read_u64(v[17]) {
        Some(x) => x,
        None => return Err("cs_bytes invalid"),
    };
    assert(v@[18].spec_bytes() == f[18]);
    let time_taken = match read_duration(v[18]) {
        Some(x) => x,
        None => return Err("time_taken invalid"),
    };
    assert(v@[19].spec_bytes() == f[19]);
    let x_forwarded_for = match read_forwarded(v[19]) {
        Some(x) => x,
        None => return Err("x_forwarded_for invalid"),
    };
    assert(v@[20].spec_bytes() == f[20]);
    let ssl_protocol = read_ssl(v[20]);
    assert(v@[21].spec_bytes() == f[21]);
    let ssl_cipher = optional_text(v[21]);
    assert(v@[22].spec_bytes() == f[22]);
    let x_edge_response_result_type = edge_result(v[22]);
    assert(v@[23].spec_bytes() == f[23]);
    let cs_protocol_version = read_version(v[23]);
    assert(v@[24].spec_bytes() == f[24]);
    let fle_status = optional_text(v[24]);
    assert(v@[25].spec_bytes() == f[25]);
    let fle_encrypted_fields = match read_optional_u64(v[25]) {
        Some(x) => x,
        None => return Err("fle_encrypted_fields invalid"),
    };
    assert(v@[26].spec_bytes() == f[26]);
    let c_port = match read_u16(v[26]) {
        Some(x) => x,
        None => return Err("c_port invalid"),
    };
    assert(v@[27].spec_bytes() == f[27]);
    let time_to_first_byte = match read_duration(v[27]) {
        Some(x) => x,
        None => return Err("time_to_first_byte invalid"),
    };
    assert(v@[28].spec_bytes() == f[28]);
    let x_edge_detailed_result_type = detailed_result(v[28]);
    assert(v@[29].spec_bytes() == f[29]);
    let sc_content_type = owned_text(v[29]);
    assert(v@[30].spec_bytes() == f[30]);
    let sc_content_len = match read_u64(v[30]) {
        Some(x) => x,
        None => return Err("sc_content_len invalid"),
    };
    assert(v@[31].spec_bytes() == f[31]);
    let sc_range_start = match read_optional_u64(v[31]) {
        Some(x) => x,
        None => return Err("sc_range_start invalid"),
    };
    assert(v@[32].spec_bytes() == f[32]);
    let sc_range_end = match read_optional_u64(v[32]) {
        Some(x) => x,
        None => return Err("sc_range_end invalid"),
    };
    Ok(Logline {
        date,
        time,
        x_edge_location,
        sc_bytes,
        c_ip,
        cs_method,
        cs_host,
        cs_uri_stem,
        sc_status,
        cs_referer,
        cs_user_agent,
        cs_uri_query,
        cs_cookie,
        x_edge_result_type,
        x_edge_request_id,
        x_host_header,
        cs_protocol,
        cs_bytes,
        time_taken,
        x_forwarded_for,
        ssl_protocol,
        ssl_cipher,
        x_edge_response_result_type,
        cs_protocol_version,
        fle_status,
        fle_encrypted_fields,
        c_port,
        time_to_first_byte,
        x_edge_detailed_result_type,
        sc_content_type,
        sc_content_len,
        sc_range_start,
        sc_range_end,
        marker: Marker::new(),
    })
}

impl<V> Logline<V> {
    /// Builds the typed line from a raw line, without scanning the text
    /// again.
    pub fn from_raw(raw: &RawLogline<'_, V>) -> (r: Result<Self, &'static str>)
        ensures
            match r {
                Ok(l) => typed_error(raw.fields()) is None && l.matches_fields(raw.fields()),
                Err(e) => typed_error(raw.fields()) == Some(e),
            },
    {
        let v = raw.to_vec();
        convert(&v, Ghost(raw.fields()))
    }
}

/// The error that [`Logline::from_text`] gives on `line`; `None` when it
/// succeeds.
pub open spec fn text_error(line: Seq<u8>) -> Option<&'static str> {
    if split_error(line) is Some {
        split_error(line)
    } else {
        typed_error(fields_of(line))
    }
}

/// The error that the unvalidated [`Logline::from_text`] gives on `line`;
/// `None` when it succeeds.
pub open spec fn unvalidated_text_error(line: Seq<u8>) -> Option<&'static str> {
    if starts_with_tab(line) {
        Some("Invalid log line (tab at start)")
    } else {
        typed_error(line_fields(line))
    }
}

impl Logline<Validated> {
    /// Validates `line` and rejects a tab at its start, then splits and
    /// converts its fields in one pass.
    pub fn from_text(line: &str) -> (r: Result<Self, &'static str>)
        ensures
            r is Ok <==> text_error(line.spec_bytes()) is None,
            r matches Err(e) ==> text_error(line.spec_bytes()) == Some(e),
            r matches Ok(l) ==> l.matches_fields(fields_of(line.spec_bytes())),
    {
        validate_for_split(line)?;
        proof {
            lemma_valid_line_fields(line.spec_bytes());
        }
        let v = split_fields(line);
        convert(&v, Ghost(line_fields(line.spec_bytes())))
    }

    /// Validates `line` and rejects a tab at its start, splits it into a raw
    /// line, and converts that.
    pub fn try_from_with_raw(line: &str) -> (r: Result<Self, &'static str>)
        ensures
            r is Ok <==> text_error(line.spec_bytes()) is None,
            r matches Err(e) ==> text_error(line.spec_bytes()) == Some(e),
            r matches Ok(l) ==> l.matches_fields(fields_of(line.spec_bytes())),
    {
        let raw = RawLogline::<Validated>::parse(line)?;
        Self::from_raw(&raw)
    }
}

impl Logline<Unvalidated> {
    /// Splits and converts the fields of `line` without validating it;
    /// a field that the line lacks is empty text.
    pub fn from_text(line: &str) -> (r: Result<Self, &'static str>)
        ensures
            r is Ok <==> unvalidated_text_error(line.spec_bytes()) is None,
            r matches Err(e) ==> unvalidated_text_error(line.spec_bytes()) == Some(e),
            r matches Ok(l) ==> l.matches_fields(line_fields(line.spec_bytes())),
    {
        check_line_start(line)?;
        let v = split_fields(line);
        convert(&v, Ghost(line_fields(line.spec_bytes())))
    }

    /// Splits `line` into a raw line without validating it, and converts
    /// that.
    pub fn try_from_with_raw(line: &str) -> (r: Result<Self, &'static str>)
        ensures
            r is Ok <==> unvalidated_text_error(line.spec_bytes()) is None,
            r matches Err(e) ==> unvalidated_text_error(line.spec_bytes()) == Some(e),
            r matches Ok(l) ==> l.matches_fields(line_fields(line.spec_bytes())),
    {
        check_line_start(line)?;
        let raw = RawLogline::<Unvalidated>::new(line);
        Self::from_raw(&raw)
    }
}

impl<'a> TryFrom<&'a str> for Logline<Validated> {
    type Error = &'static str;

    /// Same as [`Logline::from_text`].
    fn try_from(line: &'a str) -> (r: Result<Self, &'static str>)
        ensures
            r is Ok <==> text_error(line.spec_bytes()) is None,
            r matches Err(e) ==> text_error(line.spec_bytes()) == Some(e),
            r matches Ok(l) ==> l.matches_fields(fields_of(line.spec_bytes())),
    {
        Self::from_text(line)
    }
}

impl<'a> vstd::std_specs::convert::TryFromSpecImpl<&'a str> for Logline<Validated> {
    open spec fn obeys_try_from_spec() -> bool {
        false
    }

    open spec fn try_from_spec(line: &'a str) -> Result<Self, &'static str> {
        Err("")
    }
}

impl<'a> TryFrom<&'a str> for Logline<Unvalidated> {
    type Error = &'static str;

    /// Same as [`Logline::from_text`].
    fn try_from(line: &'a str) -> (r: Result<Self, &'static str>)
        ensures
            r is Ok <==> unvalidated_text_error(line.spec_bytes()) is None,
            r matches Err(e) ==> unvalidated_text_error(line.spec_bytes()) == Some(e),
            r matches Ok(l) ==> l.matches_fields(line_fields(line.spec_bytes())),
    {
        Self::from_text(line)
    }
}

impl<'a> vstd::std_specs::convert::TryFromSpecImpl<&'a str> for Logline<Unvalidated> {
    open spec fn obeys_try_from_spec() -> bool {
        false
    }

    open spec fn try_from_spec(line: &'a str) -> Result<Self, &'static str> {
        Err("")
    }
}

impl<'a, V> TryFrom<RawLogline<'a, V>> for Logline<V> {
    type Error = &'static str;

    /// Same as [`Logline::from_raw`].
    fn try_from(raw: RawLogline<'a, V>) -> (r: Result<Self, &'static str>)
        ensures
            match r {
                Ok(l) => typed_error(raw.fields()) is None && l.matches_fields(raw.fields()),
                Err(e) => typed_error(raw.fields()) == Some(e),
            },
    {
        Self::from_raw(&raw)
    }
}

impl<'a, V> vstd::std_specs::convert::TryFromSpecImpl<RawLogline<'a, V>> for Logline<V> {
    open spec fn obeys_try_from_spec() -> bool {
        false
    }

    open spec fn try_from_spec(raw: RawLogline<'a, V>) -> Result<Self, &'static str> {
        Err("")
    }
}

} // verus!

verus! {

/// Building the typed line from the text and from the raw line of that
/// text agree: they fail with the same error, or the records they give hold
/// the same values, field for field.
pub proof fn lemma_text_and_raw_agree<'a>(
    line: &'a str,
    raw: RawLogline<'a, Validated>,
    from_text: Logline<Validated>,
    from_raw: Logline<Validated>,
)
    requires
        is_valid_line(line.spec_bytes()),
        !starts_with_tab(line.spec_bytes()),
        raw.fields() == fields_of(line.spec_bytes()),
        from_text.matches_fields(fields_of(line.spec_bytes())),
        from_raw.matches_fields(raw.fields()),
    ensures
        text_error(line.spec_bytes()) == typed_error(raw.fields()),
        from_text.same_fields(&from_raw),
{
}

/// Any two records that match the same field texts hold the same values.
pub proof fn lemma_record_determined<V>(a: Logline<V>, b: Logline<V>, f: Seq<Seq<u8>>)
    requires
        a.matches_fields(f),
        b.matches_fields(f),
    ensures
        a.same_fields(&b),
{
}

/// The sentinel `-` makes every optional field absent.
pub proof fn lemma_sentinel_absent<V>(l: Logline<V>, f: Seq<Seq<u8>>)
    requires
        l.matches_fields(f),
    ensures
        f[9] == dash() ==> l.cs_referer is None,
        f[11] == dash() ==> l.cs_uri_query is None,
        f[12] == dash() ==> l.cs_cookie is None,
        f[19] == dash() ==> l.x_forwarded_for is None,
        f[20] == dash() ==> l.ssl_protocol is None,
        f[21] == dash() ==> l.ssl_cipher is None,
        f[24] == dash() ==> l.fle_status is None,
        f[25] == dash() ==> l.fle_encrypted_fields is None,
        f[31] == dash() ==> l.sc_range_start is None,
        f[32] == dash() ==> l.sc_range_end is None,
{
}

/// An optional field that holds the sentinel `-` is never the field that a
/// line fails on.
pub proof fn lemma_sentinel_never_fails(f: Seq<Seq<u8>>)
    ensures
        f[19] == dash() ==> typed_error(f) != Some("x_forwarded_for invalid"),
        f[25] == dash() ==> typed_error(f) != Some("fle_encrypted_fields invalid"),
        f[31] == dash() ==> typed_error(f) != Some("sc_range_start invalid"),
        f[32] == dash() ==> typed_error(f) != Some("sc_range_end invalid"),
{
}

} // verus!

verus! {

impl<V> Logline<V> {
    /// The same fields under another validation marker.
    pub open spec fn with_marker<W>(self) -> Logline<W> {
        Logline {
            date: self.date,
            time: self.time,
            x_edge_location: self.x_edge_location,
            sc_bytes: self.sc_bytes,
            c_ip: self.c_ip,
            cs_method: self.cs_method,
            cs_host: self.cs_host,
            cs_uri_stem: self.cs_uri_stem,
            sc_status: self.sc_status,
            cs_referer: self.cs_referer,
            cs_user_agent: self.cs_user_agent,
            cs_uri_query: self.cs_uri_query,
            cs_cookie: self.cs_cookie,
            x_edge_result_type: self.x_edge_result_type,
            x_edge_request_id: self.x_edge_request_id,
            x_host_header: self.x_host_header,
            cs_protocol: self.cs_protocol,
            cs_bytes: self.cs_bytes,
            time_taken: self.time_taken,
            x_forwarded_for: self.x_forwarded_for,
            ssl_protocol: self.ssl_protocol,
            ssl_cipher: self.ssl_cipher,
            x_edge_response_result_type: self.x_edge_response_result_type,
            cs_protocol_version: self.cs_protocol_version,
            fle_status: self.fle_status,
            fle_encrypted_fields: self.fle_encrypted_fields,
            c_port: self.c_port,
            time_to_first_byte: self.time_to_first_byte,
            x_edge_detailed_result_type: self.x_edge_detailed_result_type,
            sc_content_type: self.sc_content_type,
            sc_content_len: self.sc_content_len,
            sc_range_start: self.sc_range_start,
            sc_range_end: self.sc_range_end,
            marker: Marker::spec_new(),
        }
    }

    fn remark<W>(self) -> (r: Logline<W>)
        ensures
            r == self.with_marker::<W>(),
    {
        Logline {
            date: self.date,
            time: self.time,
            x_edge_location: self.x_edge_location,
            sc_bytes: self.sc_bytes,
            c_ip: self.c_ip,
            cs_method: self.cs_method,
            cs_host: self.cs_host,
            cs_uri_stem: self.cs_uri_stem,
            sc_status: self.sc_status,
            cs_referer: self.cs_referer,
            cs_user_agent: self.cs_user_agent,
            cs_uri_query: self.cs_uri_query,
            cs_cookie: self.cs_cookie,
            x_edge_result_type: self.x_edge_result_type,
            x_edge_request_id: self.x_edge_request_id,
            x_host_header: self.x_host_header,
            cs_protocol: self.cs_protocol,
            cs_bytes: self.cs_bytes,
            time_taken: self.time_taken,
            x_forwarded_for: self.x_forwarded_for,
            ssl_protocol: self.ssl_protocol,
            ssl_cipher: self.ssl_cipher,
            x_edge_response_result_type: self.x_edge_response_result_type,
            cs_protocol_version: self.cs_protocol_version,
            fle_status: self.fle_status,
            fle_encrypted_fields: self.fle_encrypted_fields,
            c_port: self.c_port,
            time_to_first_byte: self.time_to_first_byte,
            x_edge_detailed_result_type: self.x_edge_detailed_result_type,
            sc_content_type: self.sc_content_type,
            sc_content_len: self.sc_content_len,
            sc_range_start: self.sc_range_start,
            sc_range_end: self.sc_range_end,
            marker: Marker::new(),
        }
    }
}

impl Logline<Validated> {
    /// Drops the validation marker; the fields stay as they are.
    pub fn into_unvalidated(self) -> (r: Logline<Unvalidated>)
        ensures
            r == self.with_marker::<Unvalidated>(),
    {
        self.remark()
    }
}

impl Logline<Unvalidated> {
    /// Marks the line as validated; the caller vouches that it was.
    pub fn assume_validated(self) -> (r: Logline<Validated>)
        ensures
            r == self.with_marker::<Validated>(),
    {
        self.remark()
    }
}

impl From<Logline<Validated>> for Logline<Unvalidated> {
    fn from(l: Logline<Validated>) -> (r: Self) {
        l.into_unvalidated()
    }
}

impl vstd::std_specs::convert::FromSpecImpl<Logline<Validated>> for Logline<Unvalidated> {
    open spec fn obeys_from_spec() -> bool {
        true
    }

    open spec fn from_spec(l: Logline<Validated>) -> Self {
        l.with_marker::<Unvalidated>()
    }
}

impl From<Logline<Unvalidated>> for Logline<Validated> {
    fn from(l: Logline<Unvalidated>) -> (r: Self) {
        l.assume_validated()
    }
}

impl vstd::std_specs::convert::FromSpecImpl<Logline<Unvalidated>> for Logline<Validated> {
    open spec fn obeys_from_spec() -> bool {
        true
    }

    open spec fn from_spec(l: Logline<Unvalidated>) -> Self {
        l.with_marker::<Validated>()
    }
}

} // verus!
