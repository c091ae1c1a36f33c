use crate::shared::str_eq;
use vstd::prelude::*;

verus! {

/// Marker of a line that was validated before it was split.
#[derive(Debug, Clone, Copy, PartialEq, Eq, Structural)]
pub struct Validated;

/// Marker of a line that was split without validation.
#[derive(Debug, Clone, Copy, PartialEq, Eq, Structural)]
pub struct Unvalidated;

/// The validation marker `V` of a line, as a value. Only this crate makes
/// one, so a line marked [`Validated`] comes from a constructor that
/// validated it, or from a caller that said it was validated.
#[derive(Debug, PartialEq)]
pub struct Marker<V> {
    tag: core::marker::PhantomData<V>,
}

impl<V> Marker<V> {
    /// The one marker value of `V`.
    pub closed spec fn spec_new() -> Self {
        Marker { tag: core::marker::PhantomData }
    }

    /// Makes the marker of `V`.
    pub(crate) fn new() -> (r: Self)
        ensures
            r == Self::spec_new(),
    {
        Marker { tag: core::marker::PhantomData }
    }
}

impl<V> Clone for Marker<V> {
    /// The marker again.
    fn clone(&self) -> (r: Self)
        ensures
            r == *self,
    {
        proof {
            lemma_marker_unique(*self, Self::spec_new());
        }
        Self::new()
    }
}

impl<V> Copy for Marker<V> {}

/// There is one marker value of each `V`.
pub proof fn lemma_marker_unique<V>(a: Marker<V>, b: Marker<V>)
    ensures
        a == b,
{
}


/// How the edge location classified a request.
///
/// The list of known values may be incomplete, so a value outside it is
/// kept in [`Other`](Self::Other) instead of being rejected.
#[derive(Debug, Clone)]
pub enum EdgeResultType {
    Hit,
    RefreshHit,
    Miss,
    LimitExceeded,
    CapacityExceeded,
    Error,
    Redirect,
    LambdaGeneratedResponse,
    Other(String),
}

impl EdgeResultType {
    /// The text of the value, as it stands in a log line.
    pub open spec fn name(&self) -> Seq<char> {
        match self {
            EdgeResultType::Hit => "Hit"@,
            EdgeResultType::RefreshHit => "RefreshHit"@,
            EdgeResultType::Miss => "Miss"@,
            EdgeResultType::LimitExceeded => "LimitExceeded"@,
            EdgeResultType::CapacityExceeded => "CapacityExceeded"@,
            EdgeResultType::Error => "Error"@,
            EdgeResultType::Redirect => "Redirect"@,
            EdgeResultType::LambdaGeneratedResponse => "LambdaGeneratedResponse"@,
            EdgeResultType::Other(s) => s@,
        }
    }

    /// Whether `s` is the text of a known value.
    pub open spec fn is_known(s: Seq<char>) -> bool {
        s == "Hit"@
        || s == "RefreshHit"@
        || s == "Miss"@
        || s == "LimitExceeded"@
        || s == "CapacityExceeded"@
        || s == "Error"@
        || s == "Redirect"@
        || s == "LambdaGeneratedResponse"@
    }

    /// The position of the variant that the text `s` reads as.
    pub open spec fn tag_of(s: Seq<char>) -> nat {
        if s == "Hit"@ {
            0
        } else if s == "RefreshHit"@ {
            1
        } else if s == "Miss"@ {
            2
        } else if s == "LimitExceeded"@ {
            3
        } else if s == "CapacityExceeded"@ {
            4
        } else if s == "Error"@ {
            5
        } else if s == "Redirect"@ {
            6
        } else if s == "LambdaGeneratedResponse"@ {
            7
        } else {
            8
        }
    }

    /// Position of the variant in the declaration, for comparisons.
    pub open spec fn tag(&self) -> nat {
        match self {
            EdgeResultType::Hit => 0,
            EdgeResultType::RefreshHit => 1,
            EdgeResultType::Miss => 2,
            EdgeResultType::LimitExceeded => 3,
            EdgeResultType::CapacityExceeded => 4,
            EdgeResultType::Error => 5,
            EdgeResultType::Redirect => 6,
            EdgeResultType::LambdaGeneratedResponse => 7,
            EdgeResultType::Other(_) => 8,
        }
    }

    /// Reads a value: a known text gives its variant, any other text
    /// gives [`Other`](Self::Other) with that text. It never fails.
    pub fn parse(s: &str) -> (r: Self)
        ensures
            r.name() == s@,
            r.tag() == Self::tag_of(s@),
            r is Other <==> !Self::is_known(s@),
    {
        if str_eq(s, "Hit") {
            EdgeResultType::Hit
        } else if str_eq(s, "RefreshHit") {
            EdgeResultType::RefreshHit
        } else if str_eq(s, "Miss") {
            EdgeResultType::Miss
        } else if str_eq(s, "LimitExceeded") {
            EdgeResultType::LimitExceeded
        } else if str_eq(s, "CapacityExceeded") {
            EdgeResultType::CapacityExceeded
        } else if str_eq(s, "Error") {
            EdgeResultType::Error
        } else if str_eq(s, "Redirect") {
            EdgeResultType::Redirect
        } else if str_eq(s, "LambdaGeneratedResponse") {
            EdgeResultType::LambdaGeneratedResponse
        } else {
            EdgeResultType::Other(s.to_owned())
        }
    }

    /// The text of the value.
    pub fn as_str(&self) -> (r: &str)
        ensures
            r@ == self.name(),
    {
        match self {
            EdgeResultType::Hit => "Hit",
            EdgeResultType::RefreshHit => "RefreshHit",
            EdgeResultType::Miss => "Miss",
            EdgeResultType::LimitExceeded => "LimitExceeded",
            EdgeResultType::CapacityExceeded => "CapacityExceeded",
            EdgeResultType::Error => "Error",
            EdgeResultType::Redirect => "Redirect",
            EdgeResultType::LambdaGeneratedResponse => "LambdaGeneratedResponse",
            EdgeResultType::Other(s) => s.as_str(),
        }
    }

    /// The text of the value, as an owned string.
    pub fn to_string(&self) -> (r: String)
        ensures
            r@ == self.name(),
    {
        self.as_str().to_owned()
    }

    fn variant_index(&self) -> (r: u8)
        ensures
            r == self.tag(),
    {
        match self {
            EdgeResultType::Hit => 0,
            EdgeResultType::RefreshHit => 1,
            EdgeResultType::Miss => 2,
            EdgeResultType::LimitExceeded => 3,
            EdgeResultType::CapacityExceeded => 4,
            EdgeResultType::Error => 5,
            EdgeResultType::Redirect => 6,
            EdgeResultType::LambdaGeneratedResponse => 7,
            EdgeResultType::Other(_) => 8,
        }
    }
}

impl PartialEq for EdgeResultType {
    fn eq(&self, other: &EdgeResultType) -> (r: bool) {
        match (self, other) {
            (EdgeResultType::Other(a), EdgeResultType::Other(b)) => str_eq(a.as_str(), b.as_str()),
            _ => self.variant_index() == other.variant_index(),
        }
    }
}

impl vstd::std_specs::cmp::PartialEqSpecImpl for EdgeResultType {
    open spec fn obeys_eq_spec() -> bool {
        true
    }

    open spec fn eq_spec(&self, other: &EdgeResultType) -> bool {
        self.tag() == other.tag() && self.name() == other.name()
    }
}

impl<'a> TryFrom<&'a str> for EdgeResultType {
    type Error = &'static str;

    /// Same as [`EdgeResultType::parse`]; never fails.
    fn try_from(s: &'a str) -> (r: Result<Self, &'static str>)
        ensures
            r matches Ok(v) && v.name() == s@ && v.tag() == Self::tag_of(s@) && (v is Other <==> !Self::is_known(s@)),
    {
        Ok(Self::parse(s))
    }
}

impl<'a> vstd::std_specs::convert::TryFromSpecImpl<&'a str> for EdgeResultType {
    open spec fn obeys_try_from_spec() -> bool {
        false
    }

    open spec fn try_from_spec(s: &'a str) -> Result<Self, &'static str> {
        Err("")
    }
}

/// How the edge location classified a request, in more detail.
///
/// The list of known values may be incomplete, so a value outside it is
/// kept in [`Other`](Self::Other) instead of being rejected.
#[derive(Debug, Clone)]
pub enum DetailedEdgeResultType {
    Hit,
    RefreshHit,
    Miss,
    LimitExceeded,
    CapacityExceeded,
    Error,
    Redirect,
    LambdaGeneratedResponse,
    OriginShieldHit,
    MissGeneratedResponse,
    AbortedOrigin,
    ClientCommError,
    ClientGeoBlocked,
    ClientHungUpRequest,
    InvalidRequest,
    InvalidRequestBlocked,
    InvalidRequestCertificate,
    InvalidRequestHeader,
    InvalidRequestMethod,
    OriginCommError,
    OriginConnectError,
    OriginContentRangeLengthError,
    OriginDnsError,
    OriginError,
    OriginHeaderTooBigError,
    OriginInvalidResponseError,
    OriginReadError,
    OriginWriteError,
    OriginZeroSizeObjectError,
    SlowReaderOriginError,
    Other(String),
}

impl DetailedEdgeResultType {
    /// The text of the value, as it stands in a log line.
    pub open spec fn name(&self) -> Seq<char> {
        match self {
            DetailedEdgeResultType::Hit => "Hit"@,
            DetailedEdgeResultType::RefreshHit => "RefreshHit"@,
            DetailedEdgeResultType::Miss => "Miss"@,
            DetailedEdgeResultType::LimitExceeded => "LimitExceeded"@,
            DetailedEdgeResultType::CapacityExceeded => "CapacityExceeded"@,
            DetailedEdgeResultType::Error => "Error"@,
            DetailedEdgeResultType::Redirect => "Redirect"@,
            DetailedEdgeResultType::LambdaGeneratedResponse => "LambdaGeneratedResponse"@,
            DetailedEdgeResultType::OriginShieldHit => "OriginShieldHit"@,
            DetailedEdgeResultType::MissGeneratedResponse => "MissGeneratedResponse"@,
            DetailedEdgeResultType::AbortedOrigin => "AbortedOrigin"@,
            DetailedEdgeResultType::ClientCommError => "ClientCommError"@,
            DetailedEdgeResultType::ClientGeoBlocked => "ClientGeoBlocked"@,
            DetailedEdgeResultType::ClientHungUpRequest => "ClientHungUpRequest"@,
            DetailedEdgeResultType::InvalidRequest => "InvalidRequest"@,
            DetailedEdgeResultType::InvalidRequestBlocked => "InvalidRequestBlocked"@,
            DetailedEdgeResultType::InvalidRequestCertificate => "InvalidRequestCertificate"@,
            DetailedEdgeResultType::InvalidRequestHeader => "InvalidRequestHeader"@,
            DetailedEdgeResultType::InvalidRequestMethod => "InvalidRequestMethod"@,
            DetailedEdgeResultType::OriginCommError => "OriginCommError"@,
            DetailedEdgeResultType::OriginConnectError => "OriginConnectError"@,
            DetailedEdgeResultType::OriginContentRangeLengthError => "OriginContentRangeLengthError"@,
            DetailedEdgeResultType::OriginDnsError => "OriginDnsError"@,
            DetailedEdgeResultType::OriginError => "OriginError"@,
            DetailedEdgeResultType::OriginHeaderTooBigError => "OriginHeaderTooBigError"@,
            DetailedEdgeResultType::OriginInvalidResponseError => "OriginInvalidResponseError"@,
            DetailedEdgeResultType::OriginReadError => "OriginReadError"@,
            DetailedEdgeResultType::OriginWriteError => "OriginWriteError"@,
            DetailedEdgeResultType::OriginZeroSizeObjectError => "OriginZeroSizeObjectError"@,
            DetailedEdgeResultType::SlowReaderOriginError => "SlowReaderOriginError"@,
            DetailedEdgeResultType::Other(s) => s@,
        }
    }

    /// Whether `s` is the text of a known value.
    pub open spec fn is_known(s: Seq<char>) -> bool {
        s == "Hit"@
        || s == "RefreshHit"@
        || s == "Miss"@
        || s == "LimitExceeded"@
        || s == "CapacityExceeded"@
        || s == "Error"@
        || s == "Redirect"@
        || s == "LambdaGeneratedResponse"@
        || s == "OriginShieldHit"@
        || s == "MissGeneratedResponse"@
        || s == "AbortedOrigin"@
        || s == "ClientCommError"@
        || s == "ClientGeoBlocked"@
        || s == "ClientHungUpRequest"@
        || s == "InvalidRequest"@
        || s == "InvalidRequestBlocked"@
        || s == "InvalidRequestCertificate"@
        || s == "InvalidRequestHeader"@
        || s == "InvalidRequestMethod"@
        || s == "OriginCommError"@
        || s == "OriginConnectError"@
        || s == "OriginContentRangeLengthError"@
        || s == "OriginDnsError"@
        || s == "OriginError"@
        || s == "OriginHeaderTooBigError"@
        || s == "OriginInvalidResponseError"@
        || s == "OriginReadError"@
        || s == "OriginWriteError"@
        || s == "OriginZeroSizeObjectError"@
        || s == "SlowReaderOriginError"@
    }

    /// The position of the variant that the text `s` reads as.
    pub open spec fn tag_of(s: Seq<char>) -> nat {
        if s == "Hit"@ {
            0
        } else if s == "RefreshHit"@ {
            1
        } else if s == "Miss"@ {
            2
        } else if s == "LimitExceeded"@ {
            3
        } else if s == "CapacityExceeded"@ {
            4
        } else if s == "Error"@ {
            5
        } else if s == "Redirect"@ {
            6
        } else if s == "LambdaGeneratedResponse"@ {
            7
        } else if s == "OriginShieldHit"@ {
            8
        } else if s == "MissGeneratedResponse"@ {
            9
        } else if s == "AbortedOrigin"@ {
            10
        } else if s == "ClientCommError"@ {
            11
        } else if s == "ClientGeoBlocked"@ {
            12
        } else if s == "ClientHungUpRequest"@ {
            13
        } else if s == "InvalidRequest"@ {
            14
        } else if s == "InvalidRequestBlocked"@ {
            15
        } else if s == "InvalidRequestCertificate"@ {
            16
        } else if s == "InvalidRequestHeader"@ {
            17
        } else if s == "InvalidRequestMethod"@ {
            18
        } else if s == "OriginCommError"@ {
            19
        } else if s == "OriginConnectError"@ {
            20
        } else if s == "OriginContentRangeLengthError"@ {
            21
        } else if s == "OriginDnsError"@ {
            22
        } else if s == "OriginError"@ {
            23
        } else if s == "OriginHeaderTooBigError"@ {
            24
        } else if s == "OriginInvalidResponseError"@ {
            25
        } else if s == "OriginReadError"@ {
            26
        } else if s == "OriginWriteError"@ {
            27
        } else if s == "OriginZeroSizeObjectError"@ {
            28
        } else if s == "SlowReaderOriginError"@ {
            29
        } else {
            30
        }
    }

    /// Position of the variant in the declaration, for comparisons.
    pub open spec fn tag(&self) -> nat {
        match self {
            DetailedEdgeResultType::Hit => 0,
            DetailedEdgeResultType::RefreshHit => 1,
            DetailedEdgeResultType::Miss => 2,
            DetailedEdgeResultType::LimitExceeded => 3,
            DetailedEdgeResultType::CapacityExceeded => 4,
            DetailedEdgeResultType::Error => 5,
            DetailedEdgeResultType::Redirect => 6,
            DetailedEdgeResultType::LambdaGeneratedResponse => 7,
            DetailedEdgeResultType::OriginShieldHit => 8,
            DetailedEdgeResultType::MissGeneratedResponse => 9,
            DetailedEdgeResultType::AbortedOrigin => 10,
            DetailedEdgeResultType::ClientCommError => 11,
            DetailedEdgeResultType::ClientGeoBlocked => 12,
            DetailedEdgeResultType::ClientHungUpRequest => 13,
            DetailedEdgeResultType::InvalidRequest => 14,
            DetailedEdgeResultType::InvalidRequestBlocked => 15,
            DetailedEdgeResultType::InvalidRequestCertificate => 16,
            DetailedEdgeResultType::InvalidRequestHeader => 17,
            DetailedEdgeResultType::InvalidRequestMethod => 18,
            DetailedEdgeResultType::OriginCommError => 19,
            DetailedEdgeResultType::OriginConnectError => 20,
            DetailedEdgeResultType::OriginContentRangeLengthError => 21,
            DetailedEdgeResultType::OriginDnsError => 22,
            DetailedEdgeResultType::OriginError => 23,
            DetailedEdgeResultType::OriginHeaderTooBigError => 24,
            DetailedEdgeResultType::OriginInvalidResponseError => 25,
            DetailedEdgeResultType::OriginReadError => 26,
            DetailedEdgeResultType::OriginWriteError => 27,
            DetailedEdgeResultType::OriginZeroSizeObjectError => 28,
            DetailedEdgeResultType::SlowReaderOriginError => 29,
            DetailedEdgeResultType::Other(_) => 30,
        }
    }

    /// Reads a value: a known text gives its variant, any other text
    /// gives [`Other`](Self::Other) with that text. It never fails.
    pub fn parse(s: &str) -> (r: Self)
        ensures
            r.name() == s@,
            r.tag() == Self::tag_of(s@),
            r is Other <==> !Self::is_known(s@),
    {
        if str_eq(s, "Hit") {
            DetailedEdgeResultType::Hit
        } else if str_eq(s, "RefreshHit") {
            DetailedEdgeResultType::RefreshHit
        } else if str_eq(s, "Miss") {
            DetailedEdgeResultType::Miss
        } else if str_eq(s, "LimitExceeded") {
            DetailedEdgeResultType::LimitExceeded
        } else if str_eq(s, "CapacityExceeded") {
            DetailedEdgeResultType::CapacityExceeded
        } else if str_eq(s, "Error") {
            DetailedEdgeResultType::Error
        } else if str_eq(s, "Redirect") {
            DetailedEdgeResultType::Redirect
        } else if str_eq(s, "LambdaGeneratedResponse") {
            DetailedEdgeResultType::LambdaGeneratedResponse
        } else if str_eq(s, "OriginShieldHit") {
            DetailedEdgeResultType::OriginShieldHit
        } else if str_eq(s, "MissGeneratedResponse") {
            DetailedEdgeResultType::MissGeneratedResponse
        } else if str_eq(s, "AbortedOrigin") {
            DetailedEdgeResultType::AbortedOrigin
        } else if str_eq(s, "ClientCommError") {
            DetailedEdgeResultType::ClientCommError
        } else if str_eq(s, "ClientGeoBlocked") {
            DetailedEdgeResultType::ClientGeoBlocked
        } else if str_eq(s, "ClientHungUpRequest") {
            DetailedEdgeResultType::ClientHungUpRequest
        } else if str_eq(s, "InvalidRequest") {
            DetailedEdgeResultType::InvalidRequest
        } else if str_eq(s, "InvalidRequestBlocked") {
            DetailedEdgeResultType::InvalidRequestBlocked
        } else if str_eq(s, "InvalidRequestCertificate") {
            DetailedEdgeResultType::InvalidRequestCertificate
        } else if str_eq(s, "InvalidRequestHeader") {
            DetailedEdgeResultType::InvalidRequestHeader
        } else if str_eq(s, "InvalidRequestMethod") {
            DetailedEdgeResultType::InvalidRequestMethod
        } else if str_eq(s, "OriginCommError") {
            DetailedEdgeResultType::OriginCommError
        } else if str_eq(s, "OriginConnectError") {
            DetailedEdgeResultType::OriginConnectError
        } else if str_eq(s, "OriginContentRangeLengthError") {
            DetailedEdgeResultType::OriginContentRangeLengthError
        } else if str_eq(s, "OriginDnsError") {
            DetailedEdgeResultType::OriginDnsError
        } else if str_eq(s, "OriginError") {
            DetailedEdgeResultType::OriginError
        } else if str_eq(s, "OriginHeaderTooBigError") {
            DetailedEdgeResultType::OriginHeaderTooBigError
        } else if str_eq(s, "OriginInvalidResponseError") {
            DetailedEdgeResultType::OriginInvalidResponseError
        } else if str_eq(s, "OriginReadError") {
            DetailedEdgeResultType::OriginReadError
        } else if str_eq(s, "OriginWriteError") {
            DetailedEdgeResultType::OriginWriteError
        } else if str_eq(s, "OriginZeroSizeObjectError") {
            DetailedEdgeResultType::OriginZeroSizeObjectError
        } else if str_eq(s, "SlowReaderOriginError") {
            DetailedEdgeResultType::SlowReaderOriginError
        } else {
            DetailedEdgeResultType::Other(s.to_owned())
        }
    }

    /// The text of the value.
    pub fn as_str(&self) -> (r: &str)
        ensures
            r@ == self.name(),
    {
        match self {
            DetailedEdgeResultType::Hit => "Hit",
            DetailedEdgeResultType::RefreshHit => "RefreshHit",
            DetailedEdgeResultType::Miss => "Miss",
            DetailedEdgeResultType::LimitExceeded => "LimitExceeded",
            DetailedEdgeResultType::CapacityExceeded => "CapacityExceeded",
            DetailedEdgeResultType::Error => "Error",
            DetailedEdgeResultType::Redirect => "Redirect",
            DetailedEdgeResultType::LambdaGeneratedResponse => "LambdaGeneratedResponse",
            DetailedEdgeResultType::OriginShieldHit => "OriginShieldHit",
            DetailedEdgeResultType::MissGeneratedResponse => "MissGeneratedResponse",
            DetailedEdgeResultType::AbortedOrigin => "AbortedOrigin",
            DetailedEdgeResultType::ClientCommError => "ClientCommError",
            DetailedEdgeResultType::ClientGeoBlocked => "ClientGeoBlocked",
            DetailedEdgeResultType::ClientHungUpRequest => "ClientHungUpRequest",
            DetailedEdgeResultType::InvalidRequest => "InvalidRequest",
            DetailedEdgeResultType::InvalidRequestBlocked => "InvalidRequestBlocked",
            DetailedEdgeResultType::InvalidRequestCertificate => "InvalidRequestCertificate",
            DetailedEdgeResultType::InvalidRequestHeader => "InvalidRequestHeader",
            DetailedEdgeResultType::InvalidRequestMethod => "InvalidRequestMethod",
            DetailedEdgeResultType::OriginCommError => "OriginCommError",
            DetailedEdgeResultType::OriginConnectError => "OriginConnectError",
            DetailedEdgeResultType::OriginContentRangeLengthError => "OriginContentRangeLengthError",
            DetailedEdgeResultType::OriginDnsError => "OriginDnsError",
            DetailedEdgeResultType::OriginError => "OriginError",
            DetailedEdgeResultType::OriginHeaderTooBigError => "OriginHeaderTooBigError",
            DetailedEdgeResultType::OriginInvalidResponseError => "OriginInvalidResponseError",
            DetailedEdgeResultType::OriginReadError => "OriginReadError",
            DetailedEdgeResultType::OriginWriteError => "OriginWriteError",
            DetailedEdgeResultType::OriginZeroSizeObjectError => "OriginZeroSizeObjectError",
            DetailedEdgeResultType::SlowReaderOriginError => "SlowReaderOriginError",
            DetailedEdgeResultType::Other(s) => s.as_str(),
        }
    }

    /// The text of the value, as an owned string.
    pub fn to_string(&self) -> (r: String)
        ensures
            r@ == self.name(),
    {
        self.as_str().to_owned()
    }

    fn variant_index(&self) -> (r: u8)
        ensures
            r == self.tag(),
    {
        match self {
            DetailedEdgeResultType::Hit => 0,
            DetailedEdgeResultType::RefreshHit => 1,
            DetailedEdgeResultType::Miss => 2,
            DetailedEdgeResultType::LimitExceeded => 3,
            DetailedEdgeResultType::CapacityExceeded => 4,
            DetailedEdgeResultType::Error => 5,
            DetailedEdgeResultType::Redirect => 6,
            DetailedEdgeResultType::LambdaGeneratedResponse => 7,
            DetailedEdgeResultType::OriginShieldHit => 8,
            DetailedEdgeResultType::MissGeneratedResponse => 9,
            DetailedEdgeResultType::AbortedOrigin => 10,
            DetailedEdgeResultType::ClientCommError => 11,
            DetailedEdgeResultType::ClientGeoBlocked => 12,
            DetailedEdgeResultType::ClientHungUpRequest => 13,
            DetailedEdgeResultType::InvalidRequest => 14,
            DetailedEdgeResultType::InvalidRequestBlocked => 15,
            DetailedEdgeResultType::InvalidRequestCertificate => 16,
            DetailedEdgeResultType::InvalidRequestHeader => 17,
            DetailedEdgeResultType::InvalidRequestMethod => 18,
            DetailedEdgeResultType::OriginCommError => 19,
            DetailedEdgeResultType::OriginConnectError => 20,
            DetailedEdgeResultType::OriginContentRangeLengthError => 21,
            DetailedEdgeResultType::OriginDnsError => 22,
            DetailedEdgeResultType::OriginError => 23,
            DetailedEdgeResultType::OriginHeaderTooBigError => 24,
            DetailedEdgeResultType::OriginInvalidResponseError => 25,
            DetailedEdgeResultType::OriginReadError => 26,
            DetailedEdgeResultType::OriginWriteError => 27,
            DetailedEdgeResultType::OriginZeroSizeObjectError => 28,
            DetailedEdgeResultType::SlowReaderOriginError => 29,
            DetailedEdgeResultType::Other(_) => 30,
        }
    }
}

impl PartialEq for DetailedEdgeResultType {
    fn eq(&self, other: &DetailedEdgeResultType) -> (r: bool) {
        match (self, other) {
            (DetailedEdgeResultType::Other(a), DetailedEdgeResultType::Other(b)) => str_eq(a.as_str(), b.as_str()),
            _ => self.variant_index() == other.variant_index(),
        }
    }
}

impl vstd::std_specs::cmp::PartialEqSpecImpl for DetailedEdgeResultType {
    open spec fn obeys_eq_spec() -> bool {
        true
    }

    open spec fn eq_spec(&self, other: &DetailedEdgeResultType) -> bool {
        self.tag() == other.tag() && self.name() == other.name()
    }
}

impl<'a> TryFrom<&'a str> for DetailedEdgeResultType {
    type Error = &'static str;

    /// Same as [`DetailedEdgeResultType::parse`]; never fails.
    fn try_from(s: &'a str) -> (r: Result<Self, &'static str>)
        ensures
            r matches Ok(v) && v.name() == s@ && v.tag() == Self::tag_of(s@) && (v is Other <==> !Self::is_known(s@)),
    {
        Ok(Self::parse(s))
    }
}

impl<'a> vstd::std_specs::convert::TryFromSpecImpl<&'a str> for DetailedEdgeResultType {
    open spec fn obeys_try_from_spec() -> bool {
        false
    }

    open spec fn try_from_spec(s: &'a str) -> Result<Self, &'static str> {
        Err("")
    }
}

/// The protocol of the viewer request.
///
/// The list of known values may be incomplete, so a value outside it is
/// kept in [`Other`](Self::Other) instead of being rejected.
#[derive(Debug, Clone)]
pub enum CsProtocol {
    Http,
    Https,
    Ws,
    Wss,
    Other(String),
}

impl CsProtocol {
    /// The text of the value, as it stands in a log line.
    pub open spec fn name(&self) -> Seq<char> {
        match self {
            CsProtocol::Http => "http"@,
            CsProtocol::Https => "https"@,
            CsProtocol::Ws => "ws"@,
            CsProtocol::Wss => "wss"@,
            CsProtocol::Other(s) => s@,
        }
    }

    /// Whether `s` is the text of a known value.
    pub open spec fn is_known(s: Seq<char>) -> bool {
        s == "http"@
        || s == "https"@
        || s == "ws"@
        || s == "wss"@
    }

    /// The position of the variant that the text `s` reads as.
    pub open spec fn tag_of(s: Seq<char>) -> nat {
        if s == "http"@ {
            0
        } else if s == "https"@ {
            1
        } else if s == "ws"@ {
            2
        } else if s == "wss"@ {
            3
        } else {
            4
        }
    }

    /// Position of the variant in the declaration, for comparisons.
    pub open spec fn tag(&self) -> nat {
        match self {
            CsProtocol::Http => 0,
            CsProtocol::Https => 1,
            CsProtocol::Ws => 2,
            CsProtocol::Wss => 3,
            CsProtocol::Other(_) => 4,
        }
    }

    /// Reads a value: a known text gives its variant, any other text
    /// gives [`Other`](Self::Other) with that text. It never fails.
    pub fn parse(s: &str) -> (r: Self)
        ensures
            r.name() == s@,
            r.tag() == Self::tag_of(s@),
            r is Other <==> !Self::is_known(s@),
    {
        if str_eq(s, "http") {
            CsProtocol::Http
        } else if str_eq(s, "https") {
            CsProtocol::Https
        } else if str_eq(s, "ws") {
            CsProtocol::Ws
        } else if str_eq(s, "wss") {
            CsProtocol::Wss
        } else {
            CsProtocol::Other(s.to_owned())
        }
    }

    /// The text of the value.
    pub fn as_str(&self) -> (r: &str)
        ensures
            r@ == self.name(),
    {
        match self {
            CsProtocol::Http => "http",
            CsProtocol::Https => "https",
            CsProtocol::Ws => "ws",
            CsProtocol::Wss => "wss",
            CsProtocol::Other(s) => s.as_str(),
        }
    }

    /// The text of the value, as an owned string.
    pub fn to_string(&self) -> (r: String)
        ensures
            r@ == self.name(),
    {
        self.as_str().to_owned()
    }

    fn variant_index(&self) -> (r: u8)
        ensures
            r == self.tag(),
    {
        match self {
            CsProtocol::Http => 0,
            CsProtocol::Https => 1,
            CsProtocol::Ws => 2,
            CsProtocol::Wss => 3,
            CsProtocol::Other(_) => 4,
        }
    }
}

impl PartialEq for CsProtocol {
    fn eq(&self, other: &CsProtocol) -> (r: bool) {
        match (self, other) {
            (CsProtocol::Other(a), CsProtocol::Other(b)) => str_eq(a.as_str(), b.as_str()),
            _ => self.variant_index() == other.variant_index(),
        }
    }
}

impl vstd::std_specs::cmp::PartialEqSpecImpl for CsProtocol {
    open spec fn obeys_eq_spec() -> bool {
        true
    }

    open spec fn eq_spec(&self, other: &CsProtocol) -> bool {
        self.tag() == other.tag() && self.name() == other.name()
    }
}

impl<'a> TryFrom<&'a str> for CsProtocol {
    type Error = &'static str;

    /// Same as [`CsProtocol::parse`]; never fails.
    fn try_from(s: &'a str) -> (r: Result<Self, &'static str>)
        ensures
            r matches Ok(v) && v.name() == s@ && v.tag() == Self::tag_of(s@) && (v is Other <==> !Self::is_known(s@)),
    {
        Ok(Self::parse(s))
    }
}

impl<'a> vstd::std_specs::convert::TryFromSpecImpl<&'a str> for CsProtocol {
    open spec fn obeys_try_from_spec() -> bool {
        false
    }

    open spec fn try_from_spec(s: &'a str) -> Result<Self, &'static str> {
        Err("")
    }
}

/// The HTTP version of the viewer request.
///
/// The list of known values may be incomplete, so a value outside it is
/// kept in [`Other`](Self::Other) instead of being rejected.
#[derive(Debug, Clone)]
pub enum CsProtocolVersion {
    HTTP3_0,
    HTTP2_0,
    HTTP1_1,
    HTTP1_0,
    HTTP0_9,
    Other(String),
}

impl CsProtocolVersion {
    /// The text of the value, as it stands in a log line.
    pub open spec fn name(&self) -> Seq<char> {
        match self {
            CsProtocolVersion::HTTP3_0 => "HTTP/3.0"@,
            CsProtocolVersion::HTTP2_0 => "HTTP/2.0"@,
            CsProtocolVersion::HTTP1_1 => "HTTP/1.1"@,
            CsProtocolVersion::HTTP1_0 => "HTTP/1.0"@,
            CsProtocolVersion::HTTP0_9 => "HTTP/0.9"@,
            CsProtocolVersion::Other(s) => s@,
        }
    }

    /// Whether `s` is the text of a known value.
    pub open spec fn is_known(s: Seq<char>) -> bool {
        s == "HTTP/3.0"@
        || s == "HTTP/2.0"@
        || s == "HTTP/1.1"@
        || s == "HTTP/1.0"@
        || s == "HTTP/0.9"@
    }

    /// The position of the variant that the text `s` reads as.
    pub open spec fn tag_of(s: Seq<char>) -> nat {
        if s == "HTTP/3.0"@ {
            0
        } else if s == "HTTP/2.0"@ {
            1
        } else if s == "HTTP/1.1"@ {
            2
        } else if s == "HTTP/1.0"@ {
            3
        } else if s == "HTTP/0.9"@ {
            4
        } else {
            5
        }
    }

    /// Position of the variant in the declaration, for comparisons.
    pub open spec fn tag(&self) -> nat {
        match self {
            CsProtocolVersion::HTTP3_0 => 0,
            CsProtocolVersion::HTTP2_0 => 1,
            CsProtocolVersion::HTTP1_1 => 2,
            CsProtocolVersion::HTTP1_0 => 3,
            CsProtocolVersion::HTTP0_9 => 4,
            CsProtocolVersion::Other(_) => 5,
        }
    }

    /// Reads a value: a known text gives its variant, any other text
    /// gives [`Other`](Self::Other) with that text. It never fails.
    pub fn parse(s: &str) -> (r: Self)
        ensures
            r.name() == s@,
            r.tag() == Self::tag_of(s@),
            r is Other <==> !Self::is_known(s@),
    {
        if str_eq(s, "HTTP/3.0") {
            CsProtocolVersion::HTTP3_0
        } else if str_eq(s, "HTTP/2.0") {
            CsProtocolVersion::HTTP2_0
        } else if str_eq(s, "HTTP/1.1") {
            CsProtocolVersion::HTTP1_1
        } else if str_eq(s, "HTTP/1.0") {
            CsProtocolVersion::HTTP1_0
        } else if str_eq(s, "HTTP/0.9") {
            CsProtocolVersion::HTTP0_9
        } else {
            CsProtocolVersion::Other(s.to_owned())
        }
    }

    /// The text of the value.
    pub fn as_str(&self) -> (r: &str)
        ensures
            r@ == self.name(),
    {
        match self {
            CsProtocolVersion::HTTP3_0 => "HTTP/3.0",
            CsProtocolVersion::HTTP2_0 => "HTTP/2.0",
            CsProtocolVersion::HTTP1_1 => "HTTP/1.1",
            CsProtocolVersion::HTTP1_0 => "HTTP/1.0",
            CsProtocolVersion::HTTP0_9 => "HTTP/0.9",
            CsProtocolVersion::Other(s) => s.as_str(),
        }
    }

    /// The text of the value, as an owned string.
    pub fn to_string(&self) -> (r: String)
        ensures
            r@ == self.name(),
    {
        self.as_str().to_owned()
    }

    fn variant_index(&self) -> (r: u8)
        ensures
            r == self.tag(),
    {
        match self {
            CsProtocolVersion::HTTP3_0 => 0,
            CsProtocolVersion::HTTP2_0 => 1,
            CsProtocolVersion::HTTP1_1 => 2,
            CsProtocolVersion::HTTP1_0 => 3,
            CsProtocolVersion::HTTP0_9 => 4,
            CsProtocolVersion::Other(_) => 5,
        }
    }
}

impl PartialEq for CsProtocolVersion {
    fn eq(&self, other: &CsProtocolVersion) -> (r: bool) {
        match (self, other) {
            (CsProtocolVersion::Other(a), CsProtocolVersion::Other(b)) => str_eq(a.as_str(), b.as_str()),
            _ => self.variant_index() == other.variant_index(),
        }
    }
}

impl vstd::std_specs::cmp::PartialEqSpecImpl for CsProtocolVersion {
    open spec fn obeys_eq_spec() -> bool {
        true
    }

    open spec fn eq_spec(&self, other: &CsProtocolVersion) -> bool {
        self.tag() == other.tag() && self.name() == other.name()
    }
}

impl<'a> TryFrom<&'a str> for CsProtocolVersion {
    type Error = &'static str;

    /// Same as [`CsProtocolVersion::parse`]; never fails.
    fn try_from(s: &'a str) -> (r: Result<Self, &'static str>)
        ensures
            r matches Ok(v) && v.name() == s@ && v.tag() == Self::tag_of(s@) && (v is Other <==> !Self::is_known(s@)),
    {
        Ok(Self::parse(s))
    }
}

impl<'a> vstd::std_specs::convert::TryFromSpecImpl<&'a str> for CsProtocolVersion {
    open spec fn obeys_try_from_spec() -> bool {
        false
    }

    open spec fn try_from_spec(s: &'a str) -> Result<Self, &'static str> {
        Err("")
    }
}

/// The TLS or SSL version of the viewer connection.
///
/// The list of known values may be incomplete, so a value outside it is
/// kept in [`Other`](Self::Other) instead of being rejected.
#[derive(Debug, Clone)]
pub enum SslProtocol {
    TLSv1_3,
    TLSv1_2,
    TLSv1_1,
    TLSv1_0,
    SSLv3,
    Other(String),
}

impl SslProtocol {
    /// The text of the value, as it stands in a log line.
    pub open spec fn name(&self) -> Seq<char> {
        match self {
            SslProtocol::TLSv1_3 => "TLSv1.3"@,
            SslProtocol::TLSv1_2 => "TLSv1.2"@,
            SslProtocol::TLSv1_1 => "TLSv1.1"@,
            SslProtocol::TLSv1_0 => "TLSv1"@,
            SslProtocol::SSLv3 => "SSLv3"@,
            SslProtocol::Other(s) => s@,
        }
    }

    /// Whether `s` is the text of a known value.
    pub open spec fn is_known(s: Seq<char>) -> bool {
        s == "TLSv1.3"@
        || s == "TLSv1.2"@
        || s == "TLSv1.1"@
        || s == "TLSv1"@
        || s == "SSLv3"@
    }

    /// The position of the variant that the text `s` reads as.
    pub open spec fn tag_of(s: Seq<char>) -> nat {
        if s == "TLSv1.3"@ {
            0
        } else if s == "TLSv1.2"@ {
            1
        } else if s == "TLSv1.1"@ {
            2
        } else if s == "TLSv1"@ {
            3
        } else if s == "SSLv3"@ {
            4
        } else {
            5
        }
    }

    /// Position of the variant in the declaration, for comparisons.
    pub open spec fn tag(&self) -> nat {
        match self {
            SslProtocol::TLSv1_3 => 0,
            SslProtocol::TLSv1_2 => 1,
            SslProtocol::TLSv1_1 => 2,
            SslProtocol::TLSv1_0 => 3,
            SslProtocol::SSLv3 => 4,
            SslProtocol::Other(_) => 5,
        }
    }

    /// Reads a value: a known text gives its variant, any other text
    /// gives [`Other`](Self::Other) with that text. It never fails.
    pub fn parse(s: &str) -> (r: Self)
        ensures
            r.name() == s@,
            r.tag() == Self::tag_of(s@),
            r is Other <==> !Self::is_known(s@),
    {
        if str_eq(s, "TLSv1.3") {
            SslProtocol::TLSv1_3
        } else if str_eq(s, "TLSv1.2") {
            SslProtocol::TLSv1_2
        } else if str_eq(s, "TLSv1.1") {
            SslProtocol::TLSv1_1
        } else if str_eq(s, "TLSv1") {
            SslProtocol::TLSv1_0
        } else if str_eq(s, "SSLv3") {
            SslProtocol::SSLv3
        } else {
            SslProtocol::Other(s.to_owned())
        }
    }

    /// The text of the value.
    pub fn as_str(&self) -> (r: &str)
        ensures
            r@ == self.name(),
    {
        match self {
            SslProtocol::TLSv1_3 => "TLSv1.3",
            SslProtocol::TLSv1_2 => "TLSv1.2",
            SslProtocol::TLSv1_1 => "TLSv1.1",
            SslProtocol::TLSv1_0 => "TLSv1",
            SslProtocol::SSLv3 => "SSLv3",
            SslProtocol::Other(s) => s.as_str(),
        }
    }

    /// The text of the value, as an owned string.
    pub fn to_string(&self) -> (r: String)
        ensures
            r@ == self.name(),
    {
        self.as_str().to_owned()
    }

    fn variant_index(&self) -> (r: u8)
        ensures
            r == self.tag(),
    {
        match self {
            SslProtocol::TLSv1_3 => 0,
            SslProtocol::TLSv1_2 => 1,
            SslProtocol::TLSv1_1 => 2,
            SslProtocol::TLSv1_0 => 3,
            SslProtocol::SSLv3 => 4,
            SslProtocol::Other(_) => 5,
        }
    }
}

impl PartialEq for SslProtocol {
    fn eq(&self, other: &SslProtocol) -> (r: bool) {
        match (self, other) {
            (SslProtocol::Other(a), SslProtocol::Other(b)) => str_eq(a.as_str(), b.as_str()),
            _ => self.variant_index() == other.variant_index(),
        }
    }
}

impl vstd::std_specs::cmp::PartialEqSpecImpl for SslProtocol {
    open spec fn obeys_eq_spec() -> bool {
        true
    }

    open spec fn eq_spec(&self, other: &SslProtocol) -> bool {
        self.tag() == other.tag() && self.name() == other.name()
    }
}

impl<'a> TryFrom<&'a str> for SslProtocol {
    type Error = &'static str;

    /// Same as [`SslProtocol::parse`]; never fails.
    fn try_from(s: &'a str) -> (r: Result<Self, &'static str>)
        ensures
            r matches Ok(v) && v.name() == s@ && v.tag() == Self::tag_of(s@) && (v is Other <==> !Self::is_known(s@)),
    {
        Ok(Self::parse(s))
    }
}

impl<'a> vstd::std_specs::convert::TryFromSpecImpl<&'a str> for SslProtocol {
    open spec fn obeys_try_from_spec() -> bool {
        false
    }

    open spec fn try_from_spec(s: &'a str) -> Result<Self, &'static str> {
        Err("")
    }
}

} // verus!
