//! Parser for CloudFront access log lines.
//!
//! A log line is 33 tab separated fields. The crate offers raw lines that
//! borrow every field from the text, views that split out fields on demand,
//! owned records with typed fields, and an owning line that keeps its text
//! together with the byte range of each field.

pub mod borrowed;
pub mod calendar;
pub mod consts;
pub mod forwarded;
pub mod net;
pub mod num;
pub mod owned;
pub mod parquet_schemata;
pub mod referential;
pub mod shared;
pub mod types;
pub mod view;

pub use consts::{COMMENT_U8, FIELDS, TABS, TAB_U8};
pub use shared::validate_line;

pub use borrowed::{UnvalidatedRawLogline, UnvalidatedTimeLogline, ValidatedRawLogline, ValidatedTimeLogline};
pub use calendar::{Date, DateTime, Time, TIME_DATE_FMT, TIME_TIME_FMT};
pub use forwarded::{Addressable, ForwardedForAddrs};
pub use net::{IpAddr, Ipv4Addr, Ipv6Addr, SocketAddr};
pub use num::Duration;
pub use owned::{UnvalidatedSimpleLogline, ValidatedSimpleLogline};
pub use referential::{
    UnvalidatedLogline as OwningUnvalidatedRawLogline, ValidatedLogline as OwningValidatedRawLogline,
};
pub use types::{
    CsProtocol, CsProtocolVersion, DetailedEdgeResultType, EdgeResultType, SslProtocol, Unvalidated, Validated,
};

pub use borrowed::ValidatedRawLogline as CheckedRawLogLine;
pub use borrowed::ValidatedTimeLogline as TypedLogLine;
pub use owned::ValidatedSimpleLogline as SimpleLogLine;
pub use view::checked::LogLineView as CheckedRawLogLineView;
pub use view::smart::LogLineView as SmartRawLogLineView;
