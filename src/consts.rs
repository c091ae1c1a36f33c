use vstd::prelude::*;

verus! {

/// Comment marker at the start of header lines, as a byte.
pub const COMMENT_U8: u8 = 0x23;

/// Field delimiter, as a byte.
pub const TAB_U8: u8 = 0x09;

/// Number of field separators in a log line.
pub const TABS: usize = 32;

/// Number of fields in a log line.
pub const FIELDS: usize = 33;

} // verus!
