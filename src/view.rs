//! Views of a line that split out fields on demand instead of all at once.

pub mod checked;
pub mod indexed;
pub mod smart;

use crate::borrowed::raw::{lemma_valid_line_fields, ValidatedLogline};
use crate::consts::FIELDS;
use crate::shared::{fields_of, is_valid_line};
use vstd::prelude::*;
use vstd::string::StringSliceAdditionalSpecFns;

verus! {

/// On a valid line the ways of reading a field agree: the raw line split
/// at once, the lazy view, the cursor view and the indexed view each hold,
/// at every index, the text of that field of the line.
pub proof fn lemma_strategies_agree<'a>(
    line: &'a str,
    eager: ValidatedLogline<'a>,
    lazy: checked::LogLineView<'a>,
    cached: smart::LogLineView<'a>,
    indexed: indexed::LogLineView<'a>,
    i: int,
)
    requires
        is_valid_line(line.spec_bytes()),
        eager.fields() == fields_of(line.spec_bytes()),
        lazy.line() == line.spec_bytes(),
        cached.line() == line.spec_bytes(),
        indexed.line() == line.spec_bytes(),
        0 <= i < FIELDS,
    ensures
        fields_of(line.spec_bytes()).len() == FIELDS,
        eager.fields()[i] == fields_of(line.spec_bytes())[i],
        lazy.fields()[i] == eager.fields()[i],
        cached.fields()[i] == eager.fields()[i],
        indexed.fields()[i] == eager.fields()[i],
{
    lemma_valid_line_fields(line.spec_bytes());
}

} // verus!
