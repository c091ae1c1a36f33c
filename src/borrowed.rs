//! Log line types that borrow their text from the input line.

pub mod raw;
pub mod typed;

pub use raw::{UnvalidatedLogline as UnvalidatedRawLogline, ValidatedLogline as ValidatedRawLogline};
pub use typed::{UnvalidatedLogline as UnvalidatedTimeLogline, ValidatedLogline as ValidatedTimeLogline};
