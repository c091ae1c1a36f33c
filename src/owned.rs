//! Log line types that own their field data.

pub mod simple;

pub use simple::{UnvalidatedLogline as UnvalidatedSimpleLogline, ValidatedLogline as ValidatedSimpleLogline};
