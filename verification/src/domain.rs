//! The strict invoice model that every check operates on.

pub mod classification;
pub mod enums;
pub mod invoice;
pub mod totals;
pub mod vat;
