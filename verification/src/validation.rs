//! Checks on invoices, the report they fill, and the invoice diff.

pub mod business_rules;
pub mod diff;
pub mod result;
pub mod rules_engine;
