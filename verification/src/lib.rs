//! Validation engine for Greek e-invoicing records: a strict invoice model,
//! fixed consistency checks, configurable rules and a structural diff.

pub mod api;
pub mod config;
pub mod date;
pub mod decimal;
pub mod domain;
pub mod text;
pub mod utils;
pub mod validation;
pub mod xml;
