//! Small self-contained algorithms used by the validation rules.

pub mod afm;
