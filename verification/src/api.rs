//! What the service reports of the documents it is given.

pub mod validate;
