//! Typed access to the extensions of a request: a required read, an optional
//! read, and a fallible mutation of the whole store.

pub mod ext;
