//! Validated name tokens for a compiler front end.
//!
//! Three categories of name tokens, each an immutable value wrapping the
//! text it was built from:
//!
//! * [`name::Ident`] — lowercase-leading identifiers,
//! * [`name::UpperIdent`] — uppercase-leading type and constructor names,
//! * [`name::Operator`] — symbol-leading operator names (bare `=` excluded).
//!
//! All three share one parameterized validity checker, in [`validity`];
//! the laws that relate the categories and their constructors are proved
//! in [`laws`].

pub mod laws;
pub mod name;
pub mod validity;
