//! Language configuration and diagnostic model for the front end of a
//! compiler for the B programming language.
//!
//! The crate fixes the vocabulary that every stage of the front end has to
//! agree on (escape spellings, reserved words, the names that the standard
//! library declares), the closed set of problems that parsing and semantic
//! analysis can report, and the rule by which the target platform is chosen
//! from what is known about the host.

pub mod text;
pub mod token;
pub mod ast;
pub mod issue;
pub mod platform;
pub mod stdlib;
pub mod reserved;
pub mod escape;
