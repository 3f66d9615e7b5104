//! Compile-time code generation for string-keyed enums.
//!
//! Given a description of an enumerated type whose variants each carry a
//! fixed string representation, the library synthesizes the source text of
//! an `impl` block holding: a named string constant per variant, a total
//! function from a variant to its string, a partial function from a string
//! back to the matching variant, and (optionally) serialization adapters
//! that read and write the enum as that string.
//!
//! The heart of the library is [`codegen::codegen`], which turns a
//! [`codegen::Config`] into the generated source text or a diagnostic
//! message.

pub mod codegen;
pub mod escape;
pub mod ident;
