//! A tokenizer for a small experimental language.
//!
//! The crate turns source text into a sequence of located tokens. Everything
//! lives under [`lexing`].

pub mod lexing;
