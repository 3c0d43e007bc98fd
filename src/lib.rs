//! A position-aware error type for a WebAssembly text-format pipeline.
//!
//! Lexer, parser and WAT-to-WASM transformer errors are converted into one
//! [`Error`] that records the byte offset of the fault in the source text,
//! classifies it, may chain to an earlier error, and renders a diagnostic.
pub mod outside;
pub mod text;

pub mod error;
pub mod render;
pub mod laws;

pub use error::{Error, ErrorKind, ParseKind, Result};
