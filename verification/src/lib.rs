//! Core of a small dynamically typed scripting language used as a
//! live-reloadable behaviour language: scanner, parser, static scope
//! resolver, environment model, tree-walking evaluator, and the value and
//! error models they share.
//!
//! The surrounding application (windowing, GPU work, file watching) stays
//! outside this crate; it reaches the language through the [`host::Host`]
//! trait and the plain-value types of [`object`].

pub mod ast;
pub mod cli;
pub mod environment;
pub mod error;
pub mod host;
pub mod interp;
pub mod object;
pub mod parser;
pub mod resolver;
pub mod scanner;
pub mod token;
pub mod util;
