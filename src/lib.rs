//! Builds renderers for commit templates: a small language of literals,
//! keywords, methods, `if` and `label`, whose expressions are checked for the
//! kind of value they produce while the template is built.
pub mod builder;
pub mod error;
pub mod laws;
pub mod parser;
pub mod property;
pub mod record;
pub mod syntax;
pub mod template;
pub mod text;
