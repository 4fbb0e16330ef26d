//! Code generation for a small template language.
//!
//! A parsed template document is an ordered tree of [`ast::Node`] values.
//! [`renderer::render`] walks that tree and emits a complete Gleam source
//! file that exposes the template as callable functions building a
//! `StringBuilder`.  The exact text of the output is pinned down by the
//! specification functions in [`scope`], so that every byte of the result
//! is a proved function of the input tree and the two metadata strings.

pub mod ast;
pub mod laws;
pub mod renderer;
pub mod scope;
pub mod text;
