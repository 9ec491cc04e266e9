//! A typed representation of GLSL ES 3.00 shader source, together with a
//! deterministic renderer that turns it into compilable source text, and
//! small utilities for callback registries and text cursors.

pub mod builder;
pub mod callback;
pub mod cursor;
pub mod expr;
pub mod glsl;
pub mod laws;
pub mod module;
pub mod numeral;
pub mod stmt;
pub mod types;
pub mod vars;
