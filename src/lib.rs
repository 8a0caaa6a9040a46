//! Composable generators of short typing-practice snippets that look like source code.

pub mod arena;
pub mod coding;
pub mod composites;
mod entropy;
pub mod laws;
pub mod leaves;
pub mod options;
pub mod pattern;
pub mod text;
