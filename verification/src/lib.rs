//! A Ruby linter: cops that check Ruby source text for style, layout and
//! naming offenses.

pub mod config;
pub mod cop;
pub mod cops;
pub mod offense;
pub mod pattern;
pub mod rule;
pub mod scan;
pub mod seen;
pub mod source;
pub mod text;
