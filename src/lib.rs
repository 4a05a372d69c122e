//! Iterative generation of a character persona through a configurable
//! completion provider: the verified decision logic of the tool.

pub mod character;
pub mod config;
pub mod text;
pub mod history;
pub mod completion;
pub mod input;
pub mod json;
pub mod gen;
