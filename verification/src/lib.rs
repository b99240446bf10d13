//! A Ruby code formatter.
pub mod syntax;
pub mod text;
pub mod layout;
pub mod formatter;
pub mod parser;
pub mod config;
pub mod laws;
pub mod shape_laws;
