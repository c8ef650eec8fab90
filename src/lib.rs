//! A password generator that draws each character from a set of enabled
//! character classes, using the operating system's secure random source.
mod entropy;
pub mod generator;
pub mod pools;
