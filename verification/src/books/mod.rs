//! Books.

pub mod resolver;
