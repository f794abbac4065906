//! Media identity and commit pipeline.
//!
//! Media items come from several catalogs, each with its own payload shape.
//! This crate normalises those payloads into one polymorphic entity model,
//! commits each item at most once per external identifier, and keeps the
//! user-to-media associations that follow from recorded consumption.
//!
//! Nothing here performs I/O. Functions that stand between two pieces of
//! outside work take the outcome of the first as an argument and return the
//! decision about the second.

pub mod books;
pub mod calendar;
pub mod entities;
pub mod error;
pub mod graphql;
pub mod laws;
pub mod media;
pub mod migrator;
pub mod podcasts;
pub mod store;
