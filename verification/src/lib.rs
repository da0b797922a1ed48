//! Typed domain and encoding layer for a bibliographic search API.
//!
//! The crate models search queries (free text, field-scoped terms, year
//! ranges, pagination) and search responses (pages of bibliographic
//! documents), together with the codecs that turn closed enumerations into
//! their canonical wire strings and back.  Everything here is a pure
//! transform over owned values; the network exchange itself lives outside
//! this crate.

pub mod auth;
pub mod codec;
pub mod page;
pub mod query;
pub mod range;
pub mod response;
pub mod text;
