//! Typed records for the entities of the MusicBrainz XML web service, read
//! from its documents with XPath queries.

pub mod client;
pub mod entities;
pub mod errors;
pub mod expression;
pub mod mbid;
pub mod sxd;
pub mod text;

pub use errors::{DataProblem, ReadError, ReadErrorView, XpathFailure};
