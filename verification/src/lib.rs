//! Library for generating reports of issues assigned to a user on a
//! GraphQL issue-tracking API: credential validation and redaction,
//! cursor-based pagination, repository allow/deny glob filtering,
//! mapping of raw wire nodes into a flat issue model, and rendering of
//! the default report text.

pub mod client;
pub mod error;
pub mod gql;
pub mod issue;
pub mod pat;
pub mod pattern;
pub mod report;
pub mod text;
pub mod timestamp;

pub use error::Error;
pub use pat::Pat;
pub use pattern::Pattern;
pub use timestamp::DateTime;
pub use timestamp::Timestamp;
