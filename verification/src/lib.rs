//! Client-side access layer for a collection-oriented key-value store
//! reachable over HTTP: URL and parameter construction, a query-builder
//! abstraction, status-code-to-error mapping, and change-feed frame decoding.
//! The network calls themselves live outside this library; everything here is
//! a pure mapping from calls to request descriptions and from responses to
//! typed outcomes.
//!
//! Two conventions the protocol leaves open are fixed here: a delete or an
//! existence check answers with a plain boolean — absence is an expected,
//! non-exceptional outcome for those two calls and never a typed error — and
//! the query builder's `keys` field defaults to `false`.

pub mod endpoint;
pub mod errors;
pub mod feed;
pub mod json;
pub mod paths;
pub mod query;
pub mod response;
pub mod text;
pub mod urls;

pub use endpoint::Endpoint;
pub use errors::Error;
pub use feed::CollectionEvent;
pub use feed::FeedDecoder;
pub use paths::parse_path;
pub use query::QueryBuilder;
pub use query::SortOrder;
pub use urls::api_url;
