//! A typed client core for the Shikimori GraphQL service.
//!
//! The crate holds the decisions of the client and none of its I/O: it
//! validates search parameters, plans requests, decodes responses, decides
//! when a failed attempt is tried again and after which delay, and walks a
//! result set page by page. A caller performs the HTTP exchange and the
//! waiting, and hands what happened back to the state machines defined here.
//!
//! - [`client`]: the configuration of a client, and its builder.
//! - [`endpoint`]: which base URLs a client may be pointed at.
//! - [`queries`]: search parameters, their rules, and the requests they
//!   become.
//! - [`decode`]: from a response to records or to a failure.
//! - [`retry`]: when a failed attempt is made again, and after which delay.
//! - [`pagination`]: a search as a sequence of records.
//! - [`error`]: the failures, and which of them are transient.
//! - [`documents`]: the query documents.
//! - [`ids`]: ids that arrive as numbers or as text.
//! - [`json`] and [`text`]: what the other modules read documents and
//!   build messages with.
//! - [`types`]: the records of the service.

pub mod client;
pub mod decode;
pub mod documents;
pub mod endpoint;
pub mod error;
pub mod ids;
pub mod json;
pub mod pagination;
pub mod queries;
pub mod retry;
pub mod text;
pub mod types;

pub use client::{ShikicrateClient, ShikicrateClientBuilder};
pub use error::{ErrorKind, HttpFailure, ShikicrateError};
pub use queries::{
    AnimeSearchParams, CharacterSearchParams, MangaSearchParams, PeopleSearchParams,
    UserRateSearchParams,
};
pub use types::{
    Character, CharacterFull, CharacterRole, Date, ExternalLink, Genre, Person, PersonFull,
    PersonRole, Poster, Publisher, Related, RelatedAnime, RelatedManga, Screenshot, ScoreStat,
    StatusStat, Studio, Video,
};
