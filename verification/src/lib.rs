//! A typed client library over the Jikan REST API (anime and manga
//! metadata). The library builds the request URLs and query strings,
//! holds the typed records that the JSON responses decode into, and
//! dispatches tagged result unions to the expected variant. The HTTP
//! transport and the JSON decoding live outside the library.

pub mod anime;
pub mod base;
pub mod characters;
pub mod client;
pub mod digits;
pub mod episodes;
pub mod forum;
pub mod manga;
pub mod more_info;
pub mod news;
pub mod pictures;
pub mod prelude;
pub mod recommendations;
pub mod reviews;
pub mod schedule;
pub mod search;
pub mod season;
pub mod stats;
pub mod user_updates;
pub mod videos;

pub use digits::u32_to_dec;
