//! Retrieval and filtering of a user's "music" playlists.
//!
//! The core of this library takes the playlist records returned by a remote
//! listing endpoint, sorts them by title, keeps those whose title starts with
//! the literal prefix `music-`, and returns their identifiers in that order.
//! The surrounding fetch flow (credential loading, authorization, the listing
//! call itself) is modelled as a small state machine whose decisions are
//! verified; the I/O steps themselves are performed by the embedding
//! application.

pub mod fetcher;
pub mod laws;
pub mod order;
pub mod playlist;
pub mod sort;
