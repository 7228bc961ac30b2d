//! Request planning for the Spotify Web API: identifiers in their three
//! written forms, query strings, request bodies, and the reading of responses.
//!
//! The library never touches the network. Every endpoint method yields the
//! [`dispatch::Request`] to send; the caller sends it and hands the status and
//! the body back to [`dispatch::call_outcome`].

pub mod client;
pub mod decimal;
pub mod dispatch;
pub mod endpoints;
pub mod ident;
pub mod ident_proofs;
pub mod kind;
pub mod params;
pub mod payload;
pub mod text;
