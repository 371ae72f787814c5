//! A verified core for a static content server.
//!
//! The library holds the request-resolution pipeline: the fallback-chain
//! state machine that maps a logical path to a concrete resource
//! ([`serve`]), the bounded TTL response cache ([`cache`]), header and
//! content negotiation ([`negotiate`]), the directory listing renderer
//! ([`autoindex`]), ordered byte substitution over HTML bodies
//! ([`substitute`]), request-path decoding and the lexical traversal check
//! ([`path`]), backend selection from a storage URL ([`storage`]), and the
//! environment-derived configuration ([`config`]). Chain-level theorems —
//! fallback order, traversal rejection, cache replay — live in [`laws`].
//!
//! The resolver performs no I/O itself: it emits one backend request at a
//! time as an [`serve::Action`] and consumes the outcome as an
//! [`serve::Event`], so an embedding program supplies the transport and the
//! storage backend while every decision in between is verified.

pub mod autoindex;
pub mod cache;
pub mod config;
pub mod error;
pub mod laws;
pub mod metadata;
pub mod negotiate;
pub mod parsenum;
pub mod path;
pub mod response;
pub mod serve;
pub mod storage;
pub mod strutil;
pub mod substitute;
pub mod textnum;
