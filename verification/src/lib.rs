//! Verified core of a slash-command webhook that lets guild members toggle
//! self-assignable roles.
//!
//! The crate holds the decisions of the webhook and proves them with Verus;
//! network and storage traffic is left to the caller. A request passes
//! through these stages, in this order:
//!
//! 1. [`auth`] checks the Ed25519 signature over timestamp and body, and the
//!    freshness of the timestamp.
//! 2. [`decoder`] reads the interaction from the JSON body.
//! 3. [`router`] answers pings at once, has the subscription of the guild
//!    checked ([`subscription`]), and routes commands and autocomplete
//!    queries.
//!
//! [`http_handler`] strings the stages together. It does no outside work:
//! where the router needs some, handling is suspended with one
//! [`router::step::Effect`], and the caller resumes the session with the
//! [`router::step::Outcome`]. [`gateway`] tells which request to the store
//! ([`dao`], [`store`]) or to the platform ([`role_manager`]) carries out an
//! effect, and what its answer amounts to. [`registry`] is a role registry
//! held in memory, for callers that keep no store.
//!
//! Four outside crates are called, each behind a few functions whose
//! contracts are taken on trust: `ed25519_dalek` ([`auth::signature`]), `hex`
//! ([`encoding`]), `serde_json` ([`json`]) and, for the wording of status
//! codes only, `reqwest` ([`role_manager`]). So are four functions of the
//! standard library, for lower case, white space and UTF-8 ([`text`]) and for
//! the time ([`clock`]).

pub mod auth;
pub mod clock;
pub mod dao;
pub mod decimal;
pub mod decoder;
pub mod encoding;
pub mod gateway;
pub mod http_handler;
pub mod json;
pub mod model;
pub mod registry;
pub mod role_manager;
pub mod router;
pub mod secrets;
pub mod store;
pub mod subscription;
pub mod text;
