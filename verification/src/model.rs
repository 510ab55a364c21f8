//! Wire-level data: what an interaction carries and what is answered.

pub mod interaction_request;
pub mod interaction_response;
