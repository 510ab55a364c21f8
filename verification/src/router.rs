//! The command router: a state machine from interactions and the outcomes of
//! outside work to the next piece of outside work, or to the final reply.
//!
//! The router performs nothing itself. Each step either names one [`Effect`]
//! for the caller to carry out, together with the [`Pending`] state to come
//! back with, or ends the interaction with its one reply.

pub mod command_router;
pub mod interaction_router;
pub mod step;
