//! How the registry and the subscriptions are laid out in the store: which
//! request stands for each operation, and how the items that come back are
//! read.

pub mod guild_dao;
pub mod payment_dao;
pub mod role_db;
pub mod subscription;
