//! Security sidecar core: custody of a construction token and a seal key,
//! one-shot grants, construction tickets, registered frames and the
//! session-authenticated request handler that ties them together.

pub mod auth;
pub mod clock;
pub mod config;
pub mod crypto;
pub mod entropy;
pub mod frames;
pub mod grants;
pub mod protocol;
pub mod server;
pub mod session;
pub mod tickets;

pub use config::Config;
pub use server::Server;
