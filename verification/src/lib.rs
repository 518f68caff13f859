//! Supervision of the bundled web server of the Baklog desktop shell, and
//! safekeeping of the secrets that server runs on.
//!
//! The crate decides and computes, and it talks to the secret vault and to
//! the system's random source. It opens no socket, spawns no process and
//! touches no window: a host program performs those effects and reports back
//! what happened, one event at a time.

pub mod address;
pub mod codec;
pub mod commands;
pub mod credentials;
pub mod failure;
pub mod manager;
pub mod readiness;
pub mod secret;
pub mod supervisor;
pub mod vault;
