//! Capture of terminal sessions into named logs, and the read-only views of
//! those logs that a gateway serves.

pub mod capture;
pub mod cli;
pub mod gateway;
pub mod launch;
pub mod page;
pub mod session;
pub mod text;
