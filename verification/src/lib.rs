//! A node agent's core: the operations a pod backend offers, the table that
//! maps HTTP requests to them, and the policy that turns each outcome into a
//! response.

pub mod config;
pub mod dispatch;
pub mod error;
pub mod history;
pub mod memory;
pub mod pod;
pub mod provider;
pub mod route;
pub mod server;
pub mod state;
pub mod text;

