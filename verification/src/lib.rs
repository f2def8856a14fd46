//! The control plane of a call-based tunnel.
pub mod activation;
pub mod admission;
pub mod bridge;
pub mod client_manager;
pub mod client_run;
pub mod daemon;
pub mod mode_loop;
pub mod peer;
pub mod server_manager;
pub mod server_run;
pub mod session;
pub mod signaling;
pub mod text;
pub mod tun;
