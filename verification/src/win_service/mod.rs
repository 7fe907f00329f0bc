//! The authentication service behind the named pipe.
pub mod auth;
pub mod com_types;
pub mod audit;
pub mod pipe_server;
pub mod service_state;
