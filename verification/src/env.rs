//! The server's configuration and its shared request state.
pub mod app;
pub mod state;
