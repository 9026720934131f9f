//! The logic of the desktop (webview) frontend.
pub mod rpc;
pub mod server;
