//! Core logic of the qst launcher frontend: prompt parsing, the result
//! lists with their scrolling rules, the window's state machine, the message
//! pump between the window and the daemon, the retry rules of the RPC layer
//! and the registry of extensions behind prompts.
use vstd::prelude::*;

pub mod comm;
pub mod connect;
pub mod rpc;
pub mod select;
pub mod src_tauri;
mod transport;
pub mod ui;
pub mod utils;
