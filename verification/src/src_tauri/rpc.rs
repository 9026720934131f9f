use vstd::prelude::*;

pub mod error;
pub mod service;

pub use error::Error;

verus! {

use crate::rpc::Server;

/// Where the lookup of the extension behind a prompt stands: no extension
/// has the prompt, a service to it is open already, or one has to be
/// fetched (its address asked of the daemon).
#[derive(Debug)]
pub enum ExtLookup {
    NoSuchPrompt,
    Cached(String),
    Missing(String),
}

/// Looks up the extension behind `prompt`; a service already open is used
/// as it is.
pub fn lookup<S>(server: &Server<S>, prompt: &str) -> (r: ExtLookup)
    ensures
        !server@.by_prompt.contains_key(prompt@) ==> r is NoSuchPrompt,
        server@.by_prompt.contains_key(prompt@) ==> ({
            let id = server@.by_prompt[prompt@];
            if server@.exts.contains_key(id@) {
                r == ExtLookup::Cached(id)
            } else {
                r == ExtLookup::Missing(id)
            }
        }),
{
    match server.ext_id(prompt) {
        None => ExtLookup::NoSuchPrompt,
        Some(id) => {
            let id = id.clone();
            if server.ext(id.as_str()).is_some() {
                ExtLookup::Cached(id)
            } else {
                ExtLookup::Missing(id)
            }
        },
    }
}

} // verus!
