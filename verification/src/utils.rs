use vstd::prelude::*;

verus! {

use crate::rpc::{self, Display};
use crate::ui::{Error, FromServer, Item, ToServer};

/// A value that converts into another value of its own type.
pub trait Convert {
    fn convert(self) -> Self;
}

/// A request that goes to the extension behind a prompt.
#[derive(Debug)]
pub enum ExtRequest {
    Search { content: String },
    Submit { obj_id: u32, hint: Option<String> },
}

/// Where a request of the window goes: answered at once, or sent to the
/// extension behind `prompt`.
#[derive(Debug)]
pub enum Route {
    Reply(FromServer),
    Ext { prompt: String, req: ExtRequest },
}

/// What an extension answered.
#[derive(Debug)]
pub enum ExtReply {
    Search(Vec<Display>),
    Submit,
}

/// The result-list entry shown for an extension's entry `d`.
pub open spec fn item_of(d: Display) -> Item {
    Item { obj_id: d.obj_id, name: d.name, arg_hint: d.hint, icon: None }
}

/// The entries shown for an extension's result list.
pub fn items_from_display(list: Vec<Display>) -> (r: Vec<Item>)
    ensures
        r@ == list@.map_values(|d: Display| item_of(d)),
{
    let ghost all = list@;
    let mut rest = list;
    let mut out: Vec<Item> = Vec::new();
    let ghost mut k: int = 0;
    while rest.len() > 0
        invariant
            0 <= k <= all.len(),
            rest@ == all.skip(k),
            out@ == all.take(k).map_values(|d: Display| item_of(d)),
        decreases rest.len(),
    {
        let d = rest.remove(0);
        proof {
            assert(all.take(k + 1) =~= all.take(k).push(d));
            assert(rest@ =~= all.skip(k + 1));
        }
        let Display { obj_id, name, hint } = d;
        out.push(Item { obj_id, name, arg_hint: hint, icon: None });
        proof {
            assert(out@ =~= all.take(k + 1).map_values(|d: Display| item_of(d)));
            k = k + 1;
        }
    }
    proof {
        assert(all.take(k) =~= all);
    }
    out
}

/// Says where the window's request `ui` goes. A request to connect is
/// answered at once: the connection was made before requests are read.
pub fn route(ui: ToServer) -> (r: Route)
    ensures
        match ui {
            ToServer::Connect(_) => r == Route::Reply(FromServer::Connected),
            ToServer::Search { prompt, content } => r == Route::Ext {
                prompt,
                req: ExtRequest::Search { content },
            },
            ToServer::Submit { prompt, obj_id, hint } => r == Route::Ext {
                prompt,
                req: ExtRequest::Submit { obj_id, hint },
            },
        },
{
    match ui {
        ToServer::Connect(_) => Route::Reply(FromServer::Connected),
        ToServer::Search { prompt, content } => Route::Ext {
            prompt,
            req: ExtRequest::Search { content },
        },
        ToServer::Submit { prompt, obj_id, hint } => Route::Ext {
            prompt,
            req: ExtRequest::Submit { obj_id, hint },
        },
    }
}

/// The window's reply for what the extension behind a prompt answered:
/// `None` when no extension stands behind the prompt.
pub fn convert(outcome: Option<Result<ExtReply, rpc::Error>>) -> (r: Result<FromServer, Error>)
    ensures
        match outcome {
            None => r matches Err(e) && e@ == "no such prompt"@,
            Some(Err(e)) => r matches Err(u) && u@ == e.msg@,
            Some(Ok(ExtReply::Search(list))) => r matches Ok(FromServer::Search(items)) && items@
                == list@.map_values(|d: Display| item_of(d)),
            Some(Ok(ExtReply::Submit)) => r matches Ok(FromServer::Submit),
        },
{
    match outcome {
        None => Err(Error::from("no such prompt")),
        Some(Err(e)) => Err(Error::from(e.msg.as_str())),
        Some(Ok(ExtReply::Search(list))) => Ok(FromServer::Search(items_from_display(list))),
        Some(Ok(ExtReply::Submit)) => Ok(FromServer::Submit),
    }
}

} // verus!
