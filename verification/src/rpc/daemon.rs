use vstd::prelude::*;

verus! {

use vstd::hash_map::StringHashMap;
use super::service::error::Error;
use super::service::response::IntoResult;
use super::utils::Status;

/// The daemon's reply to the set-up request: the running extensions.
pub struct SetUpResult {
    pub status: Status,
    pub running: StringHashMap<String>,
}

/// The daemon's reply to a request for an extension's address.
#[derive(Debug)]
pub struct ExtAddrResult {
    pub status: Status,
    pub addr: String,
}

impl IntoResult<StringHashMap<String>> for SetUpResult {
    open spec fn into_result_req(&self) -> bool {
        true
    }

    fn into_result(self) -> (r: Result<StringHashMap<String>, Error>)
        ensures
            self.status == Status::Success ==> (r matches Ok(m) && m@ == self.running@),
            self.status == Status::Failure ==> (r matches Err(e) && e.msg@
                == "search executed but failed"@),
    {
        match self.status {
            Status::Success => Ok(self.running),
            Status::Failure => Err(Error::new("search executed but failed".to_owned())),
        }
    }
}

impl IntoResult<String> for ExtAddrResult {
    open spec fn into_result_req(&self) -> bool {
        true
    }

    fn into_result(self) -> (r: Result<String, Error>)
        ensures
            self.status == Status::Success ==> r == Ok::<String, Error>(self.addr),
            self.status == Status::Failure ==> (r matches Err(e) && e.msg@
                == "submit executed but failed"@),
    {
        match self.status {
            Status::Success => Ok(self.addr),
            Status::Failure => Err(Error::new("submit executed but failed".to_owned())),
        }
    }
}

} // verus!
