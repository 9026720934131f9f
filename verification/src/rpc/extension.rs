use vstd::prelude::*;

verus! {

use super::Display;
use super::response::Response;
use super::service::error::Error;
use super::service::response::IntoResult;
use super::utils::Status;

/// A result list sent by an extension.
#[derive(Debug)]
pub struct DisplayList {
    pub list: Vec<Display>,
}

/// An extension's reply to a search.
#[derive(Debug)]
pub struct SearchResult {
    pub status: Status,
    pub display_list: Option<DisplayList>,
}

/// An extension's reply to a submission.
#[derive(Debug)]
pub struct SubmitResult {
    pub status: Status,
}

impl Response for SearchResult {
    open spec fn spec_ok(&self) -> bool {
        self.status == Status::Success
    }

    fn ok(&self) -> (r: bool) {
        self.status == Status::Success
    }
}

impl Response for SubmitResult {
    open spec fn spec_ok(&self) -> bool {
        self.status == Status::Success
    }

    fn ok(&self) -> (r: bool) {
        self.status == Status::Success
    }
}

impl IntoResult<Vec<Display>> for SearchResult {
    /// A successful search must carry a list.
    open spec fn into_result_req(&self) -> bool {
        self.status == Status::Success ==> self.display_list is Some
    }

    fn into_result(self) -> (r: Result<Vec<Display>, Error>)
        ensures
            self.status == Status::Success ==> r == Ok::<Vec<Display>, Error>(
                self.display_list->0.list,
            ),
            self.status == Status::Failure ==> (r matches Err(e) && e.msg@
                == "search executed but failed"@),
    {
        match self.status {
            Status::Success => match self.display_list {
                Some(dl) => Ok(dl.list),
                None => vstd::pervasive::unreached(),
            },
            Status::Failure => Err(Error::new("search executed but failed".to_owned())),
        }
    }
}

impl IntoResult<()> for SubmitResult {
    open spec fn into_result_req(&self) -> bool {
        true
    }

    fn into_result(self) -> (r: Result<(), Error>)
        ensures
            self.status == Status::Success ==> r is Ok,
            self.status == Status::Failure ==> (r matches Err(e) && e.msg@
                == "submit executed but failed"@),
    {
        match self.status {
            Status::Success => Ok(()),
            Status::Failure => Err(Error::new("submit executed but failed".to_owned())),
        }
    }
}

} // verus!
