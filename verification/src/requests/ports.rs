//! The values exchanged with the pending-request listing capability.
use vstd::prelude::*;

use crate::first_seen::views;
use crate::requests::model::{RequestRecord, RequestRecordView};
use crate::shared::{Limit, RequestsBefore};

verus! {

pub open spec fn before_view(b: Option<RequestsBefore>) -> Option<Seq<char>> {
    match b {
        Some(x) => Some(x@),
        None => None,
    }
}

/// One page of pending requests, as requested from the API.
#[derive(Debug, PartialEq, Eq)]
pub struct PendingRequestsPageRequest {
    page_size: Limit,
    before: Option<RequestsBefore>,
}

impl PendingRequestsPageRequest {
    pub closed spec fn spec_page_size(&self) -> Limit {
        self.page_size
    }

    pub closed spec fn spec_before(&self) -> Option<Seq<char>> {
        before_view(self.before)
    }

    pub fn new(page_size: Limit, before: Option<RequestsBefore>) -> (r: Self)
        ensures
            r.spec_page_size() == page_size,
            r.spec_before() == before_view(before),
    {
        PendingRequestsPageRequest { page_size, before }
    }

    pub fn page_size(&self) -> (r: Limit)
        ensures
            r == self.spec_page_size(),
    {
        self.page_size
    }

    pub fn before(&self) -> (r: Option<&RequestsBefore>)
        ensures
            match r {
                Some(b) => self.spec_before() == Some(b@),
                None => self.spec_before() is None,
            },
    {
        match &self.before {
            Some(b) => Some(b),
            None => None,
        }
    }
}

/// One page of pending requests, as the API returned it.
#[derive(PartialEq, Eq)]
pub struct PendingRequestsPage {
    requests: Vec<RequestRecord>,
    next_before: Option<RequestsBefore>,
}

impl PendingRequestsPage {
    pub closed spec fn spec_requests(&self) -> Seq<RequestRecordView> {
        views(self.requests@)
    }

    pub closed spec fn spec_next_before(&self) -> Option<Seq<char>> {
        before_view(self.next_before)
    }

    pub fn new(requests: Vec<RequestRecord>, next_before: Option<RequestsBefore>) -> (r: Self)
        ensures
            r.spec_requests() == views(requests@),
            r.spec_next_before() == before_view(next_before),
    {
        PendingRequestsPage { requests, next_before }
    }

    pub fn into_parts(self) -> (r: (Vec<RequestRecord>, Option<RequestsBefore>))
        ensures
            views(r.0@) == self.spec_requests(),
            before_view(r.1) == self.spec_next_before(),
    {
        (self.requests, self.next_before)
    }
}

} // verus!
