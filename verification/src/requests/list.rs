//! Listing pending requests, one source page at a time.
use vstd::prelude::*;

use crate::first_seen::{merge, merge_first_seen, views};
use crate::requests::model::{RequestDirectionFilter, RequestRecord, RequestRecordView};
use crate::requests::ports::{before_view, PendingRequestsPage};
use crate::shared::{
    ApiOperationFailure, CredentialAccessError, Limit, ReadFailureKind, RequestsBefore,
};

verus! {

pub const MORE_REQUESTS_THAN_REQUESTED: &'static str =
    "the API returned more pending requests than requested";

pub const NON_PROGRESSING_BEFORE: &'static str =
    "the API returned a repeated or non-progressing before continuation";

pub const CONFLICTING_REQUEST_RECORDS: &'static str =
    "the API returned conflicting records for one request ID";

/// One page of the pending-request listing, filtered by direction.
#[derive(PartialEq, Eq)]
pub struct RequestsResult {
    requests: Vec<RequestRecord>,
    direction: RequestDirectionFilter,
    next_before: Option<RequestsBefore>,
}

impl RequestsResult {
    pub closed spec fn spec_requests(&self) -> Seq<RequestRecordView> {
        views(self.requests@)
    }

    pub closed spec fn spec_direction(&self) -> RequestDirectionFilter {
        self.direction
    }

    pub closed spec fn spec_next_before(&self) -> Option<Seq<char>> {
        before_view(self.next_before)
    }

    pub fn new(
        requests: Vec<RequestRecord>,
        direction: RequestDirectionFilter,
        next_before: Option<RequestsBefore>,
    ) -> (r: RequestsResult)
        ensures
            r.spec_requests() == views(requests@),
            r.spec_direction() == direction,
            r.spec_next_before() == before_view(next_before),
    {
        RequestsResult { requests, direction, next_before }
    }

    pub fn requests(&self) -> (r: &[RequestRecord])
        ensures
            views(r@) == self.spec_requests(),
    {
        self.requests.as_slice()
    }

    pub fn direction(&self) -> (r: RequestDirectionFilter)
        ensures
            r == self.spec_direction(),
    {
        self.direction
    }

    pub fn next_before(&self) -> (r: Option<&RequestsBefore>)
        ensures
            match r {
                Some(b) => self.spec_next_before() == Some(b@),
                None => self.spec_next_before() is None,
            },
    {
        match &self.next_before {
            Some(b) => Some(b),
            None => None,
        }
    }
}

#[derive(Clone, Debug, PartialEq, Eq)]
pub enum RequestsError {
    Credential(CredentialAccessError),
    Api { source: ApiOperationFailure },
    ResponseContract { problem: &'static str },
}

impl RequestsError {
    pub open spec fn spec_failure_kind(&self) -> ReadFailureKind {
        match self {
            RequestsError::Credential(_) => ReadFailureKind::Credential,
            RequestsError::Api { source } => ReadFailureKind::Api(source.kind),
            RequestsError::ResponseContract { .. } => ReadFailureKind::ResponseContract,
        }
    }

    #[verifier::when_used_as_spec(spec_failure_kind)]
    pub fn failure_kind(&self) -> (r: ReadFailureKind)
        ensures
            r == self.spec_failure_kind(),
    {
        match self {
            RequestsError::Credential(_) => ReadFailureKind::Credential,
            RequestsError::Api { source } => ReadFailureKind::Api(source.kind()),
            RequestsError::ResponseContract { .. } => ReadFailureKind::ResponseContract,
        }
    }
}

/// The records of `s` that the filter keeps, in order.
pub open spec fn filter_direction(s: Seq<RequestRecordView>, direction: RequestDirectionFilter) -> Seq<
    RequestRecordView,
>
    decreases s.len(),
{
    if s.len() == 0 {
        Seq::empty()
    } else if direction.spec_matches(s.last().direction) {
        filter_direction(s.drop_last(), direction).push(s.last())
    } else {
        filter_direction(s.drop_last(), direction)
    }
}

/// A continuation that repeats the cursor it was requested with does not progress.
pub open spec fn before_repeats(current: Option<Seq<char>>, next: Option<Seq<char>>) -> bool {
    next is Some && current == next
}

/// What one page of pending requests amounts to: the buffered records that
/// the filter keeps, or the contract problem that rejects the page.
pub open spec fn requests_page_outcome(
    limit: Limit,
    current: Option<Seq<char>>,
    records: Seq<RequestRecordView>,
    next: Option<Seq<char>>,
    direction: RequestDirectionFilter,
) -> Result<Seq<RequestRecordView>, &'static str> {
    if records.len() > limit.spec_get() {
        Err(MORE_REQUESTS_THAN_REQUESTED)
    } else if before_repeats(current, next) {
        Err(NON_PROGRESSING_BEFORE)
    } else {
        match merge::<RequestRecord>(Seq::empty(), records) {
            Some(m) => Ok(filter_direction(m, direction)),
            None => Err(CONFLICTING_REQUEST_RECORDS),
        }
    }
}

pub fn validate_next_token(current: Option<&RequestsBefore>, next: Option<&RequestsBefore>) -> (r:
    Result<(), RequestsError>)
    ensures
        r is Err <==> (next is Some && match (current, next) {
            (Some(c), Some(n)) => c@ == n@,
            _ => false,
        }),
        r is Err ==> r == Err::<(), RequestsError>(
            RequestsError::ResponseContract { problem: NON_PROGRESSING_BEFORE },
        ),
{
    match (current, next) {
        (Some(c), Some(n)) => {
            if c.same_as(n) {
                return Err(RequestsError::ResponseContract { problem: NON_PROGRESSING_BEFORE });
            }
        },
        _ => {},
    }
    Ok(())
}

pub fn validate_page_len(actual: usize, requested: Limit) -> (r: Result<(), RequestsError>)
    ensures
        r is Err <==> actual > requested.spec_get(),
        r is Err ==> r == Err::<(), RequestsError>(
            RequestsError::ResponseContract { problem: MORE_REQUESTS_THAN_REQUESTED },
        ),
{
    if actual as u64 > requested.get() as u64 {
        return Err(RequestsError::ResponseContract { problem: MORE_REQUESTS_THAN_REQUESTED });
    }
    Ok(())
}

/// Buffers one page under the first-seen rule, then keeps the records that
/// the direction filter matches.
pub fn buffer_and_filter(page: Vec<RequestRecord>, direction: RequestDirectionFilter) -> (r: Result<
    Vec<RequestRecord>,
    RequestsError,
>)
    ensures
        match merge::<RequestRecord>(Seq::empty(), views(page@)) {
            Some(m) => r is Ok && views(r->Ok_0@) == filter_direction(m, direction),
            None => r == Err::<Vec<RequestRecord>, RequestsError>(
                RequestsError::ResponseContract { problem: CONFLICTING_REQUEST_RECORDS },
            ),
        },
{
    let mut requests: Vec<RequestRecord> = Vec::new();
    proof {
        assert(views(requests@) =~= Seq::<RequestRecordView>::empty());
    }
    if !merge_first_seen(&page, &mut requests) {
        return Err(RequestsError::ResponseContract { problem: CONFLICTING_REQUEST_RECORDS });
    }
    let mut kept: Vec<RequestRecord> = Vec::new();
    let mut i: usize = 0;
    while i < requests.len()
        invariant
            i <= requests@.len(),
            views(kept@) == filter_direction(views(requests@).take(i as int), direction),
        decreases requests@.len() - i,
    {
        proof {
            assert(views(requests@).take(i + 1).drop_last() =~= views(requests@).take(i as int));
            assert(views(requests@).take(i + 1).last() == requests@[i as int]@);
        }
        if direction.matches(requests[i].direction()) {
            let copy = requests[i].clone();
            let ghost before = views(kept@);
            kept.push(copy);
            proof {
                assert(views(kept@) =~= before.push(requests@[i as int]@));
            }
        }
        i = i + 1;
    }
    proof {
        assert(views(requests@).take(requests@.len() as int) =~= views(requests@));
    }
    Ok(kept)
}

/// Turns the page that the API returned for one listing request into the
/// listing result, or the contract problem that rejects it.
pub fn finish_requests_page(
    limit: Limit,
    before: Option<&RequestsBefore>,
    direction: RequestDirectionFilter,
    page: PendingRequestsPage,
) -> (r: Result<RequestsResult, RequestsError>)
    ensures
        match requests_page_outcome(
            limit,
            match before {
                Some(b) => Some(b@),
                None => None,
            },
            page.spec_requests(),
            page.spec_next_before(),
            direction,
        ) {
            Ok(kept) => r is Ok && r->Ok_0.spec_requests() == kept && r->Ok_0.spec_direction()
                == direction && r->Ok_0.spec_next_before() == page.spec_next_before(),
            Err(problem) => r == Err::<RequestsResult, RequestsError>(
                RequestsError::ResponseContract { problem },
            ),
        },
{
    let (page_requests, next_token) = page.into_parts();
    validate_page_len(page_requests.len(), limit)?;
    let next_ref = match &next_token {
        Some(n) => Some(n),
        None => None,
    };
    validate_next_token(before, next_ref)?;
    let requests = buffer_and_filter(page_requests, direction)?;
    Ok(RequestsResult::new(requests, direction, next_token))
}


/// Listing every direction keeps every record of the page, in order.
pub proof fn lemma_filter_all_keeps_page(s: Seq<RequestRecordView>)
    ensures
        filter_direction(s, RequestDirectionFilter::All) == s,
    decreases s.len(),
{
    if s.len() > 0 {
        lemma_filter_all_keeps_page(s.drop_last());
        assert(s.drop_last().push(s.last()) =~= s);
    }
}

/// The filter keeps exactly the records of the page whose direction it
/// matches, and never more records than the page has.
pub proof fn lemma_filter_keeps_exactly_matching(
    s: Seq<RequestRecordView>,
    direction: RequestDirectionFilter,
)
    ensures
        forall|x: RequestRecordView| #[trigger]
            filter_direction(s, direction).contains(x) ==> s.contains(x) && direction.spec_matches(
                x.direction,
            ),
        forall|x: RequestRecordView|
            #[trigger] s.contains(x) && direction.spec_matches(x.direction) ==> filter_direction(
                s,
                direction,
            ).contains(x),
        filter_direction(s, direction).len() <= s.len(),
    decreases s.len(),
{
    broadcast use vstd::seq_lib::group_seq_properties;

    if s.len() > 0 {
        let front = s.drop_last();
        let kept = filter_direction(front, direction);
        lemma_filter_keeps_exactly_matching(front, direction);
        assert(front.push(s.last()) =~= s);
        assert forall|x: RequestRecordView| #[trigger]
            filter_direction(s, direction).contains(x) implies s.contains(x)
            && direction.spec_matches(x.direction) by {
            assert(kept.push(s.last()).contains(x) == (kept.contains(x) || x == s.last()));
            assert(front.push(s.last()).contains(x) == (front.contains(x) || x == s.last()));
        }
        assert forall|x: RequestRecordView|
            #[trigger] s.contains(x) && direction.spec_matches(x.direction) implies filter_direction(
                s,
                direction,
            ).contains(x) by {
            assert(kept.push(s.last()).contains(x) == (kept.contains(x) || x == s.last()));
            assert(front.push(s.last()).contains(x) == (front.contains(x) || x == s.last()));
        }
    }
}

} // verus!
