//! User search: one public page at a time, or an exhaustive bounded search
//! used to resolve exact usernames.
use vstd::prelude::*;

use crate::first_seen::{
    lemma_merge_concat, lemma_merge_keeps_keys_unique, lemma_merge_len, merge, merge_first_seen,
    unique_keys, views,
};
use crate::people::ports::{UserSearchPage, UserSearchPageRequest};
use crate::people::user::{User, UserView};
use crate::shared::{ApiFailureKind, ApiOperationFailure, CredentialAccessError, Limit, Offset};

verus! {

pub const EXHAUSTIVE_PAGE_SIZE: u32 = 50;

pub const MAX_EXHAUSTIVE_PAGE_REQUESTS: u8 = 4;

pub const MAX_EXHAUSTIVE_USER_SEARCH_RESULTS: u32 = 200;

pub const MORE_USERS_THAN_REQUESTED: &'static str = "the API returned more users than requested";

pub const NON_PROGRESSING_OFFSET: &'static str =
    "the API returned a repeated or non-progressing continuation offset";

pub const EMPTY_PAGE_WITH_CONTINUATION: &'static str =
    "the API returned an empty page with a continuation offset";

pub const CONFLICTING_USER_RECORDS: &'static str = "the API returned conflicting records for one user ID";

pub const CONTINUATION_WITHOUT_NEW_USERS: &'static str =
    "the API returned a continuation page with no new users";

/// One page of public search results.
#[derive(PartialEq, Eq)]
pub struct UserSearchResult {
    users: Vec<User>,
    next_offset: Option<Offset>,
}

impl UserSearchResult {
    pub fn new(users: Vec<User>, next_offset: Option<Offset>) -> (r: Self)
        ensures
            r.spec_users() == views(users@),
            r.spec_next_offset() == next_offset,
    {
        UserSearchResult { users, next_offset }
    }

    pub closed spec fn spec_users(&self) -> Seq<UserView> {
        views(self.users@)
    }

    pub closed spec fn spec_next_offset(&self) -> Option<Offset> {
        self.next_offset
    }

    pub fn users(&self) -> (r: &[User])
        ensures
            views(r@) == self.spec_users(),
    {
        self.users.as_slice()
    }

    #[verifier::when_used_as_spec(spec_next_offset)]
    pub fn next_offset(&self) -> (r: Option<Offset>)
        ensures
            r == self.spec_next_offset(),
    {
        self.next_offset
    }
}

/// The users collected by an exhaustive search.
#[derive(PartialEq, Eq)]
pub struct ExhaustiveUserSearchResult {
    users: Vec<User>,
}

impl ExhaustiveUserSearchResult {
    pub closed spec fn spec_users(&self) -> Seq<UserView> {
        views(self.users@)
    }

    pub fn users(&self) -> (r: &[User])
        ensures
            views(r@) == self.spec_users(),
    {
        self.users.as_slice()
    }
}

#[derive(Clone, Copy, Debug, PartialEq, Eq, Structural)]
pub enum UserSearchFailureKind {
    Credential,
    Api(ApiFailureKind),
    ResponseContract,
    Internal,
}

#[derive(Clone, Debug, PartialEq, Eq)]
pub enum UserSearchError {
    Credential(CredentialAccessError),
    Api { source: ApiOperationFailure },
    ResponseContract { problem: &'static str },
    Internal { problem: &'static str },
}

impl UserSearchError {
    pub open spec fn spec_failure_kind(&self) -> UserSearchFailureKind {
        match self {
            UserSearchError::Credential(_) => UserSearchFailureKind::Credential,
            UserSearchError::Api { source } => UserSearchFailureKind::Api(source.kind),
            UserSearchError::ResponseContract { .. } => UserSearchFailureKind::ResponseContract,
            UserSearchError::Internal { .. } => UserSearchFailureKind::Internal,
        }
    }

    #[verifier::when_used_as_spec(spec_failure_kind)]
    pub fn failure_kind(&self) -> (r: UserSearchFailureKind)
        ensures
            r == self.spec_failure_kind(),
    {
        match self {
            UserSearchError::Credential(_) => UserSearchFailureKind::Credential,
            UserSearchError::Api { source } => UserSearchFailureKind::Api(source.kind()),
            UserSearchError::ResponseContract { .. } => UserSearchFailureKind::ResponseContract,
            UserSearchError::Internal { .. } => UserSearchFailureKind::Internal,
        }
    }
}

/// The next offset, when there is one, must lie beyond the current offset.
pub open spec fn offset_regresses(current: Offset, next: Option<Offset>) -> bool {
    match next {
        Some(n) => n.spec_get() <= current.spec_get(),
        None => false,
    }
}

/// What one public page of search results amounts to: the buffered users,
/// or the contract problem that rejects the page.
pub open spec fn public_page_outcome(
    limit: Limit,
    offset: Offset,
    users: Seq<UserView>,
    next: Option<Offset>,
) -> Result<Seq<UserView>, &'static str> {
    if users.len() > limit.spec_get() {
        Err(MORE_USERS_THAN_REQUESTED)
    } else if offset_regresses(offset, next) {
        Err(NON_PROGRESSING_OFFSET)
    } else if users.len() == 0 && next is Some {
        Err(EMPTY_PAGE_WITH_CONTINUATION)
    } else {
        match merge::<User>(Seq::empty(), users) {
            Some(u) => Ok(u),
            None => Err(CONFLICTING_USER_RECORDS),
        }
    }
}

pub fn validate_next_offset(current: Offset, next: Option<Offset>) -> (r: Result<(), UserSearchError>)
    ensures
        r is Err <==> offset_regresses(current, next),
        r is Err ==> r == Err::<(), UserSearchError>(
            UserSearchError::ResponseContract { problem: NON_PROGRESSING_OFFSET },
        ),
{
    match next {
        Some(n) => {
            if n.get() <= current.get() {
                return Err(UserSearchError::ResponseContract { problem: NON_PROGRESSING_OFFSET });
            }
        },
        None => {},
    }
    Ok(())
}

pub fn validate_page_len(actual: usize, requested: Limit) -> (r: Result<(), UserSearchError>)
    ensures
        r is Err <==> actual > requested.spec_get(),
        r is Err ==> r == Err::<(), UserSearchError>(
            UserSearchError::ResponseContract { problem: MORE_USERS_THAN_REQUESTED },
        ),
{
    if actual as u64 > requested.get() as u64 {
        return Err(UserSearchError::ResponseContract { problem: MORE_USERS_THAN_REQUESTED });
    }
    Ok(())
}

/// Buffers one page of users under the first-seen rule.
pub fn buffer_public_page(page_users: Vec<User>) -> (r: Result<Vec<User>, UserSearchError>)
    ensures
        match merge::<User>(Seq::empty(), views(page_users@)) {
            Some(u) => r is Ok && views(r->Ok_0@) == u,
            None => r == Err::<Vec<User>, UserSearchError>(
                UserSearchError::ResponseContract { problem: CONFLICTING_USER_RECORDS },
            ),
        },
{
    let mut users: Vec<User> = Vec::new();
    proof {
        assert(views(users@) =~= Seq::<UserView>::empty());
    }
    merge_users(&page_users, &mut users)?;
    Ok(users)
}

/// Merges one page of users into the users collected so far.
pub fn merge_users(page_users: &Vec<User>, users: &mut Vec<User>) -> (r: Result<(), UserSearchError>)
    requires
        unique_keys::<User>(views(old(users)@)),
    ensures
        match merge::<User>(views(old(users)@), views(page_users@)) {
            Some(u) => r is Ok && views(final(users)@) == u,
            None => r == Err::<(), UserSearchError>(
                UserSearchError::ResponseContract { problem: CONFLICTING_USER_RECORDS },
            ),
        },
{
    if merge_first_seen(page_users, users) {
        Ok(())
    } else {
        Err(UserSearchError::ResponseContract { problem: CONFLICTING_USER_RECORDS })
    }
}

/// Turns the page that the API returned for one public search request into
/// the search result, or the contract problem that rejects it.
pub fn finish_public_page(limit: Limit, offset: Offset, page: UserSearchPage) -> (r: Result<
    UserSearchResult,
    UserSearchError,
>)
    ensures
        match public_page_outcome(limit, offset, page.spec_users(), page.spec_next_offset()) {
            Ok(u) => r is Ok && r->Ok_0.spec_users() == u && r->Ok_0.spec_next_offset()
                == page.spec_next_offset(),
            Err(problem) => r == Err::<UserSearchResult, UserSearchError>(
                UserSearchError::ResponseContract { problem },
            ),
        },
{
    let (page_users, next_token) = page.into_parts();
    validate_page_len(page_users.len(), limit)?;
    validate_next_offset(offset, next_token)?;
    if page_users.len() == 0 && next_token.is_some() {
        return Err(UserSearchError::ResponseContract { problem: EMPTY_PAGE_WITH_CONTINUATION });
    }
    let users = buffer_public_page(page_users)?;
    Ok(UserSearchResult::new(users, next_token))
}

// ---------------------------------------------------------------------------
// Exhaustive search
// ---------------------------------------------------------------------------

/// The size of the next exhaustive-search page once `collected` users are
/// held: what is left of the result bound, at most one native page.
pub open spec fn exhaustive_page_size(collected: nat) -> nat {
    let left = MAX_EXHAUSTIVE_USER_SEARCH_RESULTS - collected;
    if left < EXHAUSTIVE_PAGE_SIZE {
        left as nat
    } else {
        EXHAUSTIVE_PAGE_SIZE as nat
    }
}

/// What the exhaustive search does with one page.
pub enum ExhaustiveStepView {
    /// The page breaks the response contract.
    Reject(&'static str),
    /// The search is complete with these users.
    Finish(Seq<UserView>),
    /// The search continues at this offset, holding these users.
    Proceed(Seq<UserView>, Offset),
}

/// The exhaustive-search step: given the users held so far, the offset and
/// size of the page requested and the number of pages requested, what one
/// returned page leads to.
pub open spec fn exhaustive_step(
    held: Seq<UserView>,
    offset: Offset,
    page_size: nat,
    pages: nat,
    page_users: Seq<UserView>,
    next: Option<Offset>,
) -> ExhaustiveStepView {
    if page_users.len() > page_size {
        ExhaustiveStepView::Reject(MORE_USERS_THAN_REQUESTED)
    } else if offset_regresses(offset, next) {
        ExhaustiveStepView::Reject(NON_PROGRESSING_OFFSET)
    } else if page_users.len() == 0 {
        if next is Some {
            ExhaustiveStepView::Reject(EMPTY_PAGE_WITH_CONTINUATION)
        } else {
            ExhaustiveStepView::Finish(held)
        }
    } else {
        match merge::<User>(held, page_users) {
            None => ExhaustiveStepView::Reject(CONFLICTING_USER_RECORDS),
            Some(merged) => {
                if merged.len() == held.len() && next is Some {
                    ExhaustiveStepView::Reject(CONTINUATION_WITHOUT_NEW_USERS)
                } else {
                    match next {
                        None => ExhaustiveStepView::Finish(merged),
                        Some(n) => {
                            if merged.len() >= MAX_EXHAUSTIVE_USER_SEARCH_RESULTS || pages
                                >= MAX_EXHAUSTIVE_PAGE_REQUESTS {
                                ExhaustiveStepView::Finish(merged)
                            } else {
                                ExhaustiveStepView::Proceed(merged, n)
                            }
                        },
                    }
                }
            },
        }
    }
}

/// An exhaustive user search in progress: the users collected so far and
/// the page last requested.
pub struct ExhaustiveUserSearch {
    users: Vec<User>,
    offset: Offset,
    pages: u8,
    page_size: u32,
}

/// What follows one page of an exhaustive search.
pub enum ExhaustiveProgress {
    /// Request this page next.
    Continue(ExhaustiveUserSearch, UserSearchPageRequest),
    /// The search is complete.
    Finished(ExhaustiveUserSearchResult),
}

impl ExhaustiveUserSearch {
    pub closed spec fn spec_users(&self) -> Seq<UserView> {
        views(self.users@)
    }

    pub closed spec fn spec_offset(&self) -> Offset {
        self.offset
    }

    /// The number of pages requested so far, the outstanding one included.
    pub closed spec fn spec_pages(&self) -> nat {
        self.pages as nat
    }

    pub closed spec fn spec_page_size(&self) -> nat {
        self.page_size as nat
    }

    /// At most four pages are ever requested, fewer than two hundred users
    /// are held while the search goes on, no two of them share an ID, and
    /// the outstanding page is sized by what the bound leaves.
    #[verifier::type_invariant]
    pub open spec fn wf(&self) -> bool {
        &&& 1 <= self.spec_pages() <= MAX_EXHAUSTIVE_PAGE_REQUESTS
        &&& self.spec_users().len() < MAX_EXHAUSTIVE_USER_SEARCH_RESULTS
        &&& unique_keys::<User>(self.spec_users())
        &&& self.spec_page_size() == exhaustive_page_size(self.spec_users().len())
    }

    /// Starts a search: no users held and the first page requested.
    pub fn start() -> (r: (ExhaustiveUserSearch, UserSearchPageRequest))
        ensures
            r.0.spec_users() == Seq::<UserView>::empty(),
            r.0.spec_offset().spec_get() == 0,
            r.0.spec_offset() == Offset::spec_start(),
            r.0.spec_pages() == 1,
            r.1.spec_offset() == r.0.spec_offset(),
            r.1.spec_page_size().spec_get() == EXHAUSTIVE_PAGE_SIZE,
            r.0.spec_page_size() == EXHAUSTIVE_PAGE_SIZE,
    {
        let users: Vec<User> = Vec::new();
        proof {
            assert(views(users@) =~= Seq::<UserView>::empty());
        }
        let limit = Limit::from_positive(EXHAUSTIVE_PAGE_SIZE);
        let offset = Offset::default();
        let state = ExhaustiveUserSearch {
            users,
            offset,
            pages: 1,
            page_size: EXHAUSTIVE_PAGE_SIZE,
        };
        (state, UserSearchPageRequest::new(limit, offset))
    }

    /// Takes the page that the API returned for the outstanding request.
    pub fn receive(self, page: UserSearchPage) -> (r: Result<ExhaustiveProgress, UserSearchError>)
        ensures
            match exhaustive_step(
                self.spec_users(),
                self.spec_offset(),
                self.spec_page_size(),
                self.spec_pages(),
                page.spec_users(),
                page.spec_next_offset(),
            ) {
                ExhaustiveStepView::Reject(problem) => r == Err::<ExhaustiveProgress, UserSearchError>(
                    UserSearchError::ResponseContract { problem },
                ),
                ExhaustiveStepView::Finish(users) => r matches Ok(
                    ExhaustiveProgress::Finished(res),
                ) && res.spec_users() == users,
                _ => true,
            },
            forall|rest: Seq<SearchAnswer>|
                #[trigger] exhaustive_run_from(
                    self.spec_users(),
                    self.spec_offset(),
                    self.spec_pages(),
                    seq![page_answer(page)] + rest,
                ) == run_after(r, self.spec_pages(), rest),
            r matches Ok(ExhaustiveProgress::Finished(res)) ==> res.spec_users().len()
                <= MAX_EXHAUSTIVE_USER_SEARCH_RESULTS && unique_keys::<User>(res.spec_users()),
            r matches Ok(ExhaustiveProgress::Continue(state, _)) ==> state.spec_pages()
                <= MAX_EXHAUSTIVE_PAGE_REQUESTS && unique_keys::<User>(state.spec_users()),
            match exhaustive_step(
                self.spec_users(),
                self.spec_offset(),
                self.spec_page_size(),
                self.spec_pages(),
                page.spec_users(),
                page.spec_next_offset(),
            ) {
                ExhaustiveStepView::Proceed(users, next) => r matches Ok(
                    ExhaustiveProgress::Continue(state, request),
                ) && state.spec_users() == users && state.spec_offset() == next
                    && state.spec_pages() == self.spec_pages() + 1 && request.spec_offset() == next
                    && request.spec_page_size().spec_get() == state.spec_page_size(),
                _ => true,
            },
    {
        proof {
            use_type_invariant(&self);
            assert forall|rest: Seq<SearchAnswer>|
                #[trigger] exhaustive_run_from(
                    self.spec_users(),
                    self.spec_offset(),
                    self.spec_pages(),
                    seq![page_answer(page)] + rest,
                ) == match exhaustive_step(
                    self.spec_users(),
                    self.spec_offset(),
                    self.spec_page_size(),
                    self.spec_pages(),
                    page.spec_users(),
                    page.spec_next_offset(),
                ) {
                    ExhaustiveStepView::Reject(problem) => ExhaustiveRun::Rejected(problem),
                    ExhaustiveStepView::Finish(users) => ExhaustiveRun::Finished(
                        users,
                        self.spec_pages(),
                    ),
                    ExhaustiveStepView::Proceed(users, next) => exhaustive_run_from(
                        users,
                        next,
                        self.spec_pages() + 1,
                        rest,
                    ),
                } by {
                lemma_run_first_answer(
                    self.spec_users(),
                    self.spec_offset(),
                    self.spec_pages(),
                    page_answer(page),
                    rest,
                );
            }
        }
        let ExhaustiveUserSearch { mut users, offset, pages, page_size } = self;
        let (page_users, next_token) = page.into_parts();
        if page_users.len() as u64 > page_size as u64 {
            return Err(UserSearchError::ResponseContract { problem: MORE_USERS_THAN_REQUESTED });
        }
        validate_next_offset(offset, next_token)?;
        if page_users.len() == 0 {
            if next_token.is_some() {
                return Err(
                    UserSearchError::ResponseContract { problem: EMPTY_PAGE_WITH_CONTINUATION },
                );
            }
            return Ok(ExhaustiveProgress::Finished(ExhaustiveUserSearchResult { users }));
        }
        let previous_len = users.len();
        let ghost held = views(users@);
        merge_users(&page_users, &mut users)?;
        proof {
            lemma_merge_keeps_keys_unique::<User>(held, views(page_users@));
            lemma_merge_len::<User>(held, views(page_users@));
        }
        if users.len() == previous_len && next_token.is_some() {
            return Err(UserSearchError::ResponseContract { problem: CONTINUATION_WITHOUT_NEW_USERS });
        }
        let next = match next_token {
            None => {
                return Ok(ExhaustiveProgress::Finished(ExhaustiveUserSearchResult { users }));
            },
            Some(n) => n,
        };
        if users.len() as u64 >= MAX_EXHAUSTIVE_USER_SEARCH_RESULTS as u64 || pages
            >= MAX_EXHAUSTIVE_PAGE_REQUESTS {
            return Ok(ExhaustiveProgress::Finished(ExhaustiveUserSearchResult { users }));
        }
        let collected = users.len() as u32;
        let left = MAX_EXHAUSTIVE_USER_SEARCH_RESULTS - collected;
        let next_size = if left < EXHAUSTIVE_PAGE_SIZE {
            left
        } else {
            EXHAUSTIVE_PAGE_SIZE
        };
        let limit = Limit::from_positive(next_size);
        let state = ExhaustiveUserSearch { users, offset: next, pages: pages + 1, page_size: next_size };
        Ok(ExhaustiveProgress::Continue(state, UserSearchPageRequest::new(limit, next)))
    }
}


/// The answer to one page request of a search: the users returned and the
/// continuation offset.
pub struct SearchAnswer {
    pub users: Seq<UserView>,
    pub next: Option<Offset>,
}

/// Where an exhaustive search stands after a sequence of answers.
pub enum ExhaustiveRun {
    /// An answer broke the response contract.
    Rejected(&'static str),
    /// The search ended with these users, after this many page requests.
    Finished(Seq<UserView>, nat),
    /// The answers ran out before the search ended.
    Waiting,
}

/// The search that holds `held`, has requested `pages` pages and awaits the
/// page at `offset`, fed the answers in order: each answer is taken by the
/// exhaustive-search step, and the next page is requested at the
/// continuation offset, sized by what the bound leaves.
pub open spec fn exhaustive_run_from(
    held: Seq<UserView>,
    offset: Offset,
    pages: nat,
    answers: Seq<SearchAnswer>,
) -> ExhaustiveRun
    decreases answers.len(),
{
    if answers.len() == 0 {
        ExhaustiveRun::Waiting
    } else {
        match exhaustive_step(
            held,
            offset,
            exhaustive_page_size(held.len()),
            pages,
            answers[0].users,
            answers[0].next,
        ) {
            ExhaustiveStepView::Reject(problem) => ExhaustiveRun::Rejected(problem),
            ExhaustiveStepView::Finish(users) => ExhaustiveRun::Finished(users, pages),
            ExhaustiveStepView::Proceed(users, next) => exhaustive_run_from(
                users,
                next,
                pages + 1,
                answers.drop_first(),
            ),
        }
    }
}

/// A whole exhaustive search fed the answers in order, from its start: no
/// users, the first record, one page requested.
pub open spec fn exhaustive_run(answers: Seq<SearchAnswer>) -> ExhaustiveRun {
    exhaustive_run_from(Seq::empty(), Offset::spec_start(), 1, answers)
}

/// The users of the first `k` answers, joined in order.
pub open spec fn answered_users(answers: Seq<SearchAnswer>, k: nat) -> Seq<UserView>
    decreases k,
{
    if k == 0 || answers.len() == 0 {
        Seq::empty()
    } else {
        answers[0].users + answered_users(answers.drop_first(), (k - 1) as nat)
    }
}

proof fn lemma_exhaustive_run_from(
    held: Seq<UserView>,
    offset: Offset,
    pages: nat,
    answers: Seq<SearchAnswer>,
)
    requires
        unique_keys::<User>(held),
        held.len() < MAX_EXHAUSTIVE_USER_SEARCH_RESULTS,
        1 <= pages <= MAX_EXHAUSTIVE_PAGE_REQUESTS,
    ensures
        match exhaustive_run_from(held, offset, pages, answers) {
            ExhaustiveRun::Finished(users, k) => {
                &&& pages <= k <= MAX_EXHAUSTIVE_PAGE_REQUESTS
                &&& k - pages < answers.len()
                &&& unique_keys::<User>(users)
                &&& users.len() <= MAX_EXHAUSTIVE_USER_SEARCH_RESULTS
                &&& merge::<User>(held, answered_users(answers, (k - pages + 1) as nat)) == Some(
                    users,
                )
            },
            ExhaustiveRun::Waiting => pages + answers.len() <= MAX_EXHAUSTIVE_PAGE_REQUESTS,
            ExhaustiveRun::Rejected(_) => true,
        },
    decreases answers.len(),
{
    if answers.len() > 0 {
        let a = answers[0];
        let size = exhaustive_page_size(held.len());
        assert(answered_users(answers.drop_first(), 0) =~= Seq::<UserView>::empty());
        assert(a.users + Seq::<UserView>::empty() =~= a.users);
        if a.users.len() <= size && !offset_regresses(offset, a.next) && a.users.len() > 0 {
            if let Some(merged) = merge::<User>(held, a.users) {
                lemma_merge_keeps_keys_unique::<User>(held, a.users);
                lemma_merge_len::<User>(held, a.users);
                match exhaustive_step(held, offset, size, pages, a.users, a.next) {
                    ExhaustiveStepView::Proceed(users, next) => {
                        let rest = answers.drop_first();
                        lemma_exhaustive_run_from(users, next, pages + 1, rest);
                        match exhaustive_run_from(users, next, pages + 1, rest) {
                            ExhaustiveRun::Finished(u, k) => {
                                let j = (k - (pages + 1) + 1) as nat;
                                assert(answered_users(answers, (k - pages + 1) as nat)
                                    == a.users + answered_users(rest, j));
                                lemma_merge_concat::<User>(held, a.users, answered_users(rest, j));
                            },
                            _ => {},
                        }
                    },
                    _ => {},
                }
            }
        }
    }
}

/// What an exhaustive search does with the answers it is given: it never
/// requests more than four pages, so it ends by the fourth answer; when it
/// ends with users, it has used only the answers up to that point, and the
/// users are the users of those answers joined in order under the first-seen
/// rule (exact repeats dropped), no two with one ID and at most two hundred.
pub proof fn lemma_exhaustive_run(answers: Seq<SearchAnswer>)
    ensures
        answers.len() >= MAX_EXHAUSTIVE_PAGE_REQUESTS ==> !(exhaustive_run(answers) is Waiting),
        match exhaustive_run(answers) {
            ExhaustiveRun::Finished(users, k) => {
                &&& 1 <= k <= MAX_EXHAUSTIVE_PAGE_REQUESTS
                &&& k <= answers.len()
                &&& merge::<User>(Seq::empty(), answered_users(answers, k)) == Some(users)
                &&& unique_keys::<User>(users)
                &&& users.len() <= MAX_EXHAUSTIVE_USER_SEARCH_RESULTS
            },
            _ => true,
        },
{
    lemma_exhaustive_run_from(Seq::empty(), Offset::spec_start(), 1, answers);
}


/// A returned page as an answer of the search.
pub open spec fn page_answer(page: UserSearchPage) -> SearchAnswer {
    SearchAnswer { users: page.spec_users(), next: page.spec_next_offset() }
}

/// Where the search stands, after one step with result `r` taken by a search
/// that had requested `pages` pages, once it is fed the answers `rest`.
pub open spec fn run_after(
    r: Result<ExhaustiveProgress, UserSearchError>,
    pages: nat,
    rest: Seq<SearchAnswer>,
) -> ExhaustiveRun {
    match r {
        Ok(ExhaustiveProgress::Continue(state, _)) => exhaustive_run_from(
            state.spec_users(),
            state.spec_offset(),
            state.spec_pages(),
            rest,
        ),
        Ok(ExhaustiveProgress::Finished(result)) => ExhaustiveRun::Finished(result.spec_users(), pages),
        Err(UserSearchError::ResponseContract { problem }) => ExhaustiveRun::Rejected(problem),
        Err(_) => ExhaustiveRun::Waiting,
    }
}

proof fn lemma_run_first_answer(
    held: Seq<UserView>,
    offset: Offset,
    pages: nat,
    answer: SearchAnswer,
    rest: Seq<SearchAnswer>,
)
    ensures
        exhaustive_run_from(held, offset, pages, seq![answer] + rest) == match exhaustive_step(
            held,
            offset,
            exhaustive_page_size(held.len()),
            pages,
            answer.users,
            answer.next,
        ) {
            ExhaustiveStepView::Reject(problem) => ExhaustiveRun::Rejected(problem),
            ExhaustiveStepView::Finish(users) => ExhaustiveRun::Finished(users, pages),
            ExhaustiveStepView::Proceed(users, next) => exhaustive_run_from(
                users,
                next,
                pages + 1,
                rest,
            ),
        },
{
    assert((seq![answer] + rest)[0] == answer);
    assert((seq![answer] + rest).drop_first() =~= rest);
}

} // verus!
