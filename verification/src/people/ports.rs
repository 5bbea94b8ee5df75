//! The values exchanged with the people-related API capabilities.
use vstd::prelude::*;

use crate::first_seen::views;
use crate::people::user::{User, UserView};
use crate::shared::{Limit, Offset};

verus! {

/// One page of a user search, as requested from the API.
#[derive(Clone, Copy, Debug, PartialEq, Eq, Structural)]
pub struct UserSearchPageRequest {
    page_size: Limit,
    offset: Offset,
}

impl UserSearchPageRequest {
    pub fn new(page_size: Limit, offset: Offset) -> (r: Self)
        ensures
            r.spec_page_size() == page_size,
            r.spec_offset() == offset,
    {
        UserSearchPageRequest { page_size, offset }
    }

    pub closed spec fn spec_page_size(self) -> Limit {
        self.page_size
    }

    pub closed spec fn spec_offset(self) -> Offset {
        self.offset
    }

    #[verifier::when_used_as_spec(spec_page_size)]
    pub fn page_size(self) -> (r: Limit)
        ensures
            r == self.spec_page_size(),
    {
        self.page_size
    }

    #[verifier::when_used_as_spec(spec_offset)]
    pub fn offset(self) -> (r: Offset)
        ensures
            r == self.spec_offset(),
    {
        self.offset
    }
}

/// One page of user-search results, as the API returned it.
#[derive(PartialEq, Eq)]
pub struct UserSearchPage {
    users: Vec<User>,
    next_offset: Option<Offset>,
}

impl UserSearchPage {
    pub fn new(users: Vec<User>, next_offset: Option<Offset>) -> (r: Self)
        ensures
            r.spec_users() == views(users@),
            r.spec_next_offset() == next_offset,
    {
        UserSearchPage { users, next_offset }
    }

    pub closed spec fn spec_users(&self) -> Seq<UserView> {
        views(self.users@)
    }

    pub closed spec fn spec_next_offset(&self) -> Option<Offset> {
        self.next_offset
    }

    pub fn into_parts(self) -> (r: (Vec<User>, Option<Offset>))
        ensures
            views(r.0@) == self.spec_users(),
            r.1 == self.spec_next_offset(),
    {
        (self.users, self.next_offset)
    }
}

/// One page of a friend list, as requested from the API.
#[derive(Clone, Copy, Debug, PartialEq, Eq, Structural)]
pub struct FriendsPageRequest {
    page_size: Limit,
    offset: Offset,
}

impl FriendsPageRequest {
    pub fn new(page_size: Limit, offset: Offset) -> (r: Self)
        ensures
            r.spec_page_size() == page_size,
            r.spec_offset() == offset,
    {
        FriendsPageRequest { page_size, offset }
    }

    pub closed spec fn spec_page_size(self) -> Limit {
        self.page_size
    }

    pub closed spec fn spec_offset(self) -> Offset {
        self.offset
    }

    #[verifier::when_used_as_spec(spec_page_size)]
    pub fn page_size(self) -> (r: Limit)
        ensures
            r == self.spec_page_size(),
    {
        self.page_size
    }

    #[verifier::when_used_as_spec(spec_offset)]
    pub fn offset(self) -> (r: Offset)
        ensures
            r == self.spec_offset(),
    {
        self.offset
    }
}

/// One page of a friend list, as the API returned it.
#[derive(PartialEq, Eq)]
pub struct FriendsPage {
    users: Vec<User>,
    next_offset: Option<Offset>,
}

impl FriendsPage {
    pub fn new(users: Vec<User>, next_offset: Option<Offset>) -> (r: Self)
        ensures
            r.spec_users() == views(users@),
            r.spec_next_offset() == next_offset,
    {
        FriendsPage { users, next_offset }
    }

    pub closed spec fn spec_users(&self) -> Seq<UserView> {
        views(self.users@)
    }

    pub closed spec fn spec_next_offset(&self) -> Option<Offset> {
        self.next_offset
    }

    pub fn into_parts(self) -> (r: (Vec<User>, Option<Offset>))
        ensures
            views(r.0@) == self.spec_users(),
            r.1 == self.spec_next_offset(),
    {
        (self.users, self.next_offset)
    }
}

} // verus!
