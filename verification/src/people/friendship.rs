//! Adding and removing friends: the state a target is in decides the one
//! action that is allowed, and the write's reply must prove that action.
use vstd::prelude::*;

use crate::confirmation::DefaultNoConfirmationError;
use crate::people::lookup::UserLookupError;
use crate::people::user::{FriendshipStatus, User, UserProfileKind, UserView};
use crate::shared::{
    Account, ApiFailureKind, ApiOperationFailure, ApplicationFailureKind, CredentialAccessError,
    CredentialEnvelope, PromptFailure, UserId,
};

verus! {

pub const DIFFERENT_VERIFIED_USER: &'static str = "the verified result identified a different user";

pub const UNMATCHED_VERIFIED_STATUS: &'static str =
    "the verified relationship did not match the requested action";

#[derive(Clone, Copy, Debug, PartialEq, Eq, Structural)]
pub enum FriendshipIntent {
    Add,
    Remove,
}

#[derive(Clone, Copy, Debug, PartialEq, Eq, Structural)]
pub enum FriendshipAction {
    SendRequest,
    AcceptRequest,
    Unfriend,
    CancelRequest,
}

impl FriendshipAction {
    pub open spec fn spec_label(self) -> Seq<char> {
        match self {
            FriendshipAction::SendRequest => "send friend request"@,
            FriendshipAction::AcceptRequest => "accept incoming friend request"@,
            FriendshipAction::Unfriend => "remove established friend"@,
            FriendshipAction::CancelRequest => "cancel outgoing friend request"@,
        }
    }

    pub fn label(self) -> (r: &'static str)
        ensures
            r@ == self.spec_label(),
    {
        match self {
            FriendshipAction::SendRequest => "send friend request",
            FriendshipAction::AcceptRequest => "accept incoming friend request",
            FriendshipAction::Unfriend => "remove established friend",
            FriendshipAction::CancelRequest => "cancel outgoing friend request",
        }
    }

    /// The relationship that the action establishes.
    pub open spec fn spec_expected_status(self) -> FriendshipStatus {
        match self {
            FriendshipAction::SendRequest => FriendshipStatus::RequestSent,
            FriendshipAction::AcceptRequest => FriendshipStatus::Friend,
            FriendshipAction::Unfriend => FriendshipStatus::NotFriend,
            FriendshipAction::CancelRequest => FriendshipStatus::NotFriend,
        }
    }

    #[verifier::when_used_as_spec(spec_expected_status)]
    pub fn expected_status(self) -> (r: FriendshipStatus)
        ensures
            r == self.spec_expected_status(),
    {
        match self {
            FriendshipAction::SendRequest => FriendshipStatus::RequestSent,
            FriendshipAction::AcceptRequest => FriendshipStatus::Friend,
            FriendshipAction::Unfriend => FriendshipStatus::NotFriend,
            FriendshipAction::CancelRequest => FriendshipStatus::NotFriend,
        }
    }

    pub open spec fn spec_confirmation(self) -> Seq<char> {
        match self {
            FriendshipAction::SendRequest => "Send this friend request?"@,
            FriendshipAction::AcceptRequest => "Accept this incoming friend request?"@,
            FriendshipAction::Unfriend => "Remove this established friend?"@,
            FriendshipAction::CancelRequest => "Cancel this outgoing friend request?"@,
        }
    }

    /// The question asked before the action is carried out.
    pub fn confirmation(self) -> (r: &'static str)
        ensures
            r@ == self.spec_confirmation(),
    {
        match self {
            FriendshipAction::SendRequest => "Send this friend request?",
            FriendshipAction::AcceptRequest => "Accept this incoming friend request?",
            FriendshipAction::Unfriend => "Remove this established friend?",
            FriendshipAction::CancelRequest => "Cancel this outgoing friend request?",
        }
    }
}

/// What is about to change: who acts, on whom, from which relationship,
/// with which action.
#[derive(PartialEq, Eq)]
pub struct FriendshipPlan {
    account: Account,
    target: User,
    previous_status: FriendshipStatus,
    action: FriendshipAction,
}

impl FriendshipPlan {
    pub closed spec fn spec_account(&self) -> Account {
        self.account
    }

    pub closed spec fn spec_target(&self) -> UserView {
        self.target@
    }

    pub closed spec fn spec_previous_status(&self) -> FriendshipStatus {
        self.previous_status
    }

    pub closed spec fn spec_action(&self) -> FriendshipAction {
        self.action
    }

    pub fn new(
        account: Account,
        target: User,
        previous_status: FriendshipStatus,
        action: FriendshipAction,
    ) -> (r: FriendshipPlan)
        ensures
            r.spec_account() == account,
            r.spec_target() == target@,
            r.spec_previous_status() == previous_status,
            r.spec_action() == action,
    {
        FriendshipPlan { account, target, previous_status, action }
    }

    pub fn account(&self) -> (r: &Account)
        ensures
            *r == self.spec_account(),
    {
        &self.account
    }

    pub fn target(&self) -> (r: &User)
        ensures
            r@ == self.spec_target(),
    {
        &self.target
    }

    pub fn previous_status(&self) -> (r: FriendshipStatus)
        ensures
            r == self.spec_previous_status(),
    {
        self.previous_status
    }

    pub fn action(&self) -> (r: FriendshipAction)
        ensures
            r == self.spec_action(),
    {
        self.action
    }
}

/// A checked plan together with the session that will carry it out.
pub struct PreparedFriendshipMutation {
    credential: CredentialEnvelope,
    plan: FriendshipPlan,
}

impl PreparedFriendshipMutation {
    pub closed spec fn spec_credential(&self) -> CredentialEnvelope {
        self.credential
    }

    pub closed spec fn spec_plan(&self) -> &FriendshipPlan {
        &self.plan
    }

    pub fn new(credential: CredentialEnvelope, plan: FriendshipPlan) -> (r: Self)
        ensures
            r.spec_credential() == credential,
            *r.spec_plan() == plan,
    {
        PreparedFriendshipMutation { credential, plan }
    }

    pub fn plan(&self) -> (r: &FriendshipPlan)
        ensures
            r == self.spec_plan(),
    {
        &self.plan
    }

    pub fn credential(&self) -> (r: &CredentialEnvelope)
        ensures
            *r == self.spec_credential(),
    {
        &self.credential
    }

    pub fn into_plan(self) -> (r: FriendshipPlan)
        ensures
            r == *self.spec_plan(),
    {
        self.plan
    }
}

/// A carried-out action and the relationship that the service confirmed.
#[derive(PartialEq, Eq)]
pub struct FriendshipMutationResult {
    plan: FriendshipPlan,
    status: FriendshipStatus,
}

impl FriendshipMutationResult {
    pub closed spec fn spec_plan(&self) -> &FriendshipPlan {
        &self.plan
    }

    pub closed spec fn spec_status(&self) -> FriendshipStatus {
        self.status
    }

    pub fn new(plan: FriendshipPlan, status: FriendshipStatus) -> (r: Self)
        ensures
            *r.spec_plan() == plan,
            r.spec_status() == status,
    {
        FriendshipMutationResult { plan, status }
    }

    pub fn plan(&self) -> (r: &FriendshipPlan)
        ensures
            r == self.spec_plan(),
    {
        &self.plan
    }

    pub fn status(&self) -> (r: FriendshipStatus)
        ensures
            r == self.spec_status(),
    {
        self.status
    }
}

#[derive(Clone, Debug, PartialEq, Eq)]
pub enum FriendshipMutationError {
    Credential(CredentialAccessError),
    CurrentAccount { source: ApiOperationFailure },
    AccountMismatch,
    TargetLookup { source: UserLookupError },
    SelfTarget,
    MissingProfileType,
    UnsupportedProfileType,
    MissingFriendshipStatus,
    AlreadyFriend,
    RequestAlreadySent,
    NothingToRemove,
    IncomingRequestRequiresSeparateAction,
    ConfirmationRequired,
    ConfirmationDeclined,
    Confirmation { source: PromptFailure },
    Mutation { source: ApiOperationFailure },
    OutcomeUnknown { problem: &'static str },
}

impl FriendshipMutationError {
    pub open spec fn spec_failure_kind(&self) -> ApplicationFailureKind {
        match self {
            FriendshipMutationError::Credential(_) => ApplicationFailureKind::Credential,
            FriendshipMutationError::AccountMismatch => ApplicationFailureKind::Credential,
            FriendshipMutationError::CurrentAccount { source } => ApplicationFailureKind::Api(
                source.kind,
            ),
            FriendshipMutationError::Mutation { source } => ApplicationFailureKind::Api(
                source.kind,
            ),
            FriendshipMutationError::TargetLookup { source } => source.spec_application_failure_kind(),
            FriendshipMutationError::MissingProfileType => ApplicationFailureKind::ApiContract,
            FriendshipMutationError::MissingFriendshipStatus => ApplicationFailureKind::ApiContract,
            FriendshipMutationError::ConfirmationDeclined => ApplicationFailureKind::Cancelled,
            FriendshipMutationError::Confirmation { source } => source.kind,
            FriendshipMutationError::OutcomeUnknown { .. } => ApplicationFailureKind::Api(
                ApiFailureKind::AmbiguousWrite,
            ),
            _ => ApplicationFailureKind::Usage,
        }
    }

    #[verifier::when_used_as_spec(spec_failure_kind)]
    pub fn failure_kind(&self) -> (r: ApplicationFailureKind)
        ensures
            r == self.spec_failure_kind(),
    {
        match self {
            FriendshipMutationError::Credential(_) => ApplicationFailureKind::Credential,
            FriendshipMutationError::AccountMismatch => ApplicationFailureKind::Credential,
            FriendshipMutationError::CurrentAccount { source } => ApplicationFailureKind::Api(
                source.kind(),
            ),
            FriendshipMutationError::Mutation { source } => ApplicationFailureKind::Api(
                source.kind(),
            ),
            FriendshipMutationError::TargetLookup { source } => source.application_failure_kind(),
            FriendshipMutationError::MissingProfileType => ApplicationFailureKind::ApiContract,
            FriendshipMutationError::MissingFriendshipStatus => ApplicationFailureKind::ApiContract,
            FriendshipMutationError::ConfirmationDeclined => ApplicationFailureKind::Cancelled,
            FriendshipMutationError::Confirmation { source } => source.kind,
            FriendshipMutationError::OutcomeUnknown { .. } => ApplicationFailureKind::Api(
                ApiFailureKind::AmbiguousWrite,
            ),
            _ => ApplicationFailureKind::Usage,
        }
    }

    /// The friendship failure that a refused confirmation amounts to.
    pub fn from_confirmation(error: DefaultNoConfirmationError) -> (r: FriendshipMutationError)
        ensures
            r == match error {
                DefaultNoConfirmationError::Required => FriendshipMutationError::ConfirmationRequired,
                DefaultNoConfirmationError::Declined => FriendshipMutationError::ConfirmationDeclined,
                DefaultNoConfirmationError::Prompt(source) => FriendshipMutationError::Confirmation {
                    source,
                },
            },
    {
        match error {
            DefaultNoConfirmationError::Required => FriendshipMutationError::ConfirmationRequired,
            DefaultNoConfirmationError::Declined => FriendshipMutationError::ConfirmationDeclined,
            DefaultNoConfirmationError::Prompt(source) => FriendshipMutationError::Confirmation {
                source,
            },
        }
    }
}

/// The service's current account must be the stored credential's account.
pub fn check_current_account(credential: &CredentialEnvelope, account: &Account) -> (r: Result<
    (),
    FriendshipMutationError,
>)
    ensures
        r is Ok <==> account.user_id@ == credential.user_id@,
        r is Err ==> r == Err::<(), FriendshipMutationError>(
            FriendshipMutationError::AccountMismatch,
        ),
{
    if account.user_id().same_as(credential.user_id()) {
        Ok(())
    } else {
        Err(FriendshipMutationError::AccountMismatch)
    }
}

/// The one action that an intent allows from a relationship, or why none is.
pub open spec fn spec_select_action(intent: FriendshipIntent, status: FriendshipStatus) -> Result<
    FriendshipAction,
    FriendshipMutationError,
> {
    match (intent, status) {
        (FriendshipIntent::Add, FriendshipStatus::NotFriend) => Ok(FriendshipAction::SendRequest),
        (FriendshipIntent::Add, FriendshipStatus::RequestReceived) => Ok(
            FriendshipAction::AcceptRequest,
        ),
        (FriendshipIntent::Add, FriendshipStatus::Friend) => Err(
            FriendshipMutationError::AlreadyFriend,
        ),
        (FriendshipIntent::Add, FriendshipStatus::RequestSent) => Err(
            FriendshipMutationError::RequestAlreadySent,
        ),
        (FriendshipIntent::Remove, FriendshipStatus::Friend) => Ok(FriendshipAction::Unfriend),
        (FriendshipIntent::Remove, FriendshipStatus::RequestSent) => Ok(
            FriendshipAction::CancelRequest,
        ),
        (FriendshipIntent::Remove, FriendshipStatus::NotFriend) => Err(
            FriendshipMutationError::NothingToRemove,
        ),
        (FriendshipIntent::Remove, FriendshipStatus::RequestReceived) => Err(
            FriendshipMutationError::IncomingRequestRequiresSeparateAction,
        ),
    }
}

pub fn select_action(intent: FriendshipIntent, status: FriendshipStatus) -> (r: Result<
    FriendshipAction,
    FriendshipMutationError,
>)
    ensures
        r == spec_select_action(intent, status),
{
    match (intent, status) {
        (FriendshipIntent::Add, FriendshipStatus::NotFriend) => Ok(FriendshipAction::SendRequest),
        (FriendshipIntent::Add, FriendshipStatus::RequestReceived) => Ok(
            FriendshipAction::AcceptRequest,
        ),
        (FriendshipIntent::Add, FriendshipStatus::Friend) => Err(
            FriendshipMutationError::AlreadyFriend,
        ),
        (FriendshipIntent::Add, FriendshipStatus::RequestSent) => Err(
            FriendshipMutationError::RequestAlreadySent,
        ),
        (FriendshipIntent::Remove, FriendshipStatus::Friend) => Ok(FriendshipAction::Unfriend),
        (FriendshipIntent::Remove, FriendshipStatus::RequestSent) => Ok(
            FriendshipAction::CancelRequest,
        ),
        (FriendshipIntent::Remove, FriendshipStatus::NotFriend) => Err(
            FriendshipMutationError::NothingToRemove,
        ),
        (FriendshipIntent::Remove, FriendshipStatus::RequestReceived) => Err(
            FriendshipMutationError::IncomingRequestRequiresSeparateAction,
        ),
    }
}

/// Every allowed action changes the relationship: the status it establishes
/// differs from the status it starts from, and an add never removes nor a
/// remove ever adds.
pub proof fn lemma_selected_action_changes_status(intent: FriendshipIntent, status: FriendshipStatus)
    requires
        spec_select_action(intent, status) is Ok,
    ensures
        spec_select_action(intent, status)->Ok_0.spec_expected_status() != status,
        intent == FriendshipIntent::Add ==> spec_select_action(intent, status)->Ok_0.spec_expected_status()
            != FriendshipStatus::NotFriend,
        intent == FriendshipIntent::Remove ==> spec_select_action(intent, status)->Ok_0.spec_expected_status()
            == FriendshipStatus::NotFriend,
{
}

/// What each action leaves behind: accepting an incoming request makes the
/// two friends, sending a request leaves it outstanding, and unfriending or
/// cancelling leaves no relationship. No action ends in a received request.
pub proof fn lemma_action_outcomes(action: FriendshipAction)
    ensures
        (action.spec_expected_status() == FriendshipStatus::Friend) <==> action
            == FriendshipAction::AcceptRequest,
        (action.spec_expected_status() == FriendshipStatus::RequestSent) <==> action
            == FriendshipAction::SendRequest,
        (action.spec_expected_status() == FriendshipStatus::NotFriend) <==> (action
            == FriendshipAction::Unfriend || action == FriendshipAction::CancelRequest),
        action.spec_expected_status() != FriendshipStatus::RequestReceived,
{
}

/// Adding someone who has asked first makes the two friends; adding anyone
/// else with no relationship yet only sends them a request. Removing always
/// ends in no relationship.
pub proof fn lemma_add_accepts_an_incoming_request(intent: FriendshipIntent, status: FriendshipStatus)
    requires
        spec_select_action(intent, status) is Ok,
    ensures
        intent == FriendshipIntent::Add && status == FriendshipStatus::RequestReceived ==> spec_select_action(
            intent,
            status,
        )->Ok_0.spec_expected_status() == FriendshipStatus::Friend,
        intent == FriendshipIntent::Add && status == FriendshipStatus::NotFriend ==> spec_select_action(
            intent,
            status,
        )->Ok_0.spec_expected_status() == FriendshipStatus::RequestSent,
        intent == FriendshipIntent::Remove ==> spec_select_action(intent, status)->Ok_0.spec_expected_status()
            == FriendshipStatus::NotFriend,
{
}

/// Checks the resolved target and selects the action: the target must not
/// be the account itself, must be a personal profile and must report its
/// relationship to the account.
pub fn plan_for_target(account: Account, target: User, intent: FriendshipIntent) -> (r: Result<
    FriendshipPlan,
    FriendshipMutationError,
>)
    ensures
        target@.user_id == account.user_id@ ==> r == Err::<FriendshipPlan, FriendshipMutationError>(
            FriendshipMutationError::SelfTarget,
        ),
        target@.user_id != account.user_id@ && target@.profile_kind is None ==> r == Err::<
            FriendshipPlan,
            FriendshipMutationError,
        >(FriendshipMutationError::MissingProfileType),
        target@.profile_kind matches Some(k) && target@.user_id != account.user_id@ && k
            != UserProfileKind::Personal ==> r == Err::<FriendshipPlan, FriendshipMutationError>(
            FriendshipMutationError::UnsupportedProfileType,
        ),
        target@.user_id != account.user_id@ && target@.profile_kind == Some(
            UserProfileKind::Personal,
        ) && target@.friendship_status is None ==> r == Err::<
            FriendshipPlan,
            FriendshipMutationError,
        >(FriendshipMutationError::MissingFriendshipStatus),
        target@.friendship_status is Some && target@.user_id != account.user_id@
            && target@.profile_kind == Some(UserProfileKind::Personal) ==> match spec_select_action(
            intent,
            target@.friendship_status->Some_0,
        ) {
            Ok(action) => r is Ok && r->Ok_0.spec_account() == account && r->Ok_0.spec_target()
                == target@ && r->Ok_0.spec_previous_status() == target@.friendship_status->Some_0
                && r->Ok_0.spec_action() == action,
            Err(e) => r == Err::<FriendshipPlan, FriendshipMutationError>(e),
        },
{
    if target.user_id().same_as(account.user_id()) {
        return Err(FriendshipMutationError::SelfTarget);
    }
    match target.profile_kind() {
        Some(UserProfileKind::Personal) => {},
        None => {
            return Err(FriendshipMutationError::MissingProfileType);
        },
        Some(_) => {
            return Err(FriendshipMutationError::UnsupportedProfileType);
        },
    }
    let previous_status = match target.friendship_status() {
        Some(s) => s,
        None => {
            return Err(FriendshipMutationError::MissingFriendshipStatus);
        },
    };
    let action = select_action(intent, previous_status)?;
    Ok(FriendshipPlan::new(account, target, previous_status, action))
}

/// The single write that carries out a plan.
#[derive(Debug, PartialEq, Eq)]
pub enum FriendshipWrite {
    /// Send or accept a request, expecting the given relationship afterwards.
    AddOrAccept { target_user_id: UserId, expected_status: FriendshipStatus },
    /// Remove a friend or cancel a request.
    RemoveOrCancel { self_user_id: UserId, target_user_id: UserId },
}

/// The write that carries out the prepared plan.
pub fn write_for(prepared: &PreparedFriendshipMutation) -> (r: FriendshipWrite)
    ensures
        match prepared.spec_plan().spec_action() {
            FriendshipAction::SendRequest | FriendshipAction::AcceptRequest => r matches FriendshipWrite::AddOrAccept {
                target_user_id,
                expected_status,
            } && target_user_id@ == prepared.spec_plan().spec_target().user_id && expected_status
                == prepared.spec_plan().spec_action().spec_expected_status(),
            FriendshipAction::Unfriend | FriendshipAction::CancelRequest => r matches FriendshipWrite::RemoveOrCancel {
                self_user_id,
                target_user_id,
            } && self_user_id@ == prepared.spec_plan().spec_account().user_id@ && target_user_id@
                == prepared.spec_plan().spec_target().user_id,
        },
{
    let plan = prepared.plan();
    let target_user_id = plan.target().user_id().clone();
    match plan.action() {
        FriendshipAction::SendRequest | FriendshipAction::AcceptRequest => FriendshipWrite::AddOrAccept {
            target_user_id,
            expected_status: plan.action().expected_status(),
        },
        FriendshipAction::Unfriend | FriendshipAction::CancelRequest => FriendshipWrite::RemoveOrCancel {
            self_user_id: plan.account().user_id().clone(),
            target_user_id,
        },
    }
}

/// Checks the reply of the write: it must be the target and show the
/// relationship that the action establishes; otherwise the outcome is
/// unknown and must not be retried blindly.
pub fn verify_mutation(plan: FriendshipPlan, verified: &User) -> (r: Result<
    FriendshipMutationResult,
    FriendshipMutationError,
>)
    ensures
        verified@.user_id != plan.spec_target().user_id ==> r == Err::<
            FriendshipMutationResult,
            FriendshipMutationError,
        >(FriendshipMutationError::OutcomeUnknown { problem: DIFFERENT_VERIFIED_USER }),
        verified@.user_id == plan.spec_target().user_id && verified@.friendship_status != Some(
            plan.spec_action().spec_expected_status(),
        ) ==> r == Err::<FriendshipMutationResult, FriendshipMutationError>(
            FriendshipMutationError::OutcomeUnknown { problem: UNMATCHED_VERIFIED_STATUS },
        ),
        verified@.user_id == plan.spec_target().user_id && verified@.friendship_status == Some(
            plan.spec_action().spec_expected_status(),
        ) ==> r is Ok && *r->Ok_0.spec_plan() == plan && r->Ok_0.spec_status()
            == plan.spec_action().spec_expected_status(),
{
    let expected_status = plan.action().expected_status();
    if !verified.user_id().same_as(plan.target().user_id()) {
        return Err(FriendshipMutationError::OutcomeUnknown { problem: DIFFERENT_VERIFIED_USER });
    }
    if verified.friendship_status() != Some(expected_status) {
        return Err(FriendshipMutationError::OutcomeUnknown { problem: UNMATCHED_VERIFIED_STATUS });
    }
    Ok(FriendshipMutationResult::new(plan, expected_status))
}

} // verus!
