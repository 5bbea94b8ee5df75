use venmo_core::payments::FinancialValidationError;
use venmo_core::people::friends::FriendsError;
use venmo_core::people::friendship::FriendshipMutationError;
use venmo_core::people::info::{map_lookup_error, UserInfoError};
use venmo_core::people::lookup::UserLookupError;
use venmo_core::requests::accept::{AcceptError, StepUpFailure};
use venmo_core::requests::cancel::CancelError;
use venmo_core::requests::create::{PeerPreflightError, RequestCreateError};
use venmo_core::requests::decline::DeclineError;
use venmo_core::requests::info::RequestInfoError;
use venmo_core::requests::list::RequestsError;
use venmo_core::requests::preflight::RequestMutationPreflightError;
use venmo_core::requests::validation::RequestMutationValidationError;
use venmo_core::shared::{
    ApiFailureKind, ApiOperationFailure, ApplicationFailureKind, CredentialAccessError,
    CredentialFailureKind, PromptFailure, ReadFailureKind,
};
use venmo_core::transfers::options::TransferOptionsError;
use venmo_core::wallet::balance::BalanceError;
use venmo_core::wallet::payment_methods::PaymentMethodsError;

fn api(kind: ApiFailureKind) -> ApiOperationFailure {
    ApiOperationFailure::new(kind)
}

#[test]
fn validation_failures_split_usage_from_contract() {
    for usage in [
        RequestMutationValidationError::NotIncoming,
        RequestMutationValidationError::NotOutgoing,
        RequestMutationValidationError::NotPending,
        RequestMutationValidationError::NotOpen,
        RequestMutationValidationError::UnverifiedAudience,
        RequestMutationValidationError::NotChargeRequest,
    ] {
        assert_eq!(usage.failure_kind(), ApplicationFailureKind::Usage);
    }
    for contract in [
        RequestMutationValidationError::InvalidNote,
        RequestMutationValidationError::UnsupportedAudience,
        RequestMutationValidationError::IncompleteRequester,
        RequestMutationValidationError::MissingCreationTime,
        RequestMutationValidationError::MismatchedId,
    ] {
        assert_eq!(contract.failure_kind(), ApplicationFailureKind::ApiContract);
    }
    assert_eq!(
        FinancialValidationError::AccountMismatch.failure_kind(),
        ApplicationFailureKind::Credential
    );
    assert_eq!(
        FinancialValidationError::MissingProfileType.failure_kind(),
        ApplicationFailureKind::ApiContract
    );
    assert_eq!(
        FinancialValidationError::UnsupportedProfileType.failure_kind(),
        ApplicationFailureKind::Usage
    );
}

#[test]
fn read_commands_preserve_the_api_failure_kind() {
    for kind in [
        ApiFailureKind::Network,
        ApiFailureKind::Timeout,
        ApiFailureKind::Authentication,
        ApiFailureKind::Rejected,
        ApiFailureKind::Contract,
        ApiFailureKind::AmbiguousWrite,
        ApiFailureKind::Internal,
    ] {
        assert_eq!(
            BalanceError::Api { source: api(kind) }.failure_kind(),
            ReadFailureKind::Api(kind)
        );
        assert_eq!(
            TransferOptionsError::Api { source: api(kind) }.failure_kind(),
            ReadFailureKind::Api(kind)
        );
        assert_eq!(
            RequestsError::Api { source: api(kind) }.failure_kind(),
            ReadFailureKind::Api(kind)
        );
        assert_eq!(
            PaymentMethodsError::Api { source: api(kind) }.failure_kind(),
            ApplicationFailureKind::Api(kind)
        );
        assert_eq!(
            RequestInfoError::Api { source: api(kind) }.failure_kind(),
            ApplicationFailureKind::Api(kind)
        );
        assert_eq!(
            FriendsError::Api { source: api(kind) }.failure_kind(),
            ApplicationFailureKind::Api(kind)
        );
    }
    let missing = CredentialAccessError::Missing;
    let corrupt = CredentialAccessError::Read { kind: CredentialFailureKind::Corrupt };
    assert_eq!(BalanceError::Credential(missing).failure_kind(), ReadFailureKind::Credential);
    assert_eq!(
        PaymentMethodsError::Credential(corrupt).failure_kind(),
        ApplicationFailureKind::Credential
    );
    assert_eq!(
        RequestsError::ResponseContract { problem: "x" }.failure_kind(),
        ReadFailureKind::ResponseContract
    );
    assert_eq!(RequestInfoError::NotOpen.failure_kind(), ApplicationFailureKind::Usage);
    assert_eq!(
        RequestInfoError::ResponseContract { problem: "x" }.failure_kind(),
        ApplicationFailureKind::ApiContract
    );
}

#[test]
fn user_lookup_failures_keep_their_category_through_every_command() {
    let not_found = UserLookupError::UsernameNotFound;
    assert_eq!(
        FriendsError::UserLookup { source: not_found.clone() }.failure_kind(),
        ApplicationFailureKind::Usage
    );
    assert_eq!(
        FriendshipMutationError::TargetLookup { source: not_found.clone() }.failure_kind(),
        ApplicationFailureKind::Usage
    );
    assert_eq!(
        map_lookup_error(UserLookupError::Api { source: api(ApiFailureKind::Network) }),
        UserInfoError::Api { source: api(ApiFailureKind::Network) }
    );
    assert_eq!(
        map_lookup_error(UserLookupError::LookupContract { problem: "p" }),
        UserInfoError::ResponseContract { problem: "p" }
    );
    assert_eq!(
        map_lookup_error(not_found.clone()),
        UserInfoError::Lookup { source: not_found }
    );
    assert_eq!(
        UserInfoError::Lookup { source: UserLookupError::Internal { problem: "p" } }
            .failure_kind(),
        ApplicationFailureKind::Internal
    );
    assert_eq!(
        RequestCreateError::Preflight(PeerPreflightError::Recipient(
            UserLookupError::AmbiguousUsername
        ))
        .failure_kind(),
        ApplicationFailureKind::Usage
    );
}

#[test]
fn confirmation_and_write_failures_are_distinct() {
    let prompt = PromptFailure { kind: ApplicationFailureKind::Internal };
    assert_eq!(DeclineError::ConfirmationRequired.failure_kind(), ApplicationFailureKind::Usage);
    assert_eq!(
        DeclineError::ConfirmationDeclined.failure_kind(),
        ApplicationFailureKind::Cancelled
    );
    assert_eq!(
        CancelError::Confirmation { source: prompt }.failure_kind(),
        ApplicationFailureKind::Internal
    );
    assert_eq!(
        CancelError::Cancel { source: api(ApiFailureKind::AmbiguousWrite) }.failure_kind(),
        ApplicationFailureKind::Api(ApiFailureKind::AmbiguousWrite)
    );
    assert_eq!(
        FriendshipMutationError::OutcomeUnknown { problem: "p" }.failure_kind(),
        ApplicationFailureKind::Api(ApiFailureKind::AmbiguousWrite)
    );
    assert_eq!(
        FriendshipMutationError::AccountMismatch.failure_kind(),
        ApplicationFailureKind::Credential
    );
    assert_eq!(
        AcceptError::ProtectionFeeExceedsAmount.failure_kind(),
        ApplicationFailureKind::ApiContract
    );
    assert_eq!(
        AcceptError::StepUp(StepUpFailure::StillRequired).failure_kind(),
        ApplicationFailureKind::ApiContract
    );
    assert_eq!(
        AcceptError::StepUp(StepUpFailure::Failed(ApplicationFailureKind::Cancelled))
            .failure_kind(),
        ApplicationFailureKind::Cancelled
    );
    assert_eq!(
        AcceptError::Preflight(RequestMutationPreflightError::RequestValidation(
            RequestMutationValidationError::NotPending
        ))
        .failure_kind(),
        ApplicationFailureKind::Usage
    );
    assert_eq!(
        AcceptError::FundingSelection { kind: ApplicationFailureKind::Usage }.failure_kind(),
        ApplicationFailureKind::Usage
    );
}
