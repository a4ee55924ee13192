//! What can go wrong between the library and a Secret Service.

use vstd::prelude::*;
use crate::secret_service::crypto::error::Error as CryptoError;

verus! {

/// The failures of the Secret Service protocol. A variant that holds one
/// string holds the cause as the transport worded it.
#[derive(Debug)]
pub enum Error {
    /// The connection to the bus could not be made.
    CreateSessionError(String),
    /// The service refused to open a session.
    OpenSessionError(String),
    /// The service answered the key exchange with something else than bytes.
    ParseSessionOutputError,
    /// The alias `default` could not be read.
    GetDefaultCollectionError(String),
    /// The alias `session` could not be read.
    GetSessionCollectionError(String),
    /// The collections could not be listed.
    GetCollectionsError(String),
    /// The default collection could not be created.
    CreateDefaultCollectionError(String),
    /// The item could not be created.
    CreateItemError(String),
    /// The items could not be searched.
    SearchItemsError(String),
    /// No item matches the service and the account.
    GetItemNotFoundError(String, String),
    /// The secret of the item could not be fetched.
    GetSecretError(String),
    /// The item could not be deleted.
    DeleteItemError(String),
    /// There is no secret to write, or it has no bytes.
    WriteEmptySecretError,
    /// The prompt could not be shown.
    PromptError(String),
    /// The completion of the prompt could not be subscribed to.
    PromptMatchSignalError(String),
    /// The subscription to the completion of the prompt could not be ended.
    PromptMatchStopError(String),
    /// The prompt was not completed in time.
    PromptTimeoutError,
    /// The user dismissed the prompt.
    PromptDismissedError,
    /// The completed prompt names something else than an object path.
    ParsePromptPathError,
    /// The completed prompt names nothing.
    ParsePromptSignalError,
    /// The driver handed in nothing where an answer was owed, or resumed
    /// what had ended.
    UnavailableInput,
    /// The driver handed in an answer that was not asked for.
    UnexpectedInput,
    /// The transport encryption failed.
    CryptoError(CryptoError),
}

/// A failure as plain values: strings as their characters.
pub enum ErrorView {
    CreateSessionError(Seq<char>),
    OpenSessionError(Seq<char>),
    ParseSessionOutputError,
    GetDefaultCollectionError(Seq<char>),
    GetSessionCollectionError(Seq<char>),
    GetCollectionsError(Seq<char>),
    CreateDefaultCollectionError(Seq<char>),
    CreateItemError(Seq<char>),
    SearchItemsError(Seq<char>),
    GetItemNotFoundError(Seq<char>, Seq<char>),
    GetSecretError(Seq<char>),
    DeleteItemError(Seq<char>),
    WriteEmptySecretError,
    PromptError(Seq<char>),
    PromptMatchSignalError(Seq<char>),
    PromptMatchStopError(Seq<char>),
    PromptTimeoutError,
    PromptDismissedError,
    ParsePromptPathError,
    ParsePromptSignalError,
    UnavailableInput,
    UnexpectedInput,
    CryptoError(CryptoError),
}

impl View for Error {
    type V = ErrorView;

    open spec fn view(&self) -> ErrorView {
        match *self {
            Error::CreateSessionError(cause) => ErrorView::CreateSessionError(cause@),
            Error::OpenSessionError(cause) => ErrorView::OpenSessionError(cause@),
            Error::ParseSessionOutputError => ErrorView::ParseSessionOutputError,
            Error::GetDefaultCollectionError(cause) => ErrorView::GetDefaultCollectionError(cause@),
            Error::GetSessionCollectionError(cause) => ErrorView::GetSessionCollectionError(cause@),
            Error::GetCollectionsError(cause) => ErrorView::GetCollectionsError(cause@),
            Error::CreateDefaultCollectionError(cause) => ErrorView::CreateDefaultCollectionError(
                cause@,
            ),
            Error::CreateItemError(cause) => ErrorView::CreateItemError(cause@),
            Error::SearchItemsError(cause) => ErrorView::SearchItemsError(cause@),
            Error::GetItemNotFoundError(service, account) => ErrorView::GetItemNotFoundError(
                service@,
                account@,
            ),
            Error::GetSecretError(cause) => ErrorView::GetSecretError(cause@),
            Error::DeleteItemError(cause) => ErrorView::DeleteItemError(cause@),
            Error::WriteEmptySecretError => ErrorView::WriteEmptySecretError,
            Error::PromptError(cause) => ErrorView::PromptError(cause@),
            Error::PromptMatchSignalError(cause) => ErrorView::PromptMatchSignalError(cause@),
            Error::PromptMatchStopError(cause) => ErrorView::PromptMatchStopError(cause@),
            Error::PromptTimeoutError => ErrorView::PromptTimeoutError,
            Error::PromptDismissedError => ErrorView::PromptDismissedError,
            Error::ParsePromptPathError => ErrorView::ParsePromptPathError,
            Error::ParsePromptSignalError => ErrorView::ParsePromptSignalError,
            Error::UnavailableInput => ErrorView::UnavailableInput,
            Error::UnexpectedInput => ErrorView::UnexpectedInput,
            Error::CryptoError(error) => ErrorView::CryptoError(error),
        }
    }
}

} // verus!
