//! The calls that the protocol asks its driver to make on the bus, and what
//! the driver reports back.

use vstd::prelude::*;
use crate::secret::Secret;
use crate::secret_service::error::{Error, ErrorView};
use crate::secret_service::path::ObjectPath;

verus! {

/// What is sent along with the request for a session.
#[derive(Debug)]
pub enum SessionInput {
    /// A string; the empty one where secrets travel unencrypted.
    Text(String),
    /// A byte array: our public key.
    Bytes(Vec<u8>),
}

/// One call for the driver to make: the connection to the bus, a method of
/// the Secret Service API, or the handling of signals on the connection.
#[derive(Debug)]
pub enum Call {
    /// Connect to the session bus.
    Connect,
    /// `OpenSession` on the service.
    OpenSession { algorithm: String, input: SessionInput },
    /// `ReadAlias` on the service.
    ReadAlias { name: String },
    /// The property `Collections` of the service.
    Collections,
    /// `CreateCollection` on the service, with the label as its one property.
    CreateCollection { label: String, alias: String },
    /// `SearchItems` on a collection, by the two attributes.
    SearchItems { collection: ObjectPath, service: String, account: String },
    /// `CreateItem` on a collection. The secret travels as the tuple of
    /// `session`, `params`, `value` and `content_type`.
    CreateItem {
        collection: ObjectPath,
        label: String,
        service: String,
        account: String,
        session: ObjectPath,
        params: Vec<u8>,
        value: Secret,
        content_type: String,
        replace: bool,
    },
    /// `GetSecret` on an item.
    GetSecret { item: ObjectPath, session: ObjectPath },
    /// `Delete` on an item.
    Delete { item: ObjectPath },
    /// Subscribe to the signal `Completed` of a prompt.
    MatchSignal { prompt: ObjectPath },
    /// `Prompt` on a prompt.
    Prompt { prompt: ObjectPath, window_id: String },
    /// Let the connection handle what comes in, for so many seconds at most.
    Process { seconds: u64 },
    /// End the subscription to the signal `Completed` of a prompt.
    MatchStop { prompt: ObjectPath },
}

/// What is sent along with the request for a session, as plain values.
pub enum SessionInputView {
    Text(Seq<char>),
    Bytes(Seq<u8>),
}

impl View for SessionInput {
    type V = SessionInputView;

    open spec fn view(&self) -> SessionInputView {
        match *self {
            SessionInput::Text(text) => SessionInputView::Text(text@),
            SessionInput::Bytes(bytes) => SessionInputView::Bytes(bytes@),
        }
    }
}

/// A call as plain values: strings as their characters, byte arrays and the
/// secret as their bytes.
pub enum CallView {
    Connect,
    OpenSession { algorithm: Seq<char>, input: SessionInputView },
    ReadAlias { name: Seq<char> },
    Collections,
    CreateCollection { label: Seq<char>, alias: Seq<char> },
    SearchItems { collection: Seq<char>, service: Seq<char>, account: Seq<char> },
    CreateItem {
        collection: Seq<char>,
        label: Seq<char>,
        service: Seq<char>,
        account: Seq<char>,
        session: Seq<char>,
        params: Seq<u8>,
        value: Seq<u8>,
        content_type: Seq<char>,
        replace: bool,
    },
    GetSecret { item: Seq<char>, session: Seq<char> },
    Delete { item: Seq<char> },
    MatchSignal { prompt: Seq<char> },
    Prompt { prompt: Seq<char>, window_id: Seq<char> },
    Process { seconds: u64 },
    MatchStop { prompt: Seq<char> },
}

impl View for Call {
    type V = CallView;

    open spec fn view(&self) -> CallView {
        match *self {
            Call::Connect => CallView::Connect,
            Call::OpenSession { algorithm, input } => CallView::OpenSession {
                algorithm: algorithm@,
                input: input@,
            },
            Call::ReadAlias { name } => CallView::ReadAlias { name: name@ },
            Call::Collections => CallView::Collections,
            Call::CreateCollection { label, alias } => CallView::CreateCollection {
                label: label@,
                alias: alias@,
            },
            Call::SearchItems { collection, service, account } => CallView::SearchItems {
                collection: collection@,
                service: service@,
                account: account@,
            },
            Call::CreateItem {
                collection,
                label,
                service,
                account,
                session,
                params,
                value,
                content_type,
                replace,
            } => CallView::CreateItem {
                collection: collection@,
                label: label@,
                service: service@,
                account: account@,
                session: session@,
                params: params@,
                value: value@,
                content_type: content_type@,
                replace,
            },
            Call::GetSecret { item, session } => CallView::GetSecret {
                item: item@,
                session: session@,
            },
            Call::Delete { item } => CallView::Delete { item: item@ },
            Call::MatchSignal { prompt } => CallView::MatchSignal { prompt: prompt@ },
            Call::Prompt { prompt, window_id } => CallView::Prompt {
                prompt: prompt@,
                window_id: window_id@,
            },
            Call::Process { seconds } => CallView::Process { seconds },
            Call::MatchStop { prompt } => CallView::MatchStop { prompt: prompt@ },
        }
    }
}

/// What the signal `Completed` of a prompt carries as its result.
#[derive(Debug)]
pub enum SignalResult {
    /// The result holds no value.
    Missing,
    /// The result holds a value that is no object path.
    NotAPath,
    /// The result holds this object path.
    Path(ObjectPath),
}

/// What one wait on the connection brought.
#[derive(Debug)]
pub enum Event {
    /// Nothing came in before the time was up.
    Idle,
    /// Something came in, but not the completion of the prompt.
    Busy,
    /// The prompt was completed.
    Completed { dismissed: bool, result: SignalResult },
    /// The completion can no longer arrive.
    Disconnected,
}

/// What the driver reports of the call that it was asked to make.
#[derive(Debug)]
pub enum Reply {
    /// The call failed; the words are the cause.
    Failed(String),
    /// The connection to the bus stands.
    Connected,
    /// `OpenSession` returned. `output` holds the returned value where it is
    /// a byte array.
    SessionOpened { output: Option<Vec<u8>>, path: ObjectPath },
    /// `ReadAlias` returned this collection.
    Alias(ObjectPath),
    /// The service has these collections.
    Collections(Vec<ObjectPath>),
    /// `CreateCollection` returned.
    CollectionCreated { collection: ObjectPath, prompt: ObjectPath },
    /// `SearchItems` found these items.
    Items(Vec<ObjectPath>),
    /// `CreateItem` returned.
    ItemCreated { item: ObjectPath, prompt: ObjectPath },
    /// `GetSecret` returned this secret tuple.
    Secret { session: ObjectPath, params: Vec<u8>, value: Vec<u8>, content_type: String },
    /// `Delete` returned.
    Deleted { prompt: ObjectPath },
    /// The subscription stands.
    SignalMatched,
    /// `Prompt` returned.
    Prompted,
    /// The wait on the connection is over.
    Processed(Event),
    /// The subscription is ended.
    MatchStopped,
}

/// What a step of the protocol comes to.
#[derive(Debug)]
pub enum Turn<T> {
    /// The driver is to make this call and to hand in what it brings.
    Call(Call),
    /// The operation has ended with this result.
    Done(T),
    /// The operation has ended with this failure.
    Failed(Error),
}

/// What a step of the protocol comes to, the call as plain values.
pub enum TurnView<T> {
    Call(CallView),
    Done(T),
    Failed(ErrorView),
}

impl<T> View for Turn<T> {
    type V = TurnView<T>;

    open spec fn view(&self) -> TurnView<T> {
        match *self {
            Turn::Call(call) => TurnView::Call(call@),
            Turn::Done(result) => TurnView::Done(result),
            Turn::Failed(error) => TurnView::Failed(error@),
        }
    }
}

} // verus!
