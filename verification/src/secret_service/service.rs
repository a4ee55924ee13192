//! The objects of a Secret Service: the service with its session, its
//! collections and their items. Each operation is a call for the driver to
//! make and a reading of what the call brought.

use vstd::prelude::*;
use vstd::string::StringExecFns;
use crate::secret::Secret;
use crate::secret_service::common::{CONTENT_TYPE, LABEL_SEPARATOR};
use crate::secret_service::crypto::algorithm::Algorithm;
use crate::secret_service::crypto::bigint::{be_value, value_of};
use crate::secret_service::crypto::dh::{be_bytes, Keypair};
use crate::secret_service::crypto::error::Error as CryptoError;
use crate::secret_service::error::Error;
use crate::secret_service::message::{Call, CallView, Reply, SessionInput, SessionInputView};
use crate::secret_service::path::ObjectPath;
use crate::secret_service::prompt::Prompt;
use crate::secret_service::session::Session;

verus! {

/// A Secret Service with which a session is open.
pub struct SecretService {
    pub session: Session,
}

/// A collection of items.
#[derive(Debug)]
pub struct Collection {
    pub path: ObjectPath,
}

/// An item: one stored secret.
#[derive(Debug)]
pub struct Item {
    pub path: ObjectPath,
}

/// What the creation of an item brought.
#[derive(Debug)]
pub enum Created {
    /// The item stands.
    Item(Item),
    /// The service first wants the user to answer the prompt at this path.
    Prompt(ObjectPath),
}

/// The secret tuple of the wire: the session, the parameters of the
/// encryption (the salt), the value and its content type.
#[derive(Debug)]
pub struct SecretTuple {
    pub session: ObjectPath,
    pub params: Vec<u8>,
    pub value: Vec<u8>,
    pub content_type: String,
}

/// The first of `paths`, if there is one.
pub fn first_path(paths: Vec<ObjectPath>) -> (first: Option<ObjectPath>)
    ensures
        first == (if paths@.len() > 0 {
            Some(paths@[0])
        } else {
            None
        }),
{
    let mut paths = paths;
    if paths.len() > 0 {
        Some(paths.swap_remove(0))
    } else {
        None
    }
}

impl SecretService {
    /// Whether `call` is the request for a session under `encryption`. With
    /// the request goes the empty string without encryption, and under
    /// Diffie-Hellman our public key, in 128 bytes where it is the public
    /// key of its private exponent. Under Diffie-Hellman there is no request
    /// without a keypair.
    pub open spec fn requests_session(
        encryption: Algorithm,
        keypair: Option<Keypair>,
        call: Result<Call, Error>,
    ) -> bool {
        match (encryption, keypair) {
            (Algorithm::Plain, _) => {
                &&& call is Ok
                &&& call->Ok_0@ == (CallView::OpenSession {
                    algorithm: encryption.name(),
                    input: SessionInputView::Text(""@),
                })
            },
            (Algorithm::Dh, None) => call == Err::<Call, Error>(
                Error::CryptoError(CryptoError::FindPrivkeyError),
            ),
            (Algorithm::Dh, Some(keypair)) => {
                &&& call matches Ok(Call::OpenSession { algorithm, input: SessionInput::Bytes(bytes) })
                &&& algorithm@ == encryption.name()
                &&& be_value(bytes@) == value_of(keypair.public)
                &&& keypair.wf() ==> bytes@ == be_bytes(value_of(keypair.public), 128)
            },
        }
    }

    /// The call that asks the service for a session.
    pub fn open_session(encryption: Algorithm, keypair: &Option<Keypair>) -> (call: Result<Call, Error>)
        ensures
            Self::requests_session(encryption, *keypair, call),
    {
        let algorithm = String::from_str(encryption.as_ref());
        match encryption {
            Algorithm::Plain => Ok(
                Call::OpenSession { algorithm, input: SessionInput::Text(String::from_str("")) },
            ),
            Algorithm::Dh => match keypair {
                Some(keypair) => Ok(
                    Call::OpenSession {
                        algorithm,
                        input: SessionInput::Bytes(keypair.public_bytes()),
                    },
                ),
                None => Err(Error::CryptoError(CryptoError::FindPrivkeyError)),
            },
        }
    }

    /// Whether `service` is what the answer `reply` to the request for a
    /// session comes to. Without encryption the path is all that counts.
    /// Under Diffie-Hellman the service must have answered with bytes, its
    /// public key, and the session holds the key derived from them.
    pub open spec fn opens_session(
        encryption: Algorithm,
        keypair: Option<Keypair>,
        reply: Reply,
        service: Result<Self, Error>,
    ) -> bool {
        match (reply, encryption, keypair) {
            (Reply::Failed(cause), _, _) => {
                &&& service is Err
                &&& service->Err_0 == Error::OpenSessionError(cause)
            },
            (Reply::SessionOpened { output, path }, Algorithm::Plain, _) => {
                &&& service is Ok
                &&& service->Ok_0.session.wf()
                &&& service->Ok_0.session.path == path
                &&& service->Ok_0.session.encryption == Algorithm::Plain
            },
            (Reply::SessionOpened { output: None, path }, Algorithm::Dh, _) => {
                &&& service is Err
                &&& service->Err_0 == Error::ParseSessionOutputError
            },
            (Reply::SessionOpened { output: Some(_), path }, Algorithm::Dh, None) => {
                &&& service is Err
                &&& service->Err_0 == Error::CryptoError(CryptoError::FindPrivkeyError)
            },
            (Reply::SessionOpened { output: Some(output), path }, Algorithm::Dh, Some(keypair)) => {
                &&& service is Ok
                &&& service->Ok_0.session.wf()
                &&& service->Ok_0.session.path == path
                &&& service->Ok_0.session.encryption == Algorithm::Dh
                &&& service->Ok_0.session.keypair == Some(keypair)
                &&& service->Ok_0.session.output == Some(output)
            },
            _ => {
                &&& service is Err
                &&& service->Err_0 == Error::UnexpectedInput
            },
        }
    }

    /// Reads what the request for a session brought.
    pub fn opened_session(encryption: Algorithm, keypair: Option<Keypair>, reply: Reply) -> (service: Result<Self, Error>)
        ensures
            Self::opens_session(encryption, keypair, reply, service),
    {
        match reply {
            Reply::Failed(cause) => Err(Error::OpenSessionError(cause)),
            Reply::SessionOpened { output, path } => match encryption {
                Algorithm::Plain => Ok(SecretService { session: Session::new_plain(path) }),
                Algorithm::Dh => match output {
                    None => Err(Error::ParseSessionOutputError),
                    Some(output) => match keypair {
                        None => Err(Error::CryptoError(CryptoError::FindPrivkeyError)),
                        Some(keypair) => Ok(
                            SecretService { session: Session::new_dh(path, keypair, output) },
                        ),
                    },
                },
            },
            _ => Err(Error::UnexpectedInput),
        }
    }
}

impl Collection {
    /// The collection at `path` of `service`.
    pub fn new(service: &SecretService, path: ObjectPath) -> (collection: Self)
        ensures
            collection.path == path,
    {
        Collection { path }
    }

    /// The label under which an entry is stored: the service, a colon and
    /// the account.
    pub open spec fn label(service: Seq<char>, account: Seq<char>) -> Seq<char> {
        service + LABEL_SEPARATOR@ + account
    }

    /// The call that searches the collection for the items of an entry.
    pub fn find_item(&self, service: &str, account: &str) -> (call: Call)
        ensures
            call@ == (CallView::SearchItems {
                collection: self.path@,
                service: service@,
                account: account@,
            }),
    {
        Call::SearchItems {
            collection: self.path.clone(),
            service: String::from_str(service),
            account: String::from_str(account),
        }
    }

    /// What a search comes to: the first item that was found, if any.
    pub open spec fn found(reply: Reply) -> Result<Option<Item>, Error> {
        match reply {
            Reply::Items(items) => if items@.len() > 0 {
                Ok(Some(Item { path: items@[0] }))
            } else {
                Ok(None)
            },
            Reply::Failed(cause) => Err(Error::SearchItemsError(cause)),
            _ => Err(Error::UnexpectedInput),
        }
    }

    /// Reads what a search brought: the first item that was found, if any.
    pub fn found_item(reply: Reply) -> (item: Result<Option<Item>, Error>)
        ensures
            item == Self::found(reply),
    {
        match reply {
            Reply::Items(items) => match first_path(items) {
                Some(path) => Ok(Some(Item { path })),
                None => Ok(None),
            },
            Reply::Failed(cause) => Err(Error::SearchItemsError(cause)),
            _ => Err(Error::UnexpectedInput),
        }
    }

    /// Reads what a search brought, as `found_item` does, but takes it as a
    /// failure that no item was found: the error names the entry.
    pub fn get_item(service: &str, account: &str, reply: Reply) -> (item: Result<Item, Error>)
        ensures
            match Self::found(reply) {
                Ok(Some(found)) => item == Ok::<Item, Error>(found),
                Ok(None) => item matches Err(Error::GetItemNotFoundError(missing, of))
                    && missing@ == service@ && of@ == account@,
                Err(error) => item == Err::<Item, Error>(error),
            },
    {
        match Self::found_item(reply) {
            Ok(Some(item)) => Ok(item),
            Ok(None) => Err(
                Error::GetItemNotFoundError(String::from_str(service), String::from_str(account)),
            ),
            Err(error) => Err(error),
        }
    }

    /// The call that stores a secret as the item of an entry, in place of
    /// the item that the entry may have. `secret` and `salt` travel as they
    /// are: under encryption they are the ciphertext and its salt.
    pub fn create_item(
        &self,
        session: &ObjectPath,
        service: &str,
        account: &str,
        secret: Secret,
        salt: Vec<u8>,
    ) -> (call: Call)
        ensures
            call@ == (CallView::CreateItem {
                collection: self.path@,
                label: Self::label(service@, account@),
                service: service@,
                account: account@,
                session: session@,
                params: salt@,
                value: secret@,
                content_type: CONTENT_TYPE@,
                replace: true,
            }),
    {
        let label = String::from_str(service).concat(LABEL_SEPARATOR).concat(account);
        Call::CreateItem {
            collection: self.path.clone(),
            label,
            service: String::from_str(service),
            account: String::from_str(account),
            session: session.clone(),
            params: salt,
            value: secret,
            content_type: String::from_str(CONTENT_TYPE),
            replace: true,
        }
    }

    /// What the creation of an item comes to: the item, or the prompt that
    /// stands in its way where the service returned no item.
    pub open spec fn created(reply: Reply) -> Result<Created, Error> {
        match reply {
            Reply::ItemCreated { item, prompt } => if item.is_empty_path() {
                Ok(Created::Prompt(prompt))
            } else {
                Ok(Created::Item(Item { path: item }))
            },
            Reply::Failed(cause) => Err(Error::CreateItemError(cause)),
            _ => Err(Error::UnexpectedInput),
        }
    }

    /// Reads what the creation of an item brought.
    pub fn created_item(reply: Reply) -> (created: Result<Created, Error>)
        ensures
            created == Self::created(reply),
    {
        match reply {
            Reply::ItemCreated { item, prompt } => if item.is_empty() {
                Ok(Created::Prompt(prompt))
            } else {
                Ok(Created::Item(Item { path: item }))
            },
            Reply::Failed(cause) => Err(Error::CreateItemError(cause)),
            _ => Err(Error::UnexpectedInput),
        }
    }
}

impl Item {
    /// The item at `path` of `service`.
    pub fn new(service: &SecretService, path: ObjectPath) -> (item: Self)
        ensures
            item.path == path,
    {
        Item { path }
    }

    /// The call that fetches the secret of the item.
    pub fn get_secret(&self, session: &ObjectPath) -> (call: Call)
        ensures
            call@ == (CallView::GetSecret { item: self.path@, session: session@ }),
    {
        Call::GetSecret { item: self.path.clone(), session: session.clone() }
    }

    /// What the fetch of a secret comes to: the secret tuple as the service
    /// sent it.
    pub open spec fn fetched(reply: Reply) -> Result<SecretTuple, Error> {
        match reply {
            Reply::Secret { session, params, value, content_type } => Ok(
                SecretTuple { session, params, value, content_type },
            ),
            Reply::Failed(cause) => Err(Error::GetSecretError(cause)),
            _ => Err(Error::UnexpectedInput),
        }
    }

    /// Reads what the fetch of a secret brought.
    pub fn fetched_secret(reply: Reply) -> (tuple: Result<SecretTuple, Error>)
        ensures
            tuple == Self::fetched(reply),
    {
        match reply {
            Reply::Secret { session, params, value, content_type } => Ok(
                SecretTuple { session, params, value, content_type },
            ),
            Reply::Failed(cause) => Err(Error::GetSecretError(cause)),
            _ => Err(Error::UnexpectedInput),
        }
    }

    /// The call that deletes the item.
    pub fn delete(&self) -> (call: Call)
        ensures
            call@ == (CallView::Delete { item: self.path@ }),
    {
        Call::Delete { item: self.path.clone() }
    }

    /// What a deletion comes to: the prompt path that the service returned.
    pub open spec fn removed(reply: Reply) -> Result<ObjectPath, Error> {
        match reply {
            Reply::Deleted { prompt } => Ok(prompt),
            Reply::Failed(cause) => Err(Error::DeleteItemError(cause)),
            _ => Err(Error::UnexpectedInput),
        }
    }

    /// Reads what a deletion brought.
    pub fn deleted(reply: Reply) -> (prompt: Result<ObjectPath, Error>)
        ensures
            prompt == Self::removed(reply),
    {
        match reply {
            Reply::Deleted { prompt } => Ok(prompt),
            Reply::Failed(cause) => Err(Error::DeleteItemError(cause)),
            _ => Err(Error::UnexpectedInput),
        }
    }
}

} // verus!
