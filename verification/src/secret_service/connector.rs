//! The driver of the entry steps: reads, writes and deletes the item of an
//! entry, one call to the service at a time.

use vstd::prelude::*;
use vstd::string::StringExecFns;
use crate::secret::{bytes_of, Secret};
use crate::secret_service::common::CONTENT_TYPE;
use crate::secret_service::crypto::connector::salt_or_empty;
use crate::secret_service::default_collection::{DefaultCollection, LookupState};
use crate::secret_service::error::{Error, ErrorView};
use crate::secret_service::flow::Flow;
use crate::secret_service::message::{Call, CallView, Reply, Turn, TurnView};
use crate::secret_service::path::ObjectPath;
use crate::secret_service::prompt::{Prompt, PromptState};
use crate::secret_service::service::{Collection, Created, Item, SecretService, SecretTuple};
use crate::secret_service::session::Session;

verus! {

/// What the driver is in the middle of.
pub enum Pending {
    /// Nothing.
    Idle,
    /// A read, at the choice of the collection.
    ReadCollection(DefaultCollection),
    /// A read, at the search for the item.
    ReadSearch,
    /// A read, at the fetch of the secret.
    ReadSecret,
    /// A write, at the choice of the collection; the secret and the salt
    /// that were taken from the flow wait here.
    WriteCollection(DefaultCollection, Secret, Option<Vec<u8>>),
    /// A write, at the creation of the item.
    WriteCreate,
    /// A write, at the prompt that stands in the way of the item.
    WritePrompt(Prompt),
    /// A deletion, at the choice of the collection.
    DeleteCollection(DefaultCollection),
    /// A deletion, at the search for the item.
    DeleteSearch,
    /// A deletion, at the deletion of the item.
    DeleteItem,
}

/// Serves the entry steps of flows against one service, for the entries of
/// one keyring service.
pub struct IoConnector {
    pub service: String,
    pub dbus: SecretService,
    pub pending: Pending,
}

/// What a step of the driver comes to: what it is in the middle of
/// afterwards, and what it returns.
pub type Step = (Pending, TurnView<()>);

impl IoConnector {
    /// The end of an operation with a failure.
    pub open spec fn failed(error: ErrorView) -> Step {
        (Pending::Idle, TurnView::Failed(error))
    }

    /// The call that searches `collection` for the item of the entry `key`.
    pub open spec fn search(self, collection: Collection, key: Seq<char>) -> CallView {
        CallView::SearchItems { collection: collection.path@, service: self.service@, account: key }
    }

    /// What the search for the item of the entry `key` comes to: the item,
    /// or the failure that names the entry where there is none.
    pub open spec fn sought(self, key: Seq<char>, reply: Reply) -> Result<Item, ErrorView> {
        match Collection::found(reply) {
            Ok(Some(item)) => Ok(item),
            Ok(None) => Err(ErrorView::GetItemNotFoundError(self.service@, key)),
            Err(error) => Err(error@),
        }
    }

    /// What a step of the choice of the collection means for a read: the
    /// call is passed on, and the collection that the choice ends with is
    /// searched for the item of the entry.
    pub open spec fn read_looked_up(
        self,
        key: Seq<char>,
        step: (DefaultCollection, TurnView<Collection>),
    ) -> Step {
        match step.1 {
            TurnView::Call(call) => (Pending::ReadCollection(step.0), TurnView::Call(call)),
            TurnView::Done(collection) => (
                Pending::ReadSearch,
                TurnView::Call(self.search(collection, key)),
            ),
            TurnView::Failed(error) => Self::failed(error),
        }
    }

    /// What `read` does to the driver and returns, and the secret tuple
    /// that it hands to the flow where the read ends well.
    pub open spec fn read_step(self, key: Seq<char>, reply: Option<Reply>) -> (Step, Option<SecretTuple>) {
        match (self.pending, reply) {
            (Pending::Idle, None) => (
                self.read_looked_up(
                    key,
                    DefaultCollection { state: LookupState::Start }.resumed(None),
                ),
                None,
            ),
            (pending, None) => ((pending, TurnView::Failed(ErrorView::UnavailableInput)), None),
            (Pending::ReadCollection(lookup), Some(reply)) => (
                self.read_looked_up(key, lookup.resumed(Some(reply))),
                None,
            ),
            (Pending::ReadSearch, Some(reply)) => match self.sought(key, reply) {
                Ok(item) => (
                    (
                        Pending::ReadSecret,
                        TurnView::Call(
                            CallView::GetSecret {
                                item: item.path@,
                                session: self.dbus.session.path@,
                            },
                        ),
                    ),
                    None,
                ),
                Err(error) => (Self::failed(error), None),
            },
            (Pending::ReadSecret, Some(reply)) => match Item::fetched(reply) {
                Ok(tuple) => ((Pending::Idle, TurnView::Done(())), Some(tuple)),
                Err(error) => (Self::failed(error@), None),
            },
            (_, Some(_)) => (Self::failed(ErrorView::UnexpectedInput), None),
        }
    }

    /// The driver for the entries of the keyring service `service`, on the
    /// open Secret Service `dbus`.
    pub fn new(service: &str, dbus: SecretService) -> (connector: Self)
        ensures
            connector.service@ == service@,
            connector.dbus == dbus,
            connector.pending is Idle,
    {
        IoConnector { service: String::from_str(service), dbus, pending: Pending::Idle }
    }

    /// The session of the service.
    pub fn session(&mut self) -> (session: &mut Session)
        ensures
            *session == old(self).dbus.session,
            final(self).dbus.session == *final(session),
            final(self).service == old(self).service,
            final(self).pending == old(self).pending,
    {
        &mut self.dbus.session
    }

    fn read_lookup<F: Flow>(&mut self, flow: &F, lookup: DefaultCollection, reply: Option<Reply>) -> (turn:
        Turn<()>)
        ensures
            final(self).service == old(self).service,
            final(self).dbus == old(self).dbus,
            (final(self).pending, turn@) == old(self).read_looked_up(
                flow.key(),
                lookup.resumed(reply),
            ),
    {
        let mut lookup = lookup;
        match lookup.resume(reply) {
            Turn::Call(call) => {
                self.pending = Pending::ReadCollection(lookup);
                Turn::Call(call)
            },
            Turn::Done(collection) => {
                self.pending = Pending::ReadSearch;
                Turn::Call(collection.find_item(self.service.as_str(), flow.get_key()))
            },
            Turn::Failed(error) => {
                self.pending = Pending::Idle;
                Turn::Failed(error)
            },
        }
    }

    /// Serves the read step of a flow, one call at a time: chooses the
    /// collection, searches it for the item of the entry, and fetches the
    /// secret. In the end the flow holds the value of the secret tuple as
    /// its secret and the parameters as its salt; until then, and on a
    /// failure, the flow stays as it was.
    pub fn read<F: Flow>(&mut self, flow: &mut F, reply: Option<Reply>) -> (turn: Turn<()>)
        ensures
            final(self).service == old(self).service,
            final(self).dbus == old(self).dbus,
            (final(self).pending, turn@) == old(self).read_step(old(flow).key(), reply).0,
            final(flow).key() == old(flow).key(),
            match old(self).read_step(old(flow).key(), reply).1 {
                Some(tuple) => {
                    &&& bytes_of(final(flow).secret()) == Some(tuple.value@)
                    &&& final(flow).salt() == Some(tuple.params)
                },
                None => {
                    &&& final(flow).secret() == old(flow).secret()
                    &&& final(flow).salt() == old(flow).salt()
                },
            },
    {
        let mut pending = Pending::Idle;
        core::mem::swap(&mut self.pending, &mut pending);
        match (pending, reply) {
            (Pending::Idle, None) => {
                let lookup = self.dbus.get_default_collection();
                self.read_lookup(flow, lookup, None)
            },
            (pending, None) => {
                self.pending = pending;
                Turn::Failed(Error::UnavailableInput)
            },
            (Pending::ReadCollection(lookup), Some(reply)) => {
                self.read_lookup(flow, lookup, Some(reply))
            },
            (Pending::ReadSearch, Some(reply)) => {
                match Collection::get_item(self.service.as_str(), flow.get_key(), reply) {
                    Ok(item) => {
                        self.pending = Pending::ReadSecret;
                        Turn::Call(item.get_secret(&self.dbus.session.path))
                    },
                    Err(error) => Turn::Failed(error),
                }
            },
            (Pending::ReadSecret, Some(reply)) => match Item::fetched_secret(reply) {
                Ok(tuple) => {
                    flow.put_secret(Secret::new(tuple.value));
                    flow.put_salt(tuple.params);
                    Turn::Done(())
                },
                Err(error) => Turn::Failed(error),
            },
            (_, Some(_)) => Turn::Failed(Error::UnexpectedInput),
        }
    }
}

impl IoConnector {
    /// Whether there is something to write: a secret of at least one byte.
    pub open spec fn writable(secret: Option<Secret>) -> bool {
        secret matches Some(secret) && secret@.len() > 0
    }

    /// The call that stores `secret` with `salt` as the item of the entry
    /// `key` in `collection`.
    pub open spec fn store(
        self,
        collection: Collection,
        key: Seq<char>,
        secret: Secret,
        salt: Option<Vec<u8>>,
    ) -> CallView {
        CallView::CreateItem {
            collection: collection.path@,
            label: Collection::label(self.service@, key),
            service: self.service@,
            account: key,
            session: self.dbus.session.path@,
            params: salt_or_empty(salt),
            value: secret@,
            content_type: CONTENT_TYPE@,
            replace: true,
        }
    }

    /// What a step of the prompt means for a write: the call is passed on,
    /// and the write has ended once the prompt has.
    pub open spec fn write_prompted(step: (Prompt, TurnView<ObjectPath>)) -> Step {
        match step.1 {
            TurnView::Call(call) => (Pending::WritePrompt(step.0), TurnView::Call(call)),
            TurnView::Done(_) => (Pending::Idle, TurnView::Done(())),
            TurnView::Failed(error) => Self::failed(error),
        }
    }

    /// What a step of the choice of the collection means for a write: the
    /// call is passed on, and in the collection that the choice ends with
    /// the item is created.
    pub open spec fn write_looked_up(
        self,
        key: Seq<char>,
        secret: Secret,
        salt: Option<Vec<u8>>,
        step: (DefaultCollection, TurnView<Collection>),
    ) -> Step {
        match step.1 {
            TurnView::Call(call) => (
                Pending::WriteCollection(step.0, secret, salt),
                TurnView::Call(call),
            ),
            TurnView::Done(collection) => (
                Pending::WriteCreate,
                TurnView::Call(self.store(collection, key, secret, salt)),
            ),
            TurnView::Failed(error) => Self::failed(error),
        }
    }

    /// What `write` does to the driver and returns. `secret` and `salt` are
    /// what the flow holds.
    pub open spec fn write_step(
        self,
        key: Seq<char>,
        secret: Option<Secret>,
        salt: Option<Vec<u8>>,
        reply: Option<Reply>,
    ) -> Step {
        match (self.pending, reply) {
            (Pending::Idle, None) => if Self::writable(secret) {
                self.write_looked_up(
                    key,
                    secret->0,
                    salt,
                    DefaultCollection { state: LookupState::Start }.resumed(None),
                )
            } else {
                Self::failed(ErrorView::WriteEmptySecretError)
            },
            (pending, None) => (pending, TurnView::Failed(ErrorView::UnavailableInput)),
            (Pending::WriteCollection(lookup, secret, salt), Some(reply)) => self.write_looked_up(
                key,
                secret,
                salt,
                lookup.resumed(Some(reply)),
            ),
            (Pending::WriteCreate, Some(reply)) => match Collection::created(reply) {
                Ok(Created::Item(_)) => (Pending::Idle, TurnView::Done(())),
                Ok(Created::Prompt(path)) => Self::write_prompted(
                    Prompt { path, state: PromptState::Start }.resumed(None),
                ),
                Err(error) => Self::failed(error@),
            },
            (Pending::WritePrompt(prompt), Some(reply)) => Self::write_prompted(
                prompt.resumed(Some(reply)),
            ),
            (_, Some(_)) => Self::failed(ErrorView::UnexpectedInput),
        }
    }

    /// Whether a step of `write` takes the secret and the salt out of the
    /// flow: the first step does, where there is something to write.
    pub open spec fn write_takes(self, secret: Option<Secret>, reply: Option<Reply>) -> bool {
        self.pending is Idle && reply is None && Self::writable(secret)
    }

    fn write_prompt(&mut self, prompt: Prompt, reply: Option<Reply>) -> (turn: Turn<()>)
        ensures
            final(self).service == old(self).service,
            final(self).dbus == old(self).dbus,
            (final(self).pending, turn@) == Self::write_prompted(prompt.resumed(reply)),
    {
        let mut prompt = prompt;
        match prompt.resume(reply) {
            Turn::Call(call) => {
                self.pending = Pending::WritePrompt(prompt);
                Turn::Call(call)
            },
            Turn::Done(_) => {
                self.pending = Pending::Idle;
                Turn::Done(())
            },
            Turn::Failed(error) => {
                self.pending = Pending::Idle;
                Turn::Failed(error)
            },
        }
    }

    fn write_lookup<F: Flow>(
        &mut self,
        flow: &F,
        secret: Secret,
        salt: Option<Vec<u8>>,
        lookup: DefaultCollection,
        reply: Option<Reply>,
    ) -> (turn: Turn<()>)
        ensures
            final(self).service == old(self).service,
            final(self).dbus == old(self).dbus,
            (final(self).pending, turn@) == old(self).write_looked_up(
                flow.key(),
                secret,
                salt,
                lookup.resumed(reply),
            ),
    {
        let mut lookup = lookup;
        match lookup.resume(reply) {
            Turn::Call(call) => {
                self.pending = Pending::WriteCollection(lookup, secret, salt);
                Turn::Call(call)
            },
            Turn::Done(collection) => {
                self.pending = Pending::WriteCreate;
                let params = match salt {
                    Some(salt) => salt,
                    None => Vec::new(),
                };
                Turn::Call(
                    collection.create_item(
                        &self.dbus.session.path,
                        self.service.as_str(),
                        flow.get_key(),
                        secret,
                        params,
                    ),
                )
            },
            Turn::Failed(error) => {
                self.pending = Pending::Idle;
                Turn::Failed(error)
            },
        }
    }

    /// Serves the write step of a flow, one call at a time. The first step
    /// takes the secret and the salt out of the flow, and fails before any
    /// call where the flow holds no secret or one without bytes; the flow
    /// then stays as it was. The steps after it choose the collection and
    /// create the item, in place of the one that the entry may have, and
    /// see the prompt through where the service asks for one.
    pub fn write<F: Flow>(&mut self, flow: &mut F, reply: Option<Reply>) -> (turn: Turn<()>)
        ensures
            final(self).service == old(self).service,
            final(self).dbus == old(self).dbus,
            (final(self).pending, turn@) == old(self).write_step(
                old(flow).key(),
                old(flow).secret(),
                old(flow).salt(),
                reply,
            ),
            final(flow).key() == old(flow).key(),
            old(self).write_takes(old(flow).secret(), reply) ==> final(flow).secret() is None
                && final(flow).salt() is None,
            !old(self).write_takes(old(flow).secret(), reply) ==> {
                &&& final(flow).secret() == old(flow).secret()
                &&& final(flow).salt() == old(flow).salt()
            },
    {
        let mut pending = Pending::Idle;
        core::mem::swap(&mut self.pending, &mut pending);
        match (pending, reply) {
            (Pending::Idle, None) => {
                let secret = match flow.take_secret() {
                    Some(secret) => secret,
                    None => { return Turn::Failed(Error::WriteEmptySecretError); },
                };
                if secret.is_empty() {
                    flow.put_secret(secret);
                    return Turn::Failed(Error::WriteEmptySecretError);
                }
                let salt = flow.take_salt();
                let lookup = self.dbus.get_default_collection();
                self.write_lookup(flow, secret, salt, lookup, None)
            },
            (pending, None) => {
                self.pending = pending;
                Turn::Failed(Error::UnavailableInput)
            },
            (Pending::WriteCollection(lookup, secret, salt), Some(reply)) => {
                self.write_lookup(flow, secret, salt, lookup, Some(reply))
            },
            (Pending::WriteCreate, Some(reply)) => match Collection::created_item(reply) {
                Ok(Created::Item(_)) => Turn::Done(()),
                Ok(Created::Prompt(path)) => {
                    let prompt = self.dbus.prompt(path);
                    self.write_prompt(prompt, None)
                },
                Err(error) => Turn::Failed(error),
            },
            (Pending::WritePrompt(prompt), Some(reply)) => self.write_prompt(prompt, Some(reply)),
            (_, Some(_)) => Turn::Failed(Error::UnexpectedInput),
        }
    }

    /// What a step of the choice of the collection means for a deletion:
    /// the call is passed on, and the collection that the choice ends with
    /// is searched for the item of the entry.
    pub open spec fn delete_looked_up(
        self,
        key: Seq<char>,
        step: (DefaultCollection, TurnView<Collection>),
    ) -> Step {
        match step.1 {
            TurnView::Call(call) => (Pending::DeleteCollection(step.0), TurnView::Call(call)),
            TurnView::Done(collection) => (
                Pending::DeleteSearch,
                TurnView::Call(self.search(collection, key)),
            ),
            TurnView::Failed(error) => Self::failed(error),
        }
    }

    /// What `delete` does to the driver and returns.
    pub open spec fn delete_step(self, key: Seq<char>, reply: Option<Reply>) -> Step {
        match (self.pending, reply) {
            (Pending::Idle, None) => self.delete_looked_up(
                key,
                DefaultCollection { state: LookupState::Start }.resumed(None),
            ),
            (pending, None) => (pending, TurnView::Failed(ErrorView::UnavailableInput)),
            (Pending::DeleteCollection(lookup), Some(reply)) => self.delete_looked_up(
                key,
                lookup.resumed(Some(reply)),
            ),
            (Pending::DeleteSearch, Some(reply)) => match self.sought(key, reply) {
                Ok(item) => (
                    Pending::DeleteItem,
                    TurnView::Call(CallView::Delete { item: item.path@ }),
                ),
                Err(error) => Self::failed(error),
            },
            (Pending::DeleteItem, Some(reply)) => match Item::removed(reply) {
                Ok(_) => (Pending::Idle, TurnView::Done(())),
                Err(error) => Self::failed(error@),
            },
            (_, Some(_)) => Self::failed(ErrorView::UnexpectedInput),
        }
    }

    fn delete_lookup<F: Flow>(&mut self, flow: &F, lookup: DefaultCollection, reply: Option<Reply>) -> (turn:
        Turn<()>)
        ensures
            final(self).service == old(self).service,
            final(self).dbus == old(self).dbus,
            (final(self).pending, turn@) == old(self).delete_looked_up(
                flow.key(),
                lookup.resumed(reply),
            ),
    {
        let mut lookup = lookup;
        match lookup.resume(reply) {
            Turn::Call(call) => {
                self.pending = Pending::DeleteCollection(lookup);
                Turn::Call(call)
            },
            Turn::Done(collection) => {
                self.pending = Pending::DeleteSearch;
                Turn::Call(collection.find_item(self.service.as_str(), flow.get_key()))
            },
            Turn::Failed(error) => {
                self.pending = Pending::Idle;
                Turn::Failed(error)
            },
        }
    }

    /// Serves the delete step of a flow, one call at a time: chooses the
    /// collection, searches it for the item of the entry, and deletes the
    /// item. The flow stays as it was.
    pub fn delete<F: Flow>(&mut self, flow: &mut F, reply: Option<Reply>) -> (turn: Turn<()>)
        ensures
            final(self).service == old(self).service,
            final(self).dbus == old(self).dbus,
            (final(self).pending, turn@) == old(self).delete_step(old(flow).key(), reply),
            *final(flow) == *old(flow),
    {
        let mut pending = Pending::Idle;
        core::mem::swap(&mut self.pending, &mut pending);
        match (pending, reply) {
            (Pending::Idle, None) => {
                let lookup = self.dbus.get_default_collection();
                self.delete_lookup(flow, lookup, None)
            },
            (pending, None) => {
                self.pending = pending;
                Turn::Failed(Error::UnavailableInput)
            },
            (Pending::DeleteCollection(lookup), Some(reply)) => {
                self.delete_lookup(flow, lookup, Some(reply))
            },
            (Pending::DeleteSearch, Some(reply)) => {
                match Collection::get_item(self.service.as_str(), flow.get_key(), reply) {
                    Ok(item) => {
                        self.pending = Pending::DeleteItem;
                        Turn::Call(item.delete())
                    },
                    Err(error) => Turn::Failed(error),
                }
            },
            (Pending::DeleteItem, Some(reply)) => match Item::deleted(reply) {
                Ok(_) => Turn::Done(()),
                Err(error) => Turn::Failed(error),
            },
            (_, Some(_)) => Turn::Failed(Error::UnexpectedInput),
        }
    }
}

impl IoConnector {
    /// A write of nothing, or of a secret without bytes, fails at its first
    /// step, before any call is asked for, and leaves the driver idle.
    pub proof fn lemma_empty_write_fails_before_any_call(
        self,
        key: Seq<char>,
        secret: Option<Secret>,
        salt: Option<Vec<u8>>,
    )
        requires
            self.pending is Idle,
            !Self::writable(secret),
        ensures
            self.write_step(key, secret, salt, None) == Self::failed(
                ErrorView::WriteEmptySecretError,
            ),
            !self.write_takes(secret, None),
    {
    }

    /// Where the search finds no item, a read and a deletion alike end with
    /// the failure that names the entry: so does a read after a deletion,
    /// and a second deletion.
    pub proof fn lemma_missing_item_is_not_found(self, key: Seq<char>, items: Vec<ObjectPath>)
        requires
            items@.len() == 0,
        ensures
            self.pending is ReadSearch ==> self.read_step(key, Some(Reply::Items(items))) == (
                Self::failed(ErrorView::GetItemNotFoundError(self.service@, key)),
                None::<SecretTuple>,
            ),
            self.pending is DeleteSearch ==> self.delete_step(key, Some(Reply::Items(items)))
                == Self::failed(ErrorView::GetItemNotFoundError(self.service@, key)),
    {
    }
}

} // verus!
