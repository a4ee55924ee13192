//! The choice of the collection in which entries are kept.

use vstd::prelude::*;
use vstd::string::StringExecFns;
use crate::secret_service::common::{ALIAS_DEFAULT, ALIAS_SESSION, DEFAULT_COLLECTION_LABEL};
use crate::secret_service::error::{Error, ErrorView};
use crate::secret_service::message::{Call, CallView, Reply, Turn, TurnView};
use crate::secret_service::path::ObjectPath;
use crate::secret_service::prompt::{Prompt, PromptState};
use crate::secret_service::service::{first_path, Collection, SecretService};

verus! {

/// Where the choice of the collection stands.
#[derive(Debug)]
pub enum LookupState {
    /// Nothing was asked of the driver yet.
    Start,
    /// The alias `default` was asked for.
    DefaultAlias,
    /// The alias `session` was asked for.
    SessionAlias,
    /// The list of collections was asked for.
    Listing,
    /// The creation of a collection was asked for.
    Creating,
    /// The user is asked to allow the creation.
    Prompting(Prompt),
    /// The choice has ended.
    Finished,
}

/// Chooses the collection: the one that the alias `default` names, else the
/// one that the alias `session` names, else the first that the service has,
/// else one that is created for the purpose.
#[derive(Debug)]
pub struct DefaultCollection {
    pub state: LookupState,
}

impl DefaultCollection {
    /// The choice in the state `state`, and `turn`.
    pub open spec fn at(state: LookupState, turn: TurnView<Collection>) -> (Self, TurnView<Collection>) {
        (DefaultCollection { state }, turn)
    }

    /// The end of the choice with the collection at `path`.
    pub open spec fn chosen(path: ObjectPath) -> (Self, TurnView<Collection>) {
        Self::at(LookupState::Finished, TurnView::Done(Collection { path }))
    }

    /// The end of the choice with a failure.
    pub open spec fn failed(error: ErrorView) -> (Self, TurnView<Collection>) {
        Self::at(LookupState::Finished, TurnView::Failed(error))
    }

    /// What `resume` does: the choice afterwards, and what it returns.
    pub open spec fn resumed(self, reply: Option<Reply>) -> (Self, TurnView<Collection>) {
        match (self.state, reply) {
            (LookupState::Start, None) => Self::at(
                LookupState::DefaultAlias,
                TurnView::Call(CallView::ReadAlias { name: ALIAS_DEFAULT@ }),
            ),
            (_, None) => (self, TurnView::Failed(ErrorView::UnavailableInput)),
            (LookupState::DefaultAlias, Some(Reply::Alias(path))) => if path.is_empty_path() {
                Self::at(
                    LookupState::SessionAlias,
                    TurnView::Call(CallView::ReadAlias { name: ALIAS_SESSION@ }),
                )
            } else {
                Self::chosen(path)
            },
            (LookupState::DefaultAlias, Some(Reply::Failed(cause))) => Self::failed(
                Error::GetDefaultCollectionError(cause)@,
            ),
            (LookupState::SessionAlias, Some(Reply::Alias(path))) => if path.is_empty_path() {
                Self::at(LookupState::Listing, TurnView::Call(CallView::Collections))
            } else {
                Self::chosen(path)
            },
            (LookupState::SessionAlias, Some(Reply::Failed(cause))) => Self::failed(
                Error::GetSessionCollectionError(cause)@,
            ),
            (LookupState::Listing, Some(Reply::Collections(paths))) => if paths@.len() > 0 {
                Self::chosen(paths@[0])
            } else {
                Self::at(
                    LookupState::Creating,
                    TurnView::Call(
                        CallView::CreateCollection {
                            label: DEFAULT_COLLECTION_LABEL@,
                            alias: ALIAS_DEFAULT@,
                        },
                    ),
                )
            },
            (LookupState::Listing, Some(Reply::Failed(cause))) => Self::failed(
                Error::GetCollectionsError(cause)@,
            ),
            (
                LookupState::Creating,
                Some(Reply::CollectionCreated { collection, prompt }),
            ) => if collection.is_empty_path() {
                Self::prompted(Prompt { path: prompt, state: PromptState::Start }.resumed(None))
            } else {
                Self::chosen(collection)
            },
            (LookupState::Creating, Some(Reply::Failed(cause))) => Self::failed(
                Error::CreateDefaultCollectionError(cause)@,
            ),
            (LookupState::Prompting(prompt), Some(reply)) => Self::prompted(
                prompt.resumed(Some(reply)),
            ),
            (_, Some(_)) => Self::failed(ErrorView::UnexpectedInput),
        }
    }

    /// What a step of the prompt means for the choice: the call is passed
    /// on, and the path that the prompt ends with is the collection.
    pub open spec fn prompted(step: (Prompt, TurnView<ObjectPath>)) -> (Self, TurnView<Collection>) {
        match step.1 {
            TurnView::Call(call) => Self::at(LookupState::Prompting(step.0), TurnView::Call(call)),
            TurnView::Done(path) => Self::chosen(path),
            TurnView::Failed(error) => Self::failed(error),
        }
    }

    /// The choice, before anything was asked of the driver.
    pub fn new() -> (lookup: Self)
        ensures
            lookup.state == LookupState::Start,
    {
        DefaultCollection { state: LookupState::Start }
    }

    fn prompt(&mut self, prompt: Prompt, reply: Option<Reply>) -> (turn: Turn<Collection>)
        ensures
            (*final(self), turn@) == Self::prompted(prompt.resumed(reply)),
    {
        let mut prompt = prompt;
        match prompt.resume(reply) {
            Turn::Call(call) => {
                self.state = LookupState::Prompting(prompt);
                Turn::Call(call)
            },
            Turn::Done(path) => {
                self.state = LookupState::Finished;
                Turn::Done(Collection { path })
            },
            Turn::Failed(error) => {
                self.state = LookupState::Finished;
                Turn::Failed(error)
            },
        }
    }

    /// Moves the choice on by what the driver hands in: nothing at first,
    /// then what each call brought.
    pub fn resume(&mut self, reply: Option<Reply>) -> (turn: Turn<Collection>)
        ensures
            (*final(self), turn@) == old(self).resumed(reply),
    {
        let mut state = LookupState::Finished;
        core::mem::swap(&mut self.state, &mut state);
        match (state, reply) {
            (LookupState::Start, None) => {
                self.state = LookupState::DefaultAlias;
                Turn::Call(Call::ReadAlias { name: String::from_str(ALIAS_DEFAULT) })
            },
            (state, None) => {
                self.state = state;
                Turn::Failed(Error::UnavailableInput)
            },
            (LookupState::DefaultAlias, Some(Reply::Alias(path))) => {
                if path.is_empty() {
                    self.state = LookupState::SessionAlias;
                    Turn::Call(Call::ReadAlias { name: String::from_str(ALIAS_SESSION) })
                } else {
                    Turn::Done(Collection { path })
                }
            },
            (LookupState::DefaultAlias, Some(Reply::Failed(cause))) => {
                Turn::Failed(Error::GetDefaultCollectionError(cause))
            },
            (LookupState::SessionAlias, Some(Reply::Alias(path))) => {
                if path.is_empty() {
                    self.state = LookupState::Listing;
                    Turn::Call(Call::Collections)
                } else {
                    Turn::Done(Collection { path })
                }
            },
            (LookupState::SessionAlias, Some(Reply::Failed(cause))) => {
                Turn::Failed(Error::GetSessionCollectionError(cause))
            },
            (LookupState::Listing, Some(Reply::Collections(paths))) => {
                match first_path(paths) {
                    Some(path) => Turn::Done(Collection { path }),
                    None => {
                        self.state = LookupState::Creating;
                        Turn::Call(
                            Call::CreateCollection {
                                label: String::from_str(DEFAULT_COLLECTION_LABEL),
                                alias: String::from_str(ALIAS_DEFAULT),
                            },
                        )
                    },
                }
            },
            (LookupState::Listing, Some(Reply::Failed(cause))) => {
                Turn::Failed(Error::GetCollectionsError(cause))
            },
            (LookupState::Creating, Some(Reply::CollectionCreated { collection, prompt })) => {
                if collection.is_empty() {
                    self.prompt(Prompt::new(prompt), None)
                } else {
                    Turn::Done(Collection { path: collection })
                }
            },
            (LookupState::Creating, Some(Reply::Failed(cause))) => {
                Turn::Failed(Error::CreateDefaultCollectionError(cause))
            },
            (LookupState::Prompting(prompt), Some(reply)) => self.prompt(prompt, Some(reply)),
            (_, Some(_)) => Turn::Failed(Error::UnexpectedInput),
        }
    }

    /// A collection that an alias names is taken as it is: the choice ends
    /// with it, and asks for nothing more.
    pub proof fn lemma_alias_ends_the_choice(self, path: ObjectPath)
        requires
            self.state is DefaultAlias || self.state is SessionAlias,
            !path.is_empty_path(),
        ensures
            self.resumed(Some(Reply::Alias(path))) == Self::chosen(path),
    {
    }

    /// The aliases are tried in their order, the list after them: an alias
    /// that names nothing leads to the next call, never to the creation of
    /// a collection.
    pub proof fn lemma_fallback_order(path: ObjectPath)
        requires
            path.is_empty_path(),
        ensures
            (DefaultCollection { state: LookupState::Start }).resumed(None) == Self::at(
                LookupState::DefaultAlias,
                TurnView::Call(CallView::ReadAlias { name: ALIAS_DEFAULT@ }),
            ),
            (DefaultCollection { state: LookupState::DefaultAlias }).resumed(
                Some(Reply::Alias(path)),
            ) == Self::at(
                LookupState::SessionAlias,
                TurnView::Call(CallView::ReadAlias { name: ALIAS_SESSION@ }),
            ),
            (DefaultCollection { state: LookupState::SessionAlias }).resumed(
                Some(Reply::Alias(path)),
            ) == Self::at(LookupState::Listing, TurnView::Call(CallView::Collections)),
    {
    }

    /// A choice that has ended stays ended: whatever is handed in, it
    /// reports a misuse and asks for nothing.
    pub proof fn lemma_finished_stays_finished(self, reply: Option<Reply>)
        requires
            self.state is Finished,
        ensures
            self.resumed(reply).0 == self,
            self.resumed(reply).1 is Failed,
    {
    }
}

impl SecretService {
    /// The choice of the collection in which entries are kept.
    pub fn get_default_collection(&self) -> (lookup: DefaultCollection)
        ensures
            lookup.state == LookupState::Start,
    {
        DefaultCollection::new()
    }

    /// The prompt at `path`.
    pub fn prompt(&self, path: ObjectPath) -> (prompt: Prompt)
        ensures
            prompt.path == path,
            prompt.state == PromptState::Start,
    {
        Prompt::new(path)
    }
}

} // verus!
