//! What a Secret Service keeps, as far as the driver can tell: a model of
//! the service, against which the driver's work is stated.
//!
//! The model is what the laws of this module assume of the service. They
//! hold of every service that keeps the item it was asked to create until
//! it is asked to delete it, and that answers from what it keeps.

use vstd::prelude::*;
use crate::secret::Secret;
use crate::secret_service::connector::{IoConnector, Pending};
use crate::secret_service::crypto::connector::salt_or_empty;
use crate::secret_service::error::ErrorView;
use crate::secret_service::message::{CallView, Reply, TurnView};
use crate::secret_service::service::{Collection, SecretTuple};

verus! {

/// The collection, the service and the account under which an item is kept.
pub type Place = (Seq<char>, Seq<char>, Seq<char>);

/// One kept item: its path, and the parameters and the value of its secret.
pub struct Kept {
    pub item: Seq<char>,
    pub params: Seq<u8>,
    pub value: Seq<u8>,
}

/// What a service keeps: at most one item per place.
pub struct Keep {
    pub items: Map<Place, Kept>,
}

impl Keep {
    /// Whether no other place holds an item at the path `item`.
    pub open spec fn free_for(self, place: Place, item: Seq<char>) -> bool {
        forall|other: Place|
            self.items.dom().contains(other) && other != place ==> (#[trigger] self.items[other]).item
                != item
    }

    /// What is kept once the service has created, at the path `item`, the
    /// item that `call` asks for: it takes the place of the item that was
    /// kept for the entry.
    pub open spec fn after_create(self, call: CallView, item: Seq<char>) -> Keep {
        match call {
            CallView::CreateItem { collection, service, account, params, value, .. } => Keep {
                items: self.items.insert(
                    (collection, service, account),
                    Kept { item, params, value },
                ),
            },
            _ => self,
        }
    }

    /// What is kept once the service has deleted the item at `item`.
    pub open spec fn after_delete(self, item: Seq<char>) -> Keep {
        Keep {
            items: Map::new(
                |place: Place| self.items.dom().contains(place) && self.items[place].item != item,
                |place: Place| self.items[place],
            ),
        }
    }

    /// Whether `reply` is what a service that keeps this answers to `call`.
    /// A search finds the item of the entry first, or nothing where none is
    /// kept; the fetch of a secret brings the parameters and the value of
    /// the item at the path. Nothing is asked of other answers.
    pub open spec fn answers(self, call: CallView, reply: Reply) -> bool {
        match call {
            CallView::SearchItems { collection, service, account } => {
                let place = (collection, service, account);
                &&& reply is Items
                &&& self.items.dom().contains(place) ==> reply->Items_0@.len() > 0
                    && reply->Items_0@[0]@ == self.items[place].item
                &&& !self.items.dom().contains(place) ==> reply->Items_0@.len() == 0
            },
            CallView::GetSecret { item, session } => {
                &&& reply is Secret
                &&& forall|place: Place|
                    self.items.dom().contains(place) && (#[trigger] self.items[place]).item == item
                        ==> reply->Secret_params@ == self.items[place].params
                        && reply->Secret_value@ == self.items[place].value
            },
            _ => true,
        }
    }
}

impl IoConnector {
    /// The driver in the middle of `pending`.
    pub open spec fn amid(self, pending: Pending) -> Self {
        IoConnector { service: self.service, dbus: self.dbus, pending }
    }

    /// What is written is read back. Let a service create at `made` the
    /// item that a write of `secret` and `salt` asks for in `collection`,
    /// and let it then answer the search and the fetch of a read of the
    /// same entry in the same collection from what it keeps. Then the read
    /// asks for the secret of the very item at `made`, and ends well with
    /// the bytes of `secret` and of `salt` for the flow.
    pub proof fn lemma_write_then_read(
        self,
        keep: Keep,
        collection: Collection,
        key: Seq<char>,
        secret: Secret,
        salt: Option<Vec<u8>>,
        made: Seq<char>,
        found: Reply,
        fetched: Reply,
    )
        requires
            keep.free_for((collection.path@, self.service@, key), made),
            keep.after_create(self.store(collection, key, secret, salt), made).answers(
                self.search(collection, key),
                found,
            ),
            keep.after_create(self.store(collection, key, secret, salt), made).answers(
                CallView::GetSecret { item: made, session: self.dbus.session.path@ },
                fetched,
            ),
        ensures
            self.amid(Pending::ReadSearch).read_step(key, Some(found)).0 == (
                Pending::ReadSecret,
                TurnView::<()>::Call(
                    CallView::GetSecret { item: made, session: self.dbus.session.path@ },
                ),
            ),
            self.amid(Pending::ReadSecret).read_step(key, Some(fetched)).0 == (
                Pending::Idle,
                TurnView::Done(()),
            ),
            self.amid(Pending::ReadSecret).read_step(key, Some(fetched)).1 matches Some(tuple)
                && tuple.value@ == secret@ && tuple.params@ == salt_or_empty(salt),
    {
        let place = (collection.path@, self.service@, key);
        let kept = keep.after_create(self.store(collection, key, secret, salt), made);
        assert(kept.items.dom().contains(place));
        assert(kept.items[place].item == made);
    }

    /// What is deleted is gone. Let a service that keeps the item of an
    /// entry at `made` answer the search of a deletion, delete the item,
    /// and then answer the search of a read and of a second deletion from
    /// what it keeps. Then the deletion asks to delete the very item at
    /// `made`, and the read and the second deletion both end with the
    /// failure that names the entry.
    pub proof fn lemma_delete_then_read(
        self,
        keep: Keep,
        collection: Collection,
        key: Seq<char>,
        made: Seq<char>,
        found: Reply,
        sought: Reply,
    )
        requires
            keep.items.dom().contains((collection.path@, self.service@, key)),
            keep.items[(collection.path@, self.service@, key)].item == made,
            keep.answers(self.search(collection, key), found),
            keep.after_delete(made).answers(self.search(collection, key), sought),
        ensures
            self.amid(Pending::DeleteSearch).delete_step(key, Some(found)) == (
                Pending::DeleteItem,
                TurnView::<()>::Call(CallView::Delete { item: made }),
            ),
            self.amid(Pending::ReadSearch).read_step(key, Some(sought)) == (
                Self::failed(ErrorView::GetItemNotFoundError(self.service@, key)),
                None::<SecretTuple>,
            ),
            self.amid(Pending::DeleteSearch).delete_step(key, Some(sought)) == Self::failed(
                ErrorView::GetItemNotFoundError(self.service@, key),
            ),
    {
        let place = (collection.path@, self.service@, key);
        assert(!keep.after_delete(made).items.dom().contains(place));
    }
}

} // verus!
