//! A view into a collection, and the moves along the linked list that the
//! viewed item stands in.

use vstd::prelude::*;
use vstd::future::FutureAdditionalSpecFns;
use core::future::Future;
use crate::{DocumentId, LinkedList};
use crate::adapters::{map_ok, map_output, optional};
use crate::tier_collection::TierListCollection;

verus! {

/// Whether `item` is something that the conversion of `document` may give.
pub open spec fn converts<D: Into<T>, T>(document: D, item: T) -> bool {
    call_ensures(<D as Into<T>>::into, (document,), item)
}

/// Whether `item` is `collection`'s document `id` as the caller sees it: the
/// conversion of a document that a fetch of `id` may give.
pub open spec fn stored_as<T, Coll>(collection: Coll, id: DocumentId, item: T) -> bool where
    Coll: TierListCollection,
    Coll::Document: Into<T>,
 {
    exists|document: Coll::Document| #[trigger]
        collection.fetches(id, Ok(document)) && converts(document, item)
}

/// Whether `outcome` is what opening a cursor at `id` through `collection` may
/// resolve to: a cursor that holds `collection` and stands at its document
/// `id`, or an error that the fetch of `id` may give.
pub open spec fn opens<T, Coll>(
    collection: Coll,
    id: DocumentId,
    outcome: Result<Cursor<T, Coll>, Coll::Error>,
) -> bool where Coll: TierListCollection, Coll::Document: Into<T> {
    match outcome {
        Ok(cursor) => {
            &&& cursor.spec_collection() == collection
            &&& stored_as(collection, id, cursor.spec_item())
        },
        Err(error) => collection.fetches(id, Err(error)),
    }
}

/// Whether `outcome` is what a look at the neighbour `neighbour` through
/// `collection` may resolve to: no cursor and no error where there is no
/// neighbour, and otherwise what opening a cursor at the neighbour gives.
pub open spec fn peeks<T, Coll>(
    collection: Coll,
    neighbour: Option<DocumentId>,
    outcome: Result<Option<Cursor<T, Coll>>, Coll::Error>,
) -> bool where Coll: TierListCollection, Coll::Document: Into<T> {
    match neighbour {
        Some(id) => match outcome {
            Ok(Some(cursor)) => opens(collection, id, Ok(cursor)),
            Ok(None) => false,
            Err(error) => opens(collection, id, Err::<Cursor<T, Coll>, Coll::Error>(error)),
        },
        None => outcome == Ok::<Option<Cursor<T, Coll>>, Coll::Error>(None),
    }
}

/// A view into a collection.
#[derive(PartialEq, Eq, Clone, Copy, Debug)]
pub struct Cursor<T, Coll> where Coll: TierListCollection {
    /// The `TierCollection` to get items from.
    collection: Coll,
    /// The item at this `Cursor`.
    item: T,
}

impl<T, Coll> Cursor<T, Coll> where Coll: TierListCollection {
    /// The collection that this cursor reaches its neighbours through.
    pub closed spec fn spec_collection(self) -> Coll {
        self.collection
    }

    /// The item that this cursor is positioned at.
    pub closed spec fn spec_item(self) -> T {
        self.item
    }

    /// A cursor is no more than its two parts: two cursors with the same
    /// collection and the same item are the same cursor.
    pub proof fn lemma_parts_determine(self, other: Self)
        requires
            self.spec_collection() == other.spec_collection(),
            self.spec_item() == other.spec_item(),
        ensures
            self == other,
    {
    }

    #[inline]
    pub(crate) fn new(collection: Coll, item: T) -> (cursor: Self)
        ensures
            cursor.spec_collection() == collection,
            cursor.spec_item() == item,
    {
        Self { collection, item }
    }

    /// Positions a cursor over `collection` at the conversion of `document`.
    pub(crate) fn wrap(collection: Coll, document: Coll::Document) -> (cursor: Self) where
        Coll::Document: Into<T>,

        ensures
            cursor.spec_collection() == collection,
            converts(document, cursor.spec_item()),
    {
        Self { collection, item: document.into() }
    }

    /// Fetches the document `id` through `collection` and, once it is there,
    /// wraps it in a cursor that holds `collection`.
    pub(crate) fn open(collection: Coll, id: &DocumentId) -> (opened: impl Future<
        Output = Result<Self, Coll::Error>,
    >) where Coll::Document: Into<T>
        ensures
            opens(collection, *id, opened@),
    {
        let fetch = collection.get_document(id);
        let wrap = move |document: Coll::Document| -> (cursor: Self)
            ensures
                cursor.spec_collection() == collection,
                converts(document, cursor.spec_item()),
        {
            Self::wrap(collection, document)
        };
        map_ok(fetch, wrap)
    }

    /// Breaks the cursor into its component parts.
    #[inline]
    pub fn into_parts(self) -> (parts: (Coll, T))
        ensures
            parts.0 == self.spec_collection(),
            parts.1 == self.spec_item(),
    {
        (self.collection, self.item)
    }

    /// Maps the value stored in this `Cursor`.
    #[inline]
    pub fn map<U, F>(self, map: F) -> (mapped: Cursor<U, Coll>) where F: FnOnce(T) -> U
        requires
            call_requires(map, (self.spec_item(),)),
        ensures
            mapped.spec_collection() == self.spec_collection(),
            call_ensures(map, (self.spec_item(),), mapped.spec_item()),
    {
        Cursor::new(self.collection, map(self.item))
    }

    /// Gets the collection used by this `Cursor`.
    #[inline]
    pub fn get_collection(&self) -> (collection: &Coll)
        ensures
            *collection == self.spec_collection(),
    {
        &self.collection
    }

    /// Gets the item at this cursor.
    #[inline]
    pub fn get_item(&self) -> (item: &T)
        ensures
            *item == self.spec_item(),
    {
        &self.item
    }

    /// References the value inside this `Cursor`.
    #[inline]
    pub fn as_ref(&self) -> (borrowed: Cursor<&T, &Coll>)
        ensures
            *borrowed.spec_collection() == self.spec_collection(),
            *borrowed.spec_item() == self.spec_item(),
    {
        Cursor::new(self.get_collection(), self.get_item())
    }
}

impl<T, Coll> Cursor<T, Coll> where T: LinkedList, Coll: TierListCollection {
    /// Whether `outcome` is what a move of this cursor comes to once the fetch
    /// of the neighbour has resolved to `fetched`: on a document, a cursor
    /// with the same collection at the conversion of that document; on an
    /// error, this cursor as it was, with the error.
    pub open spec fn lands(
        self,
        fetched: Result<Coll::Document, Coll::Error>,
        outcome: Result<Self, (Self, Coll::Error)>,
    ) -> bool where Coll::Document: Into<T> {
        match fetched {
            Ok(document) => {
                &&& outcome is Ok
                &&& outcome->Ok_0.spec_collection() == self.spec_collection()
                &&& converts(document, outcome->Ok_0.spec_item())
            },
            Err(error) => outcome == Err::<Self, (Self, Coll::Error)>((self, error)),
        }
    }

    /// Whether `outcome` is what a move of this cursor to the neighbour `id`
    /// may resolve to: a cursor opened at `id` through the same collection,
    /// or this cursor as it was, with an error that the fetch of `id` may
    /// give.
    pub open spec fn moves(self, id: DocumentId, outcome: Result<Self, (Self, Coll::Error)>) -> bool where
        Coll::Document: Into<T>,
     {
        match outcome {
            Ok(cursor) => opens(self.spec_collection(), id, Ok(cursor)),
            Err((cursor, error)) => {
                &&& cursor == self
                &&& self.spec_collection().fetches(id, Err(error))
            },
        }
    }

    /// A move that lands on what a fetch of `id` gave is a move to `id`.
    pub proof fn lemma_landing_is_move(
        self,
        id: DocumentId,
        fetched: Result<Coll::Document, Coll::Error>,
        outcome: Result<Self, (Self, Coll::Error)>,
    ) where Coll::Document: Into<T>
        requires
            self.spec_collection().fetches(id, fetched),
            self.lands(fetched, outcome),
        ensures
            self.moves(id, outcome),
    {
    }

    /// Finishes a move with what the fetch of the neighbour resolved to:
    /// positions the cursor at the fetched document, or hands the cursor back
    /// unmoved together with the error of the fetch.
    pub fn complete_move(self, fetched: Result<Coll::Document, Coll::Error>) -> (outcome: Result<
        Self,
        (Self, Coll::Error),
    >) where Coll::Document: Into<T>
        ensures
            self.lands(fetched, outcome),
    {
        match fetched {
            Ok(document) => Ok(Self::wrap(self.collection, document)),
            Err(error) => Err((self, error)),
        }
    }

    /// Moves this `Cursor` to the next node in the linked list.
    ///
    /// If there is no next node this `Cursor` is returned unchanged as `Err(self)`.
    ///
    /// If there was an error getting the next node this `Cursor` is returned unchanged as
    /// `Err((self, error))`.
    pub fn move_next(self) -> (moved: Result<
        impl Future<Output = Result<Self, (Self, Coll::Error)>>,
        Self,
    >) where Coll::Document: Into<T>
        ensures
            match moved {
                Ok(pending) => {
                    &&& self.spec_item().spec_next_id() is Some
                    &&& self.moves(self.spec_item().spec_next_id()->Some_0, pending@)
                },
                Err(cursor) => self.spec_item().spec_next_id() is None && cursor == self,
            },
    {
        match self.item.get_next_id() {
            Some(next_id) => {
                let fetch = self.collection.get_document(next_id);
                proof {
                    assert forall|outcome: Result<Self, (Self, Coll::Error)>|
                        self.lands(fetch@, outcome) implies self.moves(*next_id, outcome) by {
                        self.lemma_landing_is_move(*next_id, fetch@, outcome);
                    }
                }
                let finish = move |fetched: Result<Coll::Document, Coll::Error>| -> (outcome: Result<Self, (Self, Coll::Error)>)
                    ensures
                        self.lands(fetched, outcome),
                {
                    self.complete_move(fetched)
                };
                Ok(map_output(fetch, finish))
            },
            None => Err(self),
        }
    }

    /// Moves this `Cursor` to the previous node in the linked list.
    ///
    /// If there is no previous node this `Cursor` is returned unchanged as `Err(self)`.
    ///
    /// If there was an error getting the previous node this `Cursor` is returned unchanged
    /// as `Err((self, error))`.
    pub fn move_previous(self) -> (moved: Result<
        impl Future<Output = Result<Self, (Self, Coll::Error)>>,
        Self,
    >) where Coll::Document: Into<T>
        ensures
            match moved {
                Ok(pending) => {
                    &&& self.spec_item().spec_previous_id() is Some
                    &&& self.moves(self.spec_item().spec_previous_id()->Some_0, pending@)
                },
                Err(cursor) => self.spec_item().spec_previous_id() is None && cursor == self,
            },
    {
        match self.item.get_previous_id() {
            Some(previous_id) => {
                let fetch = self.collection.get_document(previous_id);
                proof {
                    assert forall|outcome: Result<Self, (Self, Coll::Error)>|
                        self.lands(fetch@, outcome) implies self.moves(*previous_id, outcome) by {
                        self.lemma_landing_is_move(*previous_id, fetch@, outcome);
                    }
                }
                let finish = move |fetched: Result<Coll::Document, Coll::Error>| -> (outcome: Result<Self, (Self, Coll::Error)>)
                    ensures
                        self.lands(fetched, outcome),
                {
                    self.complete_move(fetched)
                };
                Ok(map_output(fetch, finish))
            },
            None => Err(self),
        }
    }

    /// Gets a `Cursor` to the next node in the linked list, which borrows the
    /// collection of this one.
    pub fn ref_next<'a>(&'a self) -> (peek: impl Future<
        Output = Result<Option<Cursor<T, &'a Coll>>, Coll::Error>,
    >) where Coll::Document: Into<T>
        ensures
            peeks(&self.spec_collection(), self.spec_item().spec_next_id(), peek@),
    {
        let pending = match self.item.get_next_id() {
            Some(next_id) => Some(Cursor::<T, &'a Coll>::open(&self.collection, next_id)),
            None => None,
        };
        map_output(optional(pending), settle)
    }

    /// Gets a `Cursor` to the previous node in the linked list, which borrows
    /// the collection of this one.
    pub fn ref_previous<'a>(&'a self) -> (peek: impl Future<
        Output = Result<Option<Cursor<T, &'a Coll>>, Coll::Error>,
    >) where Coll::Document: Into<T>
        ensures
            peeks(&self.spec_collection(), self.spec_item().spec_previous_id(), peek@),
    {
        let pending = match self.item.get_previous_id() {
            Some(previous_id) => Some(Cursor::<T, &'a Coll>::open(&self.collection, previous_id)),
            None => None,
        };
        map_output(optional(pending), settle)
    }
}

impl<T, Coll> Cursor<T, Coll> where T: LinkedList, Coll: TierListCollection + Copy {
    /// Gets a `Cursor` to the next node in the linked list, which holds a
    /// copy of the collection of this one.
    pub fn get_next(&self) -> (peek: impl Future<
        Output = Result<Option<Cursor<T, Coll>>, Coll::Error>,
    >) where Coll::Document: Into<T>
        ensures
            peeks(self.spec_collection(), self.spec_item().spec_next_id(), peek@),
    {
        let pending = match self.item.get_next_id() {
            Some(next_id) => Some(Cursor::<T, Coll>::open(self.collection, next_id)),
            None => None,
        };
        map_output(optional(pending), settle)
    }

    /// Gets a `Cursor` to the previous node in the linked list, which holds a
    /// copy of the collection of this one.
    pub fn get_previous(&self) -> (peek: impl Future<
        Output = Result<Option<Cursor<T, Coll>>, Coll::Error>,
    >) where Coll::Document: Into<T>
        ensures
            peeks(self.spec_collection(), self.spec_item().spec_previous_id(), peek@),
    {
        let pending = match self.item.get_previous_id() {
            Some(previous_id) => Some(Cursor::<T, Coll>::open(self.collection, previous_id)),
            None => None,
        };
        map_output(optional(pending), settle)
    }
}

impl<'t, T, Coll> Cursor<&'t T, Coll> where T: Clone, Coll: TierListCollection {
    /// Clones the item stored by this Cursor.
    #[inline]
    pub fn cloned(self) -> (owned: Cursor<T, Coll>)
        ensures
            owned.spec_collection() == self.spec_collection(),
            cloned(*self.spec_item(), owned.spec_item()),
    {
        Cursor::new(self.collection, self.item.clone())
    }
}

impl<'t, T, Coll> Cursor<&'t T, Coll> where T: Copy, Coll: TierListCollection {
    /// Copies the item stored by this Cursor.
    #[inline]
    pub fn copied(self) -> (owned: Cursor<T, Coll>)
        ensures
            owned.spec_collection() == self.spec_collection(),
            owned.spec_item() == *self.spec_item(),
    {
        Cursor::new(self.collection, *self.item)
    }
}

impl<'coll, T, Coll> Cursor<T, &'coll Coll> where Coll: TierListCollection + Clone {
    /// Clones the collection interface used by this Cursor.
    #[inline]
    pub fn cloned_coll(self) -> (owned: Cursor<T, Coll>)
        ensures
            cloned(*self.spec_collection(), owned.spec_collection()),
            owned.spec_item() == self.spec_item(),
    {
        Cursor::new(self.collection.clone(), self.item)
    }
}

impl<'coll, T, Coll> Cursor<T, &'coll Coll> where Coll: TierListCollection + Copy {
    /// Copies the collection interface used by this Cursor.
    #[inline]
    pub fn copied_coll(self) -> (owned: Cursor<T, Coll>)
        ensures
            owned.spec_collection() == *self.spec_collection(),
            owned.spec_item() == self.spec_item(),
    {
        Cursor::new(*self.collection, self.item)
    }
}

/// What a look at a neighbour resolves to, given what opening a cursor at the
/// neighbour, where there is one, resolved to.
pub open spec fn settled<C, E>(opened: Option<Result<C, E>>) -> Result<Option<C>, E> {
    match opened {
        Some(Ok(cursor)) => Ok(Some(cursor)),
        Some(Err(error)) => Err(error),
        None => Ok(None),
    }
}

/// Turns the absence of a neighbour into a success without a cursor, and
/// passes on what opening a cursor at a neighbour gave.
pub fn settle<C, E>(opened: Option<Result<C, E>>) -> (peek: Result<Option<C>, E>)
    ensures
        peek == settled(opened),
{
    match opened {
        Some(Ok(cursor)) => Ok(Some(cursor)),
        Some(Err(error)) => Err(error),
        None => Ok(None),
    }
}

/// Whether the links in `collection` are consistent as the caller sees them:
/// the document fetched for an identifier carries that identifier, and where
/// one document names another as its next or its previous one, the other
/// names it back.
pub open spec fn links_consistent<T, Coll>(collection: Coll) -> bool where
    T: LinkedList,
    Coll: TierListCollection,
    Coll::Document: Into<T>,
 {
    &&& forall|id: DocumentId, item: T| #[trigger]
        stored_as(collection, id, item) ==> item.spec_id() == id
    &&& forall|id: DocumentId, item: T, other_id: DocumentId, other: T|
        #![trigger stored_as(collection, id, item), stored_as(collection, other_id, other)]
        stored_as(collection, id, item) && stored_as(collection, other_id, other) ==> {
            &&& item.spec_next_id() == Some(other_id) ==> other.spec_previous_id() == Some(id)
            &&& item.spec_previous_id() == Some(other_id) ==> other.spec_next_id() == Some(id)
        }
}

/// A cursor opened at an identifier stands at that identifier, in a collection
/// whose links are consistent.
pub proof fn lemma_opened_stands_at_id<T, Coll>(collection: Coll, id: DocumentId, opened: Cursor<T, Coll>) where
    T: LinkedList,
    Coll: TierListCollection,
    Coll::Document: Into<T>,

    requires
        links_consistent::<T, Coll>(collection),
        opens(collection, id, Ok(opened)),
    ensures
        opened.spec_collection() == collection,
        opened.spec_item().spec_id() == id,
        stored_as(collection, opened.spec_item().spec_id(), opened.spec_item()),
{
}

/// Looking at the next node and from there at the previous one leads back:
/// in a collection whose links are consistent, the cursor that comes out
/// stands at a document with the identifier of the one that the walk started
/// at, and holds the same collection.
pub proof fn lemma_next_then_previous_returns<T, Coll>(
    origin: Cursor<T, Coll>,
    ahead: Cursor<T, Coll>,
    back: Cursor<T, Coll>,
) where T: LinkedList, Coll: TierListCollection, Coll::Document: Into<T>
    requires
        links_consistent::<T, Coll>(origin.spec_collection()),
        stored_as(origin.spec_collection(), origin.spec_item().spec_id(), origin.spec_item()),
        peeks(origin.spec_collection(), origin.spec_item().spec_next_id(), Ok(Some(ahead))),
        peeks(ahead.spec_collection(), ahead.spec_item().spec_previous_id(), Ok(Some(back))),
    ensures
        back.spec_collection() == origin.spec_collection(),
        back.spec_item().spec_id() == origin.spec_item().spec_id(),
{
}

/// Looking at the previous node and from there at the next one leads back,
/// as in `lemma_next_then_previous_returns`.
pub proof fn lemma_previous_then_next_returns<T, Coll>(
    origin: Cursor<T, Coll>,
    behind: Cursor<T, Coll>,
    back: Cursor<T, Coll>,
) where T: LinkedList, Coll: TierListCollection, Coll::Document: Into<T>
    requires
        links_consistent::<T, Coll>(origin.spec_collection()),
        stored_as(origin.spec_collection(), origin.spec_item().spec_id(), origin.spec_item()),
        peeks(origin.spec_collection(), origin.spec_item().spec_previous_id(), Ok(Some(behind))),
        peeks(behind.spec_collection(), behind.spec_item().spec_next_id(), Ok(Some(back))),
    ensures
        back.spec_collection() == origin.spec_collection(),
        back.spec_item().spec_id() == origin.spec_item().spec_id(),
{
}

/// Moving to the next node and from there to the previous one leads back,
/// as looking does: in a collection whose links are consistent, the cursor
/// that comes out stands at a document with the identifier of the one that the
/// walk started at, and holds the same collection.
pub proof fn lemma_move_next_then_previous_returns<T, Coll>(
    origin: Cursor<T, Coll>,
    ahead: Cursor<T, Coll>,
    back: Cursor<T, Coll>,
) where T: LinkedList, Coll: TierListCollection, Coll::Document: Into<T>
    requires
        links_consistent::<T, Coll>(origin.spec_collection()),
        stored_as(origin.spec_collection(), origin.spec_item().spec_id(), origin.spec_item()),
        origin.spec_item().spec_next_id() is Some,
        origin.moves(origin.spec_item().spec_next_id()->Some_0, Ok(ahead)),
        ahead.spec_item().spec_previous_id() is Some,
        ahead.moves(ahead.spec_item().spec_previous_id()->Some_0, Ok(back)),
    ensures
        back.spec_collection() == origin.spec_collection(),
        back.spec_item().spec_id() == origin.spec_item().spec_id(),
{
}

/// Moving to the previous node and from there to the next one leads back, as
/// in `lemma_move_next_then_previous_returns`.
pub proof fn lemma_move_previous_then_next_returns<T, Coll>(
    origin: Cursor<T, Coll>,
    behind: Cursor<T, Coll>,
    back: Cursor<T, Coll>,
) where T: LinkedList, Coll: TierListCollection, Coll::Document: Into<T>
    requires
        links_consistent::<T, Coll>(origin.spec_collection()),
        stored_as(origin.spec_collection(), origin.spec_item().spec_id(), origin.spec_item()),
        origin.spec_item().spec_previous_id() is Some,
        origin.moves(origin.spec_item().spec_previous_id()->Some_0, Ok(behind)),
        behind.spec_item().spec_next_id() is Some,
        behind.moves(behind.spec_item().spec_next_id()->Some_0, Ok(back)),
    ensures
        back.spec_collection() == origin.spec_collection(),
        back.spec_item().spec_id() == origin.spec_item().spec_id(),
{
}

} // verus!
