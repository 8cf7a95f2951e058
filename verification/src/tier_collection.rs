//! Operations on a document collection which stores one or more tier lists.
//!
//! A collection hands out futures. What such a future resolves to is written
//! `future@` in the contracts below.

use vstd::prelude::*;
use vstd::future::FutureAdditionalSpecFns;
use core::future::Future;
use crate::{Document, DocumentId};
use crate::adapters::{map_ok, map_output};
use crate::cursor::{opens, Cursor};

verus! {

/// The identifiers that a slice of references names, in the slice's order.
pub open spec fn ids_of(ids: Seq<&DocumentId>) -> Seq<DocumentId> {
    Seq::new(ids.len(), |i: int| *ids[i])
}

/// The documents that a slice of references names, in the slice's order.
pub open spec fn documents_of<D>(documents: Seq<&D>) -> Seq<D> {
    Seq::new(documents.len(), |i: int| *documents[i])
}

/// Whether `outcomes` answers `ids` one for one, where `fetches` tells what a
/// fetch of one identifier may resolve to: as many outcomes as identifiers,
/// and the outcome at each position is one that a fetch of the identifier at
/// that position may resolve to.
pub open spec fn fetched_in_order<D, E>(
    fetches: spec_fn(DocumentId, Result<D, E>) -> bool,
    ids: Seq<DocumentId>,
    outcomes: Seq<Result<D, E>>,
) -> bool {
    &&& outcomes.len() == ids.len()
    &&& forall|i: int| 0 <= i < ids.len() ==> fetches(ids[i], #[trigger] outcomes[i])
}

/// Whether `outcome` is what a batched write of `documents` may resolve to,
/// where `writes` tells what a write of one document may resolve to: success
/// only if every document may have been written, and otherwise one outcome
/// for each document, in the documents' order, at least one of them an error.
pub open spec fn batch_written<D, E>(
    writes: spec_fn(D, Result<(), E>) -> bool,
    documents: Seq<D>,
    outcome: Result<(), Vec<Result<(), E>>>,
) -> bool {
    match outcome {
        Ok(_) => forall|i: int|
            0 <= i < documents.len() ==> writes(#[trigger] documents[i], Ok(())),
        Err(outcomes) => {
            &&& outcomes@.len() == documents.len()
            &&& forall|i: int|
                0 <= i < documents.len() ==> writes(documents[i], #[trigger] outcomes@[i])
            &&& exists|i: int| 0 <= i < documents.len() && (#[trigger] outcomes@[i]) is Err
        },
    }
}

/// A collection of documents which make up a tier list.
///
/// What a collection promises of its operations it says through three
/// relations, `fetches`, `fetches_batch` and `writes`. Each of them holds of
/// every outcome unless the collection defines it more narrowly.
pub trait TierListCollection: Sized {
    /// The document type stored in the collection.
    type Document: Document;

    /// The error type returned by DB operations.
    type Error;

    /// The future type when batch fetching documents from the collection.
    type GetBatchDocuments: Future<
        Output = Result<Vec<Result<Self::Document, Self::Error>>, Self::Error>,
    >;

    /// The future type when fetching a document from the collection.
    type GetDocument: Future<Output = Result<Self::Document, Self::Error>>;

    /// The future type when batch writing documents to the collection.
    type WriteBatchDocuments: Future<Output = Result<(), Vec<Result<(), Self::Error>>>>;

    /// The future type when writing a document to the collection.
    type WriteDocument: Future<Output = Result<(), Self::Error>>;

    /// Whether `outcome` is something that a fetch of `id` may resolve to.
    open spec fn fetches(
        &self,
        id: DocumentId,
        outcome: Result<Self::Document, Self::Error>,
    ) -> bool {
        true
    }

    /// Whether `outcome` is something that a batched fetch of `ids` may
    /// resolve to.
    open spec fn fetches_batch(
        &self,
        ids: Seq<DocumentId>,
        outcome: Result<Vec<Result<Self::Document, Self::Error>>, Self::Error>,
    ) -> bool {
        true
    }

    /// Whether `outcome` is something that a write of `document` may resolve
    /// to.
    open spec fn writes(&self, document: Self::Document, outcome: Result<(), Self::Error>) -> bool {
        true
    }

    /// Gets a batch of documents from the collection.
    ///
    /// The batch fails as a whole only; a document that cannot be had is an
    /// error at its own position, and the positions are those of `ids`.
    ///
    /// # Params
    ///
    /// ids --- The identifiers of the documents in the collection.
    fn get_documents(&self, ids: &[&DocumentId]) -> (fetch: Self::GetBatchDocuments)
        ensures
            self.fetches_batch(ids_of(ids@), fetch@),
            fetch@ matches Ok(outcomes) ==> fetched_in_order(
                |id: DocumentId, outcome: Result<Self::Document, Self::Error>|
                    self.fetches(id, outcome),
                ids_of(ids@),
                outcomes@,
            ),
    ;

    /// Gets a document from the collection.
    ///
    /// # Params
    ///
    /// id --- The identifier of the document in the collection.
    fn get_document(&self, id: &DocumentId) -> (fetch: Self::GetDocument)
        ensures
            self.fetches(*id, fetch@),
    ;

    /// Writes documents to the collection.
    ///
    /// Nothing is undone when a document fails: the outcome then lists every
    /// document's own result, in the order of `documents`.
    ///
    /// # Params
    ///
    /// documents --- The documents to write to the collection.
    fn write_documents(&self, documents: &[&Self::Document]) -> (write: Self::WriteBatchDocuments)
        ensures
            batch_written(
                |document: Self::Document, outcome: Result<(), Self::Error>|
                    self.writes(document, outcome),
                documents_of(documents@),
                write@,
            ),
    ;

    /// Writes a document to the collection.
    ///
    /// # Params
    ///
    /// document --- The document to write to the collection.
    fn write_document(&self, document: &Self::Document) -> (write: Self::WriteDocument)
        ensures
            self.writes(*document, write@),
    ;
}

/// Extended behaviour for collection types: handles that live as long as the
/// program and are cheap to copy, so that a cursor can hold one of its own.
pub trait TierListCollectionExt: 'static + TierListCollection + Copy {

}

impl<'a, Coll> TierListCollection for &'a Coll where Coll: TierListCollection {
    type Document = Coll::Document;

    type Error = Coll::Error;

    type GetBatchDocuments = Coll::GetBatchDocuments;

    type GetDocument = Coll::GetDocument;

    type WriteBatchDocuments = Coll::WriteBatchDocuments;

    type WriteDocument = Coll::WriteDocument;

    open spec fn fetches(
        &self,
        id: DocumentId,
        outcome: Result<Self::Document, Self::Error>,
    ) -> bool {
        (**self).fetches(id, outcome)
    }

    open spec fn fetches_batch(
        &self,
        ids: Seq<DocumentId>,
        outcome: Result<Vec<Result<Self::Document, Self::Error>>, Self::Error>,
    ) -> bool {
        (**self).fetches_batch(ids, outcome)
    }

    open spec fn writes(&self, document: Self::Document, outcome: Result<(), Self::Error>) -> bool {
        (**self).writes(document, outcome)
    }

    #[inline]
    fn get_documents(&self, ids: &[&DocumentId]) -> (fetch: Self::GetBatchDocuments) {
        Coll::get_documents(*self, ids)
    }

    #[inline]
    fn get_document(&self, id: &DocumentId) -> (fetch: Self::GetDocument) {
        Coll::get_document(*self, id)
    }

    #[inline]
    fn write_documents(&self, documents: &[&Self::Document]) -> (write: Self::WriteBatchDocuments) {
        Coll::write_documents(*self, documents)
    }

    #[inline]
    fn write_document(&self, document: &Self::Document) -> (write: Self::WriteDocument) {
        Coll::write_document(*self, document)
    }
}

/// Whether `converted` is something that the fallible conversion of
/// `document` may give.
pub open spec fn tries<D: TryInto<T>, T>(
    document: D,
    converted: Result<T, <D as TryInto<T>>::Error>,
) -> bool {
    call_ensures(<D as TryInto<T>>::try_into, (document,), converted)
}

/// Whether `error` is something that the collection's error type may make of
/// the conversion failure `failure`.
pub open spec fn bridges<C, E: From<C>>(failure: C, error: E) -> bool {
    call_ensures(<E as From<C>>::from, (failure,), error)
}

/// Whether `item` is the projection of `fetched`: an error of the fetch
/// passes through untouched; a fetched document becomes what its conversion
/// gives, with a failure of the conversion bridged to the collection's error.
pub open spec fn projects<D, T, E>(fetched: Result<D, E>, item: Result<T, E>) -> bool where
    D: TryInto<T>,
    E: From<<D as TryInto<T>>::Error>,
 {
    match fetched {
        Ok(document) => exists|converted: Result<T, <D as TryInto<T>>::Error>|
            {
                &&& #[trigger] tries(document, converted)
                &&& match converted {
                    Ok(value) => item == Ok::<T, E>(value),
                    Err(failure) => item is Err && bridges(failure, item->Err_0),
                }
            },
        Err(error) => item == Err::<T, E>(error),
    }
}

/// Whether `items` is the projection of `fetched`, position by position.
pub open spec fn projects_each<D, T, E>(
    fetched: Seq<Result<D, E>>,
    items: Seq<Result<T, E>>,
) -> bool where D: TryInto<T>, E: From<<D as TryInto<T>>::Error> {
    &&& items.len() == fetched.len()
    &&& forall|i: int| 0 <= i < fetched.len() ==> projects(fetched[i], #[trigger] items[i])
}

/// Whether `items` is the projection of what a batched fetch resolved to: the
/// error of a batch that failed as a whole passes through untouched, and the
/// outcomes of a batch that did not are projected position by position.
pub open spec fn projects_batch<D, T, E>(
    fetched: Result<Vec<Result<D, E>>, E>,
    items: Result<Vec<Result<T, E>>, E>,
) -> bool where D: TryInto<T>, E: From<<D as TryInto<T>>::Error> {
    match fetched {
        Ok(outcomes) => items is Ok && projects_each(outcomes@, items->Ok_0@),
        Err(error) => items == Err::<Vec<Result<T, E>>, E>(error),
    }
}

/// Converts what a fetch resolved to into the caller's type, and folds a
/// failed conversion into the collection's error.
pub fn project<D, T, E>(fetched: Result<D, E>) -> (item: Result<T, E>) where
    D: TryInto<T>,
    E: From<<D as TryInto<T>>::Error>,

    ensures
        projects(fetched, item),
{
    match fetched {
        Ok(document) => {
            let converted = document.try_into();
            assert(tries(document, converted));
            match converted {
                Ok(value) => Ok(value),
                Err(failure) => Err(E::from(failure)),
            }
        },
        Err(error) => Err(error),
    }
}

/// Converts what a batched fetch holds, position by position.
pub fn project_each<D, T, E>(fetched: Vec<Result<D, E>>) -> (items: Vec<Result<T, E>>) where
    D: TryInto<T>,
    E: From<<D as TryInto<T>>::Error>,

    ensures
        projects_each(fetched@, items@),
{
    let ghost all = fetched@;
    let mut items: Vec<Result<T, E>> = Vec::new();
    for outcome in walk: fetched
        invariant
            walk.seq() == all,
            items@.len() == walk.index(),
            forall|i: int| 0 <= i < items@.len() ==> projects(all[i], #[trigger] items@[i]),
    {
        items.push(project(outcome));
    }
    items
}

/// Whether `item` is what getting the item `id` from `collection` may resolve
/// to: the projection of something that a fetch of `id` may resolve to.
pub open spec fn item_fetched<T, Coll>(
    collection: &Coll,
    id: DocumentId,
    item: Result<T, Coll::Error>,
) -> bool where
    Coll: TierListCollection,
    Coll::Document: TryInto<T>,
    Coll::Error: From<<Coll::Document as TryInto<T>>::Error>,
 {
    exists|fetched: Result<Coll::Document, Coll::Error>| #[trigger]
        collection.fetches(id, fetched) && projects(fetched, item)
}

/// Whether `items` is what getting the items `ids` from `collection` may
/// resolve to: the error of a batched fetch that failed as a whole, or the
/// projections, position by position, of outcomes that answer `ids` one for
/// one.
pub open spec fn items_fetched<T, Coll>(
    collection: &Coll,
    ids: Seq<DocumentId>,
    items: Result<Vec<Result<T, Coll::Error>>, Coll::Error>,
) -> bool where
    Coll: TierListCollection,
    Coll::Document: TryInto<T>,
    Coll::Error: From<<Coll::Document as TryInto<T>>::Error>,
 {
    match items {
        Ok(items) => exists|outcomes: Vec<Result<Coll::Document, Coll::Error>>|
            {
                &&& #[trigger] collection.fetches_batch(ids, Ok(outcomes))
                &&& fetched_in_order(
                    |id: DocumentId, outcome: Result<Coll::Document, Coll::Error>|
                        collection.fetches(id, outcome),
                    ids,
                    outcomes@,
                )
                &&& projects_each(outcomes@, items@)
            },
        Err(error) => collection.fetches_batch(ids, Err(error)),
    }
}

proof fn lemma_projected_batch_is_items<T, Coll>(
    collection: &Coll,
    ids: Seq<DocumentId>,
    fetched: Result<Vec<Result<Coll::Document, Coll::Error>>, Coll::Error>,
    items: Result<Vec<Result<T, Coll::Error>>, Coll::Error>,
) where
    Coll: TierListCollection,
    Coll::Document: TryInto<T>,
    Coll::Error: From<<Coll::Document as TryInto<T>>::Error>,

    requires
        collection.fetches_batch(ids, fetched),
        fetched matches Ok(outcomes) ==> fetched_in_order(
            |id: DocumentId, outcome: Result<Coll::Document, Coll::Error>|
                collection.fetches(id, outcome),
            ids,
            outcomes@,
        ),
        projects_batch(fetched, items),
    ensures
        items_fetched(collection, ids, items),
{
    if let Ok(outcomes) = fetched {
        assert(collection.fetches_batch(ids, Ok(outcomes)));
    }
}

/// Gets documents from the collection and converts them to a return type.
///
/// The type conversion is performed using `TryInto`; a document that does not
/// convert is an error at its own position.
///
/// # Params
///
/// collection --- The collection to get the documents from.
/// ids --- The identifiers of the documents in the collection.
pub fn get_items<T, Coll>(collection: &Coll, ids: &[&DocumentId]) -> (items: impl Future<
    Output = Result<Vec<Result<T, Coll::Error>>, Coll::Error>,
>) where
    Coll: TierListCollection,
    Coll::Document: TryInto<T>,
    Coll::Error: From<<Coll::Document as TryInto<T>>::Error>,

    ensures
        items_fetched(collection, ids_of(ids@), items@),
{
    let fetch = collection.get_documents(ids);
    proof {
        assert forall|items: Result<Vec<Result<T, Coll::Error>>, Coll::Error>|
            projects_batch(fetch@, items) implies items_fetched(
            collection,
            ids_of(ids@),
            items,
        ) by {
            lemma_projected_batch_is_items(collection, ids_of(ids@), fetch@, items);
        }
    }
    map_ok(fetch, project_each::<Coll::Document, T, Coll::Error>)
}

/// Gets a document from the collection and converts it to a return type.
///
/// The type conversion is performed using `TryInto`; a document that does not
/// convert is an error of the collection.
///
/// # Params
///
/// collection --- The collection to get the document from.
/// id --- The identifier of the document in the collection.
pub fn get_item<T, Coll>(collection: &Coll, id: &DocumentId) -> (item: impl Future<
    Output = Result<T, Coll::Error>,
>) where
    Coll: TierListCollection,
    Coll::Document: TryInto<T>,
    Coll::Error: From<<Coll::Document as TryInto<T>>::Error>,

    ensures
        item_fetched(collection, *id, item@),
{
    map_output(collection.get_document(id), project::<Coll::Document, T, Coll::Error>)
}

/// Gets a cursor at an item in the collection, which borrows the collection.
///
/// # Params
///
/// collection --- The collection to open the cursor on.
/// id --- The identifier of the document in the collection.
pub fn ref_cursor<'a, T, Coll>(collection: &'a Coll, id: &DocumentId) -> (opened: impl Future<
    Output = Result<Cursor<T, &'a Coll>, Coll::Error>,
>) where Coll: TierListCollection, Coll::Document: Into<T>
    ensures
        opens(collection, *id, opened@),
{
    Cursor::<T, &'a Coll>::open(collection, id)
}

/// Gets a cursor at an item in the collection, which holds the collection.
///
/// # Params
///
/// collection --- The collection to open the cursor on.
/// id --- The identifier of the document in the collection.
pub fn get_cursor<T, Coll>(collection: Coll, id: &DocumentId) -> (opened: impl Future<
    Output = Result<Cursor<T, Coll>, Coll::Error>,
>) where Coll: TierListCollectionExt, Coll::Document: Into<T>
    ensures
        opens(collection, *id, opened@),
{
    Cursor::<T, Coll>::open(collection, id)
}

/// Whether every write in `outcomes` succeeded.
pub open spec fn all_written<E>(outcomes: Seq<Result<(), E>>) -> bool {
    forall|i: int| 0 <= i < outcomes.len() ==> (#[trigger] outcomes[i]) is Ok
}

/// Folds the outcomes of the writes of a batch, one for each document and in
/// the documents' order, into the outcome of the batch: success if every
/// write succeeded, and otherwise all the outcomes as they are.
pub fn batch_outcome<E>(outcomes: Vec<Result<(), E>>) -> (batch: Result<(), Vec<Result<(), E>>>)
    ensures
        all_written(outcomes@) ==> batch is Ok,
        !all_written(outcomes@) ==> batch == Err::<(), Vec<Result<(), E>>>(outcomes),
{
    let mut i: usize = 0;
    while i < outcomes.len()
        invariant
            i <= outcomes.len(),
            forall|j: int| 0 <= j < i ==> (#[trigger] outcomes@[j]) is Ok,
        decreases outcomes.len() - i,
    {
        if outcomes[i].is_err() {
            return Err(outcomes);
        }
        i += 1;
    }
    Ok(())
}

/// A batched fetch answers in the order it was asked in: where the batch did
/// not fail as a whole, it holds one outcome for each identifier, the outcome
/// at each position is one that a fetch of the identifier at that position may
/// give, and a document that no fetch can give is an error at its position.
pub proof fn lemma_batch_fetch_keeps_order<Coll: TierListCollection>(
    collection: &Coll,
    ids: &[&DocumentId],
    fetch: Coll::GetBatchDocuments,
    k: int,
)
    requires
        call_ensures(Coll::get_documents, (collection, ids), fetch),
        fetch@ is Ok,
        0 <= k < ids@.len(),
    ensures
        fetch@->Ok_0@.len() == ids@.len(),
        collection.fetches(*ids@[k], fetch@->Ok_0@[k]),
        (forall|document: Coll::Document| !collection.fetches(*ids@[k], Ok(document)))
            ==> fetch@->Ok_0@[k] is Err,
{
    let outcomes = fetch@->Ok_0@;
    assert(ids_of(ids@)[k] == *ids@[k]);
    assert(collection.fetches(*ids@[k], outcomes[k]));
    if let Ok(document) = outcomes[k] {
        assert(collection.fetches(*ids@[k], Ok(document)));
    }
}

/// A document that cannot be written fails the batch it is part of: where no
/// write of the document at position `k` may succeed, a batched write of
/// `documents` resolves to an error that holds one outcome for each document,
/// in the documents' order, each of them one that the write of its document
/// may give, and an error at position `k`.
pub proof fn lemma_unwritable_document_fails_batch<Coll: TierListCollection>(
    collection: &Coll,
    documents: &[&Coll::Document],
    write: Coll::WriteBatchDocuments,
    k: int,
)
    requires
        call_ensures(Coll::write_documents, (collection, documents), write),
        0 <= k < documents@.len(),
        !collection.writes(*documents@[k], Ok(())),
    ensures
        write@ is Err,
        write@->Err_0@.len() == documents@.len(),
        write@->Err_0@[k] is Err,
        forall|i: int|
            0 <= i < documents@.len() ==> collection.writes(
                *documents@[i],
                #[trigger] write@->Err_0@[i],
            ),
{
    let all = documents_of(documents@);
    assert(all[k] == *documents@[k]);
    match write@ {
        Ok(_) => {
            assert(collection.writes(all[k], Ok(())));
        },
        Err(outcomes) => {
            assert(collection.writes(all[k], outcomes@[k]));
            assert forall|i: int| 0 <= i < documents@.len() implies collection.writes(
                *documents@[i],
                #[trigger] outcomes@[i],
            ) by {
                assert(collection.writes(all[i], outcomes@[i]));
            }
            if let Ok(done) = outcomes@[k] {
                assert(done == ());
            }
        },
    }
}

} // verus!
