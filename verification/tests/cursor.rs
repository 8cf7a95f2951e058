use std::cell::{Cell, RefCell};
use std::collections::HashMap;
use std::future::Future;
use std::pin::Pin;
use std::rc::Rc;
use std::task::Poll;

use futures::executor::{block_on, LocalPool};
use futures::future;
use futures::task::LocalSpawnExt;

use galileo_tier_database::cursor::settle;
use galileo_tier_database::Cursor;
use galileo_tier_database::tier_collection::{
    batch_outcome, get_cursor, ref_cursor, TierListCollection, TierListCollectionExt,
};
use galileo_tier_database::{Document, DocumentId, LinkedList};

#[derive(PartialEq, Eq, Clone, Copy, Debug)]
struct Doc {
    id: DocumentId,
    next: Option<DocumentId>,
    prev: Option<DocumentId>,
}

impl Document for Doc {
    fn spec_id(&self) -> DocumentId {
        self.id
    }

    fn get_id(&self) -> &DocumentId {
        &self.id
    }
}

impl LinkedList for Doc {
    fn spec_previous_id(&self) -> Option<DocumentId> {
        self.prev
    }

    fn spec_next_id(&self) -> Option<DocumentId> {
        self.next
    }

    fn get_next_id(&self) -> Option<&DocumentId> {
        self.next.as_ref()
    }

    fn get_previous_id(&self) -> Option<&DocumentId> {
        self.prev.as_ref()
    }
}

#[derive(PartialEq, Eq, Clone, Copy, Debug)]
enum StoreError {
    NotFound(DocumentId),
}

type Pending<T> = Pin<Box<dyn Future<Output = T>>>;

#[derive(PartialEq, Eq, Clone, Debug)]
struct Store(Rc<RefCell<HashMap<DocumentId, Doc>>>);

impl Store {
    fn new() -> Self {
        Store(Rc::new(RefCell::new(HashMap::new())))
    }

    fn holding(docs: &[Doc]) -> Self {
        let store = Store::new();
        for doc in docs {
            store.0.borrow_mut().insert(doc.id, *doc);
        }
        store
    }
}

impl TierListCollection for Store {
    type Document = Doc;
    type Error = StoreError;
    type GetBatchDocuments = Pending<Result<Vec<Result<Doc, StoreError>>, StoreError>>;
    type GetDocument = Pending<Result<Doc, StoreError>>;
    type WriteBatchDocuments = Pending<Result<(), Vec<Result<(), StoreError>>>>;
    type WriteDocument = Pending<Result<(), StoreError>>;

    fn get_documents(&self, ids: &[&DocumentId]) -> Self::GetBatchDocuments {
        let coll = self.clone();
        let ids = ids.iter().map(|&&id| id).collect::<Vec<_>>();

        Box::pin(async move {
            Ok(future::join_all(ids.into_iter().map(|id| coll.get_document(&id))).await)
        })
    }

    fn get_document(&self, id: &DocumentId) -> Self::GetDocument {
        let coll = self.clone();
        let id = *id;

        Box::pin(future::poll_fn(move |_| match coll.0.try_borrow() {
            Ok(docs) => Poll::Ready(docs.get(&id).copied().ok_or(StoreError::NotFound(id))),
            Err(_) => Poll::Pending,
        }))
    }

    fn write_documents(&self, documents: &[&Doc]) -> Self::WriteBatchDocuments {
        let coll = self.clone();
        let docs = documents.iter().map(|&doc| *doc).collect::<Vec<_>>();

        Box::pin(async move {
            let mut results = Vec::with_capacity(docs.len());
            for doc in docs {
                results.push(coll.write_document(&doc).await);
            }
            batch_outcome(results)
        })
    }

    fn write_document(&self, document: &Doc) -> Self::WriteDocument {
        let coll = self.clone();
        let document = *document;

        Box::pin(future::poll_fn(move |_| match coll.0.try_borrow_mut() {
            Ok(mut docs) => {
                docs.insert(*document.get_id(), document);
                Poll::Ready(Ok(()))
            }
            Err(_) => Poll::Pending,
        }))
    }
}

impl TierListCollectionExt for &'static Store {}

/// A store that counts the calls that reach it.
#[derive(PartialEq, Eq, Clone, Debug)]
struct Counting {
    inner: Store,
    calls: Rc<Cell<usize>>,
}

impl Counting {
    fn over(inner: Store) -> Self {
        Counting { inner, calls: Rc::new(Cell::new(0)) }
    }

    fn count(&self) {
        self.calls.set(self.calls.get() + 1);
    }
}

impl TierListCollection for Counting {
    type Document = Doc;
    type Error = StoreError;
    type GetBatchDocuments = Pending<Result<Vec<Result<Doc, StoreError>>, StoreError>>;
    type GetDocument = Pending<Result<Doc, StoreError>>;
    type WriteBatchDocuments = Pending<Result<(), Vec<Result<(), StoreError>>>>;
    type WriteDocument = Pending<Result<(), StoreError>>;

    fn get_documents(&self, ids: &[&DocumentId]) -> Self::GetBatchDocuments {
        self.count();
        self.inner.get_documents(ids)
    }

    fn get_document(&self, id: &DocumentId) -> Self::GetDocument {
        self.count();
        self.inner.get_document(id)
    }

    fn write_documents(&self, documents: &[&Doc]) -> Self::WriteBatchDocuments {
        self.count();
        self.inner.write_documents(documents)
    }

    fn write_document(&self, document: &Doc) -> Self::WriteDocument {
        self.count();
        self.inner.write_document(document)
    }
}

fn id(byte: u8) -> DocumentId {
    [byte; 20]
}

fn doc(byte: u8, prev: Option<u8>, next: Option<u8>) -> Doc {
    Doc { id: id(byte), prev: prev.map(id), next: next.map(id) }
}

/// The four documents of the walk: the first alone, the others linked
/// second, third, fourth.
fn four() -> [Doc; 4] {
    [
        doc(1, None, None),
        doc(2, None, Some(3)),
        doc(3, Some(2), Some(4)),
        doc(4, Some(3), None),
    ]
}

#[test]
fn test_cursor() {
    let coll = Store::new();
    let id1 = [1u8; 20];
    let id2 = [2u8; 20];
    let id3 = [3u8; 20];
    let id4 = [4u8; 20];
    let doc1 = Doc { id: id1, prev: None, next: None };
    let doc2 = Doc { id: id2, prev: None, next: Some(id3) };
    let doc3 = Doc { id: id3, prev: Some(id2), next: Some(id4) };
    let doc4 = Doc { id: id4, prev: Some(id3), next: None };
    let mut pool = LocalPool::new();
    let fut = Box::pin(async move {
        coll.write_document(&doc1).await.expect("Error writing document");

        let docs = coll.write_documents(&[&doc2, &doc3, &doc4]).await;

        if let Err(res) = docs {
            for (i, res) in res.into_iter().enumerate().filter(|(_, res)| res.is_err()) {
                res.expect(&format!("Error writing id{}", i))
            }
        }

        let cursor = ref_cursor::<Doc, _>(&coll, &id3).await.unwrap();
        assert_eq!(cursor.get_item(), &doc3, "Error Cursor at wrong document");

        let next_cursor = cursor.get_next().await.unwrap().expect("No next Cursor");
        assert_eq!(next_cursor.get_item(), &doc4, "Error next Cursor at wrong document");
        assert!(
            next_cursor.get_next().await.unwrap().is_none(),
            "Error next Cursor is not the last document",
        );

        let other_cursor = next_cursor
            .move_previous()
            .expect("Error next Cursor cannot move back")
            .await
            .expect("Error moving next Cursor back");
        assert_eq!(other_cursor, cursor, "Error other Cursor at wrong document");

        let prev_cursor = cursor.get_previous().await.unwrap().expect("No previous Cursor");
        assert_eq!(prev_cursor.get_item(), &doc2, "Error previous Cursor at wrong document");
        assert!(
            prev_cursor.get_previous().await.unwrap().is_none(),
            "Error previous Cursor is not the first document",
        );
    });

    pool.spawner().spawn_local(fut).expect("Error spawning task");
    pool.run();
}

#[test]
fn walk_there_and_back_returns_to_the_same_cursor() {
    let docs = four();
    let coll = Store::holding(&docs);
    let at_four = block_on(ref_cursor::<Doc, _>(&coll, &id(4))).unwrap();
    let origin = block_on(ref_cursor::<Doc, _>(&coll, &id(3))).unwrap();

    let at_three = block_on(at_four.move_previous().expect("four has a previous document"))
        .expect("three is stored");
    assert_eq!(at_three, origin);
    assert_eq!(at_three.get_item(), &docs[2]);

    let back = block_on(at_three.move_next().expect("three has a next document"))
        .expect("four is stored");
    assert_eq!(back.get_item(), &docs[3]);
    assert_eq!(back, block_on(ref_cursor::<Doc, _>(&coll, &id(4))).unwrap());
}

#[test]
fn move_next_resolves_to_the_fetched_neighbour() {
    let docs = four();
    let coll = Store::holding(&docs);
    let cursor = block_on(ref_cursor::<Doc, _>(&coll, &id(2))).unwrap();
    let moved = block_on(cursor.move_next().expect("two has a next document")).unwrap();
    assert_eq!(moved.get_item(), &docs[2]);
    assert_eq!(moved.get_collection(), &&coll);
}

#[test]
fn move_next_at_the_back_hands_the_cursor_back() {
    let docs = four();
    let coll = Store::holding(&docs);
    let cursor = block_on(ref_cursor::<Doc, _>(&coll, &id(4))).unwrap();
    let kept = cursor.clone();
    match cursor.move_next() {
        Ok(_) => panic!("the back of the list has no next document"),
        Err(back) => assert_eq!(back, kept),
    };
}

#[test]
fn move_previous_at_the_front_hands_the_cursor_back() {
    let docs = four();
    let coll = Store::holding(&docs);
    let cursor = block_on(ref_cursor::<Doc, _>(&coll, &id(2))).unwrap();
    let kept = cursor.clone();
    match cursor.move_previous() {
        Ok(_) => panic!("the front of the list has no previous document"),
        Err(front) => assert_eq!(front, kept),
    };
}

#[test]
fn the_edge_of_the_list_is_found_without_a_store_call() {
    let coll = Counting::over(Store::holding(&four()));
    let cursor = block_on(ref_cursor::<Doc, _>(&coll, &id(4))).unwrap();
    assert_eq!(coll.calls.get(), 1);

    let cursor = match cursor.move_next() {
        Ok(_) => panic!("the back of the list has no next document"),
        Err(cursor) => cursor,
    };
    assert_eq!(coll.calls.get(), 1);
    assert_eq!(block_on(cursor.get_next()), Ok(None));
    assert_eq!(block_on(cursor.ref_next()), Ok(None));
    assert_eq!(coll.calls.get(), 1);

    let moved = block_on(cursor.move_previous().expect("four has a previous document"));
    assert!(moved.is_ok());
    assert_eq!(coll.calls.get(), 2);
}

#[test]
fn isolated_document_is_both_ends() {
    let docs = four();
    let coll = Store::holding(&docs);
    let cursor = block_on(ref_cursor::<Doc, _>(&coll, &id(1))).unwrap();
    assert!(cursor.get_item().is_front());
    assert!(cursor.get_item().is_back());
    assert_eq!(block_on(cursor.get_next()), Ok(None));
    assert_eq!(block_on(cursor.get_previous()), Ok(None));
    assert_eq!(block_on(cursor.ref_next()), Ok(None));
    assert_eq!(block_on(cursor.ref_previous()), Ok(None));
    assert!(cursor.move_next().is_err());
}

#[test]
fn failed_move_keeps_the_position() {
    // The neighbours that document 7 names are not stored.
    let lonely = doc(7, Some(8), Some(9));
    let coll = Store::holding(&[lonely]);
    let cursor = block_on(ref_cursor::<Doc, _>(&coll, &id(7))).unwrap();

    let kept = cursor.clone();
    let outcome = block_on(cursor.move_next().expect("seven names a next document"));
    assert_eq!(outcome, Err((kept, StoreError::NotFound(id(9)))));

    let (cursor, _) = outcome.unwrap_err();
    let kept = cursor.clone();
    let outcome = block_on(cursor.move_previous().expect("seven names a previous document"));
    assert_eq!(outcome, Err((kept, StoreError::NotFound(id(8)))));
}

#[test]
fn failed_peek_reports_the_error_and_leaves_the_cursor() {
    let lonely = doc(7, Some(8), Some(9));
    let coll = Store::holding(&[lonely]);
    let cursor = block_on(ref_cursor::<Doc, _>(&coll, &id(7))).unwrap();
    assert_eq!(block_on(cursor.get_next()), Err(StoreError::NotFound(id(9))));
    assert_eq!(block_on(cursor.get_previous()), Err(StoreError::NotFound(id(8))));
    assert_eq!(block_on(cursor.ref_next()), Err(StoreError::NotFound(id(9))));
    assert_eq!(block_on(cursor.ref_previous()), Err(StoreError::NotFound(id(8))));
    assert_eq!(cursor.get_item(), &lonely);
}

#[test]
fn opening_a_cursor_at_an_absent_document_fails() {
    let coll = Store::holding(&four());
    assert_eq!(
        block_on(ref_cursor::<Doc, _>(&coll, &id(5))),
        Err(StoreError::NotFound(id(5))),
    );
}

#[test]
fn peek_there_and_back_returns_to_the_same_identifier() {
    let docs = four();
    let coll = Store::holding(&docs);
    let origin = block_on(ref_cursor::<Doc, _>(&coll, &id(3))).unwrap();

    let ahead = block_on(origin.get_next()).unwrap().expect("three has a next document");
    let back = block_on(ahead.get_previous()).unwrap().expect("four has a previous document");
    assert_eq!(back.get_item().get_id(), origin.get_item().get_id());
    assert_eq!(back, origin);

    let behind = block_on(origin.get_previous()).unwrap().expect("three has a previous document");
    let back = block_on(behind.get_next()).unwrap().expect("two has a next document");
    assert_eq!(back.get_item().get_id(), origin.get_item().get_id());

    // The cursor that was looked from is where it was.
    assert_eq!(origin.get_item(), &docs[2]);
}

#[test]
fn ref_peeks_borrow_the_collection_of_the_cursor() {
    let docs = four();
    let coll = Store::holding(&docs);
    let origin = block_on(ref_cursor::<Doc, _>(&coll, &id(3))).unwrap();

    let ahead = block_on(origin.ref_next()).unwrap().expect("three has a next document");
    assert_eq!(ahead.get_item(), &docs[3]);
    assert_eq!(**ahead.get_collection(), &coll);

    let behind = block_on(origin.ref_previous()).unwrap().expect("three has a previous document");
    assert_eq!(behind.get_item(), &docs[1]);
    assert_eq!(**behind.get_collection(), &coll);
}

#[test]
fn get_cursor_holds_the_handle_it_was_given() {
    let docs = four();
    let coll: &'static Store = Box::leak(Box::new(Store::holding(&docs)));
    let cursor: Cursor<Doc, &'static Store> = block_on(get_cursor(coll, &id(2))).unwrap();
    assert_eq!(cursor.get_item(), &docs[1]);
    let (handle, item) = cursor.into_parts();
    assert!(std::ptr::eq(handle, coll));
    assert_eq!(item, docs[1]);
    assert_eq!(
        block_on(get_cursor::<Doc, _>(coll, &id(5))),
        Err(StoreError::NotFound(id(5))),
    );
}

#[test]
fn complete_move_takes_either_outcome_of_the_fetch() {
    let docs = four();
    let coll = Store::holding(&docs);
    let cursor = block_on(ref_cursor::<Doc, _>(&coll, &id(2))).unwrap();

    let moved = cursor.clone().complete_move(Ok(docs[3])).unwrap();
    assert_eq!(moved.get_item(), &docs[3]);
    assert_eq!(moved.get_collection(), cursor.get_collection());

    let kept = cursor.clone();
    assert_eq!(
        cursor.complete_move(Err(StoreError::NotFound(id(9)))),
        Err((kept, StoreError::NotFound(id(9)))),
    );
}

#[test]
fn settle_tells_no_neighbour_from_failure() {
    assert_eq!(settle::<u8, u8>(None), Ok(None));
    assert_eq!(settle::<u8, u8>(Some(Ok(3))), Ok(Some(3)));
    assert_eq!(settle::<u8, u8>(Some(Err(4))), Err(4));
}

#[test]
fn map_changes_the_item_only() {
    let docs = four();
    let coll = Store::holding(&docs);
    let cursor = block_on(ref_cursor::<Doc, _>(&coll, &id(3))).unwrap();
    let mapped = cursor.map(|doc| doc.id[0]);
    assert_eq!(mapped.get_item(), &3u8);
    assert_eq!(mapped.into_parts(), (&coll, 3u8));
}

#[test]
fn as_ref_and_the_detaching_methods_keep_both_parts() {
    let docs = four();
    let coll = Store::holding(&docs);
    let cursor = block_on(ref_cursor::<Doc, _>(&coll, &id(3))).unwrap();

    let borrowed = cursor.as_ref();
    assert_eq!(*borrowed.get_item(), &docs[2]);
    assert_eq!(**borrowed.get_collection(), &coll);

    let cloned = cursor.as_ref().cloned();
    assert_eq!(cloned.get_item(), &docs[2]);
    let copied = cursor.as_ref().copied();
    assert_eq!(copied.get_item(), &docs[2]);
    assert_eq!(copied.into_parts(), (&&coll, docs[2]));

    let owning = cursor.clone().cloned_coll();
    assert_eq!(owning.get_collection(), &coll);
    assert_eq!(owning.get_item(), &docs[2]);

    let same_handle = cursor.as_ref().copied().copied_coll();
    assert_eq!(same_handle, cursor);
}
