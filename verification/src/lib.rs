//! The types needed for a bare bones `galileo tier list`: documents that
//! reference their neighbours by identifier, and cursors that walk those links
//! through a collection.

use vstd::prelude::*;

pub mod card;
pub mod cursor;
pub mod tier_collection;
pub mod tier_meta;
mod adapters;

pub use crate::card::Card;
pub use crate::cursor::Cursor;
pub use crate::tier_collection::{
    get_cursor, get_item, get_items, ref_cursor, TierListCollection, TierListCollectionExt,
};
pub use crate::tier_meta::{ListLen, TierMeta};

verus! {

/// The identifier for a document.
pub type DocumentId = [u8; 20];

/// The common elements of database documents.
pub trait Document {
    /// The identifier of this document, as contracts speak of it.
    spec fn spec_id(&self) -> DocumentId;

    /// Gets the `DocumentId` of this document.
    fn get_id(&self) -> (id: &DocumentId)
        ensures
            *id == self.spec_id(),
    ;
}

/// Database documents which are also nodes in a doubly linked list.
pub trait LinkedList: Document {
    /// The identifier of the previous document, if there is one.
    spec fn spec_previous_id(&self) -> Option<DocumentId>;

    /// The identifier of the next document, if there is one.
    spec fn spec_next_id(&self) -> Option<DocumentId>;

    /// Gets the identifier of previous document.
    fn get_previous_id(&self) -> (id: Option<&DocumentId>)
        ensures
            id.is_some() == self.spec_previous_id().is_some(),
            id.is_some() ==> *id.unwrap() == self.spec_previous_id().unwrap(),
    ;

    /// Gets the identifier of next document.
    fn get_next_id(&self) -> (id: Option<&DocumentId>)
        ensures
            id.is_some() == self.spec_next_id().is_some(),
            id.is_some() ==> *id.unwrap() == self.spec_next_id().unwrap(),
    ;

    /// Returns `true` if this is the front of the linked list.
    fn is_front(&self) -> (front: bool)
        ensures
            front == self.spec_previous_id().is_none(),
    {
        self.get_previous_id().is_none()
    }

    /// Returns `true` if this is the back of the linked list.
    fn is_back(&self) -> (back: bool)
        ensures
            back == self.spec_next_id().is_none(),
    {
        self.get_next_id().is_none()
    }
}

} // verus!
