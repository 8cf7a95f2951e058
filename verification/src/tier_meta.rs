//! A tier making up a tier list in a document collection.

use vstd::prelude::*;
use crate::{Document, DocumentId, LinkedList};

verus! {

/// The number of `Card`s in a list that is not empty.
#[derive(PartialEq, Eq, Clone, Copy, Debug)]
pub struct ListLen {
    cards: u64,
}

impl View for ListLen {
    type V = nat;

    closed spec fn view(&self) -> nat {
        self.cards as nat
    }
}

impl ListLen {
    #[verifier::type_invariant]
    spec fn counts_a_card(self) -> bool {
        self.cards > 0
    }

    /// Returns the length `cards`, unless it is zero.
    #[inline]
    pub fn new(cards: u64) -> (len: Option<Self>)
        ensures
            match len {
                Some(len) => cards > 0 && len@ == cards,
                None => cards == 0,
            },
    {
        if cards == 0 {
            None
        } else {
            Some(Self { cards })
        }
    }

    /// Returns the length as a number, which is at least one.
    #[inline]
    pub fn get(self) -> (cards: u64)
        ensures
            cards == self@,
            cards > 0,
    {
        proof {
            use_type_invariant(&self);
        }
        self.cards
    }
}

/// Metadata for a collection of `Card`s making up a tier.
#[derive(PartialEq, Eq)]
pub struct TierMeta {
    /// The Id of this `TierMeta`.
    pub id: DocumentId,
    /// The length and ends of the doubly linked list of `Card`s making up the tier.
    ends: (Option<ListLen>, DocumentId, DocumentId),
    /// The Id of the previous tier.
    pub previous_tier: Option<DocumentId>,
    /// The Id of the next tier.
    pub next_tier: Option<DocumentId>,
}

impl TierMeta {
    /// The cached length of the list of cards, if it is known.
    pub closed spec fn spec_list_len(&self) -> Option<ListLen> {
        self.ends.0
    }

    /// The cached identifier of the card at the front of the list.
    pub closed spec fn spec_list_front(&self) -> DocumentId {
        self.ends.1
    }

    /// The cached identifier of the card at the back of the list.
    pub closed spec fn spec_list_back(&self) -> DocumentId {
        self.ends.2
    }

    /// Returns a new `TierMeta`.
    ///
    /// # Params
    ///
    /// id --- The Id of this `TierMeta`
    /// ends --- The length and ends of the doubly linked list of `Card`s making up the tier
    /// previous_tier --- The Id of the previous tier
    /// next_tier --- The Id of the next tier
    #[inline]
    pub fn new(
        id: DocumentId,
        ends: (Option<ListLen>, DocumentId, DocumentId),
        previous_tier: Option<DocumentId>,
        next_tier: Option<DocumentId>,
    ) -> (meta: Self)
        ensures
            meta.spec_id() == id,
            meta.spec_list_len() == ends.0,
            meta.spec_list_front() == ends.1,
            meta.spec_list_back() == ends.2,
            meta.spec_previous_id() == previous_tier,
            meta.spec_next_id() == next_tier,
    {
        Self { id, ends, previous_tier, next_tier }
    }

    /// Returns the length of the linked list if known.
    #[inline]
    pub fn list_len(&self) -> (len: Option<ListLen>)
        ensures
            len == self.spec_list_len(),
    {
        self.ends.0
    }

    /// Returns the Id of the document at the front of the list.
    #[inline]
    pub fn list_front(&self) -> (front: &DocumentId)
        ensures
            *front == self.spec_list_front(),
    {
        &self.ends.1
    }

    /// Returns the Id of the document at the back of the list.
    #[inline]
    pub fn list_back(&self) -> (back: &DocumentId)
        ensures
            *back == self.spec_list_back(),
    {
        &self.ends.2
    }
}

impl Document for TierMeta {
    closed spec fn spec_id(&self) -> DocumentId {
        self.id
    }

    #[inline]
    fn get_id(&self) -> (id: &DocumentId) {
        &self.id
    }
}

impl LinkedList for TierMeta {
    closed spec fn spec_previous_id(&self) -> Option<DocumentId> {
        self.previous_tier
    }

    closed spec fn spec_next_id(&self) -> Option<DocumentId> {
        self.next_tier
    }

    #[inline]
    fn get_previous_id(&self) -> (id: Option<&DocumentId>) {
        self.previous_tier.as_ref()
    }

    #[inline]
    fn get_next_id(&self) -> (id: Option<&DocumentId>) {
        self.next_tier.as_ref()
    }
}

} // verus!
