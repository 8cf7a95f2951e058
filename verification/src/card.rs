//! A card making up a tier in a document collection.

use vstd::prelude::*;
use crate::{Document, DocumentId, LinkedList};

verus! {

/// An individual `Card`.
#[derive(PartialEq, Eq, Clone, Debug)]
pub struct Card {
    /// The identifier of this `Card`.
    pub id: DocumentId,
    /// The display name of this `Card`.
    pub name: String,
    /// The description of this `Card`.
    pub description: String,
    /// The up votes on this `Card`.
    pub up_votes: u64,
    /// The down votes on this `Card`.
    pub down_votes: u64,
    /// The bias which drags this `Card` down in addition to down votes.
    pub bias: u64,
    /// The Id of the previous `Card` in the current tier.
    pub previous_card: Option<DocumentId>,
    /// The Id of the next `Card` in the current tier.
    pub next_card: Option<DocumentId>,
}

impl Document for Card {
    open spec fn spec_id(&self) -> DocumentId {
        self.id
    }

    #[inline]
    fn get_id(&self) -> (id: &DocumentId) {
        &self.id
    }
}

impl LinkedList for Card {
    open spec fn spec_previous_id(&self) -> Option<DocumentId> {
        self.previous_card
    }

    open spec fn spec_next_id(&self) -> Option<DocumentId> {
        self.next_card
    }

    #[inline]
    fn get_previous_id(&self) -> (id: Option<&DocumentId>) {
        self.previous_card.as_ref()
    }

    #[inline]
    fn get_next_id(&self) -> (id: Option<&DocumentId>) {
        self.next_card.as_ref()
    }
}

} // verus!
