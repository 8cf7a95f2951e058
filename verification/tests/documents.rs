use galileo_tier_database::{Card, Document, DocumentId, LinkedList, ListLen, TierMeta};

fn id(byte: u8) -> DocumentId {
    [byte; 20]
}

fn card(byte: u8, previous: Option<u8>, next: Option<u8>) -> Card {
    Card {
        id: id(byte),
        name: format!("card {}", byte),
        description: String::new(),
        up_votes: 3,
        down_votes: 1,
        bias: 2,
        previous_card: previous.map(id),
        next_card: next.map(id),
    }
}

#[test]
fn card_exposes_its_identifier_and_links() {
    let middle = card(2, Some(1), Some(3));
    assert_eq!(middle.get_id(), &id(2));
    assert_eq!(middle.get_previous_id(), Some(&id(1)));
    assert_eq!(middle.get_next_id(), Some(&id(3)));
    assert!(!middle.is_front());
    assert!(!middle.is_back());
}

#[test]
fn card_without_a_next_is_the_back() {
    let back = card(3, Some(2), None);
    assert_eq!(back.get_next_id(), None);
    assert!(back.is_back());
    assert!(!back.is_front());
}

#[test]
fn card_without_a_previous_is_the_front() {
    let front = card(1, None, Some(2));
    assert_eq!(front.get_previous_id(), None);
    assert!(front.is_front());
    assert!(!front.is_back());
}

#[test]
fn card_alone_is_front_and_back() {
    let alone = card(7, None, None);
    assert!(alone.is_front());
    assert!(alone.is_back());
}

#[test]
fn cards_are_values() {
    let one = card(1, None, Some(2));
    let same = one.clone();
    assert_eq!(one, same);
    let mut voted = one.clone();
    voted.up_votes += 1;
    assert_ne!(one, voted);
    assert_eq!(voted.up_votes, 4);
    assert_eq!(voted.down_votes, 1);
    assert_eq!(voted.bias, 2);
    assert_eq!(voted.name, "card 1");
}

#[test]
fn list_len_is_never_zero() {
    assert_eq!(ListLen::new(0), None);
    assert_eq!(ListLen::new(1).map(|len| len.get()), Some(1));
    assert_eq!(ListLen::new(42).map(|len| len.get()), Some(42));
    assert_eq!(ListLen::new(u64::MAX).map(|len| len.get()), Some(u64::MAX));
    assert_eq!(ListLen::new(5), ListLen::new(5));
    assert_ne!(ListLen::new(5), ListLen::new(6));
}

#[test]
fn tier_meta_keeps_what_it_was_made_with() {
    let len = ListLen::new(3);
    let meta = TierMeta::new(id(10), (len, id(1), id(3)), Some(id(9)), Some(id(11)));
    assert_eq!(meta.id, id(10));
    assert_eq!(meta.get_id(), &id(10));
    assert_eq!(meta.list_len(), len);
    assert_eq!(meta.list_len().map(|len| len.get()), Some(3));
    assert_eq!(meta.list_front(), &id(1));
    assert_eq!(meta.list_back(), &id(3));
    assert_eq!(meta.previous_tier, Some(id(9)));
    assert_eq!(meta.next_tier, Some(id(11)));
    assert_eq!(meta.get_previous_id(), Some(&id(9)));
    assert_eq!(meta.get_next_id(), Some(&id(11)));
    assert!(!meta.is_front());
    assert!(!meta.is_back());
}

#[test]
fn tier_meta_with_unknown_length() {
    let meta = TierMeta::new(id(10), (None, id(1), id(1)), None, None);
    assert_eq!(meta.list_len(), None);
    assert_eq!(meta.list_front(), meta.list_back());
    assert!(meta.is_front());
    assert!(meta.is_back());
}

#[test]
fn tier_metas_compare_by_every_part() {
    let meta = TierMeta::new(id(10), (ListLen::new(2), id(1), id(2)), None, Some(id(11)));
    let same = TierMeta::new(id(10), (ListLen::new(2), id(1), id(2)), None, Some(id(11)));
    let longer = TierMeta::new(id(10), (ListLen::new(3), id(1), id(2)), None, Some(id(11)));
    let last = TierMeta::new(id(10), (ListLen::new(2), id(1), id(2)), None, None);
    assert!(meta == same);
    assert!(meta != longer);
    assert!(meta != last);
    assert!(last.is_back());
}
