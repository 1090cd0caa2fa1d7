use statement_distribution::primitives::{CandidateHash, Hash256, PeerId};
use statement_distribution::requests::RequestKey;
use statement_distribution::table::{Key, Table};

#[test]
fn table_holds_what_was_inserted() {
    let mut table: Table<PeerId, u32> = Table::new();
    assert!(!table.contains(&PeerId(1)));
    assert_eq!(table.get(&PeerId(1)), None);
    table.insert(PeerId(1), 10);
    table.insert(PeerId(2), 20);
    assert_eq!(table.get(&PeerId(1)), Some(&10));
    assert_eq!(table.get(&PeerId(2)), Some(&20));
    assert!(table.contains(&PeerId(2)));
    assert!(!table.contains(&PeerId(3)));
}

#[test]
fn insert_replaces_the_value_of_a_key() {
    let mut table: Table<PeerId, u32> = Table::new();
    table.insert(PeerId(1), 10);
    table.insert(PeerId(1), 11);
    assert_eq!(table.get(&PeerId(1)), Some(&11));
    assert_eq!(table.remove(&PeerId(1)), Some(11));
    assert_eq!(table.get(&PeerId(1)), None);
}

#[test]
fn remove_takes_one_entry_out() {
    let mut table: Table<PeerId, u32> = Table::new();
    for peer in 0..5u64 {
        table.insert(PeerId(peer), (peer * 2) as u32);
    }
    assert_eq!(table.remove(&PeerId(1)), Some(2));
    assert_eq!(table.remove(&PeerId(1)), None);
    assert_eq!(table.remove(&PeerId(9)), None);
    for peer in [0u64, 2, 3, 4] {
        assert_eq!(table.get(&PeerId(peer)), Some(&((peer * 2) as u32)));
    }
}

#[test]
fn keys_are_the_same_when_all_their_parts_are() {
    let one = RequestKey { peer: PeerId(1), candidate: CandidateHash(Hash256::repeat_byte(1)) };
    let other_peer = RequestKey { peer: PeerId(2), candidate: CandidateHash(Hash256::repeat_byte(1)) };
    let other_candidate = RequestKey { peer: PeerId(1), candidate: CandidateHash(Hash256::repeat_byte(2)) };
    assert!(one.same(&one.clone()));
    assert!(!one.same(&other_peer));
    assert!(!one.same(&other_candidate));
    assert!(PeerId(4).same(&PeerId(4)));
    assert!(!PeerId(4).same(&PeerId(5)));
}
