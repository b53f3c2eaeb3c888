use onset_enhanced::codec::{decode_registry, encode_registry};
use onset_enhanced::room::{Roomlist, Timestamp};
use onset_enhanced::store::transact;

#[test]
fn round_trip_keeps_every_room() {
    let mut list = Roomlist::empty_roomlist();
    let a = list.create_room(String::from("Alpha"), String::from("A room"), Timestamp::new(-5, 7));
    let b = list.create_room(String::from("部屋"), String::new(), Timestamp::new(i64::MAX, 999_999_999));
    list.update_room(b, String::from("Beta"), String::from("B room"), Timestamp::new(i64::MAX, 1));
    let bytes = encode_registry(&list).unwrap();
    assert!(!bytes.is_empty());
    let back = decode_registry(&bytes).unwrap();
    assert_eq!(back.len(), 2);
    assert_eq!(back.find(&a), list.find(&a));
    assert_eq!(back.find(&b), list.find(&b));
    assert_eq!(back.find(&b).unwrap().created_at, Timestamp::new(i64::MAX, 999_999_999));
}

#[test]
fn empty_registry_round_trips() {
    let bytes = encode_registry(&Roomlist::empty_roomlist()).unwrap();
    assert!(!bytes.is_empty());
    let back = decode_registry(&bytes).unwrap();
    assert_eq!(back.len(), 0);
}

#[test]
fn transact_create_alpha_then_snapshot() {
    let t1 = Timestamp::new(1_700_000_000, 42);
    let file = encode_registry(&Roomlist::empty_roomlist()).unwrap();
    let mut created = None;
    let written = transact(&file, |mut list: Roomlist| {
        created = Some(list.create_room(String::from("Alpha"), String::from("A room"), t1));
        list
    })
    .unwrap();
    assert!(written.len() > 0);
    let id = created.unwrap();
    let snapshot = decode_registry(&written).unwrap();
    assert_eq!(snapshot.len(), 1);
    let room = snapshot.find(&id).unwrap();
    assert_eq!(room.name, "Alpha");
    assert_eq!(room.description, "A room");
    assert_eq!(room.created_at, t1);
    assert_eq!(room.updated_at, t1);
}

#[test]
fn sequential_transactions_lose_no_update() {
    let mut file = encode_registry(&Roomlist::empty_roomlist()).unwrap();
    let n: usize = 10;
    for i in 0..n {
        file = transact(&file, |mut list: Roomlist| {
            list.create_room(format!("room{}", i), String::new(), Timestamp::new(i as i64, 0));
            list
        })
        .unwrap();
    }
    assert_eq!(decode_registry(&file).unwrap().len(), n);
}

#[test]
fn non_encoded_bytes_give_no_snapshot() {
    assert!(decode_registry(&b"not a registry".to_vec()).is_none());
    assert!(decode_registry(&vec![0xc1]).is_none());
    assert!(decode_registry(&Vec::new()).is_none());
}

#[test]
fn transact_on_non_encoded_bytes_fails_without_calling() {
    let mut called = false;
    let r = transact(&b"garbage".to_vec(), |list: Roomlist| {
        called = true;
        list
    });
    assert!(r.is_none());
    assert!(!called);
}

#[test]
fn transact_identity_keeps_the_rooms() {
    let mut list = Roomlist::empty_roomlist();
    let id = list.create_room(String::from("Keep"), String::from("me"), Timestamp::new(3, 4));
    let file = encode_registry(&list).unwrap();
    let written = transact(&file, |l: Roomlist| l).unwrap();
    let back = decode_registry(&written).unwrap();
    assert_eq!(back.find(&id), list.find(&id));
    assert_eq!(back.len(), 1);
}
