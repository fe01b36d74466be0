use candid::Principal;
use icp_real_estate_backend::{
    add_property, can_allocate, get_properties, get_transactions, next_id, ListingStore,
};

fn alice() -> Principal {
    Principal::from_slice(&[1, 2, 3])
}

fn bob() -> Principal {
    Principal::from_slice(&[4, 5, 6, 7])
}

#[test]
fn new_store_holds_nothing() {
    let store = ListingStore::new();
    assert!(get_properties(&store).is_empty());
    assert!(get_transactions(&store).is_empty());
    assert!(icp_real_estate_backend::get_inquiries(&store).is_empty());
    assert!(can_allocate(&store));
}

#[test]
fn villa_is_the_first_property() {
    let mut store = ListingStore::new();
    add_property(&mut store, alice(), 1_700_000_000_000_000_000, "Villa".to_string(), 500);
    let properties = get_properties(&store);
    assert_eq!(properties.len(), 1);
    assert_eq!(properties[0].id, 1);
    assert_eq!(properties[0].name, "Villa");
    assert_eq!(properties[0].price, 500);
    assert!(!properties[0].is_leased);
    assert_eq!(properties[0].owner, alice());
    assert_eq!(properties[0].created_at, 1_700_000_000_000_000_000);
}

#[test]
fn listing_is_logged_as_added() {
    let mut store = ListingStore::new();
    add_property(&mut store, alice(), 42, "Villa".to_string(), 500);
    let log = get_transactions(&store);
    assert_eq!(log.len(), 1);
    assert_eq!(log[0].property_id, 1);
    assert_eq!(log[0].property_name, "Villa");
    assert_eq!(log[0].price, 500);
    assert_eq!(log[0].action, "added");
    assert_eq!(log[0].actor, alice());
    assert_eq!(log[0].timestamp, 42);
}

#[test]
fn identifiers_count_up_from_one() {
    let mut store = ListingStore::new();
    add_property(&mut store, alice(), 1, "Villa".to_string(), 500);
    add_property(&mut store, bob(), 2, "Cabin".to_string(), 120);
    add_property(&mut store, alice(), 3, "Loft".to_string(), 300);
    let ids: Vec<u64> = get_properties(&store).iter().map(|p| p.id).collect();
    assert_eq!(ids, vec![1, 2, 3]);
}

#[test]
fn identifiers_ascend_and_never_repeat() {
    let mut store = ListingStore::new();
    for round in 0..50u64 {
        let owner = if round % 2 == 0 { alice() } else { bob() };
        add_property(&mut store, owner, round, format!("House {}", round), round * 10);
    }
    let properties = get_properties(&store);
    assert_eq!(properties.len(), 50);
    for i in 0..properties.len() {
        for j in (i + 1)..properties.len() {
            assert!(properties[i].id < properties[j].id);
            assert_ne!(properties[i].id, properties[j].id);
        }
    }
}

#[test]
fn properties_stay_in_order_of_creation() {
    let mut store = ListingStore::new();
    add_property(&mut store, alice(), 1, "Villa".to_string(), 500);
    add_property(&mut store, bob(), 2, "Cabin".to_string(), 120);
    let properties = get_properties(&store);
    assert_eq!(properties[0].name, "Villa");
    assert_eq!(properties[0].owner, alice());
    assert_eq!(properties[1].name, "Cabin");
    assert_eq!(properties[1].owner, bob());
    assert_eq!(properties[1].price, 120);
    assert_eq!(properties[1].created_at, 2);
}

#[test]
fn empty_name_and_zero_price_are_accepted() {
    let mut store = ListingStore::new();
    add_property(&mut store, alice(), 0, String::new(), 0);
    let properties = get_properties(&store);
    assert_eq!(properties.len(), 1);
    assert_eq!(properties[0].id, 1);
    assert_eq!(properties[0].name, "");
    assert_eq!(properties[0].price, 0);
    assert_eq!(properties[0].created_at, 0);
    let log = get_transactions(&store);
    assert_eq!(log[0].property_name, "");
    assert_eq!(log[0].price, 0);
}

#[test]
fn largest_price_and_time_are_accepted() {
    let mut store = ListingStore::new();
    add_property(&mut store, alice(), u64::MAX, "Palace".to_string(), u64::MAX);
    let properties = get_properties(&store);
    assert_eq!(properties[0].price, u64::MAX);
    assert_eq!(properties[0].created_at, u64::MAX);
    let log = get_transactions(&store);
    assert_eq!(log[0].price, u64::MAX);
    assert_eq!(log[0].timestamp, u64::MAX);
}

#[test]
fn name_keeps_every_character() {
    let mut store = ListingStore::new();
    let name = "Ch\u{e2}teau \u{1f3f0}  12/b\n".to_string();
    add_property(&mut store, alice(), 5, name.clone(), 9);
    assert_eq!(get_properties(&store)[0].name, name);
    assert_eq!(get_transactions(&store)[0].property_name, name);
}

#[test]
fn next_id_hands_out_the_counter() {
    let mut store = ListingStore::new();
    assert_eq!(next_id(&mut store), 1);
    assert_eq!(next_id(&mut store), 2);
    add_property(&mut store, alice(), 1, "Villa".to_string(), 500);
    assert_eq!(get_properties(&store)[0].id, 3);
    assert_eq!(get_transactions(&store)[0].property_id, 3);
    assert_eq!(next_id(&mut store), 4);
    assert!(get_properties(&store).len() == 1);
}

#[test]
fn snapshots_are_copies() {
    let mut store = ListingStore::new();
    add_property(&mut store, alice(), 1, "Villa".to_string(), 500);
    let mut properties = get_properties(&store);
    properties[0].price = 1;
    properties[0].name.push_str(" (sold)");
    properties.clear();
    let mut log = get_transactions(&store);
    log[0].action = "removed".to_string();
    let again = get_properties(&store);
    assert_eq!(again.len(), 1);
    assert_eq!(again[0].price, 500);
    assert_eq!(again[0].name, "Villa");
    assert_eq!(get_transactions(&store)[0].action, "added");
}

#[test]
fn anonymous_caller_can_list() {
    let mut store = ListingStore::new();
    add_property(&mut store, Principal::anonymous(), 1, "Shed".to_string(), 7);
    assert_eq!(get_properties(&store)[0].owner, Principal::anonymous());
    assert_eq!(get_transactions(&store)[0].actor, Principal::anonymous());
}
