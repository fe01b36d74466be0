use candid::Principal;
use icp_real_estate_backend::{
    add_property, buy_property, get_inquiries, get_properties, get_transactions, send_inquiry,
    ListingStore,
};

fn owner() -> Principal {
    Principal::from_slice(&[1])
}

fn visitor() -> Principal {
    Principal::from_slice(&[2, 2])
}

#[test]
fn inquiry_about_unknown_property_is_recorded() {
    let mut store = ListingStore::new();
    send_inquiry(&mut store, visitor(), 77, 12345, "Is the villa still free?".to_string());
    let inquiries = get_inquiries(&store);
    assert_eq!(inquiries.len(), 1);
    assert_eq!(inquiries[0].property_id, 12345);
    assert_eq!(inquiries[0].from, visitor());
    assert_eq!(inquiries[0].message, "Is the villa still free?");
    assert_eq!(inquiries[0].timestamp, 77);
    assert!(get_properties(&store).is_empty());
    assert!(get_transactions(&store).is_empty());
}

#[test]
fn each_inquiry_adds_one_entry_at_the_end() {
    let mut store = ListingStore::new();
    add_property(&mut store, owner(), 1, "Villa".to_string(), 500);
    for n in 0..10u64 {
        let before = get_inquiries(&store).len();
        send_inquiry(&mut store, visitor(), n, n % 3, format!("message {}", n));
        let inquiries = get_inquiries(&store);
        assert_eq!(inquiries.len(), before + 1);
        assert_eq!(inquiries[before].message, format!("message {}", n));
        assert_eq!(inquiries[before].property_id, n % 3);
        assert_eq!(inquiries[before].timestamp, n);
    }
    let inquiries = get_inquiries(&store);
    assert_eq!(inquiries[0].message, "message 0");
    assert_eq!(inquiries[9].message, "message 9");
}

#[test]
fn empty_message_is_accepted() {
    let mut store = ListingStore::new();
    send_inquiry(&mut store, visitor(), 0, 0, String::new());
    let inquiries = get_inquiries(&store);
    assert_eq!(inquiries.len(), 1);
    assert_eq!(inquiries[0].message, "");
    assert_eq!(inquiries[0].property_id, 0);
}

#[test]
fn message_text_is_kept_literally() {
    let mut store = ListingStore::new();
    let message = "  Tr\u{e8}s bien!\t\"quoted\" \u{1f600}\n\n".to_string();
    send_inquiry(&mut store, visitor(), 1, u64::MAX, message.clone());
    let inquiries = get_inquiries(&store);
    assert_eq!(inquiries[0].message, message);
    assert_eq!(inquiries[0].property_id, u64::MAX);
}

#[test]
fn inquiry_leaves_properties_and_log_alone() {
    let mut store = ListingStore::new();
    add_property(&mut store, owner(), 1, "Villa".to_string(), 500);
    send_inquiry(&mut store, visitor(), 2, 1, "Hello".to_string());
    let properties = get_properties(&store);
    assert_eq!(properties.len(), 1);
    assert_eq!(properties[0].owner, owner());
    assert_eq!(get_transactions(&store).len(), 1);
    add_property(&mut store, owner(), 3, "Cabin".to_string(), 120);
    assert_eq!(get_properties(&store)[1].id, 2);
}

#[test]
fn every_listing_gives_exactly_one_added_entry() {
    let mut store = ListingStore::new();
    let mut listed = 0;
    for n in 0..30u64 {
        add_property(&mut store, owner(), n, format!("House {}", n), n);
        listed += 1;
        let _ = buy_property(&mut store, visitor(), n, n / 2 + 1);
        let _ = buy_property(&mut store, owner(), n, n + 100);
        send_inquiry(&mut store, visitor(), n, n, "Hi".to_string());
        let added = get_transactions(&store).iter().filter(|t| t.action == "added").count();
        assert_eq!(added, listed);
        assert_eq!(get_properties(&store).len(), listed);
    }
    let log = get_transactions(&store);
    assert!(log.iter().all(|t| t.action == "added" || t.action == "bought"));
    let added: Vec<u64> =
        log.iter().filter(|t| t.action == "added").map(|t| t.property_id).collect();
    let expected: Vec<u64> = (1..=30).collect();
    assert_eq!(added, expected);
}

#[test]
fn log_and_owners_agree() {
    let mut store = ListingStore::new();
    add_property(&mut store, owner(), 1, "Villa".to_string(), 500);
    add_property(&mut store, visitor(), 2, "Cabin".to_string(), 120);
    assert!(buy_property(&mut store, visitor(), 3, 1).is_ok());
    assert!(buy_property(&mut store, owner(), 4, 2).is_ok());
    assert!(buy_property(&mut store, owner(), 5, 1).is_ok());
    let log = get_transactions(&store);
    for property in get_properties(&store) {
        let latest = log.iter().rev().find(|t| t.property_id == property.id);
        assert_eq!(latest.map(|t| t.actor), Some(property.owner));
        assert!(log
            .iter()
            .filter(|t| t.property_id == property.id)
            .all(|t| t.property_name == property.name && t.price == property.price));
    }
}
