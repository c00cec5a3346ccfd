use bench_api::item::{validate_item, ApiError, Item};
use bench_api::price::Price;
use bench_api::store::{needs_seeding, sample_items, ItemStore};

fn item(name: &str, price: f64) -> Item {
    Item::new(name.to_string(), Some(format!("{} description", name)), Price::from_bits(price.to_bits()))
}

fn stamp() -> String {
    "2024-01-02T03:04:05+00:00".to_string()
}

#[test]
fn create_then_get_returns_created_record() {
    let mut store = ItemStore::new();
    let created = store.insert(item("Desk", 120.5), stamp()).unwrap();
    assert_eq!(created.name, "Desk");
    assert_eq!(created.description.as_deref(), Some("Desk description"));
    assert_eq!(f64::from_bits(created.price.to_bits()), 120.5);
    assert_eq!(created.created_at, stamp());
    let fetched = store.get(created.id).unwrap();
    assert_eq!(fetched.id, created.id);
    assert_eq!(fetched.name, created.name);
    assert_eq!(fetched.description, created.description);
    assert_eq!(fetched.price, created.price);
    assert_eq!(fetched.created_at, created.created_at);
}

#[test]
fn create_with_zero_price_is_accepted() {
    let mut store = ItemStore::new();
    assert!(store.insert(item("Free", 0.0), stamp()).is_ok());
    assert!(store.insert(item("Signed zero", -0.0), stamp()).is_ok());
}

#[test]
fn create_rejects_empty_name_and_negative_price() {
    let mut store = ItemStore::new();
    assert_eq!(store.insert(item("", 1.0), stamp()).unwrap_err(), ApiError::InvalidArgument);
    assert_eq!(store.insert(item("Pen", -0.01), stamp()).unwrap_err(), ApiError::InvalidArgument);
    assert_eq!(store.insert(item("Pen", f64::NAN), stamp()).unwrap_err(), ApiError::InvalidArgument);
    assert_eq!(store.count_rows(), 0);
}

#[test]
fn validate_item_follows_price_sign() {
    assert!(validate_item(&item("A", 5.0)).is_ok());
    assert_eq!(validate_item(&item("A", -5.0)), Err(ApiError::InvalidArgument));
    assert_eq!(validate_item(&item("A", f64::NEG_INFINITY)), Err(ApiError::InvalidArgument));
    assert!(validate_item(&item("A", f64::INFINITY)).is_ok());
    assert_eq!(validate_item(&item("A", f64::NAN)), Err(ApiError::InvalidArgument));
    assert_eq!(validate_item(&item("A", -f64::NAN)), Err(ApiError::InvalidArgument));
    assert!(validate_item(&item("A", -0.0)).is_ok());
    assert_eq!(validate_item(&item("", 5.0)), Err(ApiError::InvalidArgument));
}

#[test]
fn price_is_non_negative_matches_float_comparison() {
    for v in [0.0f64, -0.0, 1.5, -1.5, f64::MIN_POSITIVE, -f64::MIN_POSITIVE, f64::MAX, f64::MIN, f64::INFINITY, f64::NEG_INFINITY, f64::NAN, -f64::NAN, f64::from_bits(0x7FF0_0000_0000_0001), f64::from_bits(u64::MAX), -5e-324, 5e-324] {
        assert_eq!(Price::from_bits(v.to_bits()).is_non_negative(), v >= 0.0, "value {:?}", v);
    }
}

#[test]
fn update_on_missing_id_is_not_found() {
    let mut store = ItemStore::new();
    store.insert(item("Lamp", 10.0), stamp()).unwrap();
    assert_eq!(store.update(999, item("Chair", 50.0)).unwrap_err(), ApiError::NotFound);
    assert_eq!(store.update(-3, item("Chair", 0.0)).unwrap_err(), ApiError::NotFound);
}

#[test]
fn update_validates_before_lookup() {
    let mut store = ItemStore::new();
    assert_eq!(store.update(999, item("", 50.0)).unwrap_err(), ApiError::InvalidArgument);
    assert_eq!(store.update(999, item("Chair", -1.0)).unwrap_err(), ApiError::InvalidArgument);
}

#[test]
fn update_keeps_id_and_created_at() {
    let mut store = ItemStore::new();
    let created = store.insert(item("Lamp", 10.0), stamp()).unwrap();
    let updated = store.update(created.id, Item::new("Lamp XL".to_string(), None, Price::from_bits(12.25f64.to_bits()))).unwrap();
    assert_eq!(updated.id, created.id);
    assert_eq!(updated.created_at, created.created_at);
    assert_eq!(updated.name, "Lamp XL");
    assert_eq!(updated.description, None);
    let fetched = store.get(created.id).unwrap();
    assert_eq!(fetched.name, "Lamp XL");
    assert_eq!(f64::from_bits(fetched.price.to_bits()), 12.25);
}

#[test]
fn delete_twice_is_not_found_second_time() {
    let mut store = ItemStore::new();
    let created = store.insert(item("Cup", 3.0), stamp()).unwrap();
    assert_eq!(store.delete(created.id), Ok(()));
    assert_eq!(store.delete(created.id), Err(ApiError::NotFound));
    assert_eq!(store.get(created.id).unwrap_err(), ApiError::NotFound);
}

#[test]
fn ids_are_never_reused_after_delete() {
    let mut store = ItemStore::new();
    let a = store.insert(item("A", 1.0), stamp()).unwrap();
    store.delete(a.id).unwrap();
    let b = store.insert(item("B", 1.0), stamp()).unwrap();
    assert!(b.id > a.id);
}

#[test]
fn list_is_ordered_by_id_and_empty_when_empty() {
    let mut store = ItemStore::new();
    assert!(store.list().is_empty());
    for name in ["a", "b", "c", "d"] {
        store.insert(item(name, 1.0), stamp()).unwrap();
    }
    store.delete(2).unwrap();
    let ids: Vec<i64> = store.list().iter().map(|r| r.id).collect();
    assert_eq!(ids, vec![1, 3, 4]);
    assert_eq!(store.list_first(2).len(), 2);
    assert_eq!(store.list_first(10).len(), 3);
    assert_eq!(store.list_first(0).len(), 0);
}

#[test]
fn seeding_empty_store_gives_three_samples() {
    let mut store = ItemStore::new();
    assert_eq!(store.seed_if_empty(&stamp()), Ok(()));
    let names: Vec<String> = store.list().into_iter().map(|r| r.name).collect();
    assert_eq!(names, vec!["Laptop", "Mouse", "Keyboard"]);
    let prices: Vec<f64> = store.list().iter().map(|r| f64::from_bits(r.price.to_bits())).collect();
    assert_eq!(prices, vec![999.99, 29.99, 79.99]);
    assert_eq!(store.seed_if_empty(&stamp()), Ok(()));
    assert_eq!(store.count_rows(), 3);
}

#[test]
fn seeding_leaves_nonempty_store_alone() {
    let mut store = ItemStore::new();
    store.insert(item("Only", 1.0), stamp()).unwrap();
    assert_eq!(store.seed_if_empty(&stamp()), Ok(()));
    assert_eq!(store.count_rows(), 1);
}

#[test]
fn sample_items_and_seeding_decision() {
    let samples = sample_items();
    assert_eq!(samples.len(), 3);
    assert_eq!(samples[0].description.as_deref(), Some("High-performance laptop"));
    assert_eq!(samples[1].description.as_deref(), Some("Wireless mouse"));
    assert_eq!(samples[2].description.as_deref(), Some("Mechanical keyboard"));
    assert!(needs_seeding(0));
    assert!(!needs_seeding(3));
}

#[test]
fn fifty_creates_get_unique_ids() {
    let mut store = ItemStore::new();
    store.seed_if_empty(&stamp()).unwrap();
    let initial = store.list().len();
    let mut ids = Vec::new();
    for k in 0..50 {
        ids.push(store.insert(item(&format!("item{}", k), k as f64), stamp()).unwrap().id);
    }
    let mut sorted = ids.clone();
    sorted.sort();
    sorted.dedup();
    assert_eq!(sorted.len(), 50);
    assert_eq!(store.list().len(), initial + 50);
}

#[test]
fn status_codes() {
    assert_eq!(ApiError::InvalidArgument.status_code(), 400);
    assert_eq!(ApiError::NotFound.status_code(), 404);
    assert_eq!(ApiError::Internal.status_code(), 500);
}
