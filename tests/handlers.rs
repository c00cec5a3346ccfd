use bench_api::handlers::{
    benchmark_select_response, check_update, delete_outcome, found_row, reread_row,
    cpu_stress, create_item, db_benchmark_select, delete_item, delete_response, echo_get, echo_post,
    get_all_items, get_item, health_check, memory_stress, read_item, read_root, update_item, EchoRequest,
};
use bench_api::clock::{current_iso_timestamp, signed_unix_nanos, timestamp_at};
use bench_api::handlers::push_decimal;
use bench_api::item::{ApiError, Item};
use bench_api::price::Price;
use bench_api::store::ItemStore;
use bench_api::stress::{allocate_and_release, cpu_checksum};

fn well_formed(ts: &str) -> bool {
    let b = ts.as_bytes();
    ts.len() >= 25
        && ts.ends_with("+00:00")
        && b[4] == b'-'
        && b[7] == b'-'
        && b[10] == b'T'
        && b[13] == b':'
        && b[16] == b':'
        && b[..4].iter().all(|c| c.is_ascii_digit())
        && [5, 6, 8, 9, 11, 12, 14, 15, 17, 18].iter().all(|&i| b[i].is_ascii_digit())
        && (ts.len() == 25 || (b[19] == b'.' && [29, 32, 35].contains(&ts.len())))
}

fn item(name: &str, price: f64) -> Item {
    Item::new(name.to_string(), None, Price::from_bits(price.to_bits()))
}

#[test]
fn cpu_zero_iterations_is_zero() {
    assert_eq!(cpu_stress(0).result, 0);
    assert_eq!(cpu_checksum(0), 0);
}

#[test]
fn cpu_is_deterministic() {
    let a = cpu_stress(12345);
    let b = cpu_stress(12345);
    assert_eq!(a.result, b.result);
    assert_eq!(a.iterations, 12345);
}

#[test]
fn cpu_exact_values() {
    assert_eq!(cpu_checksum(1), 0);
    assert_eq!(cpu_checksum(3), 5);
    assert_eq!(cpu_checksum(1000), 332833500);
}

#[test]
fn cpu_wraps_around() {
    assert_eq!(cpu_checksum(4_000_000), 2886581259624448384);
}

#[test]
fn memory_limit_boundary() {
    let ok = memory_stress(100).unwrap();
    assert_eq!(ok.allocated_bytes, 100 * 1024 * 1024);
    assert_eq!(ok.allocated_mb, 100);
    assert!(well_formed(&ok.timestamp));
    assert_eq!(memory_stress(101).err(), Some(ApiError::InvalidArgument));
    assert_eq!(allocate_and_release(0), Ok(0));
    assert_eq!(allocate_and_release(3), Ok(3 * 1024 * 1024));
    assert_eq!(allocate_and_release(u64::MAX), Err(ApiError::InvalidArgument));
}

#[test]
fn responses_carry_well_formed_timestamps() {
    assert!(well_formed(&read_root().timestamp));
    assert_eq!(read_root().hello, "World");
    let q = read_item(7, Some("abc".to_string()));
    assert_eq!(q.item_id, 7);
    assert_eq!(q.q.as_deref(), Some("abc"));
    assert!(well_formed(&q.timestamp));
    assert!(well_formed(&cpu_stress(10).timestamp));
    assert!(well_formed(&echo_get("hi".to_string(), 5).timestamp));
    let store = ItemStore::new();
    assert!(well_formed(&db_benchmark_select(&store, 5).timestamp));
}

#[test]
fn health_is_healthy_either_way() {
    let up = health_check(true);
    assert_eq!(up.status, "healthy");
    assert_eq!(up.database, "connected");
    assert!(well_formed(&up.timestamp));
    let down = health_check(false);
    assert_eq!(down.status, "healthy");
    assert_eq!(down.database, "disconnected");
}

#[test]
fn echo_passes_payload_through() {
    let data = serde_json::Value::from(vec![1, 2, 3]);
    let r = echo_post(EchoRequest { message: "ping".to_string(), data: Some(data.clone()) }, 1_200_000);
    assert_eq!(r.message, "ping");
    assert_eq!(r.data, Some(data));
    assert_eq!(r.processing_time_ns, 1_200_000);
    assert!(well_formed(&r.timestamp));
    let g = echo_get("hello".to_string(), 7);
    assert_eq!(g.message, "hello");
    assert_eq!(g.processing_time_ns, 7);
}

#[test]
fn crud_handlers_round_trip() {
    let mut store = ItemStore::new();
    let created = create_item(&mut store, item("Stool", 15.0)).unwrap();
    assert!(well_formed(&created.created_at));
    assert_eq!(get_item(&store, created.id).unwrap().name, "Stool");
    assert_eq!(get_all_items(&store).len(), 1);
    assert_eq!(create_item(&mut store, item("", 15.0)).unwrap_err().status_code(), 400);
    let updated = update_item(&mut store, created.id, item("Bench", 20.0)).unwrap();
    assert_eq!(updated.name, "Bench");
    assert_eq!(update_item(&mut store, 4242, item("Bench", 20.0)).unwrap_err().status_code(), 404);
    let gone = delete_item(&mut store, created.id).unwrap();
    assert_eq!(gone.message, format!("Item {} deleted successfully", created.id));
    assert_eq!(delete_item(&mut store, created.id).err(), Some(ApiError::NotFound));
    assert_eq!(get_item(&store, created.id).unwrap_err().status_code(), 404);
}

#[test]
fn delete_message_text() {
    assert_eq!(delete_response(7).message, "Item 7 deleted successfully");
    assert_eq!(delete_response(-12).message, "Item -12 deleted successfully");
}

#[test]
fn benchmark_select_counts_rows() {
    let mut store = ItemStore::new();
    store.seed_if_empty(&"2024-01-02T03:04:05+00:00".to_string()).unwrap();
    assert_eq!(db_benchmark_select(&store, 2).rows_fetched, 2);
    assert_eq!(db_benchmark_select(&store, 100).rows_fetched, 3);
    assert_eq!(db_benchmark_select(&store, 0).rows_fetched, 0);
}

#[test]
fn decisions_on_lookup_results() {
    let mut store = ItemStore::new();
    let row = create_item(&mut store, item("Mat", 4.0)).unwrap();
    let again = get_item(&store, row.id).unwrap();
    assert_eq!(found_row(Some(again)).unwrap().name, "Mat");
    assert_eq!(found_row(None).unwrap_err(), ApiError::NotFound);
    assert_eq!(reread_row(None).unwrap_err(), ApiError::Internal);
    assert_eq!(reread_row(Some(get_item(&store, row.id).unwrap())).unwrap().id, row.id);
}

#[test]
fn update_check_orders_validation_first() {
    assert_eq!(check_update(&item("", 1.0), false), Err(ApiError::InvalidArgument));
    assert_eq!(check_update(&item("A", f64::NAN), true), Err(ApiError::InvalidArgument));
    assert_eq!(check_update(&item("A", 1.0), false), Err(ApiError::NotFound));
    assert_eq!(check_update(&item("A", 1.0), true), Ok(()));
}

#[test]
fn delete_outcome_and_benchmark_response() {
    assert_eq!(delete_outcome(9, true).unwrap().message, "Item 9 deleted successfully");
    assert_eq!(delete_outcome(9, false).err(), Some(ApiError::NotFound));
    let b = benchmark_select_response(17, 250);
    assert_eq!(b.rows_fetched, 17);
    assert_eq!(b.processing_time_ns, 250);
    assert!(well_formed(&b.timestamp));
}

#[test]
fn update_rejects_nan_price() {
    let mut store = ItemStore::new();
    let row = create_item(&mut store, item("Rug", 4.0)).unwrap();
    assert_eq!(update_item(&mut store, row.id, item("Rug", f64::NAN)).unwrap_err(), ApiError::InvalidArgument);
    assert_eq!(create_item(&mut store, item("Rug", f64::NAN)).unwrap_err(), ApiError::InvalidArgument);
    assert_eq!(f64::from_bits(get_item(&store, row.id).unwrap().price.to_bits()), 4.0);
}

#[test]
fn timestamps_of_fixed_instants() {
    assert_eq!(timestamp_at(0), "1970-01-01T00:00:00+00:00");
    assert_eq!(timestamp_at(1_500_000_000), "1970-01-01T00:00:01.500+00:00");
    assert_eq!(timestamp_at(-1), "1969-12-31T23:59:59.999999999+00:00");
    assert_eq!(timestamp_at(1_700_000_000_000_001_000), "2023-11-14T22:13:20.000001+00:00");
    for n in [i64::MIN, i64::MAX, -1, 0, 86_399_999_999_999] {
        assert!(well_formed(&timestamp_at(n)), "{}", n);
    }
    assert!(well_formed(&current_iso_timestamp()));
}

#[test]
fn clock_readings_are_held_to_i64() {
    assert_eq!(signed_unix_nanos(true, 42), 42);
    assert_eq!(signed_unix_nanos(false, 42), -42);
    assert_eq!(signed_unix_nanos(true, u128::MAX), i64::MAX);
    assert_eq!(signed_unix_nanos(false, u128::MAX), i64::MIN);
    assert_eq!(signed_unix_nanos(false, i64::MAX as u128), -i64::MAX);
}

#[test]
fn decimal_text_of_integers() {
    for n in [0i64, 7, 10, 99, 100, -1, -10, 1234567890, i64::MAX, i64::MIN] {
        let mut s = String::from("x");
        push_decimal(&mut s, n);
        assert_eq!(s, format!("x{}", n));
    }
}
