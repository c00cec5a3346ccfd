use vstd::prelude::*;
use crate::clock::{current_iso_timestamp, elapsed_nanos, is_utc_timestamp};
use crate::item::{valid_item, validate_item, ApiError, Item, ItemResponse};
use crate::store::{has_id, lookup, new_row, rows_after_delete, rows_after_update, update_result, ItemStore};
use crate::stress::{allocate_and_release, checksum_of, cpu_checksum, BYTES_PER_MB, MAX_STRESS_MB};

verus! {

#[verifier::external_type_specification]
#[verifier::external_body]
pub struct ExValue(serde_json::Value);

/// Body of `GET /`.
pub struct RootResponse {
    pub hello: String,
    pub timestamp: String,
}

/// Body of `GET /items/{item_id}`.
pub struct ItemQueryResponse {
    pub item_id: u32,
    pub q: Option<String>,
    pub timestamp: String,
}

/// Body of `GET /health`.
pub struct HealthResponse {
    pub status: String,
    pub timestamp: String,
    pub database: String,
}

/// Body of `POST /echo`.
pub struct EchoRequest {
    pub message: String,
    pub data: Option<serde_json::Value>,
}

/// Answer to `POST /echo`: the request's fields, unchanged, with timing.
pub struct EchoResponse {
    pub message: String,
    pub data: Option<serde_json::Value>,
    pub timestamp: String,
    pub processing_time_ns: u128,
}

/// Answer to `GET /echo/{message}`.
pub struct EchoGetResponse {
    pub message: String,
    pub timestamp: String,
    pub processing_time_ns: u128,
}

/// Answer to `DELETE /db/items/{item_id}`.
pub struct DeleteResponse {
    pub message: String,
}

/// Answer to `GET /db/benchmark/select/{count}`: how many rows were read, not the rows.
pub struct BenchmarkSelectResponse {
    pub rows_fetched: usize,
    pub processing_time_ns: u128,
    pub timestamp: String,
}

/// Answer to `GET /stress/cpu/{iterations}`.
pub struct CpuStressResponse {
    pub iterations: u64,
    pub result: u64,
    pub processing_time_ns: u128,
    pub timestamp: String,
}

/// Answer to `GET /stress/memory/{size_mb}`.
pub struct MemoryStressResponse {
    pub allocated_bytes: usize,
    pub allocated_mb: u64,
    pub processing_time_ns: u128,
    pub timestamp: String,
}

/// Decimal text of an integer, with a leading `-` when it is negative.
pub open spec fn decimal_text(n: int) -> Seq<char> {
    if n < 0 {
        seq!['-'] + digits_of((-n) as nat)
    } else {
        digits_of(n as nat)
    }
}

pub open spec fn digits_of(n: nat) -> Seq<char>
    decreases n,
{
    if n < 10 {
        seq![digit_char(n)]
    } else {
        digits_of(n / 10).push(digit_char(n % 10))
    }
}

pub open spec fn digit_char(d: nat) -> char {
    if d == 0 { '0' } else if d == 1 { '1' } else if d == 2 { '2' } else if d == 3 { '3' }
    else if d == 4 { '4' } else if d == 5 { '5' } else if d == 6 { '6' } else if d == 7 { '7' }
    else if d == 8 { '8' } else { '9' }
}

/// The confirmation text for a deleted item.
pub open spec fn deleted_text(id: i64) -> Seq<char> {
    "Item "@ + decimal_text(id as int) + " deleted successfully"@
}

/// Relies on std's `String::push`, which appends the character to the string.
pub assume_specification[ String::push ](s: &mut String, c: char)
    ensures
        final(s)@ == old(s)@.push(c),
;

fn digit_of(d: u64) -> (r: char)
    requires
        d < 10,
    ensures
        r == digit_char(d as nat),
{
    if d == 0 { '0' } else if d == 1 { '1' } else if d == 2 { '2' } else if d == 3 { '3' }
    else if d == 4 { '4' } else if d == 5 { '5' } else if d == 6 { '6' } else if d == 7 { '7' }
    else if d == 8 { '8' } else { '9' }
}

/// Appends the decimal digits of `m`.
fn push_digits(out: &mut String, m: u64)
    ensures
        final(out)@ == old(out)@ + digits_of(m as nat),
    decreases m,
{
    if m >= 10 {
        push_digits(out, m / 10);
    }
    out.push(digit_of(m % 10));
    assert(out@ =~= old(out)@ + digits_of(m as nat));
}

/// Appends the decimal text of `n`, with a leading `-` when it is negative.
pub fn push_decimal(out: &mut String, n: i64)
    ensures
        final(out)@ == old(out)@ + decimal_text(n as int),
{
    if n < 0 {
        out.push('-');
        let magnitude: u64 = if n == i64::MIN { 0x8000_0000_0000_0000 } else { (-n) as u64 };
        push_digits(out, magnitude);
        assert(out@ =~= old(out)@ + decimal_text(n as int));
    } else {
        push_digits(out, n as u64);
    }
}

/// Relies on std's `String::push_str`, which appends the text to the string.
pub assume_specification[ String::push_str ](s: &mut String, t: &str)
    ensures
        final(s)@ == old(s)@ + t@,
;

pub fn read_root() -> (r: RootResponse)
    ensures
        r.hello@ == "World"@,
        is_utc_timestamp(r.timestamp@),
{
    RootResponse { hello: "World".to_owned(), timestamp: current_iso_timestamp() }
}

pub fn read_item(item_id: u32, q: Option<String>) -> (r: ItemQueryResponse)
    ensures
        r.item_id == item_id,
        r.q == q,
        is_utc_timestamp(r.timestamp@),
{
    ItemQueryResponse { item_id, q, timestamp: current_iso_timestamp() }
}

/// The health report. The overall status is `healthy` whatever the probe found; only the
/// `database` field tells whether the store answered.
pub fn health_check(database_reachable: bool) -> (r: HealthResponse)
    ensures
        r.status@ == "healthy"@,
        r.database@ == (if database_reachable { "connected"@ } else { "disconnected"@ }),
        is_utc_timestamp(r.timestamp@),
{
    let database = if database_reachable { "connected".to_owned() } else { "disconnected".to_owned() };
    HealthResponse { status: "healthy".to_owned(), timestamp: current_iso_timestamp(), database }
}

/// The echo answer: message and data passed through unchanged, with the measured time of
/// the delay-plus-work window.
pub fn echo_post(payload: EchoRequest, processing_time_ns: u128) -> (r: EchoResponse)
    ensures
        r.message == payload.message,
        r.data == payload.data,
        r.processing_time_ns == processing_time_ns,
        is_utc_timestamp(r.timestamp@),
{
    EchoResponse {
        message: payload.message,
        data: payload.data,
        timestamp: current_iso_timestamp(),
        processing_time_ns,
    }
}

pub fn echo_get(message: String, processing_time_ns: u128) -> (r: EchoGetResponse)
    ensures
        r.message == message,
        r.processing_time_ns == processing_time_ns,
        is_utc_timestamp(r.timestamp@),
{
    EchoGetResponse { message, timestamp: current_iso_timestamp(), processing_time_ns }
}

/// All items by ascending id.
pub fn get_all_items(store: &ItemStore) -> (r: Vec<ItemResponse>)
    ensures
        r@ == store@,
{
    store.list()
}

pub fn get_item(store: &ItemStore, item_id: i64) -> (r: Result<ItemResponse, ApiError>)
    requires
        store.wf(),
    ensures
        r == lookup(store@, item_id),
{
    store.get(item_id)
}

/// Validates and stores a new item, stamped with the current time. Succeeds exactly when
/// the payload is valid and an id is left.
pub fn create_item(store: &mut ItemStore, payload: Item) -> (r: Result<ItemResponse, ApiError>)
    requires
        old(store).wf(),
    ensures
        final(store).wf(),
        r is Ok <==> valid_item(payload) && old(store).next_id() < i64::MAX,
        !valid_item(payload) ==> r == Err::<ItemResponse, ApiError>(ApiError::InvalidArgument),
        valid_item(payload) && old(store).next_id() == i64::MAX ==> r == Err::<ItemResponse, ApiError>(ApiError::Internal),
        r is Ok ==> {
            &&& r->Ok_0 == new_row(old(store).next_id(), payload, r->Ok_0.created_at)
            &&& is_utc_timestamp(r->Ok_0.created_at@)
            &&& final(store)@ == old(store)@.push(r->Ok_0)
            &&& !has_id(old(store)@, r->Ok_0.id)
        },
        r is Err ==> final(store)@ == old(store)@,
{
    let created_at = current_iso_timestamp();
    proof {
        store.lemma_wf();
    }
    let r = store.insert(payload, created_at);
    r
}

pub fn update_item(store: &mut ItemStore, item_id: i64, payload: Item) -> (r: Result<ItemResponse, ApiError>)
    requires
        old(store).wf(),
    ensures
        final(store).wf(),
        r == update_result(old(store)@, item_id, payload),
        final(store)@ == rows_after_update(old(store)@, item_id, payload),
{
    store.update(item_id, payload)
}

/// The confirmation body for a deleted id.
pub fn delete_response(item_id: i64) -> (r: DeleteResponse)
    ensures
        r.message@ == deleted_text(item_id),
{
    let mut message = "Item ".to_owned();
    push_decimal(&mut message, item_id);
    message.push_str(" deleted successfully");
    DeleteResponse { message }
}

/// After looking up a row by id: the row, or `NotFound` when there is none.
pub fn found_row(row: Option<ItemResponse>) -> (r: Result<ItemResponse, ApiError>)
    ensures
        r == match row {
            Some(x) => Ok::<ItemResponse, ApiError>(x),
            None => Err::<ItemResponse, ApiError>(ApiError::NotFound),
        },
{
    match row {
        Some(x) => Ok(x),
        None => Err(ApiError::NotFound),
    }
}

/// After re-reading a row that was just written: the row, or `Internal` when it is gone,
/// since the store lost a write it had acknowledged.
pub fn reread_row(row: Option<ItemResponse>) -> (r: Result<ItemResponse, ApiError>)
    ensures
        r == match row {
            Some(x) => Ok::<ItemResponse, ApiError>(x),
            None => Err::<ItemResponse, ApiError>(ApiError::Internal),
        },
{
    match row {
        Some(x) => Ok(x),
        None => Err(ApiError::Internal),
    }
}

/// Whether an update may be written: the payload is checked first, then the row must
/// exist.
pub fn check_update(payload: &Item, row_exists: bool) -> (r: Result<(), ApiError>)
    ensures
        r == (if !valid_item(*payload) {
            Err::<(), ApiError>(ApiError::InvalidArgument)
        } else if !row_exists {
            Err::<(), ApiError>(ApiError::NotFound)
        } else {
            Ok::<(), ApiError>(())
        }),
{
    if validate_item(payload).is_err() {
        Err(ApiError::InvalidArgument)
    } else if !row_exists {
        Err(ApiError::NotFound)
    } else {
        Ok(())
    }
}

/// The answer to a delete, given whether the row existed and so was removed.
pub fn delete_outcome(item_id: i64, row_existed: bool) -> (r: Result<DeleteResponse, ApiError>)
    ensures
        r is Ok <==> row_existed,
        r is Ok ==> r->Ok_0.message@ == deleted_text(item_id),
        r is Err ==> r->Err_0 == ApiError::NotFound,
{
    if row_existed {
        Ok(delete_response(item_id))
    } else {
        Err(ApiError::NotFound)
    }
}

/// The benchmark answer for a read that returned `rows_fetched` rows in the given time.
pub fn benchmark_select_response(rows_fetched: usize, processing_time_ns: u128) -> (r: BenchmarkSelectResponse)
    ensures
        r.rows_fetched == rows_fetched,
        r.processing_time_ns == processing_time_ns,
        is_utc_timestamp(r.timestamp@),
{
    BenchmarkSelectResponse { rows_fetched, processing_time_ns, timestamp: current_iso_timestamp() }
}

pub fn delete_item(store: &mut ItemStore, item_id: i64) -> (r: Result<DeleteResponse, ApiError>)
    requires
        old(store).wf(),
    ensures
        final(store).wf(),
        r is Ok <==> has_id(old(store)@, item_id),
        r is Ok ==> r->Ok_0.message@ == deleted_text(item_id),
        r is Err ==> r->Err_0 == ApiError::NotFound,
        final(store)@ == rows_after_delete(old(store)@, item_id),
{
    let removed = store.delete(item_id);
    delete_outcome(item_id, removed.is_ok())
}

/// Reads up to `count` rows and reports how many came back and how long it took.
pub fn db_benchmark_select(store: &ItemStore, count: u32) -> (r: BenchmarkSelectResponse)
    ensures
        r.rows_fetched == (if (count as int) < store@.len() { count as int } else { store@.len() as int }),
        is_utc_timestamp(r.timestamp@),
{
    let start = std::time::Instant::now();
    let rows = store.list_first(count as usize);
    let rows_fetched = rows.len();
    let processing_time_ns = elapsed_nanos(&start);
    benchmark_select_response(rows_fetched, processing_time_ns)
}

/// Runs the CPU workload for `iterations` rounds and reports its checksum and duration.
pub fn cpu_stress(iterations: u64) -> (r: CpuStressResponse)
    ensures
        r.iterations == iterations,
        r.result == checksum_of(iterations as nat),
        is_utc_timestamp(r.timestamp@),
{
    let start = std::time::Instant::now();
    let result = cpu_checksum(iterations);
    let processing_time_ns = elapsed_nanos(&start);
    CpuStressResponse { iterations, result, processing_time_ns, timestamp: current_iso_timestamp() }
}

/// Allocates and releases `size_mb` mebibytes, timing both; sizes over the limit are
/// refused with `InvalidArgument`.
pub fn memory_stress(size_mb: u64) -> (r: Result<MemoryStressResponse, ApiError>)
    ensures
        r is Ok <==> size_mb <= MAX_STRESS_MB,
        r is Err ==> r->Err_0 == ApiError::InvalidArgument,
        r is Ok ==> {
            &&& r->Ok_0.allocated_bytes == size_mb * BYTES_PER_MB
            &&& r->Ok_0.allocated_mb == size_mb
            &&& is_utc_timestamp(r->Ok_0.timestamp@)
        },
{
    let start = std::time::Instant::now();
    match allocate_and_release(size_mb) {
        Err(e) => Err(e),
        Ok(allocated_bytes) => {
            let processing_time_ns = elapsed_nanos(&start);
            Ok(MemoryStressResponse {
                allocated_bytes,
                allocated_mb: size_mb,
                processing_time_ns,
                timestamp: current_iso_timestamp(),
            })
        }
    }
}

} // verus!
