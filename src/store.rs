use vstd::prelude::*;
use crate::item::{validate_item, valid_item, valid_row, ApiError, Item, ItemResponse};
use crate::price::Price;

verus! {

/// Some row has this id.
pub open spec fn has_id(rows: Seq<ItemResponse>, id: i64) -> bool {
    exists|i: int| 0 <= i < rows.len() && (#[trigger] rows[i]).id == id
}

/// The position of the row with this id (meaningful when `has_id` holds).
pub open spec fn index_of(rows: Seq<ItemResponse>, id: i64) -> int {
    choose|i: int| 0 <= i < rows.len() && (#[trigger] rows[i]).id == id
}

/// Ids strictly increase along the table, so no id occurs twice.
pub open spec fn ids_ascending(rows: Seq<ItemResponse>) -> bool {
    forall|i: int, j: int| 0 <= i < j < rows.len() ==> (#[trigger] rows[i]).id < (#[trigger] rows[j]).id
}

/// No two rows share an id.
pub open spec fn ids_unique(rows: Seq<ItemResponse>) -> bool {
    forall|i: int, j: int|
        0 <= i < rows.len() && 0 <= j < rows.len() && (#[trigger] rows[i]).id == (#[trigger] rows[j]).id
            ==> i == j
}

/// The table's invariant: ids ascend, every row is valid, and every id is below the next
/// id to hand out.
pub open spec fn table_wf(rows: Seq<ItemResponse>, next_id: i64) -> bool {
    &&& next_id >= 1
    &&& ids_ascending(rows)
    &&& forall|i: int| 0 <= i < rows.len() ==> valid_row(#[trigger] rows[i]) && rows[i].id < next_id
}

/// What `get` returns.
pub open spec fn lookup(rows: Seq<ItemResponse>, id: i64) -> Result<ItemResponse, ApiError> {
    if has_id(rows, id) {
        Ok(rows[index_of(rows, id)])
    } else {
        Err(ApiError::NotFound)
    }
}

/// The row that an insert of `payload` stores under `id`.
pub open spec fn new_row(id: i64, payload: Item, created_at: String) -> ItemResponse {
    ItemResponse {
        id,
        name: payload.name,
        description: payload.description,
        price: payload.price,
        created_at,
    }
}

/// What `insert` returns: a validation failure, a full id space, or the stored row.
pub open spec fn insert_result(next_id: i64, payload: Item, created_at: String) -> Result<ItemResponse, ApiError> {
    if !valid_item(payload) {
        Err(ApiError::InvalidArgument)
    } else if next_id == i64::MAX {
        Err(ApiError::Internal)
    } else {
        Ok(new_row(next_id, payload, created_at))
    }
}

/// The rows after `insert`.
pub open spec fn rows_after_insert(rows: Seq<ItemResponse>, next_id: i64, payload: Item, created_at: String) -> Seq<ItemResponse> {
    match insert_result(next_id, payload, created_at) {
        Ok(row) => rows.push(row),
        Err(_) => rows,
    }
}

/// A stored row with its client fields overwritten; id and creation time are kept.
pub open spec fn refreshed(row: ItemResponse, payload: Item) -> ItemResponse {
    ItemResponse {
        id: row.id,
        name: payload.name,
        description: payload.description,
        price: payload.price,
        created_at: row.created_at,
    }
}

/// What `update` returns: validation comes first, then the id is looked up.
pub open spec fn update_result(rows: Seq<ItemResponse>, id: i64, payload: Item) -> Result<ItemResponse, ApiError> {
    if !valid_item(payload) {
        Err(ApiError::InvalidArgument)
    } else if !has_id(rows, id) {
        Err(ApiError::NotFound)
    } else {
        Ok(refreshed(rows[index_of(rows, id)], payload))
    }
}

/// The rows after `update`.
pub open spec fn rows_after_update(rows: Seq<ItemResponse>, id: i64, payload: Item) -> Seq<ItemResponse> {
    match update_result(rows, id, payload) {
        Ok(row) => rows.update(index_of(rows, id), row),
        Err(_) => rows,
    }
}

/// What `delete` returns.
pub open spec fn delete_result(rows: Seq<ItemResponse>, id: i64) -> Result<(), ApiError> {
    if has_id(rows, id) {
        Ok(())
    } else {
        Err(ApiError::NotFound)
    }
}

/// The rows after `delete`.
pub open spec fn rows_after_delete(rows: Seq<ItemResponse>, id: i64) -> Seq<ItemResponse> {
    if has_id(rows, id) {
        rows.remove(index_of(rows, id))
    } else {
        rows
    }
}

/// An insert keeps the table's invariant, and a successful one adds one row.
pub proof fn lemma_insert_preserves_wf(rows: Seq<ItemResponse>, next_id: i64, payload: Item, created_at: String)
    requires
        table_wf(rows, next_id),
    ensures
        ({
            let r = insert_result(next_id, payload, created_at);
            let after = rows_after_insert(rows, next_id, payload, created_at);
            &&& table_wf(after, if r is Ok { (next_id + 1) as i64 } else { next_id })
            &&& after.len() == (if r is Ok { rows.len() + 1 } else { rows.len() + 0 })
        }),
{
    let r = insert_result(next_id, payload, created_at);
    if r is Ok {
        let after = rows.push(new_row(next_id, payload, created_at));
        assert forall|i: int, j: int| 0 <= i < j < after.len() implies (#[trigger] after[i]).id < (#[trigger] after[j]).id by {
            assert(after[i] == rows[i]);
            if j < rows.len() {
                assert(after[j] == rows[j]);
            }
        }
        assert forall|k: int| 0 <= k < after.len() implies valid_row(#[trigger] after[k]) && after[k].id < next_id + 1 by {
            if k < rows.len() {
                assert(after[k] == rows[k]);
            }
        }
    }
}

/// Name of the `k`-th example item that an empty table is seeded with.
pub open spec fn sample_name(k: int) -> Seq<char> {
    if k == 0 {
        "Laptop"@
    } else if k == 1 {
        "Mouse"@
    } else {
        "Keyboard"@
    }
}

pub open spec fn sample_description(k: int) -> Seq<char> {
    if k == 0 {
        "High-performance laptop"@
    } else if k == 1 {
        "Wireless mouse"@
    } else {
        "Mechanical keyboard"@
    }
}

/// Prices 999.99, 29.99 and 79.99 as binary64 bit patterns.
pub open spec fn sample_price_bits(k: int) -> u64 {
    if k == 0 {
        0x408f_3feb_851e_b852
    } else if k == 1 {
        0x403d_fd70_a3d7_0a3d
    } else {
        0x4053_ff5c_28f5_c28f
    }
}

pub open spec fn is_sample(payload: Item, k: int) -> bool {
    &&& payload.name@ == sample_name(k)
    &&& payload.description is Some
    &&& payload.description->0@ == sample_description(k)
    &&& payload.price.bits == sample_price_bits(k)
}

/// A stored row holding the `k`-th example item under `id`.
pub open spec fn is_seeded_row(row: ItemResponse, id: int, k: int, created_at: String) -> bool {
    &&& row.id == id
    &&& row.name@ == sample_name(k)
    &&& row.description is Some
    &&& row.description->0@ == sample_description(k)
    &&& row.price.bits == sample_price_bits(k)
    &&& row.created_at == created_at
}

/// The `k`-th example item.
pub fn sample_item(k: usize) -> (r: Item)
    requires
        k < 3,
    ensures
        is_sample(r, k as int),
        valid_item(r),
{
    proof {
        reveal_strlit("Laptop");
        reveal_strlit("Mouse");
        reveal_strlit("Keyboard");
    }
    if k == 0 {
        Item::new("Laptop".to_owned(), Some("High-performance laptop".to_owned()), Price::from_bits(0x408f_3feb_851e_b852))
    } else if k == 1 {
        Item::new("Mouse".to_owned(), Some("Wireless mouse".to_owned()), Price::from_bits(0x403d_fd70_a3d7_0a3d))
    } else {
        Item::new("Keyboard".to_owned(), Some("Mechanical keyboard".to_owned()), Price::from_bits(0x4053_ff5c_28f5_c28f))
    }
}

/// The three example items, in seeding order.
pub fn sample_items() -> (r: Vec<Item>)
    ensures
        r@.len() == 3,
        forall|k: int| 0 <= k < 3 ==> is_sample(#[trigger] r@[k], k),
{
    let mut r: Vec<Item> = Vec::new();
    r.push(sample_item(0));
    r.push(sample_item(1));
    r.push(sample_item(2));
    r
}

/// Whether startup seeding should insert the example items: only into an empty table.
pub fn needs_seeding(row_count: i64) -> (r: bool)
    ensures
        r == (row_count == 0),
{
    row_count == 0
}

/// What seeding does: nothing to a table with rows; on an empty table, the three example
/// items under consecutive ids, or `Internal` with nothing changed when too few ids are left.
pub open spec fn seed_outcome(before: Seq<ItemResponse>, next_id: i64, after: Seq<ItemResponse>, created_at: String, r: Result<(), ApiError>) -> bool {
    if before.len() > 0 {
        r == Ok::<(), ApiError>(()) && after == before
    } else if next_id > i64::MAX - 3 {
        r == Err::<(), ApiError>(ApiError::Internal) && after == before
    } else {
        &&& r == Ok::<(), ApiError>(())
        &&& after.len() == 3
        &&& forall|k: int| 0 <= k < 3 ==> is_seeded_row(#[trigger] after[k], next_id + k, k, created_at)
    }
}

/// The table of items, ordered by ascending id, held in memory.
///
/// This is the item store's rules as a verified in-process table, and what the store's
/// laws in this module are proved of. A service that keeps its rows in a database (as the
/// SQLite-backed binary around this library does) makes the same decisions through
/// `validate_item`, `check_update`, `found_row`, `reread_row` and `delete_outcome`.
pub struct ItemStore {
    rows: Vec<ItemResponse>,
    next_id: i64,
}

impl View for ItemStore {
    type V = Seq<ItemResponse>;

    closed spec fn view(&self) -> Seq<ItemResponse> {
        self.rows@
    }
}

impl ItemStore {
    /// The id that the next successful insert hands out.
    pub closed spec fn next_id(&self) -> i64 {
        self.next_id
    }

    pub closed spec fn wf(&self) -> bool {
        table_wf(self.rows@, self.next_id)
    }

    /// The invariant, stated over the view and the next id.
    pub proof fn lemma_wf(&self)
        requires
            self.wf(),
        ensures
            table_wf(self@, self.next_id()),
    {
    }

    /// An empty table whose first id is 1.
    pub fn new() -> (r: ItemStore)
        ensures
            r.wf(),
            r@ == Seq::<ItemResponse>::empty(),
            r.next_id() == 1,
    {
        ItemStore { rows: Vec::new(), next_id: 1 }
    }

    /// The position of the row with `id`, if there is one.
    fn position(&self, id: i64) -> (r: Option<usize>)
        requires
            self.wf(),
        ensures
            match r {
                Some(i) => i < self@.len() && i as int == index_of(self@, id) && has_id(self@, id),
                None => !has_id(self@, id),
            },
    {
        let mut i: usize = 0;
        while i < self.rows.len()
            invariant
                self.wf(),
                i <= self.rows@.len(),
                forall|k: int| 0 <= k < i ==> (#[trigger] self.rows@[k]).id != id,
            decreases self.rows@.len() - i,
        {
            if self.rows[i].id == id {
                proof {
                    assert(has_id(self@, id));
                    let c = index_of(self@, id);
                    assert(0 <= c < self.rows@.len() && self.rows@[c].id == id);
                    if c != i as int {
                        if c < i as int {
                            assert(self.rows@[c].id < self.rows@[i as int].id);
                        } else {
                            assert(self.rows@[i as int].id < self.rows@[c].id);
                        }
                    }
                }
                return Some(i);
            }
            i = i + 1;
        }
        None
    }

    /// Number of rows.
    pub fn count_rows(&self) -> (r: usize)
        ensures
            r == self@.len(),
    {
        self.rows.len()
    }

    /// All rows, by ascending id; an empty table gives an empty list.
    pub fn list(&self) -> (r: Vec<ItemResponse>)
        ensures
            r@ == self@,
    {
        let mut out: Vec<ItemResponse> = Vec::new();
        let mut i: usize = 0;
        while i < self.rows.len()
            invariant
                i <= self.rows@.len(),
                out@ == self.rows@.subrange(0, i as int),
            decreases self.rows@.len() - i,
        {
            out.push(self.rows[i].duplicate());
            i = i + 1;
            assert(out@ =~= self.rows@.subrange(0, i as int));
        }
        assert(out@ =~= self.rows@);
        out
    }

    /// At most `limit` rows from the start of the table.
    pub fn list_first(&self, limit: usize) -> (r: Vec<ItemResponse>)
        ensures
            r@ == self@.take(if limit < self@.len() { limit as int } else { self@.len() as int }),
    {
        let end: usize = if limit < self.rows.len() { limit } else { self.rows.len() };
        let mut out: Vec<ItemResponse> = Vec::new();
        let mut i: usize = 0;
        while i < end
            invariant
                end <= self.rows@.len(),
                i <= end,
                out@ == self.rows@.subrange(0, i as int),
            decreases end - i,
        {
            out.push(self.rows[i].duplicate());
            i = i + 1;
            assert(out@ =~= self.rows@.subrange(0, i as int));
        }
        assert(out@ =~= self@.take(end as int));
        out
    }

    /// The row with `id`, or `NotFound`.
    pub fn get(&self, id: i64) -> (r: Result<ItemResponse, ApiError>)
        requires
            self.wf(),
        ensures
            r == lookup(self@, id),
    {
        match self.position(id) {
            Some(i) => Ok(self.rows[i].duplicate()),
            None => Err(ApiError::NotFound),
        }
    }

    /// Stores `payload` under a fresh id with the given creation time and returns the
    /// stored row. Fails with `InvalidArgument` on an invalid payload and with `Internal`
    /// when no id is left.
    pub fn insert(&mut self, payload: Item, created_at: String) -> (r: Result<ItemResponse, ApiError>)
        requires
            old(self).wf(),
        ensures
            final(self).wf(),
            r == insert_result(old(self).next_id(), payload, created_at),
            final(self)@ == rows_after_insert(old(self)@, old(self).next_id(), payload, created_at),
            final(self).next_id() == (if r is Ok { old(self).next_id() + 1 } else { old(self).next_id() as int }),
    {
        if validate_item(&payload).is_err() {
            return Err(ApiError::InvalidArgument);
        }
        if self.next_id == i64::MAX {
            return Err(ApiError::Internal);
        }
        let id = self.next_id;
        let row = ItemResponse {
            id,
            name: payload.name,
            description: payload.description,
            price: payload.price,
            created_at,
        };
        let out = row.duplicate();
        proof {
            lemma_insert_preserves_wf(self.rows@, id, payload, created_at);
        }
        self.rows.push(row);
        self.next_id = id + 1;
        Ok(out)
    }

    /// Overwrites name, description and price of the row with `id`, keeping its id and
    /// creation time, and returns the refreshed row. Validation comes before the lookup.
    pub fn update(&mut self, id: i64, payload: Item) -> (r: Result<ItemResponse, ApiError>)
        requires
            old(self).wf(),
        ensures
            final(self).wf(),
            r == update_result(old(self)@, id, payload),
            final(self)@ == rows_after_update(old(self)@, id, payload),
            final(self).next_id() == old(self).next_id(),
    {
        if validate_item(&payload).is_err() {
            return Err(ApiError::InvalidArgument);
        }
        match self.position(id) {
            None => Err(ApiError::NotFound),
            Some(i) => {
                let created_at = self.rows[i].created_at.clone();
                let row = ItemResponse {
                    id,
                    name: payload.name,
                    description: payload.description,
                    price: payload.price,
                    created_at,
                };
                let out = row.duplicate();
                self.rows.set(i, row);
                proof {
                    let rows = self.rows@;
                    let before = old(self).rows@;
                    assert forall|a: int, b: int| 0 <= a < b < rows.len() implies (#[trigger] rows[a]).id < (#[trigger] rows[b]).id by {
                        assert(before[a].id < before[b].id);
                    }
                    assert forall|k: int| 0 <= k < rows.len() implies valid_row(#[trigger] rows[k]) && rows[k].id < self.next_id by {
                        assert(valid_row(before[k]));
                    }
                }
                Ok(out)
            }
        }
    }

    /// Removes the row with `id`, or fails with `NotFound`.
    pub fn delete(&mut self, id: i64) -> (r: Result<(), ApiError>)
        requires
            old(self).wf(),
        ensures
            final(self).wf(),
            r == delete_result(old(self)@, id),
            final(self)@ == rows_after_delete(old(self)@, id),
            final(self).next_id() == old(self).next_id(),
    {
        match self.position(id) {
            None => Err(ApiError::NotFound),
            Some(i) => {
                let _removed = self.rows.remove(i);
                proof {
                    let rows = self.rows@;
                    let before = old(self).rows@;
                    assert forall|a: int, b: int| 0 <= a < b < rows.len() implies (#[trigger] rows[a]).id < (#[trigger] rows[b]).id by {
                        let a0 = if a < i { a } else { a + 1 };
                        let b0 = if b < i { b } else { b + 1 };
                        assert(rows[a] == before[a0]);
                        assert(rows[b] == before[b0]);
                    }
                    assert forall|k: int| 0 <= k < rows.len() implies valid_row(#[trigger] rows[k]) && rows[k].id < self.next_id by {
                        let k0 = if k < i { k } else { k + 1 };
                        assert(rows[k] == before[k0]);
                    }
                }
                Ok(())
            }
        }
    }

    /// Inserts the three example items when the table is empty; a table with rows is left
    /// as it is, so running this at every startup never duplicates them.
    pub fn seed_if_empty(&mut self, created_at: &String) -> (r: Result<(), ApiError>)
        requires
            old(self).wf(),
        ensures
            final(self).wf(),
            seed_outcome(old(self)@, old(self).next_id(), final(self)@, *created_at, r),
    {
        if self.rows.len() > 0 {
            return Ok(());
        }
        if self.next_id > i64::MAX - 3 {
            return Err(ApiError::Internal);
        }
        let first = self.next_id;
        let _ = self.insert(sample_item(0), created_at.clone());
        let _ = self.insert(sample_item(1), created_at.clone());
        let _ = self.insert(sample_item(2), created_at.clone());
        proof {
            let rows = self@;
            assert(is_seeded_row(rows[0], first + 0, 0, *created_at));
            assert(is_seeded_row(rows[1], first + 1, 1, *created_at));
            assert(is_seeded_row(rows[2], first + 2, 2, *created_at));
        }
        Ok(())
    }
}

/// Creating a valid item and then reading it back by the returned id gives exactly the
/// record that the create returned.
pub proof fn lemma_create_then_get(store: ItemStore, payload: Item, created_at: String)
    requires
        store.wf(),
        valid_item(payload),
    ensures
        ({
            let r = insert_result(store.next_id(), payload, created_at);
            let after = rows_after_insert(store@, store.next_id(), payload, created_at);
            &&& store.next_id() < i64::MAX ==> r is Ok
            &&& r is Ok ==> lookup(after, r->Ok_0.id) == r
        }),
{
    let n = store.next_id();
    let r = insert_result(n, payload, created_at);
    if r is Ok {
        let rows = store@;
        let after = rows.push(new_row(n, payload, created_at));
        let last = rows.len() as int;
        assert(after[last].id == n);
        assert(has_id(after, n));
        let c = index_of(after, n);
        if c != last {
            assert(after[c] == rows[c]);
            assert(rows[c].id < n);
        }
    }
}

/// Updating an id that no row has fails with `NotFound` for every valid payload (an
/// invalid payload is refused first, with `InvalidArgument`), and changes nothing.
pub proof fn lemma_update_missing(rows: Seq<ItemResponse>, id: i64, payload: Item)
    requires
        valid_item(payload),
        !has_id(rows, id),
    ensures
        update_result(rows, id, payload) == Err::<ItemResponse, ApiError>(ApiError::NotFound),
        rows_after_update(rows, id, payload) == rows,
{
}

/// Deleting is not idempotent: a second delete of the same id fails with `NotFound`.
pub proof fn lemma_delete_twice(store: ItemStore, id: i64)
    requires
        store.wf(),
    ensures
        delete_result(rows_after_delete(store@, id), id) == Err::<(), ApiError>(ApiError::NotFound),
{
    let rows = store@;
    if has_id(rows, id) {
        let c = index_of(rows, id);
        let after = rows.remove(c);
        if has_id(after, id) {
            let k = choose|k: int| 0 <= k < after.len() && (#[trigger] after[k]).id == id;
            let k0 = if k < c { k } else { k + 1 };
            assert(after[k] == rows[k0]);
            if k0 < c {
                assert(rows[k0].id < rows[c].id);
            } else {
                assert(rows[c].id < rows[k0].id);
            }
        }
    }
}

/// Seeding an empty table stores exactly three rows named Laptop, Mouse and Keyboard, and
/// seeding that table again leaves it as it is, still with three rows.
pub proof fn lemma_seed_once(
    before: Seq<ItemResponse>,
    next_id: i64,
    seeded: Seq<ItemResponse>,
    created_at: String,
    next_after: i64,
    again: Seq<ItemResponse>,
    created_again: String,
    r1: Result<(), ApiError>,
    r2: Result<(), ApiError>,
)
    requires
        before.len() == 0,
        next_id <= i64::MAX - 3,
        seed_outcome(before, next_id, seeded, created_at, r1),
        seed_outcome(seeded, next_after, again, created_again, r2),
    ensures
        r1 is Ok,
        seeded.len() == 3,
        seeded[0].name@ == "Laptop"@,
        seeded[1].name@ == "Mouse"@,
        seeded[2].name@ == "Keyboard"@,
        r2 is Ok,
        again == seeded,
        again.len() == 3,
{
    assert(is_seeded_row(seeded[0], next_id + 0, 0, created_at));
    assert(is_seeded_row(seeded[1], next_id + 1, 1, created_at));
    assert(is_seeded_row(seeded[2], next_id + 2, 2, created_at));
}

/// The table and next id after inserting each payload in turn, all with one creation time.
pub open spec fn after_creates(rows: Seq<ItemResponse>, next_id: i64, payloads: Seq<Item>, created_at: String) -> (Seq<ItemResponse>, i64)
    decreases payloads.len(),
{
    if payloads.len() == 0 {
        (rows, next_id)
    } else {
        let (r0, n0) = after_creates(rows, next_id, payloads.drop_last(), created_at);
        let p = payloads.last();
        (rows_after_insert(r0, n0, p, created_at), if insert_result(n0, p, created_at) is Ok { (n0 + 1) as i64 } else { n0 })
    }
}

/// Any number of creates of valid items, applied one after another as the table serializes
/// them, each get a distinct id and none is lost: the table grows by exactly their number
/// and its ids stay unique.
pub proof fn lemma_creates_distinct(rows: Seq<ItemResponse>, next_id: i64, payloads: Seq<Item>, created_at: String)
    requires
        table_wf(rows, next_id),
        next_id + payloads.len() <= i64::MAX,
        forall|k: int| 0 <= k < payloads.len() ==> valid_item(#[trigger] payloads[k]),
    ensures
        ({
            let (after, n) = after_creates(rows, next_id, payloads, created_at);
            &&& after.len() == rows.len() + payloads.len()
            &&& n == next_id + payloads.len()
            &&& ids_unique(after)
            &&& table_wf(after, n)
        }),
    decreases payloads.len(),
{
    if payloads.len() == 0 {
        lemma_ascending_unique(rows);
    } else {
        let front = payloads.drop_last();
        assert forall|k: int| 0 <= k < front.len() implies valid_item(#[trigger] front[k]) by {
            assert(front[k] == payloads[k]);
        }
        lemma_creates_distinct(rows, next_id, front, created_at);
        let (r0, n0) = after_creates(rows, next_id, front, created_at);
        assert(valid_item(payloads[payloads.len() - 1]));
        lemma_insert_preserves_wf(r0, n0, payloads.last(), created_at);
        let (after, n) = after_creates(rows, next_id, payloads, created_at);
        lemma_ascending_unique(after);
    }
}

/// Ascending ids are unique ids.
pub proof fn lemma_ascending_unique(rows: Seq<ItemResponse>)
    requires
        ids_ascending(rows),
    ensures
        ids_unique(rows),
{
    assert forall|i: int, j: int|
        0 <= i < rows.len() && 0 <= j < rows.len() && (#[trigger] rows[i]).id == (#[trigger] rows[j]).id implies i == j by {
        if i < j {
            assert(rows[i].id < rows[j].id);
        } else if j < i {
            assert(rows[j].id < rows[i].id);
        }
    }
}

} // verus!
