//! The storage engine's rules: which rows a batch writes, how stored rows read
//! back, and what a batch does to the table keyed by item identity.
use vstd::prelude::*;
use vstd::multiset::{lemma_multiset_empty_len, Multiset};
use vstd::seq_lib::{group_to_multiset_ensures, to_multiset_insert, to_multiset_remove};
use crate::codec::{
    item_of, item_to_row, lemma_row_round_trip, opt_text, row_of, row_to_item, text_forms_read_back,
    Row, RowView,
};
use crate::item::{Item, ItemView, Timestamp};

verus! {

/// Creates the `items` table and its index on `timestamp` where they are
/// missing; running it again leaves stored rows as they are.
pub const CREATE_SCHEMA_SQL: &'static str = "CREATE TABLE IF NOT EXISTS items (
    id TEXT PRIMARY KEY,
    source_id TEXT,
    connector_id TEXT,
    kind TEXT,
    timestamp TEXT,
    ingested_at TEXT,
    properties TEXT,
    raw_payload TEXT
);
CREATE INDEX IF NOT EXISTS idx_items_timestamp ON items(timestamp);";

/// Inserts one row, replacing the whole row stored under the same `id`; its
/// parameters are the columns in the order [`row_params`] gives them.
pub const UPSERT_SQL: &'static str = "INSERT OR REPLACE INTO items (id, source_id, connector_id, kind, timestamp, ingested_at, properties, raw_payload) VALUES (?, ?, ?, ?, ?, ?, ?, ?)";

/// Selects every stored row, its columns in the order of [`Row`].
pub const SELECT_ALL_SQL: &'static str = "SELECT id, source_id, connector_id, kind, timestamp, ingested_at, properties, raw_payload FROM items ORDER BY timestamp DESC";

/// Opens the transaction that holds one batch.
pub const BEGIN_SQL: &'static str = "BEGIN TRANSACTION";

/// Makes a batch durable.
pub const COMMIT_SQL: &'static str = "COMMIT";

/// Drops everything a failed batch wrote.
pub const ROLLBACK_SQL: &'static str = "ROLLBACK";

/// Why a storage operation failed.
#[derive(Debug, Clone, PartialEq, Eq)]
pub enum StorageError {
    /// An item of the batch has no text form: one of its instants lies
    /// outside what RFC 3339 text can hold.
    Encoding,
    /// The database refused a call; the text is its message.
    Database(String),
}

/// The storage engine over an embedded database file.
pub struct DuckDbStorage {
    path: std::path::PathBuf,
}

/// The views of a sequence of items.
pub open spec fn views(s: Seq<Item>) -> Seq<ItemView> {
    s.map_values(|x: Item| x@)
}

/// The views of a sequence of rows.
pub open spec fn row_views(s: Seq<Row>) -> Seq<RowView> {
    s.map_values(|x: Row| x@)
}

/// Whether every item of a batch has a row.
pub open spec fn all_encode(items: Seq<ItemView>) -> bool {
    forall|i: int| 0 <= i < items.len() ==> (#[trigger] row_of(items[i])) is Some
}

/// The rows of a batch whose items all have one.
pub open spec fn rows_for(items: Seq<ItemView>) -> Seq<RowView> {
    items.map_values(|v: ItemView| row_of(v)->Some_0)
}

/// The items that stored rows read back as.
pub open spec fn items_of_rows(rows: Seq<RowView>, now: Timestamp) -> Seq<ItemView> {
    rows.map_values(|r: RowView| item_of(r, now))
}

/// Whether items run from the most recent `timestamp` to the oldest.
pub open spec fn newest_first(s: Seq<ItemView>) -> bool {
    forall|i: int, j: int| 0 <= i < j < s.len() ==> !(#[trigger] s[i].timestamp).is_before(#[trigger] s[j].timestamp)
}

/// The parameters of [`UPSERT_SQL`] for a row, column by column.
pub open spec fn params_of(r: RowView) -> Seq<Option<Seq<char>>> {
    seq![
        Some(r.id),
        Some(r.source_id),
        Some(r.connector_id),
        Some(r.kind),
        Some(r.timestamp),
        Some(r.ingested_at),
        Some(r.properties),
        r.raw_payload,
    ]
}

/// The table, keyed by `id`, after the rows are written in order, each
/// replacing whatever was stored under its `id`.
pub open spec fn upsert_rows(table: Map<Seq<char>, RowView>, rows: Seq<RowView>) -> Map<Seq<char>, RowView>
    decreases rows.len(),
{
    if rows.len() == 0 {
        table
    } else {
        upsert_rows(table, rows.drop_last()).insert(rows.last().id, rows.last())
    }
}

/// The table after a batch is saved: every row of the batch written in one
/// transaction, or, where some item has no row, the table as it was.
pub open spec fn after_save(table: Map<Seq<char>, RowView>, items: Seq<ItemView>) -> Map<Seq<char>, RowView> {
    if all_encode(items) {
        upsert_rows(table, rows_for(items))
    } else {
        table
    }
}

impl DuckDbStorage {
    /// Where the database file lies.
    pub closed spec fn file(&self) -> std::path::PathBuf {
        self.path
    }

    /// A storage engine over the database file at `path`; nothing is opened yet.
    pub fn new(path: std::path::PathBuf) -> (r: DuckDbStorage)
        ensures
            r.file() == path,
    {
        DuckDbStorage { path }
    }

    /// Where the database file lies.
    pub fn path(&self) -> (r: &std::path::PathBuf)
        ensures
            *r == self.file(),
    {
        &self.path
    }

    /// The rows that saving a batch writes, one per item and in the batch's
    /// order; an encoding error, before anything is written, where some item
    /// has no row.
    pub fn rows_to_save(items: &[Item]) -> (r: Result<Vec<Row>, StorageError>)
        ensures
            match r {
                Ok(rows) => all_encode(views(items@)) && row_views(rows@) == rows_for(views(items@)),
                Err(e) => !all_encode(views(items@)) && e == StorageError::Encoding,
            },
    {
        let mut rows: Vec<Row> = Vec::new();
        let mut i: usize = 0;
        while i < items.len()
            invariant
                i <= items@.len(),
                rows@.len() == i,
                forall|k: int| 0 <= k < i ==> row_of(#[trigger] items@[k]@) == Some(rows@[k]@),
            decreases items@.len() - i,
        {
            match item_to_row(&items[i]) {
                Some(row) => rows.push(row),
                None => {
                    assert(row_of(views(items@)[i as int]) is None);
                    return Err(StorageError::Encoding);
                },
            }
            i = i + 1;
        }
        assert(all_encode(views(items@))) by {
            assert forall|k: int| 0 <= k < items@.len() implies (#[trigger] row_of(views(items@)[k])) is Some by {
                assert(row_of(items@[k]@) == Some(rows@[k]@));
            }
        }
        assert(row_views(rows@) =~= rows_for(views(items@))) by {
            assert forall|k: int| 0 <= k < rows@.len() implies row_views(rows@)[k] == rows_for(views(items@))[k] by {
                assert(row_of(items@[k]@) == Some(rows@[k]@));
            }
        }
        Ok(rows)
    }

    /// The items that stored rows read back as, the most recent `timestamp`
    /// first; `now` stands in for an unreadable instant. The database returns
    /// rows ordered by their stored text, which can differ from the order of the
    /// instants the text denotes, so the order is settled here.
    pub fn read_items(rows: Vec<Row>, now: Timestamp) -> (r: Vec<Item>)
        ensures
            views(r@).to_multiset() == items_of_rows(row_views(rows@), now).to_multiset(),
            newest_first(views(r@)),
    {
        let decoded = decode_rows(rows, now);
        sort_newest_first(decoded)
    }
}

/// The parameters of [`UPSERT_SQL`] for a row.
pub fn row_params(row: &Row) -> (r: Vec<Option<String>>)
    ensures
        r@.map_values(|p: Option<String>| opt_text(p)) == params_of(row@),
{
    let r = vec![
        Some(row.id.clone()),
        Some(row.source_id.clone()),
        Some(row.connector_id.clone()),
        Some(row.kind.clone()),
        Some(row.timestamp.clone()),
        Some(row.ingested_at.clone()),
        Some(row.properties.clone()),
        match &row.raw_payload {
            Some(t) => Some(t.clone()),
            None => None,
        },
    ];
    assert(r@.map_values(|p: Option<String>| opt_text(p)) =~= params_of(row@));
    r
}

/// The items that rows read back as, in the rows' order.
fn decode_rows(rows: Vec<Row>, now: Timestamp) -> (r: Vec<Item>)
    ensures
        views(r@) == items_of_rows(row_views(rows@), now),
{
    let ghost all = rows@;
    let mut rest = rows;
    let mut out: Vec<Item> = Vec::new();
    while rest.len() > 0
        invariant
            out@.len() + rest@.len() == all.len(),
            rest@ == all.subrange(out@.len() as int, all.len() as int),
            forall|k: int| 0 <= k < out@.len() ==> (#[trigger] out@[k])@ == item_of(all[k]@, now),
        decreases rest@.len(),
    {
        let row = rest.remove(0);
        out.push(row_to_item(row, now));
    }
    assert(views(out@) =~= items_of_rows(row_views(all), now));
    out
}

/// The same items, the most recent `timestamp` first; items with equal
/// timestamps keep their order.
pub fn sort_newest_first(items: Vec<Item>) -> (r: Vec<Item>)
    ensures
        views(r@).to_multiset() == views(items@).to_multiset(),
        newest_first(views(r@)),
{
    broadcast use group_to_multiset_ensures, lemma_multiset_empty_len;

    let ghost all = items@;
    let mut rest = items;
    let mut out: Vec<Item> = Vec::new();
    assert(views(rest@) =~= views(all));
    assert(views(out@).to_multiset() =~= Multiset::empty());
    while rest.len() > 0
        invariant
            newest_first(views(out@)),
            views(out@).to_multiset().add(views(rest@).to_multiset()) == views(all).to_multiset(),
        decreases rest@.len(),
    {
        let ghost old_rest = rest@;
        let ghost old_out = out@;
        let x = rest.remove(0);
        let mut j: usize = 0;
        while j < out.len() && !out[j].timestamp.before(&x.timestamp)
            invariant
                j <= out@.len(),
                out@ == old_out,
                forall|k: int| 0 <= k < j ==> !(#[trigger] out@[k].timestamp).is_before(x.timestamp),
            decreases out@.len() - j,
        {
            j = j + 1;
        }
        out.insert(j, x);
        proof {
            assert(views(rest@) =~= views(old_rest).remove(0));
            to_multiset_remove(views(old_rest), 0);
            assert(views(old_rest)[0] == x@);
            assert(views(old_rest).contains(x@));
            assert(views(out@) =~= views(old_out).insert(j as int, x@));
            to_multiset_insert(views(old_out), j as int, x@);
            let mo = views(old_out).to_multiset();
            let mr = views(old_rest).to_multiset();
            vstd::seq_lib::to_multiset_contains(views(old_rest), x@);
            assert(mr.count(x@) > 0);
            assert(mo.insert(x@).add(mr.remove(x@)) =~= mo.add(mr));
            assert forall|a: int, b: int| 0 <= a < b < views(out@).len() implies !(#[trigger] views(out@)[a].timestamp).is_before(
                #[trigger] views(out@)[b].timestamp,
            ) by {
                if b == j {
                } else if a == j {
                    assert(out@[j as int + 1] == old_out[j as int]);
                    assert(old_out[j as int].timestamp.is_before(x.timestamp));
                    if b > j + 1 {
                        assert(out@[b] == old_out[b - 1]);
                        assert(!views(old_out)[j as int].timestamp.is_before(views(old_out)[b - 1].timestamp));
                    }
                } else if a < j && b > j {
                    assert(out@[b] == old_out[b - 1]);
                    assert(!views(old_out)[a].timestamp.is_before(views(old_out)[b - 1].timestamp));
                } else if a > j {
                    assert(out@[a] == old_out[a - 1] && out@[b] == old_out[b - 1]);
                    assert(!views(old_out)[a - 1].timestamp.is_before(views(old_out)[b - 1].timestamp));
                } else {
                    assert(!views(old_out)[a].timestamp.is_before(views(old_out)[b].timestamp));
                }
            }
        }
    }
    assert(views(rest@) =~= Seq::<ItemView>::empty());
    assert(views(out@).to_multiset() =~= views(out@).to_multiset().add(views(rest@).to_multiset()));
    out
}

/// Saving an item under an `id` that is already stored replaces the stored
/// row with the new one: the table holds exactly the row of the latest save
/// under that `id`, the set of stored ids (and so the row count) does not grow,
/// and the result is the same as if only the latest save had happened.
pub proof fn lemma_save_same_id_replaces(table: Map<Seq<char>, RowView>, a: ItemView, b: ItemView)
    requires
        a.id == b.id,
        row_of(a) is Some,
        row_of(b) is Some,
    ensures
        after_save(after_save(table, seq![a]), seq![b]) == after_save(table, seq![b]),
        after_save(after_save(table, seq![a]), seq![b])[a.id] == row_of(b)->Some_0,
        after_save(after_save(table, seq![a]), seq![b]).dom() == after_save(table, seq![a]).dom(),
        after_save(table, seq![a]).dom() == table.dom().insert(a.id),
{
    lemma_save_one(table, a);
    lemma_save_one(after_save(table, seq![a]), b);
    lemma_save_one(table, b);
    assert(after_save(after_save(table, seq![a]), seq![b]) =~= after_save(table, seq![b]));
}

/// Saving one item that has a row stores that row under its `id`.
proof fn lemma_save_one(table: Map<Seq<char>, RowView>, v: ItemView)
    requires
        row_of(v) is Some,
    ensures
        after_save(table, seq![v]) == table.insert(v.id, row_of(v)->Some_0),
{
    let items = seq![v];
    assert(all_encode(items));
    let rows = rows_for(items);
    assert(rows.drop_last() =~= Seq::<RowView>::empty());
    assert(rows.last() == row_of(v)->Some_0);
    assert(upsert_rows(table, rows.drop_last()) == table);
}

/// Saving one item into an empty table leaves exactly one row, stored under
/// the item's `id`, and that row reads back as the item in every field,
/// wherever the outside text forms that the row uses read back.
pub proof fn lemma_saved_item_reads_back(v: ItemView, now: Timestamp)
    requires
        row_of(v) is Some,
        text_forms_read_back(v),
    ensures
        after_save(Map::empty(), seq![v]).dom() == set![v.id],
        item_of(after_save(Map::empty(), seq![v])[v.id], now) == v,
{
    lemma_save_one(Map::empty(), v);
    lemma_row_round_trip(v, now);
    assert(after_save(Map::empty(), seq![v]).dom() =~= set![v.id]);
}

/// A batch in which some item has no row leaves the table exactly as it was:
/// none of the batch is committed.
pub proof fn lemma_failed_batch_changes_nothing(table: Map<Seq<char>, RowView>, items: Seq<ItemView>, i: int)
    requires
        0 <= i < items.len(),
        row_of(items[i]) is None,
    ensures
        after_save(table, items) == table,
{
}

} // verus!
