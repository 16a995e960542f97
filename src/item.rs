//! The canonical item model: what every connector produces and the vault stores.
use vstd::prelude::*;
use crate::external::{fresh_uuid, now_utc};

verus! {

/// An instant as Unix seconds and the nanoseconds past them (a leap second
/// carries more than a second's worth of nanoseconds).
#[derive(Clone, Copy, Debug, PartialEq, Eq, Structural)]
pub struct Timestamp {
    pub secs: i64,
    pub nanos: u32,
}

impl Timestamp {
    /// The instant `secs` seconds and `nanos` nanoseconds after the Unix epoch.
    pub fn from_unix(secs: i64, nanos: u32) -> (r: Timestamp)
        ensures
            r == (Timestamp { secs, nanos }),
    {
        Timestamp { secs, nanos }
    }

    /// Whether `self` lies strictly before `other`.
    pub open spec fn is_before(self, other: Timestamp) -> bool {
        self.secs < other.secs || (self.secs == other.secs && self.nanos < other.nanos)
    }

    /// Whether `self` lies strictly before `other`.
    pub fn before(&self, other: &Timestamp) -> (r: bool)
        ensures
            r == self.is_before(*other),
    {
        self.secs < other.secs || (self.secs == other.secs && self.nanos < other.nanos)
    }

    /// The current time.
    pub fn now() -> (r: Timestamp) {
        let (secs, nanos) = now_utc();
        Timestamp { secs, nanos }
    }
}

/// What an item describes.
#[derive(Debug, Clone, PartialEq, Eq)]
pub enum ItemKind {
    Person,
    Organization,
    Transaction,
    Message,
    File,
    Metric,
    Event,
    Other(String),
}

/// The mathematical value of an [`ItemKind`].
pub enum KindView {
    Person,
    Organization,
    Transaction,
    Message,
    File,
    Metric,
    Event,
    Other(Seq<char>),
}

impl View for ItemKind {
    type V = KindView;

    open spec fn view(&self) -> KindView {
        match self {
            ItemKind::Person => KindView::Person,
            ItemKind::Organization => KindView::Organization,
            ItemKind::Transaction => KindView::Transaction,
            ItemKind::Message => KindView::Message,
            ItemKind::File => KindView::File,
            ItemKind::Metric => KindView::Metric,
            ItemKind::Event => KindView::Event,
            ItemKind::Other(tag) => KindView::Other(tag@),
        }
    }
}

/// A normalized unit of data in the vault.
#[derive(Debug, Clone, PartialEq)]
pub struct Item {
    /// Identity of the item in the vault; the storage key.
    pub id: String,
    /// Identity of the record in its origin system.
    pub source_id: String,
    /// The connector that produced the item.
    pub connector_id: String,
    pub kind: ItemKind,
    /// When the underlying fact occurred.
    pub timestamp: Timestamp,
    /// When the vault first built the item.
    pub ingested_at: Timestamp,
    /// Kind-dependent attributes.
    pub properties: serde_json::Value,
    /// The original source record, kept for traceability.
    pub raw_payload: Option<serde_json::Value>,
}

/// The mathematical value of an [`Item`].
pub struct ItemView {
    pub id: Seq<char>,
    pub source_id: Seq<char>,
    pub connector_id: Seq<char>,
    pub kind: KindView,
    pub timestamp: Timestamp,
    pub ingested_at: Timestamp,
    pub properties: serde_json::Value,
    pub raw_payload: Option<serde_json::Value>,
}

impl View for Item {
    type V = ItemView;

    open spec fn view(&self) -> ItemView {
        ItemView {
            id: self.id@,
            source_id: self.source_id@,
            connector_id: self.connector_id@,
            kind: self.kind@,
            timestamp: self.timestamp,
            ingested_at: self.ingested_at,
            properties: self.properties,
            raw_payload: self.raw_payload,
        }
    }
}

impl Item {
    /// A new item with a fresh identity, stamped with the current time both as
    /// its occurrence time and as its ingestion time, and with no raw payload.
    /// A connector that knows when the fact occurred sets `timestamp` afterwards.
    pub fn new(source_id: &str, connector_id: &str, kind: ItemKind, properties: serde_json::Value) -> (r: Item)
        ensures
            r.id@.len() == 36,
            r.source_id@ == source_id@,
            r.connector_id@ == connector_id@,
            r.kind@ == kind@,
            r.timestamp == r.ingested_at,
            r.properties == properties,
            r.raw_payload is None,
    {
        let now = Timestamp::now();
        Item {
            id: fresh_uuid(),
            source_id: String::from_str(source_id),
            connector_id: String::from_str(connector_id),
            kind,
            timestamp: now,
            ingested_at: now,
            properties,
            raw_payload: None,
        }
    }
}

} // verus!
