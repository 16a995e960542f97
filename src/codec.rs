//! The text form of an item in the `items` table: one text column per field,
//! structured fields as JSON text and instants as RFC 3339 text.
use vstd::prelude::*;
use crate::external::{
    as_string, format_rfc3339, json_as_str, json_object_len, json_parse, json_quote, json_str_member,
    json_text, json_unquote, null_value, object_len, parse_rfc3339, parse_value, quote_string,
    rfc3339_parse, rfc3339_text, str_member, unquote_string, value_to_text,
};
use crate::item::{Item, ItemKind, ItemView, KindView, Timestamp};

verus! {

/// One row of the `items` table, column by column.
#[derive(Debug, Clone, PartialEq, Eq)]
pub struct Row {
    pub id: String,
    pub source_id: String,
    pub connector_id: String,
    pub kind: String,
    pub timestamp: String,
    pub ingested_at: String,
    pub properties: String,
    pub raw_payload: Option<String>,
}

/// The mathematical value of a [`Row`].
pub struct RowView {
    pub id: Seq<char>,
    pub source_id: Seq<char>,
    pub connector_id: Seq<char>,
    pub kind: Seq<char>,
    pub timestamp: Seq<char>,
    pub ingested_at: Seq<char>,
    pub properties: Seq<char>,
    pub raw_payload: Option<Seq<char>>,
}

/// The characters of an optional string.
pub open spec fn opt_text(o: Option<String>) -> Option<Seq<char>> {
    match o {
        Some(s) => Some(s@),
        None => None,
    }
}

impl View for Row {
    type V = RowView;

    open spec fn view(&self) -> RowView {
        RowView {
            id: self.id@,
            source_id: self.source_id@,
            connector_id: self.connector_id@,
            kind: self.kind@,
            timestamp: self.timestamp@,
            ingested_at: self.ingested_at@,
            properties: self.properties@,
            raw_payload: opt_text(self.raw_payload),
        }
    }
}

/// The tag that marks a kind whose stored text could not be read.
pub open spec fn parse_error_tag() -> Seq<char> {
    "parse_error"@
}

/// The opening of the stored text of an `Other` kind, before its quoted tag.
pub open spec fn other_open() -> Seq<char> {
    "{\"other\":"@
}

/// The stored text of a kind: a quoted snake-case name for the fixed kinds, and
/// `{"other":<quoted tag>}` for `Other`.
pub open spec fn kind_text(k: KindView) -> Seq<char> {
    match k {
        KindView::Person => "\"person\""@,
        KindView::Organization => "\"organization\""@,
        KindView::Transaction => "\"transaction\""@,
        KindView::Message => "\"message\""@,
        KindView::File => "\"file\""@,
        KindView::Metric => "\"metric\""@,
        KindView::Event => "\"event\""@,
        KindView::Other(tag) => other_open() + json_quote(tag) + "}"@,
    }
}

/// The fixed kind with a snake-case name; `Other("parse_error")` for any other
/// name.
pub open spec fn kind_named(name: Seq<char>) -> KindView {
    if name == "person"@ {
        KindView::Person
    } else if name == "organization"@ {
        KindView::Organization
    } else if name == "transaction"@ {
        KindView::Transaction
    } else if name == "message"@ {
        KindView::Message
    } else if name == "file"@ {
        KindView::File
    } else if name == "metric"@ {
        KindView::Metric
    } else if name == "event"@ {
        KindView::Event
    } else {
        KindView::Other(parse_error_tag())
    }
}

/// The kind a JSON value encodes: a string naming a fixed kind, or an object
/// whose one member `other` holds the tag as a string; `Other("parse_error")`
/// for any other value.
pub open spec fn kind_of_value(v: serde_json::Value) -> KindView {
    match json_as_str(v) {
        Some(name) => kind_named(name),
        None => if json_object_len(v) == Some(1nat) {
            match json_str_member(v, "other"@) {
                Some(tag) => KindView::Other(tag),
                None => KindView::Other(parse_error_tag()),
            }
        } else {
            KindView::Other(parse_error_tag())
        },
    }
}

/// Whether a text has the shape `{"other":...}`.
pub open spec fn is_other_shaped(s: Seq<char>) -> bool {
    s.len() >= 10 && s.subrange(0, 9) == other_open() && s.last() == '}'
}

/// The kind that a stored text denotes. The texts this library writes are
/// recognised directly; any other text is read as JSON and decoded by
/// [`kind_of_value`], so that spacing and escapes do not matter. Text that is no
/// JSON reads as `Other("parse_error")`.
pub open spec fn kind_of_text(s: Seq<char>) -> KindView {
    if s == "\"person\""@ {
        KindView::Person
    } else if s == "\"organization\""@ {
        KindView::Organization
    } else if s == "\"transaction\""@ {
        KindView::Transaction
    } else if s == "\"message\""@ {
        KindView::Message
    } else if s == "\"file\""@ {
        KindView::File
    } else if s == "\"metric\""@ {
        KindView::Metric
    } else if s == "\"event\""@ {
        KindView::Event
    } else if is_other_shaped(s) && json_unquote(s.subrange(9, s.len() - 1)) is Some {
        KindView::Other(json_unquote(s.subrange(9, s.len() - 1))->Some_0)
    } else {
        match json_parse(s) {
            Some(v) => kind_of_value(v),
            None => KindView::Other(parse_error_tag()),
        }
    }
}

/// The stored text of an instant, `None` where it has no RFC 3339 form.
pub open spec fn instant_text(t: Timestamp) -> Option<Seq<char>> {
    rfc3339_text(t.secs, t.nanos)
}

/// The instant a stored text denotes, or `fallback` where it is no RFC 3339 text.
pub open spec fn instant_or(s: Seq<char>, fallback: Timestamp) -> Timestamp {
    match rfc3339_parse(s) {
        Some(p) => Timestamp { secs: p.0, nanos: p.1 },
        None => fallback,
    }
}

/// The JSON null value.
pub open spec fn json_null() -> serde_json::Value {
    json_parse("null"@)->Some_0
}

/// The row that stores an item, `None` where one of its instants has no text
/// form.
pub open spec fn row_of(v: ItemView) -> Option<RowView> {
    match (instant_text(v.timestamp), instant_text(v.ingested_at)) {
        (Some(t), Some(i)) => Some(
            RowView {
                id: v.id,
                source_id: v.source_id,
                connector_id: v.connector_id,
                kind: kind_text(v.kind),
                timestamp: t,
                ingested_at: i,
                properties: json_text(v.properties),
                raw_payload: match v.raw_payload {
                    Some(p) => Some(json_text(p)),
                    None => None,
                },
            },
        ),
        _ => None,
    }
}

/// The item a stored row denotes. What cannot be read degrades instead of
/// failing: the kind to `Other("parse_error")`, an instant to `now`, the
/// properties to JSON null, the raw payload to none.
pub open spec fn item_of(r: RowView, now: Timestamp) -> ItemView {
    ItemView {
        id: r.id,
        source_id: r.source_id,
        connector_id: r.connector_id,
        kind: kind_of_text(r.kind),
        timestamp: instant_or(r.timestamp, now),
        ingested_at: instant_or(r.ingested_at, now),
        properties: match json_parse(r.properties) {
            Some(p) => p,
            None => json_null(),
        },
        raw_payload: match r.raw_payload {
            Some(t) => json_parse(t),
            None => None,
        },
    }
}

/// Whether the outside text forms that an item's row uses read back to the
/// item's own values: its JSON values, its instants and the tag of an `Other`
/// kind.
pub open spec fn text_forms_read_back(v: ItemView) -> bool {
    &&& json_parse(json_text(v.properties)) == Some(v.properties)
    &&& (v.raw_payload matches Some(p) ==> json_parse(json_text(p)) == Some(p))
    &&& rfc3339_parse(instant_text(v.timestamp)->Some_0) == Some((v.timestamp.secs, v.timestamp.nanos))
    &&& rfc3339_parse(instant_text(v.ingested_at)->Some_0) == Some(
        (v.ingested_at.secs, v.ingested_at.nanos),
    )
    &&& (v.kind matches KindView::Other(tag) ==> json_unquote(json_quote(tag)) == Some(tag))
}

/// The text `lit` as an owned string.
fn owned(lit: &str) -> (r: String)
    ensures
        r@ == lit@,
{
    String::from_str(lit)
}

/// Whether `s` is exactly the text `lit`.
fn is_text(s: &str, lit: &str) -> (r: bool)
    ensures
        r == (s@ == lit@),
{
    owned(s) == owned(lit)
}

/// The stored text of a kind.
pub fn kind_to_text(k: &ItemKind) -> (r: String)
    ensures
        r@ == kind_text(k@),
{
    match k {
        ItemKind::Person => owned("\"person\""),
        ItemKind::Organization => owned("\"organization\""),
        ItemKind::Transaction => owned("\"transaction\""),
        ItemKind::Message => owned("\"message\""),
        ItemKind::File => owned("\"file\""),
        ItemKind::Metric => owned("\"metric\""),
        ItemKind::Event => owned("\"event\""),
        ItemKind::Other(tag) => {
            let q = quote_string(tag.as_str());
            let mut s = owned("{\"other\":");
            s.append(q.as_str());
            s.append("}");
            s
        },
    }
}

/// The fixed kind with a snake-case name; `Other("parse_error")` for any other.
fn kind_from_name(name: &str) -> (r: ItemKind)
    ensures
        r@ == kind_named(name@),
{
    if is_text(name, "person") {
        ItemKind::Person
    } else if is_text(name, "organization") {
        ItemKind::Organization
    } else if is_text(name, "transaction") {
        ItemKind::Transaction
    } else if is_text(name, "message") {
        ItemKind::Message
    } else if is_text(name, "file") {
        ItemKind::File
    } else if is_text(name, "metric") {
        ItemKind::Metric
    } else if is_text(name, "event") {
        ItemKind::Event
    } else {
        ItemKind::Other(owned("parse_error"))
    }
}

/// The kind a JSON value encodes, as [`kind_of_value`] says.
pub fn kind_from_value(v: &serde_json::Value) -> (r: ItemKind)
    ensures
        r@ == kind_of_value(*v),
{
    match as_string(v) {
        Some(name) => kind_from_name(name.as_str()),
        None => match object_len(v) {
            Some(n) => if n == 1 {
                match str_member(v, "other") {
                    Some(tag) => ItemKind::Other(tag),
                    None => ItemKind::Other(owned("parse_error")),
                }
            } else {
                ItemKind::Other(owned("parse_error"))
            },
            None => ItemKind::Other(owned("parse_error")),
        },
    }
}

/// The kind a stored text denotes; unreadable text gives `Other("parse_error")`.
pub fn kind_from_text(s: &str) -> (r: ItemKind)
    ensures
        r@ == kind_of_text(s@),
{
    if is_text(s, "\"person\"") {
        ItemKind::Person
    } else if is_text(s, "\"organization\"") {
        ItemKind::Organization
    } else if is_text(s, "\"transaction\"") {
        ItemKind::Transaction
    } else if is_text(s, "\"message\"") {
        ItemKind::Message
    } else if is_text(s, "\"file\"") {
        ItemKind::File
    } else if is_text(s, "\"metric\"") {
        ItemKind::Metric
    } else if is_text(s, "\"event\"") {
        ItemKind::Event
    } else {
        let n = s.unicode_len();
        if n >= 10 && is_text(s.substring_char(0, 9), "{\"other\":") && s.get_char(n - 1) == '}' {
            match unquote_string(s.substring_char(9, n - 1)) {
                Some(tag) => {
                    return ItemKind::Other(tag);
                },
                None => {},
            }
        }
        match parse_value(s) {
            Some(v) => kind_from_value(&v),
            None => ItemKind::Other(owned("parse_error")),
        }
    }
}

/// The stored text of an instant, `None` where it has no RFC 3339 form.
pub fn instant_to_text(t: &Timestamp) -> (r: Option<String>)
    ensures
        opt_text(r) == instant_text(*t),
{
    format_rfc3339(t.secs, t.nanos)
}

/// The instant a stored text denotes, or `fallback` where it is unreadable.
pub fn instant_from_text(s: &str, fallback: Timestamp) -> (r: Timestamp)
    ensures
        r == instant_or(s@, fallback),
{
    match parse_rfc3339(s) {
        Some(p) => Timestamp { secs: p.0, nanos: p.1 },
        None => fallback,
    }
}

/// The row that stores an item; `None` where one of its instants has no text
/// form.
pub fn item_to_row(item: &Item) -> (r: Option<Row>)
    ensures
        match r {
            Some(row) => row_of(item@) == Some(row@),
            None => row_of(item@) is None,
        },
{
    let kind = kind_to_text(&item.kind);
    let timestamp = match instant_to_text(&item.timestamp) {
        Some(t) => t,
        None => return None,
    };
    let ingested_at = match instant_to_text(&item.ingested_at) {
        Some(t) => t,
        None => return None,
    };
    let raw_payload = match &item.raw_payload {
        Some(p) => Some(value_to_text(p)),
        None => None,
    };
    Some(
        Row {
            id: item.id.clone(),
            source_id: item.source_id.clone(),
            connector_id: item.connector_id.clone(),
            kind,
            timestamp,
            ingested_at,
            properties: value_to_text(&item.properties),
            raw_payload,
        },
    )
}

/// The item a stored row denotes, with unreadable fields degraded as
/// [`item_of`] says; `now` stands in for an unreadable instant.
pub fn row_to_item(row: Row, now: Timestamp) -> (r: Item)
    ensures
        r@ == item_of(row@, now),
{
    let kind = kind_from_text(row.kind.as_str());
    let timestamp = instant_from_text(row.timestamp.as_str(), now);
    let ingested_at = instant_from_text(row.ingested_at.as_str(), now);
    let properties = match parse_value(row.properties.as_str()) {
        Some(p) => p,
        None => null_value(),
    };
    let raw_payload = match &row.raw_payload {
        Some(t) => parse_value(t.as_str()),
        None => None,
    };
    Item {
        id: row.id,
        source_id: row.source_id,
        connector_id: row.connector_id,
        kind,
        timestamp,
        ingested_at,
        properties,
        raw_payload,
    }
}

/// Reading back the stored text of a kind gives the kind, wherever the tag of
/// an `Other` kind reads back from its quoted form.
pub proof fn lemma_kind_round_trip(k: KindView)
    requires
        k matches KindView::Other(tag) ==> json_unquote(json_quote(tag)) == Some(tag),
    ensures
        kind_of_text(kind_text(k)) == k,
{
    reveal_strlit("\"person\"");
    reveal_strlit("\"organization\"");
    reveal_strlit("\"transaction\"");
    reveal_strlit("\"message\"");
    reveal_strlit("\"file\"");
    reveal_strlit("\"metric\"");
    reveal_strlit("\"event\"");
    reveal_strlit("{\"other\":");
    reveal_strlit("}");
    let s = kind_text(k);
    match k {
        KindView::Other(tag) => {
            let q = json_quote(tag);
            assert(s[0] == '{');
            assert(s != "\"person\""@ && s != "\"organization\""@ && s != "\"transaction\""@) by {
                assert("\"person\""@[0] == '"');
                assert("\"organization\""@[0] == '"');
                assert("\"transaction\""@[0] == '"');
            }
            assert(s != "\"message\""@ && s != "\"file\""@ && s != "\"metric\""@ && s != "\"event\""@) by {
                assert("\"message\""@[0] == '"');
                assert("\"file\""@[0] == '"');
                assert("\"metric\""@[0] == '"');
                assert("\"event\""@[0] == '"');
            }
            assert(s.last() == '}');
            assert(s.subrange(0, 9) =~= other_open());
            assert(s.subrange(9, s.len() - 1) =~= q);
            assert(is_other_shaped(s));
            assert(json_unquote(s.subrange(9, s.len() - 1)) == Some(tag));
            assert(kind_of_text(s) == KindView::Other(tag));
        },
        _ => {
            assert("\"person\""@[1] == 'p' && "\"organization\""@[1] == 'o');
            assert("\"transaction\""@[1] == 't' && "\"message\""@[1] == 'm');
            assert("\"file\""@[1] == 'f' && "\"metric\""@[1] == 'm' && "\"event\""@[1] == 'e');
            assert("\"message\""@.len() != "\"metric\""@.len());
        },
    }
}

/// Storing an item as a row and reading the row back gives the item again,
/// wherever the outside text forms that the row uses read back.
pub proof fn lemma_row_round_trip(v: ItemView, now: Timestamp)
    requires
        row_of(v) is Some,
        text_forms_read_back(v),
    ensures
        item_of(row_of(v)->Some_0, now) == v,
{
    lemma_kind_round_trip(v.kind);
}

/// A stored row whose kind column holds text that reads as no kind still
/// reads back: its kind becomes `Other("parse_error")` and every other field
/// comes back as it was saved, wherever the outside text forms that the row
/// uses read back.
pub proof fn lemma_bad_kind_degrades_only_kind(v: ItemView, bad: Seq<char>, now: Timestamp)
    requires
        row_of(v) is Some,
        text_forms_read_back(v),
        kind_of_text(bad) == KindView::Other(parse_error_tag()),
    ensures
        item_of(RowView { kind: bad, ..row_of(v)->Some_0 }, now) == (ItemView {
            kind: KindView::Other(parse_error_tag()),
            ..v
        }),
{
    lemma_row_round_trip(v, now);
}

} // verus!
