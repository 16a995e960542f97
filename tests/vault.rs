use lifegraph::codec::{instant_from_text, instant_to_text, item_to_row, kind_from_text, kind_to_text, row_to_item, Row};
use lifegraph::connector::{gather_synced, Connector, ConnectorError, MockConnector};
use lifegraph::item::{Item, ItemKind, Timestamp};
use lifegraph::oauth::{access_token, token_request_form, verify_callback};
use lifegraph::storage::{row_params, sort_newest_first, DuckDbStorage, StorageError};
use serde_json::Value;
use std::path::PathBuf;

fn json(text: &str) -> Value {
    serde_json::from_str(text).unwrap()
}

fn item_at(id: &str, secs: i64, properties: &str) -> Item {
    Item {
        id: id.to_string(),
        source_id: format!("src-{}", id),
        connector_id: "conn-1".to_string(),
        kind: ItemKind::Event,
        timestamp: Timestamp::from_unix(secs, 0),
        ingested_at: Timestamp::from_unix(1_700_000_000, 5),
        properties: json(properties),
        raw_payload: None,
    }
}

/// Saves a batch as the database would store it and reads every row back.
fn save_and_read(items: &[Item]) -> Vec<Item> {
    let rows = DuckDbStorage::rows_to_save(items).expect("Failed to save item");
    DuckDbStorage::read_items(rows, Timestamp::from_unix(0, 0))
}

#[test]
fn saved_person_reads_back() {
    let storage = DuckDbStorage::new(PathBuf::from("test_lifegraph.db"));
    assert_eq!(storage.path(), &PathBuf::from("test_lifegraph.db"));
    let item = Item {
        id: "test-id-1".to_string(),
        source_id: "src-1".to_string(),
        connector_id: "conn-1".to_string(),
        kind: ItemKind::Person,
        timestamp: Timestamp::from_unix(1600000000, 0),
        ingested_at: Timestamp::now(),
        properties: json("{\"name\": \"Alice\"}"),
        raw_payload: None,
    };
    let items = save_and_read(std::slice::from_ref(&item));
    assert_eq!(items.len(), 1);
    assert_eq!(items[0].id, item.id);
    assert_eq!(items[0].kind, ItemKind::Person);
    assert_eq!(items[0].properties, json("{\"name\": \"Alice\"}"));
}

#[test]
fn round_trip_keeps_every_field() {
    let mut with_payload = item_at("a", 1_600_000_000, "{\"n\": [1, 2.5, null, true]}");
    with_payload.kind = ItemKind::Other("custom \"tag\"".to_string());
    with_payload.timestamp = Timestamp::from_unix(1_600_000_000, 123_456_789);
    with_payload.raw_payload = Some(json("{\"raw\": {\"x\": \"y\"}}"));
    let items = save_and_read(std::slice::from_ref(&with_payload));
    assert_eq!(items, vec![with_payload.clone()]);

    let without_payload = item_at("b", 1_600_000_001, "{}");
    let items = save_and_read(std::slice::from_ref(&without_payload));
    assert_eq!(items, vec![without_payload]);
}

#[test]
fn replacing_same_id_sends_latest_properties() {
    let first = item_at("same", 10, "{\"v\": 1}");
    let second = item_at("same", 10, "{\"v\": 2}");
    let rows = DuckDbStorage::rows_to_save(&[first, second]).unwrap();
    assert_eq!(rows.len(), 2);
    let last = row_params(&rows[1]);
    assert_eq!(last[0], Some("same".to_string()));
    assert_eq!(last[6], Some("{\"v\":2}".to_string()));
    assert_eq!(last[7], None);
    assert_eq!(last.len(), 8);
}

#[test]
fn batch_with_unencodable_last_item_is_refused() {
    let good = item_at("ok", 10, "{}");
    let mut bad = item_at("bad", 10, "{}");
    bad.timestamp = Timestamp::from_unix(i64::MAX, 0);
    assert_eq!(DuckDbStorage::rows_to_save(&[good.clone(), bad]), Err(StorageError::Encoding));
    assert!(DuckDbStorage::rows_to_save(&[good]).is_ok());
}

#[test]
fn items_come_back_newest_first() {
    let t1 = item_at("t1", 100, "{}");
    let t2 = item_at("t2", 200, "{}");
    let t3 = item_at("t3", 300, "{}");
    let items = save_and_read(&[t2, t1, t3]);
    let ids: Vec<&str> = items.iter().map(|i| i.id.as_str()).collect();
    assert_eq!(ids, vec!["t3", "t2", "t1"]);
}

#[test]
fn sort_keeps_order_of_equal_timestamps() {
    let a = item_at("a", 5, "{}");
    let b = item_at("b", 5, "{}");
    let mut c = item_at("c", 5, "{}");
    c.timestamp = Timestamp::from_unix(5, 1);
    let sorted = sort_newest_first(vec![a, b, c]);
    let ids: Vec<&str> = sorted.iter().map(|i| i.id.as_str()).collect();
    assert_eq!(ids, vec!["c", "a", "b"]);
    assert!(sort_newest_first(Vec::new()).is_empty());
}

#[test]
fn malformed_row_degrades_instead_of_failing() {
    let now = Timestamp::from_unix(42, 7);
    let row = Row {
        id: "r".to_string(),
        source_id: "s".to_string(),
        connector_id: "c".to_string(),
        kind: "not a kind".to_string(),
        timestamp: "yesterday".to_string(),
        ingested_at: "2020-09-13T12:26:40+00:00".to_string(),
        properties: "{broken".to_string(),
        raw_payload: Some("also broken".to_string()),
    };
    let item = row_to_item(row, now);
    assert_eq!(item.kind, ItemKind::Other("parse_error".to_string()));
    assert_eq!(item.timestamp, now);
    assert_eq!(item.ingested_at, Timestamp::from_unix(1600000000, 0));
    assert_eq!(item.properties, Value::Null);
    assert_eq!(item.raw_payload, None);
    let listed = DuckDbStorage::read_items(vec![item_to_row(&item_at("fine", 1, "{}")).unwrap()], now);
    assert_eq!(listed.len(), 1);
}

#[test]
fn kind_texts_are_exact() {
    assert_eq!(kind_to_text(&ItemKind::Person), "\"person\"");
    assert_eq!(kind_to_text(&ItemKind::Organization), "\"organization\"");
    assert_eq!(kind_to_text(&ItemKind::Transaction), "\"transaction\"");
    assert_eq!(kind_to_text(&ItemKind::Message), "\"message\"");
    assert_eq!(kind_to_text(&ItemKind::File), "\"file\"");
    assert_eq!(kind_to_text(&ItemKind::Metric), "\"metric\"");
    assert_eq!(kind_to_text(&ItemKind::Event), "\"event\"");
    assert_eq!(
        kind_to_text(&ItemKind::Other("a\"b".to_string())),
        "{\"other\":\"a\\\"b\"}"
    );
    assert_eq!(kind_from_text("\"metric\""), ItemKind::Metric);
    assert_eq!(kind_from_text("{\"other\":\"a\\\"b\"}"), ItemKind::Other("a\"b".to_string()));
    assert_eq!(kind_from_text("{\"other\":nope}"), ItemKind::Other("parse_error".to_string()));
    assert_eq!(kind_from_text(""), ItemKind::Other("parse_error".to_string()));
    assert_eq!(kind_from_text("person"), ItemKind::Other("parse_error".to_string()));
}

#[test]
fn kind_reader_accepts_any_json_encoding() {
    assert_eq!(kind_from_text("{ \"other\" : \"x\" }"), ItemKind::Other("x".to_string()));
    assert_eq!(kind_from_text("{\"other\":\"\\u0041\"}"), ItemKind::Other("A".to_string()));
    assert_eq!(kind_from_text(" \"person\" "), ItemKind::Person);
    assert_eq!(kind_from_text("\"pers\\u006fn\""), ItemKind::Person);
    assert_eq!(kind_from_text("\"unknown\""), ItemKind::Other("parse_error".to_string()));
    assert_eq!(kind_from_text("{\"other\":\"x\",\"more\":\"y\"}"), ItemKind::Other("parse_error".to_string()));
    assert_eq!(kind_from_text("{\"other\":5}"), ItemKind::Other("parse_error".to_string()));
    assert_eq!(kind_from_text("[\"person\"]"), ItemKind::Other("parse_error".to_string()));
}

#[test]
fn instants_use_rfc3339_text() {
    let t = Timestamp::from_unix(1600000000, 0);
    assert_eq!(instant_to_text(&t), Some("2020-09-13T12:26:40+00:00".to_string()));
    assert_eq!(instant_from_text("2020-09-13T14:26:40+02:00", Timestamp::from_unix(0, 0)), t);
    assert_eq!(instant_to_text(&Timestamp::from_unix(i64::MAX, 0)), None);
    assert!(Timestamp::from_unix(1, 5).before(&Timestamp::from_unix(2, 0)));
    assert!(!Timestamp::from_unix(2, 0).before(&Timestamp::from_unix(2, 0)));
}

#[test]
fn row_holds_compact_json_text() {
    let row = item_to_row(&item_at("x", 1, "{ \"name\" : \"Alice\" }")).unwrap();
    assert_eq!(row.properties, "{\"name\":\"Alice\"}");
    assert_eq!(row.kind, "\"event\"");
    assert_eq!(row.timestamp, "1970-01-01T00:00:01+00:00");
    assert_eq!(row.raw_payload, None);
}

#[test]
fn new_item_is_stamped_once() {
    let item = Item::new("s1", "c1", ItemKind::File, json("{\"k\": 1}"));
    assert_eq!(item.id.len(), 36);
    assert_eq!(item.source_id, "s1");
    assert_eq!(item.connector_id, "c1");
    assert_eq!(item.kind, ItemKind::File);
    assert_eq!(item.timestamp, item.ingested_at);
    assert_eq!(item.properties, json("{\"k\": 1}"));
    assert!(item.raw_payload.is_none());
    let other = Item::new("s1", "c1", ItemKind::File, Value::Null);
    assert_ne!(item.id, other.id);
}

#[test]
fn mock_message_round_trips_through_storage() {
    let mock = MockConnector { id: "mock".to_string() };
    assert_eq!(mock.id(), "mock");
    assert!(mock.init().is_ok());
    let items = mock.full_sync().unwrap();
    assert_eq!(items.len(), 1);
    assert_eq!(items[0].source_id, "mock_msg_1");
    assert_eq!(items[0].connector_id, "mock");
    let stored = save_and_read(&items);
    assert_eq!(stored.len(), 1);
    assert_eq!(stored[0].kind, ItemKind::Message);
    assert_eq!(stored[0].properties["subject"], Value::String("Hello World".to_string()));
    assert_eq!(
        items[0].properties,
        json("{\"subject\": \"Hello World\", \"body\": \"This is a test message from the mock connector.\"}")
    );
    assert!(items[0].raw_payload.is_none());
    assert_eq!(items[0].timestamp, items[0].ingested_at);
    assert!(mock.incremental_sync(Timestamp::from_unix(0, 0)).unwrap().is_empty());
}

#[test]
fn failed_connector_does_not_block_others() {
    let mock = MockConnector { id: "mock".to_string() };
    let failed: Result<Vec<Item>, ConnectorError> = Err(ConnectorError { message: "down".to_string() });
    let gathered = gather_synced(vec![failed, mock.full_sync()]);
    assert_eq!(gathered.len(), 1);
    assert_eq!(gathered[0].connector_id, "mock");
    let stored = save_and_read(&gathered);
    assert_eq!(stored.len(), 1);
    let both = gather_synced(vec![Ok(vec![item_at("a", 1, "{}")]), Ok(vec![item_at("b", 2, "{}"), item_at("c", 3, "{}")])]);
    let ids: Vec<&str> = both.iter().map(|i| i.id.as_str()).collect();
    assert_eq!(ids, vec!["a", "b", "c"]);
    assert!(gather_synced(Vec::new()).is_empty());
}

#[test]
fn callback_code_requires_matching_state() {
    let url = "http://localhost:8000/?state=abc&code=4%2F0Ab";
    assert_eq!(verify_callback(url, "abc"), Some("4/0Ab".to_string()));
    assert_eq!(verify_callback(url, "xyz"), None);
    assert_eq!(verify_callback("http://localhost:8000/?state=abc", "abc"), None);
    assert_eq!(verify_callback("not a url", "abc"), None);
    assert_eq!(verify_callback("http://h/?code=c&state=s&state=t", "s"), Some("c".to_string()));
}

#[test]
fn token_request_and_response() {
    let form = token_request_form("c0de".to_string());
    assert_eq!(form.len(), 5);
    assert_eq!(form[0], ("code".to_string(), "c0de".to_string()));
    assert_eq!(form[4], ("grant_type".to_string(), "authorization_code".to_string()));
    assert_eq!(access_token(&json("{\"access_token\": \"tok\", \"expires_in\": 3599}")), "tok");
    assert_eq!(access_token(&json("{\"access_token\": 5}")), "");
    assert_eq!(access_token(&json("{\"error\": \"invalid_grant\"}")), "");
    assert_eq!(access_token(&json("[1]")), "");
}

#[test]
fn bad_kind_row_is_listed_with_the_others() {
    let good_a = item_at("a", 100, "{\"x\": 1}");
    let good_b = item_at("b", 300, "{}");
    let bad_source = item_at("bad", 200, "{\"y\": \"z\"}");
    let mut bad_row = item_to_row(&bad_source).unwrap();
    bad_row.kind = "{not json".to_string();
    let rows = vec![
        item_to_row(&good_a).unwrap(),
        bad_row,
        item_to_row(&good_b).unwrap(),
    ];
    let items = DuckDbStorage::read_items(rows, Timestamp::from_unix(0, 0));
    assert_eq!(items.len(), 3);
    assert_eq!(items[0], good_b);
    let mut expected_bad = bad_source.clone();
    expected_bad.kind = ItemKind::Other("parse_error".to_string());
    assert_eq!(items[1], expected_bad);
    assert_eq!(items[2], good_a);
}
