//! The connector contract, the mock connector, and how the items of several
//! connectors' syncs are gathered.
use vstd::prelude::*;
use crate::external::{json_str_member, json_string_object, string_object};
use crate::item::{Item, ItemKind, KindView, Timestamp};

verus! {

/// Why a connector could not set up or sync.
#[derive(Debug, Clone, PartialEq, Eq)]
pub struct ConnectorError {
    pub message: String,
}

/// A source of items.
pub trait Connector {
    /// The identity of this connector instance.
    spec fn tag(&self) -> Seq<char>;

    /// The identity that tags every item this connector produces.
    fn id(&self) -> (r: &str)
        ensures
            r@ == self.tag(),
    ;

    /// Sets the connector up; safe to call once before any sync.
    fn init(&self) -> Result<(), ConnectorError>;

    /// The complete current state of the source.
    fn full_sync(&self) -> (r: Result<Vec<Item>, ConnectorError>)
        ensures
            r matches Ok(items) ==> forall|i: int|
                0 <= i < items@.len() ==> (#[trigger] items@[i]).connector_id@ == self.tag(),
    ;

    /// The items whose source-side time is at or after `since`.
    fn incremental_sync(&self, since: Timestamp) -> (r: Result<Vec<Item>, ConnectorError>)
        ensures
            r matches Ok(items) ==> forall|i: int|
                0 <= i < items@.len() ==> (#[trigger] items@[i]).connector_id@ == self.tag()
                    && !items@[i].timestamp.is_before(since),
    ;
}

/// A connector that needs no outside source: a full sync yields one fixed
/// message, an incremental sync nothing.
pub struct MockConnector {
    pub id: String,
}

/// The source identity of the mock connector's message.
pub const MOCK_SOURCE_ID: &'static str = "mock_msg_1";

/// The subject of the mock connector's message.
pub const MOCK_SUBJECT: &'static str = "Hello World";

/// The body of the mock connector's message.
pub const MOCK_BODY: &'static str = "This is a test message from the mock connector.";

/// The properties of the mock connector's message: a JSON object with its
/// `subject` and `body` as strings.
pub open spec fn mock_properties() -> serde_json::Value {
    json_string_object(seq![("subject"@, MOCK_SUBJECT@), ("body"@, MOCK_BODY@)])
}

impl Connector for MockConnector {
    open spec fn tag(&self) -> Seq<char> {
        self.id@
    }

    fn id(&self) -> (r: &str) {
        self.id.as_str()
    }

    fn init(&self) -> (r: Result<(), ConnectorError>)
        ensures
            r is Ok,
    {
        Ok(())
    }

    /// One fresh message item: the fixed source id, this connector's id, kind
    /// `Message`, the fixed properties, no raw payload, stamped with the
    /// current time.
    fn full_sync(&self) -> (r: Result<Vec<Item>, ConnectorError>)
        ensures
            r matches Ok(items) && items@.len() == 1 && items@[0].source_id@ == MOCK_SOURCE_ID@
                && items@[0].connector_id@ == self.id@ && items@[0].kind@ == KindView::Message
                && items@[0].properties == mock_properties()
                && json_str_member(items@[0].properties, "subject"@) == Some(MOCK_SUBJECT@)
                && json_str_member(items@[0].properties, "body"@) == Some(MOCK_BODY@)
                && items@[0].raw_payload is None && items@[0].timestamp == items@[0].ingested_at
                && items@[0].id@.len() == 36,
    {
        let fields = vec![
            (String::from_str("subject"), String::from_str(MOCK_SUBJECT)),
            (String::from_str("body"), String::from_str(MOCK_BODY)),
        ];
        proof {
            reveal_strlit("subject");
            reveal_strlit("body");
            assert(fields@[0].0@ != fields@[1].0@) by {
                assert(fields@[0].0@[0] != fields@[1].0@[0]);
            }
            assert(fields@.map_values(|p: (String, String)| (p.0@, p.1@)) =~= seq![
                ("subject"@, MOCK_SUBJECT@),
                ("body"@, MOCK_BODY@),
            ]);
        }
        let properties = string_object(&fields);
        proof {
            assert(json_str_member(properties, fields@[0].0@) == Some(fields@[0].1@));
            assert(json_str_member(properties, fields@[1].0@) == Some(fields@[1].1@));
        }
        let item = Item::new(MOCK_SOURCE_ID, self.id.as_str(), ItemKind::Message, properties);
        Ok(vec![item])
    }

    /// Nothing: the mock source never changes.
    fn incremental_sync(&self, since: Timestamp) -> (r: Result<Vec<Item>, ConnectorError>)
        ensures
            r matches Ok(items) && items@.len() == 0,
    {
        Ok(Vec::new())
    }
}

/// The items of the syncs that succeeded, in the order of the syncs; a failed
/// sync contributes nothing.
pub open spec fn ok_items(results: Seq<Result<Vec<Item>, ConnectorError>>) -> Seq<Item>
    decreases results.len(),
{
    if results.len() == 0 {
        Seq::empty()
    } else {
        ok_items(results.drop_last()) + match results.last() {
            Ok(items) => items@,
            Err(_) => Seq::empty(),
        }
    }
}

/// Gathers the items of several connectors' syncs, passing over the syncs
/// that failed.
pub fn gather_synced(results: Vec<Result<Vec<Item>, ConnectorError>>) -> (r: Vec<Item>)
    ensures
        r@ == ok_items(results@),
{
    let ghost all = results@;
    let n: usize = results.len();
    let mut rest = results;
    let mut out: Vec<Item> = Vec::new();
    let mut k: usize = 0;
    while rest.len() > 0
        invariant
            k + rest@.len() == all.len(),
            all.len() == n,
            rest@ == all.subrange(k as int, all.len() as int),
            out@ == ok_items(all.subrange(0, k as int)),
        decreases rest@.len(),
    {
        let next = rest.remove(0);
        assert(all.subrange(0, k + 1).drop_last() =~= all.subrange(0, k as int));
        match next {
            Ok(mut items) => out.append(&mut items),
            Err(_) => {},
        }
        k = k + 1;
    }
    assert(all.subrange(0, k as int) =~= all);
    out
}

/// A connector whose sync failed takes nothing away from the others: the
/// gathered items are those that would be gathered without it.
pub proof fn lemma_failed_sync_isolated(results: Seq<Result<Vec<Item>, ConnectorError>>, i: int)
    requires
        0 <= i < results.len(),
        results[i] is Err,
    ensures
        ok_items(results.remove(i)) == ok_items(results),
    decreases results.len(),
{
    if i == results.len() - 1 {
        assert(results.remove(i) =~= results.drop_last());
        assert(ok_items(results) =~= ok_items(results.drop_last()));
    } else {
        assert(results.remove(i).drop_last() =~= results.drop_last().remove(i));
        assert(results.remove(i).last() == results.last());
        lemma_failed_sync_isolated(results.drop_last(), i);
    }
}

/// Every item of a sync that succeeded is among the gathered items.
pub proof fn lemma_ok_sync_kept(results: Seq<Result<Vec<Item>, ConnectorError>>, i: int, j: int)
    requires
        0 <= i < results.len(),
        results[i] matches Ok(items) && 0 <= j < items@.len(),
    ensures
        ok_items(results).contains(results[i]->Ok_0@[j]),
    decreases results.len(),
{
    let x = results[i]->Ok_0@[j];
    let front = ok_items(results.drop_last());
    let back = match results.last() {
        Ok(items) => items@,
        Err(_) => Seq::<Item>::empty(),
    };
    assert(ok_items(results) == front + back);
    if i == results.len() - 1 {
        assert((front + back)[front.len() + j] == x);
    } else {
        lemma_ok_sync_kept(results.drop_last(), i, j);
        let k = choose|k: int| 0 <= k < front.len() && front[k] == x;
        assert((front + back)[k] == x);
    }
}

} // verus!
