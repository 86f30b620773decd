//! The replies of the stream commands as fixed structures, and the rules by
//! which each is read from a reply.
use vstd::prelude::*;
use redis::Value;
use crate::error::{outcome, StreamError};
use crate::fields::FieldMap;
use crate::wire::{
    bulk_items, lists_entries, lists_rows, lists_stream_rows, lists_streams, read_entry_rows,
    read_fields, read_stream_rows, read_string, wire_bulk, wire_entry_rows, wire_fields,
    wire_stream_rows, wire_string,
};

verus! {

/// What a [`StreamId`] holds: the id of an entry and its fields.
pub struct StreamIdView {
    pub id: Seq<char>,
    pub map: Map<Seq<char>, Value>,
}

impl StreamIdView {
    /// The entry with an empty id and no fields.
    pub open spec fn empty() -> StreamIdView {
        StreamIdView { id: Seq::empty(), map: Map::empty() }
    }
}

/// One entry of a stream: its id, `<milliseconds>-<sequence>`, and its
/// fields.
#[derive(Clone, Debug)]
pub struct StreamId {
    pub id: String,
    pub map: FieldMap,
}

impl View for StreamId {
    type V = StreamIdView;

    open spec fn view(&self) -> StreamIdView {
        StreamIdView { id: self.id@, map: self.map@ }
    }
}

impl DeepView for StreamId {
    type V = StreamIdView;

    open spec fn deep_view(&self) -> StreamIdView {
        self@
    }
}

impl Default for StreamId {
    fn default() -> (entry: StreamId)
        ensures
            entry@ == StreamIdView::empty(),
    {
        StreamId { id: String::new(), map: FieldMap::new() }
    }
}

/// The entry that a list of items stands for: the first item is its id, the
/// second its fields. Where an item is missing, its part stays empty; items
/// after the second are not read. An id that `redis` cannot read is told
/// before fields that it cannot read.
pub open spec fn items_entry(items: Seq<Value>) -> Result<StreamIdView, StreamError> {
    let id = if items.len() > 0 {
        wire_string(items[0])
    } else {
        Ok(Seq::empty())
    };
    let map = if items.len() > 1 {
        wire_fields(items[1])
    } else {
        Ok(Map::empty())
    };
    match id {
        Ok(id) => match map {
            Ok(map) => Ok(StreamIdView { id, map }),
            Err(e) => Err(StreamError::Wire(e)),
        },
        Err(e) => Err(StreamError::Wire(e)),
    }
}

/// The entry that a reply of two items, an id and a list of fields, stands
/// for. A reply that is no list stands for the empty entry.
pub open spec fn bulk_entry(v: Value) -> Result<StreamIdView, StreamError> {
    match wire_bulk(v) {
        Some(items) => items_entry(items),
        None => Ok(StreamIdView::empty()),
    }
}

impl StreamId {
    /// Reads an entry from the items of a reply: its id, then its fields.
    pub fn from_items(items: &Vec<Value>) -> (r: Result<StreamId, StreamError>)
        ensures
            outcome(r) == items_entry(items@),
    {
        let mut stream_id = StreamId::default();
        if items.len() > 0 {
            match read_string(&items[0]) {
                Ok(id) => {
                    stream_id.id = id;
                },
                Err(e) => {
                    return Err(StreamError::Wire(e));
                },
            }
        }
        if items.len() > 1 {
            match read_fields(&items[1]) {
                Ok(map) => {
                    stream_id.map = map;
                },
                Err(e) => {
                    return Err(StreamError::Wire(e));
                },
            }
        }
        Ok(stream_id)
    }

    /// Reads an entry from a reply of two items: its id, then its fields.
    pub fn from_bulk_value(v: &Value) -> (r: Result<StreamId, StreamError>)
        ensures
            outcome(r) == bulk_entry(*v),
    {
        match bulk_items(v) {
            Some(items) => StreamId::from_items(items),
            None => Ok(StreamId::default()),
        }
    }

    /// The value of the field `key`, if the entry has that field.
    pub fn find(&self, key: &&str) -> (found: Option<&Value>)
        ensures
            match found {
                Some(value) => self@.map.contains_key(key@) && *value == self@.map[key@],
                None => !self@.map.contains_key(key@),
            },
    {
        self.map.get(*key)
    }

    /// Whether the entry has the field `key`.
    pub fn contains_key(&self, key: &&str) -> (found: bool)
        ensures
            found == self@.map.contains_key(key@),
    {
        self.find(key).is_some()
    }

    /// The number of fields of the entry.
    pub fn len(&self) -> (n: usize)
        ensures
            self@.map.dom().finite(),
            n == self@.map.len(),
    {
        self.map.len()
    }
}

/// The entry that a row of a reply stands for: the one that the row lists
/// last, or the empty entry where the row lists none.
pub open spec fn row_entry(row: Seq<StreamIdView>) -> StreamIdView {
    if row.len() == 0 {
        StreamIdView::empty()
    } else {
        row.last()
    }
}

/// The entries that the rows of a reply stand for, row by row.
pub open spec fn rows_entries(rows: Seq<Seq<StreamIdView>>) -> Seq<StreamIdView> {
    rows.map_values(|row: Seq<StreamIdView>| row_entry(row))
}

/// The entry is one that the map of a row allows: one of the map's entries,
/// or the empty entry where the map has none. For a map of one entry this
/// fixes the entry.
pub open spec fn picks_entry(
    entry: StreamIdView,
    entries: Map<Seq<char>, Map<Seq<char>, Value>>,
) -> bool {
    if forall|id: Seq<char>| !entries.contains_key(id) {
        entry == StreamIdView::empty()
    } else {
        entries.contains_key(entry.id) && entries[entry.id] == entry.map
    }
}

/// Reads the entry of one row.
fn take_row_entry(row: Vec<StreamId>) -> (entry: StreamId)
    ensures
        entry@ == row_entry(row.deep_view()),
{
    let mut row = row;
    match row.pop() {
        Some(entry) => entry,
        None => StreamId::default(),
    }
}

/// Reads the entries of the rows, in order.
fn take_rows_entries(rows: Vec<Vec<StreamId>>) -> (entries: Vec<StreamId>)
    ensures
        entries.deep_view() == rows_entries(rows.deep_view()),
{
    let ghost all = rows.deep_view();
    let mut entries: Vec<StreamId> = Vec::new();
    for row in it: rows
        invariant
            all == rows.deep_view(),
            entries.deep_view() == rows_entries(all.take(it.index() as int)),
    {
        let ghost before = entries.deep_view();
        let entry = take_row_entry(row);
        entries.push(entry);
        proof {
            let i = it.index() as int;
            assert(all[i] == row.deep_view());
            assert(all.take(i + 1) =~= all.take(i).push(all[i]));
            assert(entries.deep_view() =~= before.push(entry@));
            assert(rows_entries(all.take(i + 1)) =~= rows_entries(all.take(i)).push(
                row_entry(all[i]),
            ));
        }
    }
    proof {
        assert(all.take(all.len() as int) =~= all);
    }
    entries
}

/// An entry that a row lists last is one that the row's map allows.
proof fn lemma_row_entry_picks(row: Seq<StreamIdView>, entries: Map<Seq<char>, Map<Seq<char>, Value>>)
    requires
        lists_entries(row, entries),
    ensures
        picks_entry(row_entry(row), entries),
{
    if row.len() > 0 {
        let last = row.len() - 1;
        assert(entries.contains_key(row[last].id));
    } else {
        assert forall|id: Seq<char>| !entries.contains_key(id) by {
            if entries.contains_key(id) {
                let i = choose|i: int| 0 <= i < row.len() && #[trigger] row[i].id == id;
            }
        }
    }
}

/// A map of one entry allows that entry and no other.
pub proof fn lemma_single_entry_picked(
    entry: StreamIdView,
    id: Seq<char>,
    fields: Map<Seq<char>, Value>,
)
    ensures
        picks_entry(entry, Map::<Seq<char>, Map<Seq<char>, Value>>::empty().insert(id, fields))
            <==> entry == (StreamIdView { id, map: fields }),
{
    let entries = Map::<Seq<char>, Map<Seq<char>, Value>>::empty().insert(id, fields);
    assert(entries.contains_key(id));
}

/// Where each map of a reply holds one entry, as the replies of a server do,
/// the maps allow one list of entries only: the entries of the maps, in
/// order.
pub proof fn lemma_single_entries_picked(
    entries: Seq<StreamIdView>,
    maps: Seq<Map<Seq<char>, Map<Seq<char>, Value>>>,
    wanted: Seq<StreamIdView>,
)
    requires
        wanted.len() == maps.len(),
        forall|k: int|
            0 <= k < maps.len() ==> #[trigger] maps[k] == Map::<
                Seq<char>,
                Map<Seq<char>, Value>,
            >::empty().insert(wanted[k].id, wanted[k].map),
    ensures
        picks_entries(entries, maps) <==> entries == wanted,
{
    if picks_entries(entries, maps) {
        assert forall|k: int| 0 <= k < maps.len() implies entries[k] == wanted[k] by {
            lemma_single_entry_picked(entries[k], wanted[k].id, wanted[k].map);
        }
        assert(entries =~= wanted);
    }
    if entries == wanted {
        assert forall|k: int| 0 <= k < maps.len() implies picks_entry(
            #[trigger] entries[k],
            maps[k],
        ) by {
            lemma_single_entry_picked(entries[k], wanted[k].id, wanted[k].map);
        }
    }
}

/// The entries that the rows stand for are, row by row, entries that the maps
/// allow.
proof fn lemma_rows_entries_pick(
    rows: Seq<Seq<StreamIdView>>,
    maps: Seq<Map<Seq<char>, Map<Seq<char>, Value>>>,
)
    requires
        lists_rows(rows, maps),
    ensures
        picks_entries(rows_entries(rows), maps),
{
    assert forall|k: int| 0 <= k < maps.len() implies picks_entry(
        #[trigger] rows_entries(rows)[k],
        maps[k],
    ) by {
        assert(lists_entries(rows[k], maps[k]));
        lemma_row_entry_picks(rows[k], maps[k]);
    }
}

/// The entries are, row by row, entries that the maps allow.
pub open spec fn picks_entries(
    entries: Seq<StreamIdView>,
    maps: Seq<Map<Seq<char>, Map<Seq<char>, Value>>>,
) -> bool {
    &&& entries.len() == maps.len()
    &&& forall|k: int| 0 <= k < maps.len() ==> picks_entry(#[trigger] entries[k], maps[k])
}

/// What reading a reply as a list of entries gives: the error of `redis`
/// where it gives one; otherwise one entry for each row, each an entry that
/// the row's map allows.
pub open spec fn reads_entries(
    r: Result<Seq<StreamIdView>, StreamError>,
    wire: Result<Seq<Map<Seq<char>, Map<Seq<char>, Value>>>, redis::RedisError>,
) -> bool {
    match wire {
        Ok(maps) => r matches Ok(entries) && picks_entries(entries, maps),
        Err(e) => r == Err::<Seq<StreamIdView>, StreamError>(StreamError::Wire(e)),
    }
}

/// The entries of a range of one stream, in the order of the reply.
#[derive(Clone, Debug)]
pub struct StreamRangeReply {
    pub ids: Vec<StreamId>,
}

impl View for StreamRangeReply {
    type V = Seq<StreamIdView>;

    open spec fn view(&self) -> Seq<StreamIdView> {
        self.ids.deep_view()
    }
}

impl Default for StreamRangeReply {
    fn default() -> (reply: StreamRangeReply)
        ensures
            reply@ == Seq::<StreamIdView>::empty(),
    {
        let reply = StreamRangeReply { ids: Vec::new() };
        assert(reply@ =~= Seq::<StreamIdView>::empty());
        reply
    }
}

impl StreamRangeReply {
    /// The reply that the rows stand for: one entry for each row.
    pub fn from_rows(rows: Vec<Vec<StreamId>>) -> (reply: StreamRangeReply)
        ensures
            reply@ == rows_entries(rows.deep_view()),
    {
        StreamRangeReply { ids: take_rows_entries(rows) }
    }

    /// Reads the reply of a range command.
    pub fn from_redis_value(v: &Value) -> (r: Result<StreamRangeReply, StreamError>)
        ensures
            reads_entries(outcome(r), wire_entry_rows(*v)),
    {
        match read_entry_rows(v) {
            Ok(rows) => {
                proof {
                    lemma_rows_entries_pick(rows.deep_view(), wire_entry_rows(*v)->Ok_0);
                }
                Ok(StreamRangeReply::from_rows(rows))
            },
            Err(e) => Err(StreamError::Wire(e)),
        }
    }
}

/// The entries that a claim moved to the consumer, in the order of the reply.
#[derive(Clone, Debug)]
pub struct StreamClaimReply {
    pub ids: Vec<StreamId>,
}

impl View for StreamClaimReply {
    type V = Seq<StreamIdView>;

    open spec fn view(&self) -> Seq<StreamIdView> {
        self.ids.deep_view()
    }
}

impl Default for StreamClaimReply {
    fn default() -> (reply: StreamClaimReply)
        ensures
            reply@ == Seq::<StreamIdView>::empty(),
    {
        let reply = StreamClaimReply { ids: Vec::new() };
        assert(reply@ =~= Seq::<StreamIdView>::empty());
        reply
    }
}

impl StreamClaimReply {
    /// The reply that the rows stand for: one entry for each row.
    pub fn from_rows(rows: Vec<Vec<StreamId>>) -> (reply: StreamClaimReply)
        ensures
            reply@ == rows_entries(rows.deep_view()),
    {
        StreamClaimReply { ids: take_rows_entries(rows) }
    }

    /// Reads the reply of a claim that asked for entries.
    pub fn from_redis_value(v: &Value) -> (r: Result<StreamClaimReply, StreamError>)
        ensures
            reads_entries(outcome(r), wire_entry_rows(*v)),
    {
        match read_entry_rows(v) {
            Ok(rows) => {
                proof {
                    lemma_rows_entries_pick(rows.deep_view(), wire_entry_rows(*v)->Ok_0);
                }
                Ok(StreamClaimReply::from_rows(rows))
            },
            Err(e) => Err(StreamError::Wire(e)),
        }
    }
}

/// What a [`StreamKey`] holds: the name of a stream and entries of it.
pub struct StreamKeyView {
    pub key: Seq<char>,
    pub ids: Seq<StreamIdView>,
}

/// A stream and the entries read from it, in the order of the reply.
#[derive(Clone, Debug)]
pub struct StreamKey {
    pub key: String,
    pub ids: Vec<StreamId>,
}

impl View for StreamKey {
    type V = StreamKeyView;

    open spec fn view(&self) -> StreamKeyView {
        StreamKeyView { key: self.key@, ids: self.ids.deep_view() }
    }
}

impl DeepView for StreamKey {
    type V = StreamKeyView;

    open spec fn deep_view(&self) -> StreamKeyView {
        self@
    }
}

impl Default for StreamKey {
    fn default() -> (stream: StreamKey)
        ensures
            stream@ == (StreamKeyView { key: Seq::empty(), ids: Seq::empty() }),
    {
        let stream = StreamKey { key: String::new(), ids: Vec::new() };
        assert(stream@.ids =~= Seq::<StreamIdView>::empty());
        stream
    }
}

impl StreamKey {
    /// The ids of the entries, in order.
    pub fn just_ids(&self) -> (ids: Vec<&String>)
        ensures
            ids.len() == self.ids.len(),
            forall|i: int| 0 <= i < ids.len() ==> (#[trigger] ids[i])@ == self@.ids[i].id,
    {
        let mut ids: Vec<&String> = Vec::new();
        let mut i: usize = 0;
        while i < self.ids.len()
            invariant
                i <= self.ids.len(),
                ids.len() == i,
                forall|j: int| 0 <= j < i ==> (#[trigger] ids[j])@ == self@.ids[j].id,
            decreases self.ids.len() - i,
        {
            ids.push(&self.ids[i].id);
            i += 1;
        }
        ids
    }
}

/// The stream that a name and the rows of its entries stand for.
pub open spec fn stream_key(stream: (Seq<char>, Seq<Seq<StreamIdView>>)) -> StreamKeyView {
    StreamKeyView { key: stream.0, ids: rows_entries(stream.1) }
}

/// The streams that one row of a reply stands for, in the order of the row.
pub open spec fn row_keys(row: Seq<(Seq<char>, Seq<Seq<StreamIdView>>)>) -> Seq<StreamKeyView> {
    row.map_values(|stream: (Seq<char>, Seq<Seq<StreamIdView>>)| stream_key(stream))
}

/// The streams that the rows of a reply stand for: those of the first row,
/// then those of the second, and so on.
pub open spec fn rows_keys(rows: Seq<Seq<(Seq<char>, Seq<Seq<StreamIdView>>)>>) -> Seq<
    StreamKeyView,
> {
    rows.map_values(|row: Seq<(Seq<char>, Seq<Seq<StreamIdView>>)>| row_keys(row)).flatten()
}

/// What reading a reply as the entries of several streams gives: the error of
/// `redis` where it gives one; otherwise the streams that some listing of
/// the reply's maps stands for.
pub open spec fn reads_streams(
    r: Result<Seq<StreamKeyView>, StreamError>,
    wire: Result<
        Seq<Map<Seq<char>, Seq<Map<Seq<char>, Map<Seq<char>, Value>>>>>,
        redis::RedisError,
    >,
) -> bool {
    match wire {
        Ok(maps) => r matches Ok(keys) && exists|
            rows: Seq<Seq<(Seq<char>, Seq<Seq<StreamIdView>>)>>,
        | #[trigger] lists_stream_rows(rows, maps) && keys == rows_keys(rows),
        Err(e) => r == Err::<Seq<StreamKeyView>, StreamError>(StreamError::Wire(e)),
    }
}

/// The streams of a read and the entries read from each, in the order of the
/// reply. A stream without new entries may be missing.
#[derive(Clone, Debug)]
pub struct StreamReadReply {
    pub keys: Vec<StreamKey>,
}

impl View for StreamReadReply {
    type V = Seq<StreamKeyView>;

    open spec fn view(&self) -> Seq<StreamKeyView> {
        self.keys.deep_view()
    }
}

impl Default for StreamReadReply {
    fn default() -> (reply: StreamReadReply)
        ensures
            reply@ == Seq::<StreamKeyView>::empty(),
    {
        let reply = StreamReadReply { keys: Vec::new() };
        assert(reply@ =~= Seq::<StreamKeyView>::empty());
        reply
    }
}

impl StreamReadReply {
    /// The reply that the rows stand for: for each row its streams, each with
    /// one entry for each row of its own.
    pub fn from_rows(rows: Vec<Vec<(String, Vec<Vec<StreamId>>)>>) -> (reply: StreamReadReply)
        ensures
            reply@ == rows_keys(rows.deep_view()),
    {
        let ghost all = rows.deep_view();
        let ghost per_row = all.map_values(
            |row: Seq<(Seq<char>, Seq<Seq<StreamIdView>>)>| row_keys(row),
        );
        let mut keys: Vec<StreamKey> = Vec::new();
        proof {
            assert(per_row.take(0) =~= Seq::empty());
            assert(keys.deep_view() =~= per_row.take(0).flatten());
        }
        for row in it: rows
            invariant
                all == rows.deep_view(),
                per_row == all.map_values(
                    |row: Seq<(Seq<char>, Seq<Seq<StreamIdView>>)>| row_keys(row),
                ),
                keys.deep_view() == per_row.take(it.index() as int).flatten(),
        {
            let ghost i = it.index() as int;
            let ghost done = keys.deep_view();
            let ghost streams = row.deep_view();
            proof {
                assert(all[i] == streams);
                assert(keys.deep_view() =~= done + row_keys(streams.take(0)));
            }
            for stream in inner: row
                invariant
                    streams == row.deep_view(),
                    keys.deep_view() == done + row_keys(streams.take(inner.index() as int)),
            {
                let ghost j = inner.index() as int;
                let ghost before = keys.deep_view();
                let (key, entries) = stream;
                let ids = take_rows_entries(entries);
                let stream_key = StreamKey { key, ids };
                keys.push(stream_key);
                proof {
                    assert(streams[j] == stream.deep_view());
                    assert(streams.take(j + 1) =~= streams.take(j).push(streams[j]));
                    assert(keys.deep_view() =~= before.push(stream_key@));
                    assert(row_keys(streams.take(j + 1)) =~= row_keys(streams.take(j)).push(
                        stream_key@,
                    ));
                }
            }
            proof {
                assert(streams.take(streams.len() as int) =~= streams);
                assert(per_row.take(i + 1) =~= per_row.take(i).push(row_keys(streams)));
                per_row.take(i).lemma_flatten_push(row_keys(streams));
            }
        }
        proof {
            assert(per_row.take(all.len() as int) =~= per_row);
        }
        StreamReadReply { keys }
    }

    /// Reads the reply of a read.
    pub fn from_redis_value(v: &Value) -> (r: Result<StreamReadReply, StreamError>)
        ensures
            reads_streams(outcome(r), wire_stream_rows(*v)),
    {
        match read_stream_rows(v) {
            Ok(rows) => {
                proof {
                    assert(lists_stream_rows(rows.deep_view(), wire_stream_rows(*v)->Ok_0));
                }
                Ok(StreamReadReply::from_rows(rows))
            },
            Err(e) => Err(StreamError::Wire(e)),
        }
    }
}

/// Lists of one item each, put end to end, give the items in order.
proof fn lemma_flatten_singletons<A>(lists: Seq<Seq<A>>)
    requires
        forall|k: int| 0 <= k < lists.len() ==> (#[trigger] lists[k]).len() == 1,
    ensures
        lists.flatten().len() == lists.len(),
        forall|k: int| 0 <= k < lists.len() ==> lists.flatten()[k] == (#[trigger] lists[k])[0],
    decreases lists.len(),
{
    if lists.len() > 0 {
        let front = lists.drop_last();
        assert forall|k: int| 0 <= k < front.len() implies (#[trigger] front[k]).len() == 1 by {
            assert(front[k] == lists[k]);
        }
        lemma_flatten_singletons(front);
        front.lemma_flatten_push(lists.last());
        assert(front.push(lists.last()) =~= lists);
        assert forall|k: int| 0 <= k < lists.len() implies lists.flatten()[k] == (
        #[trigger] lists[k])[0] by {
            if k < front.len() {
                assert(front[k] == lists[k]);
            }
        }
    }
}

/// Where each map of a reply names one stream, as the replies of a server
/// do, reading the reply gives one stream for each map, in order: it has the
/// name that the map gives, and its entries are, row by row, entries that
/// the map's rows allow.
pub proof fn lemma_read_of_single_streams(
    keys: Seq<StreamKeyView>,
    maps: Seq<Map<Seq<char>, Seq<Map<Seq<char>, Map<Seq<char>, Value>>>>>,
    names: Seq<Seq<char>>,
    entries: Seq<Seq<Map<Seq<char>, Map<Seq<char>, Value>>>>,
)
    requires
        reads_streams(
            Ok(keys),
            Ok::<
                Seq<Map<Seq<char>, Seq<Map<Seq<char>, Map<Seq<char>, Value>>>>>,
                redis::RedisError,
            >(maps),
        ),
        names.len() == maps.len(),
        entries.len() == maps.len(),
        forall|k: int|
            0 <= k < maps.len() ==> #[trigger] maps[k] == Map::<
                Seq<char>,
                Seq<Map<Seq<char>, Map<Seq<char>, Value>>>,
            >::empty().insert(names[k], entries[k]),
    ensures
        keys.len() == maps.len(),
        forall|k: int|
            0 <= k < maps.len() ==> (#[trigger] keys[k]).key == names[k] && picks_entries(
                keys[k].ids,
                entries[k],
            ),
{
    let rows = choose|rows: Seq<Seq<(Seq<char>, Seq<Seq<StreamIdView>>)>>| #[trigger]
        lists_stream_rows(rows, maps) && keys == rows_keys(rows);
    let per_row = rows.map_values(|row: Seq<(Seq<char>, Seq<Seq<StreamIdView>>)>| row_keys(row));
    assert forall|k: int| 0 <= k < rows.len() implies (#[trigger] rows[k]).len() == 1
        && rows[k][0].0 == names[k] && lists_rows(rows[k][0].1, entries[k]) by {
        let row = rows[k];
        assert(lists_streams(row, maps[k]));
        assert(maps[k].contains_key(names[k]));
        let at = choose|i: int| 0 <= i < row.len() && #[trigger] row[i].0 == names[k];
        if row.len() > 1 {
            assert(maps[k].contains_key(row[0].0));
            assert(maps[k].contains_key(row[1].0));
            assert(row[0].0 != row[1].0);
        }
        assert(maps[k].contains_key(row[0].0));
    }
    assert forall|k: int| 0 <= k < per_row.len() implies (#[trigger] per_row[k]).len() == 1 by {
        assert(rows[k].len() == 1);
    }
    lemma_flatten_singletons(per_row);
    assert forall|k: int| 0 <= k < maps.len() implies (#[trigger] keys[k]).key == names[k]
        && picks_entries(keys[k].ids, entries[k]) by {
        assert(rows[k].len() == 1);
        assert(keys[k] == per_row[k][0]);
        assert(per_row[k][0] == stream_key(rows[k][0]));
        lemma_rows_entries_pick(rows[k][0].1, entries[k]);
    }
}

/// A reply without rows gives no stream.
pub proof fn lemma_read_of_no_rows(keys: Seq<StreamKeyView>)
    requires
        reads_streams(
            Ok(keys),
            Ok::<
                Seq<Map<Seq<char>, Seq<Map<Seq<char>, Map<Seq<char>, Value>>>>>,
                redis::RedisError,
            >(Seq::empty()),
        ),
    ensures
        keys == Seq::<StreamKeyView>::empty(),
{
    let maps = Seq::<Map<Seq<char>, Seq<Map<Seq<char>, Map<Seq<char>, Value>>>>>::empty();
    let rows = choose|rows: Seq<Seq<(Seq<char>, Seq<Seq<StreamIdView>>)>>| #[trigger]
        lists_stream_rows(rows, maps) && keys == rows_keys(rows);
    assert(rows.map_values(|row: Seq<(Seq<char>, Seq<Seq<StreamIdView>>)>| row_keys(row))
        =~= Seq::<Seq<StreamKeyView>>::empty());
    assert(keys =~= Seq::<StreamKeyView>::empty());
}

} // verus!
