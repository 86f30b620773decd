//! The replies of the commands that describe a stream, its groups and their
//! consumers.
//!
//! Each is read from a map of named fields. A field that the map lacks leaves
//! its part at zero or empty; a field that the rule does not know is ignored.
use vstd::prelude::*;
use redis::Value;
use crate::error::{collect, lemma_collect_error, lemma_collect_step, outcome, wire_outcome, StreamError};
use crate::fields::FieldMap;
use crate::types::{bulk_entry, StreamId, StreamIdView};
use crate::wire::{
    read_field_rows, read_fields, read_string, read_usize, wire_field_rows, wire_fields,
    wire_string, wire_usize,
};

verus! {

/// The text of the field `key`: empty where the map lacks the field.
pub open spec fn text_field(fields: Map<Seq<char>, Value>, key: Seq<char>) -> Result<
    Seq<char>,
    StreamError,
> {
    if fields.contains_key(key) {
        wire_outcome(wire_string(fields[key]))
    } else {
        Ok(Seq::empty())
    }
}

/// The number of the field `key`: zero where the map lacks the field.
pub open spec fn count_field(fields: Map<Seq<char>, Value>, key: Seq<char>) -> Result<
    usize,
    StreamError,
> {
    if fields.contains_key(key) {
        wire_outcome(wire_usize(fields[key]))
    } else {
        Ok(0)
    }
}

/// The entry of the field `key`: the empty entry where the map lacks the
/// field.
pub open spec fn entry_field(fields: Map<Seq<char>, Value>, key: Seq<char>) -> Result<
    StreamIdView,
    StreamError,
> {
    if fields.contains_key(key) {
        bulk_entry(fields[key])
    } else {
        Ok(StreamIdView::empty())
    }
}

fn read_text_field(fields: &FieldMap, key: &str) -> (r: Result<String, StreamError>)
    ensures
        outcome(r) == text_field(fields@, key@),
{
    match fields.get(key) {
        Some(v) => match read_string(v) {
            Ok(text) => Ok(text),
            Err(e) => Err(StreamError::Wire(e)),
        },
        None => Ok(String::new()),
    }
}

fn read_count_field(fields: &FieldMap, key: &str) -> (r: Result<usize, StreamError>)
    ensures
        r == count_field(fields@, key@),
{
    match fields.get(key) {
        Some(v) => match read_usize(v) {
            Ok(n) => Ok(n),
            Err(e) => Err(StreamError::Wire(e)),
        },
        None => Ok(0),
    }
}

fn read_entry_field(fields: &FieldMap, key: &str) -> (r: Result<StreamId, StreamError>)
    ensures
        outcome(r) == entry_field(fields@, key@),
{
    match fields.get(key) {
        Some(v) => StreamId::from_bulk_value(v),
        None => Ok(StreamId::default()),
    }
}

/// What a [`StreamInfoConsumer`] holds.
pub struct InfoConsumerView {
    pub name: Seq<char>,
    pub pending: usize,
    pub idle: usize,
}

/// A consumer of a group: its name, the number of entries delivered to it and
/// not yet acknowledged, and the milliseconds since it was last active.
#[derive(Clone, Debug)]
pub struct StreamInfoConsumer {
    pub name: String,
    pub pending: usize,
    pub idle: usize,
}

impl View for StreamInfoConsumer {
    type V = InfoConsumerView;

    open spec fn view(&self) -> InfoConsumerView {
        InfoConsumerView { name: self.name@, pending: self.pending, idle: self.idle }
    }
}

impl DeepView for StreamInfoConsumer {
    type V = InfoConsumerView;

    open spec fn deep_view(&self) -> InfoConsumerView {
        self@
    }
}

impl Default for StreamInfoConsumer {
    fn default() -> (consumer: StreamInfoConsumer)
        ensures
            consumer@ == (InfoConsumerView { name: Seq::empty(), pending: 0, idle: 0 }),
    {
        StreamInfoConsumer { name: String::new(), pending: 0, idle: 0 }
    }
}

/// The consumer that a map of fields stands for, read from the fields
/// `name`, `pending` and `idle`, in this order; the first field that `redis`
/// cannot read gives the error.
pub open spec fn info_consumer(fields: Map<Seq<char>, Value>) -> Result<
    InfoConsumerView,
    StreamError,
> {
    match text_field(fields, "name"@) {
        Ok(name) => match count_field(fields, "pending"@) {
            Ok(pending) => match count_field(fields, "idle"@) {
                Ok(idle) => Ok(InfoConsumerView { name, pending, idle }),
                Err(e) => Err(e),
            },
            Err(e) => Err(e),
        },
        Err(e) => Err(e),
    }
}

impl StreamInfoConsumer {
    /// Reads a consumer from its fields.
    pub fn from_fields(fields: &FieldMap) -> (r: Result<StreamInfoConsumer, StreamError>)
        ensures
            outcome(r) == info_consumer(fields@),
    {
        let name = match read_text_field(fields, "name") {
            Ok(name) => name,
            Err(e) => {
                return Err(e);
            },
        };
        let pending = match read_count_field(fields, "pending") {
            Ok(pending) => pending,
            Err(e) => {
                return Err(e);
            },
        };
        let idle = match read_count_field(fields, "idle") {
            Ok(idle) => idle,
            Err(e) => {
                return Err(e);
            },
        };
        Ok(StreamInfoConsumer { name, pending, idle })
    }
}

/// The consumers that the maps stand for, in order; the first map that
/// cannot be read gives the error.
pub open spec fn info_consumers(rows: Seq<Map<Seq<char>, Value>>) -> Result<
    Seq<InfoConsumerView>,
    StreamError,
> {
    collect(rows.map_values(|fields: Map<Seq<char>, Value>| info_consumer(fields)))
}

/// The consumers of a group, in the order of the reply.
#[derive(Clone, Debug)]
pub struct StreamInfoConsumersReply {
    pub consumers: Vec<StreamInfoConsumer>,
}

impl View for StreamInfoConsumersReply {
    type V = Seq<InfoConsumerView>;

    open spec fn view(&self) -> Seq<InfoConsumerView> {
        self.consumers.deep_view()
    }
}

impl Default for StreamInfoConsumersReply {
    fn default() -> (reply: StreamInfoConsumersReply)
        ensures
            reply@ == Seq::<InfoConsumerView>::empty(),
    {
        let reply = StreamInfoConsumersReply { consumers: Vec::new() };
        assert(reply@ =~= Seq::<InfoConsumerView>::empty());
        reply
    }
}

impl StreamInfoConsumersReply {
    /// The reply that the maps stand for: one consumer for each map.
    pub fn from_rows(rows: &Vec<FieldMap>) -> (r: Result<StreamInfoConsumersReply, StreamError>)
        ensures
            outcome(r) == info_consumers(rows.deep_view()),
    {
        let ghost results = rows.deep_view().map_values(
            |fields: Map<Seq<char>, Value>| info_consumer(fields),
        );
        let mut consumers: Vec<StreamInfoConsumer> = Vec::new();
        let mut i: usize = 0;
        proof {
            assert(results.take(0) =~= Seq::empty());
            assert(consumers.deep_view() =~= Seq::<InfoConsumerView>::empty());
        }
        while i < rows.len()
            invariant
                i <= rows.len(),
                results == rows.deep_view().map_values(
                    |fields: Map<Seq<char>, Value>| info_consumer(fields),
                ),
                collect(results.take(i as int)) == Ok::<Seq<InfoConsumerView>, StreamError>(
                    consumers.deep_view(),
                ),
            decreases rows.len() - i,
        {
            let ghost before = consumers.deep_view();
            proof {
                lemma_collect_step(results, i as int);
            }
            match StreamInfoConsumer::from_fields(&rows[i]) {
                Ok(consumer) => {
                    consumers.push(consumer);
                    proof {
                        assert(consumers.deep_view() =~= before.push(consumer@));
                    }
                },
                Err(e) => {
                    proof {
                        lemma_collect_error(results, i + 1);
                    }
                    return Err(e);
                },
            }
            i += 1;
        }
        proof {
            assert(results.take(rows.len() as int) =~= results);
        }
        Ok(StreamInfoConsumersReply { consumers })
    }

    /// Reads the reply of the command that lists the consumers of a group.
    pub fn from_redis_value(v: &Value) -> (r: Result<StreamInfoConsumersReply, StreamError>)
        ensures
            outcome(r) == match wire_field_rows(*v) {
                Ok(rows) => info_consumers(rows),
                Err(e) => Err(StreamError::Wire(e)),
            },
    {
        match read_field_rows(v) {
            Ok(rows) => StreamInfoConsumersReply::from_rows(&rows),
            Err(e) => Err(StreamError::Wire(e)),
        }
    }
}

/// What a [`StreamInfoGroup`] holds.
pub struct InfoGroupView {
    pub name: Seq<char>,
    pub consumers: usize,
    pub pending: usize,
    pub last_delivered_id: Seq<char>,
}

/// A consumer group of a stream: its name, the number of its consumers, the
/// number of entries delivered and not yet acknowledged, and the id of the
/// last entry delivered.
#[derive(Clone, Debug)]
pub struct StreamInfoGroup {
    pub name: String,
    pub consumers: usize,
    pub pending: usize,
    pub last_delivered_id: String,
}

impl View for StreamInfoGroup {
    type V = InfoGroupView;

    open spec fn view(&self) -> InfoGroupView {
        InfoGroupView {
            name: self.name@,
            consumers: self.consumers,
            pending: self.pending,
            last_delivered_id: self.last_delivered_id@,
        }
    }
}

impl DeepView for StreamInfoGroup {
    type V = InfoGroupView;

    open spec fn deep_view(&self) -> InfoGroupView {
        self@
    }
}

impl Default for StreamInfoGroup {
    fn default() -> (group: StreamInfoGroup)
        ensures
            group@ == (InfoGroupView {
                name: Seq::empty(),
                consumers: 0,
                pending: 0,
                last_delivered_id: Seq::empty(),
            }),
    {
        StreamInfoGroup {
            name: String::new(),
            consumers: 0,
            pending: 0,
            last_delivered_id: String::new(),
        }
    }
}

/// The group that a map of fields stands for, read from the fields `name`,
/// `pending`, `consumers` and `last-delivered-id`, in this order; the first
/// field that `redis` cannot read gives the error.
pub open spec fn info_group(fields: Map<Seq<char>, Value>) -> Result<InfoGroupView, StreamError> {
    match text_field(fields, "name"@) {
        Ok(name) => match count_field(fields, "pending"@) {
            Ok(pending) => match count_field(fields, "consumers"@) {
                Ok(consumers) => match text_field(fields, "last-delivered-id"@) {
                    Ok(last_delivered_id) => Ok(
                        InfoGroupView { name, consumers, pending, last_delivered_id },
                    ),
                    Err(e) => Err(e),
                },
                Err(e) => Err(e),
            },
            Err(e) => Err(e),
        },
        Err(e) => Err(e),
    }
}

impl StreamInfoGroup {
    /// Reads a group from its fields.
    pub fn from_fields(fields: &FieldMap) -> (r: Result<StreamInfoGroup, StreamError>)
        ensures
            outcome(r) == info_group(fields@),
    {
        let name = match read_text_field(fields, "name") {
            Ok(name) => name,
            Err(e) => {
                return Err(e);
            },
        };
        let pending = match read_count_field(fields, "pending") {
            Ok(pending) => pending,
            Err(e) => {
                return Err(e);
            },
        };
        let consumers = match read_count_field(fields, "consumers") {
            Ok(consumers) => consumers,
            Err(e) => {
                return Err(e);
            },
        };
        let last_delivered_id = match read_text_field(fields, "last-delivered-id") {
            Ok(id) => id,
            Err(e) => {
                return Err(e);
            },
        };
        Ok(StreamInfoGroup { name, consumers, pending, last_delivered_id })
    }
}

/// The groups that the maps stand for, in order; the first map that cannot be
/// read gives the error.
pub open spec fn info_groups(rows: Seq<Map<Seq<char>, Value>>) -> Result<
    Seq<InfoGroupView>,
    StreamError,
> {
    collect(rows.map_values(|fields: Map<Seq<char>, Value>| info_group(fields)))
}

/// The consumer groups of a stream, in the order of the reply.
#[derive(Clone, Debug)]
pub struct StreamInfoGroupsReply {
    pub groups: Vec<StreamInfoGroup>,
}

impl View for StreamInfoGroupsReply {
    type V = Seq<InfoGroupView>;

    open spec fn view(&self) -> Seq<InfoGroupView> {
        self.groups.deep_view()
    }
}

impl Default for StreamInfoGroupsReply {
    fn default() -> (reply: StreamInfoGroupsReply)
        ensures
            reply@ == Seq::<InfoGroupView>::empty(),
    {
        let reply = StreamInfoGroupsReply { groups: Vec::new() };
        assert(reply@ =~= Seq::<InfoGroupView>::empty());
        reply
    }
}

impl StreamInfoGroupsReply {
    /// The reply that the maps stand for: one group for each map.
    pub fn from_rows(rows: &Vec<FieldMap>) -> (r: Result<StreamInfoGroupsReply, StreamError>)
        ensures
            outcome(r) == info_groups(rows.deep_view()),
    {
        let ghost results = rows.deep_view().map_values(
            |fields: Map<Seq<char>, Value>| info_group(fields),
        );
        let mut groups: Vec<StreamInfoGroup> = Vec::new();
        let mut i: usize = 0;
        proof {
            assert(results.take(0) =~= Seq::empty());
            assert(groups.deep_view() =~= Seq::<InfoGroupView>::empty());
        }
        while i < rows.len()
            invariant
                i <= rows.len(),
                results == rows.deep_view().map_values(
                    |fields: Map<Seq<char>, Value>| info_group(fields),
                ),
                collect(results.take(i as int)) == Ok::<Seq<InfoGroupView>, StreamError>(
                    groups.deep_view(),
                ),
            decreases rows.len() - i,
        {
            let ghost before = groups.deep_view();
            proof {
                lemma_collect_step(results, i as int);
            }
            match StreamInfoGroup::from_fields(&rows[i]) {
                Ok(group) => {
                    groups.push(group);
                    proof {
                        assert(groups.deep_view() =~= before.push(group@));
                    }
                },
                Err(e) => {
                    proof {
                        lemma_collect_error(results, i + 1);
                    }
                    return Err(e);
                },
            }
            i += 1;
        }
        proof {
            assert(results.take(rows.len() as int) =~= results);
        }
        Ok(StreamInfoGroupsReply { groups })
    }

    /// Reads the reply of the command that lists the groups of a stream.
    pub fn from_redis_value(v: &Value) -> (r: Result<StreamInfoGroupsReply, StreamError>)
        ensures
            outcome(r) == match wire_field_rows(*v) {
                Ok(rows) => info_groups(rows),
                Err(e) => Err(StreamError::Wire(e)),
            },
    {
        match read_field_rows(v) {
            Ok(rows) => StreamInfoGroupsReply::from_rows(&rows),
            Err(e) => Err(StreamError::Wire(e)),
        }
    }
}

/// What a [`StreamInfoStreamReply`] holds.
pub struct InfoStreamView {
    pub last_generated_id: Seq<char>,
    pub radix_tree_keys: usize,
    pub groups: usize,
    pub length: usize,
    pub first_entry: StreamIdView,
    pub last_entry: StreamIdView,
}

/// A stream at a glance: the last id it generated, the number of nodes of its
/// index, the number of its groups, its length, and its first and last
/// entries.
#[derive(Clone, Debug)]
pub struct StreamInfoStreamReply {
    pub last_generated_id: String,
    pub radix_tree_keys: usize,
    pub groups: usize,
    pub length: usize,
    pub first_entry: StreamId,
    pub last_entry: StreamId,
}

impl View for StreamInfoStreamReply {
    type V = InfoStreamView;

    open spec fn view(&self) -> InfoStreamView {
        InfoStreamView {
            last_generated_id: self.last_generated_id@,
            radix_tree_keys: self.radix_tree_keys,
            groups: self.groups,
            length: self.length,
            first_entry: self.first_entry@,
            last_entry: self.last_entry@,
        }
    }
}

impl Default for StreamInfoStreamReply {
    fn default() -> (reply: StreamInfoStreamReply)
        ensures
            reply@ == (InfoStreamView {
                last_generated_id: Seq::empty(),
                radix_tree_keys: 0,
                groups: 0,
                length: 0,
                first_entry: StreamIdView::empty(),
                last_entry: StreamIdView::empty(),
            }),
    {
        StreamInfoStreamReply {
            last_generated_id: String::new(),
            radix_tree_keys: 0,
            groups: 0,
            length: 0,
            first_entry: StreamId::default(),
            last_entry: StreamId::default(),
        }
    }
}

/// The description of a stream that a map of fields stands for, read from
/// the fields `last-generated-id`, `radix-tree-nodes`, `groups`, `length`,
/// `first-entry` and `last-entry`, in this order; the first field that cannot
/// be read gives the error.
pub open spec fn info_stream(fields: Map<Seq<char>, Value>) -> Result<InfoStreamView, StreamError> {
    match text_field(fields, "last-generated-id"@) {
        Ok(last_generated_id) => match count_field(fields, "radix-tree-nodes"@) {
            Ok(radix_tree_keys) => match count_field(fields, "groups"@) {
                Ok(groups) => match count_field(fields, "length"@) {
                    Ok(length) => match entry_field(fields, "first-entry"@) {
                        Ok(first_entry) => match entry_field(fields, "last-entry"@) {
                            Ok(last_entry) => Ok(
                                InfoStreamView {
                                    last_generated_id,
                                    radix_tree_keys,
                                    groups,
                                    length,
                                    first_entry,
                                    last_entry,
                                },
                            ),
                            Err(e) => Err(e),
                        },
                        Err(e) => Err(e),
                    },
                    Err(e) => Err(e),
                },
                Err(e) => Err(e),
            },
            Err(e) => Err(e),
        },
        Err(e) => Err(e),
    }
}

impl StreamInfoStreamReply {
    /// Reads the description of a stream from its fields.
    pub fn from_fields(fields: &FieldMap) -> (r: Result<StreamInfoStreamReply, StreamError>)
        ensures
            outcome(r) == info_stream(fields@),
    {
        let last_generated_id = match read_text_field(fields, "last-generated-id") {
            Ok(id) => id,
            Err(e) => {
                return Err(e);
            },
        };
        let radix_tree_keys = match read_count_field(fields, "radix-tree-nodes") {
            Ok(n) => n,
            Err(e) => {
                return Err(e);
            },
        };
        let groups = match read_count_field(fields, "groups") {
            Ok(n) => n,
            Err(e) => {
                return Err(e);
            },
        };
        let length = match read_count_field(fields, "length") {
            Ok(n) => n,
            Err(e) => {
                return Err(e);
            },
        };
        let first_entry = match read_entry_field(fields, "first-entry") {
            Ok(entry) => entry,
            Err(e) => {
                return Err(e);
            },
        };
        let last_entry = match read_entry_field(fields, "last-entry") {
            Ok(entry) => entry,
            Err(e) => {
                return Err(e);
            },
        };
        Ok(
            StreamInfoStreamReply {
                last_generated_id,
                radix_tree_keys,
                groups,
                length,
                first_entry,
                last_entry,
            },
        )
    }

    /// Reads the reply of the command that describes a stream.
    pub fn from_redis_value(v: &Value) -> (r: Result<StreamInfoStreamReply, StreamError>)
        ensures
            outcome(r) == match wire_fields(*v) {
                Ok(fields) => info_stream(fields),
                Err(e) => Err(StreamError::Wire(e)),
            },
    {
        match read_fields(v) {
            Ok(fields) => StreamInfoStreamReply::from_fields(&fields),
            Err(e) => Err(StreamError::Wire(e)),
        }
    }
}

/// A field that the rule for consumers does not read changes nothing: with or
/// without it the same consumer is read, or the same error given.
pub proof fn lemma_consumer_ignores_unknown_field(
    fields: Map<Seq<char>, Value>,
    key: Seq<char>,
    value: Value,
)
    requires
        key != "name"@,
        key != "pending"@,
        key != "idle"@,
    ensures
        info_consumer(fields.insert(key, value)) == info_consumer(fields),
{
}

/// A field that the rule for groups does not read changes nothing: with or
/// without it the same group is read, or the same error given.
pub proof fn lemma_group_ignores_unknown_field(
    fields: Map<Seq<char>, Value>,
    key: Seq<char>,
    value: Value,
)
    requires
        key != "name"@,
        key != "pending"@,
        key != "consumers"@,
        key != "last-delivered-id"@,
    ensures
        info_group(fields.insert(key, value)) == info_group(fields),
{
}

/// A field that the rule for streams does not read changes nothing: with or
/// without it the same description is read, or the same error given.
pub proof fn lemma_stream_ignores_unknown_field(
    fields: Map<Seq<char>, Value>,
    key: Seq<char>,
    value: Value,
)
    requires
        key != "last-generated-id"@,
        key != "radix-tree-nodes"@,
        key != "groups"@,
        key != "length"@,
        key != "first-entry"@,
        key != "last-entry"@,
    ensures
        info_stream(fields.insert(key, value)) == info_stream(fields),
{
}

/// In a list of maps, a field that the rule for consumers does not read
/// changes nothing, in whichever map it stands.
pub proof fn lemma_consumers_ignore_unknown_field(
    rows: Seq<Map<Seq<char>, Value>>,
    at: int,
    key: Seq<char>,
    value: Value,
)
    requires
        0 <= at < rows.len(),
        key != "name"@,
        key != "pending"@,
        key != "idle"@,
    ensures
        info_consumers(rows.update(at, rows[at].insert(key, value))) == info_consumers(rows),
{
    lemma_consumer_ignores_unknown_field(rows[at], key, value);
    assert(rows.update(at, rows[at].insert(key, value)).map_values(
        |fields: Map<Seq<char>, Value>| info_consumer(fields),
    ) =~= rows.map_values(|fields: Map<Seq<char>, Value>| info_consumer(fields)));
}

/// In a list of maps, a field that the rule for groups does not read changes
/// nothing, in whichever map it stands.
pub proof fn lemma_groups_ignore_unknown_field(
    rows: Seq<Map<Seq<char>, Value>>,
    at: int,
    key: Seq<char>,
    value: Value,
)
    requires
        0 <= at < rows.len(),
        key != "name"@,
        key != "pending"@,
        key != "consumers"@,
        key != "last-delivered-id"@,
    ensures
        info_groups(rows.update(at, rows[at].insert(key, value))) == info_groups(rows),
{
    lemma_group_ignores_unknown_field(rows[at], key, value);
    assert(rows.update(at, rows[at].insert(key, value)).map_values(
        |fields: Map<Seq<char>, Value>| info_group(fields),
    ) =~= rows.map_values(|fields: Map<Seq<char>, Value>| info_group(fields)));
}

/// A description of a stream read from a map without the field `groups`
/// counts no group, and the missing field is no reason for an error: where
/// reading fails, another field failed.
pub proof fn lemma_stream_without_groups(fields: Map<Seq<char>, Value>)
    requires
        !fields.contains_key("groups"@),
    ensures
        info_stream(fields) matches Ok(info) ==> info.groups == 0,
        info_stream(fields) is Err ==> text_field(fields, "last-generated-id"@) is Err
            || count_field(fields, "radix-tree-nodes"@) is Err || count_field(
            fields,
            "length"@,
        ) is Err || entry_field(fields, "first-entry"@) is Err || entry_field(
            fields,
            "last-entry"@,
        ) is Err,
{
}

} // verus!
