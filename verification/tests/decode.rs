use redis::Value;
use redis_streams::{
    StreamClaimReply, StreamError, StreamId, StreamInfoConsumersReply, StreamInfoGroupsReply,
    StreamInfoStreamReply, StreamKey, StreamPendingCountReply, StreamPendingReply,
    StreamRangeReply, StreamReadReply,
};

fn data(text: &str) -> Value {
    Value::Data(text.as_bytes().to_vec())
}

fn bulk(items: Vec<Value>) -> Value {
    Value::Bulk(items)
}

fn entry(id: &str, fields: Vec<(&str, &str)>) -> Value {
    let mut flat = Vec::new();
    for (name, value) in fields {
        flat.push(data(name));
        flat.push(data(value));
    }
    bulk(vec![data(id), bulk(flat)])
}

#[test]
fn pending_summary_with_zero_count_is_empty() {
    let v = bulk(vec![Value::Int(0), Value::Nil, Value::Nil, bulk(vec![])]);
    let reply = StreamPendingReply::from_redis_value(&v).unwrap();
    assert!(matches!(reply, StreamPendingReply::Empty));
    assert_eq!(reply.count(), 0);
}

#[test]
fn pending_summary_with_zero_count_ignores_the_other_parts() {
    let v = bulk(vec![
        Value::Int(0),
        data("1-0"),
        data("2-0"),
        bulk(vec![bulk(vec![data("c1")])]),
    ]);
    let reply = StreamPendingReply::from_redis_value(&v).unwrap();
    assert!(matches!(reply, StreamPendingReply::Empty));
}

#[test]
fn pending_summary_with_data() {
    let v = bulk(vec![
        Value::Int(3),
        data("1-0"),
        data("3-0"),
        bulk(vec![bulk(vec![data("c1"), data("2")]), bulk(vec![data("c2"), data("1")])]),
    ]);
    let reply = StreamPendingReply::from_redis_value(&v).unwrap();
    assert_eq!(reply.count(), 3);
    match reply {
        StreamPendingReply::Data(d) => {
            assert_eq!(d.count, 3);
            assert_eq!(d.start_id, "1-0");
            assert_eq!(d.end_id, "3-0");
            assert_eq!(d.consumers.len(), 2);
            assert_eq!(d.consumers[0].name, "c1");
            assert_eq!(d.consumers[0].pending, 2);
            assert_eq!(d.consumers[0].idle, 0);
            assert_eq!(d.consumers[1].name, "c2");
            assert_eq!(d.consumers[1].pending, 1);
            assert_eq!(d.consumers[1].idle, 0);
        }
        StreamPendingReply::Empty => panic!("expected data"),
    }
}

#[test]
fn pending_summary_without_start_id_fails() {
    let v = bulk(vec![Value::Int(5), Value::Nil, data("9-0"), bulk(vec![])]);
    let r = StreamPendingReply::from_redis_value(&v);
    assert!(matches!(r, Err(StreamError::MissingStartId)));
}

#[test]
fn pending_summary_without_end_id_fails() {
    let v = bulk(vec![Value::Int(5), data("1-0"), Value::Nil, bulk(vec![])]);
    let r = StreamPendingReply::from_redis_value(&v);
    assert!(matches!(r, Err(StreamError::MissingEndId)));
}

#[test]
fn pending_summary_without_both_ids_reports_the_start_id() {
    let v = bulk(vec![Value::Int(1), Value::Nil, Value::Nil, bulk(vec![])]);
    let r = StreamPendingReply::from_redis_value(&v);
    assert!(matches!(r, Err(StreamError::MissingStartId)));
}

#[test]
fn pending_summary_count_that_is_no_number_counts_as_zero() {
    let v = bulk(vec![
        Value::Int(2),
        data("1-0"),
        data("2-0"),
        bulk(vec![bulk(vec![data("c1"), data("many")]), bulk(vec![data("c2"), data("")])]),
    ]);
    match StreamPendingReply::from_redis_value(&v).unwrap() {
        StreamPendingReply::Data(d) => {
            assert_eq!(d.consumers.len(), 2);
            assert_eq!(d.consumers[0].name, "c1");
            assert_eq!(d.consumers[0].pending, 0);
            assert_eq!(d.consumers[1].pending, 0);
        }
        StreamPendingReply::Empty => panic!("expected data"),
    }
}

#[test]
fn pending_summary_row_with_one_text_is_incomplete() {
    let v = bulk(vec![
        Value::Int(2),
        data("1-0"),
        data("2-0"),
        bulk(vec![bulk(vec![data("c1"), data("1")]), bulk(vec![data("c2")])]),
    ]);
    let r = StreamPendingReply::from_redis_value(&v);
    assert!(matches!(r, Err(StreamError::IncompleteRow)));
}

#[test]
fn pending_summary_of_wrong_arity_is_a_wire_error() {
    let v = bulk(vec![Value::Int(2), data("1-0")]);
    let r = StreamPendingReply::from_redis_value(&v);
    assert!(matches!(r, Err(StreamError::Wire(_))));
}

#[test]
fn pending_summary_from_parts() {
    let rows = vec![vec!["c1".to_string(), "7".to_string(), "extra".to_string()]];
    let r = StreamPendingReply::from_parts(
        4,
        Some("a".to_string()),
        Some("b".to_string()),
        &rows,
    )
    .unwrap();
    match r {
        StreamPendingReply::Data(d) => {
            assert_eq!(d.count, 4);
            assert_eq!(d.start_id, "a");
            assert_eq!(d.end_id, "b");
            assert_eq!(d.consumers.len(), 1);
            assert_eq!(d.consumers[0].pending, 7);
        }
        StreamPendingReply::Empty => panic!("expected data"),
    }
    let r = StreamPendingReply::from_parts(4, None, None, &rows);
    assert!(matches!(r, Err(StreamError::MissingStartId)));
    let r = StreamPendingReply::from_parts(0, None, None, &rows).unwrap();
    assert_eq!(r.count(), 0);
}

#[test]
fn pending_summary_default_is_empty() {
    assert!(matches!(StreamPendingReply::default(), StreamPendingReply::Empty));
}

#[test]
fn pending_detail_rows() {
    let v = bulk(vec![
        bulk(vec![data("1-0"), data("c1"), Value::Int(1500), Value::Int(2)]),
        bulk(vec![data("2-0"), data("c2"), data("30"), data("1")]),
    ]);
    let reply = StreamPendingCountReply::from_redis_value(&v).unwrap();
    assert_eq!(reply.ids.len(), 2);
    assert_eq!(reply.ids[0].id, "1-0");
    assert_eq!(reply.ids[0].consumer, "c1");
    assert_eq!(reply.ids[0].last_delivered_ms, 1500);
    assert_eq!(reply.ids[0].times_delivered, 2);
    assert_eq!(reply.ids[1].id, "2-0");
    assert_eq!(reply.ids[1].consumer, "c2");
    assert_eq!(reply.ids[1].last_delivered_ms, 30);
    assert_eq!(reply.ids[1].times_delivered, 1);
}

#[test]
fn pending_detail_without_rows() {
    let reply = StreamPendingCountReply::from_redis_value(&bulk(vec![])).unwrap();
    assert!(reply.ids.is_empty());
}

#[test]
fn pending_detail_empty_row_is_incomplete() {
    let v = bulk(vec![
        bulk(vec![data("1-0"), data("c1"), Value::Int(1), Value::Int(1)]),
        bulk(vec![]),
    ]);
    let r = StreamPendingCountReply::from_redis_value(&v);
    assert!(matches!(r, Err(StreamError::IncompleteRow)));
}

#[test]
fn pending_detail_from_rows() {
    let rows = vec![
        vec![("1-0".to_string(), "c".to_string(), 5usize, 6usize)],
        vec![
            ("2-0".to_string(), "d".to_string(), 7usize, 8usize),
            ("3-0".to_string(), "e".to_string(), 9usize, 10usize),
        ],
    ];
    let reply = StreamPendingCountReply::from_rows(&rows).unwrap();
    assert_eq!(reply.ids.len(), 2);
    assert_eq!(reply.ids[0].id, "1-0");
    assert_eq!(reply.ids[1].id, "2-0");
    assert_eq!(reply.ids[1].consumer, "d");
    assert_eq!(reply.ids[1].last_delivered_ms, 7);
    assert_eq!(reply.ids[1].times_delivered, 8);
}

#[test]
fn pending_detail_that_is_no_list_is_a_wire_error() {
    let r = StreamPendingCountReply::from_redis_value(&Value::Int(3));
    assert!(matches!(r, Err(StreamError::Wire(_))));
}

#[test]
fn read_reply_with_one_stream_and_two_entries() {
    let v = bulk(vec![bulk(vec![
        data("s1"),
        bulk(vec![entry("1-0", vec![("a", "1")]), entry("2-0", vec![("b", "2")])]),
    ])]);
    let reply = StreamReadReply::from_redis_value(&v).unwrap();
    assert_eq!(reply.keys.len(), 1);
    let key: &StreamKey = &reply.keys[0];
    assert_eq!(key.key, "s1");
    assert_eq!(key.ids.len(), 2);
    assert_eq!(key.ids[0].id, "1-0");
    assert_eq!(key.ids[0].len(), 1);
    assert_eq!(key.ids[0].find(&"a"), Some(&data("1")));
    assert_eq!(key.ids[0].find(&"b"), None);
    assert_eq!(key.ids[1].id, "2-0");
    assert_eq!(key.ids[1].len(), 1);
    assert_eq!(key.ids[1].find(&"b"), Some(&data("2")));
    assert_eq!(key.just_ids(), vec![&"1-0".to_string(), &"2-0".to_string()]);
}

#[test]
fn read_reply_with_two_streams_keeps_their_order() {
    let v = bulk(vec![
        bulk(vec![data("s2"), bulk(vec![entry("5-1", vec![("x", "y"), ("z", "w")])])]),
        bulk(vec![data("s1"), bulk(vec![])]),
    ]);
    let reply = StreamReadReply::from_redis_value(&v).unwrap();
    assert_eq!(reply.keys.len(), 2);
    assert_eq!(reply.keys[0].key, "s2");
    assert_eq!(reply.keys[0].ids.len(), 1);
    assert_eq!(reply.keys[0].ids[0].id, "5-1");
    assert_eq!(reply.keys[0].ids[0].len(), 2);
    assert_eq!(reply.keys[0].ids[0].find(&"x"), Some(&data("y")));
    assert_eq!(reply.keys[0].ids[0].find(&"z"), Some(&data("w")));
    assert_eq!(reply.keys[1].key, "s1");
    assert!(reply.keys[1].ids.is_empty());
}

#[test]
fn read_reply_without_streams_is_empty() {
    let reply = StreamReadReply::from_redis_value(&bulk(vec![])).unwrap();
    assert!(reply.keys.is_empty());
    let reply = StreamReadReply::from_redis_value(&Value::Nil).unwrap();
    assert!(reply.keys.is_empty());
}

#[test]
fn read_reply_row_without_stream_adds_nothing() {
    let v = bulk(vec![bulk(vec![]), bulk(vec![data("s1"), bulk(vec![entry("1-0", vec![])])])]);
    let reply = StreamReadReply::from_redis_value(&v).unwrap();
    assert_eq!(reply.keys.len(), 1);
    assert_eq!(reply.keys[0].key, "s1");
    assert_eq!(reply.keys[0].ids.len(), 1);
    assert_eq!(reply.keys[0].ids[0].len(), 0);
}

#[test]
fn read_reply_that_is_no_list_is_a_wire_error() {
    let r = StreamReadReply::from_redis_value(&Value::Int(1));
    assert!(matches!(r, Err(StreamError::Wire(_))));
    let r = StreamReadReply::from_redis_value(&Value::Okay);
    assert!(matches!(r, Err(StreamError::Wire(_))));
}

#[test]
fn read_reply_from_rows() {
    let e = StreamId::from_bulk_value(&entry("1-0", vec![("a", "1")])).unwrap();
    let f = StreamId::from_bulk_value(&entry("2-0", vec![("b", "2")])).unwrap();
    let rows = vec![
        vec![("s1".to_string(), vec![vec![e], vec![]])],
        vec![],
        vec![("s2".to_string(), vec![vec![f]]), ("s3".to_string(), vec![])],
    ];
    let reply = StreamReadReply::from_rows(rows);
    assert_eq!(reply.keys.len(), 3);
    assert_eq!(reply.keys[0].key, "s1");
    assert_eq!(reply.keys[0].ids.len(), 2);
    assert_eq!(reply.keys[0].ids[0].id, "1-0");
    assert_eq!(reply.keys[0].ids[1].id, "");
    assert_eq!(reply.keys[0].ids[1].len(), 0);
    assert_eq!(reply.keys[1].key, "s2");
    assert_eq!(reply.keys[1].ids[0].id, "2-0");
    assert_eq!(reply.keys[2].key, "s3");
    assert!(reply.keys[2].ids.is_empty());
}

#[test]
fn range_reply_entries_in_order() {
    let v = bulk(vec![
        entry("1-0", vec![("a", "1")]),
        entry("1-1", vec![("a", "2"), ("b", "3")]),
        entry("2-0", vec![]),
    ]);
    let reply = StreamRangeReply::from_redis_value(&v).unwrap();
    assert_eq!(reply.ids.len(), 3);
    assert_eq!(reply.ids[0].id, "1-0");
    assert_eq!(reply.ids[0].find(&"a"), Some(&data("1")));
    assert_eq!(reply.ids[1].id, "1-1");
    assert_eq!(reply.ids[1].len(), 2);
    assert_eq!(reply.ids[1].find(&"a"), Some(&data("2")));
    assert_eq!(reply.ids[1].find(&"b"), Some(&data("3")));
    assert_eq!(reply.ids[2].id, "2-0");
    assert_eq!(reply.ids[2].len(), 0);
}

#[test]
fn range_reply_empty_row_gives_the_empty_entry() {
    let v = bulk(vec![bulk(vec![]), entry("3-0", vec![("k", "v")])]);
    let reply = StreamRangeReply::from_redis_value(&v).unwrap();
    assert_eq!(reply.ids.len(), 2);
    assert_eq!(reply.ids[0].id, "");
    assert_eq!(reply.ids[0].len(), 0);
    assert_eq!(reply.ids[1].id, "3-0");
}

#[test]
fn range_reply_without_rows_is_empty() {
    let reply = StreamRangeReply::from_redis_value(&bulk(vec![])).unwrap();
    assert!(reply.ids.is_empty());
}

#[test]
fn range_reply_that_is_no_list_is_a_wire_error() {
    let r = StreamRangeReply::from_redis_value(&Value::Status("x".to_string()));
    assert!(matches!(r, Err(StreamError::Wire(_))));
}

#[test]
fn range_reply_from_rows_takes_the_last_of_each_row() {
    let a = StreamId::from_bulk_value(&entry("1-0", vec![])).unwrap();
    let b = StreamId::from_bulk_value(&entry("2-0", vec![])).unwrap();
    let c = StreamId::from_bulk_value(&entry("3-0", vec![])).unwrap();
    let reply = StreamRangeReply::from_rows(vec![vec![a, b], vec![], vec![c]]);
    assert_eq!(reply.ids.len(), 3);
    assert_eq!(reply.ids[0].id, "2-0");
    assert_eq!(reply.ids[1].id, "");
    assert_eq!(reply.ids[2].id, "3-0");
}

#[test]
fn claim_reply_entries_in_order() {
    let v = bulk(vec![entry("7-0", vec![("f", "g")]), entry("8-0", vec![("h", "i")])]);
    let reply = StreamClaimReply::from_redis_value(&v).unwrap();
    assert_eq!(reply.ids.len(), 2);
    assert_eq!(reply.ids[0].id, "7-0");
    assert_eq!(reply.ids[0].find(&"f"), Some(&data("g")));
    assert_eq!(reply.ids[1].id, "8-0");
    assert_eq!(reply.ids[1].find(&"h"), Some(&data("i")));
}

#[test]
fn claim_reply_that_is_no_list_is_a_wire_error() {
    let r = StreamClaimReply::from_redis_value(&Value::Int(0));
    assert!(matches!(r, Err(StreamError::Wire(_))));
}

#[test]
fn claim_reply_from_rows() {
    let a = StreamId::from_bulk_value(&entry("1-0", vec![])).unwrap();
    let reply = StreamClaimReply::from_rows(vec![vec![a]]);
    assert_eq!(reply.ids.len(), 1);
    assert_eq!(reply.ids[0].id, "1-0");
}

#[test]
fn entry_from_two_items() {
    let e = StreamId::from_bulk_value(&entry("9-9", vec![("a", "b"), ("c", "d")])).unwrap();
    assert_eq!(e.id, "9-9");
    assert_eq!(e.len(), 2);
    assert!(e.contains_key(&"a"));
    assert!(e.contains_key(&"c"));
    assert!(!e.contains_key(&"b"));
    assert_eq!(e.find(&"c"), Some(&data("d")));
    assert_eq!(e.map.get("a"), Some(&data("b")));
    assert!(!e.map.is_empty());
}

#[test]
fn entry_from_one_item_has_no_fields() {
    let e = StreamId::from_bulk_value(&bulk(vec![data("4-2")])).unwrap();
    assert_eq!(e.id, "4-2");
    assert_eq!(e.len(), 0);
    assert!(e.map.is_empty());
}

#[test]
fn entry_from_no_item_or_no_list_is_empty() {
    let e = StreamId::from_bulk_value(&bulk(vec![])).unwrap();
    assert_eq!(e.id, "");
    assert_eq!(e.len(), 0);
    let e = StreamId::from_bulk_value(&Value::Nil).unwrap();
    assert_eq!(e.id, "");
    assert_eq!(e.len(), 0);
    let e = StreamId::from_bulk_value(&Value::Int(4)).unwrap();
    assert_eq!(e.id, "");
}

#[test]
fn entry_whose_id_is_no_text_is_a_wire_error() {
    let r = StreamId::from_bulk_value(&bulk(vec![Value::Int(1), bulk(vec![])]));
    assert!(matches!(r, Err(StreamError::Wire(_))));
}

#[test]
fn entry_whose_fields_are_no_list_is_a_wire_error() {
    let r = StreamId::from_bulk_value(&bulk(vec![data("1-0"), Value::Int(1)]));
    assert!(matches!(r, Err(StreamError::Wire(_))));
}

#[test]
fn entry_clone_keeps_id_and_fields() {
    let e = StreamId::from_bulk_value(&entry("9-9", vec![("a", "b")])).unwrap();
    let copy = e.clone();
    assert_eq!(copy.id, "9-9");
    assert_eq!(copy.len(), 1);
    assert_eq!(copy.find(&"a"), Some(&data("b")));
}

#[test]
fn entry_default_is_empty() {
    let e = StreamId::default();
    assert_eq!(e.id, "");
    assert_eq!(e.len(), 0);
    assert_eq!(e.find(&"a"), None);
}

fn stream_info(extra: Vec<(&str, Value)>, with_groups: bool) -> Value {
    let mut flat = vec![
        data("length"),
        Value::Int(2),
        data("radix-tree-nodes"),
        Value::Int(1),
        data("last-generated-id"),
        data("2-0"),
        data("first-entry"),
        entry("1-0", vec![("a", "1")]),
        data("last-entry"),
        entry("2-0", vec![("b", "2")]),
    ];
    if with_groups {
        flat.push(data("groups"));
        flat.push(Value::Int(3));
    }
    for (name, value) in extra {
        flat.push(data(name));
        flat.push(value);
    }
    bulk(flat)
}

#[test]
fn stream_info_with_all_fields() {
    let reply = StreamInfoStreamReply::from_redis_value(&stream_info(vec![], true)).unwrap();
    assert_eq!(reply.last_generated_id, "2-0");
    assert_eq!(reply.radix_tree_keys, 1);
    assert_eq!(reply.groups, 3);
    assert_eq!(reply.length, 2);
    assert_eq!(reply.first_entry.id, "1-0");
    assert_eq!(reply.first_entry.find(&"a"), Some(&data("1")));
    assert_eq!(reply.last_entry.id, "2-0");
    assert_eq!(reply.last_entry.find(&"b"), Some(&data("2")));
}

#[test]
fn stream_info_without_groups_counts_none() {
    let reply = StreamInfoStreamReply::from_redis_value(&stream_info(vec![], false)).unwrap();
    assert_eq!(reply.groups, 0);
    assert_eq!(reply.length, 2);
    assert_eq!(reply.last_generated_id, "2-0");
}

#[test]
fn stream_info_without_any_field_is_the_default() {
    let reply = StreamInfoStreamReply::from_redis_value(&bulk(vec![])).unwrap();
    assert_eq!(reply.last_generated_id, "");
    assert_eq!(reply.radix_tree_keys, 0);
    assert_eq!(reply.groups, 0);
    assert_eq!(reply.length, 0);
    assert_eq!(reply.first_entry.id, "");
    assert_eq!(reply.first_entry.len(), 0);
    assert_eq!(reply.last_entry.id, "");
}

#[test]
fn stream_info_ignores_unknown_fields() {
    let extra = vec![("max-deleted-entry-id", data("0-0")), ("entries-added", Value::Int(9))];
    let reply = StreamInfoStreamReply::from_redis_value(&stream_info(extra, true)).unwrap();
    assert_eq!(reply.last_generated_id, "2-0");
    assert_eq!(reply.radix_tree_keys, 1);
    assert_eq!(reply.groups, 3);
    assert_eq!(reply.length, 2);
    assert_eq!(reply.first_entry.id, "1-0");
    assert_eq!(reply.last_entry.id, "2-0");
}

#[test]
fn stream_info_field_of_wrong_kind_is_a_wire_error() {
    let v = bulk(vec![data("length"), bulk(vec![])]);
    let r = StreamInfoStreamReply::from_redis_value(&v);
    assert!(matches!(r, Err(StreamError::Wire(_))));
}

#[test]
fn stream_info_that_is_no_list_is_a_wire_error() {
    let r = StreamInfoStreamReply::from_redis_value(&Value::Nil);
    assert!(matches!(r, Err(StreamError::Wire(_))));
}

#[test]
fn consumers_info_rows() {
    let v = bulk(vec![
        bulk(vec![data("name"), data("c1"), data("pending"), Value::Int(2), data("idle"), Value::Int(900)]),
        bulk(vec![data("idle"), data("5"), data("name"), data("c2")]),
    ]);
    let reply = StreamInfoConsumersReply::from_redis_value(&v).unwrap();
    assert_eq!(reply.consumers.len(), 2);
    assert_eq!(reply.consumers[0].name, "c1");
    assert_eq!(reply.consumers[0].pending, 2);
    assert_eq!(reply.consumers[0].idle, 900);
    assert_eq!(reply.consumers[1].name, "c2");
    assert_eq!(reply.consumers[1].pending, 0);
    assert_eq!(reply.consumers[1].idle, 5);
}

#[test]
fn consumers_info_ignores_unknown_fields() {
    let v = bulk(vec![bulk(vec![
        data("name"),
        data("c1"),
        data("inactive"),
        Value::Int(77),
        data("pending"),
        Value::Int(2),
    ])]);
    let reply = StreamInfoConsumersReply::from_redis_value(&v).unwrap();
    assert_eq!(reply.consumers.len(), 1);
    assert_eq!(reply.consumers[0].name, "c1");
    assert_eq!(reply.consumers[0].pending, 2);
    assert_eq!(reply.consumers[0].idle, 0);
}

#[test]
fn consumers_info_field_of_wrong_kind_is_a_wire_error() {
    let v = bulk(vec![bulk(vec![data("name"), data("c1"), data("pending"), data("x")])]);
    let r = StreamInfoConsumersReply::from_redis_value(&v);
    assert!(matches!(r, Err(StreamError::Wire(_))));
}

#[test]
fn consumers_info_without_rows_is_empty() {
    let reply = StreamInfoConsumersReply::from_redis_value(&bulk(vec![])).unwrap();
    assert!(reply.consumers.is_empty());
}

#[test]
fn groups_info_rows() {
    let v = bulk(vec![
        bulk(vec![
            data("name"),
            data("g1"),
            data("consumers"),
            Value::Int(2),
            data("pending"),
            Value::Int(4),
            data("last-delivered-id"),
            data("6-0"),
        ]),
        bulk(vec![data("name"), data("g2")]),
    ]);
    let reply = StreamInfoGroupsReply::from_redis_value(&v).unwrap();
    assert_eq!(reply.groups.len(), 2);
    assert_eq!(reply.groups[0].name, "g1");
    assert_eq!(reply.groups[0].consumers, 2);
    assert_eq!(reply.groups[0].pending, 4);
    assert_eq!(reply.groups[0].last_delivered_id, "6-0");
    assert_eq!(reply.groups[1].name, "g2");
    assert_eq!(reply.groups[1].consumers, 0);
    assert_eq!(reply.groups[1].pending, 0);
    assert_eq!(reply.groups[1].last_delivered_id, "");
}

#[test]
fn groups_info_ignores_unknown_fields() {
    let v = bulk(vec![bulk(vec![
        data("lag"),
        Value::Nil,
        data("name"),
        data("g1"),
        data("entries-read"),
        Value::Int(100),
        data("consumers"),
        Value::Int(1),
    ])]);
    let reply = StreamInfoGroupsReply::from_redis_value(&v).unwrap();
    assert_eq!(reply.groups.len(), 1);
    assert_eq!(reply.groups[0].name, "g1");
    assert_eq!(reply.groups[0].consumers, 1);
    assert_eq!(reply.groups[0].pending, 0);
}

#[test]
fn groups_info_field_of_wrong_kind_is_a_wire_error() {
    let v = bulk(vec![bulk(vec![data("last-delivered-id"), Value::Int(3)])]);
    let r = StreamInfoGroupsReply::from_redis_value(&v);
    assert!(matches!(r, Err(StreamError::Wire(_))));
}

#[test]
fn field_map_insert_and_lookup() {
    let mut fields = redis_streams::FieldMap::new();
    assert!(fields.is_empty());
    assert_eq!(fields.len(), 0);
    fields.insert("a".to_string(), Value::Int(1));
    fields.insert("b".to_string(), Value::Int(2));
    assert_eq!(fields.len(), 2);
    assert_eq!(fields.get("a"), Some(&Value::Int(1)));
    assert_eq!(fields.get("b"), Some(&Value::Int(2)));
    assert_eq!(fields.get("c"), None);
    assert!(fields.contains_key("b"));
    assert!(!fields.contains_key(""));
    fields.insert("a".to_string(), Value::Okay);
    assert_eq!(fields.len(), 2);
    assert_eq!(fields.get("a"), Some(&Value::Okay));
    assert_eq!(fields.get("b"), Some(&Value::Int(2)));
    assert_eq!(fields.entries().len(), 2);
}

#[test]
fn field_map_clone_keeps_every_field() {
    let mut fields = redis_streams::FieldMap::new();
    fields.insert("a".to_string(), data("x"));
    fields.insert("b".to_string(), bulk(vec![Value::Nil]));
    let copy = fields.clone();
    fields.insert("a".to_string(), Value::Nil);
    assert_eq!(copy.len(), 2);
    assert_eq!(copy.get("a"), Some(&data("x")));
    assert_eq!(copy.get("b"), Some(&bulk(vec![Value::Nil])));
}

#[test]
fn field_map_of_a_reply_with_a_repeated_name_keeps_the_later_value() {
    let v = bulk(vec![data("1-0"), bulk(vec![data("a"), data("1"), data("a"), data("2")])]);
    let e = StreamId::from_bulk_value(&v).unwrap();
    assert_eq!(e.len(), 1);
    assert_eq!(e.find(&"a"), Some(&data("2")));
}

#[test]
fn error_messages() {
    assert_eq!(
        StreamError::MissingStartId.message(),
        Some("IllegalState: Non-zero pending expects start id")
    );
    assert_eq!(
        StreamError::MissingEndId.message(),
        Some("IllegalState: Non-zero pending expects end id")
    );
    assert!(StreamError::IncompleteRow.message().is_some());
    match StreamRangeReply::from_redis_value(&Value::Int(1)) {
        Err(e) => {
            assert!(matches!(e, StreamError::Wire(_)));
            assert_eq!(e.message(), None);
        }
        Ok(_) => panic!("expected an error"),
    }
}

#[test]
fn entry_from_items() {
    let e = StreamId::from_items(&vec![]).unwrap();
    assert_eq!(e.id, "");
    assert_eq!(e.len(), 0);
    let e = StreamId::from_items(&vec![data("1-1")]).unwrap();
    assert_eq!(e.id, "1-1");
    assert_eq!(e.len(), 0);
    let items = vec![data("1-2"), bulk(vec![data("k"), data("v")]), Value::Int(7)];
    let e = StreamId::from_items(&items).unwrap();
    assert_eq!(e.id, "1-2");
    assert_eq!(e.len(), 1);
    assert_eq!(e.find(&"k"), Some(&data("v")));
    let r = StreamId::from_items(&vec![Value::Nil]);
    assert!(matches!(r, Err(StreamError::Wire(_))));
}

fn wire_text(r: Result<StreamInfoConsumersReply, StreamError>) -> String {
    match r {
        Err(StreamError::Wire(e)) => format!("{}", e),
        Err(_) => panic!("expected an error of redis"),
        Ok(_) => panic!("expected an error"),
    }
}

#[test]
fn consumers_info_first_row_that_fails_gives_the_error() {
    let v = bulk(vec![
        bulk(vec![data("name"), data("c0")]),
        bulk(vec![data("pending"), data("first")]),
        bulk(vec![data("pending"), data("second")]),
    ]);
    let text = wire_text(StreamInfoConsumersReply::from_redis_value(&v));
    assert!(text.contains("first"), "{}", text);
    assert!(!text.contains("second"), "{}", text);
}

#[test]
fn consumers_info_first_field_that_fails_gives_the_error() {
    let v = bulk(vec![bulk(vec![
        data("idle"),
        data("third"),
        data("pending"),
        data("second"),
        data("name"),
        Value::Int(1),
    ])]);
    let text = wire_text(StreamInfoConsumersReply::from_redis_value(&v));
    assert!(text.contains("int(1)"), "{}", text);
    let v = bulk(vec![bulk(vec![
        data("idle"),
        data("third"),
        data("pending"),
        data("second"),
        data("name"),
        data("c"),
    ])]);
    let text = wire_text(StreamInfoConsumersReply::from_redis_value(&v));
    assert!(text.contains("second"), "{}", text);
    assert!(!text.contains("third"), "{}", text);
}

#[test]
fn stream_info_reads_its_fields_in_a_fixed_order() {
    let v = bulk(vec![
        data("last-entry"),
        bulk(vec![Value::Int(6)]),
        data("first-entry"),
        bulk(vec![Value::Int(5)]),
        data("length"),
        data("four"),
        data("groups"),
        data("three"),
    ]);
    match StreamInfoStreamReply::from_redis_value(&v) {
        Err(StreamError::Wire(e)) => {
            let text = format!("{}", e);
            assert!(text.contains("three"), "{}", text);
        }
        _ => panic!("expected an error of redis"),
    }
    let v = bulk(vec![
        data("last-entry"),
        bulk(vec![Value::Int(6)]),
        data("first-entry"),
        bulk(vec![Value::Int(5)]),
    ]);
    match StreamInfoStreamReply::from_redis_value(&v) {
        Err(StreamError::Wire(e)) => {
            let text = format!("{}", e);
            assert!(text.contains("int(5)"), "{}", text);
        }
        _ => panic!("expected an error of redis"),
    }
}

#[test]
fn pending_summary_counts_with_a_plus_sign_and_leading_zeros() {
    let rows = vec![
        vec!["a".to_string(), "+3".to_string()],
        vec!["b".to_string(), "0012".to_string()],
        vec!["c".to_string(), "-1".to_string()],
        vec!["d".to_string(), " 4".to_string()],
    ];
    let r = StreamPendingReply::from_parts(1, Some("s".to_string()), Some("e".to_string()), &rows);
    match r.unwrap() {
        StreamPendingReply::Data(d) => {
            assert_eq!(d.consumers.len(), 4);
            assert_eq!(d.consumers[0].pending, 3);
            assert_eq!(d.consumers[1].pending, 12);
            assert_eq!(d.consumers[2].pending, 0);
            assert_eq!(d.consumers[3].pending, 0);
        }
        StreamPendingReply::Empty => panic!("expected data"),
    }
}
