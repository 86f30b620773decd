//! The boundary to the `redis` crate.
//!
//! Every contract here is believed, not proved. Each wrapper makes one call
//! and says in its contract what the crate's source shows of that call. What
//! `redis` makes of a reply is a function of the reply alone; where that
//! function takes pages to write down it has a name here and no body.
//!
//! `redis` reads maps into hash maps. A wrapper hands such a map over as a
//! list of its entries, each entry once: the order of the list is the order
//! in which the hash map gives its entries out, and no contract speaks of it.
use vstd::prelude::*;
use redis::{Cmd, RedisError, Value};
use std::collections::HashMap;
use crate::decimal::decimal;
use crate::fields::FieldMap;
use crate::types::{StreamId, StreamIdView};

verus! {

/// A reply as `redis` hands it over. Nothing of its inside is visible here.
#[verifier::external_type_specification]
#[verifier::external_body]
pub struct ExValue(redis::Value);

/// An error of `redis`.
#[verifier::external_type_specification]
#[verifier::external_body]
pub struct ExRedisError(redis::RedisError);

/// A command of `redis` under construction: a list of arguments, the first of
/// them the command's name.
#[verifier::external_type_specification]
#[verifier::external_body]
pub struct ExCmd(redis::Cmd);

/// `<redis::Value as Clone>::clone`, which `redis` derives: the copy equals
/// the value.
#[verifier::external_body]
pub(crate) fn clone_value(v: &redis::Value) -> (copy: redis::Value)
    ensures
        copy == *v,
{
    v.clone()
}

/// The tokens that a list of byte vectors stands for.
pub open spec fn tokens(args: Seq<Vec<u8>>) -> Seq<Seq<u8>> {
    args.map_values(|t: Vec<u8>| t@)
}

/// `<usize as redis::ToRedisArgs>::write_redis_args` with a token list as the
/// writer: one token is appended, the decimal digits of `n` as `itoa` formats
/// them.
#[verifier::external_body]
pub(crate) fn write_usize_arg(n: usize, out: &mut Vec<Vec<u8>>)
    ensures
        tokens(final(out)@) == tokens(old(out)@).push(decimal(n as nat)),
{
    redis::ToRedisArgs::write_redis_args(&n, out)
}

/// What `redis::from_redis_value::<String>` makes of a reply.
pub uninterp spec fn wire_string(v: Value) -> Result<Seq<char>, RedisError>;

/// `redis::from_redis_value::<String>`: the text that the reply stands for, or
/// the error of `redis`.
#[verifier::external_body]
pub(crate) fn read_string(v: &Value) -> (r: Result<String, RedisError>)
    ensures
        match r {
            Ok(text) => wire_string(*v) == Ok::<Seq<char>, RedisError>(text@),
            Err(e) => wire_string(*v) == Err::<Seq<char>, RedisError>(e),
        },
{
    redis::from_redis_value::<String>(v)
}

/// What `redis::from_redis_value::<usize>` makes of a reply.
pub uninterp spec fn wire_usize(v: Value) -> Result<usize, RedisError>;

/// `redis::from_redis_value::<usize>`: the number that the reply stands for,
/// or the error of `redis`.
#[verifier::external_body]
pub(crate) fn read_usize(v: &Value) -> (r: Result<usize, RedisError>)
    ensures
        r == wire_usize(*v),
{
    redis::from_redis_value::<usize>(v)
}

/// What `redis::from_redis_value::<HashMap<String, Value>>` makes of a reply:
/// the map from field names to values.
pub uninterp spec fn wire_fields(v: Value) -> Result<Map<Seq<char>, Value>, RedisError>;

/// `redis::from_redis_value::<HashMap<String, Value>>`: the map that the reply
/// stands for, or the error of `redis`. The map is handed over as a list that
/// holds each of its entries once.
#[verifier::external_body]
pub(crate) fn read_fields(v: &Value) -> (r: Result<FieldMap, RedisError>)
    ensures
        match r {
            Ok(fields) => wire_fields(*v) == Ok::<Map<Seq<char>, Value>, RedisError>(fields@),
            Err(e) => wire_fields(*v) == Err::<Map<Seq<char>, Value>, RedisError>(e),
        },
{
    let fields: HashMap<String, Value> = redis::from_redis_value(v)?;
    Ok(FieldMap { entries: fields.into_iter().collect() })
}

/// The row lists each entry of the map once: no id stands in it twice, each
/// of its entries is one of the map, and each id of the map stands in it.
pub open spec fn lists_entries(
    row: Seq<StreamIdView>,
    entries: Map<Seq<char>, Map<Seq<char>, Value>>,
) -> bool {
    &&& forall|i: int, j: int| 0 <= i < j < row.len() ==> row[i].id != row[j].id
    &&& forall|i: int|
        0 <= i < row.len() ==> entries.contains_key(#[trigger] row[i].id) && entries[row[i].id]
            == row[i].map
    &&& forall|id: Seq<char>| #[trigger]
        entries.contains_key(id) ==> exists|i: int| 0 <= i < row.len() && #[trigger] row[i].id == id
}

/// The rows list the maps, row by row.
pub open spec fn lists_rows(
    rows: Seq<Seq<StreamIdView>>,
    maps: Seq<Map<Seq<char>, Map<Seq<char>, Value>>>,
) -> bool {
    &&& rows.len() == maps.len()
    &&& forall|k: int| 0 <= k < rows.len() ==> lists_entries(#[trigger] rows[k], maps[k])
}

/// What `redis::from_redis_value::<Vec<HashMap<String, HashMap<String, Value>>>>`
/// makes of a reply: for each row the map from entry ids to fields.
pub uninterp spec fn wire_entry_rows(v: Value) -> Result<
    Seq<Map<Seq<char>, Map<Seq<char>, Value>>>,
    RedisError,
>;

/// `redis::from_redis_value::<Vec<HashMap<String, HashMap<String, Value>>>>`:
/// the rows that the reply stands for, or the error of `redis`. Each row is
/// handed over as a list that holds each entry of its map once, in the order
/// in which the map gives them out.
#[verifier::external_body]
pub(crate) fn read_entry_rows(v: &Value) -> (r: Result<Vec<Vec<StreamId>>, RedisError>)
    ensures
        match r {
            Ok(rows) => match wire_entry_rows(*v) {
                Ok(maps) => lists_rows(rows.deep_view(), maps),
                Err(_) => false,
            },
            Err(e) => wire_entry_rows(*v) == Err::<
                Seq<Map<Seq<char>, Map<Seq<char>, Value>>>,
                RedisError,
            >(e),
        },
{
    let rows: Vec<HashMap<String, HashMap<String, Value>>> = redis::from_redis_value(v)?;
    Ok(rows.into_iter().map(|row| row.into_iter().map(|(id, fields)| StreamId {
        id,
        map: FieldMap { entries: fields.into_iter().collect() },
    }).collect()).collect())
}

/// The row lists each stream of the map once: no stream name stands in it
/// twice, each stream that it names is one of the map and its rows list that
/// stream's rows, and each name of the map stands in it.
pub open spec fn lists_streams(
    row: Seq<(Seq<char>, Seq<Seq<StreamIdView>>)>,
    streams: Map<Seq<char>, Seq<Map<Seq<char>, Map<Seq<char>, Value>>>>,
) -> bool {
    &&& forall|i: int, j: int| 0 <= i < j < row.len() ==> row[i].0 != row[j].0
    &&& forall|i: int|
        0 <= i < row.len() ==> streams.contains_key(#[trigger] row[i].0) && lists_rows(
            row[i].1,
            streams[row[i].0],
        )
    &&& forall|key: Seq<char>| #[trigger]
        streams.contains_key(key) ==> exists|i: int| 0 <= i < row.len() && #[trigger] row[i].0 == key
}

/// The rows list the maps of streams, row by row.
pub open spec fn lists_stream_rows(
    rows: Seq<Seq<(Seq<char>, Seq<Seq<StreamIdView>>)>>,
    maps: Seq<Map<Seq<char>, Seq<Map<Seq<char>, Map<Seq<char>, Value>>>>>,
) -> bool {
    &&& rows.len() == maps.len()
    &&& forall|k: int| 0 <= k < rows.len() ==> lists_streams(#[trigger] rows[k], maps[k])
}

/// What `redis::from_redis_value` makes of a reply that is read as
/// `Vec<HashMap<String, Vec<HashMap<String, HashMap<String, Value>>>>>`: for
/// each row the map from stream names to that stream's rows of entries.
pub uninterp spec fn wire_stream_rows(v: Value) -> Result<
    Seq<Map<Seq<char>, Seq<Map<Seq<char>, Map<Seq<char>, Value>>>>>,
    RedisError,
>;

/// `redis::from_redis_value` at the type
/// `Vec<HashMap<String, Vec<HashMap<String, HashMap<String, Value>>>>>`: the
/// rows that the reply stands for, or the error of `redis`. Each map is handed
/// over as a list that holds each of its entries once, in the order in which
/// the map gives them out.
#[verifier::external_body]
pub(crate) fn read_stream_rows(v: &Value) -> (r: Result<
    Vec<Vec<(String, Vec<Vec<StreamId>>)>>,
    RedisError,
>)
    ensures
        match r {
            Ok(rows) => match wire_stream_rows(*v) {
                Ok(maps) => lists_stream_rows(rows.deep_view(), maps),
                Err(_) => false,
            },
            Err(e) => wire_stream_rows(*v) == Err::<
                Seq<Map<Seq<char>, Seq<Map<Seq<char>, Map<Seq<char>, Value>>>>>,
                RedisError,
            >(e),
        },
{
    let rows: Vec<HashMap<String, Vec<HashMap<String, HashMap<String, Value>>>>> =
        redis::from_redis_value(v)?;
    Ok(rows.into_iter().map(|row| row.into_iter().map(|(key, entries)| (
        key,
        entries.into_iter().map(|ids| ids.into_iter().map(|(id, fields)| StreamId {
            id,
            map: FieldMap { entries: fields.into_iter().collect() },
        }).collect()).collect(),
    )).collect()).collect())
}

/// The items of a reply that is a list of replies; `None` for any other
/// reply.
pub uninterp spec fn wire_bulk(v: Value) -> Option<Seq<Value>>;

/// Tells `redis::Value::Bulk` from the other variants of `redis::Value` and
/// hands out its items.
#[verifier::external_body]
pub(crate) fn bulk_items(v: &Value) -> (r: Option<&Vec<Value>>)
    ensures
        match r {
            Some(items) => wire_bulk(*v) == Some(items@),
            None => wire_bulk(*v) is None,
        },
{
    match v {
        Value::Bulk(items) => Some(items),
        _ => None,
    }
}

/// What `redis::from_redis_value::<Vec<HashMap<String, Value>>>` makes of a
/// reply: for each row the map from field names to values.
pub uninterp spec fn wire_field_rows(v: Value) -> Result<Seq<Map<Seq<char>, Value>>, RedisError>;

/// `redis::from_redis_value::<Vec<HashMap<String, Value>>>`: the maps that the
/// reply stands for, in order, or the error of `redis`. Each map is handed
/// over as a list that holds each of its entries once.
#[verifier::external_body]
pub(crate) fn read_field_rows(v: &Value) -> (r: Result<Vec<FieldMap>, RedisError>)
    ensures
        match r {
            Ok(rows) => wire_field_rows(*v) == Ok::<Seq<Map<Seq<char>, Value>>, RedisError>(
                rows.deep_view(),
            ),
            Err(e) => wire_field_rows(*v) == Err::<Seq<Map<Seq<char>, Value>>, RedisError>(e),
        },
{
    let rows: Vec<HashMap<String, Value>> = redis::from_redis_value(v)?;
    Ok(rows.into_iter().map(|row| FieldMap { entries: row.into_iter().collect() }).collect())
}

/// What `redis::from_redis_value` makes of a reply that is read as
/// `(usize, Option<String>, Option<String>, Vec<Vec<String>>)`.
pub uninterp spec fn wire_pending_parts(v: Value) -> Result<
    (usize, Option<Seq<char>>, Option<Seq<char>>, Seq<Seq<Seq<char>>>),
    RedisError,
>;

/// `redis::from_redis_value` at the type
/// `(usize, Option<String>, Option<String>, Vec<Vec<String>>)`: the four parts
/// that the reply stands for, or the error of `redis`.
#[verifier::external_body]
pub(crate) fn read_pending_parts(v: &Value) -> (r: Result<
    (usize, Option<String>, Option<String>, Vec<Vec<String>>),
    RedisError,
>)
    ensures
        match r {
            Ok(parts) => wire_pending_parts(*v) == Ok::<
                (usize, Option<Seq<char>>, Option<Seq<char>>, Seq<Seq<Seq<char>>>),
                RedisError,
            >(parts.deep_view()),
            Err(e) => wire_pending_parts(*v) == Err::<
                (usize, Option<Seq<char>>, Option<Seq<char>>, Seq<Seq<Seq<char>>>),
                RedisError,
            >(e),
        },
{
    redis::from_redis_value::<(usize, Option<String>, Option<String>, Vec<Vec<String>>)>(v)
}

/// What `redis::from_redis_value` makes of a reply that is read as
/// `Vec<Vec<(String, String, usize, usize)>>`.
pub uninterp spec fn wire_pending_rows(v: Value) -> Result<
    Seq<Seq<(Seq<char>, Seq<char>, usize, usize)>>,
    RedisError,
>;

/// `redis::from_redis_value` at the type
/// `Vec<Vec<(String, String, usize, usize)>>`: the rows that the reply stands
/// for, or the error of `redis`.
#[verifier::external_body]
pub(crate) fn read_pending_rows(v: &Value) -> (r: Result<
    Vec<Vec<(String, String, usize, usize)>>,
    RedisError,
>)
    ensures
        match r {
            Ok(rows) => wire_pending_rows(*v) == Ok::<
                Seq<Seq<(Seq<char>, Seq<char>, usize, usize)>>,
                RedisError,
            >(rows.deep_view()),
            Err(e) => wire_pending_rows(*v) == Err::<
                Seq<Seq<(Seq<char>, Seq<char>, usize, usize)>>,
                RedisError,
            >(e),
        },
{
    redis::from_redis_value::<Vec<Vec<(String, String, usize, usize)>>>(v)
}

/// The arguments that a command holds, in order, its name first: what
/// `redis::Cmd::args_iter` hands out as `Arg::Simple`.
pub uninterp spec fn cmd_args(c: Cmd) -> Seq<Seq<u8>>;

/// `redis::cmd`: a command that holds one argument, the bytes of its name.
#[verifier::external_body]
pub(crate) fn new_cmd(name: &str) -> (c: Cmd)
    ensures
        cmd_args(c) == seq![vstd::utf8::encode_utf8(name@)],
{
    redis::cmd(name)
}

/// `redis::Cmd::arg` with a slice of byte vectors: each of them is appended
/// as one argument, in order.
#[verifier::external_body]
pub(crate) fn cmd_arg(c: &mut Cmd, args: &Vec<Vec<u8>>)
    ensures
        cmd_args(*final(c)) == cmd_args(*old(c)) + tokens(args@),
{
    c.arg(args.as_slice());
}

} // verus!
