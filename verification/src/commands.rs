//! The stream commands: for each the command's name and its arguments, in the
//! order that the server expects.
//!
//! Keys, ids and the other values that a caller supplies come as argument
//! tokens. Each function builds the command and nothing more: sending it and
//! reading the reply are the caller's.
use vstd::prelude::*;
use redis::Cmd;
use crate::args::{
    push_text, push_tokens, text_token, StreamClaimOptions, StreamMaxlen, StreamReadOptions,
};
use crate::wire::{cmd_arg, cmd_args, new_cmd, tokens};

verus! {

/// The arguments of a command: its name, then the tokens of `args`.
pub open spec fn named(name: Seq<char>, args: Seq<Seq<u8>>) -> Seq<Seq<u8>> {
    seq![text_token(name)] + args
}

/// The command `name` with the arguments `args`.
fn command(name: &str, args: &Vec<Vec<u8>>) -> (c: Cmd)
    ensures
        cmd_args(c) == named(name@, tokens(args@)),
{
    let mut c = new_cmd(name);
    cmd_arg(&mut c, args);
    c
}

/// `XACK key group id...`: acknowledges entries delivered to a group.
pub fn xack(key: &Vec<Vec<u8>>, group: &Vec<Vec<u8>>, ids: &Vec<Vec<u8>>) -> (c: Cmd)
    ensures
        cmd_args(c) == named("XACK"@, tokens(key@) + tokens(group@) + tokens(ids@)),
{
    let mut args: Vec<Vec<u8>> = Vec::new();
    push_tokens(key, &mut args);
    push_tokens(group, &mut args);
    push_tokens(ids, &mut args);
    assert(tokens(args@) =~= tokens(key@) + tokens(group@) + tokens(ids@));
    command("XACK", &args)
}

/// `XADD key id field value...`: adds an entry; `*` as the id lets the
/// server choose it.
pub fn xadd(key: &Vec<Vec<u8>>, id: &Vec<Vec<u8>>, items: &Vec<Vec<u8>>) -> (c: Cmd)
    ensures
        cmd_args(c) == named("XADD"@, tokens(key@) + tokens(id@) + tokens(items@)),
{
    let mut args: Vec<Vec<u8>> = Vec::new();
    push_tokens(key, &mut args);
    push_tokens(id, &mut args);
    push_tokens(items, &mut args);
    assert(tokens(args@) =~= tokens(key@) + tokens(id@) + tokens(items@));
    command("XADD", &args)
}

/// `XADD key id field value...`, the fields and values taken from a map.
pub fn xadd_map(key: &Vec<Vec<u8>>, id: &Vec<Vec<u8>>, map: &Vec<Vec<u8>>) -> (c: Cmd)
    ensures
        cmd_args(c) == named("XADD"@, tokens(key@) + tokens(id@) + tokens(map@)),
{
    xadd(key, id, map)
}

/// `XADD key MAXLEN =|~ count id field value...`: adds an entry and trims
/// the stream.
pub fn xadd_maxlen(
    key: &Vec<Vec<u8>>,
    maxlen: StreamMaxlen,
    id: &Vec<Vec<u8>>,
    items: &Vec<Vec<u8>>,
) -> (c: Cmd)
    ensures
        cmd_args(c) == named(
            "XADD"@,
            tokens(key@) + maxlen.tokens() + tokens(id@) + tokens(items@),
        ),
{
    let mut args: Vec<Vec<u8>> = Vec::new();
    push_tokens(key, &mut args);
    maxlen.write_redis_args(&mut args);
    push_tokens(id, &mut args);
    push_tokens(items, &mut args);
    assert(tokens(args@) =~= tokens(key@) + maxlen.tokens() + tokens(id@) + tokens(items@));
    command("XADD", &args)
}

/// `XADD key MAXLEN =|~ count id field value...`, the fields and values
/// taken from a map.
pub fn xadd_maxlen_map(
    key: &Vec<Vec<u8>>,
    maxlen: StreamMaxlen,
    id: &Vec<Vec<u8>>,
    map: &Vec<Vec<u8>>,
) -> (c: Cmd)
    ensures
        cmd_args(c) == named(
            "XADD"@,
            tokens(key@) + maxlen.tokens() + tokens(id@) + tokens(map@),
        ),
{
    xadd_maxlen(key, maxlen, id, map)
}

/// `XCLAIM key group consumer min-idle-time id...`: moves pending entries
/// to another consumer.
pub fn xclaim(
    key: &Vec<Vec<u8>>,
    group: &Vec<Vec<u8>>,
    consumer: &Vec<Vec<u8>>,
    min_idle_time: &Vec<Vec<u8>>,
    ids: &Vec<Vec<u8>>,
) -> (c: Cmd)
    ensures
        cmd_args(c) == named(
            "XCLAIM"@,
            tokens(key@) + tokens(group@) + tokens(consumer@) + tokens(min_idle_time@) + tokens(
                ids@,
            ),
        ),
{
    let mut args: Vec<Vec<u8>> = Vec::new();
    push_tokens(key, &mut args);
    push_tokens(group, &mut args);
    push_tokens(consumer, &mut args);
    push_tokens(min_idle_time, &mut args);
    push_tokens(ids, &mut args);
    assert(tokens(args@) =~= tokens(key@) + tokens(group@) + tokens(consumer@) + tokens(
        min_idle_time@,
    ) + tokens(ids@));
    command("XCLAIM", &args)
}

/// `XCLAIM key group consumer min-idle-time id... [options]`: a claim with
/// its optional arguments. With `JUSTID` among them the reply is a list of
/// ids.
pub fn xclaim_options(
    key: &Vec<Vec<u8>>,
    group: &Vec<Vec<u8>>,
    consumer: &Vec<Vec<u8>>,
    min_idle_time: &Vec<Vec<u8>>,
    ids: &Vec<Vec<u8>>,
    options: StreamClaimOptions,
) -> (c: Cmd)
    ensures
        cmd_args(c) == named(
            "XCLAIM"@,
            tokens(key@) + tokens(group@) + tokens(consumer@) + tokens(min_idle_time@) + tokens(
                ids@,
            ) + options@.tokens(),
        ),
{
    let mut args: Vec<Vec<u8>> = Vec::new();
    push_tokens(key, &mut args);
    push_tokens(group, &mut args);
    push_tokens(consumer, &mut args);
    push_tokens(min_idle_time, &mut args);
    push_tokens(ids, &mut args);
    options.write_redis_args(&mut args);
    assert(tokens(args@) =~= tokens(key@) + tokens(group@) + tokens(consumer@) + tokens(
        min_idle_time@,
    ) + tokens(ids@) + options@.tokens());
    command("XCLAIM", &args)
}

/// `XDEL key id...`: deletes entries.
pub fn xdel(key: &Vec<Vec<u8>>, ids: &Vec<Vec<u8>>) -> (c: Cmd)
    ensures
        cmd_args(c) == named("XDEL"@, tokens(key@) + tokens(ids@)),
{
    let mut args: Vec<Vec<u8>> = Vec::new();
    push_tokens(key, &mut args);
    push_tokens(ids, &mut args);
    assert(tokens(args@) =~= tokens(key@) + tokens(ids@));
    command("XDEL", &args)
}

/// The command `XGROUP` with a subcommand, a key, a group and one more
/// argument.
fn xgroup(
    subcommand: &str,
    key: &Vec<Vec<u8>>,
    group: &Vec<Vec<u8>>,
    last: &Vec<Vec<u8>>,
) -> (c: Cmd)
    ensures
        cmd_args(c) == named(
            "XGROUP"@,
            seq![text_token(subcommand@)] + tokens(key@) + tokens(group@) + tokens(last@),
        ),
{
    let mut args: Vec<Vec<u8>> = Vec::new();
    push_text(subcommand, &mut args);
    push_tokens(key, &mut args);
    push_tokens(group, &mut args);
    push_tokens(last, &mut args);
    assert(tokens(args@) =~= seq![text_token(subcommand@)] + tokens(key@) + tokens(group@)
        + tokens(last@));
    command("XGROUP", &args)
}

/// `XGROUP CREATE key group id`: creates a group on a stream that exists;
/// `$` as the id starts the group after the last entry.
pub fn xgroup_create(key: &Vec<Vec<u8>>, group: &Vec<Vec<u8>>, id: &Vec<Vec<u8>>) -> (c: Cmd)
    ensures
        cmd_args(c) == named(
            "XGROUP"@,
            seq![text_token("CREATE"@)] + tokens(key@) + tokens(group@) + tokens(id@),
        ),
{
    xgroup("CREATE", key, group, id)
}

/// `XGROUP CREATE key group id MKSTREAM`: creates a group, and the stream
/// too where it does not exist.
pub fn xgroup_create_mkstream(
    key: &Vec<Vec<u8>>,
    group: &Vec<Vec<u8>>,
    id: &Vec<Vec<u8>>,
) -> (c: Cmd)
    ensures
        cmd_args(c) == named(
            "XGROUP"@,
            seq![text_token("CREATE"@)] + tokens(key@) + tokens(group@) + tokens(id@) + seq![
                text_token("MKSTREAM"@),
            ],
        ),
{
    let mut args: Vec<Vec<u8>> = Vec::new();
    push_text("CREATE", &mut args);
    push_tokens(key, &mut args);
    push_tokens(group, &mut args);
    push_tokens(id, &mut args);
    push_text("MKSTREAM", &mut args);
    assert(tokens(args@) =~= seq![text_token("CREATE"@)] + tokens(key@) + tokens(group@)
        + tokens(id@) + seq![text_token("MKSTREAM"@)]);
    command("XGROUP", &args)
}

/// `XGROUP SETID key group id`: sets the id from which a group reads on.
pub fn xgroup_setid(key: &Vec<Vec<u8>>, group: &Vec<Vec<u8>>, id: &Vec<Vec<u8>>) -> (c: Cmd)
    ensures
        cmd_args(c) == named(
            "XGROUP"@,
            seq![text_token("SETID"@)] + tokens(key@) + tokens(group@) + tokens(id@),
        ),
{
    xgroup("SETID", key, group, id)
}

/// `XGROUP DESTROY key group`: removes a group.
pub fn xgroup_destroy(key: &Vec<Vec<u8>>, group: &Vec<Vec<u8>>) -> (c: Cmd)
    ensures
        cmd_args(c) == named(
            "XGROUP"@,
            seq![text_token("DESTROY"@)] + tokens(key@) + tokens(group@),
        ),
{
    let mut args: Vec<Vec<u8>> = Vec::new();
    push_text("DESTROY", &mut args);
    push_tokens(key, &mut args);
    push_tokens(group, &mut args);
    assert(tokens(args@) =~= seq![text_token("DESTROY"@)] + tokens(key@) + tokens(group@));
    command("XGROUP", &args)
}

/// `XGROUP DELCONSUMER key group consumer`: removes a consumer from a
/// group.
pub fn xgroup_delconsumer(
    key: &Vec<Vec<u8>>,
    group: &Vec<Vec<u8>>,
    consumer: &Vec<Vec<u8>>,
) -> (c: Cmd)
    ensures
        cmd_args(c) == named(
            "XGROUP"@,
            seq![text_token("DELCONSUMER"@)] + tokens(key@) + tokens(group@) + tokens(consumer@),
        ),
{
    xgroup("DELCONSUMER", key, group, consumer)
}

/// `XINFO CONSUMERS key group`: asks for the consumers of a group.
pub fn xinfo_consumers(key: &Vec<Vec<u8>>, group: &Vec<Vec<u8>>) -> (c: Cmd)
    ensures
        cmd_args(c) == named(
            "XINFO"@,
            seq![text_token("CONSUMERS"@)] + tokens(key@) + tokens(group@),
        ),
{
    let mut args: Vec<Vec<u8>> = Vec::new();
    push_text("CONSUMERS", &mut args);
    push_tokens(key, &mut args);
    push_tokens(group, &mut args);
    assert(tokens(args@) =~= seq![text_token("CONSUMERS"@)] + tokens(key@) + tokens(group@));
    command("XINFO", &args)
}

/// `XINFO GROUPS key`: asks for the groups of a stream.
pub fn xinfo_groups(key: &Vec<Vec<u8>>) -> (c: Cmd)
    ensures
        cmd_args(c) == named("XINFO"@, seq![text_token("GROUPS"@)] + tokens(key@)),
{
    let mut args: Vec<Vec<u8>> = Vec::new();
    push_text("GROUPS", &mut args);
    push_tokens(key, &mut args);
    assert(tokens(args@) =~= seq![text_token("GROUPS"@)] + tokens(key@));
    command("XINFO", &args)
}

/// `XINFO STREAM key`: asks for the description of a stream.
pub fn xinfo_stream(key: &Vec<Vec<u8>>) -> (c: Cmd)
    ensures
        cmd_args(c) == named("XINFO"@, seq![text_token("STREAM"@)] + tokens(key@)),
{
    let mut args: Vec<Vec<u8>> = Vec::new();
    push_text("STREAM", &mut args);
    push_tokens(key, &mut args);
    assert(tokens(args@) =~= seq![text_token("STREAM"@)] + tokens(key@));
    command("XINFO", &args)
}

/// `XLEN key`: asks for the number of entries of a stream.
pub fn xlen(key: &Vec<Vec<u8>>) -> (c: Cmd)
    ensures
        cmd_args(c) == named("XLEN"@, tokens(key@)),
{
    command("XLEN", key)
}

/// `XPENDING key group`: asks for the summary of the pending entries of a
/// group.
pub fn xpending(key: &Vec<Vec<u8>>, group: &Vec<Vec<u8>>) -> (c: Cmd)
    ensures
        cmd_args(c) == named("XPENDING"@, tokens(key@) + tokens(group@)),
{
    let mut args: Vec<Vec<u8>> = Vec::new();
    push_tokens(key, &mut args);
    push_tokens(group, &mut args);
    assert(tokens(args@) =~= tokens(key@) + tokens(group@));
    command("XPENDING", &args)
}

/// `XPENDING key group start end count`: asks for the pending entries of a
/// range of ids, at most `count` of them.
pub fn xpending_count(
    key: &Vec<Vec<u8>>,
    group: &Vec<Vec<u8>>,
    start: &Vec<Vec<u8>>,
    end: &Vec<Vec<u8>>,
    count: &Vec<Vec<u8>>,
) -> (c: Cmd)
    ensures
        cmd_args(c) == named(
            "XPENDING"@,
            tokens(key@) + tokens(group@) + tokens(start@) + tokens(end@) + tokens(count@),
        ),
{
    let mut args: Vec<Vec<u8>> = Vec::new();
    push_tokens(key, &mut args);
    push_tokens(group, &mut args);
    push_tokens(start, &mut args);
    push_tokens(end, &mut args);
    push_tokens(count, &mut args);
    assert(tokens(args@) =~= tokens(key@) + tokens(group@) + tokens(start@) + tokens(end@)
        + tokens(count@));
    command("XPENDING", &args)
}

/// `XPENDING key group start end count consumer`: as
/// [`xpending_count`], for the entries of one consumer.
pub fn xpending_consumer_count(
    key: &Vec<Vec<u8>>,
    group: &Vec<Vec<u8>>,
    start: &Vec<Vec<u8>>,
    end: &Vec<Vec<u8>>,
    count: &Vec<Vec<u8>>,
    consumer: &Vec<Vec<u8>>,
) -> (c: Cmd)
    ensures
        cmd_args(c) == named(
            "XPENDING"@,
            tokens(key@) + tokens(group@) + tokens(start@) + tokens(end@) + tokens(count@)
                + tokens(consumer@),
        ),
{
    let mut args: Vec<Vec<u8>> = Vec::new();
    push_tokens(key, &mut args);
    push_tokens(group, &mut args);
    push_tokens(start, &mut args);
    push_tokens(end, &mut args);
    push_tokens(count, &mut args);
    push_tokens(consumer, &mut args);
    assert(tokens(args@) =~= tokens(key@) + tokens(group@) + tokens(start@) + tokens(end@)
        + tokens(count@) + tokens(consumer@));
    command("XPENDING", &args)
}

/// A range command: a key and the two ends of the range, in the order
/// given.
fn range(name: &str, key: &Vec<Vec<u8>>, from: &Vec<Vec<u8>>, to: &Vec<Vec<u8>>) -> (c: Cmd)
    ensures
        cmd_args(c) == named(name@, tokens(key@) + tokens(from@) + tokens(to@)),
{
    let mut args: Vec<Vec<u8>> = Vec::new();
    push_tokens(key, &mut args);
    push_tokens(from, &mut args);
    push_tokens(to, &mut args);
    assert(tokens(args@) =~= tokens(key@) + tokens(from@) + tokens(to@));
    command(name, &args)
}

/// A range command over the whole stream: a key and the two signs that
/// stand for its ends, in the order given.
fn range_all(name: &str, key: &Vec<Vec<u8>>, from: &str, to: &str) -> (c: Cmd)
    ensures
        cmd_args(c) == named(
            name@,
            tokens(key@) + seq![text_token(from@)] + seq![text_token(to@)],
        ),
{
    let mut args: Vec<Vec<u8>> = Vec::new();
    push_tokens(key, &mut args);
    push_text(from, &mut args);
    push_text(to, &mut args);
    assert(tokens(args@) =~= tokens(key@) + seq![text_token(from@)] + seq![text_token(to@)]);
    command(name, &args)
}

/// A range command with a limit: a key, the two ends of the range in the
/// order given, `COUNT` and the limit.
fn range_count(
    name: &str,
    key: &Vec<Vec<u8>>,
    from: &Vec<Vec<u8>>,
    to: &Vec<Vec<u8>>,
    count: &Vec<Vec<u8>>,
) -> (c: Cmd)
    ensures
        cmd_args(c) == named(
            name@,
            tokens(key@) + tokens(from@) + tokens(to@) + seq![text_token("COUNT"@)] + tokens(
                count@,
            ),
        ),
{
    let mut args: Vec<Vec<u8>> = Vec::new();
    push_tokens(key, &mut args);
    push_tokens(from, &mut args);
    push_tokens(to, &mut args);
    push_text("COUNT", &mut args);
    push_tokens(count, &mut args);
    assert(tokens(args@) =~= tokens(key@) + tokens(from@) + tokens(to@) + seq![
        text_token("COUNT"@),
    ] + tokens(count@));
    command(name, &args)
}

/// `XRANGE key start end`: asks for the entries of a range of ids, in
/// ascending order. `-` stands for the smallest id, `+` for the greatest.
pub fn xrange(key: &Vec<Vec<u8>>, start: &Vec<Vec<u8>>, end: &Vec<Vec<u8>>) -> (c: Cmd)
    ensures
        cmd_args(c) == named("XRANGE"@, tokens(key@) + tokens(start@) + tokens(end@)),
{
    range("XRANGE", key, start, end)
}

/// `XRANGE key - +`: asks for all entries of a stream.
pub fn xrange_all(key: &Vec<Vec<u8>>) -> (c: Cmd)
    ensures
        cmd_args(c) == named(
            "XRANGE"@,
            tokens(key@) + seq![text_token("-"@)] + seq![text_token("+"@)],
        ),
{
    range_all("XRANGE", key, "-", "+")
}

/// `XRANGE key start end COUNT count`: asks for the entries of a range, at
/// most `count` of them.
pub fn xrange_count(
    key: &Vec<Vec<u8>>,
    start: &Vec<Vec<u8>>,
    end: &Vec<Vec<u8>>,
    count: &Vec<Vec<u8>>,
) -> (c: Cmd)
    ensures
        cmd_args(c) == named(
            "XRANGE"@,
            tokens(key@) + tokens(start@) + tokens(end@) + seq![text_token("COUNT"@)] + tokens(
                count@,
            ),
        ),
{
    range_count("XRANGE", key, start, end, count)
}

/// `XREAD STREAMS key... id...`: reads from each stream the entries after
/// the id given for it.
pub fn xread(keys: &Vec<Vec<u8>>, ids: &Vec<Vec<u8>>) -> (c: Cmd)
    ensures
        cmd_args(c) == named(
            "XREAD"@,
            seq![text_token("STREAMS"@)] + tokens(keys@) + tokens(ids@),
        ),
{
    let mut args: Vec<Vec<u8>> = Vec::new();
    push_text("STREAMS", &mut args);
    push_tokens(keys, &mut args);
    push_tokens(ids, &mut args);
    assert(tokens(args@) =~= seq![text_token("STREAMS"@)] + tokens(keys@) + tokens(ids@));
    command("XREAD", &args)
}

/// The name of the read that the options ask for: `XREAD` without a group,
/// `XREADGROUP` with one.
pub open spec fn read_command(plain: bool) -> Seq<char> {
    if plain {
        "XREAD"@
    } else {
        "XREADGROUP"@
    }
}

/// `XREAD [options] STREAMS key... id...`, or `XREADGROUP` with the same
/// arguments where the options name a group.
pub fn xread_options(keys: &Vec<Vec<u8>>, ids: &Vec<Vec<u8>>, options: StreamReadOptions) -> (c:
    Cmd)
    ensures
        cmd_args(c) == named(
            read_command(options@.group is None),
            options@.tokens() + seq![text_token("STREAMS"@)] + tokens(keys@) + tokens(ids@),
        ),
{
    let mut args: Vec<Vec<u8>> = Vec::new();
    options.write_redis_args(&mut args);
    push_text("STREAMS", &mut args);
    push_tokens(keys, &mut args);
    push_tokens(ids, &mut args);
    assert(tokens(args@) =~= options@.tokens() + seq![text_token("STREAMS"@)] + tokens(keys@)
        + tokens(ids@));
    if options.read_only() {
        command("XREAD", &args)
    } else {
        command("XREADGROUP", &args)
    }
}

/// `XREVRANGE key end start`: asks for the entries of a range of ids, in
/// descending order.
pub fn xrevrange(key: &Vec<Vec<u8>>, end: &Vec<Vec<u8>>, start: &Vec<Vec<u8>>) -> (c: Cmd)
    ensures
        cmd_args(c) == named("XREVRANGE"@, tokens(key@) + tokens(end@) + tokens(start@)),
{
    range("XREVRANGE", key, end, start)
}

/// `XREVRANGE key + -`: asks for all entries of a stream, the last first.
pub fn xrevrange_all(key: &Vec<Vec<u8>>) -> (c: Cmd)
    ensures
        cmd_args(c) == named(
            "XREVRANGE"@,
            tokens(key@) + seq![text_token("+"@)] + seq![text_token("-"@)],
        ),
{
    range_all("XREVRANGE", key, "+", "-")
}

/// `XREVRANGE key end start COUNT count`: asks for the entries of a range
/// in descending order, at most `count` of them.
pub fn xrevrange_count(
    key: &Vec<Vec<u8>>,
    end: &Vec<Vec<u8>>,
    start: &Vec<Vec<u8>>,
    count: &Vec<Vec<u8>>,
) -> (c: Cmd)
    ensures
        cmd_args(c) == named(
            "XREVRANGE"@,
            tokens(key@) + tokens(end@) + tokens(start@) + seq![text_token("COUNT"@)] + tokens(
                count@,
            ),
        ),
{
    range_count("XREVRANGE", key, end, start, count)
}

/// `XTRIM key MAXLEN =|~ count`: trims a stream.
pub fn xtrim(key: &Vec<Vec<u8>>, maxlen: StreamMaxlen) -> (c: Cmd)
    ensures
        cmd_args(c) == named("XTRIM"@, tokens(key@) + maxlen.tokens()),
{
    let mut args: Vec<Vec<u8>> = Vec::new();
    push_tokens(key, &mut args);
    maxlen.write_redis_args(&mut args);
    assert(tokens(args@) =~= tokens(key@) + maxlen.tokens());
    command("XTRIM", &args)
}

} // verus!
