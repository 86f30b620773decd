use redis::{Arg, Cmd};
use redis_streams::commands;
use redis_streams::{StreamClaimOptions, StreamMaxlen, StreamReadOptions};

fn t(text: &str) -> Vec<Vec<u8>> {
    vec![text.as_bytes().to_vec()]
}

fn ts(texts: &[&str]) -> Vec<Vec<u8>> {
    texts.iter().map(|x| x.as_bytes().to_vec()).collect()
}

fn words(cmd: &Cmd) -> Vec<String> {
    cmd.args_iter()
        .map(|arg| match arg {
            Arg::Simple(bytes) => String::from_utf8(bytes.to_vec()).unwrap(),
            Arg::Cursor => panic!("no cursor expected"),
        })
        .collect()
}

#[test]
fn xack_arguments() {
    let c = commands::xack(&t("k"), &t("g"), &ts(&["1-0", "2-0"]));
    assert_eq!(words(&c), vec!["XACK", "k", "g", "1-0", "2-0"]);
}

#[test]
fn xadd_arguments() {
    let c = commands::xadd(&t("k"), &t("*"), &ts(&["f", "v", "g", "w"]));
    assert_eq!(words(&c), vec!["XADD", "k", "*", "f", "v", "g", "w"]);
    let c = commands::xadd_map(&t("k"), &t("1-1"), &ts(&["f", "v"]));
    assert_eq!(words(&c), vec!["XADD", "k", "1-1", "f", "v"]);
}

#[test]
fn xadd_maxlen_arguments() {
    let c = commands::xadd_maxlen(&t("k"), StreamMaxlen::Aprrox(1000), &t("*"), &ts(&["f", "v"]));
    assert_eq!(words(&c), vec!["XADD", "k", "MAXLEN", "~", "1000", "*", "f", "v"]);
    let c = commands::xadd_maxlen_map(&t("k"), StreamMaxlen::Equals(5), &t("*"), &ts(&["f", "v"]));
    assert_eq!(words(&c), vec!["XADD", "k", "MAXLEN", "=", "5", "*", "f", "v"]);
}

#[test]
fn xclaim_arguments() {
    let c = commands::xclaim(&t("k"), &t("g"), &t("c"), &t("10"), &ts(&["1-0", "2-0"]));
    assert_eq!(words(&c), vec!["XCLAIM", "k", "g", "c", "10", "1-0", "2-0"]);
}

#[test]
fn xclaim_options_arguments() {
    let opts = StreamClaimOptions::default().with_force().retry(2);
    let c = commands::xclaim_options(&t("k1"), &t("g1"), &t("c1"), &t("10"), &t("0"), opts);
    assert_eq!(
        words(&c),
        vec!["XCLAIM", "k1", "g1", "c1", "10", "0", "RETRYCOUNT", "2", "FORCE"]
    );
}

#[test]
fn xdel_arguments() {
    let c = commands::xdel(&t("k"), &ts(&["1-0", "2-0", "3-0"]));
    assert_eq!(words(&c), vec!["XDEL", "k", "1-0", "2-0", "3-0"]);
}

#[test]
fn xgroup_arguments() {
    let c = commands::xgroup_create(&t("k"), &t("g"), &t("$"));
    assert_eq!(words(&c), vec!["XGROUP", "CREATE", "k", "g", "$"]);
    let c = commands::xgroup_create_mkstream(&t("k"), &t("g"), &t("$"));
    assert_eq!(words(&c), vec!["XGROUP", "CREATE", "k", "g", "$", "MKSTREAM"]);
    let c = commands::xgroup_setid(&t("k"), &t("g"), &t("5-0"));
    assert_eq!(words(&c), vec!["XGROUP", "SETID", "k", "g", "5-0"]);
    let c = commands::xgroup_destroy(&t("k"), &t("g"));
    assert_eq!(words(&c), vec!["XGROUP", "DESTROY", "k", "g"]);
    let c = commands::xgroup_delconsumer(&t("k"), &t("g"), &t("c"));
    assert_eq!(words(&c), vec!["XGROUP", "DELCONSUMER", "k", "g", "c"]);
}

#[test]
fn xinfo_arguments() {
    let c = commands::xinfo_consumers(&t("k"), &t("g"));
    assert_eq!(words(&c), vec!["XINFO", "CONSUMERS", "k", "g"]);
    let c = commands::xinfo_groups(&t("k"));
    assert_eq!(words(&c), vec!["XINFO", "GROUPS", "k"]);
    let c = commands::xinfo_stream(&t("k"));
    assert_eq!(words(&c), vec!["XINFO", "STREAM", "k"]);
}

#[test]
fn xlen_arguments() {
    let c = commands::xlen(&t("k"));
    assert_eq!(words(&c), vec!["XLEN", "k"]);
}

#[test]
fn xpending_arguments() {
    let c = commands::xpending(&t("k"), &t("g"));
    assert_eq!(words(&c), vec!["XPENDING", "k", "g"]);
    let c = commands::xpending_count(&t("k"), &t("g"), &t("-"), &t("+"), &t("10"));
    assert_eq!(words(&c), vec!["XPENDING", "k", "g", "-", "+", "10"]);
    let c =
        commands::xpending_consumer_count(&t("k"), &t("g"), &t("-"), &t("+"), &t("10"), &t("c"));
    assert_eq!(words(&c), vec!["XPENDING", "k", "g", "-", "+", "10", "c"]);
}

#[test]
fn xrange_arguments() {
    let c = commands::xrange(&t("k"), &t("1-0"), &t("2-0"));
    assert_eq!(words(&c), vec!["XRANGE", "k", "1-0", "2-0"]);
    let c = commands::xrange_all(&t("k"));
    assert_eq!(words(&c), vec!["XRANGE", "k", "-", "+"]);
    let c = commands::xrange_count(&t("k"), &t("-"), &t("+"), &t("3"));
    assert_eq!(words(&c), vec!["XRANGE", "k", "-", "+", "COUNT", "3"]);
}

#[test]
fn xrevrange_arguments() {
    let c = commands::xrevrange(&t("k"), &t("2-0"), &t("1-0"));
    assert_eq!(words(&c), vec!["XREVRANGE", "k", "2-0", "1-0"]);
    let c = commands::xrevrange_all(&t("k"));
    assert_eq!(words(&c), vec!["XREVRANGE", "k", "+", "-"]);
    let c = commands::xrevrange_count(&t("k"), &t("+"), &t("-"), &t("3"));
    assert_eq!(words(&c), vec!["XREVRANGE", "k", "+", "-", "COUNT", "3"]);
}

#[test]
fn xread_arguments() {
    let c = commands::xread(&ts(&["k1", "k2"]), &ts(&["0", "5-0"]));
    assert_eq!(words(&c), vec!["XREAD", "STREAMS", "k1", "k2", "0", "5-0"]);
}

#[test]
fn xread_options_without_group_is_a_plain_read() {
    let opts = StreamReadOptions::default().count(10).noack();
    let c = commands::xread_options(&t("k1"), &t("0"), opts);
    assert_eq!(words(&c), vec!["XREAD", "COUNT", "10", "STREAMS", "k1", "0"]);
}

#[test]
fn xread_options_with_group_reads_for_the_group() {
    let opts = StreamReadOptions::default().group(t("group-1"), t("consumer-1")).block(100).noack();
    let c = commands::xread_options(&t("k1"), &t(">"), opts);
    assert_eq!(
        words(&c),
        vec![
            "XREADGROUP",
            "BLOCK",
            "100",
            "NOACK",
            "GROUP",
            "group-1",
            "consumer-1",
            "STREAMS",
            "k1",
            ">"
        ]
    );
}

#[test]
fn xtrim_arguments() {
    let c = commands::xtrim(&t("k"), StreamMaxlen::Equals(10));
    assert_eq!(words(&c), vec!["XTRIM", "k", "MAXLEN", "=", "10"]);
}

#[test]
fn command_keeps_empty_and_binary_tokens() {
    let key = vec![vec![0u8, 255u8], Vec::new()];
    let c = commands::xlen(&key);
    let args: Vec<Vec<u8>> = c
        .args_iter()
        .map(|arg| match arg {
            Arg::Simple(bytes) => bytes.to_vec(),
            Arg::Cursor => panic!("no cursor expected"),
        })
        .collect();
    assert_eq!(args, vec![b"XLEN".to_vec(), vec![0u8, 255u8], Vec::new()]);
}

#[test]
fn command_packs_as_redis_packs_it() {
    let c = commands::xack(&t("k"), &t("g"), &t("1-0"));
    assert_eq!(
        c.get_packed_command(),
        b"*4\r\n$4\r\nXACK\r\n$1\r\nk\r\n$1\r\ng\r\n$3\r\n1-0\r\n".to_vec()
    );
}
