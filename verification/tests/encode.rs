use redis_streams::{StreamClaimOptions, StreamMaxlen, StreamReadOptions};

fn words(tokens: &[Vec<u8>]) -> Vec<String> {
    tokens.iter().map(|t| String::from_utf8(t.clone()).unwrap()).collect()
}

fn token(text: &str) -> Vec<Vec<u8>> {
    vec![text.as_bytes().to_vec()]
}

#[test]
fn maxlen_exact_encodes_with_equals_sign() {
    assert_eq!(words(&StreamMaxlen::Equals(100).to_redis_args()), vec!["MAXLEN", "=", "100"]);
}

#[test]
fn maxlen_approximate_encodes_with_tilde() {
    assert_eq!(words(&StreamMaxlen::Aprrox(100).to_redis_args()), vec!["MAXLEN", "~", "100"]);
}

#[test]
fn maxlen_count_is_written_in_decimal() {
    assert_eq!(words(&StreamMaxlen::Equals(0).to_redis_args()), vec!["MAXLEN", "=", "0"]);
    assert_eq!(words(&StreamMaxlen::Equals(9).to_redis_args()), vec!["MAXLEN", "=", "9"]);
    assert_eq!(words(&StreamMaxlen::Aprrox(10).to_redis_args()), vec!["MAXLEN", "~", "10"]);
    assert_eq!(
        words(&StreamMaxlen::Equals(usize::MAX).to_redis_args()),
        vec!["MAXLEN".to_string(), "=".to_string(), format!("{}", usize::MAX)]
    );
}

#[test]
fn maxlen_appends_to_what_is_there() {
    let mut out = token("key");
    StreamMaxlen::Aprrox(7).write_redis_args(&mut out);
    assert_eq!(words(&out), vec!["key", "MAXLEN", "~", "7"]);
}

#[test]
fn claim_options_idle_retry_force() {
    let opts = StreamClaimOptions::default().idle(10).retry(2).with_force();
    assert_eq!(words(&opts.to_redis_args()), vec!["IDLE", "10", "RETRYCOUNT", "2", "FORCE"]);
}

#[test]
fn claim_options_order_is_fixed_whatever_the_call_order() {
    let opts = StreamClaimOptions::default().with_justid().with_force().retry(3).time(20).idle(1);
    assert_eq!(
        words(&opts.to_redis_args()),
        vec!["IDLE", "1", "TIME", "20", "RETRYCOUNT", "3", "FORCE", "JUSTID"]
    );
}

#[test]
fn claim_options_unset_give_no_token() {
    assert!(StreamClaimOptions::default().to_redis_args().is_empty());
}

#[test]
fn claim_options_numbers_in_decimal() {
    let opts = StreamClaimOptions::default().idle(0).time(1234567890).retry(usize::MAX);
    assert_eq!(
        words(&opts.to_redis_args()),
        vec![
            "IDLE".to_string(),
            "0".to_string(),
            "TIME".to_string(),
            "1234567890".to_string(),
            "RETRYCOUNT".to_string(),
            format!("{}", usize::MAX)
        ]
    );
}

#[test]
fn claim_options_later_value_replaces_earlier() {
    let opts = StreamClaimOptions::default().idle(5).idle(6);
    assert_eq!(words(&opts.to_redis_args()), vec!["IDLE", "6"]);
}

#[test]
fn claim_options_append_to_what_is_there() {
    let mut out = token("0-1");
    StreamClaimOptions::default().with_justid().write_redis_args(&mut out);
    assert_eq!(words(&out), vec!["0-1", "JUSTID"]);
}

#[test]
fn read_options_noack_with_group() {
    let opts = StreamReadOptions::default().group(token("g1"), token("c1")).noack();
    assert_eq!(words(&opts.to_redis_args()), vec!["NOACK", "GROUP", "g1", "c1"]);
}

#[test]
fn read_options_noack_before_group_is_set() {
    let opts = StreamReadOptions::default().noack().group(token("g1"), token("c1"));
    assert_eq!(words(&opts.to_redis_args()), vec!["NOACK", "GROUP", "g1", "c1"]);
}

#[test]
fn read_options_noack_without_group_is_inert() {
    let opts = StreamReadOptions::default().noack();
    assert!(opts.to_redis_args().is_empty());
    let opts = StreamReadOptions::default().noack().count(3);
    assert_eq!(words(&opts.to_redis_args()), vec!["COUNT", "3"]);
}

#[test]
fn read_options_group_without_noack() {
    let opts = StreamReadOptions::default().group(token("g1"), token("c1"));
    assert_eq!(words(&opts.to_redis_args()), vec!["GROUP", "g1", "c1"]);
}

#[test]
fn read_options_block_and_count_come_first() {
    let opts = StreamReadOptions::default().group(token("g"), token("c")).count(10).block(500);
    assert_eq!(
        words(&opts.to_redis_args()),
        vec!["BLOCK", "500", "COUNT", "10", "GROUP", "g", "c"]
    );
}

#[test]
fn read_options_group_names_of_several_tokens() {
    let group = vec![b"g".to_vec(), b"h".to_vec()];
    let consumer = vec![b"c".to_vec(), b"d".to_vec(), b"e".to_vec()];
    let opts = StreamReadOptions::default().group(group, consumer);
    assert_eq!(words(&opts.to_redis_args()), vec!["GROUP", "g", "h", "c", "d", "e"]);
}

#[test]
fn read_options_group_names_without_token() {
    let opts = StreamReadOptions::default().group(Vec::new(), Vec::new());
    assert_eq!(words(&opts.to_redis_args()), vec!["GROUP"]);
}

#[test]
fn read_options_read_only_until_group_is_set() {
    assert!(StreamReadOptions::default().read_only());
    assert!(StreamReadOptions::default().noack().block(1).count(2).read_only());
    assert!(!StreamReadOptions::default().group(token("g"), token("c")).read_only());
}

#[test]
fn read_options_unset_give_no_token() {
    assert!(StreamReadOptions::default().to_redis_args().is_empty());
}

#[test]
fn read_options_append_to_what_is_there() {
    let mut out = token("x");
    StreamReadOptions::default().block(0).write_redis_args(&mut out);
    assert_eq!(words(&out), vec!["x", "BLOCK", "0"]);
}
