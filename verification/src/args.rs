//! Option values and the argument tokens they stand for.
//!
//! Each option type has a spec function `tokens` that gives its tokens, in the
//! order the command grammar fixes, and an executable `write_redis_args` that
//! appends exactly those tokens to an argument list.
use vstd::prelude::*;
use vstd::string::StrSliceExecFns;
use vstd::utf8::encode_utf8;
use crate::decimal::{decimal, push_decimal};
use crate::wire::{tokens, write_usize_arg};

verus! {

/// The token of a keyword or of any other text: its UTF-8 bytes.
pub open spec fn text_token(text: Seq<char>) -> Seq<u8> {
    encode_utf8(text)
}

/// The tokens of an optional numeric argument: the keyword and the number in
/// decimal when the value is set, nothing otherwise.
pub open spec fn numeric_option(keyword: Seq<char>, value: Option<usize>) -> Seq<Seq<u8>> {
    match value {
        Some(n) => seq![text_token(keyword), decimal(n as nat)],
        None => Seq::empty(),
    }
}

/// The tokens of a flag: the keyword when the flag is set, nothing otherwise.
pub open spec fn flag_option(keyword: Seq<char>, set: bool) -> Seq<Seq<u8>> {
    if set {
        seq![text_token(keyword)]
    } else {
        Seq::empty()
    }
}

/// One more byte vector in the list is one more token.
proof fn lemma_tokens_push(args: Seq<Vec<u8>>, t: Vec<u8>)
    ensures
        tokens(args.push(t)) == tokens(args).push(t@),
{
    assert(tokens(args.push(t)) =~= tokens(args).push(t@));
}

/// Appends one token, the bytes of `word`.
pub(crate) fn push_text(word: &str, out: &mut Vec<Vec<u8>>)
    ensures
        tokens(final(out)@) == tokens(old(out)@).push(text_token(word@)),
{
    let token = word.as_bytes_vec();
    proof {
        lemma_tokens_push(out@, token);
    }
    out.push(token);
}

/// Appends one token, `n` in decimal.
fn push_number(n: usize, out: &mut Vec<Vec<u8>>)
    ensures
        tokens(final(out)@) == tokens(old(out)@).push(decimal(n as nat)),
{
    let mut token: Vec<u8> = Vec::new();
    push_decimal(n, &mut token);
    proof {
        lemma_tokens_push(out@, token);
        assert(token@ =~= decimal(n as nat));
    }
    out.push(token);
}

/// Appends the keyword and the number when `value` is set.
fn push_numeric_option(keyword: &str, value: Option<usize>, out: &mut Vec<Vec<u8>>)
    ensures
        tokens(final(out)@) == tokens(old(out)@) + numeric_option(keyword@, value),
{
    if let Some(n) = value {
        push_text(keyword, out);
        push_number(n, out);
    }
    assert(tokens(out@) =~= tokens(old(out)@) + numeric_option(keyword@, value));
}

/// Appends the keyword when the flag is set.
fn push_flag_option(keyword: &str, set: bool, out: &mut Vec<Vec<u8>>)
    ensures
        tokens(final(out)@) == tokens(old(out)@) + flag_option(keyword@, set),
{
    if set {
        push_text(keyword, out);
    }
    assert(tokens(out@) =~= tokens(old(out)@) + flag_option(keyword@, set));
}

/// Appends a copy of each token of `args`, in order.
pub(crate) fn push_tokens(args: &Vec<Vec<u8>>, out: &mut Vec<Vec<u8>>)
    ensures
        tokens(final(out)@) == tokens(old(out)@) + tokens(args@),
{
    let mut i: usize = 0;
    while i < args.len()
        invariant
            i <= args.len(),
            tokens(out@) == tokens(old(out)@) + tokens(args@.take(i as int)),
        decreases args.len() - i,
    {
        let token = args[i].clone();
        proof {
            lemma_tokens_push(out@, token);
            assert(args@.take(i + 1) =~= args@.take(i as int).push(args@[i as int]));
            lemma_tokens_push(args@.take(i as int), args@[i as int]);
            assert(tokens(out@.push(token)) =~= tokens(old(out)@) + tokens(args@.take(i + 1)));
        }
        out.push(token);
        i += 1;
    }
    assert(args@.take(args.len() as int) =~= args@);
}

/// The trimming threshold of a stream: `MAXLEN`, then `=` for an exact count
/// or `~` for an approximate one, then the count.
#[derive(PartialEq, Eq, Clone, Copy, Debug, Structural)]
pub enum StreamMaxlen {
    Equals(usize),
    Aprrox(usize),
}

impl StreamMaxlen {
    /// The three tokens of the threshold.
    pub open spec fn tokens(self) -> Seq<Seq<u8>> {
        match self {
            StreamMaxlen::Equals(n) => seq![
                text_token("MAXLEN"@),
                text_token("="@),
                decimal(n as nat),
            ],
            StreamMaxlen::Aprrox(n) => seq![
                text_token("MAXLEN"@),
                text_token("~"@),
                decimal(n as nat),
            ],
        }
    }

    /// Appends the tokens of the threshold to `out`. The count is written by
    /// `redis`, as it writes any integer argument.
    pub fn write_redis_args(&self, out: &mut Vec<Vec<u8>>)
        ensures
            tokens(final(out)@) == tokens(old(out)@) + self.tokens(),
    {
        let (ch, val) = match *self {
            StreamMaxlen::Equals(v) => ("=", v),
            StreamMaxlen::Aprrox(v) => ("~", v),
        };
        push_text("MAXLEN", out);
        push_text(ch, out);
        write_usize_arg(val, out);
        assert(tokens(out@) =~= tokens(old(out)@) + self.tokens());
    }

    /// The tokens of the threshold as an argument list of their own.
    pub fn to_redis_args(&self) -> (args: Vec<Vec<u8>>)
        ensures
            tokens(args@) == self.tokens(),
    {
        let mut args: Vec<Vec<u8>> = Vec::new();
        self.write_redis_args(&mut args);
        assert(tokens(args@) =~= self.tokens());
        args
    }
}

/// What a [`StreamClaimOptions`] value holds.
pub struct ClaimOptionsView {
    pub idle: Option<usize>,
    pub time: Option<usize>,
    pub retry: Option<usize>,
    pub force: bool,
    pub justid: bool,
}

impl ClaimOptionsView {
    /// The options with nothing set.
    pub open spec fn unset() -> ClaimOptionsView {
        ClaimOptionsView { idle: None, time: None, retry: None, force: false, justid: false }
    }

    /// The options with the idle time set.
    pub open spec fn with_idle(self, ms: usize) -> ClaimOptionsView {
        ClaimOptionsView { idle: Some(ms), ..self }
    }

    /// The options with the last delivery time set.
    pub open spec fn with_time(self, ms_time: usize) -> ClaimOptionsView {
        ClaimOptionsView { time: Some(ms_time), ..self }
    }

    /// The options with the delivery counter set.
    pub open spec fn with_retry(self, count: usize) -> ClaimOptionsView {
        ClaimOptionsView { retry: Some(count), ..self }
    }

    /// The options with the `FORCE` flag set.
    pub open spec fn with_force(self) -> ClaimOptionsView {
        ClaimOptionsView { force: true, ..self }
    }

    /// The options with the `JUSTID` flag set.
    pub open spec fn with_justid(self) -> ClaimOptionsView {
        ClaimOptionsView { justid: true, ..self }
    }

    /// The tokens of the options: `IDLE n`, `TIME n`, `RETRYCOUNT n`, `FORCE`,
    /// `JUSTID`, each only if set, always in this order.
    pub open spec fn tokens(self) -> Seq<Seq<u8>> {
        numeric_option("IDLE"@, self.idle) + numeric_option("TIME"@, self.time) + numeric_option(
            "RETRYCOUNT"@,
            self.retry,
        ) + flag_option("FORCE"@, self.force) + flag_option("JUSTID"@, self.justid)
    }
}

/// The optional arguments of a claim. Every option starts unset; each builder
/// step sets one and leaves the others as they are.
///
/// With `JUSTID` the server replies with a list of ids in place of entries:
/// the caller reads the reply accordingly.
#[derive(Debug)]
pub struct StreamClaimOptions {
    idle: Option<usize>,
    time: Option<usize>,
    retry: Option<usize>,
    force: bool,
    justid: bool,
}

impl View for StreamClaimOptions {
    type V = ClaimOptionsView;

    closed spec fn view(&self) -> ClaimOptionsView {
        ClaimOptionsView {
            idle: self.idle,
            time: self.time,
            retry: self.retry,
            force: self.force,
            justid: self.justid,
        }
    }
}

impl Default for StreamClaimOptions {
    fn default() -> (options: StreamClaimOptions)
        ensures
            options@ == ClaimOptionsView::unset(),
    {
        StreamClaimOptions { idle: None, time: None, retry: None, force: false, justid: false }
    }
}

impl StreamClaimOptions {
    /// Sets the idle time, in milliseconds.
    pub fn idle(self, ms: usize) -> (options: StreamClaimOptions)
        ensures
            options@ == self@.with_idle(ms),
    {
        let mut options = self;
        options.idle = Some(ms);
        options
    }

    /// Sets the last delivery time, in milliseconds since the epoch.
    pub fn time(self, ms_time: usize) -> (options: StreamClaimOptions)
        ensures
            options@ == self@.with_time(ms_time),
    {
        let mut options = self;
        options.time = Some(ms_time);
        options
    }

    /// Sets the delivery counter.
    pub fn retry(self, count: usize) -> (options: StreamClaimOptions)
        ensures
            options@ == self@.with_retry(count),
    {
        let mut options = self;
        options.retry = Some(count);
        options
    }

    /// Sets the `FORCE` flag.
    pub fn with_force(self) -> (options: StreamClaimOptions)
        ensures
            options@ == self@.with_force(),
    {
        let mut options = self;
        options.force = true;
        options
    }

    /// Sets the `JUSTID` flag.
    pub fn with_justid(self) -> (options: StreamClaimOptions)
        ensures
            options@ == self@.with_justid(),
    {
        let mut options = self;
        options.justid = true;
        options
    }

    /// Appends the tokens of the options to `out`.
    pub fn write_redis_args(&self, out: &mut Vec<Vec<u8>>)
        ensures
            tokens(final(out)@) == tokens(old(out)@) + self@.tokens(),
    {
        push_numeric_option("IDLE", self.idle, out);
        push_numeric_option("TIME", self.time, out);
        push_numeric_option("RETRYCOUNT", self.retry, out);
        push_flag_option("FORCE", self.force, out);
        push_flag_option("JUSTID", self.justid, out);
        assert(tokens(out@) =~= tokens(old(out)@) + self@.tokens());
    }

    /// The tokens of the options as an argument list of their own.
    pub fn to_redis_args(&self) -> (args: Vec<Vec<u8>>)
        ensures
            tokens(args@) == self@.tokens(),
    {
        let mut args: Vec<Vec<u8>> = Vec::new();
        self.write_redis_args(&mut args);
        assert(tokens(args@) =~= self@.tokens());
        args
    }
}

/// What a [`StreamReadOptions`] value holds. `group` is the pair of the
/// group's and the consumer's tokens.
pub struct ReadOptionsView {
    pub block: Option<usize>,
    pub count: Option<usize>,
    pub noack: Option<bool>,
    pub group: Option<(Seq<Seq<u8>>, Seq<Seq<u8>>)>,
}

impl ReadOptionsView {
    /// The options with nothing set.
    pub open spec fn unset() -> ReadOptionsView {
        ReadOptionsView { block: None, count: None, noack: None, group: None }
    }

    /// The options with the `NOACK` flag set.
    pub open spec fn with_noack(self) -> ReadOptionsView {
        ReadOptionsView { noack: Some(true), ..self }
    }

    /// The options with the time to block for set.
    pub open spec fn with_block(self, ms: usize) -> ReadOptionsView {
        ReadOptionsView { block: Some(ms), ..self }
    }

    /// The options with the largest number of entries set.
    pub open spec fn with_count(self, n: usize) -> ReadOptionsView {
        ReadOptionsView { count: Some(n), ..self }
    }

    /// The options with the group and the consumer set.
    pub open spec fn with_group(
        self,
        group: Seq<Seq<u8>>,
        consumer: Seq<Seq<u8>>,
    ) -> ReadOptionsView {
        ReadOptionsView { group: Some((group, consumer)), ..self }
    }

    /// The tokens that the group contributes: nothing without a group; with
    /// one, `NOACK` if that flag is set, then `GROUP`, the group's tokens and
    /// the consumer's tokens.
    pub open spec fn group_tokens(self) -> Seq<Seq<u8>> {
        match self.group {
            Some((group, consumer)) => flag_option("NOACK"@, self.noack == Some(true)) + seq![
                text_token("GROUP"@),
            ] + group + consumer,
            None => Seq::empty(),
        }
    }

    /// The tokens of the options: `BLOCK n` and `COUNT n`, each only if set,
    /// then what the group contributes.
    pub open spec fn tokens(self) -> Seq<Seq<u8>> {
        numeric_option("BLOCK"@, self.block) + numeric_option("COUNT"@, self.count)
            + self.group_tokens()
    }
}

/// The optional arguments of a read. A group, once set, turns the read into a
/// read on behalf of a consumer of that group; `NOACK` has no effect without
/// one.
#[derive(Debug)]
pub struct StreamReadOptions {
    block: Option<usize>,
    count: Option<usize>,
    noack: Option<bool>,
    group: Option<(Vec<Vec<u8>>, Vec<Vec<u8>>)>,
}

impl View for StreamReadOptions {
    type V = ReadOptionsView;

    closed spec fn view(&self) -> ReadOptionsView {
        ReadOptionsView {
            block: self.block,
            count: self.count,
            noack: self.noack,
            group: match self.group {
                Some((group, consumer)) => Some((tokens(group@), tokens(consumer@))),
                None => None,
            },
        }
    }
}

impl Default for StreamReadOptions {
    fn default() -> (options: StreamReadOptions)
        ensures
            options@ == ReadOptionsView::unset(),
    {
        StreamReadOptions { block: None, count: None, noack: None, group: None }
    }
}

impl StreamReadOptions {
    /// Whether the read is a plain one, on behalf of no group.
    pub fn read_only(&self) -> (plain: bool)
        ensures
            plain == (self@.group is None),
    {
        self.group.is_none()
    }

    /// Sets the `NOACK` flag.
    pub fn noack(self) -> (options: StreamReadOptions)
        ensures
            options@ == self@.with_noack(),
    {
        let mut options = self;
        options.noack = Some(true);
        options
    }

    /// Sets the time to block for, in milliseconds.
    pub fn block(self, ms: usize) -> (options: StreamReadOptions)
        ensures
            options@ == self@.with_block(ms),
    {
        let mut options = self;
        options.block = Some(ms);
        options
    }

    /// Sets the largest number of entries to reply with for each stream.
    pub fn count(self, n: usize) -> (options: StreamReadOptions)
        ensures
            options@ == self@.with_count(n),
    {
        let mut options = self;
        options.count = Some(n);
        options
    }

    /// Sets the group and the consumer to read for, each given as its
    /// argument tokens.
    pub fn group(self, group_name: Vec<Vec<u8>>, consumer_name: Vec<Vec<u8>>) -> (options:
        StreamReadOptions)
        ensures
            options@ == self@.with_group(tokens(group_name@), tokens(consumer_name@)),
    {
        let mut options = self;
        options.group = Some((group_name, consumer_name));
        options
    }

    /// Appends the tokens of the options to `out`.
    pub fn write_redis_args(&self, out: &mut Vec<Vec<u8>>)
        ensures
            tokens(final(out)@) == tokens(old(out)@) + self@.tokens(),
    {
        push_numeric_option("BLOCK", self.block, out);
        push_numeric_option("COUNT", self.count, out);
        if let Some(ref group) = self.group {
            let noack = match self.noack {
                Some(flag) => flag,
                None => false,
            };
            push_flag_option("NOACK", noack, out);
            push_text("GROUP", out);
            push_tokens(&group.0, out);
            push_tokens(&group.1, out);
        }
        assert(tokens(out@) =~= tokens(old(out)@) + self@.tokens());
    }

    /// The tokens of the options as an argument list of their own.
    pub fn to_redis_args(&self) -> (args: Vec<Vec<u8>>)
        ensures
            tokens(args@) == self@.tokens(),
    {
        let mut args: Vec<Vec<u8>> = Vec::new();
        self.write_redis_args(&mut args);
        assert(tokens(args@) =~= self@.tokens());
        args
    }
}

/// Options with nothing set stand for no token at all.
pub proof fn lemma_unset_options_are_silent()
    ensures
        ClaimOptionsView::unset().tokens() == Seq::<Seq<u8>>::empty(),
        ReadOptionsView::unset().tokens() == Seq::<Seq<u8>>::empty(),
{
    assert(ClaimOptionsView::unset().tokens() =~= Seq::<Seq<u8>>::empty());
    assert(ReadOptionsView::unset().tokens() =~= Seq::<Seq<u8>>::empty());
}

/// The options of a claim do not depend on the order in which they were
/// set, and so neither do their tokens: any two steps give the same options
/// whichever comes first.
pub proof fn lemma_claim_steps_commute(options: ClaimOptionsView, a: usize, b: usize)
    ensures
        options.with_idle(a).with_time(b) == options.with_time(b).with_idle(a),
        options.with_idle(a).with_retry(b) == options.with_retry(b).with_idle(a),
        options.with_idle(a).with_force() == options.with_force().with_idle(a),
        options.with_idle(a).with_justid() == options.with_justid().with_idle(a),
        options.with_time(a).with_retry(b) == options.with_retry(b).with_time(a),
        options.with_time(a).with_force() == options.with_force().with_time(a),
        options.with_time(a).with_justid() == options.with_justid().with_time(a),
        options.with_retry(a).with_force() == options.with_force().with_retry(a),
        options.with_retry(a).with_justid() == options.with_justid().with_retry(a),
        options.with_force().with_justid() == options.with_justid().with_force(),
{
}

/// Without a group the `NOACK` flag stands for nothing: the tokens are those
/// of the same options without the flag, and `GROUP` is not among them.
pub proof fn lemma_noack_without_group(options: ReadOptionsView)
    requires
        options.group is None,
    ensures
        options.with_noack().tokens() == options.tokens(),
        options.tokens() == numeric_option("BLOCK"@, options.block) + numeric_option(
            "COUNT"@,
            options.count,
        ),
{
    assert(options.tokens() =~= numeric_option("BLOCK"@, options.block) + numeric_option(
        "COUNT"@,
        options.count,
    ));
}

/// With a group the `NOACK` flag stands for the token `NOACK`, directly before
/// `GROUP`, the group and the consumer.
pub proof fn lemma_noack_with_group(
    options: ReadOptionsView,
    group: Seq<Seq<u8>>,
    consumer: Seq<Seq<u8>>,
)
    requires
        options.group == Some((group, consumer)),
    ensures
        options.with_noack().tokens() == numeric_option("BLOCK"@, options.block) + numeric_option(
            "COUNT"@,
            options.count,
        ) + seq![
            text_token("NOACK"@),
            text_token("GROUP"@),
        ] + group + consumer,
{
    assert(options.with_noack().tokens() =~= numeric_option("BLOCK"@, options.block) + numeric_option(
        "COUNT"@,
        options.count,
    ) + seq![text_token("NOACK"@), text_token("GROUP"@)] + group + consumer);
}

} // verus!
