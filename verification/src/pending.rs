//! The replies of the command that reports entries delivered and not yet
//! acknowledged: the summary for a group, and the detailed list.
use vstd::prelude::*;
use redis::Value;
use crate::error::{
    collect, lemma_collect_error, lemma_collect_errors_are_of_items, lemma_collect_len,
    lemma_collect_step, outcome, StreamError,
};
use crate::info::{InfoConsumerView, StreamInfoConsumer};
use crate::decimal::{parse_count, parsed_count};
use crate::wire::{read_pending_parts, read_pending_rows, wire_pending_parts, wire_pending_rows};

verus! {

/// What a [`StreamPendingData`] holds.
pub struct PendingDataView {
    pub count: usize,
    pub start_id: Seq<char>,
    pub end_id: Seq<char>,
    pub consumers: Seq<InfoConsumerView>,
}

/// The summary of a group with pending entries: their number, the smallest
/// and the greatest of their ids, and for each consumer its name and the
/// number of its pending entries. The idle time of a consumer is not part of
/// a summary and stays zero.
#[derive(Clone, Debug)]
pub struct StreamPendingData {
    pub count: usize,
    pub start_id: String,
    pub end_id: String,
    pub consumers: Vec<StreamInfoConsumer>,
}

impl View for StreamPendingData {
    type V = PendingDataView;

    open spec fn view(&self) -> PendingDataView {
        PendingDataView {
            count: self.count,
            start_id: self.start_id@,
            end_id: self.end_id@,
            consumers: self.consumers.deep_view(),
        }
    }
}

impl Default for StreamPendingData {
    fn default() -> (data: StreamPendingData)
        ensures
            data@ == (PendingDataView {
                count: 0,
                start_id: Seq::empty(),
                end_id: Seq::empty(),
                consumers: Seq::empty(),
            }),
    {
        let data = StreamPendingData {
            count: 0,
            start_id: String::new(),
            end_id: String::new(),
            consumers: Vec::new(),
        };
        assert(data@.consumers =~= Seq::<InfoConsumerView>::empty());
        data
    }
}

/// What a [`StreamPendingReply`] holds.
pub enum PendingReplyView {
    Empty,
    Data(PendingDataView),
}

/// The summary of the pending entries of a group: `Empty` where there are
/// none.
#[derive(Clone, Debug)]
pub enum StreamPendingReply {
    Empty,
    Data(StreamPendingData),
}

impl View for StreamPendingReply {
    type V = PendingReplyView;

    open spec fn view(&self) -> PendingReplyView {
        match self {
            StreamPendingReply::Empty => PendingReplyView::Empty,
            StreamPendingReply::Data(data) => PendingReplyView::Data(data@),
        }
    }
}

impl Default for StreamPendingReply {
    fn default() -> (reply: StreamPendingReply)
        ensures
            reply@ == PendingReplyView::Empty,
    {
        StreamPendingReply::Empty
    }
}

/// The consumer that a row of a summary stands for: its first text is the
/// name, its second the number of pending entries. A second text that stands
/// for no count counts as zero. A row of fewer than two texts is incomplete.
pub open spec fn pending_consumer(row: Seq<Seq<char>>) -> Result<InfoConsumerView, StreamError> {
    if row.len() < 2 {
        Err(StreamError::IncompleteRow)
    } else {
        Ok(
            InfoConsumerView {
                name: row[0],
                pending: match parsed_count(vstd::utf8::encode_utf8(row[1])) {
                    Some(n) => n,
                    None => 0,
                },
                idle: 0,
            },
        )
    }
}

/// The summary that the four parts of a reply stand for.
///
/// A count of zero gives `Empty`, whatever the other parts hold. With any
/// other count both ids are required: a missing first id is told before
/// a missing last id, and both before an incomplete row.
pub open spec fn pending_reply(
    count: usize,
    start_id: Option<Seq<char>>,
    end_id: Option<Seq<char>>,
    consumers: Seq<Seq<Seq<char>>>,
) -> Result<PendingReplyView, StreamError> {
    if count == 0 {
        Ok(PendingReplyView::Empty)
    } else if start_id is None {
        Err(StreamError::MissingStartId)
    } else if end_id is None {
        Err(StreamError::MissingEndId)
    } else {
        match collect(consumers.map_values(|row: Seq<Seq<char>>| pending_consumer(row))) {
            Ok(consumers) => Ok(
                PendingReplyView::Data(
                    PendingDataView {
                        count,
                        start_id: start_id->Some_0,
                        end_id: end_id->Some_0,
                        consumers,
                    },
                ),
            ),
            Err(e) => Err(e),
        }
    }
}

/// A summary that counts no entry is empty, whatever its other parts hold.
pub proof fn lemma_zero_count_is_empty(
    start_id: Option<Seq<char>>,
    end_id: Option<Seq<char>>,
    consumers: Seq<Seq<Seq<char>>>,
)
    ensures
        pending_reply(0, start_id, end_id, consumers) == Ok::<PendingReplyView, StreamError>(
            PendingReplyView::Empty,
        ),
{
}

/// A summary that counts an entry and lacks an id is refused for that
/// reason, whatever its rows hold; with both ids missing, for the first.
pub proof fn lemma_count_requires_ids(
    count: usize,
    start_id: Option<Seq<char>>,
    end_id: Option<Seq<char>>,
    consumers: Seq<Seq<Seq<char>>>,
)
    requires
        count != 0,
        start_id is None || end_id is None,
    ensures
        pending_reply(count, start_id, end_id, consumers) == Err::<PendingReplyView, StreamError>(
            if start_id is None {
                StreamError::MissingStartId
            } else {
                StreamError::MissingEndId
            },
        ),
{
}

/// A summary that counts an entry and has both ids gives data with that
/// count and those ids, unless a row is incomplete: no other error arises.
pub proof fn lemma_count_with_ids(
    count: usize,
    start_id: Seq<char>,
    end_id: Seq<char>,
    consumers: Seq<Seq<Seq<char>>>,
)
    requires
        count != 0,
    ensures
        match pending_reply(count, Some(start_id), Some(end_id), consumers) {
            Ok(PendingReplyView::Data(data)) => data.count == count && data.start_id == start_id
                && data.end_id == end_id && data.consumers.len() == consumers.len(),
            Ok(PendingReplyView::Empty) => false,
            Err(e) => e == StreamError::IncompleteRow,
        },
{
    let results = consumers.map_values(|row: Seq<Seq<char>>| pending_consumer(row));
    lemma_collect_errors_are_of_items(results);
    lemma_collect_len(results);
}

/// Reads the consumer of one row of a summary.
fn read_pending_consumer(row: &Vec<String>) -> (r: Result<StreamInfoConsumer, StreamError>)
    ensures
        outcome(r) == pending_consumer(row.deep_view()),
{
    if row.len() < 2 {
        return Err(StreamError::IncompleteRow);
    }
    let name = row[0].clone();
    let pending = match parse_count(row[1].as_str()) {
        Some(n) => n,
        None => 0,
    };
    Ok(StreamInfoConsumer { name, pending, idle: 0 })
}

impl StreamPendingReply {
    /// The number of pending entries.
    pub fn count(&self) -> (n: usize)
        ensures
            n == match self@ {
                PendingReplyView::Empty => 0,
                PendingReplyView::Data(data) => data.count,
            },
    {
        match self {
            StreamPendingReply::Empty => 0,
            StreamPendingReply::Data(x) => x.count,
        }
    }

    /// The summary that the four parts of a reply stand for.
    pub fn from_parts(
        count: usize,
        start_id: Option<String>,
        end_id: Option<String>,
        consumers: &Vec<Vec<String>>,
    ) -> (r: Result<StreamPendingReply, StreamError>)
        ensures
            outcome(r) == pending_reply(
                count,
                start_id.deep_view(),
                end_id.deep_view(),
                consumers.deep_view(),
            ),
    {
        if count == 0 {
            return Ok(StreamPendingReply::Empty);
        }
        let first = match start_id {
            Some(start) => start,
            None => {
                return Err(StreamError::MissingStartId);
            },
        };
        let last = match end_id {
            Some(end) => end,
            None => {
                return Err(StreamError::MissingEndId);
            },
        };
        let ghost results = consumers.deep_view().map_values(
            |row: Seq<Seq<char>>| pending_consumer(row),
        );
        let mut infos: Vec<StreamInfoConsumer> = Vec::new();
        let mut i: usize = 0;
        proof {
            assert(results.take(0) =~= Seq::empty());
            assert(infos.deep_view() =~= Seq::<InfoConsumerView>::empty());
        }
        while i < consumers.len()
            invariant
                i <= consumers.len(),
                count != 0,
                start_id is Some,
                end_id is Some,
                results == consumers.deep_view().map_values(
                    |row: Seq<Seq<char>>| pending_consumer(row),
                ),
                collect(results.take(i as int)) == Ok::<Seq<InfoConsumerView>, StreamError>(
                    infos.deep_view(),
                ),
            decreases consumers.len() - i,
        {
            let ghost before = infos.deep_view();
            proof {
                lemma_collect_step(results, i as int);
            }
            match read_pending_consumer(&consumers[i]) {
                Ok(info) => {
                    infos.push(info);
                    proof {
                        assert(infos.deep_view() =~= before.push(info@));
                    }
                },
                Err(e) => {
                    proof {
                        lemma_collect_error(results, i + 1);
                    }
                    return Err(e);
                },
            }
            i += 1;
        }
        proof {
            assert(results.take(consumers.len() as int) =~= results);
        }
        Ok(
            StreamPendingReply::Data(
                StreamPendingData { count, start_id: first, end_id: last, consumers: infos },
            ),
        )
    }

    /// Reads the reply of the command that sums up the pending entries of a
    /// group.
    pub fn from_redis_value(v: &Value) -> (r: Result<StreamPendingReply, StreamError>)
        ensures
            outcome(r) == match wire_pending_parts(*v) {
                Ok(parts) => pending_reply(parts.0, parts.1, parts.2, parts.3),
                Err(e) => Err(StreamError::Wire(e)),
            },
    {
        match read_pending_parts(v) {
            Ok(parts) => {
                let (count, start_id, end_id, consumers) = parts;
                StreamPendingReply::from_parts(count, start_id, end_id, &consumers)
            },
            Err(e) => Err(StreamError::Wire(e)),
        }
    }
}

/// What a [`StreamPendingId`] holds.
pub struct PendingIdView {
    pub id: Seq<char>,
    pub consumer: Seq<char>,
    pub last_delivered_ms: usize,
    pub times_delivered: usize,
}

/// One pending entry: its id, the consumer it was delivered to, the
/// milliseconds since its last delivery, and the number of its deliveries.
#[derive(Clone, Debug)]
pub struct StreamPendingId {
    pub id: String,
    pub consumer: String,
    pub last_delivered_ms: usize,
    pub times_delivered: usize,
}

impl View for StreamPendingId {
    type V = PendingIdView;

    open spec fn view(&self) -> PendingIdView {
        PendingIdView {
            id: self.id@,
            consumer: self.consumer@,
            last_delivered_ms: self.last_delivered_ms,
            times_delivered: self.times_delivered,
        }
    }
}

impl DeepView for StreamPendingId {
    type V = PendingIdView;

    open spec fn deep_view(&self) -> PendingIdView {
        self@
    }
}

impl Default for StreamPendingId {
    fn default() -> (entry: StreamPendingId)
        ensures
            entry@ == (PendingIdView {
                id: Seq::empty(),
                consumer: Seq::empty(),
                last_delivered_ms: 0,
                times_delivered: 0,
            }),
    {
        StreamPendingId {
            id: String::new(),
            consumer: String::new(),
            last_delivered_ms: 0,
            times_delivered: 0,
        }
    }
}

/// The pending entry that a row of the detailed list stands for: the first
/// group of four that was read from it. A row from which none was read is
/// incomplete.
pub open spec fn pending_id(row: Seq<(Seq<char>, Seq<char>, usize, usize)>) -> Result<
    PendingIdView,
    StreamError,
> {
    if row.len() == 0 {
        Err(StreamError::IncompleteRow)
    } else {
        Ok(
            PendingIdView {
                id: row[0].0,
                consumer: row[0].1,
                last_delivered_ms: row[0].2,
                times_delivered: row[0].3,
            },
        )
    }
}

/// The pending entries that the rows stand for, in order; the first
/// incomplete row gives the error.
pub open spec fn pending_ids(rows: Seq<Seq<(Seq<char>, Seq<char>, usize, usize)>>) -> Result<
    Seq<PendingIdView>,
    StreamError,
> {
    collect(rows.map_values(|row: Seq<(Seq<char>, Seq<char>, usize, usize)>| pending_id(row)))
}

/// Reads the pending entry of one row.
fn read_pending_id(row: &Vec<(String, String, usize, usize)>) -> (r: Result<
    StreamPendingId,
    StreamError,
>)
    ensures
        outcome(r) == pending_id(row.deep_view()),
{
    if row.len() == 0 {
        return Err(StreamError::IncompleteRow);
    }
    Ok(
        StreamPendingId {
            id: row[0].0.clone(),
            consumer: row[0].1.clone(),
            last_delivered_ms: row[0].2,
            times_delivered: row[0].3,
        },
    )
}

/// The detailed list of pending entries, in the order of the reply.
#[derive(Clone, Debug)]
pub struct StreamPendingCountReply {
    pub ids: Vec<StreamPendingId>,
}

impl View for StreamPendingCountReply {
    type V = Seq<PendingIdView>;

    open spec fn view(&self) -> Seq<PendingIdView> {
        self.ids.deep_view()
    }
}

impl Default for StreamPendingCountReply {
    fn default() -> (reply: StreamPendingCountReply)
        ensures
            reply@ == Seq::<PendingIdView>::empty(),
    {
        let reply = StreamPendingCountReply { ids: Vec::new() };
        assert(reply@ =~= Seq::<PendingIdView>::empty());
        reply
    }
}

impl StreamPendingCountReply {
    /// The reply that the rows stand for: one pending entry for each row.
    pub fn from_rows(rows: &Vec<Vec<(String, String, usize, usize)>>) -> (r: Result<
        StreamPendingCountReply,
        StreamError,
    >)
        ensures
            outcome(r) == pending_ids(rows.deep_view()),
    {
        let ghost results = rows.deep_view().map_values(
            |row: Seq<(Seq<char>, Seq<char>, usize, usize)>| pending_id(row),
        );
        let mut ids: Vec<StreamPendingId> = Vec::new();
        let mut i: usize = 0;
        proof {
            assert(results.take(0) =~= Seq::empty());
            assert(ids.deep_view() =~= Seq::<PendingIdView>::empty());
        }
        while i < rows.len()
            invariant
                i <= rows.len(),
                results == rows.deep_view().map_values(
                    |row: Seq<(Seq<char>, Seq<char>, usize, usize)>| pending_id(row),
                ),
                collect(results.take(i as int)) == Ok::<Seq<PendingIdView>, StreamError>(
                    ids.deep_view(),
                ),
            decreases rows.len() - i,
        {
            let ghost before = ids.deep_view();
            proof {
                lemma_collect_step(results, i as int);
            }
            match read_pending_id(&rows[i]) {
                Ok(p) => {
                    ids.push(p);
                    proof {
                        assert(ids.deep_view() =~= before.push(p@));
                    }
                },
                Err(e) => {
                    proof {
                        lemma_collect_error(results, i + 1);
                    }
                    return Err(e);
                },
            }
            i += 1;
        }
        proof {
            assert(results.take(rows.len() as int) =~= results);
        }
        Ok(StreamPendingCountReply { ids })
    }

    /// Reads the reply of the command that lists pending entries one by one.
    pub fn from_redis_value(v: &Value) -> (r: Result<StreamPendingCountReply, StreamError>)
        ensures
            outcome(r) == match wire_pending_rows(*v) {
                Ok(rows) => pending_ids(rows),
                Err(e) => Err(StreamError::Wire(e)),
            },
    {
        match read_pending_rows(v) {
            Ok(rows) => StreamPendingCountReply::from_rows(&rows),
            Err(e) => Err(StreamError::Wire(e)),
        }
    }
}

} // verus!
