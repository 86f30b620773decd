//! The ways in which reading a reply can fail.
use vstd::prelude::*;
use redis::RedisError;

verus! {

/// Why a reply could not be read.
#[derive(Debug)]
pub enum StreamError {
    /// The reply does not have the shape that the target is read from. The
    /// error is the one that `redis` gave, unchanged.
    Wire(RedisError),
    /// A summary of pending entries counts at least one entry and names no
    /// first id.
    MissingStartId,
    /// A summary of pending entries counts at least one entry and names no
    /// last id.
    MissingEndId,
    /// A row holds fewer fields than its rule reads.
    IncompleteRow,
}

impl StreamError {
    /// The message of an error that arises in reading a reply that `redis`
    /// accepted; `None` for an error of `redis`, which carries its own.
    pub open spec fn spec_message(self) -> Option<Seq<char>> {
        match self {
            StreamError::Wire(_) => None,
            StreamError::MissingStartId => Some(
                "IllegalState: Non-zero pending expects start id"@,
            ),
            StreamError::MissingEndId => Some("IllegalState: Non-zero pending expects end id"@),
            StreamError::IncompleteRow => Some("IllegalState: Row holds too few fields"@),
        }
    }

    /// The message of the error, where it has one of its own.
    pub fn message(&self) -> (text: Option<&'static str>)
        ensures
            match text {
                Some(t) => self.spec_message() == Some(t@),
                None => self.spec_message() is None,
            },
    {
        match self {
            StreamError::Wire(_) => None,
            StreamError::MissingStartId => Some("IllegalState: Non-zero pending expects start id"),
            StreamError::MissingEndId => Some("IllegalState: Non-zero pending expects end id"),
            StreamError::IncompleteRow => Some("IllegalState: Row holds too few fields"),
        }
    }
}

/// What a call returned, with the value replaced by its view.
pub open spec fn outcome<T: View>(r: Result<T, StreamError>) -> Result<T::V, StreamError> {
    match r {
        Ok(value) => Ok(value@),
        Err(e) => Err(e),
    }
}

/// A result of `redis` as a result of this library.
pub open spec fn wire_outcome<T>(r: Result<T, RedisError>) -> Result<T, StreamError> {
    match r {
        Ok(value) => Ok(value),
        Err(e) => Err(StreamError::Wire(e)),
    }
}

/// The values of the results, in order; where a result is an error, the
/// first error.
pub open spec fn collect<T>(results: Seq<Result<T, StreamError>>) -> Result<Seq<T>, StreamError>
    decreases results.len(),
{
    if results.len() == 0 {
        Ok(Seq::empty())
    } else {
        match collect(results.drop_last()) {
            Ok(values) => match results.last() {
                Ok(value) => Ok(values.push(value)),
                Err(e) => Err(e),
            },
            Err(e) => Err(e),
        }
    }
}

/// One more result after a run of values: its value joins them, its error
/// ends the run.
pub proof fn lemma_collect_step<T>(results: Seq<Result<T, StreamError>>, i: int)
    requires
        0 <= i < results.len(),
        collect(results.take(i)) is Ok,
    ensures
        collect(results.take(i + 1)) == match results[i] {
            Ok(value) => Ok::<Seq<T>, StreamError>(collect(results.take(i))->Ok_0.push(value)),
            Err(e) => Err::<Seq<T>, StreamError>(e),
        },
{
    assert(results.take(i + 1).drop_last() =~= results.take(i));
}

/// An error among the first results is the error of them all.
pub proof fn lemma_collect_error<T>(results: Seq<Result<T, StreamError>>, i: int)
    requires
        0 <= i <= results.len(),
        collect(results.take(i)) is Err,
    ensures
        collect(results) == collect(results.take(i)),
    decreases results.len() - i,
{
    if i < results.len() {
        assert(results.take(i + 1).drop_last() =~= results.take(i));
        lemma_collect_error(results, i + 1);
    } else {
        assert(results.take(i) =~= results);
    }
}

/// The error of a list of results is the error of one of them.
pub proof fn lemma_collect_errors_are_of_items<T>(results: Seq<Result<T, StreamError>>)
    ensures
        collect(results) matches Err(e) ==> exists|i: int|
            0 <= i < results.len() && #[trigger] results[i] == Err::<T, StreamError>(e),
    decreases results.len(),
{
    if results.len() > 0 {
        let front = results.drop_last();
        lemma_collect_errors_are_of_items(front);
        if let Err(e) = collect(results) {
            if let Err(early) = collect(front) {
                let i = choose|i: int|
                    0 <= i < front.len() && #[trigger] front[i] == Err::<T, StreamError>(early);
                assert(results[i] == Err::<T, StreamError>(e));
            } else {
                assert(results[results.len() - 1] == Err::<T, StreamError>(e));
            }
        }
    }
}

/// Where no result is an error there is one value for each result.
pub proof fn lemma_collect_len<T>(results: Seq<Result<T, StreamError>>)
    ensures
        collect(results) matches Ok(values) ==> values.len() == results.len(),
    decreases results.len(),
{
    if results.len() > 0 {
        lemma_collect_len(results.drop_last());
    }
}

} // verus!
