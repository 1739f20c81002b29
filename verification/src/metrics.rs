//! The two metrics, free of input and output.
//!
//! `time_to_mine` needs two blocks, one after the other. It is written as a
//! sequence of steps: each step either names the height of the block to
//! resolve next, or ends with the result. The caller resolves the block and
//! resumes with the outcome. `number_of_transactions` needs one block and
//! takes the outcome of resolving it.

use vstd::prelude::*;
use crate::block::Block;
use crate::duration::Duration;

verus! {

/// Why a metric could not be computed.
#[derive(Clone, Debug, PartialEq, Eq)]
pub enum MetricError<E> {
    /// The height was zero: the first block has no predecessor to measure
    /// from.
    NoPredecessor,
    /// A block could not be resolved. The cause is handed on as it came.
    Rpc(E),
}

/// What `time_to_mine` waits for between two steps.
#[derive(Clone, Copy, Debug, PartialEq, Eq)]
pub enum Pending {
    /// The block itself; `previous` is the height of its predecessor.
    Current { previous: u64 },
    /// The predecessor; `current_time` is the timestamp of the block itself.
    Previous { current_time: u32 },
}

/// A step of `time_to_mine`.
#[derive(Debug, PartialEq, Eq)]
pub enum Progress<E> {
    /// Resolve the block at `height`, then resume `then` with the outcome.
    Fetch { height: u64, then: Pending },
    /// The computation is over.
    Done(Result<Duration, MetricError<E>>),
}

/// The time from the block at `height` back to its predecessor, where `chain`
/// says how each height resolves: the difference of the two timestamps in
/// seconds, negative where the predecessor claims the later time. The block
/// itself is looked at first, and the first failure is the result.
pub open spec fn mining_time<T, E>(
    height: u64,
    chain: spec_fn(u64) -> Result<Block<T>, E>,
) -> Result<Duration, MetricError<E>> {
    if height == 0 {
        Err(MetricError::NoPredecessor)
    } else {
        match chain(height) {
            Err(e) => Err(MetricError::Rpc(e)),
            Ok(current) => match chain((height - 1) as u64) {
                Err(e) => Err(MetricError::Rpc(e)),
                Ok(previous) => Ok(Duration::of_seconds(current.time - previous.time)),
            },
        }
    }
}

/// The first step of `time_to_mine` at `height`.
pub open spec fn first_step<E>(height: u64) -> Progress<E> {
    if height == 0 {
        Progress::Done(Err(MetricError::NoPredecessor))
    } else {
        Progress::Fetch { height, then: Pending::Current { previous: (height - 1) as u64 } }
    }
}

impl Pending {
    /// The step that follows when the awaited block resolved as `fetched`.
    pub open spec fn next_step<T, E>(self, fetched: Result<Block<T>, E>) -> Progress<E> {
        match fetched {
            Err(e) => Progress::Done(Err(MetricError::Rpc(e))),
            Ok(block) => match self {
                Pending::Current { previous } => Progress::Fetch {
                    height: previous,
                    then: Pending::Previous { current_time: block.time },
                },
                Pending::Previous { current_time } => Progress::Done(
                    Ok(Duration::of_seconds(current_time - block.time)),
                ),
            },
        }
    }

    /// Takes the outcome of resolving the awaited block and gives the next
    /// step. A failure ends the computation with its cause.
    pub fn resume<T, E>(self, fetched: Result<Block<T>, E>) -> (r: Progress<E>)
        ensures
            r == self.next_step(fetched),
    {
        match fetched {
            Err(e) => Progress::Done(Err(MetricError::Rpc(e))),
            Ok(block) => match self {
                Pending::Current { previous } => Progress::Fetch {
                    height: previous,
                    then: Pending::Previous { current_time: block.time },
                },
                Pending::Previous { current_time } => Progress::Done(
                    Ok(elapsed(current_time, block.time)),
                ),
            },
        }
    }
}

/// The span from `previous_time` to `current_time`, two timestamps in seconds.
pub fn elapsed(current_time: u32, previous_time: u32) -> (d: Duration)
    ensures
        d == Duration::of_seconds(current_time - previous_time),
        d.wf(),
        d.nanoseconds() == (current_time - previous_time) * 1_000_000_000,
{
    let seconds: i64 = current_time as i64 - previous_time as i64;
    Duration::new(seconds, 0).unwrap()
}

/// Begins to compute the time between the block at `block_height` and its
/// predecessor. At height zero there is no predecessor, and the computation
/// ends at once without asking for a block.
pub fn time_to_mine<E>(block_height: u64) -> (r: Progress<E>)
    ensures
        r == first_step::<E>(block_height),
{
    if block_height == 0 {
        Progress::Done(Err(MetricError::NoPredecessor))
    } else {
        Progress::Fetch {
            height: block_height,
            then: Pending::Current { previous: block_height - 1 },
        }
    }
}

/// The number of transactions of a block, from the outcome of resolving it.
///
/// The count is cut to its low 16 bits: a block of 65536 transactions or more
/// is reported by the remainder of its count at division by 65536. A failure
/// is handed on as it came.
pub fn number_of_transactions<T, E>(fetched: Result<Block<T>, E>) -> (r: Result<u16, E>)
    ensures
        match fetched {
            Ok(block) => r == Ok::<u16, E>((block.transactions() % 65536) as u16),
            Err(e) => r == Err::<u16, E>(e),
        },
        fetched matches Ok(block) ==> (block.transactions() < 65536 ==> r == Ok::<u16, E>(
            block.transactions() as u16,
        )),
{
    match fetched {
        Ok(block) => {
            let count: usize = block.txdata.len();
            assert(count as u16 == count % 65536) by (bit_vector);
            Ok(#[verifier::truncate] (count as u16))
        },
        Err(e) => Err(e),
    }
}

/// Where `progress` stands after at most `rounds` more blocks were asked for
/// and each resolved as `chain` says.
pub open spec fn advance<T, E>(
    progress: Progress<E>,
    chain: spec_fn(u64) -> Result<Block<T>, E>,
    rounds: nat,
) -> Progress<E>
    decreases rounds,
{
    match progress {
        Progress::Fetch { height, then } if rounds > 0 => advance(
            then.next_step(chain(height)),
            chain,
            (rounds - 1) as nat,
        ),
        _ => progress,
    }
}

/// Where `time_to_mine` at `height` stands once two blocks at most were asked
/// for and each resolved as `chain` says.
pub open spec fn time_to_mine_on<T, E>(
    height: u64,
    chain: spec_fn(u64) -> Result<Block<T>, E>,
) -> Progress<E> {
    advance(first_step(height), chain, 2)
}

/// Whatever the chain holds, `time_to_mine` is over after two blocks at most,
/// and its result is the mining time: it asks for the block itself, then for
/// its predecessor, and for nothing after a failure.
pub proof fn time_to_mine_ends_with_mining_time<T, E>(
    height: u64,
    chain: spec_fn(u64) -> Result<Block<T>, E>,
)
    ensures
        time_to_mine_on(height, chain) == Progress::Done(mining_time(height, chain)),
{
    reveal_with_fuel(advance, 3);
}

/// At a height of one or more, where the block and its predecessor both
/// resolve, `time_to_mine` gives the timestamp of the block less that of its
/// predecessor, in whole seconds.
pub proof fn time_to_mine_is_timestamp_difference<T, E>(
    height: u64,
    chain: spec_fn(u64) -> Result<Block<T>, E>,
)
    requires
        height >= 1,
        chain(height) is Ok,
        chain((height - 1) as u64) is Ok,
    ensures
        time_to_mine_on(height, chain) matches Progress::Done(Ok(d))
            && d.seconds == chain(height)->Ok_0.time - chain((height - 1) as u64)->Ok_0.time
            && d.subsec_nanos == 0,
{
    reveal_with_fuel(advance, 3);
}

/// `time_to_mine` fails for want of a predecessor at height zero and nowhere
/// else, and at height zero no block is asked for.
pub proof fn time_to_mine_needs_predecessor<T, E>(
    height: u64,
    chain: spec_fn(u64) -> Result<Block<T>, E>,
)
    ensures
        time_to_mine_on(height, chain) == Progress::<E>::Done(Err(MetricError::NoPredecessor))
            <==> height == 0,
        height == 0 ==> first_step::<E>(height) is Done,
{
    reveal_with_fuel(advance, 3);
}

/// Where no block can be resolved, `time_to_mine` at a height of one or more
/// fails with the cause that the first request met.
pub proof fn time_to_mine_fails_when_nothing_resolves<T, E>(
    height: u64,
    chain: spec_fn(u64) -> Result<Block<T>, E>,
)
    requires
        height >= 1,
        forall|h: u64| (#[trigger] chain(h)) is Err,
    ensures
        time_to_mine_on(height, chain) == Progress::<E>::Done(
            Err(MetricError::Rpc(chain(height)->Err_0)),
        ),
{
    reveal_with_fuel(advance, 3);
}

/// `time_to_mine` succeeds exactly where the height is one or more and both
/// blocks resolve; otherwise it fails.
pub proof fn time_to_mine_succeeds_iff_both_resolve<T, E>(
    height: u64,
    chain: spec_fn(u64) -> Result<Block<T>, E>,
)
    ensures
        time_to_mine_on(height, chain) is Done,
        time_to_mine_on(height, chain)->Done_0 is Ok <==> height >= 1 && chain(height) is Ok
            && chain((height - 1) as u64) is Ok,
{
    reveal_with_fuel(advance, 3);
}

} // verus!
