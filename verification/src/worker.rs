//! The identifier generator: one instance per worker slot, issuing
//! strictly increasing 64-bit identifiers.

use vstd::prelude::*;
use crate::clock;
use crate::layout::MAX_WORKER_ID;
use crate::layout::MAX_DATACENTER_ID;
use crate::layout::MAX_SEQUENCE;
use crate::layout::MAX_TIMESTAMP;
use crate::layout::WORKER_ID_FACTOR;
use crate::layout::DATACENTER_ID_FACTOR;
use crate::layout::WORKER_ID_SPAN;
use crate::layout::DATACENTER_ID_SPAN;
use crate::layout::encoded;
use crate::layout::encode;
use crate::layout::worker_of;
use crate::layout::datacenter_of;
use crate::layout::sequence_part_of;
use crate::layout::timestamp_part_of;
use crate::layout::lemma_decoded_of_encoded;
use crate::layout::lemma_decode_negative;

verus! {

/// The two failures the generator can report.  Both are final for the
/// call that raised them: no state is changed by a failing call.
#[derive(Debug, Clone, Copy, PartialEq, Eq, Structural)]
pub enum SnowflakeError {
    /// A node identity parameter lay outside its field's range at
    /// construction; carries the offending value and the allowed
    /// maximum.
    ConfigurationError { value: i64, max: i64 },
    /// The wall clock read a time before the last issued timestamp, or
    /// one the 41-bit timestamp field cannot hold.  Issuing an
    /// identifier anyway could repeat an earlier one, so none is
    /// issued.
    ClockError,
}

/// A generator bound to one `(worker_id, datacenter_id)` slot.
///
/// Not safe for concurrent calls from several threads of control: wrap
/// one instance in an external lock, or give each thread its own
/// instance with a distinct worker id.
#[derive(Debug)]
pub struct IdWorker {
    /// Identity of the producing worker; in `[0, MAX_WORKER_ID]`.
    pub worker_id: i64,
    /// Identity of the producing datacenter; in `[0, MAX_DATACENTER_ID]`.
    pub datacenter_id: i64,
    /// Count of identifiers already issued in the millisecond
    /// `last_timestamp`; in `[0, MAX_SEQUENCE]`.
    pub sequence: i64,
    /// Adjusted timestamp of the most recently issued identifier;
    /// never decreases over the life of the instance.
    pub last_timestamp: i64,
    /// Milliseconds subtracted from the wall clock before encoding, to
    /// keep the adjusted timestamp within its 41-bit field for decades.
    pub start_offset_timestamp: i64,
}

impl IdWorker {
    /// Every field within the range its bit field can hold.
    pub open spec fn wf(&self) -> bool {
        &&& 0 <= self.worker_id <= MAX_WORKER_ID
        &&& 0 <= self.datacenter_id <= MAX_DATACENTER_ID
        &&& 0 <= self.sequence <= MAX_SEQUENCE
        &&& 0 <= self.last_timestamp <= MAX_TIMESTAMP
    }

    /// The identifier value the current state encodes to.  Every call
    /// to `next_id` returns this code for the state it leaves behind,
    /// and each successful call strictly increases it.
    pub open spec fn current_code(&self) -> int {
        encoded(
            self.last_timestamp as int,
            self.datacenter_id as int,
            self.worker_id as int,
            self.sequence as int,
        )
    }

    /// Builds a generator for the given worker slot.  Succeeds exactly
    /// when both identity parameters are within their 5-bit ranges;
    /// otherwise reports the first offending parameter and its allowed
    /// maximum, worker id checked before datacenter id.
    pub fn new(worker_id: i64, datacenter_id: i64, start_offset_timestamp: i64) -> (r: Result<
        IdWorker,
        SnowflakeError,
    >)
        ensures
            match r {
                Ok(w) => {
                    &&& 0 <= worker_id <= MAX_WORKER_ID
                    &&& 0 <= datacenter_id <= MAX_DATACENTER_ID
                    &&& w.worker_id == worker_id
                    &&& w.datacenter_id == datacenter_id
                    &&& w.sequence == 0
                    &&& w.last_timestamp == 0
                    &&& w.start_offset_timestamp == start_offset_timestamp
                    &&& w.wf()
                },
                Err(e) => {
                    &&& !(0 <= worker_id <= MAX_WORKER_ID && 0 <= datacenter_id
                        <= MAX_DATACENTER_ID)
                    &&& (if worker_id < 0 || worker_id > MAX_WORKER_ID {
                        e == (SnowflakeError::ConfigurationError {
                            value: worker_id,
                            max: MAX_WORKER_ID,
                        })
                    } else {
                        e == (SnowflakeError::ConfigurationError {
                            value: datacenter_id,
                            max: MAX_DATACENTER_ID,
                        })
                    })
                },
            },
    {
        if worker_id < 0 || worker_id > MAX_WORKER_ID {
            return Err(SnowflakeError::ConfigurationError { value: worker_id, max: MAX_WORKER_ID });
        }
        if datacenter_id < 0 || datacenter_id > MAX_DATACENTER_ID {
            return Err(
                SnowflakeError::ConfigurationError {
                    value: datacenter_id,
                    max: MAX_DATACENTER_ID,
                },
            );
        }
        Ok(
            IdWorker {
                worker_id,
                datacenter_id,
                sequence: 0,
                last_timestamp: 0,
                start_offset_timestamp,
            },
        )
    }

    /// Reads the wall clock and subtracts the instance's epoch offset.
    /// `Ok` exactly when the adjusted time fits the timestamp field;
    /// what it carries is whatever the clock reported, so callers must
    /// treat it as arbitrary within that range.
    fn gen_time(&self) -> (r: Result<i64, SnowflakeError>)
        ensures
            match r {
                Ok(t) => 0 <= t <= MAX_TIMESTAMP,
                Err(e) => e == SnowflakeError::ClockError,
            },
    {
        let now_ms: u64 = clock::current_unix_millis();
        adjust_time(now_ms, self.start_offset_timestamp)
    }

    /// Polls the clock until it reads strictly later than
    /// `last_timestamp`: the backpressure that bounds the rate to one
    /// identifier per sequence value per millisecond.  Reports
    /// `ClockError` if a reading falls outside the timestamp field, or
    /// after `u64::MAX` fruitless polls (centuries of spinning; a cap
    /// only so that each call provably terminates).
    fn wait_next_millis(&self) -> (r: Result<i64, SnowflakeError>)
        ensures
            match r {
                Ok(t) => self.last_timestamp < t && t <= MAX_TIMESTAMP,
                Err(e) => e == SnowflakeError::ClockError,
            },
    {
        let mut polls: u64 = 0;
        loop
            decreases u64::MAX - polls,
        {
            let t: i64 = match self.gen_time() {
                Ok(t) => t,
                Err(e) => { return Err(e); },
            };
            if t > self.last_timestamp {
                return Ok(t);
            }
            if polls == u64::MAX {
                return Err(SnowflakeError::ClockError);
            }
            polls = polls + 1;
        }
    }

    /// The state transition of one issued identifier, for an already
    /// observed timestamp: within the same millisecond the sequence
    /// advances by one, in a later millisecond it restarts at zero, and
    /// the encoding of the new state is returned.  The result is
    /// strictly larger than the code of the previous state, whence
    /// identifiers from one instance never repeat and never decrease.
    pub fn issue_at(&mut self, timestamp: i64) -> (id: i64)
        requires
            old(self).wf(),
            old(self).last_timestamp <= timestamp <= MAX_TIMESTAMP,
            timestamp == old(self).last_timestamp ==> old(self).sequence < MAX_SEQUENCE,
        ensures
            final(self).wf(),
            final(self).worker_id == old(self).worker_id,
            final(self).datacenter_id == old(self).datacenter_id,
            final(self).start_offset_timestamp == old(self).start_offset_timestamp,
            final(self).last_timestamp == timestamp,
            timestamp == old(self).last_timestamp ==> final(self).sequence == old(self).sequence
                + 1,
            timestamp != old(self).last_timestamp ==> final(self).sequence == 0,
            id == final(self).current_code(),
            old(self).current_code() < id,
            0 <= id,
    {
        if timestamp == self.last_timestamp {
            self.sequence = self.sequence + 1;
        } else {
            self.sequence = 0;
        }
        self.last_timestamp = timestamp;
        encode(timestamp, self.datacenter_id, self.worker_id, self.sequence)
    }

    /// The decision `next_id` takes once the clock has been read,
    /// stated over the adjusted reading so that every outcome is
    /// pinned: a reading behind `last_timestamp` is a clock regression
    /// and fails with `ClockError`, and only such a reading does; a
    /// reading in the current millisecond with the sequence exhausted
    /// returns `Ok(None)`, asking the caller to wait for the next
    /// tick; any other reading issues the next identifier.  Failing
    /// and waiting leave the state untouched.
    pub fn advance(&mut self, timestamp: i64) -> (r: Result<Option<i64>, SnowflakeError>)
        requires
            old(self).wf(),
            0 <= timestamp <= MAX_TIMESTAMP,
        ensures
            final(self).wf(),
            final(self).worker_id == old(self).worker_id,
            final(self).datacenter_id == old(self).datacenter_id,
            final(self).start_offset_timestamp == old(self).start_offset_timestamp,
            match r {
                Ok(Some(id)) => {
                    &&& timestamp > old(self).last_timestamp
                        || (timestamp == old(self).last_timestamp
                            && old(self).sequence < MAX_SEQUENCE)
                    &&& final(self).last_timestamp == timestamp
                    &&& (timestamp == old(self).last_timestamp
                        ==> final(self).sequence == old(self).sequence + 1)
                    &&& (timestamp > old(self).last_timestamp ==> final(self).sequence == 0)
                    &&& id == final(self).current_code()
                    &&& old(self).current_code() < id
                    &&& 0 <= id
                },
                Ok(None) => {
                    &&& timestamp == old(self).last_timestamp
                    &&& old(self).sequence == MAX_SEQUENCE
                    &&& *final(self) == *old(self)
                },
                Err(e) => {
                    &&& e == SnowflakeError::ClockError
                    &&& timestamp < old(self).last_timestamp
                    &&& *final(self) == *old(self)
                },
            },
    {
        if timestamp < self.last_timestamp {
            // The clock ran backwards: issuing now could repeat an id.
            return Err(SnowflakeError::ClockError);
        }
        if timestamp == self.last_timestamp && self.sequence == MAX_SEQUENCE {
            // This millisecond's sequence values are spent.
            return Ok(None);
        }
        Ok(Some(self.issue_at(timestamp)))
    }

    /// Issues the next identifier.  On success the returned value
    /// encodes the new state and strictly exceeds the code of the old
    /// one, so identifiers from one instance are strictly increasing in
    /// call order.  A failing call reports `ClockError` and leaves the
    /// state exactly as it was; when that happens is pinned by
    /// `advance` and `adjust_time`, over the clock reading they are
    /// handed.
    pub fn next_id(&mut self) -> (r: Result<i64, SnowflakeError>)
        requires
            old(self).wf(),
        ensures
            final(self).wf(),
            final(self).worker_id == old(self).worker_id,
            final(self).datacenter_id == old(self).datacenter_id,
            final(self).start_offset_timestamp == old(self).start_offset_timestamp,
            match r {
                Ok(id) => {
                    &&& 0 <= id
                    &&& id == final(self).current_code()
                    &&& old(self).current_code() < id
                    &&& old(self).last_timestamp <= final(self).last_timestamp
                    &&& (final(self).last_timestamp == old(self).last_timestamp
                        ==> final(self).sequence == old(self).sequence + 1)
                    &&& (final(self).last_timestamp > old(self).last_timestamp
                        ==> final(self).sequence == 0)
                },
                Err(e) => *final(self) == *old(self) && e == SnowflakeError::ClockError,
            },
    {
        let timestamp: i64 = match self.gen_time() {
            Ok(t) => t,
            Err(e) => { return Err(e); },
        };
        match self.advance(timestamp) {
            Ok(Some(id)) => Ok(id),
            Ok(None) => {
                // This millisecond's sequence values are spent: hold
                // the caller until the clock ticks over, then issue in
                // the fresh millisecond.
                let next: i64 = match self.wait_next_millis() {
                    Ok(t) => t,
                    Err(e) => { return Err(e); },
                };
                Ok(self.issue_at(next))
            },
            Err(e) => Err(e),
        }
    }

    /// Reads the worker and datacenter ids back out of an identifier,
    /// as `(worker_id, datacenter_id)`.  Pure bit extraction under the
    /// fixed layout, total over all 64-bit inputs; an input that no
    /// generator produced still yields its two in-range field values.
    pub fn get_location(id: i64) -> (r: (i64, i64))
        ensures
            r.0 == worker_of(id),
            r.1 == datacenter_of(id),
            0 <= r.0 <= MAX_WORKER_ID,
            0 <= r.1 <= MAX_DATACENTER_ID,
    {
        let nonneg: u64 = if id >= 0 {
            id as u64
        } else {
            // Clearing the sign bit moves the unsigned image down by
            // 2^63, a multiple of 32 times either field's factor, so
            // both fields survive unchanged.
            proof {
                lemma_decode_negative(id);
            }
            ((id + i64::MAX) + 1) as u64
        };
        let w: u64 = (nonneg / (WORKER_ID_FACTOR as u64)) % (WORKER_ID_SPAN as u64);
        let d: u64 = (nonneg / (DATACENTER_ID_FACTOR as u64)) % (DATACENTER_ID_SPAN as u64);
        (w as i64, d as i64)
    }
}

/// Shifts a raw wall-clock reading by the epoch offset.  `Ok` exactly
/// when the difference fits the 41-bit timestamp field, carrying that
/// difference; `ClockError` exactly when it is negative or too wide.
fn adjust_time(now_ms: u64, offset: i64) -> (r: Result<i64, SnowflakeError>)
    ensures
        match r {
            Ok(t) => 0 <= t <= MAX_TIMESTAMP && t == now_ms - offset,
            Err(e) => e == SnowflakeError::ClockError && (now_ms - offset < 0 || now_ms - offset
                > MAX_TIMESTAMP),
        },
{
    let adjusted: i128 = now_ms as i128 - offset as i128;
    if adjusted < 0 || adjusted > MAX_TIMESTAMP as i128 {
        Err(SnowflakeError::ClockError)
    } else {
        Ok(adjusted as i64)
    }
}

/// One successful `next_id` call as its contract states it: `post` is
/// the state the call left behind and `id` the identifier it returned.
pub open spec fn step_issued(pre: IdWorker, post: IdWorker, id: i64) -> bool {
    &&& id == post.current_code()
    &&& pre.current_code() < id
}

/// Monotonicity law: across any run of successful `next_id` calls on
/// one instance, a later identifier is strictly larger than any
/// earlier one.  `states` holds the instance's state before the first
/// call and after each call; `ids` holds the returned identifiers.
pub proof fn lemma_run_monotonic(states: Seq<IdWorker>, ids: Seq<i64>, i: int, j: int)
    requires
        ids.len() + 1 == states.len(),
        forall|k: int| 0 <= k < ids.len() ==> #[trigger] step_issued(states[k], states[k + 1], ids[k]),
        0 <= i < j < ids.len(),
    ensures
        ids[i] < ids[j],
    decreases j - i,
{
    assert(step_issued(states[j], states[j + 1], ids[j]));
    if i + 1 == j {
        assert(step_issued(states[i], states[i + 1], ids[i]));
    } else {
        lemma_run_monotonic(states, ids, i, j - 1);
        let k: int = j - 1;
        assert(step_issued(states[k], states[k + 1], ids[k]));
        assert(states[k + 1] == states[j]);
    }
}

/// Uniqueness law: no identifier is ever returned twice across a run
/// of successful `next_id` calls on one instance.
pub proof fn lemma_run_distinct(states: Seq<IdWorker>, ids: Seq<i64>, i: int, j: int)
    requires
        ids.len() + 1 == states.len(),
        forall|k: int| 0 <= k < ids.len() ==> #[trigger] step_issued(states[k], states[k + 1], ids[k]),
        0 <= i < ids.len(),
        0 <= j < ids.len(),
        i != j,
    ensures
        ids[i] != ids[j],
{
    if i < j {
        lemma_run_monotonic(states, ids, i, j);
    } else {
        lemma_run_monotonic(states, ids, j, i);
    }
}

/// Round trip law: decoding the identifier a well-formed generator
/// state encodes to yields that state's four fields; in particular
/// `get_location` applied to anything `next_id` returned yields the
/// instance's `(worker_id, datacenter_id)`.
pub proof fn lemma_round_trip(g: IdWorker)
    requires
        g.wf(),
    ensures
        0 <= g.current_code() <= i64::MAX,
        worker_of(g.current_code() as i64) == g.worker_id,
        datacenter_of(g.current_code() as i64) == g.datacenter_id,
        sequence_part_of(g.current_code() as i64) == g.sequence,
        timestamp_part_of(g.current_code() as i64) == g.last_timestamp,
{
    lemma_decoded_of_encoded(
        g.last_timestamp as int,
        g.datacenter_id as int,
        g.worker_id as int,
        g.sequence as int,
    );
}

} // verus!
