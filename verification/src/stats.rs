//! The counters of the server's statistics: calls into the mission scripting environment,
//! events received from it, the queue of waiting calls and the time DCS was blocked.
use vstd::prelude::*;

verus! {

/// `x + 1`, wrapping around at the end of the `u32` range.
pub open spec fn wrapping_inc(x: u32) -> u32 {
    if x == u32::MAX {
        0
    } else {
        (x + 1) as u32
    }
}

/// `x - 1`, wrapping around at the start of the `u32` range.
pub open spec fn wrapping_dec(x: u32) -> u32 {
    if x == 0 {
        u32::MAX
    } else {
        (x - 1) as u32
    }
}

/// `x + y`, wrapping around at the end of the `usize` range.
pub open spec fn wrapping_add_usize(x: usize, y: usize) -> usize {
    if x + y > usize::MAX {
        (x + y - usize::MAX - 1) as usize
    } else {
        (x + y) as usize
    }
}

/// `x`, or the largest `usize` where `x` does not fit one.
pub open spec fn saturate_usize(x: u128) -> usize {
    if x > usize::MAX {
        usize::MAX
    } else {
        x as usize
    }
}

/// The counters of the statistics.
#[derive(Clone, Copy, Debug, PartialEq, Eq, Structural)]
pub struct Stats {
    /// Calls into the mission scripting environment since the last summary.
    pub calls_count: u32,
    /// Events received from the mission scripting environment.
    pub events_count: u32,
    /// Calls waiting in the queue.
    pub queue_size: u32,
    /// Nanoseconds DCS was blocked since the last summary.
    pub nanoseconds_waited: usize,
    /// The sum of the queue sizes seen at each tick of the current interval.
    pub queue_size_total: u32,
    /// The largest queue size seen at a tick of the current interval.
    pub queue_size_highest: u32,
}

impl Stats {
    /// Statistics that have counted nothing yet.
    pub fn new() -> (r: Stats)
        ensures
            r == (Stats {
                calls_count: 0,
                events_count: 0,
                queue_size: 0,
                nanoseconds_waited: 0,
                queue_size_total: 0,
                queue_size_highest: 0,
            }),
    {
        Stats {
            calls_count: 0,
            events_count: 0,
            queue_size: 0,
            nanoseconds_waited: 0,
            queue_size_total: 0,
            queue_size_highest: 0,
        }
    }

    /// Counts a call into the mission scripting environment.
    pub fn track_call(&mut self)
        ensures
            *final(self) == (Stats { calls_count: wrapping_inc(old(self).calls_count), ..*old(self) }),
    {
        self.calls_count = self.calls_count.wrapping_add(1);
    }

    /// Counts an event received from the mission scripting environment.
    pub fn track_event(&mut self)
        ensures
            *final(self) == (Stats { events_count: wrapping_inc(old(self).events_count), ..*old(self) }),
    {
        self.events_count = self.events_count.wrapping_add(1);
    }

    /// Starts to time a blocking call from DCS. The time is added by `add_block_time` once
    /// the call ends; a call into the mission scripting environment is counted by
    /// `track_call` alone, so starting to time one changes no counter.
    pub fn track_block_time(&mut self)
        ensures
            *final(self) == *old(self),
    {
    }

    /// Adds the time of a finished blocking call: `elapsed_nanos`, as much as fits a `usize`,
    /// wrapping around at the end of its range.
    pub fn add_block_time(&mut self, elapsed_nanos: u128)
        ensures
            *final(self) == (Stats {
                nanoseconds_waited: wrapping_add_usize(
                    old(self).nanoseconds_waited,
                    saturate_usize(elapsed_nanos),
                ),
                ..*old(self)
            }),
    {
        let n: usize = if elapsed_nanos > usize::MAX as u128 {
            usize::MAX
        } else {
            elapsed_nanos as usize
        };
        self.nanoseconds_waited = self.nanoseconds_waited.wrapping_add(n);
    }

    /// Counts a call that enters the queue.
    pub fn track_queue_size(&mut self)
        ensures
            *final(self) == (Stats { queue_size: wrapping_inc(old(self).queue_size), ..*old(self) }),
    {
        self.queue_size = self.queue_size.wrapping_add(1);
    }

    /// Counts a call that leaves the queue.
    pub fn untrack_queue_size(&mut self)
        ensures
            *final(self) == (Stats { queue_size: wrapping_dec(old(self).queue_size), ..*old(self) }),
    {
        self.queue_size = self.queue_size.wrapping_sub(1);
    }

    /// Records the queue size at a tick of the interval.
    pub fn record_queue_size(&mut self)
        requires
            old(self).queue_size_total + old(self).queue_size <= u32::MAX,
        ensures
            *final(self) == (Stats {
                queue_size_total: (old(self).queue_size_total + old(self).queue_size) as u32,
                queue_size_highest: if old(self).queue_size > old(self).queue_size_highest {
                    old(self).queue_size
                } else {
                    old(self).queue_size_highest
                },
                ..*old(self)
            }),
    {
        self.queue_size_total = self.queue_size_total + self.queue_size;
        if self.queue_size > self.queue_size_highest {
            self.queue_size_highest = self.queue_size;
        }
    }

    /// Starts a new summary interval: hands back the blocked time of the ending one, and
    /// clears the calls, the blocked time and the queue figures of the interval. Events and
    /// the queue itself keep counting.
    pub fn start_interval(&mut self) -> (r: usize)
        ensures
            r == old(self).nanoseconds_waited,
            *final(self) == (Stats {
                calls_count: 0,
                nanoseconds_waited: 0,
                queue_size_total: 0,
                queue_size_highest: 0,
                ..*old(self)
            }),
    {
        let waited = self.nanoseconds_waited;
        self.nanoseconds_waited = 0;
        self.calls_count = 0;
        self.queue_size_total = 0;
        self.queue_size_highest = 0;
        waited
    }
}

/// A call that enters the queue and then leaves it leaves the queue size as it was, and so
/// does a call that leaves and then enters.
pub proof fn lemma_queue_enter_leave(q: u32)
    ensures
        wrapping_dec(wrapping_inc(q)) == q,
        wrapping_inc(wrapping_dec(q)) == q,
{
}

/// The queue size after the steps `ops`, starting from `q`: each `true` is a call that
/// enters the queue (`track_queue_size`), each `false` one that leaves it
/// (`untrack_queue_size`).
pub open spec fn queue_after(q: u32, ops: Seq<bool>) -> u32
    decreases ops.len(),
{
    if ops.len() == 0 {
        q
    } else if ops.last() {
        wrapping_inc(queue_after(q, ops.drop_last()))
    } else {
        wrapping_dec(queue_after(q, ops.drop_last()))
    }
}

/// The number of calls that are in the queue after the steps `ops`: those that entered,
/// less those that left.
pub open spec fn calls_in_queue(ops: Seq<bool>) -> int
    decreases ops.len(),
{
    if ops.len() == 0 {
        0
    } else {
        calls_in_queue(ops.drop_last()) + if ops.last() {
            1int
        } else {
            -1int
        }
    }
}

/// Starting from an empty queue, the queue size is the number of calls in the queue, as
/// long as only calls that entered leave it and fewer than 2^32 calls wait at once.
pub proof fn lemma_queue_size_counts_waiting_calls(ops: Seq<bool>)
    requires
        forall|k: int| 0 <= k <= ops.len() ==> 0 <= #[trigger] calls_in_queue(ops.take(k)) <= u32::MAX,
    ensures
        queue_after(0, ops) == calls_in_queue(ops),
    decreases ops.len(),
{
    assert(ops.take(ops.len() as int) =~= ops);
    if ops.len() > 0 {
        let rest = ops.drop_last();
        assert forall|k: int| 0 <= k <= rest.len() implies 0 <= #[trigger] calls_in_queue(
            rest.take(k),
        ) <= u32::MAX by {
            assert(rest.take(k) =~= ops.take(k));
        }
        lemma_queue_size_counts_waiting_calls(rest);
        assert(rest.take(rest.len() as int) =~= rest);
        assert(0 <= calls_in_queue(ops.take(rest.len() as int)));
        assert(ops.take(rest.len() as int) =~= rest);
        assert(0 <= calls_in_queue(ops.take(ops.len() as int)) <= u32::MAX);
    }
}

} // verus!
