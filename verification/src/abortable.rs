//! Streams that end when the server shuts down: once the shutdown signal fired, or the
//! inner stream ended, the stream yields its end and nothing more.
use vstd::prelude::*;

verus! {

/// What polling a stream gives.
#[derive(Clone, Copy, Debug, PartialEq, Eq, Structural)]
pub enum StreamPoll<T> {
    /// The next item.
    Item(T),
    /// The end of the stream.
    End,
    /// Nothing yet.
    Pending,
}

/// What to do on a poll.
#[derive(Clone, Copy, Debug, PartialEq, Eq, Structural)]
pub enum PollStep {
    /// Poll the inner stream.
    PollInner,
    /// Yield the end of the stream.
    Finish,
}

/// The state of a stream that a shutdown signal can end.
#[derive(Clone, Copy, Debug, PartialEq, Eq, Structural)]
pub struct AbortableStream {
    /// Whether the stream has ended.
    pub done: bool,
}

/// What a poll does, given whether the stream has ended and whether the shutdown signal
/// fired.
pub open spec fn poll_step(done: bool, shutdown_signalled: bool) -> PollStep {
    if done || shutdown_signalled {
        PollStep::Finish
    } else {
        PollStep::PollInner
    }
}

impl AbortableStream {
    /// A stream that has not ended.
    pub fn new() -> (r: AbortableStream)
        ensures
            !r.done,
    {
        AbortableStream { done: false }
    }

    /// The first half of a poll, once the shutdown signal was polled: the inner stream is
    /// only polled while the stream has not ended and no shutdown was signalled; otherwise
    /// the stream ends for good.
    pub fn begin_poll(&mut self, shutdown_signalled: bool) -> (r: PollStep)
        ensures
            r == poll_step(old(self).done, shutdown_signalled),
            final(self).done == (r == PollStep::Finish),
    {
        if self.done || shutdown_signalled {
            self.done = true;
            PollStep::Finish
        } else {
            PollStep::PollInner
        }
    }

    /// The second half of a poll: an item of the inner stream is passed on, and the end of
    /// the inner stream ends the stream.
    pub fn finish_poll<T>(&mut self, inner: StreamPoll<T>) -> (r: StreamPoll<T>)
        requires
            !old(self).done,
        ensures
            r == inner,
            final(self).done == (inner is End),
    {
        match inner {
            StreamPoll::End => {
                self.done = true;
                StreamPoll::End
            },
            other => other,
        }
    }

    /// The bounds on the number of items still to come: none once the stream ended, else
    /// those of the inner stream.
    pub fn size_hint(&self, inner: (usize, Option<usize>)) -> (r: (usize, Option<usize>))
        ensures
            r == (if self.done {
                (0usize, Some(0usize))
            } else {
                inner
            }),
    {
        if self.done {
            (0, Some(0))
        } else {
            inner
        }
    }
}

/// Once a stream has ended, every further poll yields its end without polling the inner
/// stream, whatever the shutdown signal does; and a poll after the shutdown signal fired
/// ends the stream for good.
pub proof fn lemma_ended_stays_ended(shutdown_signalled: bool)
    ensures
        poll_step(true, shutdown_signalled) == PollStep::Finish,
        poll_step(false, true) == PollStep::Finish,
{
}

} // verus!
