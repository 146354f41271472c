//! The batching aggregator: frames accumulate, newline-terminated, in one
//! buffer that is flushed as a single datagram once it is large or old
//! enough, or when the aggregator is shut down.
use vstd::prelude::*;
use crate::frame::push_bytes;

verus! {

/// `\n`, after each frame in a batch.
pub const NEWLINE: u8 = 10;

/// A frame followed by the newline that ends it in a batch.
pub open spec fn terminated(frame: Seq<u8>) -> Seq<u8> {
    frame.push(NEWLINE)
}

/// The frames in order, each followed by a newline.
pub open spec fn lines(frames: Seq<Seq<u8>>) -> Seq<u8>
    decreases frames.len(),
{
    if frames.len() == 0 {
        Seq::empty()
    } else {
        lines(frames.drop_last()) + terminated(frames.last())
    }
}

/// The batches one after the other.
pub open spec fn concat_batches(batches: Seq<Seq<u8>>) -> Seq<u8>
    decreases batches.len(),
{
    if batches.len() == 0 {
        Seq::empty()
    } else {
        concat_batches(batches.drop_last()) + batches.last()
    }
}

/// Whether a buffer of `len` bytes, last flushed at `last_flush`, is flushed
/// at `now`: it has reached `max_buffer_size`, or more than `max_time` has
/// passed since the last flush.
pub open spec fn flush_due(len: int, last_flush: int, now: int, max_buffer_size: int, max_time: int) -> bool {
    len >= max_buffer_size || last_flush + max_time < now
}

/// One frame arriving at `now`, for a buffer holding `pending` and last
/// flushed at `last_flush`: the batch that is flushed, if any, the bytes
/// left pending, and the new time of the last flush.
pub open spec fn receive(
    pending: Seq<u8>,
    last_flush: int,
    frame: Seq<u8>,
    now: int,
    max_buffer_size: int,
    max_time: int,
) -> (Option<Seq<u8>>, Seq<u8>, int) {
    let appended = pending + terminated(frame);
    if flush_due(appended.len() as int, last_flush, now, max_buffer_size, max_time) {
        (Some(appended), Seq::empty(), now)
    } else {
        (None, appended, last_flush)
    }
}

/// Frames arriving one by one, `frames[i]` at `times[i]`: the batches
/// flushed on the way, the bytes left pending, and the time of the last
/// flush.
pub open spec fn receive_all(
    pending: Seq<u8>,
    last_flush: int,
    frames: Seq<Seq<u8>>,
    times: Seq<int>,
    max_buffer_size: int,
    max_time: int,
) -> (Seq<Seq<u8>>, Seq<u8>, int)
    decreases frames.len(),
{
    if frames.len() == 0 {
        (Seq::empty(), pending, last_flush)
    } else {
        let (flushed, rest, last) = receive_all(
            pending,
            last_flush,
            frames.drop_last(),
            times.drop_last(),
            max_buffer_size,
            max_time,
        );
        let (batch, rest2, last2) = receive(
            rest,
            last,
            frames.last(),
            times[frames.len() - 1],
            max_buffer_size,
            max_time,
        );
        (
            match batch {
                Some(b) => flushed.push(b),
                None => flushed,
            },
            rest2,
            last2,
        )
    }
}

/// A message to the aggregator.
pub enum Message {
    /// One encoded frame to send.
    Data(Vec<u8>),
    /// Flush what is buffered and stop.
    Shutdown,
}

/// What the aggregator's owner does after handing it a message.
pub enum BatchAction {
    /// Nothing is sent yet.
    Hold,
    /// Send these bytes as one datagram, then go on.
    Flush(Vec<u8>),
    /// Send these bytes as one datagram, then stop.
    FlushAndStop(Vec<u8>),
}

/// The buffer of the aggregator and its flush policy.
pub struct Batcher {
    buffer: Vec<u8>,
    last_flush: u128,
    max_buffer_size: usize,
    max_time: u128,
}

impl Batcher {
    /// The bytes buffered and not yet flushed.
    pub closed spec fn pending(&self) -> Seq<u8> {
        self.buffer@
    }

    /// When the buffer was last flushed, or the aggregator started.
    pub closed spec fn last_flush(&self) -> u128 {
        self.last_flush
    }

    /// The buffer length, in bytes, that causes a flush.
    pub closed spec fn max_buffer_size(&self) -> usize {
        self.max_buffer_size
    }

    /// The age of the buffer that causes a flush when it is exceeded.
    pub closed spec fn max_time(&self) -> u128 {
        self.max_time
    }

    /// The number of bytes buffered.
    pub fn pending_len(&self) -> (r: usize)
        ensures
            r == self.pending().len(),
    {
        self.buffer.len()
    }

    /// An empty aggregator started at `now`. Times are in one unit
    /// throughout (nanoseconds, say), from one origin.
    pub fn new(max_buffer_size: usize, max_time: u128, now: u128) -> (r: Self)
        ensures
            r.pending() == Seq::<u8>::empty(),
            r.last_flush() == now,
            r.max_buffer_size() == max_buffer_size,
            r.max_time() == max_time,
    {
        Batcher { buffer: Vec::new(), last_flush: now, max_buffer_size, max_time }
    }

    /// Takes one message received at `now`. A frame is buffered with its
    /// newline, and the whole buffer is flushed when `flush_due` holds after
    /// that; a shutdown flushes whatever is buffered.
    pub fn handle(&mut self, message: Message, now: u128) -> (action: BatchAction)
        requires
            match message {
                Message::Data(frame) => old(self).pending().len() + frame@.len() + 1 <= usize::MAX,
                Message::Shutdown => true,
            },
        ensures
            final(self).max_buffer_size() == old(self).max_buffer_size(),
            final(self).max_time() == old(self).max_time(),
            match message {
                Message::Data(frame) => {
                    let (batch, rest, last) = receive(
                        old(self).pending(),
                        old(self).last_flush() as int,
                        frame@,
                        now as int,
                        old(self).max_buffer_size() as int,
                        old(self).max_time() as int,
                    );
                    &&& final(self).pending() == rest
                    &&& final(self).last_flush() == last
                    &&& match action {
                        BatchAction::Hold => batch.is_none(),
                        BatchAction::Flush(sent) => batch == Some(sent@),
                        BatchAction::FlushAndStop(_) => false,
                    }
                },
                Message::Shutdown => {
                    &&& final(self).pending() == Seq::<u8>::empty()
                    &&& final(self).last_flush() == old(self).last_flush()
                    &&& match action {
                        BatchAction::FlushAndStop(sent) => sent@ == old(self).pending(),
                        _ => false,
                    }
                },
            },
    {
        match message {
            Message::Data(frame) => {
                push_bytes(&mut self.buffer, frame.as_slice());
                self.buffer.push(NEWLINE);
                assert(self.buffer@ =~= old(self).pending() + terminated(frame@));
                let stale = now > self.last_flush && now - self.last_flush > self.max_time;
                if self.buffer.len() >= self.max_buffer_size || stale {
                    let mut sent: Vec<u8> = Vec::new();
                    std::mem::swap(&mut sent, &mut self.buffer);
                    self.last_flush = now;
                    BatchAction::Flush(sent)
                } else {
                    BatchAction::Hold
                }
            },
            Message::Shutdown => {
                let mut sent: Vec<u8> = Vec::new();
                std::mem::swap(&mut sent, &mut self.buffer);
                BatchAction::FlushAndStop(sent)
            },
        }
    }
}

/// Every byte handed in comes out once and in order: the batches flushed
/// while frames arrive, followed by what is still pending, are the bytes
/// that were pending at the start followed by each frame and its newline.
pub proof fn lemma_receive_all_keeps_bytes(
    pending: Seq<u8>,
    last_flush: int,
    frames: Seq<Seq<u8>>,
    times: Seq<int>,
    max_buffer_size: int,
    max_time: int,
)
    requires
        times.len() == frames.len(),
    ensures
        ({
            let (flushed, rest, _) = receive_all(
                pending,
                last_flush,
                frames,
                times,
                max_buffer_size,
                max_time,
            );
            concat_batches(flushed) + rest == pending + lines(frames)
        }),
    decreases frames.len(),
{
    if frames.len() > 0 {
        lemma_receive_all_keeps_bytes(
            pending,
            last_flush,
            frames.drop_last(),
            times.drop_last(),
            max_buffer_size,
            max_time,
        );
        let (flushed, rest, last) = receive_all(
            pending,
            last_flush,
            frames.drop_last(),
            times.drop_last(),
            max_buffer_size,
            max_time,
        );
        let (batch, rest2, last2) = receive(
            rest,
            last,
            frames.last(),
            times[frames.len() - 1],
            max_buffer_size,
            max_time,
        );
        let term = terminated(frames.last());
        assert(lines(frames) == lines(frames.drop_last()) + term);
        assert(concat_batches(flushed) + rest == pending + lines(frames.drop_last()));
        assert(pending + lines(frames) =~= concat_batches(flushed) + rest + term);
        match batch {
            Some(b) => {
                assert(b == rest + term);
                assert(flushed.push(b).drop_last() =~= flushed);
                assert(concat_batches(flushed.push(b)) == concat_batches(flushed) + b);
                assert(concat_batches(flushed.push(b)) + rest2 =~= pending + lines(frames));
            },
            None => {
                assert(rest2 == rest + term);
                assert(concat_batches(flushed) + rest2 =~= pending + lines(frames));
            },
        }
    }
}

/// Frames that arrive, and a shutdown after them, are flushed exactly once
/// each and in order: the batches flushed on the way and the final one that
/// the shutdown flushes are, one after the other, the bytes that were
/// pending at the start followed by each frame and its newline.
pub proof fn lemma_shutdown_flushes_all(
    pending: Seq<u8>,
    last_flush: int,
    frames: Seq<Seq<u8>>,
    times: Seq<int>,
    max_buffer_size: int,
    max_time: int,
)
    requires
        times.len() == frames.len(),
    ensures
        ({
            let (flushed, rest, _) = receive_all(
                pending,
                last_flush,
                frames,
                times,
                max_buffer_size,
                max_time,
            );
            concat_batches(flushed.push(rest)) == pending + lines(frames)
        }),
{
    lemma_receive_all_keeps_bytes(pending, last_flush, frames, times, max_buffer_size, max_time);
    let (flushed, rest, _) = receive_all(
        pending,
        last_flush,
        frames,
        times,
        max_buffer_size,
        max_time,
    );
    assert(flushed.push(rest).drop_last() =~= flushed);
}

/// Frames that keep the buffer below `max_buffer_size` and arrive no later
/// than `max_time` after the last flush cause no flush: they all stay
/// pending, after what was pending before, until a later message crosses a
/// threshold or a shutdown comes.
pub proof fn lemma_no_flush_below_thresholds(
    pending: Seq<u8>,
    last_flush: int,
    frames: Seq<Seq<u8>>,
    times: Seq<int>,
    max_buffer_size: int,
    max_time: int,
)
    requires
        times.len() == frames.len(),
        pending.len() + lines(frames).len() < max_buffer_size,
        forall|i: int| 0 <= i < times.len() ==> times[i] <= last_flush + max_time,
    ensures
        ({
            let (flushed, rest, last) = receive_all(
                pending,
                last_flush,
                frames,
                times,
                max_buffer_size,
                max_time,
            );
            &&& flushed.len() == 0
            &&& rest == pending + lines(frames)
            &&& last == last_flush
        }),
    decreases frames.len(),
{
    if frames.len() > 0 {
        let prefix = frames.drop_last();
        assert(lines(frames) == lines(prefix) + terminated(frames.last()));
        assert forall|i: int| 0 <= i < times.drop_last().len() implies times.drop_last()[i]
            <= last_flush + max_time by {
            assert(times.drop_last()[i] == times[i]);
        }
        lemma_no_flush_below_thresholds(
            pending,
            last_flush,
            prefix,
            times.drop_last(),
            max_buffer_size,
            max_time,
        );
        assert(pending + lines(prefix) + terminated(frames.last()) =~= pending + lines(frames));
    }
}

} // verus!
