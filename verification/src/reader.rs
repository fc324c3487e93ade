//! The tail-following reader: a byte stream over a file that may still be
//! growing.
//!
//! The reader here is the part that decides. Its user reads from the file and
//! reports how many bytes came; the reader says whether to hand them on, to end
//! the stream, to read again at once or to wait first.

use crate::item::{AudioInfo, AudioInfoView, CacheItem};
use crate::range::{Range, Window};
use vstd::prelude::*;

verus! {

/// How long a reader that has caught up with the writer waits before it reads
/// again, in milliseconds.
pub const POLL_DELAY_MILLIS: u64 = 100;

/// What the reader does after a read.
#[derive(Clone, Copy, Debug, PartialEq, Eq, Structural)]
pub enum ReadStep {
    /// Hand the bytes that were read to the client.
    Deliver { count: usize },
    /// The object has been delivered in full: signal the end of the stream.
    End,
    /// The writer has finished since the read began: read again at once.
    Retry,
    /// The writer is still at work: wait for `millis` milliseconds, then read
    /// again.
    Wait { millis: u64 },
}

/// The mathematical value of a reader.
pub struct ReaderView {
    /// The number of bytes delivered so far.
    pub filled: nat,
    /// Whether a delay is pending.
    pub waiting: bool,
}

/// What a read found: the number of bytes it returned, and the state of the
/// item at that moment.
pub struct ReadEvent {
    pub count: usize,
    pub completed: bool,
    pub size: u64,
}

impl ReaderView {
    pub open spec fn fresh() -> ReaderView {
        ReaderView { filled: 0, waiting: false }
    }

    /// The step after a read.
    pub open spec fn step(self, event: ReadEvent) -> ReadStep {
        if event.count > 0 {
            ReadStep::Deliver { count: event.count }
        } else if event.completed {
            if self.filled == event.size {
                ReadStep::End
            } else {
                ReadStep::Retry
            }
        } else {
            ReadStep::Wait { millis: POLL_DELAY_MILLIS }
        }
    }

    /// The reader after a read.
    pub open spec fn after_read(self, event: ReadEvent) -> ReaderView {
        ReaderView {
            filled: self.filled + event.count as nat,
            waiting: self.step(event) is Wait,
        }
    }

    /// The reader after a series of reads.
    pub open spec fn after_reads(self, events: Seq<ReadEvent>) -> ReaderView
        decreases events.len(),
    {
        if events.len() == 0 {
            self
        } else {
            self.after_reads(events.drop_last()).after_read(events.last())
        }
    }
}

/// The number of bytes that a series of reads returned.
pub open spec fn bytes_read(events: Seq<ReadEvent>) -> nat
    decreases events.len(),
{
    if events.len() == 0 {
        0
    } else {
        bytes_read(events.drop_last()) + events.last().count as nat
    }
}

/// The state of a tail-following reader.
#[derive(Clone, Debug, PartialEq, Eq)]
pub struct CacheItemReader {
    filled: u64,
    waiting: bool,
}

impl View for CacheItemReader {
    type V = ReaderView;

    closed spec fn view(&self) -> ReaderView {
        ReaderView { filled: self.filled as nat, waiting: self.waiting }
    }
}

impl CacheItemReader {
    /// A reader at the start of the file, with no delay pending.
    pub fn new() -> (reader: CacheItemReader)
        ensures
            reader@ == ReaderView::fresh(),
    {
        CacheItemReader { filled: 0, waiting: false }
    }

    /// The number of bytes delivered so far.
    pub fn filled(&self) -> (n: u64)
        ensures
            n == self@.filled,
    {
        self.filled
    }

    /// Whether a delay is pending: it has to pass before the next read.
    pub fn is_waiting(&self) -> (waiting: bool)
        ensures
            waiting == self@.waiting,
    {
        self.waiting
    }

    /// The pending delay has passed.
    pub fn delay_elapsed(&mut self)
        ensures
            final(self)@ == (ReaderView { waiting: false, ..old(self)@ }),
    {
        self.waiting = false;
    }

    /// Takes the result of a read that returned `count` bytes while the item was
    /// `completed` or not and had the size `size`.
    ///
    /// Bytes that came are delivered. A read that came back empty ends the
    /// stream if the item is complete and all its bytes have been delivered; it
    /// is repeated at once if the item is complete but bytes are outstanding;
    /// and it is repeated after a delay if the writer is still at work.
    pub fn on_read(&mut self, count: usize, completed: bool, size: u64) -> (step: ReadStep)
        requires
            old(self)@.filled + count <= u64::MAX,
        ensures
            step == old(self)@.step(ReadEvent { count, completed, size }),
            final(self)@ == old(self)@.after_read(ReadEvent { count, completed, size }),
    {
        if count > 0 {
            self.filled = self.filled + count as u64;
            self.waiting = false;
            ReadStep::Deliver { count }
        } else if completed {
            self.waiting = false;
            if self.filled == size {
                ReadStep::End
            } else {
                ReadStep::Retry
            }
        } else {
            self.waiting = true;
            ReadStep::Wait { millis: POLL_DELAY_MILLIS }
        }
    }
}

/// How the reader for a request is put together.
#[derive(Debug, PartialEq, Eq)]
pub struct ReaderPlan {
    /// The audio description at the time of the request.
    pub info: AudioInfo,
    /// The range that was asked for.
    pub range: Range,
    /// The number of bytes to read and discard first.
    pub skip: u64,
    /// The number of bytes to hand out after that; `None` for all.
    pub limit: Option<u64>,
}

/// The mathematical value of a [`ReaderPlan`].
pub struct ReaderPlanView {
    pub info: AudioInfoView,
    pub range: Range,
    pub skip: u64,
    pub limit: Option<u64>,
}

impl ReaderPlanView {
    /// The part of a stream of `total` bytes that reaches the client: the
    /// stream without its first `skip` bytes, cut off after `limit` bytes.
    pub open spec fn served(self, total: u64) -> Window {
        let offset = if self.skip <= total {
            self.skip
        } else {
            total
        };
        let rest = (total - offset) as u64;
        Window {
            offset,
            count: match self.limit {
                Some(limit) => if limit <= rest {
                    limit
                } else {
                    rest
                },
                None => rest,
            },
        }
    }

    /// The plan that serves a range of an item.
    pub open spec fn of(info: AudioInfoView, range: Range) -> ReaderPlanView {
        ReaderPlanView { info, range, skip: range.start, limit: range.spec_length() }
    }
}

impl View for ReaderPlan {
    type V = ReaderPlanView;

    open spec fn view(&self) -> ReaderPlanView {
        ReaderPlanView { info: self.info@, range: self.range, skip: self.skip, limit: self.limit }
    }
}

/// Plans the reader that serves `range` of an item: a tail-following reader
/// from the start of the file, of which the first `range.start` bytes are
/// discarded and the next `range.length()` bytes, or all, are handed out.
pub fn plan_reader(item: &CacheItem, range: Range) -> (plan: ReaderPlan)
    requires
        range.valid(),
    ensures
        plan@ == ReaderPlanView::of(item@.info(), range),
{
    ReaderPlan { info: item.info(), range, skip: range.start, limit: range.length() }
}

/// A reader has delivered as many bytes as its reads returned.
pub proof fn filled_counts_bytes_read(events: Seq<ReadEvent>)
    ensures
        ReaderView::fresh().after_reads(events).filled == bytes_read(events),
    decreases events.len(),
{
    if events.len() > 0 {
        filled_counts_bytes_read(events.drop_last());
    }
}

/// A stream is complete when it ends. If the step after the last of a series
/// of reads is the end of the stream, the item was complete at that read and
/// the reads have returned exactly as many bytes as its size; and a reader that
/// has delivered that many bytes of a complete item ends at the next empty
/// read.
pub proof fn stream_ends_at_size(events: Seq<ReadEvent>, last: ReadEvent)
    ensures
        ReaderView::fresh().after_reads(events).step(last) is End <==> last.count == 0
            && last.completed && bytes_read(events) == last.size,
{
    filled_counts_bytes_read(events);
}

/// The planned reader serves the range. Out of a stream of `total` bytes, the
/// reader planned for a range hands the client the bytes of the range, cut off
/// at the end of the stream: all of them for the full range, and the bytes from
/// `start` up to `end` for a range that lies within the stream.
pub proof fn plan_serves_the_range(info: AudioInfoView, range: Range, total: u64)
    requires
        range.valid(),
    ensures
        ReaderPlanView::of(info, range).served(total) == range.spec_window(total),
        range == (Range { start: 0, end: None }) ==> ReaderPlanView::of(info, range).served(total)
            == (Window { offset: 0, count: total }),
        range.end matches Some(end) ==> (end <= total ==> ReaderPlanView::of(info, range).served(
            total,
        ) == (Window { offset: range.start, count: (end - range.start) as u64 })),
{
}

} // verus!
