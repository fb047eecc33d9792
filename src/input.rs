//! Event sources, their composition, and the publisher that forwards what
//! they yield.

use vstd::prelude::*;

use crate::channel::{writes_along, wrote_all, PubChannel};
use crate::event::{frame, Event};

verus! {

/// A producer of events that is polled, never waited on.
pub trait EventPolling {
    /// Holds when one call of `poll` may take the source from `self` to
    /// `next`, appending `batch` to the caller's buffer and returning `r`. A
    /// source that does not refine it claims no more than that `poll` only
    /// appends.
    open spec fn polls(&self, next: &Self, batch: Seq<Event>, r: std::io::Result<()>) -> bool {
        true
    }

    /// Appends the events that are available now, possibly none. An error
    /// means the underlying mechanism failed; what was appended before it
    /// stays in `events`.
    fn poll(&mut self, events: &mut Vec<Event>) -> (r: std::io::Result<()>)
        ensures
            old(events)@.is_prefix_of(final(events)@),
            old(self).polls(final(self), final(events)@.skip(old(events)@.len() as int), r),
    ;
}

/// Composition of sources, available on every source.
pub trait AndThen: EventPolling + Sized {
    /// A source that polls `self`, then `other`, and holds nothing else.
    fn and_then<B: EventPolling>(self, other: B) -> (r: CompositeEventPolling<Self, B>)
        ensures
            r.first() == self,
            r.second() == other,
    ;
}

impl<A: EventPolling> AndThen for A {
    fn and_then<B: EventPolling>(self, other: B) -> (r: CompositeEventPolling<A, B>) {
        CompositeEventPolling { a: self, b: other }
    }
}

/// Two sources polled as one: the first, then the second, into the same
/// buffer.
pub struct CompositeEventPolling<A: EventPolling, B: EventPolling> {
    a: A,
    b: B,
}

impl<A: EventPolling, B: EventPolling> CompositeEventPolling<A, B> {
    /// The source polled first.
    pub closed spec fn first(&self) -> A {
        self.a
    }

    /// The source polled second.
    pub closed spec fn second(&self) -> B {
        self.b
    }

    /// A composite is determined by its two sources.
    pub proof fn lemma_parts_determine(c: Self, d: Self)
        requires
            c.first() == d.first(),
            c.second() == d.second(),
        ensures
            c == d,
    {
    }
}

/// Holds when one poll of a composite may take it from `c` to `next`,
/// appending `batch` and returning `r`: either the first source failed with
/// `r`, its events are the whole batch and the second source was left
/// unpolled; or the first succeeded, and the batch is what it yielded
/// followed by what the second yielded, which returned `r`.
pub open spec fn composite_polls<A: EventPolling, B: EventPolling>(
    c: CompositeEventPolling<A, B>,
    next: CompositeEventPolling<A, B>,
    batch: Seq<Event>,
    r: std::io::Result<()>,
) -> bool {
    ||| (r is Err && c.first().polls(&next.first(), batch, r) && next.second() == c.second())
    ||| exists|k: int|
        0 <= k <= batch.len() && #[trigger] c.first().polls(
            &next.first(),
            batch.take(k),
            Ok(()),
        ) && c.second().polls(&next.second(), batch.skip(k), r)
}

impl<A: EventPolling, B: EventPolling> EventPolling for CompositeEventPolling<A, B> {
    open spec fn polls(&self, next: &Self, batch: Seq<Event>, r: std::io::Result<()>) -> bool {
        composite_polls(*self, *next, batch, r)
    }

    /// Polls the first source, then, only if it succeeded, the second, into
    /// the same buffer; the result is the first failure, or success.
    fn poll(&mut self, events: &mut Vec<Event>) -> (r: std::io::Result<()>) {
        let ghost start = events@.len() as int;
        let ra = self.a.poll(events);
        match ra {
            Ok(()) => {
                assert(ra->Ok_0 == ());
                assert(ra == Ok::<(), std::io::Error>(()));
            },
            Err(e) => {
                return Err(e);
            },
        }
        let ghost mid = events@;
        let r = self.b.poll(events);
        proof {
            let batch = events@.skip(start);
            let k = mid.len() - start;
            assert(batch.take(k) =~= mid.skip(start));
            assert(batch.skip(k) =~= events@.skip(mid.len() as int));
            assert(old(self).first().polls(&self.first(), batch.take(k), Ok(())));
            assert(old(self).second().polls(&self.second(), batch.skip(k), r));
            assert(old(events)@.is_prefix_of(events@)) by {
                assert(mid.take(start) =~= events@.take(start));
            }
        }
        r
    }
}

/// When the first source of a composite yields `first` with success and the
/// second then yields `second` with `r`, the composite yields `first`
/// followed by `second`, and returns `r`.
pub proof fn lemma_and_then_order<A: EventPolling, B: EventPolling>(
    c: CompositeEventPolling<A, B>,
    next: CompositeEventPolling<A, B>,
    first: Seq<Event>,
    second: Seq<Event>,
    r: std::io::Result<()>,
)
    requires
        c.first().polls(&next.first(), first, Ok(())),
        c.second().polls(&next.second(), second, r),
    ensures
        c.polls(&next, first + second, r),
{
    let batch = first + second;
    let k = first.len() as int;
    assert(batch.take(k) =~= first);
    assert(batch.skip(k) =~= second);
}

/// When the first source succeeds and the second then fails, the composite
/// fails with the second's error, and what the first yielded still leads the
/// batch.
pub proof fn lemma_and_then_keeps_partial<A: EventPolling, B: EventPolling>(
    c: CompositeEventPolling<A, B>,
    next: CompositeEventPolling<A, B>,
    first: Seq<Event>,
    second: Seq<Event>,
    r: std::io::Result<()>,
)
    requires
        c.first().polls(&next.first(), first, Ok(())),
        c.second().polls(&next.second(), second, r),
        r is Err,
    ensures
        c.polls(&next, first + second, r),
        first.is_prefix_of(first + second),
{
    lemma_and_then_order(c, next, first, second, r);
    assert((first + second).take(first.len() as int) =~= first);
}

/// When the first source fails, the composite fails with its error and its
/// events, and the second source is left as it was.
pub proof fn lemma_and_then_stops_on_failure<A: EventPolling, B: EventPolling>(
    c: CompositeEventPolling<A, B>,
    next: CompositeEventPolling<A, B>,
    first: Seq<Event>,
    r: std::io::Result<()>,
)
    requires
        c.first().polls(&next.first(), first, r),
        r is Err,
        next.second() == c.second(),
    ensures
        c.polls(&next, first, r),
{
}

/// Whatever one poll of a composite yields splits into what its first
/// source yielded with success followed by what its second yielded, with
/// the second's result; or the first failed, its events are the whole batch,
/// its error is the result, and the second was not polled.
pub proof fn lemma_and_then_splits<A: EventPolling, B: EventPolling>(
    c: CompositeEventPolling<A, B>,
    next: CompositeEventPolling<A, B>,
    batch: Seq<Event>,
    r: std::io::Result<()>,
)
    requires
        c.polls(&next, batch, r),
    ensures
        (r is Err && c.first().polls(&next.first(), batch, r) && next.second() == c.second())
            || exists|k: int|
            0 <= k <= batch.len() && #[trigger] c.first().polls(
                &next.first(),
                batch.take(k),
                Ok(()),
            ) && c.second().polls(&next.second(), batch.skip(k), r),
{
}

/// What the poll of a tick returned, given the tick's outcome: a tick
/// fails exactly with its poll's error.
pub open spec fn poll_result(r: std::io::Result<usize>) -> std::io::Result<()> {
    match r {
        Ok(_) => Ok(()),
        Err(e) => Err(e),
    }
}

/// The publishing loop's state: a composed source, a channel, and the
/// buffers reused from one tick to the next.
pub struct EventPublisher<P: EventPolling, C: PubChannel> {
    polling: P,
    channel: C,
    event_buffer: Vec<Event>,
    bytes_buffer: Vec<u8>,
}

impl<P: EventPolling, C: PubChannel> EventPublisher<P, C> {
    /// The source that the publisher polls.
    pub closed spec fn source(&self) -> P {
        self.polling
    }

    /// The channel that the publisher writes to.
    pub closed spec fn sink(&self) -> C {
        self.channel
    }

    /// The events that the last tick polled.
    pub closed spec fn batch(&self) -> Seq<Event> {
        self.event_buffer@
    }

    /// One tick took the publisher from `pre` to `post` with outcome `r`:
    /// the source was polled once into an empty buffer; on success every
    /// polled event was framed and handed to the channel, in order, and `r`
    /// counts them; on a poll failure nothing was written.
    pub open spec fn ticked(pre: Self, post: Self, r: std::io::Result<usize>) -> bool {
        &&& pre.source().polls(&post.source(), post.batch(), poll_result(r))
        &&& match r {
            Ok(n) => {
                &&& n == post.batch().len()
                &&& wrote_all(pre.sink(), post.sink(), post.batch().map_values(|e: Event| frame(e)))
            },
            Err(_) => post.sink() == pre.sink(),
        }
    }

    /// A publisher that polls `polling` and writes to `channel`.
    pub fn new(polling: P, channel: C) -> (r: Self)
        ensures
            r.source() == polling,
            r.sink() == channel,
            r.batch() == Seq::<Event>::empty(),
    {
        let event_buffer = Vec::with_capacity(1024);
        let bytes_buffer = Vec::with_capacity(64);
        EventPublisher { polling, channel, event_buffer, bytes_buffer }
    }

    /// Polls the source once and forwards each polled event, framed, to the
    /// channel. A write that fails drops that event only.
    pub fn tick(&mut self) -> (r: std::io::Result<usize>)
        ensures
            Self::ticked(*old(self), *final(self), r),
    {
        self.event_buffer.clear();
        let polled = self.polling.poll(&mut self.event_buffer);
        match polled {
            Ok(()) => {
                assert(polled->Ok_0 == ());
                assert(polled == Ok::<(), std::io::Error>(()));
            },
            Err(e) => {
                assert(self.event_buffer@.skip(0) =~= self.event_buffer@);
                return Err(e);
            },
        }
        assert(self.event_buffer@.skip(0) =~= self.event_buffer@);
        let ghost channel0 = self.channel;
        let ghost mut states: Seq<C> = seq![self.channel];
        let n = self.event_buffer.len();
        let mut i: usize = 0;
        while i < n
            invariant
                0 <= i <= n,
                n == self.event_buffer@.len(),
                channel0 == old(self).channel,
                old(self).polling.polls(&self.polling, self.event_buffer@, Ok(())),
                writes_along(states, self.event_buffer@.take(i as int).map_values(|e: Event| frame(e))),
                states[0] == channel0,
                states.last() == self.channel,
            decreases n - i,
        {
            let event = self.event_buffer[i];
            self.bytes_buffer.clear();
            match event.encode(&mut self.bytes_buffer) {
                Ok(_) => {
                    let _ = self.channel.write(self.bytes_buffer.as_slice());
                },
                Err(_) => {},
            }
            proof {
                let batch = self.event_buffer@;
                let done = batch.take(i as int).map_values(|e: Event| frame(e));
                let now = batch.take(i + 1).map_values(|e: Event| frame(e));
                assert(now =~= done.push(frame(event)));
                states = states.push(self.channel);
                assert forall|j: int| 0 <= j < now.len() implies #[trigger] states[j].takes(
                    &states[j + 1],
                    now[j],
                ) by {
                    if j < done.len() {
                        assert(states[j].takes(&states[j + 1], done[j]));
                    }
                };
            }
            i = i + 1;
        }
        assert(self.event_buffer@.take(n as int) =~= self.event_buffer@);
        assert(wrote_all(channel0, self.channel, self.event_buffer@.map_values(|e: Event| frame(e))));
        Ok(n)
    }

    /// One turn of the loop, given whether a stop was requested: `None`,
    /// touching nothing, when it was; otherwise the outcome of a tick.
    pub fn step(&mut self, stop: bool) -> (r: Option<std::io::Result<usize>>)
        ensures
            stop ==> (r is None && *final(self) == *old(self)),
            !stop ==> (r matches Some(t) && Self::ticked(*old(self), *final(self), t)),
    {
        if stop {
            None
        } else {
            Some(self.tick())
        }
    }
}

} // verus!
