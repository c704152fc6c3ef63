//! What a buffered event sender decides once its channel has answered: an
//! event that found the channel full waits in a buffer that drops its oldest
//! event when full; an event that cannot be delivered is counted as dropped.
//! Also the queue from which an event stream hands out events in order.
use vstd::prelude::*;
use crate::renderer::RendererEvent;

verus! {

/// Channel configuration of a buffered sender.
#[derive(Debug, Clone, Copy, PartialEq, Eq, Structural)]
pub enum ChannelConfiguration {
    /// Bounded channel with the given capacity.
    Bounded { capacity: usize },
    /// Unbounded channel with unlimited capacity.
    Unbounded,
}

/// What the channel answered to an attempt to send an event.
#[derive(Debug, Clone, Copy, PartialEq, Eq, Structural)]
pub enum SendAttempt {
    /// The channel took the event.
    Delivered,
    /// The bounded channel had no room.
    ChannelFull,
    /// The receiving side is gone.
    ChannelClosed,
    /// The sender holds no channel end of its configuration.
    NoSender,
}

/// What to do after an attempt: the result of the send and how many events
/// to count as dropped.
#[derive(Debug)]
pub struct SendVerdict {
    /// `Ok` when the event was delivered or buffered; otherwise the event.
    pub result: Result<(), RendererEvent>,
    /// The number of events dropped by this send: 0 or 1.
    pub dropped: u64,
}

/// The events waiting after a full channel, with the room the buffer has:
/// `None` means events that find the channel full are dropped.
#[derive(Debug)]
pub struct EventBuffer {
    events: Vec<RendererEvent>,
    capacity: Option<usize>,
}

impl View for EventBuffer {
    type V = Seq<RendererEvent>;

    closed spec fn view(&self) -> Seq<RendererEvent> {
        self.events@
    }
}

impl EventBuffer {
    /// The room of the buffer; `None` when it takes no event.
    pub closed spec fn capacity_spec(&self) -> Option<usize> {
        self.capacity
    }

    /// An empty buffer with room for `capacity` events.
    pub fn new(capacity: Option<usize>) -> (r: Self)
        ensures
            r@.len() == 0,
            r.capacity_spec() == capacity,
    {
        EventBuffer { events: Vec::new(), capacity }
    }

    /// The number of waiting events.
    pub fn len(&self) -> (r: usize)
        ensures
            r == self@.len(),
    {
        self.events.len()
    }

    /// The room of the buffer.
    pub fn capacity(&self) -> (r: Option<usize>)
        ensures
            r == self.capacity_spec(),
    {
        self.capacity
    }

    /// Whether the buffer may take `event` after a full channel without
    /// removing from an empty buffer.
    pub open spec fn can_take(&self) -> bool {
        self.capacity_spec() matches Some(c) ==> (self@.len() >= c ==> self@.len() > 0)
    }

    /// Keeps `event`, which found the channel full: with room left it is
    /// added; a full buffer drops its oldest event first. A buffer without room
    /// drops `event` itself.
    pub fn handle_buffer_full(&mut self, event: RendererEvent) -> (r: SendVerdict)
        requires
            old(self).can_take(),
        ensures
            final(self).capacity_spec() == old(self).capacity_spec(),
            match old(self).capacity_spec() {
                None => {
                    &&& r.result == Err::<(), RendererEvent>(event)
                    &&& r.dropped == 1
                    &&& final(self)@ == old(self)@
                },
                Some(c) => if old(self)@.len() >= c {
                    &&& r.result is Ok
                    &&& r.dropped == 1
                    &&& final(self)@ == old(self)@.drop_first().push(event)
                } else {
                    &&& r.result is Ok
                    &&& r.dropped == 0
                    &&& final(self)@ == old(self)@.push(event)
                },
            },
    {
        match self.capacity {
            Some(c) => {
                let mut dropped: u64 = 0;
                if self.events.len() >= c {
                    self.events.remove(0);
                    dropped = 1;
                }
                self.events.push(event);
                SendVerdict { result: Ok(()), dropped }
            },
            None => SendVerdict { result: Err(event), dropped: 1 },
        }
    }

    /// Decides a send after the channel's answer: a delivered event is done;
    /// one that found the channel full goes to the buffer; one that could not
    /// be delivered is handed back and counted as dropped.
    pub fn after_attempt(&mut self, attempt: SendAttempt, event: RendererEvent) -> (r: SendVerdict)
        requires
            attempt == SendAttempt::ChannelFull ==> old(self).can_take(),
        ensures
            final(self).capacity_spec() == old(self).capacity_spec(),
            attempt == SendAttempt::Delivered ==> r.result is Ok && r.dropped == 0 && final(self)@
                == old(self)@,
            (attempt == SendAttempt::ChannelClosed || attempt == SendAttempt::NoSender) ==> (
            r.result == Err::<(), RendererEvent>(event) && r.dropped == 1 && final(self)@ == old(
                self,
            )@),
            attempt == SendAttempt::ChannelFull ==> match old(self).capacity_spec() {
                None => r.result == Err::<(), RendererEvent>(event) && r.dropped == 1
                    && final(self)@ == old(self)@,
                Some(c) => r.result is Ok && if old(self)@.len() >= c {
                    r.dropped == 1 && final(self)@ == old(self)@.drop_first().push(event)
                } else {
                    r.dropped == 0 && final(self)@ == old(self)@.push(event)
                },
            },
    {
        match attempt {
            SendAttempt::Delivered => SendVerdict { result: Ok(()), dropped: 0 },
            SendAttempt::ChannelFull => self.handle_buffer_full(event),
            SendAttempt::ChannelClosed => SendVerdict { result: Err(event), dropped: 1 },
            SendAttempt::NoSender => SendVerdict { result: Err(event), dropped: 1 },
        }
    }
}

/// A buffer with room for at least one event never holds more events than
/// it has room for, whatever it is handed after a full channel.
pub proof fn law_buffer_bounded(before: EventBuffer, after: EventBuffer, event: RendererEvent, r: SendVerdict, c: usize)
    requires
        before.capacity_spec() == Some(c),
        c >= 1,
        before@.len() <= c,
        after.capacity_spec() == before.capacity_spec(),
        if before@.len() >= c {
            after@ == before@.drop_first().push(event)
        } else {
            after@ == before@.push(event)
        },
    ensures
        after@.len() <= c,
        after@.last() == event,
{
}

/// The events an event stream has yet to hand out, oldest first.
#[derive(Debug)]
pub struct RendererEventStream {
    buffer: Vec<RendererEvent>,
}

impl View for RendererEventStream {
    type V = Seq<RendererEvent>;

    closed spec fn view(&self) -> Seq<RendererEvent> {
        self.buffer@
    }
}

impl RendererEventStream {
    /// A stream with no event waiting.
    pub fn new() -> (r: Self)
        ensures
            r@.len() == 0,
    {
        RendererEventStream { buffer: Vec::new() }
    }

    /// Adds an event after those waiting.
    pub fn push_event(&mut self, event: RendererEvent)
        ensures
            final(self)@ == old(self)@.push(event),
    {
        self.buffer.push(event);
    }

    /// Hands out the oldest waiting event; `None` when none waits, which a
    /// stream reports as not ready.
    pub fn poll_event(&mut self) -> (r: Option<RendererEvent>)
        ensures
            old(self)@.len() == 0 ==> r is None && final(self)@ == old(self)@,
            old(self)@.len() > 0 ==> r == Some(old(self)@[0]) && final(self)@ == old(
                self,
            )@.drop_first(),
    {
        if self.buffer.len() > 0 {
            let e = self.buffer.remove(0);
            Some(e)
        } else {
            None
        }
    }
}

/// Events come out of a stream in the order they went in.
pub proof fn law_stream_fifo(s0: RendererEventStream, s1: RendererEventStream, s2: RendererEventStream, s3: RendererEventStream, a: RendererEvent, b: RendererEvent, x: Option<RendererEvent>)
    requires
        s0@.len() == 0,
        s1@ == s0@.push(a),
        s2@ == s1@.push(b),
        s2@.len() > 0 ==> x == Some(s2@[0]) && s3@ == s2@.drop_first(),
    ensures
        x == Some(a),
        s3@ == seq![b],
{
    assert(s3@ =~= seq![b]);
}

/// How one send with a time limit ended.
#[derive(Debug, Clone, Copy, PartialEq, Eq, Structural)]
pub enum TimedSendOutcome {
    /// The channel took the event in time.
    Sent,
    /// The time ran out before the channel took the event.
    TimedOut,
    /// The receiving side is gone.
    Closed,
}

/// Where a batch of sends with a common time limit stands.
#[derive(Debug, Clone, Copy, PartialEq, Eq, Structural)]
pub enum BatchProgress {
    /// Go on with the next event; so many were sent.
    Continue(usize),
    /// The batch is over; so many were sent.
    Done(usize),
    /// The batch failed because the channel is closed.
    Failed,
}

/// The state of a batch after one of its sends: a sent event is counted and
/// the batch goes on, a timeout ends it with the count so far, a closed
/// channel fails it.
pub fn batch_after_send(sent: usize, outcome: TimedSendOutcome) -> (r: BatchProgress)
    requires
        sent < usize::MAX,
    ensures
        outcome == TimedSendOutcome::Sent ==> r == BatchProgress::Continue((sent + 1) as usize),
        outcome == TimedSendOutcome::TimedOut ==> r == BatchProgress::Done(sent),
        outcome == TimedSendOutcome::Closed ==> r == BatchProgress::Failed,
{
    match outcome {
        TimedSendOutcome::Sent => BatchProgress::Continue(sent + 1),
        TimedSendOutcome::TimedOut => BatchProgress::Done(sent),
        TimedSendOutcome::Closed => BatchProgress::Failed,
    }
}

/// How many events a send that ran out of time drops: the event itself,
/// unless the channel applies backpressure.
pub fn dropped_on_timeout(enable_backpressure: bool) -> (r: u64)
    ensures
        r == (if enable_backpressure { 0u64 } else { 1u64 }),
{
    if enable_backpressure {
        0
    } else {
        1
    }
}

} // verus!
