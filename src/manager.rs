use vstd::prelude::*;

use crate::corpus::Corpus;
use crate::events::{AflError, BrokerEventResult, Event, EventKind};
use crate::sink::TextSink;

verus! {

/// The testcases that processing `events`, in order, adds to the corpus.
pub open spec fn added_inputs(events: Seq<Event>) -> Seq<Seq<u8>>
    decreases events.len(),
{
    if events.len() == 0 {
        Seq::empty()
    } else {
        added_inputs(events.drop_last()) + events.last().client_additions()
    }
}

/// The lines that processing `events`, in order, writes to the sink.
pub open spec fn written_lines(events: Seq<Event>) -> Seq<Seq<char>>
    decreases events.len(),
{
    if events.len() == 0 {
        Seq::empty()
    } else {
        written_lines(events.drop_last()) + events.last().broker_lines()
    }
}

/// The effects of a batch are those of its first part followed by those of
/// the rest: an event fired earlier takes effect earlier.
pub proof fn effects_follow_fire_order(first: Seq<Event>, rest: Seq<Event>)
    ensures
        added_inputs(first + rest) == added_inputs(first) + added_inputs(rest),
        written_lines(first + rest) == written_lines(first) + written_lines(rest),
    decreases rest.len(),
{
    if rest.len() == 0 {
        assert(first + rest =~= first);
        assert(added_inputs(first) + added_inputs(rest) =~= added_inputs(first));
        assert(written_lines(first) + written_lines(rest) =~= written_lines(first));
    } else {
        effects_follow_fire_order(first, rest.drop_last());
        assert((first + rest).drop_last() =~= first + rest.drop_last());
        assert((first + rest).last() == rest.last());
        assert(added_inputs(first + rest) =~= added_inputs(first) + added_inputs(rest));
        assert(written_lines(first + rest) =~= written_lines(first) + written_lines(rest));
    }
}

/// Processing one event has the effects of its broker step and of its client
/// step, and no others.
pub proof fn effects_of_one_event(e: Event)
    ensures
        added_inputs(seq![e]) == e.client_additions(),
        written_lines(seq![e]) == e.broker_lines(),
{
    assert(seq![e].drop_last() =~= Seq::<Event>::empty());
    assert(seq![e].last() == e);
    assert(added_inputs(Seq::<Event>::empty()) == Seq::<Seq<u8>>::empty());
    assert(written_lines(Seq::<Event>::empty()) == Seq::<Seq<char>>::empty());
    assert(added_inputs(seq![e]) =~= e.client_additions());
    assert(written_lines(seq![e]) =~= e.broker_lines());
}

/// A new testcase adds exactly its own input to the corpus, and no other
/// event adds anything.
pub proof fn only_new_testcases_add(e: Event)
    ensures
        added_inputs(seq![e]) == (if e.kind() == EventKind::NewTestcase {
            e.client_additions()
        } else {
            Seq::<Seq<u8>>::empty()
        }),
        e.kind() == EventKind::NewTestcase ==> added_inputs(seq![e]).len() == 1,
{
    effects_of_one_event(e);
}

/// A batch without a new testcase leaves the corpus as it was.
pub proof fn batch_without_new_testcase_adds_nothing(events: Seq<Event>)
    requires
        forall|i: int| 0 <= i < events.len() ==> events[i].kind() != EventKind::NewTestcase,
    ensures
        added_inputs(events) == Seq::<Seq<u8>>::empty(),
    decreases events.len(),
{
    if events.len() > 0 {
        let front = events.drop_last();
        assert forall|i: int| 0 <= i < front.len() implies front[i].kind()
            != EventKind::NewTestcase by {
            assert(front[i] == events[i]);
        }
        batch_without_new_testcase_adds_nothing(front);
        assert(events.last() == events[events.len() - 1]);
        assert(added_inputs(events) =~= Seq::<Seq<u8>>::empty());
    }
}

/// A channel that queues events and later drains and dispatches them.
pub trait EventManager {
    /// The events fired and not yet processed, oldest first.
    spec fn pending(&self) -> Seq<Event>;

    /// The lines this channel has written.
    spec fn output(&self) -> Seq<Seq<char>>;

    /// Whether this channel is active.
    spec fn is_enabled(&self) -> bool;

    /// Whether `fire` and `process` never fail on this channel.
    spec fn is_reliable(&self) -> bool;

    /// Whether this channel receives events from other processes, and so has
    /// work to do in `on_recv`.
    spec fn receives(&self) -> bool;

    fn enabled(&self) -> (r: bool)
        ensures
            r == self.is_enabled(),
    ;

    /// Queues one event for the next `process` call.
    fn fire(&mut self, event: Event) -> (r: Result<(), AflError>)
        ensures
            old(self).is_reliable() ==> r is Ok,
            r is Ok ==> final(self).pending() == old(self).pending().push(event),
            final(self).output() == old(self).output(),
            final(self).is_reliable() == old(self).is_reliable(),
    ;

    /// Drains the queue and dispatches each event in the order it was fired:
    /// the broker step first, then, for a forwarded event, the client step.
    /// Returns the number of events processed.
    fn process<S>(&mut self, state: &mut S, corpus: &mut Corpus) -> (r: Result<usize, AflError>)
        ensures
            old(self).is_reliable() ==> r is Ok,
            r is Ok ==> r == Ok::<usize, AflError>(old(self).pending().len() as usize),
            r is Ok ==> final(self).pending() == Seq::<Event>::empty(),
            r is Ok ==> final(corpus)@ == old(corpus)@ + added_inputs(old(self).pending()),
            r is Ok ==> final(self).output() == old(self).output() + written_lines(
                old(self).pending(),
            ),
            r is Err ==> final(self).pending() == old(self).pending(),
            *final(state) == *old(state),
            final(self).is_reliable() == old(self).is_reliable(),
    ;

    /// Bookkeeping after events from other processes were received; a
    /// transport may add the testcases it received to the corpus. A channel
    /// that receives nothing succeeds and changes nothing.
    fn on_recv<S>(&self, state: &mut S, corpus: &mut Corpus) -> (r: Result<(), AflError>)
        ensures
            old(corpus)@.is_prefix_of(final(corpus)@),
            !self.receives() ==> r == Ok::<(), AflError>(()),
            !self.receives() ==> final(corpus)@ == old(corpus)@,
            !self.receives() ==> *final(state) == *old(state),
    {
        Ok(())
    }
}

/// A channel that keeps its queue in memory and writes log messages to a
/// text sink.
pub struct LoggerEventManager {
    events: Vec<Event>,
    writer: TextSink,
}

impl LoggerEventManager {
    pub fn new(writer: TextSink) -> (r: LoggerEventManager)
        ensures
            r.pending() == Seq::<Event>::empty(),
            r.output() == writer@,
    {
        LoggerEventManager { events: Vec::new(), writer }
    }

    /// The sink that log messages are written to.
    pub fn writer(&self) -> (r: &TextSink)
        ensures
            r@ == self.output(),
    {
        &self.writer
    }

    /// Hands over the lines written so far and empties the sink, so that a
    /// caller that writes them out sees each line once.
    pub fn take_output(&mut self) -> (r: Vec<String>)
        ensures
            r@.map_values(|l: String| l@) == old(self).output(),
            final(self).output() == Seq::<Seq<char>>::empty(),
            final(self).pending() == old(self).pending(),
    {
        self.writer.take_lines()
    }

    /// The number of events waiting for `process`.
    pub fn pending_count(&self) -> (r: usize)
        ensures
            r == self.pending().len(),
    {
        self.events.len()
    }
}

impl EventManager for LoggerEventManager {
    closed spec fn pending(&self) -> Seq<Event> {
        self.events@
    }

    closed spec fn output(&self) -> Seq<Seq<char>> {
        self.writer@
    }

    open spec fn is_enabled(&self) -> bool {
        true
    }

    open spec fn is_reliable(&self) -> bool {
        true
    }

    open spec fn receives(&self) -> bool {
        false
    }

    fn enabled(&self) -> (r: bool) {
        true
    }

    fn fire(&mut self, event: Event) -> (r: Result<(), AflError>) {
        self.events.push(event);
        Ok(())
    }

    fn process<S>(&mut self, state: &mut S, corpus: &mut Corpus) -> (r: Result<usize, AflError>) {
        let ghost queue = self.events@;
        let ghost corpus0 = corpus@;
        let ghost sink0 = self.writer@;
        let count = self.events.len();
        let mut i: usize = 0;
        while i < count
            invariant
                count == queue.len(),
                self.events@ == queue,
                *state == *old(state),
                i <= count,
                corpus@ == corpus0 + added_inputs(queue.subrange(0, i as int)),
                self.writer@ == sink0 + written_lines(queue.subrange(0, i as int)),
            decreases count - i,
        {
            let event = &self.events[i];
            let decision = event.handle_in_broker(state, corpus, &mut self.writer);
            if let Ok(BrokerEventResult::Forward) = decision {
                let applied = event.handle_in_client(state, corpus);
                // The broker forwards only what a client accepts.
                assert(applied is Ok);
            }
            proof {
                let done = queue.subrange(0, i + 1);
                assert(done.drop_last() =~= queue.subrange(0, i as int));
                assert(done.last() == queue[i as int]);
            }
            i = i + 1;
        }
        assert(queue.subrange(0, count as int) =~= queue);
        self.events.clear();
        Ok(count)
    }
}

} // verus!
