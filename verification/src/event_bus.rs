//! The in-process publish/subscribe event bus and the event values it
//! carries.
//!
//! The bus is a bounded broadcast channel: publishing never blocks and is a
//! silent no-op with zero subscribers; every subscriber observes, in publish
//! order, exactly the events published after it subscribed; a subscriber that
//! falls more than `capacity` events behind receives a lag report counting
//! the skipped events and then resumes with the oldest retained event.
//!
//! The abstract state is [`BusView`]: the full publish history, the count of
//! events that have fallen out of the retained window, and one cursor per
//! subscriber. Every operation's contract is a transition on that view, and
//! the broadcast laws (fan-out equality, no replay, lag resilience) are
//! proved of the view's transitions.

use vstd::prelude::*;

verus! {

use vstd::pervasive::VecAdditionalExecFns;

/// A single timestamped sensor measurement.
#[derive(Clone, Debug)]
pub struct Reading {
    /// Milliseconds on the producing module's clock; non-decreasing across
    /// ticks for readings produced by the same sensor definition.
    pub time: u64,
    pub name: String,
    /// The measured value, carried as the raw bit pattern of its machine
    /// representation; the bus never interprets it.
    pub value_bits: u32,
    pub unit: String,
    pub category: String,
}

impl Reading {
    /// `name`, `unit` and `category` are never empty.
    pub open spec fn wf(&self) -> bool {
        &&& self.name@.len() > 0
        &&& self.unit@.len() > 0
        &&& self.category@.len() > 0
    }

    /// An owned copy, equal to `self` as a value.
    pub fn duplicate(&self) -> (r: Reading)
        ensures
            r == *self,
    {
        Reading {
            time: self.time,
            name: self.name.clone(),
            value_bits: self.value_bits,
            unit: self.unit.clone(),
            category: self.category.clone(),
        }
    }
}

/// The payload of an event: free text or a structured reading.
#[derive(Clone, Debug)]
pub enum EventKind {
    Message(String),
    Reading(Reading),
}

impl EventKind {
    pub open spec fn wf(&self) -> bool {
        match self {
            EventKind::Message(_) => true,
            EventKind::Reading(r) => r.wf(),
        }
    }

    pub fn duplicate(&self) -> (r: EventKind)
        ensures
            r == *self,
    {
        match self {
            EventKind::Message(m) => EventKind::Message(m.clone()),
            EventKind::Reading(r) => EventKind::Reading(r.duplicate()),
        }
    }
}

/// One bus event: a payload stamped with the stable identifier of the module
/// that published it.
#[derive(Clone, Debug)]
pub struct Event {
    pub module: String,
    pub inner: EventKind,
}

impl Event {
    /// The publishing module's identifier is never empty.
    pub open spec fn wf(&self) -> bool {
        self.module@.len() > 0 && self.inner.wf()
    }

    pub fn duplicate(&self) -> (r: Event)
        ensures
            r == *self,
    {
        Event { module: self.module.clone(), inner: self.inner.duplicate() }
    }
}

/// What one receive attempt yields: the next event, nothing new yet, or a
/// lag report counting how many events the subscriber missed for good.
#[derive(Clone, Debug)]
pub enum RecvResult {
    Received(Event),
    Empty,
    Lagged(usize),
}

/// The abstract state of a bus: the whole publish history, how many of its
/// oldest events have fallen out of the bounded window, and each
/// subscriber's cursor (the index into the history of the next event it is
/// owed).
#[verifier::ext_equal]
pub ghost struct BusView {
    pub capacity: nat,
    pub history: Seq<Event>,
    pub dropped: nat,
    pub cursors: Seq<nat>,
}

impl BusView {
    pub open spec fn wf(self) -> bool {
        &&& self.capacity >= 1
        &&& self.dropped <= self.history.len()
        &&& self.history.len() - self.dropped <= self.capacity
        &&& self.history.len() <= usize::MAX
        &&& forall|i: int| 0 <= i < self.cursors.len() ==> self.cursors[i] <= self.history.len()
    }

    /// How many events were ever published.
    pub open spec fn total(self) -> nat {
        self.history.len()
    }

    /// The effect of publishing one event: it joins the history, and if the
    /// retained window was full the oldest retained event falls out.
    pub open spec fn publish(self, e: Event) -> BusView {
        BusView {
            history: self.history.push(e),
            dropped: if self.history.len() + 1 - self.dropped > self.capacity {
                (self.dropped + 1) as nat
            } else {
                self.dropped
            },
            ..self
        }
    }

    /// The effect of publishing a sequence of events, oldest first.
    pub open spec fn publish_seq(self, es: Seq<Event>) -> BusView
        decreases es.len(),
    {
        if es.len() == 0 {
            self
        } else {
            self.publish(es[0]).publish_seq(es.skip(1))
        }
    }

    /// The effect of registering a subscriber: a fresh cursor at the current
    /// end of the history, so it observes only later events.
    pub open spec fn subscribe(self) -> BusView {
        BusView { cursors: self.cursors.push(self.history.len()), ..self }
    }

    /// Where subscriber `i`'s cursor stands after one receive attempt.
    pub open spec fn recv_cursor(self, i: int) -> nat {
        if self.cursors[i] >= self.total() {
            self.cursors[i]
        } else if self.cursors[i] < self.dropped {
            self.dropped
        } else {
            (self.cursors[i] + 1) as nat
        }
    }

    /// The effect on the bus of one receive attempt by subscriber `i`.
    pub open spec fn recv(self, i: int) -> BusView {
        BusView { cursors: self.cursors.update(i, self.recv_cursor(i)), ..self }
    }

    /// What one receive attempt by subscriber `i` returns.
    pub open spec fn recv_result(self, i: int) -> RecvResult {
        if self.cursors[i] >= self.total() {
            RecvResult::Empty
        } else if self.cursors[i] < self.dropped {
            RecvResult::Lagged(((self.dropped - self.cursors[i]) as nat) as usize)
        } else {
            RecvResult::Received(self.history[self.cursors[i] as int])
        }
    }

    /// Everything subscriber `i` has not yet received, oldest first: the
    /// stream it is owed if it keeps up (no lag).
    pub open spec fn pending(self, i: int) -> Seq<Event> {
        self.history.skip(self.cursors[i] as int)
    }
}

/// The capacity the agent gives its bus.
pub const BUS_CAPACITY: usize = 100;

/// A bounded-capacity broadcast channel. Subscribers are identified by the
/// index handed out by [`EventBus::subscribe`].
pub struct EventBus {
    capacity: usize,
    /// Events discarded from the front of the window, oldest first.
    gone: Ghost<Seq<Event>>,
    /// How many events have been discarded; equals `gone`'s length.
    dropped: usize,
    /// The retained tail of the history, at most `capacity` events.
    buffer: Vec<Event>,
    /// Each subscriber's absolute position in the history.
    cursors: Vec<usize>,
}

impl View for EventBus {
    type V = BusView;

    closed spec fn view(&self) -> BusView {
        BusView {
            capacity: self.capacity as nat,
            history: self.gone@ + self.buffer@,
            dropped: self.dropped as nat,
            cursors: self.cursors@.map_values(|c: usize| c as nat),
        }
    }
}

impl EventBus {
    /// The representation invariant; it implies the view's own
    /// well-formedness ([`EventBus::lemma_wf_view`]).
    pub closed spec fn wf(&self) -> bool {
        &&& self.capacity >= 1
        &&& self.gone@.len() == self.dropped
        &&& self.buffer@.len() <= self.capacity
        &&& self.dropped + self.buffer@.len() <= usize::MAX
        &&& forall|i: int|
            0 <= i < self.cursors@.len() ==> self.cursors@[i] <= self.dropped + self.buffer@.len()
    }

    pub proof fn lemma_wf_view(&self)
        requires
            self.wf(),
        ensures
            self@.wf(),
    {
        assert forall|i: int| 0 <= i < self@.cursors.len() implies self@.cursors[i]
            <= self@.history.len() by {
            assert(self@.cursors[i] == self.cursors@[i] as nat);
        }
    }

    /// A fresh bus with the given window capacity and no subscribers.
    pub fn with_capacity(capacity: usize) -> (bus: EventBus)
        requires
            capacity >= 1,
        ensures
            bus.wf(),
            bus@ == (BusView {
                capacity: capacity as nat,
                history: Seq::<Event>::empty(),
                dropped: 0,
                cursors: Seq::<nat>::empty(),
            }),
    {
        let bus = EventBus {
            capacity,
            gone: Ghost(Seq::empty()),
            dropped: 0,
            buffer: Vec::new(),
            cursors: Vec::new(),
        };
        proof {
            assert(bus@.history =~= Seq::<Event>::empty());
            assert(bus@.cursors =~= Seq::<nat>::empty());
        }
        bus
    }

    /// A fresh bus with the reference capacity.
    pub fn new() -> (bus: EventBus)
        ensures
            bus.wf(),
            bus@ == (BusView {
                capacity: BUS_CAPACITY as nat,
                history: Seq::<Event>::empty(),
                dropped: 0,
                cursors: Seq::<nat>::empty(),
            }),
    {
        Self::with_capacity(BUS_CAPACITY)
    }

    /// Publish one event. Never blocks, never fails: with no subscribers the
    /// event simply joins the history and is eventually dropped unread.
    pub fn publish(&mut self, e: Event)
        requires
            old(self).wf(),
            e.wf(),
            old(self)@.total() < usize::MAX,
        ensures
            final(self).wf(),
            final(self)@ == old(self)@.publish(e),
    {
        self.buffer.push(e);
        if self.buffer.len() > self.capacity {
            let ghost g = self.gone@;
            let front = self.buffer.remove(0);
            self.gone = Ghost(g.push(front));
            self.dropped = self.dropped + 1;
        }
        proof {
            assert(self@.history =~= old(self)@.publish(e).history);
            assert(self@ =~= old(self)@.publish(e));
        }
    }

    /// Publish a batch of events in order, oldest first.
    pub fn publish_all(&mut self, events: &Vec<Event>)
        requires
            old(self).wf(),
            forall|k: int| 0 <= k < events@.len() ==> (#[trigger] events@[k]).wf(),
            old(self)@.total() + events@.len() <= usize::MAX,
        ensures
            final(self).wf(),
            final(self)@ == old(self)@.publish_seq(events@),
    {
        proof {
            lemma_publish_seq_facts(old(self)@, events@);
        }
        let n = events.len();
        let mut k: usize = 0;
        while k < n
            invariant
                n == events@.len(),
                k <= n,
                forall|j: int| 0 <= j < n ==> (#[trigger] events@[j]).wf(),
                self.wf(),
                self@ == old(self)@.publish_seq(events@.take(k as int)),
                old(self)@.total() + n <= usize::MAX,
                old(self)@.wf(),
            decreases n - k,
        {
            proof {
                lemma_publish_seq_facts(old(self)@, events@.take(k as int));
                lemma_publish_seq_snoc(old(self)@, events@.take(k as int), events@[k as int]);
                assert(events@.take(k as int).push(events@[k as int]) =~= events@.take(
                    k as int + 1,
                ));
            }
            let e = events[k].duplicate();
            self.publish(e);
            k = k + 1;
        }
        proof {
            assert(events@.take(n as int) =~= events@);
        }
    }

    /// Register a new subscriber and return its identifier. The subscriber's
    /// cursor starts at the present end of the history: no replay.
    pub fn subscribe(&mut self) -> (id: usize)
        requires
            old(self).wf(),
        ensures
            final(self).wf(),
            final(self)@ == old(self)@.subscribe(),
            id == old(self)@.cursors.len(),
    {
        let id = self.cursors.len();
        let pos = self.dropped + self.buffer.len();
        self.cursors.push(pos);
        proof {
            assert(self@.cursors =~= old(self)@.subscribe().cursors);
            assert(self@ =~= old(self)@.subscribe());
        }
        id
    }

    /// How many subscribers were ever registered.
    pub fn subscriber_count(&self) -> (n: usize)
        requires
            self.wf(),
        ensures
            n == self@.cursors.len(),
    {
        self.cursors.len()
    }

    /// One receive attempt by subscriber `id`: the next pending event in
    /// publish order; `Empty` when it has seen everything; `Lagged` with the
    /// exact skip count when the window overran its cursor, after which it
    /// resumes at the oldest retained event. Never blocks, never panics.
    pub fn recv(&mut self, id: usize) -> (r: RecvResult)
        requires
            old(self).wf(),
            id < old(self)@.cursors.len(),
        ensures
            final(self).wf(),
            final(self)@ == old(self)@.recv(id as int),
            r == old(self)@.recv_result(id as int),
    {
        let c = self.cursors[id];
        let total = self.dropped + self.buffer.len();
        let r = if c >= total {
            RecvResult::Empty
        } else if c < self.dropped {
            let n = self.dropped - c;
            self.cursors.set(id, self.dropped);
            RecvResult::Lagged(n)
        } else {
            let e = self.buffer[c - self.dropped].duplicate();
            self.cursors.set(id, c + 1);
            RecvResult::Received(e)
        };
        proof {
            assert(self@.cursors =~= old(self)@.recv(id as int).cursors);
            assert(self@ =~= old(self)@.recv(id as int));
        }
        r
    }
}

impl Default for EventBus {
    /// Same as [`EventBus::new`].
    fn default() -> (bus: EventBus)
        ensures
            bus.wf(),
            bus@ == (BusView {
                capacity: BUS_CAPACITY as nat,
                history: Seq::<Event>::empty(),
                dropped: 0,
                cursors: Seq::<nat>::empty(),
            }),
    {
        EventBus::new()
    }
}

/// Publishing preserves well-formedness as long as the history has room to
/// be counted.
pub proof fn lemma_publish_wf(v: BusView, e: Event)
    requires
        v.wf(),
        v.total() < usize::MAX,
    ensures
        v.publish(e).wf(),
{
}

/// Publishing a batch appends it to the history and touches neither the
/// capacity nor any cursor.
pub proof fn lemma_publish_seq_facts(v: BusView, es: Seq<Event>)
    requires
        v.wf(),
        v.total() + es.len() <= usize::MAX,
    ensures
        v.publish_seq(es).history == v.history + es,
        v.publish_seq(es).cursors == v.cursors,
        v.publish_seq(es).capacity == v.capacity,
        v.publish_seq(es).wf(),
    decreases es.len(),
{
    if es.len() == 0 {
        assert(v.history + es =~= v.history);
    } else {
        lemma_publish_wf(v, es[0]);
        lemma_publish_seq_facts(v.publish(es[0]), es.skip(1));
        assert(v.history.push(es[0]) + es.skip(1) =~= v.history + es);
    }
}

/// Appending one event to a batch publishes it last.
pub proof fn lemma_publish_seq_snoc(v: BusView, es: Seq<Event>, e: Event)
    ensures
        v.publish_seq(es.push(e)) == v.publish_seq(es).publish(e),
    decreases es.len(),
{
    if es.len() == 0 {
        assert(es.push(e)[0] == e);
        assert(es.push(e).skip(1) =~= Seq::<Event>::empty());
        assert(v.publish_seq(es.push(e)) == v.publish(e).publish_seq(Seq::<Event>::empty()));
        assert(v.publish(e).publish_seq(Seq::<Event>::empty()) == v.publish(e));
        assert(v.publish_seq(es) == v);
    } else {
        assert(es.push(e)[0] == es[0]);
        assert(es.push(e).skip(1) =~= es.skip(1).push(e));
        assert(v.publish_seq(es.push(e)) == v.publish(es[0]).publish_seq(es.skip(1).push(e)));
        lemma_publish_seq_snoc(v.publish(es[0]), es.skip(1), e);
        assert(v.publish_seq(es) == v.publish(es[0]).publish_seq(es.skip(1)));
    }
}

/// Fan-out equality: publishing appends the new event, exactly once and at
/// the end, to the pending stream of every subscriber registered before the
/// publish. All of them therefore receive equal events in publish order.
pub proof fn lemma_fan_out(v: BusView, e: Event, i: int)
    requires
        v.wf(),
        0 <= i < v.cursors.len(),
    ensures
        v.publish(e).pending(i) == v.pending(i).push(e),
{
    assert(v.publish(e).pending(i) =~= v.pending(i).push(e));
}

/// Identical relative order: the pending stream of the further-along of two
/// subscribers is a suffix of the other's, so every pair of events they both
/// receive arrives in the same order for both.
pub proof fn lemma_same_order(v: BusView, i: int, j: int)
    requires
        v.wf(),
        0 <= i < v.cursors.len(),
        0 <= j < v.cursors.len(),
        v.cursors[i] <= v.cursors[j],
    ensures
        v.pending(j) == v.pending(i).skip(v.cursors[j] - v.cursors[i]),
{
    assert(v.pending(j) =~= v.pending(i).skip(v.cursors[j] - v.cursors[i]));
}

/// No replay: a subscriber registered after a publish is owed nothing at
/// that point — in particular not the already-published event — and a later
/// publish owes it exactly that later event.
pub proof fn lemma_no_replay(v: BusView, e: Event, f: Event)
    requires
        v.wf(),
    ensures
        v.publish(e).subscribe().pending(v.cursors.len() as int) == Seq::<Event>::empty(),
        v.publish(e).subscribe().publish(f).pending(v.cursors.len() as int) == seq![f],
{
    let n = v.cursors.len() as int;
    assert(v.publish(e).subscribe().pending(n) =~= Seq::<Event>::empty());
    assert(v.publish(e).subscribe().publish(f).pending(n) =~= seq![f]);
}

/// Cursors never rewind: no receive attempt, by any subscriber, moves any
/// cursor backwards. Together with [`lemma_no_replay`] this means a
/// subscriber never observes an event published before it subscribed.
pub proof fn lemma_cursors_never_rewind(v: BusView, i: int, j: int)
    requires
        v.wf(),
        0 <= i < v.cursors.len(),
        0 <= j < v.cursors.len(),
    ensures
        v.recv(j).cursors[i] >= v.cursors[i],
{
}

/// Lag resilience: once more events than the capacity separate a
/// subscriber's cursor from the head, its next receive is a lag report
/// counting exactly the events it missed for good; the cursor then stands at
/// the oldest retained event and the subscriber is owed the whole retained
/// suffix, in publish order and at most `capacity` long. The receive neither
/// fails nor blocks.
pub proof fn lemma_lag_resilience(v: BusView, i: int)
    requires
        v.wf(),
        0 <= i < v.cursors.len(),
        v.total() - v.cursors[i] > v.capacity,
    ensures
        v.cursors[i] < v.dropped,
        v.recv_result(i) == RecvResult::Lagged(((v.dropped - v.cursors[i]) as nat) as usize),
        v.recv(i).cursors[i] == v.dropped,
        v.recv(i).pending(i) == v.history.skip(v.dropped as int),
        v.recv(i).pending(i).len() <= v.capacity,
{
    assert(v.recv(i).pending(i) =~= v.history.skip(v.dropped as int));
}

} // verus!
