use vstd::prelude::*;

use std::collections::VecDeque;

use crate::address::SocketAddress;
use crate::message::Message;
use crate::selection::{lemma_select_is_filter, select};

verus! {

/// `n / d` rounded toward zero, as Rust's integer division rounds.
pub open spec fn div_toward_zero(n: int, d: int) -> int {
    if n >= 0 {
        n / d
    } else {
        -((-n) / d)
    }
}

/// The abstract state of a [`Transport`].
pub struct TransportView {
    /// The messages waiting to be sent, oldest first.
    pub pending: Seq<Message>,
    /// Bytes a caller may reliably send in the current frame.
    pub frame_budget_bytes: i32,
    /// Estimated round-trip latency in nanoseconds.
    pub latency_nanos: i64,
    /// Estimated fraction of packets lost, as an IEEE-754 binary32 bit pattern.
    pub packet_loss: u32,
}

/// Owner of the queue of messages to be sent, and the interface through
/// which other parts of a program hand messages to the network.
///
/// It also holds the link conditions that the network layer measures: the
/// frame budget, the latency and the packet loss. They are stored as given,
/// without any check of their range.
pub struct Transport {
    messages: VecDeque<Message>,
    frame_budget_bytes: i32,
    latency_nanos: i64,
    packet_loss: u32,
}

/// `after` holds the same frame budget, latency and packet loss as `before`.
pub open spec fn same_link_conditions(before: TransportView, after: TransportView) -> bool {
    &&& after.frame_budget_bytes == before.frame_budget_bytes
    &&& after.latency_nanos == before.latency_nanos
    &&& after.packet_loss == before.packet_loss
}

/// Sends and drains never touch the link conditions: along any run of
/// states in which each step keeps them (as `send` and
/// `drain_messages_to_send` do), the last state holds the frame budget,
/// latency and packet loss of the first, whatever the queue held meanwhile.
pub proof fn lemma_link_conditions_kept(run: Seq<TransportView>)
    requires
        run.len() > 0,
        forall|i: int| 0 < i < run.len() ==> same_link_conditions(run[i - 1], #[trigger] run[i]),
    ensures
        same_link_conditions(run[0], run.last()),
    decreases run.len(),
{
    if run.len() > 1 {
        assert forall|i: int| 0 < i < run.drop_last().len() implies same_link_conditions(
            run.drop_last()[i - 1],
            #[trigger] run.drop_last()[i],
        ) by {
            assert(same_link_conditions(run[i - 1], run[i]));
        }
        lemma_link_conditions_kept(run.drop_last());
        assert(same_link_conditions(run[run.len() - 2], run[run.len() - 1]));
        assert(run.drop_last()[0] == run[0]);
    }
}

/// What every call of `filter` satisfies holds at each position: the form
/// in which the drain's contract speaks of its filter, taken at one `q`
/// and one `i`.
proof fn lemma_relation_at<F: Fn(&mut Message) -> bool>(
    filter: F,
    pending: Seq<Message>,
    changed: Seq<Message>,
    marks: Seq<bool>,
    q: spec_fn(Message, Message, bool) -> bool,
    i: int,
)
    requires
        forall|q: spec_fn(Message, Message, bool) -> bool, i: int|
            (forall|m: &mut Message, b: bool|
                #[trigger] filter.ensures((m,), b) ==> q(*m, *final(m), b)) && 0 <= i
                < changed.len() ==> #[trigger] q(pending[i], changed[i], marks[i]),
        forall|m: &mut Message, b: bool| #[trigger] filter.ensures((m,), b) ==> q(*m, *final(m), b),
        0 <= i < changed.len(),
    ensures
        q(pending[i], changed[i], marks[i]),
{
}

/// Draining by a filter that leaves each message as it was and answers
/// `p` of it hands out exactly the pending messages that satisfy `p` and
/// keeps exactly the others, each in queue order. `marks` and `changed`
/// are those of the drain's contract.
pub proof fn lemma_drain_by_predicate<F: Fn(&mut Message) -> bool>(
    filter: F,
    p: spec_fn(Message) -> bool,
    pending: Seq<Message>,
    marks: Seq<bool>,
    changed: Seq<Message>,
)
    requires
        marks.len() == pending.len(),
        changed.len() == pending.len(),
        forall|q: spec_fn(Message, Message, bool) -> bool, i: int|
            (forall|m: &mut Message, b: bool|
                #[trigger] filter.ensures((m,), b) ==> q(*m, *final(m), b)) && 0 <= i
                < changed.len() ==> #[trigger] q(pending[i], changed[i], marks[i]),
        forall|m: &mut Message, b: bool|
            #[trigger] filter.ensures((m,), b) ==> b == p(*m) && *final(m) == *m,
    ensures
        changed == pending,
        forall|i: int| 0 <= i < marks.len() ==> marks[i] == p(pending[i]),
        select(changed, marks, true) == pending.filter(p),
        select(changed, marks, false) == pending.filter(|x: Message| !p(x)),
{
    let q = |x: Message, y: Message, b: bool| b == p(x) && y == x;
    assert forall|m: &mut Message, b: bool| #[trigger] filter.ensures((m,), b) implies q(
        *m,
        *final(m),
        b,
    ) by {}
    assert forall|i: int| 0 <= i < marks.len() implies marks[i] == p(pending[i]) && changed[i]
        == pending[i] by {
        lemma_relation_at(filter, pending, changed, marks, q, i);
    }
    assert(changed =~= pending);
    lemma_select_is_filter(pending, marks, p);
}

impl View for Transport {
    type V = TransportView;

    closed spec fn view(&self) -> TransportView {
        TransportView {
            pending: self.messages@,
            frame_budget_bytes: self.frame_budget_bytes,
            latency_nanos: self.latency_nanos,
            packet_loss: self.packet_loss,
        }
    }
}

impl Transport {
    /// Creates a transport with no pending messages and all link
    /// conditions at zero.
    pub fn new() -> (r: Transport)
        ensures
            r@.pending == Seq::<Message>::empty(),
            r@.frame_budget_bytes == 0,
            r@.latency_nanos == 0,
            r@.packet_loss == 0,
    {
        Transport {
            messages: VecDeque::new(),
            frame_budget_bytes: 0,
            latency_nanos: 0,
            packet_loss: 0,
        }
    }

    /// Returns the estimated number of bytes that can reliably be sent this
    /// frame.
    pub fn frame_budget_bytes(&self) -> (r: i32)
        ensures
            r == self@.frame_budget_bytes,
    {
        self.frame_budget_bytes
    }

    /// Sets the frame budget in bytes, as measured by the network layer.
    pub fn set_frame_budget_bytes(&mut self, budget: i32)
        ensures
            final(self)@ == (TransportView { frame_budget_bytes: budget, ..old(self)@ }),
    {
        self.frame_budget_bytes = budget;
    }

    /// Returns the estimated round-trip latency in whole milliseconds,
    /// truncated toward zero.
    pub fn latency_millis(&mut self) -> (r: i64)
        ensures
            r == div_toward_zero(old(self)@.latency_nanos as int, 1_000_000),
            final(self)@ == old(self)@,
    {
        self.latency_nanos / 1_000_000
    }

    /// Returns the estimated round-trip latency in whole microseconds,
    /// truncated toward zero.
    pub fn latency_micros(&mut self) -> (r: i64)
        ensures
            r == div_toward_zero(old(self)@.latency_nanos as int, 1_000),
            final(self)@ == old(self)@,
    {
        self.latency_nanos / 1000
    }

    /// Returns the estimated round-trip latency in nanoseconds.
    pub fn latency_nanos(&self) -> (r: i64)
        ensures
            r == self@.latency_nanos,
    {
        self.latency_nanos
    }

    /// Sets the round-trip latency in nanoseconds, as measured by the
    /// network layer.
    pub fn set_latency_nanos(&mut self, latency: i64)
        ensures
            final(self)@ == (TransportView { latency_nanos: latency, ..old(self)@ }),
    {
        self.latency_nanos = latency;
    }

    /// Returns the estimated fraction of packets lost, nominally between 0.0
    /// and 1.0, as the bit pattern of an IEEE-754 binary32 number
    /// (`f32::from_bits` gives the number).
    pub fn packet_loss(&self) -> (r: u32)
        ensures
            r == self@.packet_loss,
    {
        self.packet_loss
    }

    /// Sets the packet loss, given as the bit pattern of an IEEE-754
    /// binary32 number (`f32::to_bits`). The value is stored as given.
    pub fn set_packet_loss(&mut self, loss: u32)
        ensures
            final(self)@ == (TransportView { packet_loss: loss, ..old(self)@ }),
    {
        self.packet_loss = loss;
    }

    /// Queues a message carrying a copy of `payload` for `destination`,
    /// behind every message already pending.
    pub fn send(&mut self, destination: SocketAddress, payload: &[u8])
        ensures
            final(self)@.pending.len() == old(self)@.pending.len() + 1,
            final(self)@.pending.drop_last() == old(self)@.pending,
            final(self)@.pending.last().destination == destination,
            final(self)@.pending.last().payload@ == payload@,
            same_link_conditions(old(self)@, final(self)@),
    {
        let message = Message::new(destination, payload);
        self.messages.push_back(message);
    }

    /// Returns true if any message is waiting to be sent.
    pub fn has_messages(&self) -> (r: bool)
        ensures
            r == (self@.pending.len() > 0),
    {
        self.messages.len() != 0
    }

    /// Returns the pending messages, oldest first, for inspection.
    pub fn get_messages(&self) -> (r: &VecDeque<Message>)
        ensures
            r@ == self@.pending,
    {
        &self.messages
    }

    /// Removes the pending messages for which `filter` returns true and
    /// returns them, oldest first. The others stay queued in their order.
    ///
    /// The queue is walked once, front to back, and `filter` is called once
    /// for each message. It may change the message it is given, for
    /// instance to tag it: the change stays, whether the message is handed
    /// out or kept. In the contract, `marks[i]` is the answer for the `i`-th
    /// message and `changed[i]` that message as `filter` left it. What the
    /// contract knows of them is what `filter` promises of every call: any
    /// relation `q` between the message given, the message left and the
    /// answer that holds of every call holds of each old message, its
    /// changed form and its mark.
    pub fn drain_messages_to_send(&mut self, filter: impl Fn(&mut Message) -> bool) -> (r: Vec<
        Message,
    >)
        requires
            forall|m: &mut Message| filter.requires((m,)),
        ensures
            exists|marks: Seq<bool>, changed: Seq<Message>|
                {
                    &&& marks.len() == old(self)@.pending.len()
                    &&& changed.len() == old(self)@.pending.len()
                    &&& forall|q: spec_fn(Message, Message, bool) -> bool, i: int|
                        (forall|m: &mut Message, b: bool|
                            #[trigger] filter.ensures((m,), b) ==> q(*m, *final(m), b)) && 0 <= i
                            < changed.len() ==> #[trigger] q(
                            old(self)@.pending[i],
                            changed[i],
                            marks[i],
                        )
                    &&& r@ == select(changed, marks, true)
                    &&& final(self)@.pending == select(changed, marks, false)
                },
            same_link_conditions(old(self)@, final(self)@),
    {
        let ghost orig = self.messages@;
        let n = self.messages.len();
        let mut drained: Vec<Message> = Vec::with_capacity(n);
        let mut kept: VecDeque<Message> = VecDeque::with_capacity(n);
        let ghost mut marks: Seq<bool> = Seq::empty();
        let ghost mut changed: Seq<Message> = Seq::empty();
        let mut i: usize = 0;
        while i < n
            invariant
                forall|m: &mut Message| filter.requires((m,)),
                n == orig.len(),
                i <= n,
                self.messages@ == orig.subrange(i as int, n as int),
                marks.len() == i,
                changed.len() == i,
                forall|q: spec_fn(Message, Message, bool) -> bool, j: int|
                    (forall|m: &mut Message, b: bool|
                        #[trigger] filter.ensures((m,), b) ==> q(*m, *final(m), b)) && 0 <= j < i
                        ==> #[trigger] q(orig[j], changed[j], marks[j]),
                drained@ == select(changed, marks, true),
                kept@ == select(changed, marks, false),
                self.frame_budget_bytes == old(self).frame_budget_bytes,
                self.latency_nanos == old(self).latency_nanos,
                self.packet_loss == old(self).packet_loss,
            decreases n - i,
        {
            let mut m = self.messages.pop_front().unwrap();
            let ghost before = m;
            let hit = filter(&mut m);
            proof {
                assert(before == orig[i as int]);
                assert(changed.push(m).drop_last() =~= changed);
                assert(marks.push(hit).drop_last() =~= marks);
                assert(self.messages@ =~= orig.subrange(i as int + 1, n as int));
                let prev_marks = marks;
                let prev_changed = changed;
                marks = marks.push(hit);
                changed = changed.push(m);
                assert forall|q: spec_fn(Message, Message, bool) -> bool, j: int|
                    (forall|m_ref: &mut Message, b: bool|
                        #[trigger] filter.ensures((m_ref,), b) ==> q(*m_ref, *final(m_ref), b))
                        && 0 <= j < i + 1 implies #[trigger] q(orig[j], changed[j], marks[j]) by {
                    if j < i {
                        assert(changed[j] == prev_changed[j]);
                        assert(marks[j] == prev_marks[j]);
                    } else {
                        assert(changed[j] == m);
                        assert(marks[j] == hit);
                    }
                }
            }
            if hit {
                drained.push(m);
            } else {
                kept.push_back(m);
            }
            i = i + 1;
        }
        self.messages = kept;
        proof {
            assert(old(self)@.pending == orig);
        }
        drained
    }
}

impl Default for Transport {
    /// Same as [`Transport::new`].
    fn default() -> (r: Transport)
        ensures
            r@.pending == Seq::<Message>::empty(),
            r@.frame_budget_bytes == 0,
            r@.latency_nanos == 0,
            r@.packet_loss == 0,
    {
        Transport::new()
    }
}

} // verus!
