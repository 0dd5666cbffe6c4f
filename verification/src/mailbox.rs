//! The messaging substrate of the actor runtime: bounded FIFO mailboxes for
//! fire-and-forget sends, and a capacity-one reply channel for
//! request/response exchanges.
//!
//! A `notify` into a full mailbox is a silent drop by design: output commands
//! are best-effort feedback, and dropping one frame is preferable to stalling
//! the sender. A `Request` pairs a payload with a single-use reply channel;
//! the protocol never leaves more than one reply outstanding.

use vstd::prelude::*;

use crate::outputs::{LightsCommand, SoundCommand};

verus! {

/// A bounded FIFO queue of pending messages for one actor. Senders enqueue at
/// the back with [`Mailbox::notify`]; the owning actor takes from the front
/// with [`Mailbox::receive`], so messages of one sender are handled in send
/// order.
pub struct Mailbox<T> {
    items: Vec<T>,
    capacity: usize,
}

impl<T> View for Mailbox<T> {
    type V = Seq<T>;

    closed spec fn view(&self) -> Seq<T> {
        self.items@
    }
}

impl<T> Mailbox<T> {
    /// The bound the mailbox was created with.
    pub closed spec fn capacity_spec(&self) -> nat {
        self.capacity as nat
    }

    /// The queue never holds more than its bound, and the bound admits at
    /// least one message.
    pub open spec fn wf(&self) -> bool {
        self@.len() <= self.capacity_spec() && self.capacity_spec() >= 1
    }

    /// An empty mailbox with the given bound.
    pub fn with_capacity(capacity: usize) -> (m: Mailbox<T>)
        requires
            capacity >= 1,
        ensures
            m@ == Seq::<T>::empty(),
            m.capacity_spec() == capacity,
            m.wf(),
    {
        Mailbox { items: Vec::new(), capacity }
    }

    /// How many messages are pending.
    pub fn len(&self) -> (n: usize)
        ensures
            n == self@.len(),
    {
        self.items.len()
    }

    /// Fire-and-forget send: enqueue if there is room, silently drop the
    /// message otherwise. Returns whether the message was accepted.
    pub fn notify(&mut self, message: T) -> (accepted: bool)
        requires
            old(self).wf(),
        ensures
            final(self).wf(),
            final(self).capacity_spec() == old(self).capacity_spec(),
            accepted == (old(self)@.len() < old(self).capacity_spec()),
            accepted ==> final(self)@ == old(self)@.push(message),
            !accepted ==> final(self)@ == old(self)@,
    {
        if self.items.len() < self.capacity {
            self.items.push(message);
            true
        } else {
            false
        }
    }

    /// Take the oldest pending message, if any.
    pub fn receive(&mut self) -> (m: Option<T>)
        ensures
            final(self).capacity_spec() == old(self).capacity_spec(),
            old(self).wf() ==> final(self).wf(),
            old(self)@.len() == 0 ==> m is None && final(self)@ == old(self)@,
            old(self)@.len() > 0 ==> m == Some(old(self)@[0]) && final(self)@ == old(self)@.drop_first(),
    {
        if self.items.len() == 0 {
            None
        } else {
            let first = self.items.remove(0);
            assert(self.items@ =~= old(self).items@.drop_first());
            Some(first)
        }
    }
}

/// Law (FIFO delivery): two messages accepted into a mailbox come back out in
/// send order, ahead of anything enqueued after them.
pub proof fn lemma_mailbox_fifo<T>(pending: Seq<T>, first: T, second: T)
    ensures
        pending.push(first).push(second)[pending.len() as int] == first,
        pending.push(first).push(second)[pending.len() as int + 1] == second,
{
}

/// The bundle of send-only mailbox handles that the router and the views use
/// to emit feedback to the output actors. Each send is a `notify`: it never
/// blocks, and it is dropped silently when the target mailbox is full.
pub struct TaskSenders {
    pub lights: Mailbox<LightsCommand>,
    pub sound: Mailbox<SoundCommand>,
}

impl TaskSenders {
    pub open spec fn wf(&self) -> bool {
        self.lights.wf() && self.sound.wf()
    }

    /// Fresh mailboxes with the given bound for each output actor.
    pub fn with_capacity(capacity: usize) -> (s: TaskSenders)
        requires
            capacity >= 1,
        ensures
            s.wf(),
            s.lights@ == Seq::<LightsCommand>::empty(),
            s.sound@ == Seq::<SoundCommand>::empty(),
    {
        TaskSenders { lights: Mailbox::with_capacity(capacity), sound: Mailbox::with_capacity(capacity) }
    }
}

/// What one fire-and-forget send leaves in a mailbox of the given bound:
/// the message is appended when there is room and dropped otherwise.
pub open spec fn notified<T>(queue: Seq<T>, cap: nat, message: T) -> Seq<T> {
    if queue.len() < cap {
        queue.push(message)
    } else {
        queue
    }
}

/// What a run of fire-and-forget sends leaves in a mailbox, in order.
pub open spec fn notified_all<T>(queue: Seq<T>, cap: nat, messages: Seq<T>) -> Seq<T>
    decreases messages.len(),
{
    if messages.len() == 0 {
        queue
    } else {
        notified_all(notified(queue, cap, messages[0]), cap, messages.drop_first())
    }
}

/// A run of no sends leaves the mailbox as it was.
pub proof fn lemma_notify_none<T>(queue: Seq<T>, cap: nat)
    ensures
        notified_all(queue, cap, Seq::<T>::empty()) == queue,
{
}

/// A run of one send is that send.
pub proof fn lemma_notify_one<T>(queue: Seq<T>, cap: nat, m: T)
    ensures
        notified_all(queue, cap, seq![m]) == notified(queue, cap, m),
{
    assert(seq![m].drop_first() =~= Seq::<T>::empty());
    assert(notified_all(queue, cap, seq![m]) == notified_all(
        notified(queue, cap, m),
        cap,
        Seq::<T>::empty(),
    ));
    lemma_notify_none(notified(queue, cap, m), cap);
}

/// A run of two sends is the two sends in order.
pub proof fn lemma_notify_two<T>(queue: Seq<T>, cap: nat, m0: T, m1: T)
    ensures
        notified_all(queue, cap, seq![m0, m1]) == notified(notified(queue, cap, m0), cap, m1),
{
    assert(seq![m0, m1].drop_first() =~= seq![m1]);
    assert(notified_all(queue, cap, seq![m0, m1]) == notified_all(
        notified(queue, cap, m0),
        cap,
        seq![m1],
    ));
    lemma_notify_one(notified(queue, cap, m0), cap, m1);
}

/// Two runs of sends, one after the other, are their concatenation.
pub proof fn lemma_notified_all_append<T>(queue: Seq<T>, cap: nat, first: Seq<T>, second: Seq<T>)
    ensures
        notified_all(notified_all(queue, cap, first), cap, second) == notified_all(
            queue,
            cap,
            first + second,
        ),
    decreases first.len(),
{
    if first.len() == 0 {
        assert(first + second =~= second);
    } else {
        assert((first + second)[0] == first[0]);
        assert((first + second).drop_first() =~= first.drop_first() + second);
        lemma_notified_all_append(notified(queue, cap, first[0]), cap, first.drop_first(), second);
    }
}

/// The two sender bundles differ exactly by this run of sound sends; the
/// lights mailbox is untouched.
pub open spec fn sound_sent(before: TaskSenders, after: TaskSenders, sounds: Seq<SoundCommand>) -> bool {
    after.sound@ == notified_all(before.sound@, before.sound.capacity_spec(), sounds)
        && after.sound.capacity_spec() == before.sound.capacity_spec() && after.lights@
        == before.lights@ && after.lights.capacity_spec() == before.lights.capacity_spec()
}

/// What a capacity-one reply channel holds after a reply is sent into it.
pub open spec fn reply_sent(channel: Option<u32>, value: u32) -> Option<u32> {
    Some(value)
}

/// Taking from a reply channel: the channel after, and what the requester
/// observes (the pending reply, or nothing).
pub open spec fn reply_taken(channel: Option<u32>) -> (Option<u32>, Option<u32>) {
    (None, channel)
}

/// The single-use reply channel of a request/response exchange. It has
/// capacity one and is owned by the requester for the duration of the call;
/// the responder sends exactly one value into it.
pub struct ReplyChannel {
    slot: Option<u32>,
}

impl View for ReplyChannel {
    type V = Option<u32>;

    closed spec fn view(&self) -> Option<u32> {
        self.slot
    }
}

impl ReplyChannel {
    /// A fresh channel with no reply pending.
    pub fn empty() -> (c: ReplyChannel)
        ensures
            c@ is None,
    {
        ReplyChannel { slot: None }
    }

    /// Deliver the reply. The protocol keeps at most one request outstanding
    /// per channel, so the slot is free when the responder answers.
    pub fn send(&mut self, value: u32)
        requires
            old(self)@ is None,
        ensures
            final(self)@ == reply_sent(old(self)@, value),
    {
        self.slot = Some(value);
    }

    /// The requester collects the reply, emptying the channel.
    pub fn take(&mut self) -> (value: u32)
        requires
            old(self)@ is Some,
        ensures
            reply_taken(old(self)@) == (final(self)@, Some(value)),
    {
        let value = match self.slot {
            Some(v) => v,
            None => 0,
        };
        self.slot = None;
        value
    }
}

/// A request to the random-number service.
#[derive(Debug, Clone, Copy, PartialEq, Eq, Structural)]
pub enum RngCommand {
    /// Ask for one fresh 32-bit value.
    GetU32,
}

/// One step of the random-number service: answer the pending request with the
/// value drawn from the hardware generator. The draw itself happens outside;
/// this step holds for every value it may produce.
pub fn rng_serve(command: RngCommand, reply: &mut ReplyChannel, random_value: u32)
    requires
        old(reply)@ is None,
    ensures
        final(reply)@ == Some(random_value),
{
    match command {
        RngCommand::GetU32 => reply.send(random_value),
    }
}

/// Law (request/response single delivery): a served request is observed
/// exactly once. Sending one reply and taking it yields that very value and
/// leaves the channel empty, so a second take observes nothing.
pub proof fn lemma_request_single_delivery(channel: Option<u32>, value: u32)
    requires
        channel is None,
    ensures
        reply_taken(reply_sent(channel, value)).1 == Some(value),
        reply_taken(reply_sent(channel, value)).0 is None,
        reply_taken(reply_taken(reply_sent(channel, value)).0).1 is None,
{
}

} // verus!
