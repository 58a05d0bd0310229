//! The subscriber worker.
//!
//! A subscriber owns one bus connection and the subscription made on it,
//! pulls inbound messages into a bounded mailbox as they arrive, and hands
//! them to the registered handler strictly in arrival order: one message is
//! fully processed before the next is dispatched.  A handler error never
//! stops the worker.  The connection is held for the worker's entire
//! lifetime — dropping it would silently close the subscription.
use crate::mailbox::{spec_bump, spec_offer, Mailbox};
use crate::{InternalError, NatsClientSettings};
use vstd::prelude::*;

verus! {

/// An inbound bus message: the raw payload plus the subject it arrived on.
#[derive(Clone, Debug, PartialEq, Eq)]
pub struct NatsStreamMessage {
    pub subject: String,
    pub payload: Vec<u8>,
}

/// Configuration of one subscriber worker.
#[derive(Clone, Debug)]
pub struct NatsSubscriberConfig {
    pub client_settings: NatsClientSettings,
    pub subject: String,
    pub mailbox_size: usize,
}

/// The lifecycle states of a subscriber worker.
#[derive(Clone, Copy, Debug, PartialEq, Eq, Structural)]
pub enum SubscriberPhase {
    /// Dialing the bus and issuing the subscribe call.
    Connecting,
    /// Holding a live subscription and dispatching messages.
    Subscribed,
    /// Never started: the subscribe call was refused.
    Stopped,
}

/// A subscriber worker's state: its configuration, lifecycle phase, the
/// connection it must keep alive, the bounded mailbox of inbound messages,
/// and the (ghost) histories of accepted and dispatched messages.
pub struct NatsSubscriber {
    config: NatsSubscriberConfig,
    phase: SubscriberPhase,
    connection: Option<u64>,
    mailbox: Mailbox<NatsStreamMessage>,
    arrived: Ghost<Seq<NatsStreamMessage>>,
    dispatched: Ghost<Seq<NatsStreamMessage>>,
}

impl NatsSubscriber {
    /// The lifecycle phase.
    pub closed spec fn spec_phase(&self) -> SubscriberPhase {
        self.phase
    }

    /// The connection handle the worker keeps alive.
    pub closed spec fn spec_connection(&self) -> Option<u64> {
        self.connection
    }

    /// The subject subscribed to.
    pub closed spec fn spec_subject(&self) -> Seq<char> {
        self.config.subject@
    }

    /// The messages waiting in the mailbox, oldest first.
    pub closed spec fn queue(&self) -> Seq<NatsStreamMessage> {
        self.mailbox.queue()
    }

    /// The fixed mailbox capacity.
    pub closed spec fn cap(&self) -> nat {
        self.mailbox.cap()
    }

    /// Every message accepted into the mailbox, in arrival order.
    pub closed spec fn arrived(&self) -> Seq<NatsStreamMessage> {
        self.arrived@
    }

    /// Every message handed to the handler, in dispatch order.
    pub closed spec fn dispatched(&self) -> Seq<NatsStreamMessage> {
        self.dispatched@
    }

    /// How many inbound messages were dropped on overflow (saturating).
    pub closed spec fn dropped_count(&self) -> u64 {
        self.mailbox.dropped_count()
    }

    /// The accepted history is exactly the dispatched messages followed by
    /// the ones still queued, and the mailbox respects its capacity.
    pub closed spec fn wf(&self) -> bool {
        &&& self.mailbox.wf()
        &&& self.arrived() == self.dispatched() + self.queue()
        &&& self.spec_phase() is Subscribed ==> self.spec_connection() is Some
    }

    /// A fresh worker for this configuration: connecting, with an empty
    /// mailbox of the configured capacity and empty histories.
    pub fn subscribe_to_nats(config: NatsSubscriberConfig) -> (s: NatsSubscriber)
        ensures
            s.wf(),
            s.spec_phase() is Connecting,
            s.spec_connection() is None,
            s.queue() == Seq::<NatsStreamMessage>::empty(),
            s.arrived() == Seq::<NatsStreamMessage>::empty(),
            s.dispatched() == Seq::<NatsStreamMessage>::empty(),
            s.cap() == config.mailbox_size as nat,
            s.spec_subject() == config.subject@,
            s.dropped_count() == 0,
    {
        let mailbox = Mailbox::new(config.mailbox_size);
        let s = NatsSubscriber {
            config,
            phase: SubscriberPhase::Connecting,
            connection: None,
            mailbox,
            arrived: Ghost(Seq::empty()),
            dispatched: Ghost(Seq::empty()),
        };
        proof {
            assert(s.arrived() =~= s.dispatched() + s.queue());
        }
        s
    }

    /// The dial succeeded: the worker stores the connection it must now keep
    /// alive for its whole lifetime.
    pub fn on_connected(&mut self, handle: u64)
        requires
            old(self).wf(),
            old(self).spec_phase() is Connecting,
        ensures
            final(self).wf(),
            final(self).spec_phase() is Connecting,
            final(self).spec_connection() == Some(handle),
            final(self).queue() == old(self).queue(),
            final(self).arrived() == old(self).arrived(),
            final(self).dispatched() == old(self).dispatched(),
            final(self).cap() == old(self).cap(),
            final(self).spec_subject() == old(self).spec_subject(),
    {
        self.connection = Some(handle);
    }

    /// The subscribe call was accepted: the worker starts dispatching.
    pub fn on_subscribe_ok(&mut self)
        requires
            old(self).wf(),
            old(self).spec_connection() is Some,
        ensures
            final(self).wf(),
            final(self).spec_phase() is Subscribed,
            final(self).spec_connection() == old(self).spec_connection(),
            final(self).queue() == old(self).queue(),
            final(self).arrived() == old(self).arrived(),
            final(self).dispatched() == old(self).dispatched(),
            final(self).cap() == old(self).cap(),
            final(self).spec_subject() == old(self).spec_subject(),
    {
        self.phase = SubscriberPhase::Subscribed;
    }

    /// The subscribe call was refused: the worker never starts — no retry at
    /// this layer — and the failure surfaces as an operation error naming
    /// the subject and the transport's reason.
    pub fn on_subscribe_failed(&mut self, reason: &str) -> (e: InternalError)
        requires
            old(self).wf(),
        ensures
            final(self).wf(),
            final(self).spec_phase() is Stopped,
            final(self).spec_connection() == old(self).spec_connection(),
            final(self).queue() == old(self).queue(),
            final(self).arrived() == old(self).arrived(),
            final(self).dispatched() == old(self).dispatched(),
            final(self).cap() == old(self).cap(),
            final(self).spec_subject() == old(self).spec_subject(),
            final(self).dropped_count() == old(self).dropped_count(),
            e matches InternalError::NatsOperationError { cause } && cause@
                == "Cannot subscribe to subject ["@ + old(self).spec_subject() + "]. Err: "@
                + reason@,
    {
        self.phase = SubscriberPhase::Stopped;
        let mut cause = String::from_str("Cannot subscribe to subject [");
        cause.append(self.config.subject.as_str());
        cause.append("]. Err: ");
        cause.append(reason);
        InternalError::NatsOperationError { cause }
    }

    /// An inbound message arrived from the live subscription: it joins the
    /// mailbox in arrival order, or is dropped (and counted) when the
    /// mailbox is full — never blocking the stream.
    pub fn on_message(&mut self, msg: NatsStreamMessage) -> (accepted: bool)
        requires
            old(self).wf(),
        ensures
            final(self).wf(),
            final(self).spec_phase() == old(self).spec_phase(),
            final(self).spec_connection() == old(self).spec_connection(),
            final(self).cap() == old(self).cap(),
            final(self).spec_subject() == old(self).spec_subject(),
            final(self).dispatched() == old(self).dispatched(),
            accepted == (old(self).queue().len() < old(self).cap()),
            (final(self).queue(), accepted) == spec_offer(
                old(self).queue(),
                old(self).cap(),
                msg,
            ),
            accepted ==> final(self).arrived() == old(self).arrived().push(msg)
                && final(self).dropped_count() == old(self).dropped_count(),
            !accepted ==> final(self).arrived() == old(self).arrived()
                && final(self).dropped_count() == spec_bump(old(self).dropped_count()),
    {
        let ghost m = msg;
        let accepted = self.mailbox.try_send(msg);
        proof {
            if accepted {
                self.arrived@ = self.arrived@.push(m);
                assert(final(self).arrived() =~= final(self).dispatched() + final(self).queue());
            }
        }
        accepted
    }

    /// Takes the next message to dispatch: the oldest accepted message not
    /// yet handled.  The handler must be invoked, and must return, before
    /// this is called again — that discipline gives strict per-subject
    /// ordering from bus to callback.
    pub fn next_message(&mut self) -> (r: Option<NatsStreamMessage>)
        requires
            old(self).wf(),
        ensures
            final(self).wf(),
            final(self).spec_phase() == old(self).spec_phase(),
            final(self).spec_connection() == old(self).spec_connection(),
            final(self).cap() == old(self).cap(),
            final(self).spec_subject() == old(self).spec_subject(),
            final(self).arrived() == old(self).arrived(),
            old(self).queue().len() == 0 ==> r is None && final(self).queue() == old(
                self,
            ).queue() && final(self).dispatched() == old(self).dispatched(),
            old(self).queue().len() > 0 ==> {
                &&& r == Some(old(self).queue()[0])
                &&& final(self).queue() == old(self).queue().drop_first()
                &&& final(self).dispatched() == old(self).dispatched().push(old(self).queue()[0])
            },
    {
        let ghost q = self.mailbox.queue();
        let r = self.mailbox.pop();
        proof {
            if q.len() > 0 {
                self.dispatched@ = self.dispatched@.push(q[0]);
                assert(final(self).arrived() =~= final(self).dispatched() + final(self).queue());
            }
        }
        r
    }

    /// The handler's outcome for the message just dispatched: an error is
    /// logged and passed back to the delivery mechanism, but the worker is
    /// untouched either way — the next message is still processed.
    pub fn on_handler_result(&self, r: Result<(), InternalError>) -> (out: Result<
        (),
        InternalError,
    >)
        ensures
            out == r,
    {
        r
    }

    /// How many messages are waiting.
    pub fn mailbox_len(&self) -> (n: usize)
        ensures
            n == self.queue().len(),
    {
        self.mailbox.len()
    }

    /// The connection handle held, for the runtime.
    pub fn connection_handle(&self) -> (r: Option<u64>)
        ensures
            r == self.spec_connection(),
    {
        self.connection
    }

    /// The lifecycle phase, for the runtime.
    pub fn phase(&self) -> (r: SubscriberPhase)
        ensures
            r == self.spec_phase(),
    {
        self.phase
    }

    /// How many inbound messages were dropped on overflow (saturating).
    pub fn dropped(&self) -> (n: u64)
        ensures
            n == self.dropped_count(),
    {
        self.mailbox.dropped()
    }
}

/// Subscriber ordering: at any point, the messages handed to the handler
/// are exactly the first accepted messages, in arrival order — the handler
/// sees `m1` before `m2` whenever `m1` arrived first, and nothing is handed
/// over twice or out of turn.
pub proof fn lemma_subscriber_ordering(s: &NatsSubscriber)
    requires
        s.wf(),
    ensures
        s.dispatched() == s.arrived().take(s.dispatched().len() as int),
        s.dispatched().len() + s.queue().len() == s.arrived().len(),
        forall|i: int|
            0 <= i < s.dispatched().len() ==> #[trigger] s.dispatched()[i] == s.arrived()[i],
{
    assert(s.dispatched() =~= s.arrived().take(s.dispatched().len() as int));
}

} // verus!
