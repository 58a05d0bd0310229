//! The supervised publisher worker.
//!
//! A publisher owns one bus connection and a bounded mailbox of outbound
//! envelopes.  It serializes each envelope and publishes it without blocking
//! its own loop; a failed publish waits a second and resubmits the envelope
//! to the worker's own mailbox.  A worker that cannot connect terminates and
//! is recreated by its supervisor marked "restarted", which makes the next
//! start wait out a fixed cool-down before dialing again.
//!
//! Every transition returns the actions the surrounding runtime must
//! perform (sleep, close, connect, publish, requeue, stop); the runtime
//! reports outcomes back through the `on_*` transitions.
use crate::cloudevent::{event_to_json, serializes_ok};
use crate::mailbox::{spec_bump, spec_offer, Mailbox};
use crate::InternalError;
use vstd::prelude::*;

verus! {

/// Cool-down before a restarted worker dials again, in milliseconds.
pub const RESTART_COOLDOWN_MS: u64 = 10_000;

/// Delay before a failed publish is resubmitted, in milliseconds.
pub const PUBLISH_RETRY_DELAY_MS: u64 = 1_000;

/// An outbound wire event awaiting publication: the unit of work on a
/// publisher's mailbox.
#[derive(Debug)]
pub struct EventMessage {
    pub event: cloudevents::Event,
}

/// Configuration of one publisher worker.
#[derive(Clone, Debug)]
pub struct NatsPublisherConfig {
    pub client_settings: crate::NatsClientSettings,
    pub subject: String,
    pub mailbox_size: usize,
}

/// The lifecycle states of a publisher worker.
#[derive(Clone, Copy, Debug, PartialEq, Eq, Structural)]
pub enum PublisherPhase {
    /// Created, not yet dialing.
    Starting,
    /// Dialing the bus under the retrying connection manager.
    Connecting,
    /// Holding a live connection and accepting envelopes.
    Connected,
    /// Terminated after a connect failure; awaiting supervision.
    Failed,
}

/// What the runtime must perform after a publisher transition, in order.
#[derive(Debug)]
pub enum PublisherAction {
    /// Sleep this many milliseconds before going on.
    Sleep(u64),
    /// Close the previously held connection with this handle; a close error
    /// is logged, not fatal.
    CloseConnection(u64),
    /// Dial the bus under `connect_with_retry` and report the outcome to
    /// `on_connect_ok` or `on_connect_failed`.
    ConnectWithRetry,
    /// Publish `payload` to `subject` without blocking the worker loop, then
    /// report the outcome to `on_publish_result`, handing `msg` back.
    Publish { subject: String, payload: Vec<u8>, msg: EventMessage },
    /// Offer this envelope to the worker's own mailbox again.
    Requeue(EventMessage),
    /// Terminate the worker; the supervisor recreates it marked restarted.
    Stop,
}

/// A publisher worker's state: its configuration, lifecycle phase, the
/// exclusively owned connection handle (if any), the restart mark, and the
/// bounded mailbox.
pub struct NatsPublisher {
    config: NatsPublisherConfig,
    phase: PublisherPhase,
    connection: Option<u64>,
    restarted: bool,
    mailbox: Mailbox<EventMessage>,
}

/// The actions a start issues: the cool-down sleep when restarted, closing
/// a previously held connection exactly once, then the retrying dial.
pub open spec fn spec_start_actions(
    restarted: bool,
    connection: Option<u64>,
) -> Seq<PublisherAction> {
    let dial = match connection {
        Some(h) => seq![
            PublisherAction::CloseConnection(h),
            PublisherAction::ConnectWithRetry,
        ],
        None => seq![PublisherAction::ConnectWithRetry],
    };
    if restarted {
        seq![PublisherAction::Sleep(RESTART_COOLDOWN_MS)] + dial
    } else {
        dial
    }
}

/// The actions a publish outcome issues: nothing on success; on failure a
/// one-second wait, then the same envelope back on the worker's own mailbox.
pub open spec fn spec_publish_result_actions(msg: EventMessage, ok: bool) -> Seq<
    PublisherAction,
> {
    if ok {
        Seq::empty()
    } else {
        seq![
            PublisherAction::Sleep(PUBLISH_RETRY_DELAY_MS),
            PublisherAction::Requeue(msg),
        ]
    }
}

impl NatsPublisher {
    /// The lifecycle phase.
    pub closed spec fn spec_phase(&self) -> PublisherPhase {
        self.phase
    }

    /// The exclusively owned connection handle, if one is held.
    pub closed spec fn spec_connection(&self) -> Option<u64> {
        self.connection
    }

    /// Whether this worker was recreated after a failure.
    pub closed spec fn spec_restarted(&self) -> bool {
        self.restarted
    }

    /// The subject envelopes are published under.
    pub closed spec fn spec_subject(&self) -> Seq<char> {
        self.config.subject@
    }

    /// The envelopes waiting in the mailbox, oldest first.
    pub closed spec fn queue(&self) -> Seq<EventMessage> {
        self.mailbox.queue()
    }

    /// The fixed mailbox capacity.
    pub closed spec fn cap(&self) -> nat {
        self.mailbox.cap()
    }

    /// How many envelopes the mailbox accepted (saturating).
    pub closed spec fn accepted_count(&self) -> u64 {
        self.mailbox.accepted_count()
    }

    /// How many envelopes were dropped on overflow (saturating).
    pub closed spec fn dropped_count(&self) -> u64 {
        self.mailbox.dropped_count()
    }

    /// A connected worker holds a connection, and the mailbox respects its
    /// capacity.
    pub closed spec fn wf(&self) -> bool {
        &&& self.spec_phase() is Connected ==> self.spec_connection() is Some
        &&& self.mailbox.wf()
    }

    /// A fresh worker for this configuration: starting, unconnected, not
    /// restarted, with an empty mailbox of the configured capacity.
    pub fn start_new(config: NatsPublisherConfig) -> (p: NatsPublisher)
        ensures
            p.wf(),
            p.spec_phase() is Starting,
            p.spec_connection() is None,
            !p.spec_restarted(),
            p.queue() == Seq::<EventMessage>::empty(),
            p.cap() == config.mailbox_size as nat,
            p.spec_subject() == config.subject@,
            p.accepted_count() == 0,
            p.dropped_count() == 0,
    {
        let mailbox = Mailbox::new(config.mailbox_size);
        NatsPublisher { config, phase: PublisherPhase::Starting, connection: None, restarted: false, mailbox }
    }

    /// The supervisor's restart hook: the worker re-enters its start marked
    /// restarted; connection and mailbox are left as they were.
    pub fn restarting(&mut self)
        requires
            old(self).wf(),
        ensures
            final(self).wf(),
            final(self).spec_phase() is Starting,
            final(self).spec_restarted(),
            final(self).spec_connection() == old(self).spec_connection(),
            final(self).queue() == old(self).queue(),
            final(self).cap() == old(self).cap(),
            final(self).spec_subject() == old(self).spec_subject(),
            final(self).accepted_count() == old(self).accepted_count(),
            final(self).dropped_count() == old(self).dropped_count(),
    {
        self.phase = PublisherPhase::Starting;
        self.restarted = true;
    }

    /// Starts the worker: after the cool-down (only when restarted) and
    /// after closing any previously held connection exactly once, it dials
    /// the bus; the connection is relinquished while dialing.
    pub fn on_start(&mut self) -> (actions: Vec<PublisherAction>)
        requires
            old(self).wf(),
        ensures
            final(self).wf(),
            final(self).spec_phase() is Connecting,
            final(self).spec_connection() is None,
            final(self).spec_restarted() == old(self).spec_restarted(),
            final(self).queue() == old(self).queue(),
            final(self).cap() == old(self).cap(),
            final(self).spec_subject() == old(self).spec_subject(),
            final(self).accepted_count() == old(self).accepted_count(),
            final(self).dropped_count() == old(self).dropped_count(),
            actions@ == spec_start_actions(
                old(self).spec_restarted(),
                old(self).spec_connection(),
            ),
    {
        let mut actions: Vec<PublisherAction> = Vec::new();
        if self.restarted {
            actions.push(PublisherAction::Sleep(RESTART_COOLDOWN_MS));
        }
        match self.connection {
            Some(h) => {
                actions.push(PublisherAction::CloseConnection(h));
            },
            None => {},
        }
        actions.push(PublisherAction::ConnectWithRetry);
        self.connection = None;
        self.phase = PublisherPhase::Connecting;
        proof {
            assert(actions@ =~= spec_start_actions(
                old(self).spec_restarted(),
                old(self).spec_connection(),
            ));
        }
        actions
    }

    /// The dial succeeded: the worker stores the connection it now owns and
    /// accepts envelopes.
    pub fn on_connect_ok(&mut self, handle: u64)
        requires
            old(self).wf(),
        ensures
            final(self).wf(),
            final(self).spec_phase() is Connected,
            final(self).spec_connection() == Some(handle),
            final(self).spec_restarted() == old(self).spec_restarted(),
            final(self).queue() == old(self).queue(),
            final(self).cap() == old(self).cap(),
            final(self).spec_subject() == old(self).spec_subject(),
            final(self).accepted_count() == old(self).accepted_count(),
            final(self).dropped_count() == old(self).dropped_count(),
    {
        self.connection = Some(handle);
        self.phase = PublisherPhase::Connected;
    }

    /// The dial failed even under retry: the worker terminates at once —
    /// no cool-down of its own; the supervisor owns recovery.
    pub fn on_connect_failed(&mut self) -> (actions: Vec<PublisherAction>)
        requires
            old(self).wf(),
        ensures
            final(self).wf(),
            final(self).spec_phase() is Failed,
            final(self).spec_connection() is None,
            final(self).queue() == old(self).queue(),
            final(self).cap() == old(self).cap(),
            final(self).spec_subject() == old(self).spec_subject(),
            final(self).accepted_count() == old(self).accepted_count(),
            final(self).dropped_count() == old(self).dropped_count(),
            actions@ == seq![PublisherAction::Stop],
    {
        self.connection = None;
        self.phase = PublisherPhase::Failed;
        let mut actions: Vec<PublisherAction> = Vec::new();
        actions.push(PublisherAction::Stop);
        proof {
            assert(actions@ =~= seq![PublisherAction::Stop]);
        }
        actions
    }

    /// The Publish API: offers an envelope to the worker's bounded mailbox.
    /// Fire-and-forget: a full mailbox drops the envelope (counted), never
    /// blocks and never fails.
    pub fn publish(&mut self, msg: EventMessage) -> (accepted: bool)
        requires
            old(self).wf(),
        ensures
            final(self).wf(),
            final(self).spec_phase() == old(self).spec_phase(),
            final(self).spec_connection() == old(self).spec_connection(),
            final(self).cap() == old(self).cap(),
            final(self).spec_subject() == old(self).spec_subject(),
            accepted == (old(self).queue().len() < old(self).cap()),
            (final(self).queue(), accepted) == spec_offer(old(self).queue(), old(self).cap(), msg),
            accepted ==> final(self).accepted_count() == spec_bump(old(self).accepted_count())
                && final(self).dropped_count() == old(self).dropped_count(),
            !accepted ==> final(self).dropped_count() == spec_bump(old(self).dropped_count())
                && final(self).accepted_count() == old(self).accepted_count(),
    {
        self.mailbox.try_send(msg)
    }

    /// Takes the oldest waiting envelope off the mailbox, if any.
    pub fn next_envelope(&mut self) -> (r: Option<EventMessage>)
        requires
            old(self).wf(),
        ensures
            final(self).wf(),
            final(self).spec_phase() == old(self).spec_phase(),
            final(self).spec_connection() == old(self).spec_connection(),
            final(self).cap() == old(self).cap(),
            final(self).spec_subject() == old(self).spec_subject(),
            final(self).accepted_count() == old(self).accepted_count(),
            final(self).dropped_count() == old(self).dropped_count(),
            old(self).queue().len() == 0 ==> r is None && final(self).queue()
                == old(self).queue(),
            old(self).queue().len() > 0 ==> r == Some(old(self).queue()[0]) && final(self).queue()
                == old(self).queue().drop_first(),
    {
        self.mailbox.pop()
    }

    /// What a connected worker does once the envelope's serialization
    /// outcome is known: a serialization failure is returned synchronously
    /// and issues no action at all — in particular no publish and nothing
    /// that touches the connection; a serialized payload is published to the
    /// configured subject, exactly once.
    pub fn handle_serialized(&self, msg: EventMessage, sr: Result<Vec<u8>, String>) -> (out: (
        Result<(), InternalError>,
        Vec<PublisherAction>,
    ))
        requires
            self.spec_phase() is Connected,
        ensures
            match sr {
                Ok(bytes) => {
                    &&& out.0 is Ok
                    &&& out.1@.len() == 1
                    &&& out.1@[0] matches PublisherAction::Publish { subject, payload, msg: m }
                        && subject@ == self.spec_subject() && payload == bytes && m == msg
                },
                Err(cause) => {
                    &&& out.0 == Result::<(), InternalError>::Err(
                        InternalError::SerdeError { cause },
                    )
                    &&& out.1@.len() == 0
                },
            },
    {
        match sr {
            Ok(payload) => {
                let mut actions: Vec<PublisherAction> = Vec::new();
                actions.push(
                    PublisherAction::Publish { subject: self.config.subject.clone(), payload, msg },
                );
                (Ok(()), actions)
            },
            Err(cause) => (Err(InternalError::SerdeError { cause }), Vec::new()),
        }
    }

    /// Handles one envelope from the mailbox.  A worker that is not yet
    /// connected stops itself and puts the envelope back for the restarted
    /// worker to pick up.  A connected worker serializes the event and
    /// succeeds exactly when the event serializes: a serialization failure
    /// is returned to the caller and changes nothing; otherwise the payload
    /// is published, exactly once, to the configured subject.
    pub fn handle(&mut self, msg: EventMessage) -> (out: (
        Result<(), InternalError>,
        Vec<PublisherAction>,
    ))
        requires
            old(self).wf(),
        ensures
            final(self).wf(),
            final(self).spec_connection() == old(self).spec_connection(),
            final(self).queue() == old(self).queue(),
            final(self).cap() == old(self).cap(),
            final(self).spec_subject() == old(self).spec_subject(),
            final(self).accepted_count() == old(self).accepted_count(),
            final(self).dropped_count() == old(self).dropped_count(),
            !(old(self).spec_phase() is Connected) ==> {
                &&& final(self).spec_phase() is Failed
                &&& out.0 is Ok
                &&& out.1@ == seq![PublisherAction::Stop, PublisherAction::Requeue(msg)]
            },
            old(self).spec_phase() is Connected ==> {
                &&& *final(self) == *old(self)
                &&& (out.0 is Ok <==> serializes_ok(msg.event))
                &&& (out.0 matches Err(e) ==> e is SerdeError && out.1@.len() == 0)
                &&& (out.0 is Ok ==> out.1@.len() == 1 && (out.1@[0] matches
                    PublisherAction::Publish { subject, payload, msg: m } && subject@
                    == old(self).spec_subject() && m == msg))
            },
    {
        match self.phase {
            PublisherPhase::Connected => {
                let sr = event_to_json(&msg.event);
                self.handle_serialized(msg, sr)
            },
            _ => {
                self.phase = PublisherPhase::Failed;
                let mut actions: Vec<PublisherAction> = Vec::new();
                actions.push(PublisherAction::Stop);
                actions.push(PublisherAction::Requeue(msg));
                proof {
                    assert(actions@ =~= seq![
                        PublisherAction::Stop,
                        PublisherAction::Requeue(msg),
                    ]);
                }
                (Ok(()), actions)
            },
        }
    }

    /// What the outcome of an asynchronous publish issues: success is done;
    /// failure waits a full second, then resubmits the very same envelope to
    /// the worker's own mailbox — the retry path itself publishes nothing.
    pub fn on_publish_result(&self, msg: EventMessage, ok: bool) -> (actions: Vec<
        PublisherAction,
    >)
        ensures
            actions@ == spec_publish_result_actions(msg, ok),
    {
        if ok {
            Vec::new()
        } else {
            let mut actions: Vec<PublisherAction> = Vec::new();
            actions.push(PublisherAction::Sleep(PUBLISH_RETRY_DELAY_MS));
            actions.push(PublisherAction::Requeue(msg));
            proof {
                assert(actions@ =~= spec_publish_result_actions(msg, false));
            }
            actions
        }
    }

    /// The connection handle held, for the runtime and supervisor.
    pub fn connection_handle(&self) -> (r: Option<u64>)
        ensures
            r == self.spec_connection(),
    {
        self.connection
    }

    /// The lifecycle phase, for the runtime and supervisor.
    pub fn phase(&self) -> (r: PublisherPhase)
        ensures
            r == self.spec_phase(),
    {
        self.phase
    }

    /// How many envelopes are waiting.
    pub fn mailbox_len(&self) -> (n: usize)
        ensures
            n == self.queue().len(),
    {
        self.mailbox.len()
    }

    /// How many envelopes were dropped on overflow (saturating).
    pub fn dropped(&self) -> (n: u64)
        ensures
            n == self.dropped_count(),
    {
        self.mailbox.dropped()
    }

    /// How many envelopes the mailbox accepted (saturating).
    pub fn accepted(&self) -> (n: u64)
        ensures
            n == self.accepted_count(),
    {
        self.mailbox.accepted()
    }
}

/// Restart cool-down: a worker on its first start dials with no sleep at
/// all, while a worker recreated after a failure sleeps the fixed cool-down
/// before anything else.
pub proof fn lemma_restart_cooldown(restarted: bool, connection: Option<u64>)
    ensures
        !restarted ==> forall|i: int|
            0 <= i < spec_start_actions(restarted, connection).len() ==> !(#[trigger] spec_start_actions(
                restarted,
                connection,
            )[i] is Sleep),
        restarted ==> spec_start_actions(restarted, connection)[0] == PublisherAction::Sleep(
            RESTART_COOLDOWN_MS,
        ),
{
}

/// Publish retry: a failed publish leads to a full one-second wait and the
/// resubmission of the very same envelope, and to nothing else — the retry
/// path publishes nothing by itself, so the next transport delivery happens
/// on the retried attempt alone.
pub proof fn lemma_publish_retry(msg: EventMessage)
    ensures
        spec_publish_result_actions(msg, true).len() == 0,
        spec_publish_result_actions(msg, false).len() == 2,
        spec_publish_result_actions(msg, false)[0] == PublisherAction::Sleep(
            PUBLISH_RETRY_DELAY_MS,
        ),
        spec_publish_result_actions(msg, false)[1] == PublisherAction::Requeue(msg),
        forall|ok: bool, i: int|
            0 <= i < spec_publish_result_actions(msg, ok).len() ==> !(#[trigger] spec_publish_result_actions(
                msg,
                ok,
            )[i] is Publish),
{
}

} // verus!
