//! A resilient publish/subscribe client layer for a NATS-style message bus.
//!
//! The crate models the worker logic of a small service fleet's event-bus
//! clients: an exponential backoff policy, a connection manager that retries
//! under that policy, a supervised publisher worker with a bounded mailbox,
//! and a subscriber worker that dispatches inbound messages to a handler in
//! arrival order.  The asynchronous transport itself (socket I/O, sleeps,
//! the actual NATS session) is driven by a thin unverified runtime around
//! this library; every decision the workers make is verified here.
use vstd::prelude::*;

pub mod backoff;
pub mod env;
pub mod model;
pub mod page;
pub mod settings;
pub mod cloudevent;
pub mod connect;
pub mod event;
pub mod json;
pub mod mailbox;
pub mod publisher;
pub mod subscriber;

verus! {

/// Errors surfaced by the bus client layer.
#[derive(Clone, Debug, PartialEq, Eq)]
pub enum InternalError {
    /// The bus was unreachable once the backoff budget was exhausted.
    NatsServerConnectionError { address: String },
    /// A non-connection bus failure, e.g. a rejected subscribe call.
    NatsOperationError { cause: String },
    /// A payload failed to encode or decode.
    SerdeError { cause: String },
    /// Catch-all for failures that fit no other kind.
    GenericError { cause: String },
}

/// The text of an error, one line per kind.
pub open spec fn spec_error_message(e: InternalError) -> Seq<char> {
    match e {
        InternalError::NatsServerConnectionError { address } => {
            "Nats server connection failed: "@ + address@
        },
        InternalError::NatsOperationError { cause } => "Nats operation failed: "@ + cause@,
        InternalError::SerdeError { cause } => "Failed while ser-de Nats message "@ + cause@,
        InternalError::GenericError { cause } => "Error: "@ + cause@,
    }
}

impl InternalError {
    /// Renders the error as human-readable text.
    pub fn message(&self) -> (r: String)
        ensures
            r@ == spec_error_message(*self),
    {
        match self {
            InternalError::NatsServerConnectionError { address } => {
                String::from_str("Nats server connection failed: ").concat(address.as_str())
            },
            InternalError::NatsOperationError { cause } => {
                String::from_str("Nats operation failed: ").concat(cause.as_str())
            },
            InternalError::SerdeError { cause } => {
                String::from_str("Failed while ser-de Nats message ").concat(cause.as_str())
            },
            InternalError::GenericError { cause } => {
                String::from_str("Error: ").concat(cause.as_str())
            },
        }
    }
}

/// Connection settings for the bus client: the server addresses plus the
/// reconnect and retry knobs.  `retry_timeout_ms` is the overall backoff
/// budget in milliseconds; `None` means retry indefinitely.
#[derive(Clone, Debug)]
pub struct NatsClientSettings {
    pub addresses: Vec<String>,
    pub max_reconnects: Option<usize>,
    pub retry_timeout_ms: Option<u64>,
}

/// The address list joined with `,` separators, as the underlying client
/// expects its connection string.
pub open spec fn spec_join_addresses(addrs: Seq<Seq<char>>) -> Seq<char>
    decreases addrs.len(),
{
    if addrs.len() == 0 {
        Seq::empty()
    } else if addrs.len() == 1 {
        addrs[0]
    } else {
        spec_join_addresses(addrs.drop_last()) + ","@ + addrs.last()
    }
}

/// Joins the configured addresses into a single `,`-separated connection
/// string.
pub fn join_addresses(addrs: &Vec<String>) -> (r: String)
    ensures
        r@ == spec_join_addresses(addrs@.map_values(|a: String| a@)),
{
    let ghost views = addrs@.map_values(|a: String| a@);
    let mut out = String::new();
    let mut i: usize = 0;
    while i < addrs.len()
        invariant
            i <= addrs.len(),
            views == addrs@.map_values(|a: String| a@),
            views.len() == addrs@.len(),
            out@ == spec_join_addresses(views.take(i as int)),
        decreases addrs.len() - i,
    {
        if i > 0 {
            out.append(",");
        }
        out.append(addrs[i].as_str());
        proof {
            let prefix = views.take(i as int);
            let next = views.take(i + 1 as int);
            assert(next.drop_last() =~= prefix);
            assert(next.last() == views[i as int]);
            if i > 0 {
                assert(next.len() >= 2);
            } else {
                assert(next.len() == 1);
                assert(spec_join_addresses(next) == views[0]);
            }
        }
        i += 1;
    }
    proof {
        assert(views.take(addrs@.len() as int) =~= views);
    }
    out
}

} // verus!
