//! The domain events the services exchange over the bus, and their wire
//! form.
//!
//! An event is wrapped in a CloudEvents v1.0 envelope whose `data` attribute
//! is the JSON-encoded payload; the payload JSON is rendered by this crate's
//! verified encoder, the envelope by the trusted CloudEvents boundary.
use crate::cloudevent::{event_attributes, make_cloud_event, parse_json, parses_ok};
use crate::json::{append_json_string, spec_json_string};
use crate::InternalError;
use vstd::prelude::*;

verus! {

/// The subject the auth service's events are published under.
pub open spec fn spec_service_auth_subject() -> Seq<char> {
    "service.auth"@
}

/// The subject the auth service's events are published under.
pub fn service_auth_subject() -> (r: &'static str)
    ensures
        r@ == spec_service_auth_subject(),
{
    "service.auth"
}

/// The event type of a send-OTP command.
pub open spec fn spec_send_otp_type() -> Seq<char> {
    "cmd.send.otp"@
}

/// The event type of a user-created notification.
pub open spec fn spec_user_created_type() -> Seq<char> {
    "evt.user.created"@
}

/// Where an event came from: the publishing service and the trace that led
/// to it.
#[derive(Clone, Debug, PartialEq, Eq)]
pub struct EventMetadata {
    source: String,
    trace_id: String,
}

impl EventMetadata {
    /// The publishing service's identity, used as the envelope source.
    pub closed spec fn spec_source(&self) -> Seq<char> {
        self.source@
    }

    /// The trace identifier, used as the envelope id.
    pub closed spec fn spec_trace_id(&self) -> Seq<char> {
        self.trace_id@
    }

    /// Metadata naming the publishing service and the current trace.
    pub fn new(source: String, trace_id: &str) -> (r: EventMetadata)
        ensures
            r.spec_source() == source@,
            r.spec_trace_id() == trace_id@,
    {
        EventMetadata { source, trace_id: trace_id.to_owned() }
    }

    /// The publishing service's identity.
    pub fn source(&self) -> (r: &str)
        ensures
            r@ == self.spec_source(),
    {
        self.source.as_str()
    }

    /// The trace identifier.
    pub fn trace_id(&self) -> (r: &str)
        ensures
            r@ == self.spec_trace_id(),
    {
        self.trace_id.as_str()
    }
}

/// A payload together with its metadata: the unit the domain event enum
/// carries.
#[derive(Clone, Debug, PartialEq, Eq)]
pub struct EventMessage<T: Clone> {
    pub meta: EventMetadata,
    pub payload: T,
}

/// A command to send a one-time password by mail.
#[derive(Clone, Debug, PartialEq, Eq)]
pub struct SendOtpMessage {
    pub from: String,
    pub to: String,
    pub sub: String,
    pub body: String,
}

/// A notification that a user account was created.
#[derive(Clone, Debug, PartialEq, Eq)]
pub struct UserCreatedMessage {
    pub user_id: String,
    pub email: String,
}

/// The domain events of the auth subject.
#[derive(Clone, Debug, PartialEq, Eq)]
pub enum DomainEvent {
    AuthSendOtp(EventMessage<SendOtpMessage>),
    AuthUserCreated(EventMessage<UserCreatedMessage>),
}

/// The JSON text of a send-OTP payload.
pub open spec fn spec_send_otp_json(m: SendOtpMessage) -> Seq<char> {
    "{\"from\":"@ + spec_json_string(m.from@) + ",\"to\":"@ + spec_json_string(m.to@) + ",\"sub\":"@
        + spec_json_string(m.sub@) + ",\"body\":"@ + spec_json_string(m.body@) + "}"@
}

/// The JSON text of a user-created payload.
pub open spec fn spec_user_created_json(m: UserCreatedMessage) -> Seq<char> {
    "{\"user_id\":"@ + spec_json_string(m.user_id@) + ",\"email\":"@ + spec_json_string(m.email@)
        + "}"@
}

/// The JSON text of an event's data payload.
pub open spec fn spec_event_data_json(e: DomainEvent) -> Seq<char> {
    match e {
        DomainEvent::AuthSendOtp(m) => spec_send_otp_json(m.payload),
        DomainEvent::AuthUserCreated(m) => spec_user_created_json(m.payload),
    }
}

impl SendOtpMessage {
    /// Renders the payload as its wire JSON object.
    pub fn to_json(&self) -> (r: String)
        ensures
            r@ == spec_send_otp_json(*self),
    {
        let mut out = String::new();
        out.append("{\"from\":");
        append_json_string(&mut out, self.from.as_str());
        out.append(",\"to\":");
        append_json_string(&mut out, self.to.as_str());
        out.append(",\"sub\":");
        append_json_string(&mut out, self.sub.as_str());
        out.append(",\"body\":");
        append_json_string(&mut out, self.body.as_str());
        out.append("}");
        proof {
            assert(out@ =~= spec_send_otp_json(*self));
        }
        out
    }
}

impl UserCreatedMessage {
    /// Renders the payload as its wire JSON object.
    pub fn to_json(&self) -> (r: String)
        ensures
            r@ == spec_user_created_json(*self),
    {
        let mut out = String::new();
        out.append("{\"user_id\":");
        append_json_string(&mut out, self.user_id.as_str());
        out.append(",\"email\":");
        append_json_string(&mut out, self.email.as_str());
        out.append("}");
        proof {
            assert(out@ =~= spec_user_created_json(*self));
        }
        out
    }
}

impl DomainEvent {
    /// The metadata the event carries.
    pub open spec fn spec_meta(&self) -> EventMetadata {
        match *self {
            DomainEvent::AuthSendOtp(m) => m.meta,
            DomainEvent::AuthUserCreated(m) => m.meta,
        }
    }

    /// The CloudEvents type attribute for this event.
    pub open spec fn spec_type(&self) -> Seq<char> {
        match *self {
            DomainEvent::AuthSendOtp(_) => spec_send_otp_type(),
            DomainEvent::AuthUserCreated(_) => spec_user_created_type(),
        }
    }

    /// The CloudEvents type attribute for this event.
    pub fn event_type(&self) -> (r: &'static str)
        ensures
            r@ == self.spec_type(),
    {
        match self {
            DomainEvent::AuthSendOtp(_) => "cmd.send.otp",
            DomainEvent::AuthUserCreated(_) => "evt.user.created",
        }
    }

    /// Renders the event's data payload as JSON text.
    pub fn data_json(&self) -> (r: String)
        ensures
            r@ == spec_event_data_json(*self),
    {
        match self {
            DomainEvent::AuthSendOtp(m) => m.payload.to_json(),
            DomainEvent::AuthUserCreated(m) => m.payload.to_json(),
        }
    }

    fn meta(&self) -> (r: &EventMetadata)
        ensures
            *r == self.spec_meta(),
    {
        match self {
            DomainEvent::AuthSendOtp(m) => &m.meta,
            DomainEvent::AuthUserCreated(m) => &m.meta,
        }
    }

    /// Wraps the event in its CloudEvents envelope once the data payload has
    /// been parsed: the id is the trace id, the source the publishing
    /// service, the subject the auth subject, the type the event's type.
    /// The envelope is refused exactly when the source is empty (the one
    /// attribute CloudEvents validates); the refusal is an encode error.
    pub fn envelope_with_data(&self, data: serde_json::Value) -> (r: Result<
        cloudevents::Event,
        InternalError,
    >)
        ensures
            r is Ok <==> self.spec_meta().spec_source().len() > 0,
            r matches Ok(ev) ==> event_attributes(ev) == (
                self.spec_meta().spec_trace_id(),
                self.spec_meta().spec_source(),
                spec_service_auth_subject(),
                self.spec_type(),
            ),
            r matches Err(e) ==> e is SerdeError,
    {
        let meta = self.meta();
        let ty = self.event_type();
        match make_cloud_event(
            meta.trace_id(),
            meta.source(),
            service_auth_subject(),
            ty,
            data,
        ) {
            Ok(ev) => Ok(ev),
            Err(cause) => Err(InternalError::SerdeError { cause }),
        }
    }

    /// Builds the full wire event: renders the data payload with the
    /// verified encoder, parses it into a JSON value, and wraps it in the
    /// envelope.  The build succeeds exactly when the rendered payload
    /// parses as JSON and the source is non-empty; every failure is an
    /// encode error.
    pub fn to_cloud_event(&self) -> (r: Result<cloudevents::Event, InternalError>)
        ensures
            r is Ok <==> (parses_ok(spec_event_data_json(*self))
                && self.spec_meta().spec_source().len() > 0),
            r matches Ok(ev) ==> event_attributes(ev) == (
                self.spec_meta().spec_trace_id(),
                self.spec_meta().spec_source(),
                spec_service_auth_subject(),
                self.spec_type(),
            ),
            r matches Err(e) ==> e is SerdeError,
    {
        let text = self.data_json();
        match parse_json(text.as_str()) {
            Ok(v) => self.envelope_with_data(v),
            Err(cause) => Err(InternalError::SerdeError { cause }),
        }
    }
}

/// The notification consumer's routing rule: send-OTP commands carry the
/// mail to send; every other event type is skipped, never an error.
pub fn route_event(e: DomainEvent) -> (r: Option<SendOtpMessage>)
    ensures
        match e {
            DomainEvent::AuthSendOtp(m) => r == Some(m.payload),
            DomainEvent::AuthUserCreated(_) => r is None,
        },
{
    match e {
        DomainEvent::AuthSendOtp(m) => Some(m.payload),
        DomainEvent::AuthUserCreated(_) => None,
    }
}

} // verus!
