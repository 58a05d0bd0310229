//! The trusted boundary to the CloudEvents and JSON crates.
//!
//! A wire event is carried as an opaque `cloudevents::Event`; this module
//! holds the few outside calls that build one from plain attribute values
//! and serialize one to its JSON bytes.  Everything around these calls is
//! verified.
use cloudevents::EventBuilder;
use vstd::prelude::*;

verus! {

#[verifier::external_type_specification]
#[verifier::external_body]
pub struct ExCloudEvent(cloudevents::Event);

#[verifier::external_type_specification]
#[verifier::external_body]
pub struct ExJsonValue(serde_json::Value);

/// Whether `serde_json::from_str` accepts this text as a JSON value.  The
/// outcome is a function of the text alone.
pub uninterp spec fn parses_ok(s: Seq<char>) -> bool;

/// Relies on `serde_json::from_str`: parses JSON text into a
/// `serde_json::Value`, `Err` exactly when the text is not valid JSON.
#[verifier::external_body]
pub(crate) fn parse_json(s: &str) -> (r: Result<serde_json::Value, String>)
    ensures
        r is Ok <==> parses_ok(s@),
{
    serde_json::from_str(s).map_err(|e| format!("{}", e))
}

/// The id, source, subject and type attributes an event carries, in that
/// order.  Each is a function of the event value alone.
pub uninterp spec fn event_attributes(e: cloudevents::Event) -> (
    Seq<char>,
    Seq<char>,
    Seq<char>,
    Seq<char>,
);

/// Relies on `cloudevents::EventBuilderV10` (with `chrono::Utc::now` for the
/// event time): assembles a CloudEvents v1.0 event with the given id,
/// source, subject, type and JSON data.  Per the builder's rules the build
/// succeeds exactly when the source attribute is non-empty; id, type,
/// subject, time and data are always accepted, and the built event carries
/// the given attributes.
#[verifier::external_body]
pub(crate) fn make_cloud_event(
    id: &str,
    source: &str,
    subject: &str,
    ty: &str,
    data: serde_json::Value,
) -> (r: Result<cloudevents::Event, String>)
    ensures
        r is Ok <==> source@.len() > 0,
        r matches Ok(ev) ==> event_attributes(ev) == (id@, source@, subject@, ty@),
{
    cloudevents::EventBuilderV10::new()
        .time(chrono::Utc::now())
        .id(id)
        .source(source)
        .subject(subject)
        .ty(ty)
        .data("application/json".to_string(), data)
        .build()
        .map_err(|e| format!("{}", e))
}

/// Whether `serde_json::to_vec` serializes this event.  The outcome is a
/// function of the event value alone.  (The serialized bytes themselves are
/// not named: the extensions map serializes in hash-iteration order, so the
/// bytes are not a function of the value.)
pub uninterp spec fn serializes_ok(e: cloudevents::Event) -> bool;

/// Relies on `serde_json::to_vec`: serializes a CloudEvents event to its
/// JSON bytes, `Err` exactly when the event's serialization fails.
#[verifier::external_body]
pub(crate) fn event_to_json(event: &cloudevents::Event) -> (r: Result<Vec<u8>, String>)
    ensures
        r is Ok <==> serializes_ok(*event),
{
    serde_json::to_vec(event).map_err(|e| format!("{}", e))
}

} // verus!
