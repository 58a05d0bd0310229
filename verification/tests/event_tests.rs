use cloudevents::AttributesReader;
use nats_actor::event::{
    route_event, service_auth_subject, DomainEvent, EventMessage, EventMetadata, SendOtpMessage,
    UserCreatedMessage,
};
use nats_actor::json::{json_string, u64_string};
use nats_actor::InternalError;

fn otp_event(source: &str) -> DomainEvent {
    DomainEvent::AuthSendOtp(EventMessage {
        meta: EventMetadata::new(source.to_string(), "trace-7"),
        payload: SendOtpMessage {
            from: "noreply@example.com".to_string(),
            to: "user@example.com".to_string(),
            sub: "Code \"inside\"".to_string(),
            body: "line1\nline2\ttabbed".to_string(),
        },
    })
}

#[test]
fn payload_json_round_trips_through_serde() {
    let e = otp_event("auth-service");
    let text = e.data_json();
    let v: serde_json::Value = serde_json::from_str(&text).expect("encoder must emit valid JSON");
    assert_eq!(
        v.get("from").and_then(|x| x.as_str()),
        Some("noreply@example.com")
    );
    assert_eq!(v.get("sub").and_then(|x| x.as_str()), Some("Code \"inside\""));
    assert_eq!(
        v.get("body").and_then(|x| x.as_str()),
        Some("line1\nline2\ttabbed")
    );
}

#[test]
fn user_created_json_has_both_fields() {
    let m = UserCreatedMessage {
        user_id: "u-1".to_string(),
        email: "a\\b@example.com".to_string(),
    };
    let v: serde_json::Value = serde_json::from_str(&m.to_json()).unwrap();
    assert_eq!(v.get("user_id").and_then(|x| x.as_str()), Some("u-1"));
    assert_eq!(
        v.get("email").and_then(|x| x.as_str()),
        Some("a\\b@example.com")
    );
}

#[test]
fn json_string_escapes_controls_quotes_and_backslashes() {
    assert_eq!(json_string("plain"), "\"plain\"".to_string());
    assert_eq!(json_string("a\"b"), "\"a\\\"b\"".to_string());
    assert_eq!(json_string("a\\b"), "\"a\\\\b\"".to_string());
    assert_eq!(json_string("a\u{1}b"), "\"a\\u0001b\"".to_string());
    assert_eq!(json_string("a\u{1f}b"), "\"a\\u001fb\"".to_string());
    // Every escape must decode back to the original string.
    let tricky = "q\" b\\ n\n r\r t\t z\u{0}!";
    let decoded: String = serde_json::from_str(&json_string(tricky)).unwrap();
    assert_eq!(decoded, tricky.to_string());
}

#[test]
fn decimal_rendering_is_exact() {
    assert_eq!(u64_string(0), "0".to_string());
    assert_eq!(u64_string(7), "7".to_string());
    assert_eq!(u64_string(6379), "6379".to_string());
    assert_eq!(u64_string(u64::MAX), format!("{}", u64::MAX));
}

#[test]
fn cloud_event_carries_the_event_attributes() {
    let ce = otp_event("auth-service").to_cloud_event().unwrap();
    assert_eq!(ce.id(), "trace-7");
    assert_eq!(ce.source().to_string(), "auth-service");
    assert_eq!(ce.ty(), "cmd.send.otp");
    assert_eq!(ce.subject(), Some("service.auth"));
    assert!(ce.time().is_some());
}

#[test]
fn empty_source_is_refused_as_encode_error() {
    match otp_event("").to_cloud_event() {
        Err(InternalError::SerdeError { .. }) => {}
        other => panic!("expected a serde error, got {:?}", other),
    }
}

#[test]
fn routing_picks_send_otp_and_skips_the_rest() {
    let otp = otp_event("auth-service");
    let routed = route_event(otp).expect("send-OTP commands are acted on");
    assert_eq!(routed.to, "user@example.com".to_string());

    let created = DomainEvent::AuthUserCreated(EventMessage {
        meta: EventMetadata::new("auth-service".to_string(), "trace-8"),
        payload: UserCreatedMessage {
            user_id: "u-2".to_string(),
            email: "b@example.com".to_string(),
        },
    });
    assert!(route_event(created).is_none());
}

#[test]
fn subject_constant_matches_the_wire_name() {
    assert_eq!(service_auth_subject(), "service.auth");
    assert_eq!(otp_event("auth-service").event_type(), "cmd.send.otp");
}

#[test]
fn error_messages_are_exact() {
    let e = InternalError::NatsServerConnectionError {
        address: "a,b".to_string(),
    };
    assert_eq!(e.message(), "Nats server connection failed: a,b".to_string());
    let e = InternalError::NatsOperationError {
        cause: "boom".to_string(),
    };
    assert_eq!(e.message(), "Nats operation failed: boom".to_string());
    let e = InternalError::SerdeError {
        cause: "bad json".to_string(),
    };
    assert_eq!(e.message(), "Failed while ser-de Nats message bad json".to_string());
    let e = InternalError::GenericError {
        cause: "other".to_string(),
    };
    assert_eq!(e.message(), "Error: other".to_string());
}
