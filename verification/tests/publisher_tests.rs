use nats_actor::event::{DomainEvent, EventMessage as DomainEnvelope, EventMetadata, SendOtpMessage};
use nats_actor::publisher::{
    EventMessage, NatsPublisher, NatsPublisherConfig, PublisherAction, PublisherPhase,
    PUBLISH_RETRY_DELAY_MS, RESTART_COOLDOWN_MS,
};
use nats_actor::{InternalError, NatsClientSettings};

fn config() -> NatsPublisherConfig {
    NatsPublisherConfig {
        client_settings: NatsClientSettings {
            addresses: vec!["localhost:4222".to_string()],
            max_reconnects: None,
            retry_timeout_ms: Some(5000),
        },
        subject: "service.auth".to_string(),
        mailbox_size: 4,
    }
}

fn otp_envelope() -> EventMessage {
    let event = DomainEvent::AuthSendOtp(DomainEnvelope {
        meta: EventMetadata::new("auth-service".to_string(), "trace-42"),
        payload: SendOtpMessage {
            from: "noreply@example.com".to_string(),
            to: "user@example.com".to_string(),
            sub: "Your code".to_string(),
            body: "123456".to_string(),
        },
    });
    EventMessage {
        event: event.to_cloud_event().expect("envelope build failed"),
    }
}

fn connected_publisher() -> NatsPublisher {
    let mut p = NatsPublisher::start_new(config());
    let _ = p.on_start();
    p.on_connect_ok(7);
    assert_eq!(p.phase(), PublisherPhase::Connected);
    p
}

#[test]
fn first_start_has_no_cooldown() {
    let mut p = NatsPublisher::start_new(config());
    assert_eq!(p.phase(), PublisherPhase::Starting);
    let actions = p.on_start();
    assert!(actions
        .iter()
        .all(|a| !matches!(a, PublisherAction::Sleep(_))));
    assert!(matches!(actions.last(), Some(PublisherAction::ConnectWithRetry)));
    assert_eq!(p.phase(), PublisherPhase::Connecting);
}

#[test]
fn failed_connect_terminates_immediately() {
    let mut p = NatsPublisher::start_new(config());
    let _ = p.on_start();
    let actions = p.on_connect_failed();
    assert_eq!(actions.len(), 1);
    assert!(matches!(actions[0], PublisherAction::Stop));
    assert_eq!(p.phase(), PublisherPhase::Failed);
}

#[test]
fn restart_applies_cooldown_before_reconnecting() {
    let mut p = NatsPublisher::start_new(config());
    let _ = p.on_start();
    let _ = p.on_connect_failed();
    // The supervisor recreates the worker marked restarted.
    p.restarting();
    let actions = p.on_start();
    assert!(matches!(
        actions[0],
        PublisherAction::Sleep(RESTART_COOLDOWN_MS)
    ));
    assert!(matches!(actions.last(), Some(PublisherAction::ConnectWithRetry)));
}

#[test]
fn restart_closes_previous_connection_exactly_once() {
    let mut p = connected_publisher();
    p.restarting();
    let actions = p.on_start();
    let closes: Vec<&PublisherAction> = actions
        .iter()
        .filter(|a| matches!(a, PublisherAction::CloseConnection(_)))
        .collect();
    assert_eq!(closes.len(), 1);
    assert!(matches!(*closes[0], PublisherAction::CloseConnection(7)));
}

#[test]
fn publish_retry_delivers_on_second_attempt() {
    let mut p = connected_publisher();
    assert!(p.publish(otp_envelope()));
    let msg = p.next_envelope().expect("mailbox should hold the envelope");

    let mut transport_deliveries = 0;

    // First attempt: exactly one publish action reaches the transport.
    let (res, mut actions) = p.handle(msg);
    assert!(res.is_ok());
    assert_eq!(actions.len(), 1);
    let (subject, payload, msg) = match actions.remove(0) {
        PublisherAction::Publish { subject, payload, msg } => (subject, payload, msg),
        other => panic!("expected a publish action, got {:?}", other),
    };
    assert_eq!(subject, "service.auth".to_string());
    let first_payload = payload.clone();

    // The transport fails the first attempt: a full second's wait, then the
    // same envelope goes back to the worker's own mailbox.
    let mut retry = p.on_publish_result(msg, false);
    assert_eq!(retry.len(), 2);
    match retry.remove(0) {
        PublisherAction::Sleep(ms) => {
            assert_eq!(ms, PUBLISH_RETRY_DELAY_MS);
            assert!(ms >= 1000);
        }
        other => panic!("expected a sleep first, got {:?}", other),
    }
    let msg = match retry.remove(0) {
        PublisherAction::Requeue(m) => m,
        other => panic!("expected a requeue, got {:?}", other),
    };
    assert!(p.publish(msg));

    // Second attempt: one publish again, and the transport takes it.
    let msg = p.next_envelope().unwrap();
    let (res, mut actions) = p.handle(msg);
    assert!(res.is_ok());
    assert_eq!(actions.len(), 1);
    match actions.remove(0) {
        PublisherAction::Publish { payload, msg, .. } => {
            assert_eq!(payload, first_payload);
            transport_deliveries += 1;
            let done = p.on_publish_result(msg, true);
            assert!(done.is_empty());
        }
        other => panic!("expected a publish action, got {:?}", other),
    }
    assert_eq!(transport_deliveries, 1);
}

#[test]
fn serialization_failure_is_isolated() {
    let p = connected_publisher();
    let before_len = p.mailbox_len();
    let (res, actions) = p.handle_serialized(
        otp_envelope(),
        Err("expected value at line 1".to_string()),
    );
    match res {
        Err(InternalError::SerdeError { cause }) => {
            assert_eq!(cause, "expected value at line 1".to_string());
        }
        other => panic!("expected a serde error, got {:?}", other),
    }
    // Zero publish attempts, no connection activity, worker untouched.
    assert!(actions.is_empty());
    assert_eq!(p.phase(), PublisherPhase::Connected);
    assert_eq!(p.mailbox_len(), before_len);
}

#[test]
fn envelope_before_connection_stops_and_requeues() {
    let mut p = NatsPublisher::start_new(config());
    let _ = p.on_start();
    let (res, actions) = p.handle(otp_envelope());
    assert!(res.is_ok());
    assert_eq!(actions.len(), 2);
    assert!(matches!(actions[0], PublisherAction::Stop));
    assert!(matches!(actions[1], PublisherAction::Requeue(_)));
    assert_eq!(p.phase(), PublisherPhase::Failed);
}

#[test]
fn mailbox_overflow_on_publisher_counts_drops() {
    let mut p = connected_publisher();
    let mut accepted = 0;
    for _ in 0..6 {
        if p.publish(otp_envelope()) {
            accepted += 1;
        }
    }
    assert_eq!(accepted, 4);
    assert_eq!(p.accepted(), 4);
    assert_eq!(p.dropped(), 2);
    assert_eq!(p.mailbox_len(), 4);
}

#[test]
fn published_payload_is_the_cloudevents_json() {
    let mut p = connected_publisher();
    assert!(p.publish(otp_envelope()));
    let msg = p.next_envelope().unwrap();
    let (_, mut actions) = p.handle(msg);
    let payload = match actions.remove(0) {
        PublisherAction::Publish { payload, .. } => payload,
        other => panic!("expected a publish action, got {:?}", other),
    };
    let v: serde_json::Value = serde_json::from_slice(&payload).expect("payload must be JSON");
    assert_eq!(v.get("id").and_then(|x| x.as_str()), Some("trace-42"));
    assert_eq!(v.get("type").and_then(|x| x.as_str()), Some("cmd.send.otp"));
    assert_eq!(v.get("subject").and_then(|x| x.as_str()), Some("service.auth"));
    assert_eq!(v.get("source").and_then(|x| x.as_str()), Some("auth-service"));
    let data = v.get("data").expect("data attribute present");
    assert_eq!(
        data.get("to").and_then(|x| x.as_str()),
        Some("user@example.com")
    );
    assert_eq!(data.get("body").and_then(|x| x.as_str()), Some("123456"));
}
