use nats_bridge::client_pool::{
    add_reply_to, connection_settings, is_expected, jetstream_stream_specs, publish_jetstream_result,
    publish_metrics, publish_step, request_reply_result, stream_setup_failure, stream_setup_start,
    stream_setup_step, JetStreamPublishOutcome, NatsClientCache, PublishAction, PublishCounter,
    PublishEvent, PublishStage, RequestReplyOutcome, RetentionPolicy, StorageType,
    StreamSetupAction, JETSTREAM_ACK_TIMEOUT_SECS,
};
use nats_bridge::domain::ConnectorError;

fn detail(e: &ConnectorError) -> Option<String> {
    match e {
        ConnectorError::ProcessingStepFailed(Some(bytes)) => Some(String::from_utf8(bytes.clone()).unwrap()),
        _ => None,
    }
}

fn finish(action: PublishAction) -> Result<Vec<u8>, ConnectorError> {
    match action {
        PublishAction::Finish(r) => r,
        _ => panic!("expected the publish to finish"),
    }
}

#[test]
fn stream_specs_match_configuration() {
    let specs = jetstream_stream_specs();
    assert_eq!(specs.len(), 2);
    assert_eq!(specs[0].name, "HYPERSWITCH_PAYMENTS");
    assert_eq!(specs[0].description.as_deref(), Some("Payment operations (authorize, capture, void)"));
    assert_eq!(specs[0].subjects, vec!["hyperswitch.payments.>".to_string()]);
    assert_eq!(specs[0].max_age_secs, 30 * 24 * 60 * 60);
    assert_eq!(specs[0].max_messages, Some(10_000_000));
    assert_eq!(specs[1].name, "HYPERSWITCH_REFUNDS");
    assert_eq!(specs[1].subjects, vec!["hyperswitch.refunds.>".to_string()]);
    assert_eq!(specs[1].max_age_secs, 90 * 24 * 60 * 60);
    assert_eq!(specs[1].max_messages, None);
    for s in &specs {
        assert_eq!(s.retention, RetentionPolicy::Limits);
        assert_eq!(s.storage, StorageType::File);
        assert_eq!(s.num_replicas, 3);
        assert_eq!(s.duplicate_window_secs, 300);
    }
}

#[test]
fn stream_failure_names_the_cause() {
    let e = stream_setup_failure("no responders");
    assert_eq!(detail(&e).as_deref(), Some("Failed to create JetStream stream: no responders"));
}

#[test]
fn publish_jetstream_results() {
    assert!(publish_jetstream_result(JetStreamPublishOutcome::Acked).is_ok());
    assert!(matches!(
        publish_jetstream_result(JetStreamPublishOutcome::EncodeFailed),
        Err(ConnectorError::RequestEncodingFailed)
    ));
    let e = publish_jetstream_result(JetStreamPublishOutcome::PublishFailed).unwrap_err();
    assert_eq!(detail(&e).as_deref(), Some("Failed to publish to NATS JetStream"));
    let e = publish_jetstream_result(JetStreamPublishOutcome::AckFailed).unwrap_err();
    assert_eq!(detail(&e).as_deref(), Some("JetStream acknowledgment failed"));
}

#[test]
fn request_reply_results() {
    assert_eq!(request_reply_result(RequestReplyOutcome::Replied(b"ok".to_vec())).unwrap(), b"ok".to_vec());
    let e = request_reply_result(RequestReplyOutcome::TimedOut).unwrap_err();
    assert_eq!(detail(&e).as_deref(), Some("NATS request timeout"));
    let e = request_reply_result(RequestReplyOutcome::Failed).unwrap_err();
    assert_eq!(detail(&e).as_deref(), Some("NATS request failed"));
    assert!(matches!(
        request_reply_result(RequestReplyOutcome::EncodeFailed),
        Err(ConnectorError::RequestEncodingFailed)
    ));
}

#[test]
fn publish_flow_happy_path() {
    let (stage, action) = publish_step(PublishStage::Subscribing, PublishEvent::InboxReady);
    assert_eq!(stage, PublishStage::Publishing);
    assert!(matches!(action, PublishAction::Publish));
    let (stage, action) = publish_step(stage, PublishEvent::PublishSent);
    assert_eq!(stage, PublishStage::AwaitingAck);
    assert!(matches!(action, PublishAction::AwaitAck));
    let (stage, action) = publish_step(stage, PublishEvent::Acked);
    assert_eq!(stage, PublishStage::AwaitingReply);
    assert!(matches!(action, PublishAction::AwaitReply));
    let (stage, action) = publish_step(stage, PublishEvent::Replied(b"reply".to_vec()));
    assert_eq!(stage, PublishStage::Finished);
    assert_eq!(finish(action).unwrap(), b"reply".to_vec());
}

#[test]
fn publish_flow_failures() {
    let cases = [
        (PublishStage::Subscribing, PublishEvent::InboxFailed, Some("Failed to create inbox subscription")),
        (PublishStage::Publishing, PublishEvent::EncodeFailed, None),
        (PublishStage::Publishing, PublishEvent::PublishTimedOut, Some("JetStream publish timeout")),
        (PublishStage::Publishing, PublishEvent::PublishFailed, Some("JetStream publish failed")),
        (PublishStage::AwaitingAck, PublishEvent::AckFailed, Some("JetStream acknowledgment failed")),
        (PublishStage::AwaitingAck, PublishEvent::AckTimedOut, Some("JetStream publish timeout")),
        (PublishStage::AwaitingReply, PublishEvent::ReplyTimedOut, Some("Worker response timeout")),
        (PublishStage::AwaitingReply, PublishEvent::InboxClosed, Some("Inbox subscription closed")),
    ];
    for (stage, event, message) in cases {
        assert!(is_expected(stage, &event));
        let (next, action) = publish_step(stage, event);
        assert_eq!(next, PublishStage::Finished);
        let e = finish(action).unwrap_err();
        match message {
            Some(m) => assert_eq!(detail(&e).as_deref(), Some(m)),
            None => assert!(matches!(e, ConnectorError::RequestEncodingFailed)),
        }
    }
}

#[test]
fn publish_flow_rejects_out_of_order_events() {
    assert!(!is_expected(PublishStage::Subscribing, &PublishEvent::Acked));
    assert!(!is_expected(PublishStage::AwaitingAck, &PublishEvent::Replied(Vec::new())));
    assert!(!is_expected(PublishStage::Finished, &PublishEvent::InboxReady));
    assert!(is_expected(PublishStage::AwaitingReply, &PublishEvent::Replied(Vec::new())));
}

#[test]
fn reply_to_header_is_added() {
    let mut headers = async_nats::HeaderMap::new();
    headers.insert("X-Merchant-Id", "m");
    add_reply_to(&mut headers, "_INBOX.abc");
    assert_eq!(headers.get("Nats-Reply-To").map(|v| v.as_str()), Some("_INBOX.abc"));
    assert_eq!(headers.get("X-Merchant-Id").map(|v| v.as_str()), Some("m"));
}

fn offline_client(rt: &tokio::runtime::Runtime) -> async_nats::Client {
    rt.block_on(async {
        async_nats::ConnectOptions::new()
            .retry_on_initial_connect()
            .connect("nats://127.0.0.1:1")
            .await
            .unwrap()
    })
}

#[test]
fn client_cache_stores_one_client_per_url() {
    let rt = tokio::runtime::Builder::new_current_thread().enable_all().build().unwrap();
    let mut cache = NatsClientCache::new();
    assert!(cache.lookup("nats://a:4222").is_none());
    let first = offline_client(&rt);
    let second = offline_client(&rt);
    let first_inbox_prefix = first.new_inbox();
    cache.store("nats://a:4222", first);
    assert!(cache.lookup("nats://a:4222").is_some());
    assert!(cache.lookup("nats://b:4222").is_none());
    cache.store("nats://a:4222", second);
    assert!(cache.lookup("nats://a:4222").is_some());
    assert!(first_inbox_prefix.starts_with("_INBOX."));
}

#[test]
fn client_cache_skips_disconnected_clients() {
    let rt = tokio::runtime::Builder::new_current_thread().enable_all().build().unwrap();
    let mut cache = NatsClientCache::new();
    cache.store("nats://127.0.0.1:1", offline_client(&rt));
    assert!(cache.lookup("nats://127.0.0.1:1").is_some());
    assert!(cache.connected_client("nats://127.0.0.1:1").is_none());
    assert!(cache.connected_client("nats://other:4222").is_none());
}

#[test]
fn connected_clients_are_reused_and_others_replaced() {
    let rt = tokio::runtime::Builder::new_current_thread().enable_all().build().unwrap();
    let client = offline_client(&rt);
    assert!(nats_bridge::client_pool::reuse_if_connected(&client, true).is_some());
    assert!(nats_bridge::client_pool::reuse_if_connected(&client, false).is_none());
}

#[test]
fn stream_setup_goes_in_order_and_stops_at_failure() {
    assert!(matches!(stream_setup_start(), StreamSetupAction::Create(0)));
    assert!(matches!(stream_setup_step(0, 2, Ok(())), StreamSetupAction::Create(1)));
    assert!(matches!(stream_setup_step(1, 2, Ok(())), StreamSetupAction::Finish(Ok(()))));
    match stream_setup_step(0, 2, Err("no responders".to_string())) {
        StreamSetupAction::Finish(Err(e)) => {
            assert_eq!(detail(&e).as_deref(), Some("Failed to create JetStream stream: no responders"))
        }
        _ => panic!("expected the setup to stop"),
    }
    match stream_setup_step(1, 2, Err("timeout".to_string())) {
        StreamSetupAction::Finish(Err(e)) => {
            assert_eq!(detail(&e).as_deref(), Some("Failed to create JetStream stream: timeout"))
        }
        _ => panic!("expected the setup to stop"),
    }
}

#[test]
fn connection_uses_documented_options() {
    let settings = connection_settings();
    assert_eq!(settings.connection_timeout_secs, 10);
    assert_eq!(settings.max_reconnects, None);
    assert_eq!(settings.ping_interval_secs, 30);
    assert_eq!(settings.name, "hyperswitch-nats-bridge");
    assert_eq!(JETSTREAM_ACK_TIMEOUT_SECS, 2);
}

#[test]
fn publish_metrics_follow_the_stage() {
    let m = publish_metrics(PublishStage::AwaitingAck, &PublishEvent::Acked);
    assert_eq!(m.counter, Some(PublishCounter::JetStreamAckSuccess));
    assert!(!m.record_duration);
    let m = publish_metrics(PublishStage::AwaitingAck, &PublishEvent::AckFailed);
    assert_eq!(m.counter, Some(PublishCounter::JetStreamPublishError));
    let m = publish_metrics(PublishStage::AwaitingReply, &PublishEvent::Replied(Vec::new()));
    assert_eq!(m.counter, Some(PublishCounter::WorkerResponseSuccess));
    assert!(m.record_duration);
    let m = publish_metrics(PublishStage::AwaitingReply, &PublishEvent::ReplyTimedOut);
    assert_eq!(m.counter, Some(PublishCounter::Timeout));
    assert!(m.record_duration);
    let m = publish_metrics(PublishStage::AwaitingReply, &PublishEvent::InboxClosed);
    assert_eq!(m.counter, None);
    assert!(m.record_duration);
    let m = publish_metrics(PublishStage::Publishing, &PublishEvent::PublishSent);
    assert_eq!(m.counter, None);
    assert!(!m.record_duration);
}

#[test]
fn failed_connection_leaves_cache_untouched() {
    let rt = tokio::runtime::Builder::new_current_thread().enable_all().build().unwrap();
    let mut cache = NatsClientCache::new();
    let e = cache.record_connection("nats://a:4222", None).unwrap_err();
    assert_eq!(detail(&e).as_deref(), Some("Failed to connect to NATS server"));
    assert!(cache.lookup("nats://a:4222").is_none());
    assert!(cache.record_connection("nats://a:4222", Some(offline_client(&rt))).is_ok());
    assert!(cache.lookup("nats://a:4222").is_some());
    assert!(cache.lookup("nats://b:4222").is_none());
}
