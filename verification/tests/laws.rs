use std::marker::PhantomData;

use nats_bridge::amount::MinorUnit;
use nats_bridge::client_pool::{
    jetstream_stream_specs, publish_step, stream_setup_start, stream_setup_step, PublishAction,
    PublishEvent, PublishStage, StreamSetupAction,
};
use nats_bridge::connector::{NatsBridge, NatsOperation};
use nats_bridge::domain::{
    AttemptStatus, PaymentsCaptureData, PaymentsResponseData, ResponseId, RouterData,
};

fn capture_data(payment_id: &str, attempt_id: &str) -> RouterData<nats_bridge::domain::Capture, PaymentsCaptureData, PaymentsResponseData> {
    RouterData {
        flow: PhantomData,
        merchant_id: "m_1".to_string(),
        payment_id: payment_id.to_string(),
        attempt_id: attempt_id.to_string(),
        connector_request_reference_id: "c_1".to_string(),
        status: AttemptStatus::Authorized,
        request: PaymentsCaptureData {
            minor_amount_to_capture: MinorUnit::new(10),
            currency: "USD".to_string(),
            connector_transaction_id: "t".to_string(),
        },
        response: Ok(PaymentsResponseData::TransactionResponse {
            resource_id: ResponseId::NoResponseId,
            redirection_data: None,
            connector_metadata: None,
            network_txn_id: None,
            connector_response_reference_id: None,
            incremental_authorization_allowed: None,
        }),
    }
}

fn msg_id(payment_id: &str, attempt_id: &str) -> String {
    let headers = NatsBridge::new().build_nats_headers(&capture_data(payment_id, attempt_id));
    headers.get("Nats-Msg-Id").unwrap().as_str().to_string()
}

#[test]
fn retries_of_one_attempt_share_a_message_id() {
    assert_eq!(msg_id("pay_1", "att_1"), msg_id("pay_1", "att_1"));
    assert_eq!(msg_id("pay_1", "att_1"), "pay_1_att_1");
}

#[test]
fn attempts_of_one_payment_have_distinct_message_ids() {
    assert_ne!(msg_id("pay_1", "att_1"), msg_id("pay_1", "att_2"));
    assert_ne!(msg_id("pay_1", "a_b"), msg_id("pay_1", "a"));
}

#[test]
fn every_operation_falls_in_its_stream() {
    let specs = jetstream_stream_specs();
    let payments_prefix = specs[0].subjects[0].trim_end_matches('>').to_string();
    let refunds_prefix = specs[1].subjects[0].trim_end_matches('>').to_string();
    let ops = [
        (NatsOperation::PaymentsAuthorize, true),
        (NatsOperation::PaymentsCompleteAuthorize, true),
        (NatsOperation::PaymentsCapture, true),
        (NatsOperation::PaymentsVoid, true),
        (NatsOperation::PaymentsSync, true),
        (NatsOperation::RefundsExecute, false),
        (NatsOperation::RefundsSync, false),
    ];
    for (op, is_payment) in ops {
        let subject = op.subject();
        assert_eq!(subject.starts_with(&payments_prefix), is_payment);
        assert_eq!(subject.starts_with(&refunds_prefix), !is_payment);
    }
}

#[test]
fn payment_reply_only_after_acknowledgment() {
    // Without an acknowledgment the flow never reaches the stage where a
    // reply is taken.
    let (stage, _) = publish_step(PublishStage::Subscribing, PublishEvent::InboxReady);
    let (stage, _) = publish_step(stage, PublishEvent::PublishSent);
    let (stage, action) = publish_step(stage, PublishEvent::AckFailed);
    assert_eq!(stage, PublishStage::Finished);
    assert!(matches!(action, PublishAction::Finish(Err(_))));
}

#[test]
fn subjects_do_not_depend_on_the_merchant() {
    let bridge = NatsBridge::new();
    let connectors = nats_bridge::connector::Connectors {
        nats_bridge: nats_bridge::connector::ConnectorParams { base_url: "nats://a".to_string() },
    };
    let mut first = capture_data("pay_1", "att_1");
    first.merchant_id = "merchant_a".to_string();
    let mut second = capture_data("pay_2", "att_9");
    second.merchant_id = "merchant_b".to_string();
    let d1 = bridge.capture_dispatch(&first, &connectors).unwrap();
    let d2 = bridge.capture_dispatch(&second, &connectors).unwrap();
    assert_eq!(d1.subject, d2.subject);
    assert_eq!(d1.subject, "hyperswitch.payments.capture");
}

#[test]
fn every_body_names_the_merchant_of_its_headers() {
    let bridge = NatsBridge::new();
    let connectors = nats_bridge::connector::Connectors {
        nats_bridge: nats_bridge::connector::ConnectorParams { base_url: "nats://a".to_string() },
    };
    let d = bridge.capture_dispatch(&capture_data("pay_1", "att_1"), &connectors).unwrap();
    let header = d.headers.get("X-Merchant-Id").unwrap().as_str().to_string();
    assert_eq!(header, d.payload.merchant_id);
    let payment = d.headers.get("X-Payment-Id").unwrap().as_str().to_string();
    assert_eq!(Some(payment), d.payload.payment_id);
}

#[test]
fn stream_setup_creates_refunds_only_after_payments() {
    let mut created = Vec::new();
    let outcomes = [Err("down".to_string()), Ok(())];
    let specs = jetstream_stream_specs();
    let mut action = stream_setup_start();
    let mut results = outcomes.iter();
    let result = loop {
        match action {
            StreamSetupAction::Create(i) => {
                created.push(specs[i].name.clone());
                action = stream_setup_step(i, specs.len(), results.next().unwrap().clone());
            }
            StreamSetupAction::Finish(r) => break r,
        }
    };
    assert_eq!(created, vec!["HYPERSWITCH_PAYMENTS".to_string()]);
    assert!(result.is_err());
}

#[test]
fn stream_setup_twice_gives_the_same_streams() {
    let a = jetstream_stream_specs();
    let b = jetstream_stream_specs();
    assert_eq!(a.len(), b.len());
    for (x, y) in a.iter().zip(b.iter()) {
        assert_eq!(x.name, y.name);
        assert_eq!(x.subjects, y.subjects);
        assert_eq!(x.max_age_secs, y.max_age_secs);
        assert_eq!(x.num_replicas, y.num_replicas);
        assert_eq!(x.max_messages, y.max_messages);
        assert_eq!(x.duplicate_window_secs, y.duplicate_window_secs);
    }
}
