use std::marker::PhantomData;

use nats_bridge::amount::MinorUnit;
use nats_bridge::connector::{
    ConnectorParams, Connectors, ExchangeKind, NatsBridge, NatsOperation, WorkerExchange,
};
use nats_bridge::domain::{
    AttemptStatus, CardNetwork, CaptureMethod, ConnectorAuthType, ConnectorError,
    ConnectorIntegrationStatus, CurrencyUnit, FeatureStatus, HyperswitchConnectorCategory,
    IncomingWebhookRequestDetails, Method, PaymentsAuthorizeData, PaymentsCancelData,
    PaymentsCaptureData, PaymentsResponseData, PaymentsSyncData, RefundStatus, RefundsData,
    RefundsResponseData, ResponseId, RouterData, CompleteAuthorizeData,
};
use nats_bridge::transformers::{
    NatsBridgeErrorResponse, NatsBridgePaymentsResponse, NatsPaymentStatus, NatsRefundStatus,
    RefundResponse,
};
use serde_json::Value;

fn connectors() -> Connectors {
    Connectors { nats_bridge: ConnectorParams { base_url: "nats://localhost:4222".to_string() } }
}

fn router_data<F, Req, Resp>(request: Req, response: Resp) -> RouterData<F, Req, Resp> {
    RouterData {
        flow: PhantomData,
        merchant_id: "merchant_123".to_string(),
        payment_id: "pay_xyz789".to_string(),
        attempt_id: "attempt_def456".to_string(),
        connector_request_reference_id: "uuid-v4".to_string(),
        status: AttemptStatus::Started,
        request,
        response: Ok(response),
    }
}

fn pending_payment() -> PaymentsResponseData {
    PaymentsResponseData::TransactionResponse {
        resource_id: ResponseId::NoResponseId,
        redirection_data: None,
        connector_metadata: None,
        network_txn_id: None,
        connector_response_reference_id: None,
        incremental_authorization_allowed: None,
    }
}

fn pending_refund() -> RefundsResponseData {
    RefundsResponseData { connector_refund_id: String::new(), refund_status: RefundStatus::Pending }
}

fn authorize_data(payment_method: Option<&str>) -> PaymentsAuthorizeData {
    PaymentsAuthorizeData {
        minor_amount: MinorUnit::new(1999),
        currency: "USD".to_string(),
        payment_method: payment_method.map(|p| p.to_string()),
        payment_method_data: Value::Null,
        payment_method_type: None,
        router_return_url: None,
        webhook_url: None,
        browser_info: None,
        statement_descriptor: None,
    }
}

fn refunds_data(connector_refund_id: Option<&str>) -> RefundsData {
    RefundsData {
        refund_id: "ref_1".to_string(),
        connector_transaction_id: "txn_1".to_string(),
        connector_refund_id: connector_refund_id.map(|s| s.to_string()),
        minor_refund_amount: MinorUnit::new(-5),
        currency: "EUR".to_string(),
        reason: None,
        webhook_url: None,
    }
}

fn header(headers: &async_nats::HeaderMap, name: &str) -> Option<String> {
    headers.get(name).map(|v| v.as_str().to_string())
}

#[test]
fn nats_headers_follow_protocol() {
    let bridge = NatsBridge::new();
    let rd: RouterData<nats_bridge::domain::Authorize, _, _> =
        router_data(authorize_data(Some("card")), pending_payment());
    let headers = bridge.build_nats_headers(&rd);
    assert_eq!(header(&headers, "X-Merchant-Id").as_deref(), Some("merchant_123"));
    assert_eq!(header(&headers, "X-Payment-Id").as_deref(), Some("pay_xyz789"));
    assert_eq!(header(&headers, "X-Correlation-Id").as_deref(), Some("uuid-v4"));
    assert_eq!(header(&headers, "Nats-Msg-Id").as_deref(), Some("pay_xyz789_attempt_def456"));
    assert_eq!(headers.len(), 4);
}

#[test]
fn authorize_dispatch_wraps_request_in_envelope() {
    let bridge = NatsBridge::new();
    let rd = router_data(authorize_data(Some("card")), pending_payment());
    let d = bridge.authorize_dispatch(&rd, &connectors()).unwrap();
    assert_eq!(d.nats_url, "nats://localhost:4222");
    assert_eq!(d.subject, "hyperswitch.payments.authorize");
    assert_eq!(d.payload.merchant_id, "merchant_123");
    assert_eq!(d.payload.payment_id.as_deref(), Some("pay_xyz789"));
    assert_eq!(d.payload.attempt_id.as_deref(), Some("attempt_def456"));
    assert_eq!(d.payload.correlation_id, "uuid-v4");
    assert_eq!(d.payload.router_data.amount, "1999");
    assert_eq!(d.payload.router_data.payment_method, "card");
    assert_eq!(header(&d.headers, "X-Merchant-Id").as_deref(), Some(d.payload.merchant_id.as_str()));
}

#[test]
fn authorize_dispatch_requires_payment_method() {
    let bridge = NatsBridge::new();
    let rd = router_data(authorize_data(None), pending_payment());
    match bridge.authorize_dispatch(&rd, &connectors()) {
        Err(ConnectorError::MissingRequiredField { field_name }) => assert_eq!(field_name, "payment_method"),
        _ => panic!("expected a missing payment method"),
    }
}

#[test]
fn complete_authorize_dispatch_converts_amount() {
    let bridge = NatsBridge::new();
    let data = CompleteAuthorizeData {
        amount: 4200,
        currency: "USD".to_string(),
        payment_method_data: None,
        connector_transaction_id: Some("txn_9".to_string()),
        redirect_response: None,
    };
    let rd = router_data(data, pending_payment());
    let d = bridge.complete_authorize_dispatch(&rd, &connectors()).unwrap();
    assert_eq!(d.subject, "hyperswitch.payments.complete_authorize");
    assert_eq!(d.payload.router_data.amount, "4200");
    assert_eq!(d.payload.router_data.connector_transaction_id.as_deref(), Some("txn_9"));
}

#[test]
fn capture_dispatch_uses_capture_amount() {
    let bridge = NatsBridge::new();
    let data = PaymentsCaptureData {
        minor_amount_to_capture: MinorUnit::new(750),
        currency: "INR".to_string(),
        connector_transaction_id: "txn_c".to_string(),
    };
    let rd = router_data(data, pending_payment());
    let d = bridge.capture_dispatch(&rd, &connectors()).unwrap();
    assert_eq!(d.subject, "hyperswitch.payments.capture");
    assert_eq!(d.payload.router_data.amount_to_capture, "750");
    assert_eq!(d.payload.merchant_id, "merchant_123");
    assert_eq!(d.payload.payment_id.as_deref(), Some("pay_xyz789"));
    assert_eq!(d.payload.attempt_id.as_deref(), Some("attempt_def456"));
    assert_eq!(d.payload.correlation_id, "uuid-v4");
    assert_eq!(d.exchange, ExchangeKind::JetStreamWithInbox);
    assert_eq!(d.reply_timeout_secs, 28);
    assert_eq!(d.payload.router_data.currency, "INR");
}

#[test]
fn void_dispatch_without_amount_sends_zero() {
    let bridge = NatsBridge::new();
    let data = PaymentsCancelData {
        connector_transaction_id: "txn_v".to_string(),
        cancellation_reason: None,
        minor_amount: None,
        currency: None,
    };
    let rd = router_data(data, pending_payment());
    let d = bridge.void_dispatch(&rd, &connectors()).unwrap();
    assert_eq!(d.subject, "hyperswitch.payments.void");
    assert_eq!(d.payload.router_data.amount.as_deref(), Some("0"));
}

#[test]
fn void_dispatch_with_amount_needs_currency() {
    let bridge = NatsBridge::new();
    let data = PaymentsCancelData {
        connector_transaction_id: "txn_v".to_string(),
        cancellation_reason: None,
        minor_amount: Some(MinorUnit::new(120)),
        currency: None,
    };
    let rd = router_data(data, pending_payment());
    match bridge.void_dispatch(&rd, &connectors()) {
        Err(ConnectorError::MissingRequiredField { field_name }) => assert_eq!(field_name, "currency"),
        _ => panic!("expected a missing currency"),
    }
    let data = PaymentsCancelData {
        connector_transaction_id: "txn_v".to_string(),
        cancellation_reason: Some("fraud".to_string()),
        minor_amount: Some(MinorUnit::new(120)),
        currency: Some("USD".to_string()),
    };
    let rd = router_data(data, pending_payment());
    let d = bridge.void_dispatch(&rd, &connectors()).unwrap();
    assert_eq!(d.payload.router_data.amount.as_deref(), Some("120"));
    assert_eq!(d.payload.router_data.currency.as_deref(), Some("USD"));
}

#[test]
fn sync_dispatch_targets_sync_subject() {
    let bridge = NatsBridge::new();
    let data = PaymentsSyncData {
        connector_transaction_id: ResponseId::ConnectorTransactionId("txn_s".to_string()),
        encoded_data: None,
        connector_meta: None,
    };
    let rd = router_data(data, pending_payment());
    let d = bridge.sync_dispatch(&rd, &connectors()).unwrap();
    assert_eq!(d.subject, "hyperswitch.payments.sync");
    assert_eq!(d.payload.router_data.connector_transaction_id.as_deref(), Some("txn_s"));
    assert_eq!(d.payload.merchant_id, "merchant_123");
    assert_eq!(d.exchange, ExchangeKind::RequestReply);
    assert_eq!(d.reply_timeout_secs, 5);
}

#[test]
fn refund_dispatches() {
    let bridge = NatsBridge::new();
    let rd: RouterData<nats_bridge::domain::Execute, _, _> = router_data(refunds_data(None), pending_refund());
    let d = bridge.refund_execute_dispatch(&rd, &connectors()).unwrap();
    assert_eq!(d.subject, "hyperswitch.refunds.execute");
    assert_eq!(d.payload.router_data.refund_amount, "-5");
    assert_eq!(d.payload.merchant_id, "merchant_123");
    assert_eq!(d.exchange, ExchangeKind::JetStreamWithInbox);

    let rd: RouterData<nats_bridge::domain::RSync, _, _> = router_data(refunds_data(Some("rf_7")), pending_refund());
    let d = bridge.refund_sync_dispatch(&rd, &connectors()).unwrap();
    assert_eq!(d.subject, "hyperswitch.refunds.sync");
    assert_eq!(d.payload.router_data.connector_refund_id, "rf_7");
    assert_eq!(d.payload.correlation_id, "uuid-v4");
    assert_eq!(d.exchange, ExchangeKind::RequestReply);
    assert_eq!(d.reply_timeout_secs, 5);

    let rd: RouterData<nats_bridge::domain::RSync, _, _> = router_data(refunds_data(None), pending_refund());
    assert!(matches!(
        bridge.refund_sync_dispatch(&rd, &connectors()),
        Err(ConnectorError::MissingConnectorTransactionID)
    ));
}

#[test]
fn finish_request_records_answers() {
    let bridge = NatsBridge::new();
    let body = b"{\"status\":\"succeeded\"}".to_vec();
    assert!(matches!(
        bridge.finish_request(NatsOperation::PaymentsAuthorize, WorkerExchange::Replied { via: ExchangeKind::JetStreamWithInbox, body: body.clone() }),
        Ok(None)
    ));
    let capture = bridge
        .finish_request(
            NatsOperation::PaymentsCapture,
            WorkerExchange::Replied { via: ExchangeKind::JetStreamWithInbox, body: body.clone() },
        )
        .unwrap()
        .unwrap();
    assert_eq!(capture.method, Method::Post);
    assert_eq!(capture.url, "nats://hyperswitch.payments.capture");
    assert_eq!(capture.body, body);
    let sync = bridge
        .finish_request(
            NatsOperation::RefundsSync,
            WorkerExchange::Replied { via: ExchangeKind::RequestReply, body: Vec::new() },
        )
        .unwrap()
        .unwrap();
    assert_eq!(sync.method, Method::Get);
    assert_eq!(sync.url, "nats://hyperswitch.refunds.sync");
    assert!(matches!(
        bridge.finish_request(NatsOperation::PaymentsVoid, WorkerExchange::Failed),
        Err(ConnectorError::ProcessingStepFailed(None))
    ));
}

#[test]
fn operation_subjects_and_methods() {
    let all = [
        (NatsOperation::PaymentsAuthorize, "hyperswitch.payments.authorize", Method::Post),
        (NatsOperation::PaymentsCompleteAuthorize, "hyperswitch.payments.complete_authorize", Method::Post),
        (NatsOperation::PaymentsCapture, "hyperswitch.payments.capture", Method::Post),
        (NatsOperation::PaymentsVoid, "hyperswitch.payments.void", Method::Post),
        (NatsOperation::PaymentsSync, "hyperswitch.payments.sync", Method::Get),
        (NatsOperation::RefundsExecute, "hyperswitch.refunds.execute", Method::Post),
        (NatsOperation::RefundsSync, "hyperswitch.refunds.sync", Method::Get),
    ];
    for (op, subject, method) in all {
        assert_eq!(op.subject(), subject);
        assert_eq!(op.method(), method);
    }
}

#[test]
fn handle_payments_response_reads_reply() {
    let bridge = NatsBridge::new();
    let rd: RouterData<nats_bridge::domain::Capture, PaymentsCaptureData, PaymentsResponseData> = router_data(
        PaymentsCaptureData {
            minor_amount_to_capture: MinorUnit::new(1),
            currency: "USD".to_string(),
            connector_transaction_id: "t".to_string(),
        },
        pending_payment(),
    );
    let resp = NatsBridgePaymentsResponse {
        status: NatsPaymentStatus::Cancelled,
        connector_transaction_id: Some("t".to_string()),
        redirect_form: None,
        connector_metadata: None,
        network_txn_id: None,
        connector_response_reference_id: None,
        error_code: None,
        error_message: None,
        error_reason: None,
    };
    let out = bridge.handle_payments_response(rd, Some(resp), 200).unwrap();
    assert_eq!(out.status, AttemptStatus::Voided);
    let rd: RouterData<nats_bridge::domain::Capture, PaymentsCaptureData, PaymentsResponseData> = router_data(
        PaymentsCaptureData {
            minor_amount_to_capture: MinorUnit::new(1),
            currency: "USD".to_string(),
            connector_transaction_id: "t".to_string(),
        },
        pending_payment(),
    );
    assert!(matches!(
        bridge.handle_payments_response(rd, None, 200),
        Err(ConnectorError::ResponseDeserializationFailed)
    ));
}

#[test]
fn handle_refund_responses() {
    let bridge = NatsBridge::new();
    let rd: RouterData<nats_bridge::domain::Execute, _, _> = router_data(refunds_data(None), pending_refund());
    let resp = RefundResponse {
        refund_status: NatsRefundStatus::Succeeded,
        connector_refund_id: Some("rf".to_string()),
        error_code: None,
        error_message: None,
    };
    let out = bridge.handle_refund_execute_response(rd, Some(resp), 200).unwrap();
    assert_eq!(out.response.ok().unwrap().refund_status, RefundStatus::Success);
    let rd: RouterData<nats_bridge::domain::RSync, _, _> = router_data(refunds_data(None), pending_refund());
    assert!(matches!(
        bridge.handle_refund_sync_response(rd, None, 200),
        Err(ConnectorError::ResponseDeserializationFailed)
    ));
}

#[test]
fn error_response_from_worker_error() {
    let bridge = NatsBridge::new();
    let e = bridge
        .build_error_response(
            Some(NatsBridgeErrorResponse {
                code: "E42".to_string(),
                message: "worker down".to_string(),
                reason: Some("maintenance".to_string()),
            }),
            503,
        )
        .unwrap();
    assert_eq!(e.status_code, 503);
    assert_eq!(e.code, "E42");
    assert_eq!(e.message, "worker down");
    assert_eq!(e.reason.as_deref(), Some("maintenance"));
    assert!(e.attempt_status.is_none());
    assert!(matches!(
        bridge.build_error_response(None, 500),
        Err(ConnectorError::ResponseDeserializationFailed)
    ));
}

#[test]
fn connector_description() {
    let bridge = NatsBridge::new();
    assert_eq!(bridge.id(), "nats_bridge");
    assert_eq!(bridge.get_currency_unit(), CurrencyUnit::Minor);
    assert_eq!(bridge.common_get_content_type(), "application/json");
    assert_eq!(bridge.base_url(&connectors()), "nats://localhost:4222");
    let rd: RouterData<nats_bridge::domain::Authorize, _, _> =
        router_data(authorize_data(Some("card")), pending_payment());
    assert!(bridge.build_headers(&rd, &connectors()).unwrap().is_empty());
    assert!(bridge.get_auth_header(&ConnectorAuthType::NoKey).unwrap().is_empty());
    let info = bridge.get_connector_about().unwrap();
    assert_eq!(info.display_name, "NATS Bridge");
    assert_eq!(info.connector_type, HyperswitchConnectorCategory::PaymentGateway);
    assert_eq!(info.integration_status, ConnectorIntegrationStatus::Alpha);
    assert!(bridge.get_supported_webhook_flows().unwrap().is_empty());
}

#[test]
fn supported_payment_methods_are_cards() {
    let bridge = NatsBridge::new();
    let methods = bridge.get_supported_payment_methods().unwrap();
    assert_eq!(methods.len(), 2);
    assert_eq!(methods[0].payment_method_type, "credit");
    assert_eq!(methods[1].payment_method_type, "debit");
    for m in &methods {
        assert_eq!(m.payment_method, "card");
        assert_eq!(m.details.mandates, FeatureStatus::NotSupported);
        assert_eq!(m.details.refunds, FeatureStatus::Supported);
        assert_eq!(m.details.supported_capture_methods, vec![CaptureMethod::Automatic, CaptureMethod::Manual]);
        let card = m.details.specific_features.as_ref().unwrap();
        assert_eq!(
            card.supported_card_networks,
            vec![CardNetwork::Visa, CardNetwork::Mastercard, CardNetwork::AmericanExpress, CardNetwork::Discover]
        );
    }
}

#[test]
fn webhooks_and_psync_validation() {
    let bridge = NatsBridge::new();
    let request = IncomingWebhookRequestDetails { headers: Vec::new(), body: Vec::new() };
    assert!(matches!(
        bridge.get_webhook_object_reference_id(&request),
        Err(ConnectorError::WebhooksNotImplemented)
    ));
    assert!(matches!(bridge.get_webhook_event_type(&request), Err(ConnectorError::WebhooksNotImplemented)));
    assert!(matches!(
        bridge.get_webhook_resource_object(&request),
        Err(ConnectorError::WebhooksNotImplemented)
    ));
    let data = PaymentsSyncData {
        connector_transaction_id: ResponseId::NoResponseId,
        encoded_data: None,
        connector_meta: None,
    };
    assert!(bridge.validate_psync_reference_id(&data, false, AttemptStatus::Pending, None).is_ok());
}

#[test]
fn financial_operations_go_through_jetstream() {
    let all = [
        (NatsOperation::PaymentsAuthorize, ExchangeKind::JetStreamWithInbox, 28),
        (NatsOperation::PaymentsCompleteAuthorize, ExchangeKind::JetStreamWithInbox, 28),
        (NatsOperation::PaymentsCapture, ExchangeKind::JetStreamWithInbox, 28),
        (NatsOperation::PaymentsVoid, ExchangeKind::JetStreamWithInbox, 28),
        (NatsOperation::PaymentsSync, ExchangeKind::RequestReply, 5),
        (NatsOperation::RefundsExecute, ExchangeKind::JetStreamWithInbox, 28),
        (NatsOperation::RefundsSync, ExchangeKind::RequestReply, 5),
    ];
    for (op, exchange, timeout) in all {
        assert_eq!(op.exchange_kind(), exchange);
        assert_eq!(op.reply_timeout_secs(), timeout);
        if exchange == ExchangeKind::JetStreamWithInbox {
            assert_eq!(nats_bridge::client_pool::JETSTREAM_ACK_TIMEOUT_SECS + timeout, 30);
        }
    }
}

#[test]
fn finish_request_refuses_reply_by_other_exchange() {
    let bridge = NatsBridge::new();
    let body = b"{}".to_vec();
    assert!(matches!(
        bridge.finish_request(
            NatsOperation::PaymentsCapture,
            WorkerExchange::Replied { via: ExchangeKind::RequestReply, body: body.clone() },
        ),
        Err(ConnectorError::ProcessingStepFailed(None))
    ));
    assert!(matches!(
        bridge.finish_request(
            NatsOperation::PaymentsSync,
            WorkerExchange::Replied { via: ExchangeKind::JetStreamWithInbox, body },
        ),
        Err(ConnectorError::ProcessingStepFailed(None))
    ));
}
