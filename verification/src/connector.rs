//! The bridge connector: for each operation, the NATS subject, headers and
//! body it sends, the request it records once a worker answered, and how it
//! reads the worker's reply.

use crate::amount::{convert_amount, int_decimal, MinorUnit};
use crate::domain::{
    is_missing_field, AttemptStatus, CaptureMethod, CardNetwork, CardSpecificFeatures,
    ConnectorAuthType, ConnectorError, ConnectorInfo, ConnectorIntegrationStatus, CurrencyUnit,
    ErrorResponse, EventClass, Execute, FeatureStatus, HyperswitchConnectorCategory,
    IncomingWebhookEvent, IncomingWebhookRequestDetails, Method, ObjectReferenceId,
    PaymentMethodDetails, PaymentsAuthorizeRouterData, PaymentsCancelRouterData,
    PaymentsCaptureRouterData, PaymentsCompleteAuthorizeRouterData, PaymentsResponseData,
    PaymentsSyncData, PaymentsSyncRouterData, RSync, RefundSyncRouterData, RefundsData,
    RefundsResponseData, RefundsRouterData, ResponseRouterData, RouterData,
    SupportedPaymentMethod,
};
use crate::headers::{
    header_entries, header_map_insert, header_map_new, lemma_header_value_concat,
    valid_header_name, valid_header_value,
};
use crate::transformers::{
    attempt_status_for, payments_result_matches, refund_result_matches, same_operation,
    NatsBridgeCaptureRequest, NatsBridgeCompleteAuthorizeRequest, NatsBridgeErrorResponse,
    NatsBridgePaymentsRequest, NatsBridgePaymentsResponse, NatsBridgeRefundRequest,
    NatsBridgeRouterData, NatsBridgeSyncRequest, NatsBridgeVoidRequest, NatsMessageEnvelope,
    RefundResponse,
};
use async_nats::HeaderMap;
use serde_json::Value;
use vstd::prelude::*;

verus! {

/// The operations the bridge hands to workers, one NATS subject each.
#[derive(Clone, Copy, Debug, PartialEq, Eq, Structural)]
pub enum NatsOperation {
    PaymentsAuthorize,
    PaymentsCompleteAuthorize,
    PaymentsCapture,
    PaymentsVoid,
    PaymentsSync,
    RefundsExecute,
    RefundsSync,
}

/// The subject a worker listens on for `op`.
pub open spec fn subject_text(op: NatsOperation) -> Seq<char> {
    match op {
        NatsOperation::PaymentsAuthorize => "hyperswitch.payments.authorize"@,
        NatsOperation::PaymentsCompleteAuthorize => "hyperswitch.payments.complete_authorize"@,
        NatsOperation::PaymentsCapture => "hyperswitch.payments.capture"@,
        NatsOperation::PaymentsVoid => "hyperswitch.payments.void"@,
        NatsOperation::PaymentsSync => "hyperswitch.payments.sync"@,
        NatsOperation::RefundsExecute => "hyperswitch.refunds.execute"@,
        NatsOperation::RefundsSync => "hyperswitch.refunds.sync"@,
    }
}

/// The method a worker's answer to `op` is recorded with: queries are `GET`,
/// everything else `POST`.
pub open spec fn method_for(op: NatsOperation) -> Method {
    match op {
        NatsOperation::PaymentsSync | NatsOperation::RefundsSync => Method::Get,
        _ => Method::Post,
    }
}

impl NatsOperation {
    /// The subject a worker listens on for this operation.
    pub fn subject(&self) -> (r: &'static str)
        ensures
            r@ == subject_text(*self),
    {
        match self {
            NatsOperation::PaymentsAuthorize => "hyperswitch.payments.authorize",
            NatsOperation::PaymentsCompleteAuthorize => "hyperswitch.payments.complete_authorize",
            NatsOperation::PaymentsCapture => "hyperswitch.payments.capture",
            NatsOperation::PaymentsVoid => "hyperswitch.payments.void",
            NatsOperation::PaymentsSync => "hyperswitch.payments.sync",
            NatsOperation::RefundsExecute => "hyperswitch.refunds.execute",
            NatsOperation::RefundsSync => "hyperswitch.refunds.sync",
        }
    }

    /// The method the worker's answer is recorded with.
    pub fn method(&self) -> (r: Method)
        ensures
            r == method_for(*self),
    {
        match self {
            NatsOperation::PaymentsSync | NatsOperation::RefundsSync => Method::Get,
            _ => Method::Post,
        }
    }
}

/// The idempotency key of an attempt: `<payment_id>_<attempt_id>`. For the
/// operations published to JetStream, the stream drops a second message with
/// the same key inside its duplicate window.
pub open spec fn message_id(payment_id: Seq<char>, attempt_id: Seq<char>) -> Seq<char> {
    payment_id + seq!['_'] + attempt_id
}

/// The headers of every message about an operation: merchant, payment,
/// correlation id, and the attempt's idempotency key.
pub open spec fn nats_headers_for(
    merchant_id: Seq<char>,
    payment_id: Seq<char>,
    correlation_id: Seq<char>,
    attempt_id: Seq<char>,
) -> Map<Seq<char>, Seq<Seq<char>>> {
    Map::empty().insert("X-Merchant-Id"@, seq![merchant_id]).insert(
        "X-Payment-Id"@,
        seq![payment_id],
    ).insert("X-Correlation-Id"@, seq![correlation_id]).insert(
        "Nats-Msg-Id"@,
        seq![message_id(payment_id, attempt_id)],
    )
}

/// The headers of every message about the operation `rd`.
pub open spec fn headers_of<F, Req, Resp>(rd: RouterData<F, Req, Resp>) -> Map<
    Seq<char>,
    Seq<Seq<char>>,
> {
    nats_headers_for(
        rd.merchant_id@,
        rd.payment_id@,
        rd.connector_request_reference_id@,
        rd.attempt_id@,
    )
}

/// The identifiers of `rd` can travel as header values (no line breaks).
pub open spec fn ids_fit_headers<F, Req, Resp>(rd: RouterData<F, Req, Resp>) -> bool {
    &&& valid_header_value(rd.merchant_id@)
    &&& valid_header_value(rd.payment_id@)
    &&& valid_header_value(rd.attempt_id@)
    &&& valid_header_value(rd.connector_request_reference_id@)
}

/// Where the router reaches the NATS server.
pub struct ConnectorParams {
    pub base_url: String,
}

/// The router's connector configuration, as far as the bridge reads it.
pub struct Connectors {
    pub nats_bridge: ConnectorParams,
}

/// How a message is exchanged with the workers.
#[derive(Clone, Copy, Debug, PartialEq, Eq, Structural)]
pub enum ExchangeKind {
    /// Published to JetStream (stored, deduplicated by `Nats-Msg-Id`), with
    /// the worker's reply awaited on an inbox named in `Nats-Reply-To`.
    JetStreamWithInbox,
    /// A plain NATS request and its reply.
    RequestReply,
}

/// How `op` is exchanged: the financial operations (authorize, complete,
/// capture, void, refund) go through JetStream; the two status queries are
/// plain requests.
pub open spec fn exchange_kind(op: NatsOperation) -> ExchangeKind {
    match op {
        NatsOperation::PaymentsSync | NatsOperation::RefundsSync => ExchangeKind::RequestReply,
        _ => ExchangeKind::JetStreamWithInbox,
    }
}

/// How long the bridge waits for the worker's reply to `op`, in seconds:
/// twenty-eight for the financial operations, which leaves two seconds of a
/// thirty-second exchange for JetStream to take and acknowledge the message;
/// five for the status queries.
pub open spec fn reply_timeout_secs(op: NatsOperation) -> u64 {
    match op {
        NatsOperation::PaymentsSync | NatsOperation::RefundsSync => 5,
        _ => 28,
    }
}

impl NatsOperation {
    /// How this operation is exchanged with the workers.
    pub fn exchange_kind(&self) -> (r: ExchangeKind)
        ensures
            r == exchange_kind(*self),
    {
        match self {
            NatsOperation::PaymentsSync | NatsOperation::RefundsSync => ExchangeKind::RequestReply,
            _ => ExchangeKind::JetStreamWithInbox,
        }
    }

    /// How long to wait for the worker's reply, in seconds.
    pub fn reply_timeout_secs(&self) -> (r: u64)
        ensures
            r == reply_timeout_secs(*self),
    {
        match self {
            NatsOperation::PaymentsSync | NatsOperation::RefundsSync => 5,
            _ => 28,
        }
    }
}

/// A message ready to go to the workers: the server, the subject, the
/// headers, the body, how it is exchanged and how long its reply may take.
pub struct NatsDispatch<P> {
    pub nats_url: String,
    pub subject: String,
    pub headers: HeaderMap,
    pub payload: P,
    pub exchange: ExchangeKind,
    pub reply_timeout_secs: u64,
}

/// The dispatch for `op` of the operation `rd` against `connectors`.
pub open spec fn dispatch_for<F, Req, Resp, P>(
    d: NatsDispatch<P>,
    op: NatsOperation,
    rd: RouterData<F, Req, Resp>,
    connectors: Connectors,
) -> bool {
    &&& d.nats_url@ == connectors.nats_bridge.base_url@
    &&& d.subject@ == subject_text(op)
    &&& header_entries(d.headers) == headers_of(rd)
    &&& d.exchange == exchange_kind(op)
    &&& d.reply_timeout_secs == reply_timeout_secs(op)
}

/// The body of every message about `rd` carries its merchant, payment,
/// attempt and correlation ids next to the operation's request.
pub open spec fn envelope_matches<F, Req, Resp, T>(
    envelope: NatsMessageEnvelope<T>,
    rd: RouterData<F, Req, Resp>,
) -> bool {
    &&& envelope.merchant_id == rd.merchant_id
    &&& envelope.payment_id == Some(rd.payment_id)
    &&& envelope.attempt_id == Some(rd.attempt_id)
    &&& envelope.correlation_id == rd.connector_request_reference_id
}

/// The authorization body for `req`: its request, with the payment's
/// identifiers.
pub open spec fn envelope_for(
    envelope: NatsMessageEnvelope<NatsBridgePaymentsRequest>,
    req: PaymentsAuthorizeRouterData,
) -> bool {
    &&& envelope_matches(envelope, req)
    &&& envelope.router_data.describes(int_decimal(req.request.minor_amount.0 as int), req.request)
}

/// Whether the operation belongs to the payments domain (otherwise it is a
/// refund operation).
pub open spec fn is_payment_operation(op: NatsOperation) -> bool {
    match op {
        NatsOperation::RefundsExecute | NatsOperation::RefundsSync => false,
        _ => true,
    }
}

/// The request of a refund status query.
pub struct RefundSyncRequest {
    pub connector_refund_id: String,
}

/// How the exchange with a worker ended.
pub enum WorkerExchange {
    /// The worker answered with these bytes, by the exchange `via`.
    Replied { via: ExchangeKind, body: Vec<u8> },
    /// No answer came: no connection, no encoding, the publish or request
    /// failed, or the reply did not come in time.
    Failed,
}

/// Wraps `body` in the envelope of the operation `rd`.
fn envelope_of<F, Req, Resp, T>(rd: &RouterData<F, Req, Resp>, body: T) -> (r: NatsMessageEnvelope<T>)
    ensures
        envelope_matches(r, *rd),
        r.router_data == body,
{
    NatsMessageEnvelope {
        merchant_id: rd.merchant_id.clone(),
        payment_id: Some(rd.payment_id.clone()),
        attempt_id: Some(rd.attempt_id.clone()),
        correlation_id: rd.connector_request_reference_id.clone(),
        router_data: body,
    }
}

/// A dispatch for `op`.
fn dispatch_of<P>(op: NatsOperation, nats_url: String, headers: HeaderMap, payload: P) -> (r: NatsDispatch<P>)
    ensures
        r.nats_url == nats_url,
        r.subject@ == subject_text(op),
        r.headers == headers,
        r.payload == payload,
        r.exchange == exchange_kind(op),
        r.reply_timeout_secs == reply_timeout_secs(op),
{
    NatsDispatch {
        nats_url,
        subject: op.subject().to_owned(),
        headers,
        payload,
        exchange: op.exchange_kind(),
        reply_timeout_secs: op.reply_timeout_secs(),
    }
}

/// A request as the router records it once the bridge has the worker's
/// answer: the method, `nats://<subject>`, and the answer as body.
pub struct Request {
    pub method: Method,
    pub url: String,
    pub body: Vec<u8>,
}

/// The bridge connector.
#[derive(Clone, Copy)]
pub struct NatsBridge {}

proof fn lemma_header_names()
    ensures
        valid_header_name("X-Merchant-Id"@),
        valid_header_name("X-Payment-Id"@),
        valid_header_name("X-Correlation-Id"@),
        valid_header_name("Nats-Msg-Id"@),
{
    reveal_strlit("X-Merchant-Id");
    reveal_strlit("X-Payment-Id");
    reveal_strlit("X-Correlation-Id");
    reveal_strlit("Nats-Msg-Id");
    assert("X-Merchant-Id"@ =~= seq!['X', '-', 'M', 'e', 'r', 'c', 'h', 'a', 'n', 't', '-', 'I', 'd']);
    assert("X-Payment-Id"@ =~= seq!['X', '-', 'P', 'a', 'y', 'm', 'e', 'n', 't', '-', 'I', 'd']);
    assert("X-Correlation-Id"@ =~= seq![
        'X', '-', 'C', 'o', 'r', 'r', 'e', 'l', 'a', 't', 'i', 'o', 'n', '-', 'I', 'd',
    ]);
    assert("Nats-Msg-Id"@ =~= seq!['N', 'a', 't', 's', '-', 'M', 's', 'g', '-', 'I', 'd']);
}

impl NatsBridge {
    /// The connector.
    pub fn new() -> (r: &'static NatsBridge) {
        &NatsBridge {  }
    }

    /// The NATS server the router is configured with.
    pub fn base_url<'a>(&self, connectors: &'a Connectors) -> (r: &'a str)
        ensures
            r@ == connectors.nats_bridge.base_url@,
    {
        connectors.nats_bridge.base_url.as_str()
    }

    /// The headers of every message about `router_data`: `X-Merchant-Id`,
    /// `X-Payment-Id`, `X-Correlation-Id` and the idempotency key `Nats-Msg-Id`.
    pub fn build_nats_headers<F, Req, Resp>(&self, router_data: &RouterData<F, Req, Resp>) -> (r:
        HeaderMap)
        requires
            ids_fit_headers(*router_data),
        ensures
            header_entries(r) == headers_of(*router_data),
    {
        proof {
            lemma_header_names();
            reveal_strlit("_");
            lemma_header_value_concat(router_data.payment_id@, "_"@);
            lemma_header_value_concat(router_data.payment_id@ + "_"@, router_data.attempt_id@);
            assert("_"@ =~= seq!['_']);
        }
        let mut headers = header_map_new();
        header_map_insert(&mut headers, "X-Merchant-Id", router_data.merchant_id.as_str());
        header_map_insert(&mut headers, "X-Payment-Id", router_data.payment_id.as_str());
        header_map_insert(
            &mut headers,
            "X-Correlation-Id",
            router_data.connector_request_reference_id.as_str(),
        );
        let mut msg_id = router_data.payment_id.clone();
        msg_id.append("_");
        msg_id.append(router_data.attempt_id.as_str());
        header_map_insert(&mut headers, "Nats-Msg-Id", msg_id.as_str());
        headers
    }

    /// What goes to the workers to authorize a payment.
    pub fn authorize_dispatch(
        &self,
        req: &PaymentsAuthorizeRouterData,
        connectors: &Connectors,
    ) -> (r: Result<NatsDispatch<NatsMessageEnvelope<NatsBridgePaymentsRequest>>, ConnectorError>)
        requires
            ids_fit_headers(*req),
        ensures
            match r {
                Ok(d) => {
                    &&& dispatch_for(d, NatsOperation::PaymentsAuthorize, *req, *connectors)
                    &&& envelope_for(d.payload, *req)
                },
                Err(e) => req.request.payment_method is None && is_missing_field(
                    e,
                    "payment_method"@,
                ),
            },
    {
        let nats_url = self.base_url(connectors).to_owned();
        let headers = self.build_nats_headers(req);
        let amount = convert_amount(&req.request.minor_amount);
        let connector_router_data = NatsBridgeRouterData::from((amount, req));
        let connector_req = NatsBridgePaymentsRequest::try_from(&connector_router_data)?;
        Ok(dispatch_of(NatsOperation::PaymentsAuthorize, nats_url, headers, envelope_of(req, connector_req)))
    }

    /// What goes to the workers to complete an authorization.
    pub fn complete_authorize_dispatch(
        &self,
        req: &PaymentsCompleteAuthorizeRouterData,
        connectors: &Connectors,
    ) -> (r: Result<NatsDispatch<NatsMessageEnvelope<NatsBridgeCompleteAuthorizeRequest>>, ConnectorError>)
        requires
            ids_fit_headers(*req),
        ensures
            r matches Ok(d) && {
                &&& dispatch_for(d, NatsOperation::PaymentsCompleteAuthorize, *req, *connectors)
                &&& envelope_matches(d.payload, *req)
                &&& d.payload.router_data.describes(int_decimal(req.request.amount as int), req.request)
            },
    {
        let nats_url = self.base_url(connectors).to_owned();
        let headers = self.build_nats_headers(req);
        let amount = convert_amount(&MinorUnit::new(req.request.amount));
        let connector_router_data = NatsBridgeRouterData::from((amount, req));
        let connector_req = NatsBridgeCompleteAuthorizeRequest::try_from(&connector_router_data)?;
        Ok(dispatch_of(NatsOperation::PaymentsCompleteAuthorize, nats_url, headers, envelope_of(req, connector_req)))
    }

    /// What goes to the workers to capture a payment.
    pub fn capture_dispatch(&self, req: &PaymentsCaptureRouterData, connectors: &Connectors) -> (r:
        Result<NatsDispatch<NatsMessageEnvelope<NatsBridgeCaptureRequest>>, ConnectorError>)
        requires
            ids_fit_headers(*req),
        ensures
            r matches Ok(d) && {
                &&& dispatch_for(d, NatsOperation::PaymentsCapture, *req, *connectors)
                &&& envelope_matches(d.payload, *req)
                &&& d.payload.router_data.describes(
                    int_decimal(req.request.minor_amount_to_capture.0 as int),
                    req.request,
                )
            },
    {
        let nats_url = self.base_url(connectors).to_owned();
        let headers = self.build_nats_headers(req);
        let amount = convert_amount(&req.request.minor_amount_to_capture);
        let connector_router_data = NatsBridgeRouterData::from((amount, req));
        let connector_req = NatsBridgeCaptureRequest::try_from(&connector_router_data)?;
        Ok(dispatch_of(NatsOperation::PaymentsCapture, nats_url, headers, envelope_of(req, connector_req)))
    }

    /// What goes to the workers to void a payment. Without an amount the
    /// whole payment is voided and the amount sent is `0`; with one, the
    /// currency is required.
    pub fn void_dispatch(&self, req: &PaymentsCancelRouterData, connectors: &Connectors) -> (r:
        Result<NatsDispatch<NatsMessageEnvelope<NatsBridgeVoidRequest>>, ConnectorError>)
        requires
            ids_fit_headers(*req),
        ensures
            match r {
                Ok(d) => {
                    &&& !(req.request.minor_amount is Some && req.request.currency is None)
                    &&& dispatch_for(d, NatsOperation::PaymentsVoid, *req, *connectors)
                    &&& envelope_matches(d.payload, *req)
                    &&& d.payload.router_data.describes(
                        int_decimal(
                            match req.request.minor_amount {
                                Some(m) => m.0 as int,
                                None => 0,
                            },
                        ),
                        req.request,
                    )
                },
                Err(e) => req.request.minor_amount is Some && req.request.currency is None
                    && is_missing_field(e, "currency"@),
            },
    {
        let nats_url = self.base_url(connectors).to_owned();
        let headers = self.build_nats_headers(req);
        let amount = match &req.request.minor_amount {
            Some(minor_amount) => {
                if req.request.currency.is_none() {
                    return Err(
                        ConnectorError::MissingRequiredField { field_name: "currency".to_owned() },
                    );
                }
                convert_amount(minor_amount)
            },
            None => convert_amount(&MinorUnit::new(0)),
        };
        let connector_router_data = NatsBridgeRouterData::from((amount, req));
        let connector_req = NatsBridgeVoidRequest::try_from(&connector_router_data)?;
        Ok(dispatch_of(NatsOperation::PaymentsVoid, nats_url, headers, envelope_of(req, connector_req)))
    }

    /// What goes to the workers to ask for a payment's status.
    pub fn sync_dispatch(&self, req: &PaymentsSyncRouterData, connectors: &Connectors) -> (r:
        Result<NatsDispatch<NatsMessageEnvelope<NatsBridgeSyncRequest>>, ConnectorError>)
        requires
            ids_fit_headers(*req),
        ensures
            r matches Ok(d) && {
                &&& dispatch_for(d, NatsOperation::PaymentsSync, *req, *connectors)
                &&& envelope_matches(d.payload, *req)
                &&& d.payload.router_data.describes(req.request)
            },
    {
        let nats_url = self.base_url(connectors).to_owned();
        let headers = self.build_nats_headers(req);
        let connector_req = NatsBridgeSyncRequest::try_from(req)?;
        Ok(dispatch_of(NatsOperation::PaymentsSync, nats_url, headers, envelope_of(req, connector_req)))
    }

    /// What goes to the workers to execute a refund.
    pub fn refund_execute_dispatch<F>(&self, req: &RefundsRouterData<F>, connectors: &Connectors) -> (r:
        Result<NatsDispatch<NatsMessageEnvelope<NatsBridgeRefundRequest>>, ConnectorError>)
        requires
            ids_fit_headers(*req),
        ensures
            r matches Ok(d) && {
                &&& dispatch_for(d, NatsOperation::RefundsExecute, *req, *connectors)
                &&& envelope_matches(d.payload, *req)
                &&& d.payload.router_data.describes(int_decimal(req.request.minor_refund_amount.0 as int), req.request)
            },
    {
        let nats_url = self.base_url(connectors).to_owned();
        let headers = self.build_nats_headers(req);
        let refund_amount = convert_amount(&req.request.minor_refund_amount);
        let connector_router_data = NatsBridgeRouterData::from((refund_amount, req));
        let connector_req = NatsBridgeRefundRequest::try_from(&connector_router_data)?;
        Ok(dispatch_of(NatsOperation::RefundsExecute, nats_url, headers, envelope_of(req, connector_req)))
    }

    /// What goes to the workers to ask for a refund's status; the processor's
    /// refund id is required.
    pub fn refund_sync_dispatch(&self, req: &RefundSyncRouterData, connectors: &Connectors) -> (r:
        Result<NatsDispatch<NatsMessageEnvelope<RefundSyncRequest>>, ConnectorError>)
        requires
            ids_fit_headers(*req),
        ensures
            match r {
                Ok(d) => {
                    &&& dispatch_for(d, NatsOperation::RefundsSync, *req, *connectors)
                    &&& envelope_matches(d.payload, *req)
                    &&& req.request.connector_refund_id == Some(d.payload.router_data.connector_refund_id)
                },
                Err(e) => req.request.connector_refund_id is None
                    && e is MissingConnectorTransactionID,
            },
    {
        let nats_url = self.base_url(connectors).to_owned();
        let headers = self.build_nats_headers(req);
        let connector_refund_id = match &req.request.connector_refund_id {
            Some(id) => id.clone(),
            None => {
                return Err(ConnectorError::MissingConnectorTransactionID);
            },
        };
        Ok(dispatch_of(NatsOperation::RefundsSync, nats_url, headers, envelope_of(req, RefundSyncRequest { connector_refund_id })))
    }

    /// The request the router records once the exchange for `op` ended. A
    /// failed exchange, or a reply that did not come by the operation's own
    /// exchange kind, is a `ProcessingStepFailed` without detail; an
    /// authorization records none, so its reply is not carried on to the
    /// router (the message was already exchanged, and no HTTP call follows);
    /// every other operation records its answer under `nats://<subject>`.
    pub fn finish_request(&self, op: NatsOperation, exchange: WorkerExchange) -> (r: Result<
        Option<Request>,
        ConnectorError,
    >)
        ensures
            match exchange {
                WorkerExchange::Failed => r matches Err(ConnectorError::ProcessingStepFailed(None)),
                WorkerExchange::Replied { via, body } => if via != exchange_kind(op) {
                    r matches Err(ConnectorError::ProcessingStepFailed(None))
                } else if op == NatsOperation::PaymentsAuthorize {
                    r matches Ok(None)
                } else {
                    r matches Ok(Some(req)) && req.method == method_for(op) && req.url@ == "nats://"@
                        + subject_text(op) && req.body == body
                },
            },
    {
        match exchange {
            WorkerExchange::Failed => Err(ConnectorError::ProcessingStepFailed(None)),
            WorkerExchange::Replied { via, body } => {
                if via != op.exchange_kind() {
                    return Err(ConnectorError::ProcessingStepFailed(None));
                }
                match op {
                    NatsOperation::PaymentsAuthorize => Ok(None),
                    _ => {
                        let mut url = "nats://".to_owned();
                        url.append(op.subject());
                        Ok(Some(Request { method: op.method(), url, body }))
                    },
                }
            },
        }
    }

    /// Records a worker's reply to a payment operation; `parsed` is the
    /// reply read as a payments response, or none where it could not be read.
    pub fn handle_payments_response<F, T>(
        &self,
        data: RouterData<F, T, PaymentsResponseData>,
        parsed: Option<NatsBridgePaymentsResponse>,
        status_code: u16,
    ) -> (r: Result<RouterData<F, T, PaymentsResponseData>, ConnectorError>)
        ensures
            match parsed {
                None => r matches Err(ConnectorError::ResponseDeserializationFailed),
                Some(resp) => r matches Ok(d) && {
                    &&& same_operation(d, data)
                    &&& d.status == attempt_status_for(resp.status)
                    &&& payments_result_matches(d.response, resp, status_code)
                },
            },
    {
        match parsed {
            None => Err(ConnectorError::ResponseDeserializationFailed),
            Some(response) => RouterData::<F, T, PaymentsResponseData>::try_from(
                ResponseRouterData { response, data, http_code: status_code },
            ),
        }
    }

    /// Records a worker's reply to a refund; `parsed` is the reply read as a
    /// refund response, or none where it could not be read.
    pub fn handle_refund_execute_response(
        &self,
        data: RefundsRouterData<Execute>,
        parsed: Option<RefundResponse>,
        status_code: u16,
    ) -> (r: Result<RefundsRouterData<Execute>, ConnectorError>)
        ensures
            match parsed {
                None => r matches Err(ConnectorError::ResponseDeserializationFailed),
                Some(resp) => r matches Ok(d) && {
                    &&& same_operation(d, data)
                    &&& d.status == data.status
                    &&& refund_result_matches(d.response, resp, status_code, "Refund failed"@)
                },
            },
    {
        match parsed {
            None => Err(ConnectorError::ResponseDeserializationFailed),
            Some(response) => RouterData::<Execute, RefundsData, RefundsResponseData>::try_from(
                ResponseRouterData { response, data, http_code: status_code },
            ),
        }
    }

    /// Records a worker's reply to a refund status query; `parsed` is the
    /// reply read as a refund response, or none where it could not be read.
    pub fn handle_refund_sync_response(
        &self,
        data: RefundSyncRouterData,
        parsed: Option<RefundResponse>,
        status_code: u16,
    ) -> (r: Result<RefundSyncRouterData, ConnectorError>)
        ensures
            match parsed {
                None => r matches Err(ConnectorError::ResponseDeserializationFailed),
                Some(resp) => r matches Ok(d) && {
                    &&& same_operation(d, data)
                    &&& d.status == data.status
                    &&& refund_result_matches(d.response, resp, status_code, "Refund sync failed"@)
                },
            },
    {
        match parsed {
            None => Err(ConnectorError::ResponseDeserializationFailed),
            Some(response) => RouterData::<RSync, RefundsData, RefundsResponseData>::try_from(
                ResponseRouterData { response, data, http_code: status_code },
            ),
        }
    }

    /// The router's error for a worker's error reply answered with HTTP code
    /// `status_code`; `parsed` is the reply read as an error response, or
    /// none where it could not be read.
    pub fn build_error_response(&self, parsed: Option<NatsBridgeErrorResponse>, status_code: u16) -> (r:
        Result<ErrorResponse, ConnectorError>)
        ensures
            match parsed {
                None => r matches Err(ConnectorError::ResponseDeserializationFailed),
                Some(resp) => r matches Ok(e) && {
                    &&& e.status_code == status_code
                    &&& e.code == resp.code
                    &&& e.message == resp.message
                    &&& e.reason == resp.reason
                    &&& e.attempt_status is None
                    &&& e.connector_transaction_id is None
                    &&& e.connector_metadata is None
                    &&& e.network_advice_code is None
                    &&& e.network_decline_code is None
                    &&& e.network_error_message is None
                },
            },
    {
        match parsed {
            None => Err(ConnectorError::ResponseDeserializationFailed),
            Some(response) => Ok(
                ErrorResponse {
                    status_code,
                    code: response.code,
                    message: response.message,
                    reason: response.reason,
                    attempt_status: None,
                    connector_transaction_id: None,
                    connector_metadata: None,
                    network_advice_code: None,
                    network_decline_code: None,
                    network_error_message: None,
                },
            ),
        }
    }
}

/// The card networks the bridge accepts.
pub open spec fn bridge_card_networks() -> Seq<CardNetwork> {
    seq![CardNetwork::Visa, CardNetwork::Mastercard, CardNetwork::AmericanExpress, CardNetwork::Discover]
}

/// What the bridge supports for a card payment method type: no mandates,
/// refunds, automatic and manual capture, with and without 3DS, on the
/// bridge's card networks.
pub open spec fn card_details(d: PaymentMethodDetails) -> bool {
    &&& d.mandates == FeatureStatus::NotSupported
    &&& d.refunds == FeatureStatus::Supported
    &&& d.supported_capture_methods@ == seq![CaptureMethod::Automatic, CaptureMethod::Manual]
    &&& d.specific_features matches Some(f) && {
        &&& f.three_ds == FeatureStatus::Supported
        &&& f.no_three_ds == FeatureStatus::Supported
        &&& f.supported_card_networks@ == bridge_card_networks()
    }
}

/// The details of a card payment method type.
fn card_method_details() -> (d: PaymentMethodDetails)
    ensures
        card_details(d),
{
    let mut networks: Vec<CardNetwork> = Vec::new();
    networks.push(CardNetwork::Visa);
    networks.push(CardNetwork::Mastercard);
    networks.push(CardNetwork::AmericanExpress);
    networks.push(CardNetwork::Discover);
    let mut capture: Vec<CaptureMethod> = Vec::new();
    capture.push(CaptureMethod::Automatic);
    capture.push(CaptureMethod::Manual);
    let d = PaymentMethodDetails {
        mandates: FeatureStatus::NotSupported,
        refunds: FeatureStatus::Supported,
        supported_capture_methods: capture,
        specific_features: Some(
            CardSpecificFeatures {
                three_ds: FeatureStatus::Supported,
                no_three_ds: FeatureStatus::Supported,
                supported_card_networks: networks,
            },
        ),
    };
    assert(d.supported_capture_methods@ =~= seq![CaptureMethod::Automatic, CaptureMethod::Manual]);
    assert(d.specific_features.unwrap().supported_card_networks@ =~= bridge_card_networks());
    d
}

impl NatsBridge {
    /// The connector's name.
    pub fn id(&self) -> (r: &'static str)
        ensures
            r@ == "nats_bridge"@,
    {
        "nats_bridge"
    }

    /// The workers receive amounts in minor units.
    pub fn get_currency_unit(&self) -> (r: CurrencyUnit)
        ensures
            r == CurrencyUnit::Minor,
    {
        CurrencyUnit::Minor
    }

    /// Message bodies are JSON.
    pub fn common_get_content_type(&self) -> (r: &'static str)
        ensures
            r@ == "application/json"@,
    {
        "application/json"
    }

    /// No HTTP headers: NATS messages carry their own.
    pub fn build_headers<F, Req, Resp>(&self, req: &RouterData<F, Req, Resp>, connectors: &Connectors) -> (r:
        Result<Vec<(String, String)>, ConnectorError>)
        ensures
            r matches Ok(v) && v@.len() == 0,
    {
        Ok(Vec::new())
    }

    /// No authentication headers: NATS authenticates the connection.
    pub fn get_auth_header(&self, auth_type: &ConnectorAuthType) -> (r: Result<
        Vec<(String, String)>,
        ConnectorError,
    >)
        ensures
            r matches Ok(v) && v@.len() == 0,
    {
        Ok(Vec::new())
    }

    /// Every payment status query is accepted as it is.
    pub fn validate_psync_reference_id(
        &self,
        data: &PaymentsSyncData,
        is_three_ds: bool,
        status: AttemptStatus,
        connector_meta_data: Option<Value>,
    ) -> (r: Result<(), ConnectorError>)
        ensures
            r is Ok,
    {
        Ok(())
    }

    /// Webhooks are not handled by the bridge.
    pub fn get_webhook_object_reference_id(&self, request: &IncomingWebhookRequestDetails) -> (r:
        Result<ObjectReferenceId, ConnectorError>)
        ensures
            r matches Err(ConnectorError::WebhooksNotImplemented),
    {
        Err(ConnectorError::WebhooksNotImplemented)
    }

    /// Webhooks are not handled by the bridge.
    pub fn get_webhook_event_type(&self, request: &IncomingWebhookRequestDetails) -> (r: Result<
        IncomingWebhookEvent,
        ConnectorError,
    >)
        ensures
            r matches Err(ConnectorError::WebhooksNotImplemented),
    {
        Err(ConnectorError::WebhooksNotImplemented)
    }

    /// Webhooks are not handled by the bridge.
    pub fn get_webhook_resource_object(&self, request: &IncomingWebhookRequestDetails) -> (r: Result<
        Value,
        ConnectorError,
    >)
        ensures
            r matches Err(ConnectorError::WebhooksNotImplemented),
    {
        Err(ConnectorError::WebhooksNotImplemented)
    }

    /// How the bridge presents itself: an alpha payment gateway.
    pub fn get_connector_about(&self) -> (r: Option<ConnectorInfo>)
        ensures
            r matches Some(info) && {
                &&& info.display_name@ == "NATS Bridge"@
                &&& info.description@
                    == "NATS message bus bridge for delegating payment operations to external workers"@
                &&& info.connector_type == HyperswitchConnectorCategory::PaymentGateway
                &&& info.integration_status == ConnectorIntegrationStatus::Alpha
            },
    {
        Some(
            ConnectorInfo {
                display_name: "NATS Bridge",
                description: "NATS message bus bridge for delegating payment operations to external workers",
                connector_type: HyperswitchConnectorCategory::PaymentGateway,
                integration_status: ConnectorIntegrationStatus::Alpha,
            },
        )
    }

    /// The payment methods the bridge supports: credit and debit cards.
    pub fn get_supported_payment_methods(&self) -> (r: Option<Vec<SupportedPaymentMethod>>)
        ensures
            r matches Some(v) && v@.len() == 2 && {
                &&& v@[0].payment_method@ == "card"@
                &&& v@[0].payment_method_type@ == "credit"@
                &&& card_details(v@[0].details)
                &&& v@[1].payment_method@ == "card"@
                &&& v@[1].payment_method_type@ == "debit"@
                &&& card_details(v@[1].details)
            },
    {
        let mut supported: Vec<SupportedPaymentMethod> = Vec::new();
        supported.push(
            SupportedPaymentMethod {
                payment_method: "card".to_owned(),
                payment_method_type: "credit".to_owned(),
                details: card_method_details(),
            },
        );
        supported.push(
            SupportedPaymentMethod {
                payment_method: "card".to_owned(),
                payment_method_type: "debit".to_owned(),
                details: card_method_details(),
            },
        );
        Some(supported)
    }

    /// The bridge sends no webhooks.
    pub fn get_supported_webhook_flows(&self) -> (r: Option<Vec<EventClass>>)
        ensures
            r matches Some(v) && v@.len() == 0,
    {
        Some(Vec::new())
    }
}

} // verus!
