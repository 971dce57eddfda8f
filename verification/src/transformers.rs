//! The messages exchanged with the workers: the requests the bridge sends for
//! each operation, the replies it expects, and how a reply becomes the
//! router's result.

use crate::amount::StringMinorUnit;
use crate::domain::{
    clone_opt_json, clone_opt_string, is_missing_field, method_named, AttemptStatus,
    CompleteAuthorizeData, CompleteAuthorizeRedirectResponse, ConnectorAuthType, ConnectorError,
    ErrorResponse, Execute, Method, PaymentsAuthorizeData, PaymentsAuthorizeRouterData,
    PaymentsCancelData, PaymentsCancelRouterData, PaymentsCaptureData, PaymentsCaptureRouterData,
    PaymentsCompleteAuthorizeRouterData, PaymentsResponseData, PaymentsSyncData,
    PaymentsSyncRouterData, RSync, RedirectForm, RefundStatus, RefundsData, RefundsResponseData,
    RefundsRouterData, ResponseId, ResponseRouterData, RouterData,
};
use serde_json::Value;
use std::collections::HashMap;
use vstd::prelude::*;

verus! {

/// An operation's router data together with its amount, already in the form
/// the workers receive.
pub struct NatsBridgeRouterData<T> {
    pub amount: StringMinorUnit,
    pub router_data: T,
}

impl<T> From<(StringMinorUnit, T)> for NatsBridgeRouterData<T> {
    fn from(parts: (StringMinorUnit, T)) -> (r: Self) {
        let (amount, router_data) = parts;
        NatsBridgeRouterData { amount, router_data }
    }
}

impl<T> vstd::std_specs::convert::FromSpecImpl<(StringMinorUnit, T)> for NatsBridgeRouterData<T> {
    open spec fn obeys_from_spec() -> bool {
        true
    }

    open spec fn from_spec(v: (StringMinorUnit, T)) -> Self {
        NatsBridgeRouterData { amount: v.0, router_data: v.1 }
    }
}

/// The credentials of a bridge account: one API key.
pub struct NatsBridgeAuthType {
    pub api_key: String,
}

impl NatsBridgeAuthType {
    /// Reads the bridge credentials; only a header key is accepted.
    pub fn try_from(auth_type: &ConnectorAuthType) -> (r: Result<Self, ConnectorError>)
        ensures
            match *auth_type {
                ConnectorAuthType::HeaderKey { api_key } => r matches Ok(a) && a.api_key == api_key,
                _ => r matches Err(ConnectorError::FailedToObtainAuthType),
            },
    {
        match auth_type {
            ConnectorAuthType::HeaderKey { api_key } => Ok(NatsBridgeAuthType { api_key: api_key.clone() }),
            _ => Err(ConnectorError::FailedToObtainAuthType),
        }
    }
}

/// The body of every message to the workers: the operation's request, with
/// the merchant, payment, attempt and correlation ids it belongs to.
pub struct NatsMessageEnvelope<T> {
    pub merchant_id: String,
    pub payment_id: Option<String>,
    pub attempt_id: Option<String>,
    pub correlation_id: String,
    pub router_data: T,
}

/// The text of an optional string, or `default` where there is none.
pub open spec fn text_or(s: Option<String>, default: Seq<char>) -> Seq<char> {
    match s {
        Some(v) => v@,
        None => default,
    }
}

/// An authorization request for the workers.
pub struct NatsBridgePaymentsRequest {
    pub amount: String,
    pub currency: String,
    pub payment_method: String,
    pub payment_method_type: Option<String>,
    pub payment_method_data: Value,
    pub return_url: Option<String>,
    pub webhook_url: Option<String>,
    pub browser_info: Option<Value>,
    pub statement_descriptor: Option<String>,
    pub metadata: Option<HashMap<String, String>>,
}

impl NatsBridgePaymentsRequest {
    /// What an authorization request carries for the amount text `amount`
    /// and the request data `req`.
    pub open spec fn describes(self, amount: Seq<char>, req: PaymentsAuthorizeData) -> bool {
        &&& self.amount@ == amount
        &&& self.currency == req.currency
        &&& Some(self.payment_method) == req.payment_method
        &&& self.payment_method_type == req.payment_method_type
        &&& self.payment_method_data == req.payment_method_data
        &&& self.return_url == req.router_return_url
        &&& self.webhook_url == req.webhook_url
        &&& self.browser_info == req.browser_info
        &&& self.statement_descriptor == req.statement_descriptor
        &&& self.metadata is None
    }

    /// Builds the authorization request; the payment method is required.
    pub fn try_from(item: &NatsBridgeRouterData<&PaymentsAuthorizeRouterData>) -> (r: Result<
        Self,
        ConnectorError,
    >)
        ensures
            match r {
                Ok(q) => q.describes(item.amount@, item.router_data.request),
                Err(e) => item.router_data.request.payment_method is None && is_missing_field(
                    e,
                    "payment_method"@,
                ),
            },
    {
        let router_data = item.router_data;
        let request = &router_data.request;
        let payment_method = match &request.payment_method {
            Some(pm) => pm.clone(),
            None => {
                return Err(
                    ConnectorError::MissingRequiredField { field_name: "payment_method".to_owned() },
                );
            },
        };
        Ok(NatsBridgePaymentsRequest {
            amount: item.amount.to_string(),
            currency: request.currency.clone(),
            payment_method,
            payment_method_type: clone_opt_string(&request.payment_method_type),
            payment_method_data: request.payment_method_data.clone(),
            return_url: clone_opt_string(&request.router_return_url),
            webhook_url: clone_opt_string(&request.webhook_url),
            browser_info: clone_opt_json(&request.browser_info),
            statement_descriptor: clone_opt_string(&request.statement_descriptor),
            metadata: None,
        })
    }
}

/// A request to complete an authorization after a redirect.
pub struct NatsBridgeCompleteAuthorizeRequest {
    pub amount: String,
    pub currency: String,
    pub payment_method_data: Option<Value>,
    pub connector_transaction_id: Option<String>,
    pub redirect_params: Option<String>,
    pub redirect_payload: Option<Value>,
}

/// The redirect parameters the customer's browser brought back, if any.
pub open spec fn redirect_params_of(rr: Option<CompleteAuthorizeRedirectResponse>) -> Option<String> {
    match rr {
        Some(r) => r.params,
        None => None,
    }
}

/// The redirect payload the customer's browser brought back, if any.
pub open spec fn redirect_payload_of(rr: Option<CompleteAuthorizeRedirectResponse>) -> Option<Value> {
    match rr {
        Some(r) => r.payload,
        None => None,
    }
}

impl NatsBridgeCompleteAuthorizeRequest {
    /// What a completion request carries for the amount text `amount` and
    /// the request data `req`.
    pub open spec fn describes(self, amount: Seq<char>, req: CompleteAuthorizeData) -> bool {
        &&& self.amount@ == amount
        &&& self.currency == req.currency
        &&& self.payment_method_data == req.payment_method_data
        &&& self.connector_transaction_id == req.connector_transaction_id
        &&& self.redirect_params == redirect_params_of(req.redirect_response)
        &&& self.redirect_payload == redirect_payload_of(req.redirect_response)
    }

    /// Builds the completion request; it cannot fail.
    pub fn try_from(item: &NatsBridgeRouterData<&PaymentsCompleteAuthorizeRouterData>) -> (r:
        Result<Self, ConnectorError>)
        ensures
            r matches Ok(q) && q.describes(item.amount@, item.router_data.request),
    {
        let request = &item.router_data.request;
        let (redirect_params, redirect_payload) = match &request.redirect_response {
            Some(rr) => (clone_opt_string(&rr.params), clone_opt_json(&rr.payload)),
            None => (None, None),
        };
        Ok(NatsBridgeCompleteAuthorizeRequest {
            amount: item.amount.to_string(),
            currency: request.currency.clone(),
            payment_method_data: clone_opt_json(&request.payment_method_data),
            connector_transaction_id: clone_opt_string(&request.connector_transaction_id),
            redirect_params,
            redirect_payload,
        })
    }
}

/// A capture request.
pub struct NatsBridgeCaptureRequest {
    pub amount_to_capture: String,
    pub currency: String,
    pub connector_transaction_id: String,
}

impl NatsBridgeCaptureRequest {
    /// What a capture request carries for the amount text `amount` and the
    /// request data `req`.
    pub open spec fn describes(self, amount: Seq<char>, req: PaymentsCaptureData) -> bool {
        &&& self.amount_to_capture@ == amount
        &&& self.currency == req.currency
        &&& self.connector_transaction_id == req.connector_transaction_id
    }

    /// Builds the capture request; it cannot fail.
    pub fn try_from(item: &NatsBridgeRouterData<&PaymentsCaptureRouterData>) -> (r: Result<
        Self,
        ConnectorError,
    >)
        ensures
            r matches Ok(q) && q.describes(item.amount@, item.router_data.request),
    {
        let request = &item.router_data.request;
        Ok(NatsBridgeCaptureRequest {
            amount_to_capture: item.amount.to_string(),
            currency: request.currency.clone(),
            connector_transaction_id: request.connector_transaction_id.clone(),
        })
    }
}

/// A void (cancellation) request.
pub struct NatsBridgeVoidRequest {
    pub connector_transaction_id: String,
    pub cancellation_reason: Option<String>,
    pub amount: Option<String>,
    pub currency: Option<String>,
}

impl NatsBridgeVoidRequest {
    /// What a void request carries for the amount text `amount` and the
    /// request data `req`.
    pub open spec fn describes(self, amount: Seq<char>, req: PaymentsCancelData) -> bool {
        &&& self.connector_transaction_id == req.connector_transaction_id
        &&& self.cancellation_reason == req.cancellation_reason
        &&& self.amount matches Some(a) && a@ == amount
        &&& self.currency == req.currency
    }

    /// Builds the void request; it cannot fail.
    pub fn try_from(item: &NatsBridgeRouterData<&PaymentsCancelRouterData>) -> (r: Result<
        Self,
        ConnectorError,
    >)
        ensures
            r matches Ok(q) && q.describes(item.amount@, item.router_data.request),
    {
        let request = &item.router_data.request;
        Ok(NatsBridgeVoidRequest {
            connector_transaction_id: request.connector_transaction_id.clone(),
            cancellation_reason: clone_opt_string(&request.cancellation_reason),
            amount: Some(item.amount.to_string()),
            currency: clone_opt_string(&request.currency),
        })
    }
}

/// A payment status query.
pub struct NatsBridgeSyncRequest {
    pub connector_transaction_id: Option<String>,
    pub encoded_data: Option<String>,
    pub connector_meta: Option<Value>,
}

/// The processor's transaction id, where the payment is identified by one.
pub open spec fn transaction_id_of(id: ResponseId) -> Option<String> {
    match id {
        ResponseId::ConnectorTransactionId(t) => Some(t),
        _ => None,
    }
}

impl NatsBridgeSyncRequest {
    /// What a status query carries for the request data `req`.
    pub open spec fn describes(self, req: PaymentsSyncData) -> bool {
        &&& self.connector_transaction_id == transaction_id_of(req.connector_transaction_id)
        &&& self.encoded_data == req.encoded_data
        &&& self.connector_meta == req.connector_meta
    }

    /// Builds the status query; it cannot fail.
    pub fn try_from(router_data: &PaymentsSyncRouterData) -> (r: Result<Self, ConnectorError>)
        ensures
            r matches Ok(q) && q.describes(router_data.request),
    {
        let request = &router_data.request;
        let connector_transaction_id = match &request.connector_transaction_id {
            ResponseId::ConnectorTransactionId(t) => Some(t.clone()),
            _ => None,
        };
        Ok(NatsBridgeSyncRequest {
            connector_transaction_id,
            encoded_data: clone_opt_string(&request.encoded_data),
            connector_meta: clone_opt_json(&request.connector_meta),
        })
    }
}

/// The status a worker reports for a payment operation.
#[derive(Clone, Copy, Debug, PartialEq, Eq, Structural)]
pub enum NatsPaymentStatus {
    Succeeded,
    Failed,
    Processing,
    RequiresCustomerAction,
    RequiresMerchantAction,
    RequiresPaymentMethod,
    Cancelled,
}

/// The router's attempt status for a worker's payment status.
pub open spec fn attempt_status_for(s: NatsPaymentStatus) -> AttemptStatus {
    match s {
        NatsPaymentStatus::Succeeded => AttemptStatus::Charged,
        NatsPaymentStatus::Failed => AttemptStatus::Failure,
        NatsPaymentStatus::Processing => AttemptStatus::Authorizing,
        NatsPaymentStatus::RequiresCustomerAction => AttemptStatus::AuthenticationPending,
        NatsPaymentStatus::RequiresMerchantAction => AttemptStatus::Pending,
        NatsPaymentStatus::RequiresPaymentMethod => AttemptStatus::PaymentMethodAwaited,
        NatsPaymentStatus::Cancelled => AttemptStatus::Voided,
    }
}

/// Maps a worker's payment status to the router's attempt status.
pub fn attempt_status_from(s: NatsPaymentStatus) -> (r: AttemptStatus)
    ensures
        r == attempt_status_for(s),
{
    match s {
        NatsPaymentStatus::Succeeded => AttemptStatus::Charged,
        NatsPaymentStatus::Failed => AttemptStatus::Failure,
        NatsPaymentStatus::Processing => AttemptStatus::Authorizing,
        NatsPaymentStatus::RequiresCustomerAction => AttemptStatus::AuthenticationPending,
        NatsPaymentStatus::RequiresMerchantAction => AttemptStatus::Pending,
        NatsPaymentStatus::RequiresPaymentMethod => AttemptStatus::PaymentMethodAwaited,
        NatsPaymentStatus::Cancelled => AttemptStatus::Voided,
    }
}

/// A redirect a worker asks the customer to follow.
pub enum NatsRedirectForm {
    Html { html_data: String },
    Form { endpoint: String, method: String, form_fields: HashMap<String, String> },
}

/// The router's redirect for a worker's redirect; a form whose method is not
/// one of `GET`, `POST`, `PUT`, `DELETE`, `PATCH` gives none.
pub open spec fn redirect_form_for(form: NatsRedirectForm) -> Option<RedirectForm> {
    match form {
        NatsRedirectForm::Html { html_data } => Some(RedirectForm::Html { html_data }),
        NatsRedirectForm::Form { endpoint, method, form_fields } => match method_named(method@) {
            Some(m) => Some(RedirectForm::Form { endpoint, method: m, form_fields }),
            None => None,
        },
    }
}

/// Reads an upper-case method name.
pub fn parse_method(s: &String) -> (r: Option<Method>)
    ensures
        r == method_named(s@),
{
    let get = "GET".to_owned();
    let post = "POST".to_owned();
    let put = "PUT".to_owned();
    let delete = "DELETE".to_owned();
    let patch = "PATCH".to_owned();
    proof {
        reveal_strlit("GET");
        reveal_strlit("POST");
        reveal_strlit("PUT");
        reveal_strlit("DELETE");
        reveal_strlit("PATCH");
        assert(get@ =~= seq!['G', 'E', 'T']);
        assert(post@ =~= seq!['P', 'O', 'S', 'T']);
        assert(put@ =~= seq!['P', 'U', 'T']);
        assert(delete@ =~= seq!['D', 'E', 'L', 'E', 'T', 'E']);
        assert(patch@ =~= seq!['P', 'A', 'T', 'C', 'H']);
    }
    if s.eq(&get) {
        Some(Method::Get)
    } else if s.eq(&post) {
        Some(Method::Post)
    } else if s.eq(&put) {
        Some(Method::Put)
    } else if s.eq(&delete) {
        Some(Method::Delete)
    } else if s.eq(&patch) {
        Some(Method::Patch)
    } else {
        None
    }
}

/// Turns a worker's redirect into the router's.
pub fn redirect_form_from(form: NatsRedirectForm) -> (r: Option<RedirectForm>)
    ensures
        r == redirect_form_for(form),
{
    match form {
        NatsRedirectForm::Html { html_data } => Some(RedirectForm::Html { html_data }),
        NatsRedirectForm::Form { endpoint, method, form_fields } => match parse_method(&method) {
            Some(m) => Some(RedirectForm::Form { endpoint, method: m, form_fields }),
            None => None,
        },
    }
}

/// A worker's reply to a payment operation.
pub struct NatsBridgePaymentsResponse {
    pub status: NatsPaymentStatus,
    pub connector_transaction_id: Option<String>,
    pub redirect_form: Option<NatsRedirectForm>,
    pub connector_metadata: Option<Value>,
    pub network_txn_id: Option<String>,
    pub connector_response_reference_id: Option<String>,
    pub error_code: Option<String>,
    pub error_message: Option<String>,
    pub error_reason: Option<String>,
}

/// Two records of the same operation that differ at most in status and result.
pub open spec fn same_operation<F, T, R>(a: RouterData<F, T, R>, b: RouterData<F, T, R>) -> bool {
    &&& a.flow == b.flow
    &&& a.merchant_id == b.merchant_id
    &&& a.payment_id == b.payment_id
    &&& a.attempt_id == b.attempt_id
    &&& a.connector_request_reference_id == b.connector_request_reference_id
    &&& a.request == b.request
}

/// The router's result for a worker's payment reply answered with HTTP code
/// `http_code`: a failure where the worker reports `failed`, a transaction
/// response otherwise.
pub open spec fn payments_result_matches(
    result: Result<PaymentsResponseData, ErrorResponse>,
    resp: NatsBridgePaymentsResponse,
    http_code: u16,
) -> bool {
    if resp.status == NatsPaymentStatus::Failed {
        result matches Err(e) && {
            &&& e.code@ == text_or(resp.error_code, "UNKNOWN"@)
            &&& e.message@ == text_or(resp.error_message, "Payment failed"@)
            &&& e.reason == resp.error_reason
            &&& e.status_code == http_code
            &&& e.attempt_status == Some(AttemptStatus::Failure)
            &&& e.connector_transaction_id == resp.connector_transaction_id
            &&& e.connector_metadata is None
            &&& e.network_advice_code is None
            &&& e.network_decline_code is None
            &&& e.network_error_message is None
        }
    } else {
        result matches Ok(
            PaymentsResponseData::TransactionResponse {
                resource_id,
                redirection_data,
                connector_metadata,
                network_txn_id,
                connector_response_reference_id,
                incremental_authorization_allowed,
            },
        ) && {
            &&& resource_id matches ResponseId::ConnectorTransactionId(id) && id@ == text_or(
                resp.connector_transaction_id,
                Seq::empty(),
            )
            &&& redirection_data == match resp.redirect_form {
                Some(f) => redirect_form_for(f),
                None => None,
            }
            &&& connector_metadata == resp.connector_metadata
            &&& network_txn_id == resp.network_txn_id
            &&& connector_response_reference_id == resp.connector_response_reference_id
            &&& incremental_authorization_allowed is None
        }
    }
}

/// The text of an optional string, or the literal `default`.
fn string_or(s: Option<String>, default: &str) -> (r: String)
    ensures
        r@ == text_or(s, default@),
{
    match s {
        Some(v) => v,
        None => default.to_owned(),
    }
}

impl<F, T> RouterData<F, T, PaymentsResponseData> {
    /// Records a worker's payment reply: the attempt status follows the
    /// reported status, and a `failed` reply becomes an error result.
    pub fn try_from(item: ResponseRouterData<F, NatsBridgePaymentsResponse, T, PaymentsResponseData>) -> (r:
        Result<Self, ConnectorError>)
        ensures
            r matches Ok(d) && {
                &&& same_operation(d, item.data)
                &&& d.status == attempt_status_for(item.response.status)
                &&& payments_result_matches(d.response, item.response, item.http_code)
            },
    {
        let response = item.response;
        let data = item.data;
        let status = attempt_status_from(response.status);
        let failed = match response.status {
            NatsPaymentStatus::Failed => true,
            _ => false,
        };
        let router_response = if failed {
            Err(
                ErrorResponse {
                    code: string_or(response.error_code, "UNKNOWN"),
                    message: string_or(response.error_message, "Payment failed"),
                    reason: response.error_reason,
                    status_code: item.http_code,
                    attempt_status: Some(AttemptStatus::Failure),
                    connector_transaction_id: response.connector_transaction_id,
                    connector_metadata: None,
                    network_advice_code: None,
                    network_decline_code: None,
                    network_error_message: None,
                },
            )
        } else {
            let redirection_data = match response.redirect_form {
                Some(form) => redirect_form_from(form),
                None => None,
            };
            Ok(
                PaymentsResponseData::TransactionResponse {
                    resource_id: ResponseId::ConnectorTransactionId(
                        string_or(response.connector_transaction_id, ""),
                    ),
                    redirection_data,
                    connector_metadata: response.connector_metadata,
                    network_txn_id: response.network_txn_id,
                    connector_response_reference_id: response.connector_response_reference_id,
                    incremental_authorization_allowed: None,
                },
            )
        };
        proof {
            reveal_strlit("");
            assert(""@ =~= Seq::<char>::empty());
        }
        Ok(
            RouterData {
                flow: data.flow,
                merchant_id: data.merchant_id,
                payment_id: data.payment_id,
                attempt_id: data.attempt_id,
                connector_request_reference_id: data.connector_request_reference_id,
                status,
                request: data.request,
                response: router_response,
            },
        )
    }
}

/// A refund request.
pub struct NatsBridgeRefundRequest {
    pub refund_amount: String,
    pub currency: String,
    pub connector_transaction_id: String,
    pub refund_id: String,
    pub reason: Option<String>,
    pub webhook_url: Option<String>,
    pub metadata: Option<HashMap<String, String>>,
}

impl NatsBridgeRefundRequest {
    /// What a refund request carries for the amount text `amount` and the
    /// request data `req`.
    pub open spec fn describes(self, amount: Seq<char>, req: RefundsData) -> bool {
        &&& self.refund_amount@ == amount
        &&& self.currency == req.currency
        &&& self.connector_transaction_id == req.connector_transaction_id
        &&& self.refund_id == req.refund_id
        &&& self.reason == req.reason
        &&& self.webhook_url == req.webhook_url
        &&& self.metadata is None
    }

    /// Builds the refund request; it cannot fail.
    pub fn try_from<F>(item: &NatsBridgeRouterData<&RefundsRouterData<F>>) -> (r: Result<
        Self,
        ConnectorError,
    >)
        ensures
            r matches Ok(q) && q.describes(item.amount@, item.router_data.request),
    {
        let request = &item.router_data.request;
        Ok(NatsBridgeRefundRequest {
            refund_amount: item.amount.to_string(),
            currency: request.currency.clone(),
            connector_transaction_id: request.connector_transaction_id.clone(),
            refund_id: request.refund_id.clone(),
            reason: clone_opt_string(&request.reason),
            webhook_url: clone_opt_string(&request.webhook_url),
            metadata: None,
        })
    }
}

/// A worker's reply to a refund operation.
pub struct RefundResponse {
    pub refund_status: NatsRefundStatus,
    pub connector_refund_id: Option<String>,
    pub error_code: Option<String>,
    pub error_message: Option<String>,
}

/// The status a worker reports for a refund.
#[derive(Clone, Copy, Debug, PartialEq, Eq, Structural)]
pub enum NatsRefundStatus {
    Succeeded,
    Failed,
    Pending,
}

/// The router's refund status for a worker's refund status.
pub open spec fn refund_status_for(s: NatsRefundStatus) -> RefundStatus {
    match s {
        NatsRefundStatus::Succeeded => RefundStatus::Success,
        NatsRefundStatus::Failed => RefundStatus::Failure,
        NatsRefundStatus::Pending => RefundStatus::Pending,
    }
}

/// The router's refund result for a worker's refund reply answered with HTTP
/// code `http_code`, where a failure without a message reads `default_message`.
pub open spec fn refund_result_matches(
    result: Result<RefundsResponseData, ErrorResponse>,
    resp: RefundResponse,
    http_code: u16,
    default_message: Seq<char>,
) -> bool {
    if resp.refund_status == NatsRefundStatus::Failed {
        result matches Err(e) && {
            &&& e.code@ == text_or(resp.error_code, "UNKNOWN"@)
            &&& e.message@ == text_or(resp.error_message, default_message)
            &&& e.reason is None
            &&& e.status_code == http_code
            &&& e.attempt_status is None
            &&& e.connector_transaction_id is None
            &&& e.connector_metadata is None
            &&& e.network_advice_code is None
            &&& e.network_decline_code is None
            &&& e.network_error_message is None
        }
    } else {
        result matches Ok(r) && {
            &&& r.connector_refund_id@ == text_or(resp.connector_refund_id, Seq::empty())
            &&& r.refund_status == refund_status_for(resp.refund_status)
        }
    }
}

/// The refund result for a worker's refund reply.
fn refund_result(response: RefundResponse, http_code: u16, default_message: &str) -> (r: Result<
    RefundsResponseData,
    ErrorResponse,
>)
    ensures
        refund_result_matches(r, response, http_code, default_message@),
{
    proof {
        reveal_strlit("");
        assert(""@ =~= Seq::<char>::empty());
    }
    match response.refund_status {
        NatsRefundStatus::Failed => Err(
            ErrorResponse {
                code: string_or(response.error_code, "UNKNOWN"),
                message: string_or(response.error_message, default_message),
                reason: None,
                status_code: http_code,
                attempt_status: None,
                connector_transaction_id: None,
                connector_metadata: None,
                network_advice_code: None,
                network_decline_code: None,
                network_error_message: None,
            },
        ),
        NatsRefundStatus::Succeeded => Ok(
            RefundsResponseData {
                connector_refund_id: string_or(response.connector_refund_id, ""),
                refund_status: RefundStatus::Success,
            },
        ),
        NatsRefundStatus::Pending => Ok(
            RefundsResponseData {
                connector_refund_id: string_or(response.connector_refund_id, ""),
                refund_status: RefundStatus::Pending,
            },
        ),
    }
}

impl RouterData<Execute, RefundsData, RefundsResponseData> {
    /// Records a worker's reply to a refund; the status is left as it was.
    pub fn try_from(item: ResponseRouterData<Execute, RefundResponse, RefundsData, RefundsResponseData>) -> (r:
        Result<Self, ConnectorError>)
        ensures
            r matches Ok(d) && {
                &&& same_operation(d, item.data)
                &&& d.status == item.data.status
                &&& refund_result_matches(d.response, item.response, item.http_code, "Refund failed"@)
            },
    {
        let data = item.data;
        let response = refund_result(item.response, item.http_code, "Refund failed");
        Ok(
            RouterData {
                flow: data.flow,
                merchant_id: data.merchant_id,
                payment_id: data.payment_id,
                attempt_id: data.attempt_id,
                connector_request_reference_id: data.connector_request_reference_id,
                status: data.status,
                request: data.request,
                response,
            },
        )
    }
}

impl RouterData<RSync, RefundsData, RefundsResponseData> {
    /// Records a worker's reply to a refund status query; the status is left
    /// as it was.
    pub fn try_from(item: ResponseRouterData<RSync, RefundResponse, RefundsData, RefundsResponseData>) -> (r:
        Result<Self, ConnectorError>)
        ensures
            r matches Ok(d) && {
                &&& same_operation(d, item.data)
                &&& d.status == item.data.status
                &&& refund_result_matches(d.response, item.response, item.http_code, "Refund sync failed"@)
            },
    {
        let data = item.data;
        let response = refund_result(item.response, item.http_code, "Refund sync failed");
        Ok(
            RouterData {
                flow: data.flow,
                merchant_id: data.merchant_id,
                payment_id: data.payment_id,
                attempt_id: data.attempt_id,
                connector_request_reference_id: data.connector_request_reference_id,
                status: data.status,
                request: data.request,
                response,
            },
        )
    }
}

/// An error reply from a worker.
pub struct NatsBridgeErrorResponse {
    pub code: String,
    pub message: String,
    pub reason: Option<String>,
}

} // verus!
