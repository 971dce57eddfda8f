//! The router's side of a payment or refund operation: the data the router
//! hands to the bridge, and the results the bridge hands back.

use crate::amount::MinorUnit;
use serde_json::Value;
use std::collections::HashMap;
use std::marker::PhantomData;
use vstd::prelude::*;

verus! {

#[verifier::external_type_specification]
#[verifier::external_body]
pub struct ExJsonValue(Value);

/// `serde_json::Value::clone`: a JSON value is plain data, and its clone is
/// the same value.
pub assume_specification[ <Value as Clone>::clone ](v: &Value) -> (r: Value)
    ensures
        r == *v,
;

/// Flow marker: authorize a payment.
pub struct Authorize;

/// Flow marker: complete an authorization after a redirect (3DS and the like).
pub struct CompleteAuthorize;

/// Flow marker: capture an authorized payment.
pub struct Capture;

/// Flow marker: void (cancel) a payment.
pub struct Void;

/// Flow marker: ask a worker for the status of a payment.
pub struct PSync;

/// Flow marker: execute a refund.
pub struct Execute;

/// Flow marker: ask a worker for the status of a refund.
pub struct RSync;

/// The status of a payment attempt, as the router tracks it.
#[derive(Clone, Copy, Debug, PartialEq, Eq, Structural)]
pub enum AttemptStatus {
    Started,
    AuthenticationFailed,
    RouterDeclined,
    AuthenticationPending,
    AuthenticationSuccessful,
    Authorized,
    AuthorizationFailed,
    Charged,
    Authorizing,
    CodInitiated,
    Voided,
    VoidInitiated,
    CaptureInitiated,
    CaptureFailed,
    VoidFailed,
    AutoRefunded,
    PartialCharged,
    PartialChargedAndChargeable,
    Unresolved,
    Pending,
    Failure,
    PaymentMethodAwaited,
    ConfirmationAwaited,
    DeviceDataCollectionPending,
    IntegrityFailure,
    Expired,
}

/// The status of a refund, as the router tracks it.
#[derive(Clone, Copy, Debug, PartialEq, Eq, Structural)]
pub enum RefundStatus {
    Failure,
    ManualReview,
    Pending,
    Success,
    TransactionFailure,
}

/// The HTTP-like method a bridged request is recorded with.
#[derive(Clone, Copy, Debug, PartialEq, Eq, Structural)]
pub enum Method {
    Get,
    Post,
    Put,
    Delete,
    Patch,
}

/// The method named by an upper-case string (`"GET"`, `"POST"`, ...), if any.
pub open spec fn method_named(s: Seq<char>) -> Option<Method> {
    if s == seq!['G', 'E', 'T'] {
        Some(Method::Get)
    } else if s == seq!['P', 'O', 'S', 'T'] {
        Some(Method::Post)
    } else if s == seq!['P', 'U', 'T'] {
        Some(Method::Put)
    } else if s == seq!['D', 'E', 'L', 'E', 'T', 'E'] {
        Some(Method::Delete)
    } else if s == seq!['P', 'A', 'T', 'C', 'H'] {
        Some(Method::Patch)
    } else {
        None
    }
}

/// The errors the bridge reports to the router.
#[derive(Debug)]
pub enum ConnectorError {
    FailedToObtainAuthType,
    MissingRequiredField { field_name: String },
    MissingConnectorTransactionID,
    RequestEncodingFailed,
    ResponseDeserializationFailed,
    ProcessingStepFailed(Option<Vec<u8>>),
    WebhooksNotImplemented,
}

/// The `MissingRequiredField` error for the field `name`.
pub open spec fn is_missing_field(e: ConnectorError, name: Seq<char>) -> bool {
    e matches ConnectorError::MissingRequiredField { field_name } && field_name@ == name
}

/// The `ProcessingStepFailed` error whose detail is the text `msg`.
pub open spec fn is_step_failure(e: ConnectorError, msg: Seq<char>) -> bool {
    e matches ConnectorError::ProcessingStepFailed(Some(detail)) && detail@
        == vstd::utf8::encode_utf8(msg)
}

/// The `ProcessingStepFailed` error whose detail is the UTF-8 text `msg`.
pub fn step_failure(msg: &str) -> (e: ConnectorError)
    ensures
        is_step_failure(e, msg@),
{
    ConnectorError::ProcessingStepFailed(Some(msg.as_bytes_vec()))
}

/// How the router identifies a payment at the processor.
#[derive(Debug)]
pub enum ResponseId {
    ConnectorTransactionId(String),
    EncodedData(String),
    NoResponseId,
}

/// The credentials configured for a connector account.
pub enum ConnectorAuthType {
    TemporaryAuth,
    HeaderKey { api_key: String },
    BodyKey { api_key: String, key1: String },
    SignatureKey { api_key: String, key1: String, api_secret: String },
    MultiAuthKey { api_key: String, key1: String, api_secret: String, key2: String },
    CertificateAuth { certificate: String, private_key: String },
    NoKey,
}

/// A redirect the customer has to follow (a page to render, or a form to post).
pub enum RedirectForm {
    Html { html_data: String },
    Form { endpoint: String, method: Method, form_fields: HashMap<String, String> },
}

/// What a processor answered to a payment operation.
pub enum PaymentsResponseData {
    TransactionResponse {
        resource_id: ResponseId,
        redirection_data: Option<RedirectForm>,
        connector_metadata: Option<Value>,
        network_txn_id: Option<String>,
        connector_response_reference_id: Option<String>,
        incremental_authorization_allowed: Option<bool>,
    },
}

/// What a processor answered to a refund operation.
pub struct RefundsResponseData {
    pub connector_refund_id: String,
    pub refund_status: RefundStatus,
}

/// A failure reported by the processor (or on its behalf).
pub struct ErrorResponse {
    pub code: String,
    pub message: String,
    pub reason: Option<String>,
    pub status_code: u16,
    pub attempt_status: Option<AttemptStatus>,
    pub connector_transaction_id: Option<String>,
    pub connector_metadata: Option<Value>,
    pub network_advice_code: Option<String>,
    pub network_decline_code: Option<String>,
    pub network_error_message: Option<String>,
}

/// The router's record of one operation of flow `F` on a payment: who and
/// what it is about, the request data, and the result so far.
pub struct RouterData<F, Req, Resp> {
    pub flow: PhantomData<F>,
    pub merchant_id: String,
    pub payment_id: String,
    pub attempt_id: String,
    pub connector_request_reference_id: String,
    pub status: AttemptStatus,
    pub request: Req,
    pub response: Result<Resp, ErrorResponse>,
}

/// A worker's reply, parsed, together with the operation it answers.
pub struct ResponseRouterData<F, R, Req, Resp> {
    pub response: R,
    pub data: RouterData<F, Req, Resp>,
    pub http_code: u16,
}

/// The request data of an authorization.
pub struct PaymentsAuthorizeData {
    pub minor_amount: MinorUnit,
    pub currency: String,
    /// The payment method that `payment_method_data` belongs to, where it
    /// belongs to one.
    pub payment_method: Option<String>,
    pub payment_method_data: Value,
    pub payment_method_type: Option<String>,
    pub router_return_url: Option<String>,
    pub webhook_url: Option<String>,
    pub browser_info: Option<Value>,
    pub statement_descriptor: Option<String>,
}

/// What the customer's browser brought back from a redirect.
pub struct CompleteAuthorizeRedirectResponse {
    pub params: Option<String>,
    pub payload: Option<Value>,
}

/// The request data of an authorization completion.
pub struct CompleteAuthorizeData {
    pub amount: i64,
    pub currency: String,
    pub payment_method_data: Option<Value>,
    pub connector_transaction_id: Option<String>,
    pub redirect_response: Option<CompleteAuthorizeRedirectResponse>,
}

/// The request data of a capture.
pub struct PaymentsCaptureData {
    pub minor_amount_to_capture: MinorUnit,
    pub currency: String,
    pub connector_transaction_id: String,
}

/// The request data of a void.
pub struct PaymentsCancelData {
    pub connector_transaction_id: String,
    pub cancellation_reason: Option<String>,
    pub minor_amount: Option<MinorUnit>,
    pub currency: Option<String>,
}

/// The request data of a payment status query.
pub struct PaymentsSyncData {
    pub connector_transaction_id: ResponseId,
    pub encoded_data: Option<String>,
    pub connector_meta: Option<Value>,
}

/// The request data of a refund or refund status query.
pub struct RefundsData {
    pub refund_id: String,
    pub connector_transaction_id: String,
    pub connector_refund_id: Option<String>,
    pub minor_refund_amount: MinorUnit,
    pub currency: String,
    pub reason: Option<String>,
    pub webhook_url: Option<String>,
}

pub type PaymentsAuthorizeRouterData = RouterData<
    Authorize,
    PaymentsAuthorizeData,
    PaymentsResponseData,
>;

pub type PaymentsCompleteAuthorizeRouterData = RouterData<
    CompleteAuthorize,
    CompleteAuthorizeData,
    PaymentsResponseData,
>;

pub type PaymentsCaptureRouterData = RouterData<Capture, PaymentsCaptureData, PaymentsResponseData>;

pub type PaymentsCancelRouterData = RouterData<Void, PaymentsCancelData, PaymentsResponseData>;

pub type PaymentsSyncRouterData = RouterData<PSync, PaymentsSyncData, PaymentsResponseData>;

pub type RefundsRouterData<F> = RouterData<F, RefundsData, RefundsResponseData>;

pub type RefundSyncRouterData = RouterData<RSync, RefundsData, RefundsResponseData>;

/// A copy of an optional string.
pub fn clone_opt_string(s: &Option<String>) -> (r: Option<String>)
    ensures
        r == *s,
{
    match s {
        Some(v) => Some(v.clone()),
        None => None,
    }
}

/// A copy of an optional JSON value.
pub fn clone_opt_json(v: &Option<Value>) -> (r: Option<Value>)
    ensures
        r == *v,
{
    match v {
        Some(x) => Some(x.clone()),
        None => None,
    }
}

/// The unit the router expresses amounts in for a connector.
#[derive(Clone, Copy, Debug, PartialEq, Eq, Structural)]
pub enum CurrencyUnit {
    Base,
    Minor,
}

/// What an incoming webhook is about.
pub enum ObjectReferenceId {
    PaymentId(String),
    RefundId(String),
}

/// The kind of event an incoming webhook reports.
#[derive(Clone, Copy, Debug, PartialEq, Eq, Structural)]
pub enum IncomingWebhookEvent {
    PaymentIntentSuccess,
    PaymentIntentFailure,
    RefundSuccess,
    RefundFailure,
    EventNotSupported,
}

/// An incoming webhook as received.
pub struct IncomingWebhookRequestDetails {
    pub headers: Vec<(String, String)>,
    pub body: Vec<u8>,
}

/// A class of events a connector can send webhooks for.
#[derive(Clone, Copy, Debug, PartialEq, Eq, Structural)]
pub enum EventClass {
    Payments,
    Refunds,
    Disputes,
    Mandates,
    Payouts,
}

/// Whether a connector supports a feature.
#[derive(Clone, Copy, Debug, PartialEq, Eq, Structural)]
pub enum FeatureStatus {
    NotSupported,
    Supported,
}

/// When a payment is captured.
#[derive(Clone, Copy, Debug, PartialEq, Eq, Structural)]
pub enum CaptureMethod {
    Automatic,
    Manual,
    ManualMultiple,
    Scheduled,
    SequentialAutomatic,
}

/// A card network.
#[derive(Clone, Copy, Debug, PartialEq, Eq, Structural)]
pub enum CardNetwork {
    Visa,
    Mastercard,
    AmericanExpress,
    JCB,
    DinersClub,
    Discover,
    CartesBancaires,
    UnionPay,
    Interac,
    RuPay,
    Maestro,
}

/// The card-specific features of a payment method.
pub struct CardSpecificFeatures {
    pub three_ds: FeatureStatus,
    pub no_three_ds: FeatureStatus,
    pub supported_card_networks: Vec<CardNetwork>,
}

/// What a connector supports for one payment method type.
pub struct PaymentMethodDetails {
    pub mandates: FeatureStatus,
    pub refunds: FeatureStatus,
    pub supported_capture_methods: Vec<CaptureMethod>,
    pub specific_features: Option<CardSpecificFeatures>,
}

/// One supported payment method type of a connector.
pub struct SupportedPaymentMethod {
    pub payment_method: String,
    pub payment_method_type: String,
    pub details: PaymentMethodDetails,
}

/// The category of a connector.
#[derive(Clone, Copy, Debug, PartialEq, Eq, Structural)]
pub enum HyperswitchConnectorCategory {
    PaymentGateway,
    AlternativePaymentMethod,
    BankAcquirer,
    PayoutProcessor,
    AuthenticationProvider,
    FraudAndRiskManagementProvider,
    TaxCalculationProvider,
    RevenueGrowthManagementPlatform,
}

/// How far a connector's integration has come.
#[derive(Clone, Copy, Debug, PartialEq, Eq, Structural)]
pub enum ConnectorIntegrationStatus {
    Live,
    Sandbox,
    Beta,
    Alpha,
}

/// How a connector presents itself.
pub struct ConnectorInfo {
    pub display_name: &'static str,
    pub description: &'static str,
    pub connector_type: HyperswitchConnectorCategory,
    pub integration_status: ConnectorIntegrationStatus,
}

} // verus!
