//! What the bridge promises across its operations, proved from their contracts.

use crate::client_pool::{
    action_matches, event_expected, filter_captures, next_stage, payments_filter, refunds_filter,
    setup_step_matches, stream_is, streams_as_configured, NatsClientCache, PublishAction,
    PublishEvent, PublishStage, StreamSetupAction, StreamSpec, JETSTREAM_ACK_TIMEOUT_SECS,
};
use crate::connector::{
    dispatch_for, envelope_matches, exchange_kind, is_payment_operation, message_id,
    reply_timeout_secs, subject_text, Connectors, ExchangeKind, NatsDispatch, NatsOperation,
};
use crate::domain::{
    is_step_failure, AttemptStatus, CompleteAuthorizeData, ErrorResponse, Method,
    PaymentsAuthorizeData, PaymentsCancelData, PaymentsCaptureData, PaymentsResponseData,
    PaymentsSyncData, RefundsData, RedirectForm, RefundStatus, RefundsResponseData,
    ResponseId, RouterData,
};
use crate::headers::header_entries;
use async_nats::Client;
use crate::transformers::{
    attempt_status_for, payments_result_matches, redirect_form_for, refund_result_matches,
    NatsBridgeCaptureRequest, NatsBridgeCompleteAuthorizeRequest, NatsBridgePaymentsRequest,
    NatsBridgePaymentsResponse, NatsBridgeRefundRequest, NatsBridgeSyncRequest,
    NatsBridgeVoidRequest,
    NatsMessageEnvelope, NatsPaymentStatus, NatsRedirectForm, NatsRefundStatus, RefundResponse,
};
use vstd::prelude::*;

verus! {

/// The header names the bridge writes are pairwise different.
proof fn lemma_header_names_differ()
    ensures
        "X-Merchant-Id"@ != "X-Payment-Id"@,
        "X-Merchant-Id"@ != "X-Correlation-Id"@,
        "X-Merchant-Id"@ != "Nats-Msg-Id"@,
        "X-Payment-Id"@ != "X-Correlation-Id"@,
        "X-Payment-Id"@ != "Nats-Msg-Id"@,
        "X-Correlation-Id"@ != "Nats-Msg-Id"@,
{
    reveal_strlit("X-Merchant-Id");
    reveal_strlit("X-Payment-Id");
    reveal_strlit("X-Correlation-Id");
    reveal_strlit("Nats-Msg-Id");
    assert("X-Merchant-Id"@[2] != "X-Payment-Id"@[2]);
    assert("X-Merchant-Id"@[2] != "X-Correlation-Id"@[2]);
    assert("X-Merchant-Id"@[0] != "Nats-Msg-Id"@[0]);
    assert("X-Payment-Id"@[2] != "X-Correlation-Id"@[2]);
    assert("X-Payment-Id"@[0] != "Nats-Msg-Id"@[0]);
    assert("X-Correlation-Id"@[0] != "Nats-Msg-Id"@[0]);
}

/// Headers and body agree, for every operation: the `X-Merchant-Id`,
/// `X-Payment-Id` and `X-Correlation-Id` headers of a message carry exactly
/// the merchant, payment and correlation ids of its body, so a worker that
/// reads either finds the same operation.
pub proof fn lemma_headers_match_body<F, Req, Resp, T>(
    d: NatsDispatch<NatsMessageEnvelope<T>>,
    op: NatsOperation,
    rd: RouterData<F, Req, Resp>,
    connectors: Connectors,
)
    requires
        dispatch_for(d, op, rd, connectors),
        envelope_matches(d.payload, rd),
    ensures
        header_entries(d.headers)["X-Merchant-Id"@] == seq![d.payload.merchant_id@],
        d.payload.payment_id matches Some(p) && header_entries(d.headers)["X-Payment-Id"@] == seq![
            p@,
        ],
        header_entries(d.headers)["X-Correlation-Id"@] == seq![d.payload.correlation_id@],
{
    lemma_header_names_differ();
}

/// Financial operations are stored: authorize, complete, capture, void and
/// refund are published to JetStream, which has two seconds to take and
/// acknowledge the message, and answered on an inbox within twenty-eight
/// seconds more, thirty in all, each landing in the stream of its domain;
/// only the two status queries are plain requests, answered within five
/// seconds.
pub proof fn lemma_financial_operations_persisted(op: NatsOperation)
    ensures
        (exchange_kind(op) == ExchangeKind::RequestReply) == (op == NatsOperation::PaymentsSync
            || op == NatsOperation::RefundsSync),
        exchange_kind(op) == ExchangeKind::JetStreamWithInbox ==> reply_timeout_secs(op) == 28
            && JETSTREAM_ACK_TIMEOUT_SECS + reply_timeout_secs(op) == 30
            && filter_captures(
            if is_payment_operation(op) {
                payments_filter()
            } else {
                refunds_filter()
            },
            subject_text(op),
        ),
        exchange_kind(op) == ExchangeKind::RequestReply ==> reply_timeout_secs(op) == 5,
{
    lemma_operation_stream(op);
}

/// A worker's error fields count only when it reports `failed`: two payment
/// replies that differ only in `error_code`, `error_message` and
/// `error_reason`, with a status other than `failed`, give the same results.
pub proof fn lemma_error_fields_ignored_unless_failed(
    result: Result<PaymentsResponseData, ErrorResponse>,
    a: NatsBridgePaymentsResponse,
    b: NatsBridgePaymentsResponse,
    http_code: u16,
)
    requires
        a.status != NatsPaymentStatus::Failed,
        b.status == a.status,
        b.connector_transaction_id == a.connector_transaction_id,
        b.redirect_form == a.redirect_form,
        b.connector_metadata == a.connector_metadata,
        b.network_txn_id == a.network_txn_id,
        b.connector_response_reference_id == a.connector_response_reference_id,
    ensures
        payments_result_matches(result, a, http_code) == payments_result_matches(result, b, http_code),
{
}

/// A refund and a refund status query read the same reply the same way,
/// except for the message of a failure the worker gave none for.
pub proof fn lemma_refund_flows_agree(
    result: Result<RefundsResponseData, ErrorResponse>,
    resp: RefundResponse,
    http_code: u16,
)
    requires
        !(resp.refund_status == NatsRefundStatus::Failed && resp.error_message is None),
    ensures
        refund_result_matches(result, resp, http_code, "Refund failed"@) == refund_result_matches(
            result,
            resp,
            http_code,
            "Refund sync failed"@,
        ),
{
}

/// Each message names its attempt: the `Nats-Msg-Id` header is
/// `<payment_id>_<attempt_id>`, so retries of one attempt carry one key
/// (and JetStream keeps one of them), while two attempts of the same
/// payment carry different keys.
pub proof fn lemma_message_id_identifies_attempt(
    payment_id: Seq<char>,
    attempt_a: Seq<char>,
    attempt_b: Seq<char>,
)
    ensures
        (message_id(payment_id, attempt_a) == message_id(payment_id, attempt_b)) == (attempt_a
            == attempt_b),
{
    let a = message_id(payment_id, attempt_a);
    let b = message_id(payment_id, attempt_b);
    let n: int = payment_id.len() as int + 1;
    if a == b {
        assert(a.subrange(n, a.len() as int) =~= attempt_a);
        assert(b.subrange(n, b.len() as int) =~= attempt_b);
    }
}

/// The `Nats-Msg-Id` header of every dispatch is the attempt's key.
pub proof fn lemma_dispatch_message_id<F, Req, Resp, P>(
    d: NatsDispatch<P>,
    op: NatsOperation,
    rd: crate::domain::RouterData<F, Req, Resp>,
    connectors: Connectors,
)
    requires
        dispatch_for(d, op, rd, connectors),
    ensures
        header_entries(d.headers)["Nats-Msg-Id"@] == seq![message_id(rd.payment_id@, rd.attempt_id@)],
{
}

/// Subjects name the operation only: two dispatches of the same operation
/// go to the same subject whatever merchant, payment or server they are
/// for, so workers subscribe once per operation.
pub proof fn lemma_subject_names_operation_only<F1, R1, S1, P1, F2, R2, S2, P2>(
    d1: NatsDispatch<P1>,
    d2: NatsDispatch<P2>,
    op: NatsOperation,
    rd1: crate::domain::RouterData<F1, R1, S1>,
    rd2: crate::domain::RouterData<F2, R2, S2>,
    c1: Connectors,
    c2: Connectors,
)
    requires
        dispatch_for(d1, op, rd1, c1),
        dispatch_for(d2, op, rd2, c2),
    ensures
        d1.subject@ == d2.subject@,
{
}

/// A filter `<prefix>.>` of `k + 1` characters takes in a subject exactly
/// when the subject is longer than `<prefix>.` and begins with it.
proof fn lemma_filter_prefix(subject: Seq<char>, filter: Seq<char>, k: int)
    requires
        filter.len() == k + 1,
        k >= 1,
        filter[k] == '>',
        filter[k - 1] == '.',
    ensures
        filter_captures(filter, subject) == (subject.len() > k && forall|i: int|
            0 <= i < k ==> #[trigger] subject[i] == filter[i]),
{
    if subject.len() > k && forall|i: int| 0 <= i < k ==> #[trigger] subject[i] == filter[i] {
        assert(subject.subrange(0, k) =~= filter.subrange(0, k));
    }
    if filter_captures(filter, subject) {
        assert forall|i: int| 0 <= i < k implies #[trigger] subject[i] == filter[i] by {
            assert(subject.subrange(0, k)[i] == filter.subrange(0, k)[i]);
        }
    }
}

/// Every operation lands in exactly one JetStream stream: the payments
/// stream (`hyperswitch.payments.>`) takes in the subject of each payment
/// operation and no other, the refunds stream (`hyperswitch.refunds.>`) that
/// of each refund operation and no other.
pub proof fn lemma_operation_stream(op: NatsOperation)
    ensures
        filter_captures(payments_filter(), subject_text(op)) == is_payment_operation(op),
        filter_captures(refunds_filter(), subject_text(op)) == !is_payment_operation(op),
{
    reveal_strlit("hyperswitch.payments.>");
    reveal_strlit("hyperswitch.refunds.>");
    let p = payments_filter();
    let r = refunds_filter();
    assert(p =~= seq!['h', 'y', 'p', 'e', 'r', 's', 'w', 'i', 't', 'c', 'h', '.', 'p', 'a', 'y', 'm', 'e', 'n', 't', 's', '.', '>']);
    assert(r =~= seq!['h', 'y', 'p', 'e', 'r', 's', 'w', 'i', 't', 'c', 'h', '.', 'r', 'e', 'f', 'u', 'n', 'd', 's', '.', '>']);
    match op {
        NatsOperation::PaymentsAuthorize => {
            reveal_strlit("hyperswitch.payments.authorize");
            let s = "hyperswitch.payments.authorize"@;
            assert(s =~= seq!['h', 'y', 'p', 'e', 'r', 's', 'w', 'i', 't', 'c', 'h', '.', 'p', 'a', 'y', 'm', 'e', 'n', 't', 's', '.', 'a', 'u', 't', 'h', 'o', 'r', 'i', 'z', 'e']);
            lemma_filter_prefix(s, p, 21);
            lemma_filter_prefix(s, r, 20);
        },
        NatsOperation::PaymentsCompleteAuthorize => {
            reveal_strlit("hyperswitch.payments.complete_authorize");
            let s = "hyperswitch.payments.complete_authorize"@;
            assert(s =~= seq!['h', 'y', 'p', 'e', 'r', 's', 'w', 'i', 't', 'c', 'h', '.', 'p', 'a', 'y', 'm', 'e', 'n', 't', 's', '.', 'c', 'o', 'm', 'p', 'l', 'e', 't', 'e', '_', 'a', 'u', 't', 'h', 'o', 'r', 'i', 'z', 'e']);
            lemma_filter_prefix(s, p, 21);
            lemma_filter_prefix(s, r, 20);
        },
        NatsOperation::PaymentsCapture => {
            reveal_strlit("hyperswitch.payments.capture");
            let s = "hyperswitch.payments.capture"@;
            assert(s =~= seq!['h', 'y', 'p', 'e', 'r', 's', 'w', 'i', 't', 'c', 'h', '.', 'p', 'a', 'y', 'm', 'e', 'n', 't', 's', '.', 'c', 'a', 'p', 't', 'u', 'r', 'e']);
            lemma_filter_prefix(s, p, 21);
            lemma_filter_prefix(s, r, 20);
        },
        NatsOperation::PaymentsVoid => {
            reveal_strlit("hyperswitch.payments.void");
            let s = "hyperswitch.payments.void"@;
            assert(s =~= seq!['h', 'y', 'p', 'e', 'r', 's', 'w', 'i', 't', 'c', 'h', '.', 'p', 'a', 'y', 'm', 'e', 'n', 't', 's', '.', 'v', 'o', 'i', 'd']);
            lemma_filter_prefix(s, p, 21);
            lemma_filter_prefix(s, r, 20);
        },
        NatsOperation::PaymentsSync => {
            reveal_strlit("hyperswitch.payments.sync");
            let s = "hyperswitch.payments.sync"@;
            assert(s =~= seq!['h', 'y', 'p', 'e', 'r', 's', 'w', 'i', 't', 'c', 'h', '.', 'p', 'a', 'y', 'm', 'e', 'n', 't', 's', '.', 's', 'y', 'n', 'c']);
            lemma_filter_prefix(s, p, 21);
            lemma_filter_prefix(s, r, 20);
        },
        NatsOperation::RefundsExecute => {
            reveal_strlit("hyperswitch.refunds.execute");
            let s = "hyperswitch.refunds.execute"@;
            assert(s =~= seq!['h', 'y', 'p', 'e', 'r', 's', 'w', 'i', 't', 'c', 'h', '.', 'r', 'e', 'f', 'u', 'n', 'd', 's', '.', 'e', 'x', 'e', 'c', 'u', 't', 'e']);
            lemma_filter_prefix(s, p, 21);
            lemma_filter_prefix(s, r, 20);
        },
        NatsOperation::RefundsSync => {
            reveal_strlit("hyperswitch.refunds.sync");
            let s = "hyperswitch.refunds.sync"@;
            assert(s =~= seq!['h', 'y', 'p', 'e', 'r', 's', 'w', 'i', 't', 'c', 'h', '.', 'r', 'e', 'f', 'u', 'n', 'd', 's', '.', 's', 'y', 'n', 'c']);
            lemma_filter_prefix(s, p, 21);
            lemma_filter_prefix(s, r, 20);
        },
    }
}

/// A worker's payment reply becomes an error result exactly when the worker
/// reports `failed`, and the attempt is marked failed exactly then too.
pub proof fn lemma_failed_payment_reply(
    result: Result<PaymentsResponseData, ErrorResponse>,
    resp: NatsBridgePaymentsResponse,
    http_code: u16,
)
    requires
        payments_result_matches(result, resp, http_code),
    ensures
        result is Err <==> resp.status == NatsPaymentStatus::Failed,
        (attempt_status_for(resp.status) == AttemptStatus::Failure) <==> resp.status
            == NatsPaymentStatus::Failed,
{
}

/// Different worker statuses give different attempt statuses.
pub proof fn lemma_attempt_status_distinct(a: NatsPaymentStatus, b: NatsPaymentStatus)
    ensures
        (attempt_status_for(a) == attempt_status_for(b)) == (a == b),
{
}

/// A worker's refund reply becomes an error result exactly when the worker
/// reports `failed`.
pub proof fn lemma_failed_refund_reply(
    result: Result<RefundsResponseData, ErrorResponse>,
    resp: RefundResponse,
    http_code: u16,
    default_message: Seq<char>,
)
    requires
        refund_result_matches(result, resp, http_code, default_message),
    ensures
        result is Err <==> resp.refund_status == NatsRefundStatus::Failed,
{
}

/// The stage a publish stands at after `events`, from the start.
pub open spec fn stage_after(events: Seq<PublishEvent>) -> PublishStage
    decreases events.len(),
{
    if events.len() == 0 {
        PublishStage::Subscribing
    } else {
        next_stage(stage_after(events.drop_last()), events.last())
    }
}

proof fn lemma_awaiting_reply_history(events: Seq<PublishEvent>)
    ensures
        stage_after(events) == PublishStage::Publishing ==> events.len() == 1
            && events[0] is InboxReady,
        stage_after(events) == PublishStage::AwaitingAck ==> events.len() == 2
            && events[0] is InboxReady && events[1] is PublishSent,
        stage_after(events) == PublishStage::AwaitingReply ==> events.len() == 3
            && events[0] is InboxReady && events[1] is PublishSent && events[2] is Acked,
    decreases events.len(),
{
    if events.len() > 0 {
        lemma_awaiting_reply_history(events.drop_last());
    }
}

/// A worker's reply is accepted only after JetStream stored the message: a
/// publish that ends with a payload went through the inbox subscription,
/// the publish and JetStream's acknowledgment, in that order, and the
/// payload is the worker's reply.
pub proof fn lemma_reply_only_after_ack(
    events: Seq<PublishEvent>,
    event: PublishEvent,
    payload: Vec<u8>,
)
    requires
        action_matches(stage_after(events), event, PublishAction::Finish(Ok(payload))),
    ensures
        events.len() == 3,
        events[0] is InboxReady,
        events[1] is PublishSent,
        events[2] is Acked,
        event == PublishEvent::Replied(payload),
{
    lemma_awaiting_reply_history(events);
}

/// Every event of `events` can happen at the stage it meets.
pub open spec fn trace_expected(events: Seq<PublishEvent>) -> bool {
    forall|i: int| 0 <= i < events.len() ==> event_expected(stage_after(#[trigger] events.take(i)), events[i])
}

/// How far a stage is from the start.
spec fn stage_rank(stage: PublishStage) -> int {
    match stage {
        PublishStage::Subscribing => 0,
        PublishStage::Publishing => 1,
        PublishStage::AwaitingAck => 2,
        PublishStage::AwaitingReply => 3,
        PublishStage::Finished => 4,
    }
}

proof fn lemma_trace_progress(events: Seq<PublishEvent>)
    requires
        trace_expected(events),
    ensures
        stage_after(events) == PublishStage::Finished ==> 1 <= events.len() <= 4,
        stage_after(events) != PublishStage::Finished ==> stage_rank(stage_after(events)) == events.len(),
    decreases events.len(),
{
    if events.len() > 0 {
        let prefix = events.drop_last();
        assert forall|i: int| 0 <= i < prefix.len() implies event_expected(
            stage_after(#[trigger] prefix.take(i)),
            prefix[i],
        ) by {
            assert(prefix.take(i) =~= events.take(i));
        }
        lemma_trace_progress(prefix);
        let last = events.len() - 1;
        assert(events.take(last) =~= prefix);
        assert(event_expected(stage_after(events.take(last)), events[last]));
    }
}

/// A publish that waits for a worker's reply always ends: after at most
/// four events (subscribed, published, acknowledged, answered) nothing
/// more can happen.
pub proof fn lemma_publish_finishes(events: Seq<PublishEvent>)
    requires
        trace_expected(events),
    ensures
        events.len() <= 4,
        events.len() == 4 ==> stage_after(events) == PublishStage::Finished,
{
    lemma_trace_progress(events);
}

/// The cache keeps one client per server, and gives back what it stored:
/// after storing `client` for `url`, looking up `url` finds `client`, and
/// every other server keeps the client it had (or stays without one).
pub proof fn lemma_cache_read_after_write(
    before: NatsClientCache,
    after: NatsClientCache,
    url: Seq<char>,
    client: Client,
    other: Seq<char>,
)
    requires
        after@ == before@.insert(url, client),
    ensures
        after@.contains_key(url),
        after@[url] == client,
        other != url ==> after@.contains_key(other) == before@.contains_key(other),
        other != url && before@.contains_key(other) ==> after@[other] == before@[other],
{
}

/// The stream setup creates the streams one after another and stops at the
/// first failure: with `results[i]` the outcome of creating stream `i` and
/// `actions[i]` the step taken after it, where every step but the last asked
/// for the next stream, every stream before the last one tried was created,
/// the setup succeeds exactly when all `count` streams were, and a failed
/// creation ends the setup with its error.
pub proof fn lemma_stream_setup_stops_at_first_failure(
    count: int,
    results: Seq<Result<(), String>>,
    actions: Seq<StreamSetupAction>,
)
    requires
        1 <= results.len() <= count,
        actions.len() == results.len(),
        forall|i: int|
            0 <= i < results.len() ==> setup_step_matches(i, count, #[trigger] results[i], actions[i]),
        forall|i: int|
            0 <= i < results.len() - 1 ==> (#[trigger] actions[i] matches StreamSetupAction::Create(j)
                && j == i + 1),
    ensures
        forall|i: int| 0 <= i < results.len() - 1 ==> (#[trigger] results[i]) is Ok,
        (actions.last() matches StreamSetupAction::Finish(Ok(()))) <==> (results.len() == count
            && forall|i: int| 0 <= i < results.len() ==> (#[trigger] results[i]) is Ok),
        results.last() matches Err(detail) ==> (actions.last() matches StreamSetupAction::Finish(Err(e))
            && is_step_failure(e, "Failed to create JetStream stream: "@ + detail@)),
        results.last() is Ok && results.len() < count ==> actions.last() is Create,
{
    let n = results.len();
    assert forall|i: int| 0 <= i < n - 1 implies (#[trigger] results[i]) is Ok by {
        assert(setup_step_matches(i, count, results[i], actions[i]));
        assert(actions[i] is Create);
    }
    assert(setup_step_matches(n - 1, count, results[n - 1], actions[n - 1]));
    if actions.last() matches StreamSetupAction::Finish(Ok(())) {
        assert forall|i: int| 0 <= i < n implies (#[trigger] results[i]) is Ok by {
            if i < n - 1 {
                assert(setup_step_matches(i, count, results[i], actions[i]));
                assert(actions[i] is Create);
            }
        }
    }
}

/// The configured streams are the same whenever they are asked for: any
/// two lists that meet the configuration agree on every setting of every
/// stream, so setting the streams up again changes nothing.
pub proof fn lemma_stream_specs_determined(a: Seq<StreamSpec>, b: Seq<StreamSpec>)
    requires
        streams_as_configured(a),
        streams_as_configured(b),
    ensures
        a.len() == b.len(),
        forall|i: int| 0 <= i < a.len() ==> same_stream(#[trigger] a[i], b[i]),
{
    assert forall|i: int| 0 <= i < a.len() implies same_stream(#[trigger] a[i], b[i]) by {
        if i == 0 {
            same_description(a[0], b[0]);
        } else {
            same_description(a[1], b[1]);
        }
    }
}

/// Two streams with equal settings.
pub open spec fn same_stream(x: StreamSpec, y: StreamSpec) -> bool {
    &&& x.name@ == y.name@
    &&& x.description.is_some() == y.description.is_some()
    &&& (x.description matches Some(d) ==> d@ == y.description.unwrap()@)
    &&& x.subjects@.len() == y.subjects@.len()
    &&& forall|k: int| 0 <= k < x.subjects@.len() ==> (#[trigger] x.subjects@[k])@ == y.subjects@[k]@
    &&& x.retention == y.retention
    &&& x.max_age_secs == y.max_age_secs
    &&& x.storage == y.storage
    &&& x.num_replicas == y.num_replicas
    &&& x.duplicate_window_secs == y.duplicate_window_secs
    &&& x.max_messages == y.max_messages
}

/// Two streams that both meet one configured description have equal
/// settings.
proof fn same_description(x: StreamSpec, y: StreamSpec)
    requires
        exists|name: Seq<char>, description: Seq<char>, filter: Seq<char>, age: nat, max: Option<i64>|
            stream_is(x, name, description, filter, age, max) && stream_is(
                y,
                name,
                description,
                filter,
                age,
                max,
            ),
    ensures
        same_stream(x, y),
{
}

/// `name` is the upper-case name of the method `m`.
pub open spec fn names_method(name: Seq<char>, m: Method) -> bool {
    ||| name == "GET"@ && m == Method::Get
    ||| name == "POST"@ && m == Method::Post
    ||| name == "PUT"@ && m == Method::Put
    ||| name == "DELETE"@ && m == Method::Delete
    ||| name == "PATCH"@ && m == Method::Patch
}

/// A worker's redirect reaches the router as it was sent: an HTML redirect
/// keeps its page, and a form redirect whose method is `GET`, `POST`, `PUT`,
/// `DELETE` or `PATCH` keeps its endpoint and fields and gets that method.
pub proof fn lemma_redirect_reaches_router(form: NatsRedirectForm, m: Method)
    ensures
        form is Html ==> redirect_form_for(form) == Some(
            RedirectForm::Html { html_data: form->html_data },
        ),
        form is Form && names_method(form->method@, m) ==> redirect_form_for(form) == Some(
            RedirectForm::Form { endpoint: form->endpoint, method: m, form_fields: form->form_fields },
        ),
{
    reveal_strlit("GET");
    reveal_strlit("POST");
    reveal_strlit("PUT");
    reveal_strlit("DELETE");
    reveal_strlit("PATCH");
    assert("GET"@ =~= seq!['G', 'E', 'T']);
    assert("POST"@ =~= seq!['P', 'O', 'S', 'T']);
    assert("PUT"@ =~= seq!['P', 'U', 'T']);
    assert("DELETE"@ =~= seq!['D', 'E', 'L', 'E', 'T', 'E']);
    assert("PATCH"@ =~= seq!['P', 'A', 'T', 'C', 'H']);
}

/// A payment reply that is not a failure and carries a form redirect with a
/// known method gives the router a transaction response whose redirect is
/// that form: same endpoint, same fields, that method.
pub proof fn lemma_payment_reply_keeps_form_redirect(
    result: Result<PaymentsResponseData, ErrorResponse>,
    resp: NatsBridgePaymentsResponse,
    http_code: u16,
    m: Method,
)
    requires
        payments_result_matches(result, resp, http_code),
        resp.status != NatsPaymentStatus::Failed,
        resp.redirect_form matches Some(f) && f is Form && names_method(f->method@, m),
    ensures
        result matches Ok(PaymentsResponseData::TransactionResponse { redirection_data, .. })
            && redirection_data == Some(
            RedirectForm::Form {
                endpoint: resp.redirect_form.unwrap()->endpoint,
                method: m,
                form_fields: resp.redirect_form.unwrap()->form_fields,
            },
        ),
{
    lemma_redirect_reaches_router(resp.redirect_form.unwrap(), m);
}

/// A refund reply that is not a failure keeps the processor's refund id:
/// the router's `connector_refund_id` is the worker's, or empty where the
/// worker sent none, whatever the status; a succeeded refund reads success,
/// a pending one pending.
pub proof fn lemma_refund_reply_keeps_refund_id(
    result: Result<RefundsResponseData, ErrorResponse>,
    resp: RefundResponse,
    http_code: u16,
    default_message: Seq<char>,
)
    requires
        refund_result_matches(result, resp, http_code, default_message),
        resp.refund_status != NatsRefundStatus::Failed,
    ensures
        result matches Ok(r) && {
            &&& match resp.connector_refund_id {
                Some(id) => r.connector_refund_id@ == id@,
                None => r.connector_refund_id@.len() == 0,
            }
            &&& resp.refund_status == NatsRefundStatus::Succeeded ==> r.refund_status
                == RefundStatus::Success
            &&& resp.refund_status == NatsRefundStatus::Pending ==> r.refund_status
                == RefundStatus::Pending
        },
{
}

/// An authorization request carries the router's data unchanged: the amount
/// text it was built with, the currency, the payment method, its type and
/// data, the return and webhook addresses, the browser information and the
/// statement descriptor.
pub proof fn lemma_authorize_request_carries_router_data(
    q: NatsBridgePaymentsRequest,
    amount: Seq<char>,
    req: PaymentsAuthorizeData,
)
    requires
        q.describes(amount, req),
    ensures
        q.amount@ == amount,
        q.currency == req.currency,
        req.payment_method == Some(q.payment_method),
        q.payment_method_type == req.payment_method_type,
        q.payment_method_data == req.payment_method_data,
        q.return_url == req.router_return_url,
        q.webhook_url == req.webhook_url,
        q.browser_info == req.browser_info,
        q.statement_descriptor == req.statement_descriptor,
{
}

/// A payment status query carries the router's encoded data and connector
/// metadata unchanged, whatever identifies the payment, and the processor's
/// transaction id exactly where the payment is identified by one.
pub proof fn lemma_sync_request_carries_router_data(q: NatsBridgeSyncRequest, req: PaymentsSyncData)
    requires
        q.describes(req),
    ensures
        q.connector_meta == req.connector_meta,
        q.encoded_data == req.encoded_data,
        match req.connector_transaction_id {
            ResponseId::ConnectorTransactionId(t) => q.connector_transaction_id == Some(t),
            _ => q.connector_transaction_id is None,
        },
{
}

/// A payment reply that is not a failure keeps what the worker said of the
/// transaction: the router's transaction id is the worker's (empty where it
/// sent none), and its metadata, network transaction id and reference come
/// through unchanged.
pub proof fn lemma_payment_reply_keeps_transaction(
    result: Result<PaymentsResponseData, ErrorResponse>,
    resp: NatsBridgePaymentsResponse,
    http_code: u16,
)
    requires
        payments_result_matches(result, resp, http_code),
        resp.status != NatsPaymentStatus::Failed,
    ensures
        result matches Ok(
            PaymentsResponseData::TransactionResponse {
                resource_id: ResponseId::ConnectorTransactionId(id),
                connector_metadata,
                network_txn_id,
                connector_response_reference_id,
                ..
            },
        ) && {
            &&& match resp.connector_transaction_id {
                Some(t) => id@ == t@,
                None => id@.len() == 0,
            }
            &&& connector_metadata == resp.connector_metadata
            &&& network_txn_id == resp.network_txn_id
            &&& connector_response_reference_id == resp.connector_response_reference_id
        },
        resp.redirect_form is None ==> result matches Ok(
            PaymentsResponseData::TransactionResponse { redirection_data: None, .. },
        ),
{
}

/// A completion request carries the amount text it was built with and the
/// router's currency, payment method data, transaction id, and the
/// parameters and payload the customer's browser brought back (none where
/// there was no redirect).
pub proof fn lemma_complete_authorize_request_carries_router_data(
    q: NatsBridgeCompleteAuthorizeRequest,
    amount: Seq<char>,
    req: CompleteAuthorizeData,
)
    requires
        q.describes(amount, req),
    ensures
        q.amount@ == amount,
        q.currency == req.currency,
        q.payment_method_data == req.payment_method_data,
        q.connector_transaction_id == req.connector_transaction_id,
        match req.redirect_response {
            Some(rr) => q.redirect_params == rr.params && q.redirect_payload == rr.payload,
            None => q.redirect_params is None && q.redirect_payload is None,
        },
{
}

/// A capture request carries the amount text it was built with, the
/// router's currency and the transaction to capture.
pub proof fn lemma_capture_request_carries_router_data(
    q: NatsBridgeCaptureRequest,
    amount: Seq<char>,
    req: PaymentsCaptureData,
)
    requires
        q.describes(amount, req),
    ensures
        q.amount_to_capture@ == amount,
        q.currency == req.currency,
        q.connector_transaction_id == req.connector_transaction_id,
{
}

/// A void request carries the transaction to void, the reason, the amount
/// text it was built with and the router's currency.
pub proof fn lemma_void_request_carries_router_data(
    q: NatsBridgeVoidRequest,
    amount: Seq<char>,
    req: PaymentsCancelData,
)
    requires
        q.describes(amount, req),
    ensures
        q.connector_transaction_id == req.connector_transaction_id,
        q.cancellation_reason == req.cancellation_reason,
        q.amount matches Some(a) && a@ == amount,
        q.currency == req.currency,
{
}

/// A refund request carries the amount text it was built with and the
/// router's currency, transaction, refund id, reason and webhook address.
pub proof fn lemma_refund_request_carries_router_data(
    q: NatsBridgeRefundRequest,
    amount: Seq<char>,
    req: RefundsData,
)
    requires
        q.describes(amount, req),
    ensures
        q.refund_amount@ == amount,
        q.currency == req.currency,
        q.connector_transaction_id == req.connector_transaction_id,
        q.refund_id == req.refund_id,
        q.reason == req.reason,
        q.webhook_url == req.webhook_url,
{
}

} // verus!
