//! The connection, stream and publish decisions of the bridge: which client
//! serves a server, which JetStream streams hold the operations, and how a
//! publish that waits for a worker's reply proceeds.

use crate::domain::{is_step_failure, step_failure, ConnectorError};
use crate::headers::{header_entries, header_map_insert, valid_header_name, valid_header_value};
use async_nats::{Client, HeaderMap};
use vstd::prelude::*;

verus! {

#[verifier::external_type_specification]
#[verifier::external_body]
pub struct ExClient(Client);

/// `Client::connection_state`, compared with `State::Connected`. Whether a
/// client is connected depends on the network at the moment of the call, so
/// nothing is stated of the answer.
#[verifier::external_body]
fn client_is_connected(client: &Client) -> (connected: bool) {
    client.connection_state() == async_nats::connection::State::Connected
}

/// Each server appears at most once among the cached clients.
spec fn distinct_urls(clients: Seq<(String, Client)>) -> bool {
    forall|i: int, j: int|
        0 <= i < j < clients.len() ==> (#[trigger] clients[i]).0@ != (#[trigger] clients[j]).0@
}

/// Whether the server `url` is among the cached clients.
spec fn holds(clients: Seq<(String, Client)>, url: Seq<char>) -> bool {
    exists|i: int| 0 <= i < clients.len() && (#[trigger] clients[i]).0@ == url
}

/// The position of the server `url` among the cached clients.
spec fn index_of(clients: Seq<(String, Client)>, url: Seq<char>) -> int {
    choose|i: int| 0 <= i < clients.len() && (#[trigger] clients[i]).0@ == url
}

/// The cached client of each server.
spec fn client_map(clients: Seq<(String, Client)>) -> Map<Seq<char>, Client> {
    Map::new(|url: Seq<char>| holds(clients, url), |url: Seq<char>| clients[index_of(clients, url)].1)
}

/// Where the position of a cached server is known, the map gives its client.
proof fn lemma_client_at(clients: Seq<(String, Client)>, i: int)
    requires
        distinct_urls(clients),
        0 <= i < clients.len(),
    ensures
        client_map(clients).contains_key(clients[i].0@),
        client_map(clients)[clients[i].0@] == clients[i].1,
{
    let url = clients[i].0@;
    assert(holds(clients, url));
    let k = index_of(clients, url);
    assert(clients[k].0@ == url);
    if k < i {
        assert(clients[k].0@ != clients[i].0@);
    } else if i < k {
        assert(clients[i].0@ != clients[k].0@);
    }
}

/// Finds the position of the server `url`, if it is cached.
fn position(clients: &Vec<(String, Client)>, url: &String) -> (r: Option<usize>)
    ensures
        match r {
            Some(i) => i < clients@.len() && clients@[i as int].0@ == url@,
            None => !holds(clients@, url@),
        },
{
    let mut i: usize = 0;
    while i < clients.len()
        invariant
            i <= clients@.len(),
            forall|j: int| 0 <= j < i ==> (#[trigger] clients@[j]).0@ != url@,
        decreases clients@.len() - i,
    {
        if clients[i].0.eq(url) {
            return Some(i);
        }
        i = i + 1;
    }
    None
}

/// Whether a cached client is reused: it is while it is connected; a
/// disconnected client is replaced by a new connection.
pub fn reuse_if_connected(client: &Client, connected: bool) -> (r: Option<&Client>)
    ensures
        r == (if connected { Some(client) } else { None::<&Client> }),
{
    if connected {
        Some(client)
    } else {
        None
    }
}

/// One client per NATS server, reused for as long as it stays connected.
pub struct NatsClientCache {
    clients: Vec<(String, Client)>,
}

impl NatsClientCache {
    #[verifier::type_invariant]
    spec fn one_client_per_url(self) -> bool {
        distinct_urls(self.clients@)
    }
}

impl View for NatsClientCache {
    type V = Map<Seq<char>, Client>;

    /// The cached client of each server.
    closed spec fn view(&self) -> Map<Seq<char>, Client> {
        client_map(self.clients@)
    }
}

impl NatsClientCache {
    /// An empty cache.
    pub fn new() -> (r: NatsClientCache)
        ensures
            r@ == Map::<Seq<char>, Client>::empty(),
    {
        let r = NatsClientCache { clients: Vec::new() };
        assert(r@ =~= Map::<Seq<char>, Client>::empty());
        r
    }

    /// The cached client of the server `url`, if any.
    pub fn lookup(&self, nats_url: &str) -> (r: Option<&Client>)
        ensures
            match r {
                Some(c) => self@.contains_key(nats_url@) && *c == self@[nats_url@],
                None => !self@.contains_key(nats_url@),
            },
    {
        proof {
            use_type_invariant(self);
        }
        let key = nats_url.to_owned();
        match position(&self.clients, &key) {
            Some(i) => {
                proof {
                    lemma_client_at(self.clients@, i as int);
                }
                Some(&self.clients[i].1)
            },
            None => None,
        }
    }

    /// The cached client of the server `url`, if there is one and it is
    /// connected now; otherwise the caller connects anew.
    pub fn connected_client(&self, nats_url: &str) -> (r: Option<&Client>)
        ensures
            r matches Some(c) ==> self@.contains_key(nats_url@) && *c == self@[nats_url@],
            !self@.contains_key(nats_url@) ==> r is None,
    {
        match self.lookup(nats_url) {
            Some(client) => {
                let connected = client_is_connected(client);
                reuse_if_connected(client, connected)
            },
            None => None,
        }
    }

    /// Records the outcome of connecting to the server `url`: a new client
    /// is cached in place of the old one; a failed connection leaves the
    /// cache as it was and is reported.
    pub fn record_connection(&mut self, nats_url: &str, connected: Option<Client>) -> (r: Result<
        (),
        ConnectorError,
    >)
        ensures
            match connected {
                Some(c) => r is Ok && final(self)@ == old(self)@.insert(nats_url@, c),
                None => final(self)@ == old(self)@ && (r matches Err(e) && is_step_failure(
                    e,
                    "Failed to connect to NATS server"@,
                )),
            },
    {
        match connected {
            Some(client) => {
                self.store(nats_url, client);
                Ok(())
            },
            None => Err(step_failure("Failed to connect to NATS server")),
        }
    }

    /// Caches `client` as the client of the server `url`, in place of any
    /// client cached for it before.
    pub fn store(&mut self, nats_url: &str, client: Client)
        ensures
            final(self)@ == old(self)@.insert(nats_url@, client),
    {
        proof {
            use_type_invariant(&*self);
        }
        let key = nats_url.to_owned();
        let mut clients: Vec<(String, Client)> = Vec::new();
        std::mem::swap(&mut clients, &mut self.clients);
        let ghost before = clients@;
        let ghost url = nats_url@;
        let ghost target = client;
        match position(&clients, &key) {
            Some(i) => {
                clients.set(i, (key, client));
                proof {
                    assert forall|a: int, b: int|
                        0 <= a < b < clients@.len() implies (#[trigger] clients@[a]).0@
                        != (#[trigger] clients@[b]).0@ by {
                        if a != i && b != i {
                        } else if a == i {
                            assert(before[a].0@ == url);
                        } else {
                            assert(before[b].0@ == url);
                        }
                    }
                    lemma_client_at(clients@, i as int);
                    assert forall|u: Seq<char>| u != url implies (holds(clients@, u) == holds(
                        before,
                        u,
                    )) by {
                        if holds(before, u) {
                            let k = index_of(before, u);
                            assert(clients@[k] == before[k]);
                        }
                        if holds(clients@, u) {
                            let k = index_of(clients@, u);
                            assert(clients@[k] == before[k]);
                        }
                    }
                    assert forall|u: Seq<char>| u != url && #[trigger] holds(clients@, u) implies client_map(
                        clients@,
                    )[u] == client_map(before)[u] by {
                        let k = index_of(clients@, u);
                        assert(clients@[k] == before[k]);
                        lemma_client_at(clients@, k);
                        lemma_client_at(before, k);
                    }
                    assert(client_map(clients@) =~= client_map(before).insert(url, target));
                }
            },
            None => {
                clients.push((key, client));
                proof {
                    assert forall|a: int, b: int|
                        0 <= a < b < clients@.len() implies (#[trigger] clients@[a]).0@
                        != (#[trigger] clients@[b]).0@ by {
                        assert(clients@[a] == before[a]);
                        if b < before.len() {
                            assert(clients@[b] == before[b]);
                        } else {
                            assert(!(before[a].0@ == url));
                        }
                    }
                    let last = before.len() as int;
                    lemma_client_at(clients@, last);
                    assert forall|u: Seq<char>| u != url implies (holds(clients@, u) == holds(
                        before,
                        u,
                    )) by {
                        if holds(before, u) {
                            let k = index_of(before, u);
                            assert(clients@[k] == before[k]);
                        }
                        if holds(clients@, u) {
                            let k = index_of(clients@, u);
                            if k < last {
                                assert(clients@[k] == before[k]);
                            }
                        }
                    }
                    assert forall|u: Seq<char>| u != url && #[trigger] holds(clients@, u) implies client_map(
                        clients@,
                    )[u] == client_map(before)[u] by {
                        let k = index_of(clients@, u);
                        assert(k != last);
                        assert(clients@[k] == before[k]);
                        lemma_client_at(clients@, k);
                        lemma_client_at(before, k);
                    }
                    assert(client_map(clients@) =~= client_map(before).insert(url, target));
                }
            },
        }
        self.clients = clients;
    }
}

/// How a stream keeps its messages.
#[derive(Clone, Copy, Debug, PartialEq, Eq, Structural)]
pub enum RetentionPolicy {
    Limits,
    Interest,
    WorkQueue,
}

/// Where a stream keeps its messages.
#[derive(Clone, Copy, Debug, PartialEq, Eq, Structural)]
pub enum StorageType {
    File,
    Memory,
}

/// A JetStream stream the bridge relies on.
pub struct StreamSpec {
    pub name: String,
    pub description: Option<String>,
    pub subjects: Vec<String>,
    pub retention: RetentionPolicy,
    pub max_age_secs: u64,
    pub storage: StorageType,
    pub num_replicas: usize,
    pub duplicate_window_secs: u64,
    /// The most messages the stream keeps, where it is limited.
    pub max_messages: Option<i64>,
}

/// Whether a stream filter of the form `<prefix>.>` takes in `subject`: the
/// subject begins with `<prefix>.` and goes on after it.
pub open spec fn filter_captures(filter: Seq<char>, subject: Seq<char>) -> bool {
    &&& filter.len() >= 2
    &&& filter.last() == '>'
    &&& filter[filter.len() - 2] == '.'
    &&& subject.len() > filter.len() - 1
    &&& subject.subrange(0, filter.len() - 1) == filter.subrange(0, filter.len() - 1)
}

/// The subject filter of the payments stream.
pub open spec fn payments_filter() -> Seq<char> {
    "hyperswitch.payments.>"@
}

/// The subject filter of the refunds stream.
pub open spec fn refunds_filter() -> Seq<char> {
    "hyperswitch.refunds.>"@
}

/// The stream `s` is the one named `name`, described by `description`, that
/// holds the subjects under `filter` on file for `max_age_secs` seconds and at
/// most `max_messages` messages, with three replicas and a five-minute window
/// for dropping duplicates.
pub open spec fn stream_is(
    s: StreamSpec,
    name: Seq<char>,
    description: Seq<char>,
    filter: Seq<char>,
    max_age_secs: nat,
    max_messages: Option<i64>,
) -> bool {
    &&& s.name@ == name
    &&& s.description matches Some(d) && d@ == description
    &&& s.subjects@.len() == 1
    &&& s.subjects@[0]@ == filter
    &&& s.retention == RetentionPolicy::Limits
    &&& s.max_age_secs == max_age_secs
    &&& s.storage == StorageType::File
    &&& s.num_replicas == 3
    &&& s.duplicate_window_secs == 300
    &&& s.max_messages == max_messages
}

/// The streams the bridge relies on, in the order they are set up: payments
/// (kept thirty days, at most ten million messages), then refunds (kept
/// ninety days).
pub open spec fn streams_as_configured(specs: Seq<StreamSpec>) -> bool {
    &&& specs.len() == 2
    &&& stream_is(
        specs[0],
        "HYPERSWITCH_PAYMENTS"@,
        "Payment operations (authorize, capture, void)"@,
        payments_filter(),
        30 * 24 * 60 * 60,
        Some(10_000_000),
    )
    &&& stream_is(
        specs[1],
        "HYPERSWITCH_REFUNDS"@,
        "Refund operations"@,
        refunds_filter(),
        90 * 24 * 60 * 60,
        None,
    )
}

/// The streams to create or update at startup, in order.
pub fn jetstream_stream_specs() -> (r: Vec<StreamSpec>)
    ensures
        streams_as_configured(r@),
{
    let mut payments_subjects: Vec<String> = Vec::new();
    payments_subjects.push("hyperswitch.payments.>".to_owned());
    let payments = StreamSpec {
        name: "HYPERSWITCH_PAYMENTS".to_owned(),
        description: Some("Payment operations (authorize, capture, void)".to_owned()),
        subjects: payments_subjects,
        retention: RetentionPolicy::Limits,
        max_age_secs: 30 * 24 * 60 * 60,
        storage: StorageType::File,
        num_replicas: 3,
        duplicate_window_secs: 300,
        max_messages: Some(10_000_000),
    };
    let mut refunds_subjects: Vec<String> = Vec::new();
    refunds_subjects.push("hyperswitch.refunds.>".to_owned());
    let refunds = StreamSpec {
        name: "HYPERSWITCH_REFUNDS".to_owned(),
        description: Some("Refund operations".to_owned()),
        subjects: refunds_subjects,
        retention: RetentionPolicy::Limits,
        max_age_secs: 90 * 24 * 60 * 60,
        storage: StorageType::File,
        num_replicas: 3,
        duplicate_window_secs: 300,
        max_messages: None,
    };
    let mut specs: Vec<StreamSpec> = Vec::new();
    specs.push(payments);
    specs.push(refunds);
    specs
}

/// The error of a stream that could not be created; `detail` is the
/// server's explanation.
pub fn stream_setup_failure(detail: &str) -> (e: ConnectorError)
    ensures
        is_step_failure(e, "Failed to create JetStream stream: "@ + detail@),
{
    let mut text = "Failed to create JetStream stream: ".to_owned();
    text.append(detail);
    step_failure(text.as_str())
}

/// What the stream setup does next.
pub enum StreamSetupAction {
    /// Create or update the stream at this position of the configured list.
    Create(usize),
    /// Stop with this result.
    Finish(Result<(), ConnectorError>),
}

/// The first step of the stream setup: the first stream.
pub fn stream_setup_start() -> (r: StreamSetupAction)
    ensures
        r matches StreamSetupAction::Create(i) && i == 0,
{
    StreamSetupAction::Create(0)
}

/// The step after creating the stream at position `index` of `count`
/// configured streams ended with `created`: the next stream after a success,
/// success after the last one, and the failure, with the server's
/// explanation, as soon as one fails.
pub open spec fn setup_step_matches(
    index: int,
    count: int,
    created: Result<(), String>,
    action: StreamSetupAction,
) -> bool {
    match created {
        Ok(()) => if index + 1 < count {
            action matches StreamSetupAction::Create(i) && i == index + 1
        } else {
            action matches StreamSetupAction::Finish(Ok(()))
        },
        Err(detail) => action matches StreamSetupAction::Finish(Err(e)) && is_step_failure(
            e,
            "Failed to create JetStream stream: "@ + detail@,
        ),
    }
}

/// The step after creating the stream at position `index` of `count`
/// configured streams ended with `created` (the server's explanation where
/// it failed).
pub fn stream_setup_step(index: usize, count: usize, created: Result<(), String>) -> (r: StreamSetupAction)
    requires
        index < count,
    ensures
        setup_step_matches(index as int, count as int, created, r),
{
    match created {
        Ok(()) => {
            if index + 1 < count {
                StreamSetupAction::Create(index + 1)
            } else {
                StreamSetupAction::Finish(Ok(()))
            }
        },
        Err(detail) => StreamSetupAction::Finish(Err(stream_setup_failure(detail.as_str()))),
    }
}

/// The options the bridge connects to NATS with.
pub struct ConnectionSettings {
    pub connection_timeout_secs: u64,
    /// `None`: reconnect without limit.
    pub max_reconnects: Option<usize>,
    pub ping_interval_secs: u64,
    pub name: String,
}

/// How the bridge connects: ten seconds to connect, reconnecting without
/// limit, a ping every thirty seconds, under the name
/// `hyperswitch-nats-bridge`.
pub fn connection_settings() -> (r: ConnectionSettings)
    ensures
        r.connection_timeout_secs == 10,
        r.max_reconnects is None,
        r.ping_interval_secs == 30,
        r.name@ == "hyperswitch-nats-bridge"@,
{
    ConnectionSettings {
        connection_timeout_secs: 10,
        max_reconnects: None,
        ping_interval_secs: 30,
        name: "hyperswitch-nats-bridge".to_owned(),
    }
}

/// How a JetStream publish that waits only for the stream's acknowledgment
/// ended.
pub enum JetStreamPublishOutcome {
    EncodeFailed,
    PublishFailed,
    AckFailed,
    Acked,
}

/// The result of a JetStream publish: done once acknowledged.
pub fn publish_jetstream_result(outcome: JetStreamPublishOutcome) -> (r: Result<(), ConnectorError>)
    ensures
        match outcome {
            JetStreamPublishOutcome::EncodeFailed => r matches Err(ConnectorError::RequestEncodingFailed),
            JetStreamPublishOutcome::PublishFailed => r matches Err(e) && is_step_failure(
                e,
                "Failed to publish to NATS JetStream"@,
            ),
            JetStreamPublishOutcome::AckFailed => r matches Err(e) && is_step_failure(
                e,
                "JetStream acknowledgment failed"@,
            ),
            JetStreamPublishOutcome::Acked => r is Ok,
        },
{
    match outcome {
        JetStreamPublishOutcome::EncodeFailed => Err(ConnectorError::RequestEncodingFailed),
        JetStreamPublishOutcome::PublishFailed => Err(step_failure("Failed to publish to NATS JetStream")),
        JetStreamPublishOutcome::AckFailed => Err(step_failure("JetStream acknowledgment failed")),
        JetStreamPublishOutcome::Acked => Ok(()),
    }
}

/// How a plain request-reply exchange ended.
pub enum RequestReplyOutcome {
    EncodeFailed,
    TimedOut,
    Failed,
    Replied(Vec<u8>),
}

/// The result of a request-reply exchange: the reply's payload.
pub fn request_reply_result(outcome: RequestReplyOutcome) -> (r: Result<Vec<u8>, ConnectorError>)
    ensures
        match outcome {
            RequestReplyOutcome::EncodeFailed => r matches Err(ConnectorError::RequestEncodingFailed),
            RequestReplyOutcome::TimedOut => r matches Err(e) && is_step_failure(e, "NATS request timeout"@),
            RequestReplyOutcome::Failed => r matches Err(e) && is_step_failure(e, "NATS request failed"@),
            RequestReplyOutcome::Replied(payload) => r == Ok::<Vec<u8>, ConnectorError>(payload),
        },
{
    match outcome {
        RequestReplyOutcome::EncodeFailed => Err(ConnectorError::RequestEncodingFailed),
        RequestReplyOutcome::TimedOut => Err(step_failure("NATS request timeout")),
        RequestReplyOutcome::Failed => Err(step_failure("NATS request failed")),
        RequestReplyOutcome::Replied(payload) => Ok(payload),
    }
}

/// How long JetStream may take, in seconds, in a publish that waits for a
/// worker's reply, to take the message and acknowledge that it stored it,
/// both steps together.
pub const JETSTREAM_ACK_TIMEOUT_SECS: u64 = 2;

/// Where a publish that waits for a worker's reply stands.
#[derive(Clone, Copy, Debug, PartialEq, Eq, Structural)]
pub enum PublishStage {
    /// Subscribing to a fresh inbox for the reply.
    Subscribing,
    /// Encoding the body and handing the message to JetStream.
    Publishing,
    /// Waiting for JetStream to acknowledge that it stored the message.
    AwaitingAck,
    /// Waiting for the worker's reply on the inbox.
    AwaitingReply,
    /// Done.
    Finished,
}

/// What happened at the current stage.
pub enum PublishEvent {
    InboxReady,
    InboxFailed,
    EncodeFailed,
    PublishTimedOut,
    PublishFailed,
    PublishSent,
    Acked,
    AckFailed,
    AckTimedOut,
    Replied(Vec<u8>),
    ReplyTimedOut,
    InboxClosed,
}

/// What to do next.
pub enum PublishAction {
    /// Add the reply inbox to the headers, encode the body and publish.
    Publish,
    /// Wait for JetStream's acknowledgment.
    AwaitAck,
    /// Wait for the worker's reply.
    AwaitReply,
    /// Stop with this result.
    Finish(Result<Vec<u8>, ConnectorError>),
}

/// The events that can happen at `stage`.
pub open spec fn event_expected(stage: PublishStage, event: PublishEvent) -> bool {
    match stage {
        PublishStage::Subscribing => event is InboxReady || event is InboxFailed,
        PublishStage::Publishing => event is EncodeFailed || event is PublishTimedOut
            || event is PublishFailed || event is PublishSent,
        PublishStage::AwaitingAck => event is Acked || event is AckFailed || event is AckTimedOut,
        PublishStage::AwaitingReply => event is Replied || event is ReplyTimedOut
            || event is InboxClosed,
        PublishStage::Finished => false,
    }
}

/// The stage after `event` at `stage`.
pub open spec fn next_stage(stage: PublishStage, event: PublishEvent) -> PublishStage {
    match (stage, event) {
        (PublishStage::Subscribing, PublishEvent::InboxReady) => PublishStage::Publishing,
        (PublishStage::Publishing, PublishEvent::PublishSent) => PublishStage::AwaitingAck,
        (PublishStage::AwaitingAck, PublishEvent::Acked) => PublishStage::AwaitingReply,
        _ => PublishStage::Finished,
    }
}

/// The action after `event` at `stage`, with the error each failure is
/// reported as.
pub open spec fn action_matches(stage: PublishStage, event: PublishEvent, action: PublishAction) -> bool {
    match (stage, event) {
        (PublishStage::Subscribing, PublishEvent::InboxReady) => action is Publish,
        (PublishStage::Subscribing, _) => action matches PublishAction::Finish(Err(e))
            && is_step_failure(e, "Failed to create inbox subscription"@),
        (PublishStage::Publishing, PublishEvent::PublishSent) => action is AwaitAck,
        (PublishStage::Publishing, PublishEvent::EncodeFailed) => action matches PublishAction::Finish(
            Err(ConnectorError::RequestEncodingFailed),
        ),
        (PublishStage::Publishing, PublishEvent::PublishTimedOut) => action matches PublishAction::Finish(Err(e))
            && is_step_failure(e, "JetStream publish timeout"@),
        (PublishStage::Publishing, _) => action matches PublishAction::Finish(Err(e))
            && is_step_failure(e, "JetStream publish failed"@),
        (PublishStage::AwaitingAck, PublishEvent::Acked) => action is AwaitReply,
        (PublishStage::AwaitingAck, PublishEvent::AckTimedOut) => action matches PublishAction::Finish(Err(e))
            && is_step_failure(e, "JetStream publish timeout"@),
        (PublishStage::AwaitingAck, _) => action matches PublishAction::Finish(Err(e))
            && is_step_failure(e, "JetStream acknowledgment failed"@),
        (PublishStage::AwaitingReply, PublishEvent::Replied(payload)) => action
            == PublishAction::Finish(Ok(payload)),
        (PublishStage::AwaitingReply, PublishEvent::ReplyTimedOut) => action matches PublishAction::Finish(Err(e))
            && is_step_failure(e, "Worker response timeout"@),
        (PublishStage::AwaitingReply, _) => action matches PublishAction::Finish(Err(e))
            && is_step_failure(e, "Inbox subscription closed"@),
        _ => false,
    }
}

/// Whether `event` can happen at `stage`.
pub fn is_expected(stage: PublishStage, event: &PublishEvent) -> (r: bool)
    ensures
        r == event_expected(stage, *event),
{
    match stage {
        PublishStage::Subscribing => match event {
            PublishEvent::InboxReady | PublishEvent::InboxFailed => true,
            _ => false,
        },
        PublishStage::Publishing => match event {
            PublishEvent::EncodeFailed | PublishEvent::PublishTimedOut | PublishEvent::PublishFailed
            | PublishEvent::PublishSent => true,
            _ => false,
        },
        PublishStage::AwaitingAck => match event {
            PublishEvent::Acked | PublishEvent::AckFailed | PublishEvent::AckTimedOut => true,
            _ => false,
        },
        PublishStage::AwaitingReply => match event {
            PublishEvent::Replied(_) | PublishEvent::ReplyTimedOut | PublishEvent::InboxClosed => true,
            _ => false,
        },
        PublishStage::Finished => false,
    }
}

/// One step of a publish that waits for a worker's reply: the stage after
/// `event`, and what to do.
pub fn publish_step(stage: PublishStage, event: PublishEvent) -> (r: (PublishStage, PublishAction))
    requires
        event_expected(stage, event),
    ensures
        r.0 == next_stage(stage, event),
        action_matches(stage, event, r.1),
{
    match stage {
        PublishStage::Subscribing => match event {
            PublishEvent::InboxReady => (PublishStage::Publishing, PublishAction::Publish),
            _ => (
                PublishStage::Finished,
                PublishAction::Finish(Err(step_failure("Failed to create inbox subscription"))),
            ),
        },
        PublishStage::Publishing => match event {
            PublishEvent::PublishSent => (PublishStage::AwaitingAck, PublishAction::AwaitAck),
            PublishEvent::EncodeFailed => (
                PublishStage::Finished,
                PublishAction::Finish(Err(ConnectorError::RequestEncodingFailed)),
            ),
            PublishEvent::PublishTimedOut => (
                PublishStage::Finished,
                PublishAction::Finish(Err(step_failure("JetStream publish timeout"))),
            ),
            _ => (
                PublishStage::Finished,
                PublishAction::Finish(Err(step_failure("JetStream publish failed"))),
            ),
        },
        PublishStage::AwaitingAck => match event {
            PublishEvent::Acked => (PublishStage::AwaitingReply, PublishAction::AwaitReply),
            PublishEvent::AckTimedOut => (
                PublishStage::Finished,
                PublishAction::Finish(Err(step_failure("JetStream publish timeout"))),
            ),
            _ => (
                PublishStage::Finished,
                PublishAction::Finish(Err(step_failure("JetStream acknowledgment failed"))),
            ),
        },
        PublishStage::AwaitingReply => match event {
            PublishEvent::Replied(payload) => (PublishStage::Finished, PublishAction::Finish(Ok(payload))),
            PublishEvent::ReplyTimedOut => (
                PublishStage::Finished,
                PublishAction::Finish(Err(step_failure("Worker response timeout"))),
            ),
            _ => (
                PublishStage::Finished,
                PublishAction::Finish(Err(step_failure("Inbox subscription closed"))),
            ),
        },
        PublishStage::Finished => unreached(),
    }
}

/// A counter the bridge keeps about publishes that wait for a reply.
#[derive(Clone, Copy, Debug, PartialEq, Eq, Structural)]
pub enum PublishCounter {
    /// JetStream did not acknowledge a publish.
    JetStreamPublishError,
    /// JetStream acknowledged a publish.
    JetStreamAckSuccess,
    /// A worker's reply arrived.
    WorkerResponseSuccess,
    /// No worker reply came in time.
    Timeout,
}

/// The metric updates of one publish step: the counter to raise, if any, and
/// whether the request's duration is recorded (once the wait for the reply
/// is over, however it ended).
pub struct PublishMetrics {
    pub counter: Option<PublishCounter>,
    pub record_duration: bool,
}

/// The counter raised by `event` at `stage`.
pub open spec fn counter_for(stage: PublishStage, event: PublishEvent) -> Option<PublishCounter> {
    match (stage, event) {
        (PublishStage::AwaitingAck, PublishEvent::Acked) => Some(PublishCounter::JetStreamAckSuccess),
        (PublishStage::AwaitingAck, _) => Some(PublishCounter::JetStreamPublishError),
        (PublishStage::AwaitingReply, PublishEvent::Replied(_)) => Some(PublishCounter::WorkerResponseSuccess),
        (PublishStage::AwaitingReply, PublishEvent::ReplyTimedOut) => Some(PublishCounter::Timeout),
        _ => None,
    }
}

/// The metric updates of `event` at `stage`.
pub fn publish_metrics(stage: PublishStage, event: &PublishEvent) -> (r: PublishMetrics)
    ensures
        r.counter == counter_for(stage, *event),
        r.record_duration == (stage == PublishStage::AwaitingReply),
{
    match stage {
        PublishStage::AwaitingAck => match event {
            PublishEvent::Acked => PublishMetrics {
                counter: Some(PublishCounter::JetStreamAckSuccess),
                record_duration: false,
            },
            _ => PublishMetrics { counter: Some(PublishCounter::JetStreamPublishError), record_duration: false },
        },
        PublishStage::AwaitingReply => match event {
            PublishEvent::Replied(_) => PublishMetrics {
                counter: Some(PublishCounter::WorkerResponseSuccess),
                record_duration: true,
            },
            PublishEvent::ReplyTimedOut => PublishMetrics {
                counter: Some(PublishCounter::Timeout),
                record_duration: true,
            },
            _ => PublishMetrics { counter: None, record_duration: true },
        },
        _ => PublishMetrics { counter: None, record_duration: false },
    }
}

/// Adds the worker's reply address to the headers of a publish.
pub fn add_reply_to(headers: &mut HeaderMap, inbox: &str)
    requires
        valid_header_value(inbox@),
    ensures
        header_entries(*final(headers)) == header_entries(*old(headers)).insert(
            "Nats-Reply-To"@,
            seq![inbox@],
        ),
{
    proof {
        reveal_strlit("Nats-Reply-To");
        assert("Nats-Reply-To"@ =~= seq![
            'N', 'a', 't', 's', '-', 'R', 'e', 'p', 'l', 'y', '-', 'T', 'o',
        ]);
        assert(valid_header_name("Nats-Reply-To"@));
    }
    header_map_insert(headers, "Nats-Reply-To", inbox);
}

} // verus!
