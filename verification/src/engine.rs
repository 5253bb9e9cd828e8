//! The communication engine: it owns the registry of transports, numbers the
//! messages that go out, keeps a bounded history of all messages and counts
//! the traffic.
//!
//! Messages reach the history through a queue.  Whoever drives the engine
//! calls [`CommunicationEngine::process_pending_messages`] to move what is
//! queued into the history; this happens only while the engine is running.
//! The same holds for the cleanup of the history, which
//! [`CommunicationEngine::cleanup_old_data`] does where it is due.
//!
//! The engine sends; it does not read.  How the bytes that arrive from a
//! device are cut into pieces is for the caller to decide, who hands each
//! piece over with [`CommunicationEngine::receive_data`].

use crate::adapter::{not_found_error, text_result, unit_result, TransportAdapter};
use crate::config::{DeviceConfig, DeviceConfigView};
use crate::error::{TermComError, TermComErrorView};
use crate::history::{bounded_tail, push_bounded, trim_to};
use crate::message::{
    fresh_message, Message, MessageMetadataView, MessagePattern, MessageType, MessageView,
};
use crate::registry::{RegistryView, TransportRegistry};
use crate::time::{span_between, Duration, Timestamp};
use crate::transport::{
    kind_of, session_not_found_message, SessionInfo, SessionInfoView, TransportClient,
    TransportType,
};
use std::collections::VecDeque;
use vstd::std_specs::vecdeque::VecDequeAdditionalSpecFns;
use vstd::prelude::*;
use vstd::utf8::encode_utf8;

verus! {

/// Counts of what the engine has seen.
#[derive(Clone, Copy, Debug, PartialEq, Eq, Structural)]
pub struct CommunicationStats {
    pub total_sessions: usize,
    pub active_sessions: usize,
    pub total_messages: usize,
    pub sent_messages: usize,
    pub received_messages: usize,
    pub error_messages: usize,
    pub total_bytes_sent: usize,
    pub total_bytes_received: usize,
    pub uptime: Duration,
}

/// How much room the message history takes.
#[derive(Clone, Copy, Debug, PartialEq, Eq, Structural)]
pub struct MemoryInfo {
    pub message_count: usize,
    pub message_capacity: usize,
    pub estimated_memory_bytes: usize,
    pub max_history_size: usize,
}

/// The engine as a value.
pub struct EngineView {
    pub registry: RegistryView,
    /// The messages of the history, oldest first.
    pub history: Seq<MessageView>,
    /// The messages that wait to be moved into the history, oldest first.
    pub pending: Seq<MessageView>,
    /// The sequence number that was given out last.
    pub sequence_counter: u64,
    pub max_history_size: usize,
    pub running: bool,
    pub start_time: Option<Timestamp>,
    pub total_bytes_sent: u64,
    pub total_bytes_received: u64,
    /// The number of messages that were moved into the history.
    pub message_count: usize,
    pub last_cleanup: Timestamp,
    pub cleanup_interval: Duration,
}

/// The number after `n`, starting over at zero after the largest.
pub open spec fn next_sequence(n: u64) -> u64 {
    if n == u64::MAX {
        0
    } else {
        (n + 1) as u64
    }
}

/// `total` and `more` added, starting over at zero after the largest number.
pub open spec fn wrapped_sum(total: u64, more: u64) -> u64 {
    if total + more > u64::MAX {
        (total + more - u64::MAX - 1) as u64
    } else {
        (total + more) as u64
    }
}

/// The count after `count`, starting over at zero after the largest.
pub open spec fn next_count(count: usize) -> usize {
    if count == usize::MAX {
        0
    } else {
        (count + 1) as usize
    }
}

/// The count after `steps` more have been counted.
pub open spec fn advanced_count(count: usize, steps: nat) -> usize
    decreases steps,
{
    if steps == 0 {
        count
    } else {
        next_count(advanced_count(count, (steps - 1) as nat))
    }
}

/// The number of messages of the given type in a history.
pub open spec fn count_of_type(history: Seq<MessageView>, message_type: MessageType) -> nat
    decreases history.len(),
{
    if history.len() == 0 {
        0
    } else {
        count_of_type(history.drop_last(), message_type) + if history.last().message_type
            == message_type {
            1nat
        } else {
            0nat
        }
    }
}

/// The number of connections that are up.
pub open spec fn count_connected(sessions: Seq<SessionInfoView>) -> nat
    decreases sessions.len(),
{
    if sessions.len() == 0 {
        0
    } else {
        count_connected(sessions.drop_last()) + if sessions.last().status is Connected {
            1nat
        } else {
            0nat
        }
    }
}

/// The messages of `history` that `pattern` admits, in their order.
pub open spec fn admitted(
    history: Seq<MessageView>,
    pattern: crate::message::MessagePatternView,
) -> Seq<MessageView>
    decreases history.len(),
{
    if history.len() == 0 {
        Seq::empty()
    } else if pattern.admits(history.last()) {
        admitted(history.drop_last(), pattern).push(history.last())
    } else {
        admitted(history.drop_last(), pattern)
    }
}

/// The history after the queued messages have been moved into it one by
/// one, oldest first.
pub open spec fn drained(history: Seq<MessageView>, pending: Seq<MessageView>, capacity: nat) -> Seq<
    MessageView,
>
    decreases pending.len(),
{
    if pending.len() == 0 {
        history
    } else {
        drained(bounded_tail(history.push(pending[0]), capacity), pending.skip(1), capacity)
    }
}

/// The text of the message that records a new connection.
pub open spec fn created_text(kind: TransportType) -> Seq<char> {
    "Session created using "@ + kind.name() + " transport"@
}

/// Whether `message` is a system message with the given content, whatever
/// its identifier and time.
pub open spec fn is_system_message(
    message: MessageView,
    session_id: Seq<char>,
    device_name: Seq<char>,
    text: Seq<char>,
    transport: Seq<char>,
) -> bool {
    message == fresh_message(
        message.id,
        message.timestamp,
        session_id,
        device_name,
        MessageType::System,
        encode_utf8(text),
        transport,
    )
}

/// Whether `message` is an outgoing message with the given content and
/// sequence number, whatever its identifier and time.
pub open spec fn is_outgoing_message(
    message: MessageView,
    message_type: MessageType,
    session_id: Seq<char>,
    device_name: Seq<char>,
    data: Seq<u8>,
    transport: Seq<char>,
    sequence: u64,
) -> bool {
    let plain = fresh_message(
        message.id,
        message.timestamp,
        session_id,
        device_name,
        message_type,
        data,
        transport,
    );
    message == (MessageView {
        metadata: MessageMetadataView { sequence, ..plain.metadata },
        ..plain
    })
}

impl EngineView {
    /// Whether `later` is this engine with one more message in its queue.
    pub open spec fn queued_one(self, later: EngineView) -> bool {
        later.pending.len() == self.pending.len() + 1 && later.pending.drop_last() == self.pending
    }

    /// What holds of every engine that this crate builds: its registry is
    /// well formed and its history is within its limit.
    pub open spec fn wf(self) -> bool {
        &&& self.registry.wf()
        &&& self.history.len() <= self.max_history_size
    }
}

/// What `start` does to an engine at the time `now`.  A running engine is
/// left as it is and the call is refused; a stopped one runs from `now` on.
pub open spec fn start_outcome(
    pre: EngineView,
    post: EngineView,
    now: Timestamp,
    r: Result<(), TermComErrorView>,
) -> bool {
    if pre.running {
        &&& r == Err::<(), TermComErrorView>(
            TermComErrorView::Communication {
                message: "Communication engine is already running"@,
            },
        )
        &&& post == pre
    } else {
        &&& r is Ok
        &&& post == EngineView { running: true, start_time: Some(now), ..pre }
    }
}

/// What `stop` does to an engine.  A stopped engine is left as it is.  A
/// running one stops and closes every connection of every transport.
pub open spec fn stop_outcome(pre: EngineView, post: EngineView) -> bool {
    if pre.running {
        post == EngineView { running: false, registry: pre.registry.emptied(), ..pre }
    } else {
        post == pre
    }
}

/// What `create_session` may do to an engine and return.  The registry does
/// what its own `create_session` says.  A new connection is recorded by a
/// system message in the queue; a failure leaves the queue as it was.
/// Nothing else changes.
pub open spec fn create_outcome(
    pre: EngineView,
    post: EngineView,
    device: DeviceConfigView,
    r: Result<Seq<char>, TermComErrorView>,
) -> bool {
    let kind = kind_of(device.connection);
    &&& crate::registry::create_outcome(
        pre.registry,
        post.registry,
        device,
        match r {
            Ok(id) => Ok((id, kind)),
            Err(e) => Err(e),
        },
    )
    &&& match r {
        Ok(id) => pre.queued_one(post) && is_system_message(
            post.pending.last(),
            id,
            device.name,
            created_text(kind),
            kind.name(),
        ),
        Err(_) => post.pending == pre.pending,
    }
    &&& post == EngineView { registry: post.registry, pending: post.pending, ..pre }
}

/// What `close_session` may do to an engine and return.  The registry does
/// what its own `close_session` says.  Where the close went through and the
/// connection was known, a system message in the queue records it.  Nothing
/// else changes.
pub open spec fn close_outcome(
    pre: EngineView,
    post: EngineView,
    id: Seq<char>,
    r: Result<(), TermComErrorView>,
) -> bool {
    &&& crate::registry::close_outcome(pre.registry, post.registry, id, r)
    &&& match (r, pre.registry.session(id)) {
        (Ok(_), Some(info)) => pre.queued_one(post) && is_system_message(
            post.pending.last(),
            id,
            info.device_name,
            "Session closed"@,
            info.transport_type.name(),
        ),
        _ => post.pending == pre.pending,
    }
    &&& post == EngineView { registry: post.registry, pending: post.pending, ..pre }
}

/// What `send_data` and `send_command` may do to an engine and return.  An
/// identifier that no table holds is reported and nothing changes.
/// Otherwise the registry does what its own `send_data` says.  Where the
/// write went through, the bytes are counted, the next sequence number is
/// given out and a message with that number is queued; where it failed,
/// nothing but the registry may have changed.
pub open spec fn send_outcome(
    pre: EngineView,
    post: EngineView,
    id: Seq<char>,
    message_type: MessageType,
    data: Seq<u8>,
    r: Result<(), TermComErrorView>,
) -> bool {
    match pre.registry.session(id) {
        None => r == Err::<(), TermComErrorView>(not_found_error(id)) && post == pre,
        Some(info) => {
            &&& crate::registry::send_outcome(pre.registry, post.registry, id, r)
            &&& match r {
                Ok(_) => {
                    &&& pre.queued_one(post)
                    &&& is_outgoing_message(
                        post.pending.last(),
                        message_type,
                        id,
                        info.device_name,
                        data,
                        info.transport_type.name(),
                        next_sequence(pre.sequence_counter),
                    )
                    &&& post == EngineView {
                        registry: post.registry,
                        pending: post.pending,
                        sequence_counter: next_sequence(pre.sequence_counter),
                        total_bytes_sent: wrapped_sum(pre.total_bytes_sent, data.len() as u64),
                        ..pre
                    }
                },
                Err(_) => post == EngineView { registry: post.registry, ..pre },
            }
        },
    }
}

/// Whether `message` is a message for bytes that arrived, with the given
/// content, whatever its identifier and time.
pub open spec fn is_incoming_message(
    message: MessageView,
    session_id: Seq<char>,
    device_name: Seq<char>,
    data: Seq<u8>,
    transport: Seq<char>,
) -> bool {
    message == fresh_message(
        message.id,
        message.timestamp,
        session_id,
        device_name,
        MessageType::Received,
        data,
        transport,
    )
}

/// What `receive_data` does to an engine and returns.  An identifier that
/// no table holds is reported and nothing changes.  Otherwise the bytes are
/// counted as received and a message of the type `Received` is queued; it
/// gets no sequence number, and nothing else changes.
pub open spec fn receive_outcome(
    pre: EngineView,
    post: EngineView,
    id: Seq<char>,
    data: Seq<u8>,
    r: Result<(), TermComErrorView>,
) -> bool {
    match pre.registry.session(id) {
        None => r == Err::<(), TermComErrorView>(not_found_error(id)) && post == pre,
        Some(info) => {
            &&& r is Ok
            &&& pre.queued_one(post)
            &&& is_incoming_message(
                post.pending.last(),
                id,
                info.device_name,
                data,
                info.transport_type.name(),
            )
            &&& post == EngineView {
                pending: post.pending,
                total_bytes_received: wrapped_sum(pre.total_bytes_received, data.len() as u64),
                ..pre
            }
        },
    }
}

/// The engine after its queue has been moved into the history, where it is
/// running; a stopped engine moves nothing.
pub open spec fn processed(pre: EngineView) -> EngineView {
    if pre.running {
        EngineView {
            history: drained(pre.history, pre.pending, pre.max_history_size as nat),
            pending: Seq::empty(),
            message_count: advanced_count(pre.message_count, pre.pending.len()),
            ..pre
        }
    } else {
        pre
    }
}

/// The engine after a cleanup at the time `now`: where more than the
/// cleanup interval has passed since the last one, the history is cut to its
/// limit and the time is noted; else nothing changes.
pub open spec fn cleaned(pre: EngineView, now: Timestamp) -> EngineView {
    if span_between(now, pre.last_cleanup).nanos > pre.cleanup_interval.nanos {
        EngineView {
            last_cleanup: now,
            history: bounded_tail(pre.history, pre.max_history_size as nat),
            ..pre
        }
    } else {
        pre
    }
}

/// The statistics of an engine at the time `now`.
pub open spec fn statistics_of(engine: EngineView, now: Timestamp) -> CommunicationStats {
    CommunicationStats {
        total_sessions: engine.registry.all_sessions().len() as usize,
        active_sessions: count_connected(engine.registry.all_sessions()) as usize,
        total_messages: engine.message_count,
        sent_messages: count_of_type(engine.history, MessageType::Sent) as usize,
        received_messages: count_of_type(engine.history, MessageType::Received) as usize,
        error_messages: count_of_type(engine.history, MessageType::Error) as usize,
        total_bytes_sent: engine.total_bytes_sent as usize,
        total_bytes_received: engine.total_bytes_received as usize,
        uptime: match engine.start_time {
            Some(start) => span_between(now, start),
            None => Duration { nanos: 0 },
        },
    }
}

/// Counting on first and then counting `steps` more gives what counting
/// `steps` more and then once more gives.
pub proof fn lemma_advanced_count_shift(count: usize, steps: nat)
    ensures
        advanced_count(next_count(count), steps) == next_count(advanced_count(count, steps)),
    decreases steps,
{
    if steps > 0 {
        lemma_advanced_count_shift(count, (steps - 1) as nat);
    }
}

/// Where the count does not pass the largest number, counting `steps` more
/// adds `steps`.
pub proof fn lemma_advanced_count_sum(count: usize, steps: nat)
    requires
        count + steps <= usize::MAX,
    ensures
        advanced_count(count, steps) == count + steps,
    decreases steps,
{
    if steps > 0 {
        lemma_advanced_count_sum(count, (steps - 1) as nat);
    }
}

/// Moving the queue into a history that is within the capacity leaves it
/// within the capacity.
pub proof fn lemma_drained_len(history: Seq<MessageView>, pending: Seq<MessageView>, capacity: nat)
    requires
        history.len() <= capacity,
    ensures
        drained(history, pending, capacity).len() <= capacity,
    decreases pending.len(),
{
    if pending.len() > 0 {
        lemma_drained_len(
            bounded_tail(history.push(pending[0]), capacity),
            pending.skip(1),
            capacity,
        );
    }
}

/// Moving the queue into a history that is within the capacity gives the
/// newest messages of the history followed by the queue, up to the capacity.
pub proof fn lemma_drained_is_tail(
    history: Seq<MessageView>,
    pending: Seq<MessageView>,
    capacity: nat,
)
    requires
        history.len() <= capacity,
    ensures
        drained(history, pending, capacity) == bounded_tail(history + pending, capacity),
    decreases pending.len(),
{
    if pending.len() > 0 {
        let first = bounded_tail(history.push(pending[0]), capacity);
        let rest = pending.skip(1);
        lemma_drained_is_tail(first, rest, capacity);
        assert(bounded_tail(first + rest, capacity) =~= bounded_tail(history + pending, capacity));
    } else {
        assert(history + pending =~= history);
    }
}

/// Reads how many messages the history has room for, through
/// `VecDeque::capacity`.  The number depends on the allocator; nothing is
/// claimed about it.
#[verifier::external_body]
fn history_capacity(history: &VecDeque<Message>) -> (capacity: usize) {
    history.capacity()
}

/// Gives unused room of the history back through `VecDeque::shrink_to_fit`,
/// which keeps the entries and their order.
#[verifier::external_body]
fn shrink_history(history: &mut VecDeque<Message>)
    ensures
        final(history)@ == old(history)@,
{
    history.shrink_to_fit()
}

/// The central engine for communication over all transports.
pub struct CommunicationEngine<C: TransportClient> {
    registry: TransportRegistry<C>,
    message_history: VecDeque<Message>,
    pending: VecDeque<Message>,
    sequence_counter: u64,
    max_history_size: usize,
    running: bool,
    start_time: Option<Timestamp>,
    total_bytes_sent: u64,
    total_bytes_received: u64,
    message_count: usize,
    last_cleanup: Timestamp,
    cleanup_interval: Duration,
}

impl<C: TransportClient> View for CommunicationEngine<C> {
    type V = EngineView;

    closed spec fn view(&self) -> EngineView {
        EngineView {
            registry: self.registry@,
            history: self.message_history.deep_view(),
            pending: self.pending.deep_view(),
            sequence_counter: self.sequence_counter,
            max_history_size: self.max_history_size,
            running: self.running,
            start_time: self.start_time,
            total_bytes_sent: self.total_bytes_sent,
            total_bytes_received: self.total_bytes_received,
            message_count: self.message_count,
            last_cleanup: self.last_cleanup,
            cleanup_interval: self.cleanup_interval,
        }
    }
}

/// Seconds between two cleanups of the history.
pub const CLEANUP_INTERVAL_SECS: u64 = 300;

impl<C: TransportClient> CommunicationEngine<C> {
    /// A stopped engine with a serial and a TCP transport, each with room
    /// for `max_sessions_per_transport` connections, and a history of at
    /// most `max_history_size` messages.
    pub fn new(max_history_size: usize, max_sessions_per_transport: usize) -> (engine: Self)
        ensures
            engine@.wf(),
            engine@ == (EngineView {
                registry: RegistryView {
                    serial: Some(
                        crate::transport::AdapterView {
                            kind: TransportType::Serial,
                            max_sessions: max_sessions_per_transport,
                            sessions: Seq::empty(),
                        },
                    ),
                    tcp: Some(
                        crate::transport::AdapterView {
                            kind: TransportType::Tcp,
                            max_sessions: max_sessions_per_transport,
                            sessions: Seq::empty(),
                        },
                    ),
                },
                history: Seq::empty(),
                pending: Seq::empty(),
                sequence_counter: 0,
                max_history_size,
                running: false,
                start_time: None,
                total_bytes_sent: 0,
                total_bytes_received: 0,
                message_count: 0,
                last_cleanup: engine@.last_cleanup,
                cleanup_interval: Duration { nanos: 300_000_000_000 },
            }),
    {
        let mut registry = TransportRegistry::new();
        registry.register_transport(
            TransportAdapter::new(TransportType::Serial, max_sessions_per_transport),
        );
        registry.register_transport(
            TransportAdapter::new(TransportType::Tcp, max_sessions_per_transport),
        );
        let engine = CommunicationEngine {
            registry,
            message_history: VecDeque::new(),
            pending: VecDeque::new(),
            sequence_counter: 0,
            max_history_size,
            running: false,
            start_time: None,
            total_bytes_sent: 0,
            total_bytes_received: 0,
            message_count: 0,
            last_cleanup: Timestamp::now(),
            cleanup_interval: Duration::from_secs(CLEANUP_INTERVAL_SECS),
        };
        assert(engine@.history =~= Seq::<MessageView>::empty());
        assert(engine@.pending =~= Seq::<MessageView>::empty());
        engine
    }

    /// Starts the engine at the time `now`.
    pub fn start_at(&mut self, now: Timestamp) -> (r: Result<(), TermComError>)
        ensures
            start_outcome(old(self)@, final(self)@, now, unit_result(r)),
            old(self)@.wf() ==> final(self)@.wf(),
    {
        if self.running {
            return Err(
                TermComError::Communication {
                    message: String::from_str("Communication engine is already running"),
                },
            );
        }
        self.running = true;
        self.start_time = Some(now);
        Ok(())
    }

    /// Starts the engine.  A running engine refuses and stays as it is; a
    /// stopped one runs from the current time on.
    pub fn start(&mut self) -> (r: Result<(), TermComError>)
        ensures
            exists|now: Timestamp| start_outcome(old(self)@, final(self)@, now, unit_result(r)),
            old(self)@.wf() ==> final(self)@.wf(),
    {
        let now = Timestamp::now();
        let r = self.start_at(now);
        assert(start_outcome(old(self)@, self@, now, unit_result(r)));
        r
    }

    /// Stops the engine and closes every connection.  A stopped engine stays
    /// as it is; the call succeeds either way.
    pub fn stop(&mut self) -> (r: Result<(), TermComError>)
        ensures
            r is Ok,
            stop_outcome(old(self)@, final(self)@),
            old(self)@.wf() ==> final(self)@.wf(),
    {
        if !self.running {
            return Ok(());
        }
        self.running = false;
        self.registry.close_all_sessions()
    }

    /// Whether the engine is running.
    pub fn is_running(&self) -> (running: bool)
        ensures
            running == self@.running,
    {
        self.running
    }

    /// Puts a message into the queue for the history.
    pub fn add_message_to_history(&mut self, message: Message)
        ensures
            final(self)@ == (EngineView {
                pending: old(self)@.pending.push(message@),
                ..old(self)@
            }),
            old(self)@.queued_one(final(self)@),
            final(self)@.pending.last() == message@,
    {
        let ghost before = self.pending.deep_view();
        self.pending.push_back(message);
        assert(self.pending.deep_view() =~= before.push(message@));
        assert(self.pending.deep_view().drop_last() =~= before);
    }

    /// Finishes the opening of a connection once the registry has answered.
    /// A connection that stands is recorded by a system message in the
    /// queue, and its identifier is returned; a failure is handed back and
    /// changes nothing.
    pub fn settle_create(
        &mut self,
        device_config: &DeviceConfig,
        created: Result<(String, TransportType), TermComError>,
    ) -> (r: Result<String, TermComError>)
        ensures
            match created {
                Ok(made) => {
                    &&& text_result(r) == Ok::<Seq<char>, TermComErrorView>(made.0@)
                    &&& old(self)@.queued_one(final(self)@)
                    &&& is_system_message(
                        final(self)@.pending.last(),
                        made.0@,
                        device_config@.name,
                        created_text(made.1),
                        made.1.name(),
                    )
                    &&& final(self)@ == (EngineView {
                        pending: final(self)@.pending,
                        ..old(self)@
                    })
                },
                Err(e) => text_result(r) == Err::<Seq<char>, TermComErrorView>(e@) && final(self)@
                    == old(self)@,
            },
    {
        match created {
            Ok((session_id, transport_type)) => {
                let text = String::from_str("Session created using ").concat(
                    transport_type.to_string().as_str(),
                ).concat(" transport");
                let message = Message::system(
                    session_id.clone(),
                    device_config.name.clone(),
                    text,
                    transport_type.to_string(),
                );
                self.add_message_to_history(message);
                Ok(session_id)
            },
            Err(e) => Err(e),
        }
    }

    /// Opens a connection to the device and records it by a system message.
    pub fn create_session(&mut self, device_config: &DeviceConfig) -> (r: Result<
        String,
        TermComError,
    >)
        ensures
            create_outcome(old(self)@, final(self)@, device_config@, text_result(r)),
            old(self)@.wf() ==> final(self)@.wf(),
    {
        let created = self.registry.create_session(device_config);
        self.settle_create(device_config, created)
    }

    /// Finishes the closing of a connection once the registry has answered.
    /// Where the close went through and the connection was known before, it
    /// is recorded by a system message in the queue; else nothing changes.
    /// The answer of the registry is handed back.
    pub fn settle_close(
        &mut self,
        session_id: &str,
        session_info: Option<SessionInfo>,
        closed: Result<(), TermComError>,
    ) -> (r: Result<(), TermComError>)
        ensures
            unit_result(r) == unit_result(closed),
            match (closed, session_info) {
                (Ok(_), Some(info)) => {
                    &&& old(self)@.queued_one(final(self)@)
                    &&& is_system_message(
                        final(self)@.pending.last(),
                        session_id@,
                        info@.device_name,
                        "Session closed"@,
                        info@.transport_type.name(),
                    )
                    &&& final(self)@ == (EngineView {
                        pending: final(self)@.pending,
                        ..old(self)@
                    })
                },
                _ => final(self)@ == old(self)@,
            },
    {
        match closed {
            Ok(_) => {},
            Err(e) => {
                return Err(e);
            },
        }
        if let Some(info) = session_info {
            let message = Message::system(
                String::from_str(session_id),
                info.device_name,
                String::from_str("Session closed"),
                info.transport_type.to_string(),
            );
            self.add_message_to_history(message);
        }
        Ok(())
    }

    /// Closes the connection and records this by a system message.
    pub fn close_session(&mut self, session_id: &str) -> (r: Result<(), TermComError>)
        ensures
            close_outcome(old(self)@, final(self)@, session_id@, unit_result(r)),
            old(self)@.wf() ==> final(self)@.wf(),
    {
        let session_info = self.registry.get_session_info(session_id);
        let closed = self.registry.close_session(session_id);
        self.settle_close(session_id, session_info, closed)
    }

    /// Finishes a write once the registry has answered.  Where the write
    /// went through, the bytes are counted, the next sequence number is
    /// given out, and a message of the given type with that number is
    /// queued; a failure is handed back and changes nothing.
    pub fn settle_send(
        &mut self,
        session_id: &str,
        session_info: SessionInfo,
        data: Vec<u8>,
        message_type: MessageType,
        sent: Result<(), TermComError>,
    ) -> (r: Result<(), TermComError>)
        ensures
            unit_result(r) == unit_result(sent),
            match sent {
                Ok(_) => {
                    &&& old(self)@.queued_one(final(self)@)
                    &&& is_outgoing_message(
                        final(self)@.pending.last(),
                        message_type,
                        session_id@,
                        session_info@.device_name,
                        data@,
                        session_info@.transport_type.name(),
                        next_sequence(old(self)@.sequence_counter),
                    )
                    &&& final(self)@ == (EngineView {
                        pending: final(self)@.pending,
                        sequence_counter: next_sequence(old(self)@.sequence_counter),
                        total_bytes_sent: wrapped_sum(
                            old(self)@.total_bytes_sent,
                            data@.len() as u64,
                        ),
                        ..old(self)@
                    })
                },
                Err(_) => final(self)@ == old(self)@,
            },
    {
        match sent {
            Ok(_) => {},
            Err(e) => {
                return Err(e);
            },
        }
        let size: u64 = data.len() as u64;
        self.total_bytes_sent = self.total_bytes_sent.wrapping_add(size);
        let mut message = Message::new(
            String::from_str(session_id),
            session_info.device_name,
            message_type,
            data,
            session_info.transport_type.to_string(),
        );
        self.sequence_counter = self.sequence_counter.wrapping_add(1);
        message.set_sequence(self.sequence_counter);
        self.add_message_to_history(message);
        Ok(())
    }

    fn send_bytes(&mut self, session_id: &str, data: Vec<u8>, message_type: MessageType) -> (r:
        Result<(), TermComError>)
        ensures
            send_outcome(
                old(self)@,
                final(self)@,
                session_id@,
                message_type,
                data@,
                unit_result(r),
            ),
            old(self)@.wf() ==> final(self)@.wf(),
    {
        let session_info = match self.registry.get_session_info(session_id) {
            Some(info) => info,
            None => {
                return Err(
                    TermComError::Communication {
                        message: session_not_found_message(session_id),
                    },
                );
            },
        };
        let copy = data.clone();
        assert(copy@ =~= data@);
        let sent = self.registry.send_data(session_id, copy);
        self.settle_send(session_id, session_info, data, message_type, sent)
    }

    /// Writes `data` to the connection, numbers the message and queues it
    /// for the history.
    pub fn send_data(&mut self, session_id: &str, data: Vec<u8>) -> (r: Result<(), TermComError>)
        ensures
            send_outcome(
                old(self)@,
                final(self)@,
                session_id@,
                MessageType::Sent,
                data@,
                unit_result(r),
            ),
            old(self)@.wf() ==> final(self)@.wf(),
    {
        self.send_bytes(session_id, data, MessageType::Sent)
    }

    /// Writes the text of a command to the connection, numbers the message
    /// and queues it for the history.
    pub fn send_command(&mut self, session_id: &str, command: &str) -> (r: Result<
        (),
        TermComError,
    >)
        ensures
            send_outcome(
                old(self)@,
                final(self)@,
                session_id@,
                MessageType::Command,
                encode_utf8(command@),
                unit_result(r),
            ),
            old(self)@.wf() ==> final(self)@.wf(),
    {
        self.send_bytes(session_id, command.as_bytes_vec(), MessageType::Command)
    }

    /// Takes in bytes that arrived from the device of a connection.  This
    /// is where a caller who reads from a device hands over what it read:
    /// how the stream is cut into pieces is the caller's choice, and each
    /// piece becomes one message of the type `Received`.
    pub fn receive_data(&mut self, session_id: &str, data: Vec<u8>) -> (r: Result<(), TermComError>)
        ensures
            receive_outcome(old(self)@, final(self)@, session_id@, data@, unit_result(r)),
            old(self)@.wf() ==> final(self)@.wf(),
    {
        let session_info = match self.registry.get_session_info(session_id) {
            Some(info) => info,
            None => {
                return Err(
                    TermComError::Communication {
                        message: session_not_found_message(session_id),
                    },
                );
            },
        };
        let size: u64 = data.len() as u64;
        self.total_bytes_received = self.total_bytes_received.wrapping_add(size);
        let message = Message::received(
            String::from_str(session_id),
            session_info.device_name,
            data,
            session_info.transport_type.to_string(),
        );
        self.add_message_to_history(message);
        Ok(())
    }

    /// What is known about the connection with the given identifier.
    pub fn get_session_info(&self, session_id: &str) -> (info: Option<SessionInfo>)
        ensures
            info.deep_view() == self@.registry.session(session_id@),
    {
        self.registry.get_session_info(session_id)
    }

    /// What is known about every connection.
    pub fn list_sessions(&self) -> (list: Vec<SessionInfo>)
        ensures
            list.deep_view() == self@.registry.all_sessions(),
    {
        self.registry.list_all_sessions()
    }

    /// The kinds of transport that the engine has.
    pub fn available_transports(&self) -> (kinds: Vec<TransportType>)
        ensures
            kinds@ == (if self@.registry.serial is Some {
                seq![TransportType::Serial]
            } else {
                Seq::<TransportType>::empty()
            }) + (if self@.registry.tcp is Some {
                seq![TransportType::Tcp]
            } else {
                Seq::<TransportType>::empty()
            }),
    {
        self.registry.available_transports()
    }

    /// Moves the oldest queued message into the history, where the engine is
    /// running and a message is queued, and says whether it did.
    pub fn process_next_message(&mut self) -> (moved: bool)
        ensures
            moved == (old(self)@.running && old(self)@.pending.len() > 0),
            final(self)@ == if moved {
                EngineView {
                    history: bounded_tail(
                        old(self)@.history.push(old(self)@.pending[0]),
                        old(self)@.max_history_size as nat,
                    ),
                    pending: old(self)@.pending.skip(1),
                    message_count: next_count(old(self)@.message_count),
                    ..old(self)@
                }
            } else {
                old(self)@
            },
    {
        if !self.running {
            return false;
        }
        let ghost queue = self.pending.deep_view();
        let ghost history = self.message_history.deep_view();
        match self.pending.pop_front() {
            Some(message) => {
                assert(self.pending.deep_view() =~= queue.skip(1));
                assert(message@ == queue[0]);
                push_bounded(&mut self.message_history, message, self.max_history_size);
                assert(self.message_history.deep_view() =~= bounded_tail(
                    history.push(queue[0]),
                    self.max_history_size as nat,
                ));
                self.message_count = self.message_count.wrapping_add(1);
                true
            },
            None => {
                assert(self.pending.deep_view() =~= queue);
                false
            },
        }
    }

    /// Moves every queued message into the history, oldest first, where the
    /// engine is running, and gives the number of messages moved.
    pub fn process_pending_messages(&mut self) -> (moved: usize)
        ensures
            final(self)@ == processed(old(self)@),
            moved == if old(self)@.running {
                old(self)@.pending.len()
            } else {
                0
            },
            old(self)@.wf() ==> final(self)@.wf(),
    {
        let mut moved: usize = 0;
        proof {
            if self@.wf() {
                lemma_drained_len(
                    self@.history,
                    self@.pending,
                    self@.max_history_size as nat,
                );
            }
        }
        if !self.running {
            return 0;
        }
        assert(self@.pending.len() == self.pending.len());
        while self.pending.len() > 0
            invariant
                self@.running,
                processed(self@) == processed(old(self)@),
                moved + self@.pending.len() == old(self)@.pending.len(),
                old(self)@.pending.len() <= usize::MAX,
            decreases self.pending.len(),
        {
            let ghost before = self@;
            let step = self.process_next_message();
            proof {
                assert(step);
                lemma_advanced_count_shift(
                    before.message_count,
                    (before.pending.len() - 1) as nat,
                );
                assert(processed(self@) == processed(before));
            }
            moved = moved + 1;
        }
        assert(self@.pending =~= Seq::<MessageView>::empty());
        moved
    }

    /// The messages of the history, oldest first.
    pub fn get_message_history(&self) -> (messages: Vec<Message>)
        ensures
            messages.deep_view() == self@.history,
    {
        let mut messages: Vec<Message> = Vec::new();
        let mut i: usize = 0;
        while i < self.message_history.len()
            invariant
                i <= self.message_history.len(),
                messages.len() == i,
                forall|j: int| 0 <= j < i ==> messages[j]@ == self.message_history[j]@,
            decreases self.message_history.len() - i,
        {
            messages.push(self.message_history[i].clone());
            i = i + 1;
        }
        assert(messages.deep_view() =~= self.message_history.deep_view());
        messages
    }

    /// The messages of the history that the pattern admits, oldest first.
    pub fn get_filtered_messages(&self, pattern: &MessagePattern) -> (messages: Vec<Message>)
        ensures
            messages.deep_view() == admitted(self@.history, pattern@),
    {
        let mut messages: Vec<Message> = Vec::new();
        let mut i: usize = 0;
        assert(self@.history.subrange(0, 0) =~= Seq::<MessageView>::empty());
        assert(messages.deep_view() =~= Seq::<MessageView>::empty());
        while i < self.message_history.len()
            invariant
                i <= self.message_history.len(),
                messages.deep_view() == admitted(self@.history.subrange(0, i as int), pattern@),
            decreases self.message_history.len() - i,
        {
            let ghost before = messages.deep_view();
            let ghost upto = self@.history.subrange(0, i + 1);
            assert(upto.drop_last() =~= self@.history.subrange(0, i as int));
            assert(upto.last() == self.message_history[i as int]@);
            if self.message_history[i].matches_pattern(pattern) {
                messages.push(self.message_history[i].clone());
                assert(messages.deep_view() =~= before.push(self.message_history[i as int]@));
            }
            i = i + 1;
        }
        assert(self@.history.subrange(0, self@.history.len() as int) =~= self@.history);
        messages
    }

    /// Empties the history.
    pub fn clear_history(&mut self)
        ensures
            final(self)@ == (EngineView { history: Seq::empty(), ..old(self)@ }),
            old(self)@.wf() ==> final(self)@.wf(),
    {
        self.message_history.clear();
        assert(self.message_history.deep_view() =~= Seq::<MessageView>::empty());
    }

    fn count_messages(&self, message_type: MessageType) -> (count: usize)
        ensures
            count == count_of_type(self@.history, message_type),
    {
        let mut count: usize = 0;
        let mut i: usize = 0;
        assert(self@.history.subrange(0, 0) =~= Seq::<MessageView>::empty());
        while i < self.message_history.len()
            invariant
                i <= self.message_history.len(),
                count == count_of_type(self@.history.subrange(0, i as int), message_type),
                count <= i,
            decreases self.message_history.len() - i,
        {
            let ghost upto = self@.history.subrange(0, i + 1);
            assert(upto.drop_last() =~= self@.history.subrange(0, i as int));
            assert(upto.last() == self.message_history[i as int]@);
            if self.message_history[i].message_type == message_type {
                count = count + 1;
            }
            i = i + 1;
        }
        assert(self@.history.subrange(0, self@.history.len() as int) =~= self@.history);
        count
    }

    /// The statistics of the engine at the time `now`.
    pub fn get_statistics_at(&self, now: Timestamp) -> (stats: CommunicationStats)
        ensures
            stats == statistics_of(self@, now),
    {
        let sessions = self.registry.list_all_sessions();
        let mut active: usize = 0;
        let mut i: usize = 0;
        assert(sessions.deep_view().subrange(0, 0) =~= Seq::<SessionInfoView>::empty());
        while i < sessions.len()
            invariant
                i <= sessions.len(),
                active == count_connected(sessions.deep_view().subrange(0, i as int)),
                active <= i,
            decreases sessions.len() - i,
        {
            let ghost upto = sessions.deep_view().subrange(0, i + 1);
            assert(upto.drop_last() =~= sessions.deep_view().subrange(0, i as int));
            assert(upto.last() == sessions[i as int]@);
            if sessions[i].status.is_connected() {
                active = active + 1;
            }
            i = i + 1;
        }
        assert(sessions.deep_view().subrange(0, sessions.len() as int) =~= sessions.deep_view());
        let uptime = match self.start_time {
            Some(start) => now.duration_since(&start),
            None => Duration::zero(),
        };
        CommunicationStats {
            total_sessions: sessions.len(),
            active_sessions: active,
            total_messages: self.message_count,
            sent_messages: self.count_messages(MessageType::Sent),
            received_messages: self.count_messages(MessageType::Received),
            error_messages: self.count_messages(MessageType::Error),
            total_bytes_sent: #[verifier::truncate]
            (self.total_bytes_sent as usize),
            total_bytes_received: #[verifier::truncate]
            (self.total_bytes_received as usize),
            uptime,
        }
    }

    /// The statistics of the engine, with the time it has been up read off
    /// the system clock.
    pub fn get_statistics(&self) -> (stats: CommunicationStats)
        ensures
            exists|now: Timestamp| stats == statistics_of(self@, now),
    {
        let now = Timestamp::now();
        let stats = self.get_statistics_at(now);
        assert(stats == statistics_of(self@, now));
        stats
    }

    /// Cuts the history to its limit where more than the cleanup interval
    /// has passed since the last cleanup, as seen at the time `now`.
    pub fn cleanup_old_data_at(&mut self, now: Timestamp)
        ensures
            final(self)@ == cleaned(old(self)@, now),
            old(self)@.wf() ==> final(self)@.wf(),
    {
        if now.duration_since(&self.last_cleanup).longer_than(&self.cleanup_interval) {
            self.last_cleanup = now;
            let ghost history = self.message_history.deep_view();
            trim_to(&mut self.message_history, self.max_history_size);
            assert(self.message_history.deep_view() =~= bounded_tail(
                history,
                self.max_history_size as nat,
            ));
            let doubled: usize = self.max_history_size.saturating_add(self.max_history_size);
            if history_capacity(&self.message_history) > doubled {
                let ghost kept = self.message_history.deep_view();
                shrink_history(&mut self.message_history);
                assert(self.message_history.deep_view() =~= kept);
            }
        }
    }

    /// Cuts the history to its limit where the last cleanup is longer ago
    /// than the cleanup interval, as the system clock says.
    pub fn cleanup_old_data(&mut self)
        ensures
            exists|now: Timestamp| final(self)@ == cleaned(old(self)@, now),
            old(self)@.wf() ==> final(self)@.wf(),
    {
        let now = Timestamp::now();
        self.cleanup_old_data_at(now);
        assert(self@ == cleaned(old(self)@, now));
    }

    /// How much room the message history takes: the number of messages, the
    /// room that is allocated, and an estimate in bytes that counts the size
    /// of a message once for each message and once for each allocated place
    /// (the largest number where that does not fit).
    pub fn get_memory_info(&self) -> (info: MemoryInfo)
        ensures
            info.message_count == self@.history.len(),
            info.max_history_size == self@.max_history_size,
            info.estimated_memory_bytes == estimated_bytes(
                info.message_count,
                info.message_capacity,
                vstd::layout::size_of::<Message>(),
            ),
    {
        let message_count = self.message_history.len();
        let message_capacity = history_capacity(&self.message_history);
        let size = core::mem::size_of::<Message>();
        MemoryInfo {
            message_count,
            message_capacity,
            estimated_memory_bytes: estimate_bytes(message_count, message_capacity, size),
            max_history_size: self.max_history_size,
        }
    }
}

/// The bytes that `count` messages and `capacity` places of `size` bytes
/// each take, or the largest number where that is more.
pub open spec fn estimated_bytes(count: usize, capacity: usize, size: nat) -> usize {
    if (count + capacity) * size > usize::MAX {
        usize::MAX
    } else {
        ((count + capacity) * size) as usize
    }
}

/// The bytes that `count` messages and `capacity` places of `size` bytes
/// each take, or the largest number where that is more.
pub fn estimate_bytes(count: usize, capacity: usize, size: usize) -> (bytes: usize)
    ensures
        bytes == estimated_bytes(count, capacity, size as nat),
{
    if size == 0 {
        return 0;
    }
    let places: u128 = count as u128 + capacity as u128;
    let limit: u128 = usize::MAX as u128;
    let wide_size: u128 = size as u128;
    if places > limit / wide_size {
        assert((count + capacity) * size > usize::MAX) by (nonlinear_arith)
            requires
                (count + capacity) > (usize::MAX as int) / (size as int),
                size > 0,
        ;
        usize::MAX
    } else {
        assert((count + capacity) * size <= usize::MAX) by (nonlinear_arith)
            requires
                (count + capacity) <= (usize::MAX as int) / (size as int),
                size > 0,
        ;
        let bytes: u128 = places * wide_size;
        bytes as usize
    }
}

/// Whether the step from `pre` to `post` is one that an operation of the
/// engine can make, as far as the sequence counter goes: the counter stays
/// or moves on by one.
pub open spec fn counter_step(pre: EngineView, post: EngineView) -> bool {
    post.sequence_counter == pre.sequence_counter || post.sequence_counter == next_sequence(
        pre.sequence_counter,
    )
}

/// Whether each state of `trace` follows from the one before it by a step
/// that an operation of the engine can make.
pub open spec fn is_run(trace: Seq<EngineView>) -> bool {
    forall|k: int| 0 <= k < trace.len() - 1 ==> counter_step(#[trigger] trace[k], trace[k + 1])
}

/// Whether the counter stays below the largest number from state `from` up
/// to, and not including, state `to` of `trace`.
pub open spec fn no_wrap(trace: Seq<EngineView>, from: int, to: int) -> bool {
    forall|k: int| from <= k < to ==> (#[trigger] trace[k]).sequence_counter < u64::MAX
}

/// Every operation of the engine leaves the sequence counter as it is or
/// moves it on by one; only a write that went through moves it.
pub proof fn lemma_operations_step_counter(
    pre: EngineView,
    post: EngineView,
    now: Timestamp,
    device: DeviceConfigView,
    id: Seq<char>,
    message_type: MessageType,
    data: Seq<u8>,
    made: Result<Seq<char>, TermComErrorView>,
    r: Result<(), TermComErrorView>,
)
    requires
        start_outcome(pre, post, now, r) || stop_outcome(pre, post) || create_outcome(
            pre,
            post,
            device,
            made,
        ) || close_outcome(pre, post, id, r) || send_outcome(pre, post, id, message_type, data, r)
            || receive_outcome(pre, post, id, data, r) || post == processed(pre) || post
            == cleaned(pre, now),
    ensures
        counter_step(pre, post),
        post.sequence_counter != pre.sequence_counter ==> r is Ok && send_outcome(
            pre,
            post,
            id,
            message_type,
            data,
            r,
        ),
{
}

/// Along a run in which the counter does not start over, the counter never
/// goes back.
pub proof fn lemma_run_counter_monotone(trace: Seq<EngineView>, from: int, to: int)
    requires
        is_run(trace),
        0 <= from <= to < trace.len(),
        no_wrap(trace, from, to),
    ensures
        trace[from].sequence_counter <= trace[to].sequence_counter,
    decreases to - from,
{
    if from < to {
        lemma_run_counter_monotone(trace, from, to - 1);
        assert(counter_step(trace[to - 1], trace[to]));
        assert(trace[to - 1].sequence_counter < u64::MAX);
    }
}

/// The sequence numbers of outgoing messages grow in the order in which the
/// writes completed.  Take a run of the engine in which a write that went
/// through leads from state `first` to the next, and a later one from state
/// `second` to the next, and in which the counter does not start over in
/// between.  Then the message of the earlier write has the smaller number;
/// in particular the two numbers differ.
pub proof fn lemma_sequence_monotonic(
    trace: Seq<EngineView>,
    first: int,
    second: int,
    id_a: Seq<char>,
    type_a: MessageType,
    data_a: Seq<u8>,
    id_b: Seq<char>,
    type_b: MessageType,
    data_b: Seq<u8>,
)
    requires
        is_run(trace),
        0 <= first < second < trace.len() - 1,
        no_wrap(trace, first, second + 1),
        send_outcome(
            trace[first],
            trace[first + 1],
            id_a,
            type_a,
            data_a,
            Ok::<(), TermComErrorView>(()),
        ),
        send_outcome(
            trace[second],
            trace[second + 1],
            id_b,
            type_b,
            data_b,
            Ok::<(), TermComErrorView>(()),
        ),
    ensures
        trace[first + 1].pending.last().metadata.sequence < trace[second
            + 1].pending.last().metadata.sequence,
        trace[first + 1].pending.last().metadata.sequence == trace[first].sequence_counter + 1,
        trace[second + 1].pending.last().metadata.sequence == trace[second].sequence_counter + 1,
{
    lemma_run_counter_monotone(trace, first + 1, second);
    assert(trace[first].sequence_counter < u64::MAX);
    assert(trace[second].sequence_counter < u64::MAX);
}

/// Stopping the engine twice is stopping it once: after the first stop the
/// engine does not run, and the second changes nothing.
pub proof fn lemma_stop_is_idempotent(before: EngineView, once: EngineView, twice: EngineView)
    requires
        stop_outcome(before, once),
        stop_outcome(once, twice),
    ensures
        !once.running,
        twice == once,
{
}

/// After its queue has been moved into the history, a running engine whose
/// history was within its limit holds exactly the newest messages, in the
/// order in which they were queued, and no more of them than the limit.
pub proof fn lemma_history_is_bounded(pre: EngineView)
    requires
        pre.running,
        pre.history.len() <= pre.max_history_size,
    ensures
        processed(pre).history == bounded_tail(
            pre.history + pre.pending,
            pre.max_history_size as nat,
        ),
        processed(pre).history.len() <= pre.max_history_size,
{
    lemma_drained_is_tail(pre.history, pre.pending, pre.max_history_size as nat);
}

} // verus!
