//! A session: one user-visible channel to a device.  It holds its
//! configuration and its runtime record, walks through its life from set-up
//! to closed, and hands the actual traffic to the communication engine.
//!
//! Activities reach the statistics and the activity history through a
//! queue.  Whoever drives the session calls
//! [`Session::process_activities`] to work the queue off.

use crate::adapter::unit_result;
use crate::config::{
    ConnectionConfig, DeviceConfig, DeviceConfigView, FlowControlConfig, ParityConfig,
};
use crate::engine::{CommunicationEngine, EngineView};
use crate::error::{TermComError, TermComErrorView};
use crate::history::{bounded_tail, entered_all, lemma_entered_all_len, push_bounded};
use crate::ident::fresh_uuid;
use crate::message::{with_tag, Message, MessagePattern, MessageType, MessageView};
use crate::properties::Properties;
use crate::state::{
    initial_state, plain_activity, recorded, recorded_all, ActivityType, ActivityTypeView,
    SessionActivity, SessionActivityView, SessionMetadataView, SessionState, SessionStateView,
    SessionStatus, SessionStatusView,
};
use crate::text::{copy_strings, decimal_digits, decimal_text};
use crate::time::Timestamp;
use crate::transport::{get_transport_type, kind_of, TransportClient};
use std::collections::VecDeque;
use vstd::prelude::*;
use vstd::std_specs::vecdeque::VecDequeAdditionalSpecFns;
use vstd::utf8::encode_utf8;

verus! {

/// The identifier of a session.
pub type SessionId = String;

/// What a session is for.
#[derive(Clone, Copy, Debug, PartialEq, Eq, Structural)]
pub enum SessionType {
    /// Manual communication.
    Interactive,
    /// Scripted communication.
    Automated,
    /// Passive observation.
    Monitoring,
    /// Testing of a device.
    Testing,
}

impl SessionType {
    /// The name of the type.
    pub open spec fn name(self) -> Seq<char> {
        match self {
            SessionType::Interactive => "Interactive"@,
            SessionType::Automated => "Automated"@,
            SessionType::Monitoring => "Monitoring"@,
            SessionType::Testing => "Testing"@,
        }
    }

    /// The name of the type.
    pub fn to_string(&self) -> (text: String)
        ensures
            text@ == self.name(),
    {
        match self {
            SessionType::Interactive => String::from_str("Interactive"),
            SessionType::Automated => String::from_str("Automated"),
            SessionType::Monitoring => String::from_str("Monitoring"),
            SessionType::Testing => String::from_str("Testing"),
        }
    }
}

/// What the user asks of a session.
#[derive(Debug)]
pub struct SessionConfig {
    /// Name of the session; no two sessions of a manager share one.
    pub name: String,
    pub session_type: SessionType,
    pub device_config: DeviceConfig,
    pub auto_reconnect: bool,
    pub max_reconnect_attempts: u32,
    pub reconnect_delay_ms: u64,
    /// Timeout in milliseconds; zero for none.
    pub timeout_ms: u64,
    /// The most activities that the session keeps.
    pub max_history_size: usize,
    pub log_activities: bool,
    pub tags: Vec<String>,
    pub properties: Properties,
}

/// A session's configuration with its texts as sequences of characters.
pub struct SessionConfigView {
    pub name: Seq<char>,
    pub session_type: SessionType,
    pub device_config: DeviceConfigView,
    pub auto_reconnect: bool,
    pub max_reconnect_attempts: u32,
    pub reconnect_delay_ms: u64,
    pub timeout_ms: u64,
    pub max_history_size: usize,
    pub log_activities: bool,
    pub tags: Seq<Seq<char>>,
    pub properties: Seq<(Seq<char>, Seq<char>)>,
}

impl View for SessionConfig {
    type V = SessionConfigView;

    open spec fn view(&self) -> SessionConfigView {
        SessionConfigView {
            name: self.name@,
            session_type: self.session_type,
            device_config: self.device_config@,
            auto_reconnect: self.auto_reconnect,
            max_reconnect_attempts: self.max_reconnect_attempts,
            reconnect_delay_ms: self.reconnect_delay_ms,
            timeout_ms: self.timeout_ms,
            max_history_size: self.max_history_size,
            log_activities: self.log_activities,
            tags: self.tags.deep_view(),
            properties: self.properties@,
        }
    }
}

impl Clone for SessionConfig {
    fn clone(&self) -> (copy: Self)
        ensures
            copy@ == self@,
    {
        SessionConfig {
            name: self.name.clone(),
            session_type: self.session_type,
            device_config: self.device_config.clone(),
            auto_reconnect: self.auto_reconnect,
            max_reconnect_attempts: self.max_reconnect_attempts,
            reconnect_delay_ms: self.reconnect_delay_ms,
            timeout_ms: self.timeout_ms,
            max_history_size: self.max_history_size,
            log_activities: self.log_activities,
            tags: copy_strings(&self.tags),
            properties: self.properties.clone(),
        }
    }
}

impl Default for SessionConfig {
    fn default() -> (config: Self)
        ensures
            config@.name == "default_session"@,
            config@.session_type == SessionType::Interactive,
            config@.device_config.name == "default_device"@,
            config@.device_config.description == "Default device"@,
            config@.device_config.connection == (crate::config::ConnectionConfigView::Serial {
                port: "/dev/ttyUSB0"@,
                baud_rate: 9600,
                data_bits: 8,
                stop_bits: 1,
                parity: ParityConfig::NoParity,
                flow_control: FlowControlConfig::NoFlowControl,
            }),
            config@.device_config.commands.len() == 0,
            !config@.auto_reconnect,
            config@.max_reconnect_attempts == 3,
            config@.reconnect_delay_ms == 1000,
            config@.timeout_ms == 0,
            config@.max_history_size == 1000,
            config@.log_activities,
            config@.tags.len() == 0,
            config@.properties.len() == 0,
    {
        SessionConfig {
            name: String::from_str("default_session"),
            session_type: SessionType::Interactive,
            device_config: DeviceConfig {
                name: String::from_str("default_device"),
                description: String::from_str("Default device"),
                connection: ConnectionConfig::Serial {
                    port: String::from_str("/dev/ttyUSB0"),
                    baud_rate: 9600,
                    data_bits: 8,
                    stop_bits: 1,
                    parity: ParityConfig::NoParity,
                    flow_control: FlowControlConfig::NoFlowControl,
                },
                commands: Vec::new(),
            },
            auto_reconnect: false,
            max_reconnect_attempts: 3,
            reconnect_delay_ms: 1000,
            timeout_ms: 0,
            max_history_size: 1000,
            log_activities: true,
            tags: Vec::new(),
            properties: Properties::new(),
        }
    }
}

/// A session as a value.
pub struct SessionView {
    pub config: SessionConfigView,
    pub state: SessionStateView,
    /// The identifier of the connection that carries the session.
    pub transport_session_id: Option<Seq<char>>,
    pub message_history: Seq<MessageView>,
    /// The activities that were worked off, oldest first, up to the
    /// capacity.
    pub activity_history: Seq<SessionActivityView>,
    /// The activities that wait to be worked off, oldest first.
    pub pending: Seq<SessionActivityView>,
    /// The most activities that the history keeps; fixed when the session
    /// is made.
    pub activity_capacity: usize,
    pub running: bool,
}

/// The tags of `tags` without repetitions, each where it first occurs.
pub open spec fn deduplicated(tags: Seq<Seq<char>>) -> Seq<Seq<char>>
    decreases tags.len(),
{
    if tags.len() == 0 {
        Seq::empty()
    } else {
        with_tag(deduplicated(tags.drop_last()), tags.last())
    }
}

/// The session that is made from `config` with the identifier `id` at the
/// time `now`.
pub open spec fn initial_session(config: SessionConfigView, id: Seq<char>, now: Timestamp) -> SessionView {
    let state = initial_state(
        id,
        config.device_config.name,
        kind_of(config.device_config.connection).name(),
        now,
    );
    SessionView {
        config,
        state: SessionStateView {
            metadata: SessionMetadataView {
                config_name: Some(config.name),
                tags: deduplicated(config.tags),
                properties: config.properties,
                ..state.metadata
            },
            ..state
        },
        transport_session_id: None,
        message_history: Seq::empty(),
        activity_history: Seq::empty(),
        pending: Seq::empty(),
        activity_capacity: config.max_history_size,
        running: false,
    }
}

/// The error of the session layer with the given text.
pub open spec fn session_error(text: Seq<char>) -> TermComErrorView {
    TermComErrorView::Session { message: text }
}

/// The description of the activity that records the start of a session.
pub open spec fn created_description(config: SessionConfigView) -> Seq<char> {
    "Session '"@ + config.name + "' created for device '"@ + config.device_config.name + "'"@
}

/// The description of the activity that records bytes sent.
pub open spec fn sent_description(size: usize) -> Seq<char> {
    "Sent "@ + decimal_digits(size as nat) + " bytes"@
}

impl SessionView {
    /// Whether `later` has the activities of this session's queue and, after
    /// them, `count` more.
    pub open spec fn queued(self, later: SessionView, count: nat) -> bool {
        &&& later.pending.len() == self.pending.len() + count
        &&& later.pending.subrange(0, self.pending.len() as int) == self.pending
    }

    /// The activity that stands `offset` places after the end of this
    /// session's queue in the queue of `later`.
    pub open spec fn queued_at(self, later: SessionView, offset: int) -> SessionActivityView {
        later.pending[self.pending.len() + offset]
    }

    /// The session with the given status and time of last activity, and all
    /// the rest of its record as it is.
    pub open spec fn with_status(self, status: SessionStatusView, at: Timestamp) -> SessionStateView {
        SessionStateView { status, last_activity: at, ..self.state }
    }

    /// What holds of every session that is made and used through the
    /// operations of this crate.  A session runs exactly while it holds the
    /// identifier of a connection, and is active then, or closing in the
    /// middle of a stop; one that does not run is being set up, has failed
    /// or is closed.  The activity history is within its capacity.
    pub open spec fn wf(self) -> bool {
        &&& self.running <==> self.transport_session_id is Some
        &&& self.running ==> self.state.status is Active || self.state.status is Closing
        &&& !self.running ==> self.state.status is Initializing || self.state.status is Error
            || self.state.status is Closed
        &&& self.activity_history.len() <= self.activity_capacity
    }
}

/// Whether `activity` is an activity of the given kind and description
/// without size and duration, whatever its time.
pub open spec fn is_plain_activity(
    activity: SessionActivityView,
    activity_type: ActivityTypeView,
    description: Seq<char>,
) -> bool {
    activity == plain_activity(activity.timestamp, activity_type, description)
}

/// What `start` may do to a session and the engine, and return.
///
/// A running session refuses and so does a closed one; nothing changes then.
/// Otherwise the engine is asked for a connection to the session's device.
/// Where it gives one, the session holds its identifier, is active and
/// running, and has queued the activities `Created` and `Connected`.  Where
/// it gives none, the session has failed with the text of the error, has
/// queued the activities `Created` and `Error`, and the error is returned.
/// The statistics and the histories are as they were.
pub open spec fn start_outcome(
    pre: SessionView,
    post: SessionView,
    pre_engine: EngineView,
    post_engine: EngineView,
    r: Result<(), TermComErrorView>,
) -> bool {
    if pre.running {
        &&& r == Err::<(), TermComErrorView>(session_error("Session is already running"@))
        &&& post == pre
        &&& post_engine == pre_engine
    } else if pre.state.status is Closed {
        &&& r == Err::<(), TermComErrorView>(session_error("Session is closed"@))
        &&& post == pre
        &&& post_engine == pre_engine
    } else {
        match r {
            Ok(_) => {
                &&& post.transport_session_id is Some
                &&& crate::engine::create_outcome(
                    pre_engine,
                    post_engine,
                    pre.config.device_config,
                    Ok::<Seq<char>, TermComErrorView>(post.transport_session_id.unwrap()),
                )
                &&& pre.queued(post, 2)
                &&& is_plain_activity(
                    pre.queued_at(post, 0),
                    ActivityTypeView::Created,
                    created_description(pre.config),
                )
                &&& is_plain_activity(
                    pre.queued_at(post, 1),
                    ActivityTypeView::Connected,
                    "Transport session established"@,
                )
                &&& post == SessionView {
                    transport_session_id: post.transport_session_id,
                    running: true,
                    state: pre.with_status(SessionStatusView::Active, post.state.last_activity),
                    pending: post.pending,
                    ..pre
                }
            },
            Err(e) => {
                &&& crate::engine::create_outcome(
                    pre_engine,
                    post_engine,
                    pre.config.device_config,
                    Err::<Seq<char>, TermComErrorView>(e),
                )
                &&& pre.queued(post, 2)
                &&& is_plain_activity(
                    pre.queued_at(post, 0),
                    ActivityTypeView::Created,
                    created_description(pre.config),
                )
                &&& is_plain_activity(
                    pre.queued_at(post, 1),
                    ActivityTypeView::Error,
                    "Error: "@ + e.display_text(),
                )
                &&& post == SessionView {
                    state: pre.with_status(
                        SessionStatusView::Error(e.display_text()),
                        post.state.last_activity,
                    ),
                    pending: post.pending,
                    ..pre
                }
            },
        }
    }
}

/// What `stop` may do to a session and the engine.
///
/// A session that does not run stays as it is, and so does the engine.  A
/// running one asks the engine to close its connection, whatever comes of
/// it, lets go of the identifier, is closed and no longer running, and has
/// queued the activity `Closed`.
pub open spec fn stop_outcome(
    pre: SessionView,
    post: SessionView,
    pre_engine: EngineView,
    post_engine: EngineView,
) -> bool {
    if !pre.running {
        post == pre && post_engine == pre_engine
    } else {
        &&& match pre.transport_session_id {
            Some(id) => exists|closed: Result<(), TermComErrorView>|
                crate::engine::close_outcome(pre_engine, post_engine, id, closed),
            None => post_engine == pre_engine,
        }
        &&& pre.queued(post, 1)
        &&& is_plain_activity(
            pre.queued_at(post, 0),
            ActivityTypeView::Closed,
            "Session closed"@,
        )
        &&& post == SessionView {
            transport_session_id: None,
            running: false,
            state: pre.with_status(SessionStatusView::Closed, post.state.last_activity),
            pending: post.pending,
            ..pre
        }
    }
}

/// The activity that a write that went through queues.
pub open spec fn is_send_activity(
    activity: SessionActivityView,
    message_type: MessageType,
    data: Seq<u8>,
    command: Seq<char>,
) -> bool {
    if message_type == MessageType::Command {
        is_plain_activity(
            activity,
            ActivityTypeView::CommandExecuted,
            "Executed command: "@ + command,
        )
    } else {
        activity == (SessionActivityView {
            data_size: Some(data.len() as usize),
            ..plain_activity(
                activity.timestamp,
                ActivityTypeView::DataSent,
                sent_description(data.len() as usize),
            )
        })
    }
}

/// What `send_data` and `send_command` may do to a session and the engine,
/// and return.
///
/// A session that does not run refuses; one that runs without a connection
/// reports that; nothing changes in either case.  Otherwise the engine does
/// the write.  Where it went through, the session has queued the activity
/// for it; where it failed, the session is as it was and the error is
/// returned.
pub open spec fn send_outcome(
    pre: SessionView,
    post: SessionView,
    pre_engine: EngineView,
    post_engine: EngineView,
    message_type: MessageType,
    data: Seq<u8>,
    command: Seq<char>,
    r: Result<(), TermComErrorView>,
) -> bool {
    if !pre.running {
        &&& r == Err::<(), TermComErrorView>(session_error("Session is not running"@))
        &&& post == pre
        &&& post_engine == pre_engine
    } else {
        match pre.transport_session_id {
            None => {
                &&& r == Err::<(), TermComErrorView>(
                    session_error("No active transport session"@),
                )
                &&& post == pre
                &&& post_engine == pre_engine
            },
            Some(id) => {
                &&& crate::engine::send_outcome(
                    pre_engine,
                    post_engine,
                    id,
                    message_type,
                    data,
                    r,
                )
                &&& match r {
                    Ok(_) => {
                        &&& pre.queued(post, 1)
                        &&& is_send_activity(pre.queued_at(post, 0), message_type, data, command)
                        &&& post == SessionView { pending: post.pending, ..pre }
                    },
                    Err(_) => post == pre,
                }
            },
        }
    }
}

/// The description of the activity that records bytes received.
pub open spec fn received_description(size: usize) -> Seq<char> {
    "Received "@ + decimal_digits(size as nat) + " bytes"@
}

/// What `receive_data` does to a session and the engine, and returns.
///
/// A session that does not run refuses; one that runs without a connection
/// reports that; nothing changes in either case.  Otherwise the engine
/// takes the bytes in.  Where it did, the session has queued the activity
/// `DataReceived` with their number; where it did not, the session is as it
/// was and the error is returned.
pub open spec fn receive_outcome(
    pre: SessionView,
    post: SessionView,
    pre_engine: EngineView,
    post_engine: EngineView,
    data: Seq<u8>,
    r: Result<(), TermComErrorView>,
) -> bool {
    if !pre.running {
        &&& r == Err::<(), TermComErrorView>(session_error("Session is not running"@))
        &&& post == pre
        &&& post_engine == pre_engine
    } else {
        match pre.transport_session_id {
            None => {
                &&& r == Err::<(), TermComErrorView>(
                    session_error("No active transport session"@),
                )
                &&& post == pre
                &&& post_engine == pre_engine
            },
            Some(id) => {
                &&& crate::engine::receive_outcome(pre_engine, post_engine, id, data, r)
                &&& match r {
                    Ok(_) => {
                        &&& pre.queued(post, 1)
                        &&& pre.queued_at(post, 0) == (SessionActivityView {
                            data_size: Some(data.len() as usize),
                            ..plain_activity(
                                pre.queued_at(post, 0).timestamp,
                                ActivityTypeView::DataReceived,
                                received_description(data.len() as usize),
                            )
                        })
                        &&& post == SessionView { pending: post.pending, ..pre }
                    },
                    Err(_) => post == pre,
                }
            },
        }
    }
}

/// What `update_config` does to a session and returns.  A running session
/// refuses and stays as it is.  Otherwise the new configuration takes the
/// place of the old one, and the record takes its name, tags and
/// properties.
pub open spec fn update_outcome(
    pre: SessionView,
    post: SessionView,
    new_config: SessionConfigView,
    r: Result<(), TermComErrorView>,
) -> bool {
    if pre.running {
        &&& r == Err::<(), TermComErrorView>(
            session_error("Cannot update configuration while session is running"@),
        )
        &&& post == pre
    } else {
        &&& r is Ok
        &&& post == SessionView {
            config: new_config,
            state: SessionStateView {
                metadata: SessionMetadataView {
                    config_name: Some(new_config.name),
                    tags: new_config.tags,
                    properties: new_config.properties,
                    ..pre.state.metadata
                },
                ..pre.state
            },
            ..pre
        }
    }
}

/// The session after its queue of activities has been worked off: each
/// activity is recorded in the session's record and entered in the activity
/// history, oldest first.
pub open spec fn processed(pre: SessionView) -> SessionView {
    SessionView {
        state: recorded_all(pre.state, pre.pending),
        activity_history: entered_all(
            pre.activity_history,
            pre.pending,
            pre.activity_capacity as nat,
        ),
        pending: Seq::empty(),
        ..pre
    }
}

/// One channel to a device.
pub struct Session {
    config: SessionConfig,
    state: SessionState,
    transport_session_id: Option<String>,
    message_history: VecDeque<Message>,
    activity_history: VecDeque<SessionActivity>,
    pending: VecDeque<SessionActivity>,
    activity_capacity: usize,
    running: bool,
}

impl View for Session {
    type V = SessionView;

    closed spec fn view(&self) -> SessionView {
        SessionView {
            config: self.config@,
            state: self.state@,
            transport_session_id: self.transport_session_id.deep_view(),
            message_history: self.message_history.deep_view(),
            activity_history: self.activity_history.deep_view(),
            pending: self.pending.deep_view(),
            activity_capacity: self.activity_capacity,
            running: self.running,
        }
    }
}

impl DeepView for Session {
    type V = SessionView;

    open spec fn deep_view(&self) -> SessionView {
        self@
    }
}

/// A session error with the given text.
fn refuse(text: &str) -> (e: TermComError)
    ensures
        e@ == session_error(text@),
{
    TermComError::Session { message: String::from_str(text) }
}

impl Session {
    /// A session for `config` with the identifier `id`, made at the time
    /// `now`.
    pub fn with_identity(config: SessionConfig, id: String, now: Timestamp) -> (session: Session)
        ensures
            session@ == initial_session(config@, id@, now),
            session@.wf(),
    {
        let kind = get_transport_type(&config.device_config.connection);
        let mut state = SessionState::new_at(
            id,
            config.device_config.name.clone(),
            kind.to_string(),
            now,
        );
        state.metadata.config_name = Some(config.name.clone());
        let mut i: usize = 0;
        assert(config.tags.deep_view().subrange(0, 0) =~= Seq::<Seq<char>>::empty());
        while i < config.tags.len()
            invariant
                i <= config.tags.len(),
                state@ == (SessionStateView {
                    metadata: SessionMetadataView {
                        config_name: Some(config.name@),
                        tags: deduplicated(config.tags.deep_view().subrange(0, i as int)),
                        ..initial_state(
                            id@,
                            config.device_config.name@,
                            kind.name(),
                            now,
                        ).metadata
                    },
                    ..initial_state(id@, config.device_config.name@, kind.name(), now)
                }),
            decreases config.tags.len() - i,
        {
            let ghost upto = config.tags.deep_view().subrange(0, i + 1);
            assert(upto.drop_last() =~= config.tags.deep_view().subrange(0, i as int));
            assert(upto.last() == config.tags[i as int]@);
            state.add_tag(config.tags[i].clone());
            i = i + 1;
        }
        assert(config.tags.deep_view().subrange(0, config.tags.len() as int)
            =~= config.tags.deep_view());
        state.metadata.properties = config.properties.clone();
        let activity_capacity = config.max_history_size;
        let session = Session {
            config,
            state,
            transport_session_id: None,
            message_history: VecDeque::new(),
            activity_history: VecDeque::new(),
            pending: VecDeque::new(),
            activity_capacity,
            running: false,
        };
        assert(session@.message_history =~= Seq::<MessageView>::empty());
        assert(session@.activity_history =~= Seq::<SessionActivityView>::empty());
        assert(session@.pending =~= Seq::<SessionActivityView>::empty());
        session
    }

    /// A session for `config`, with a fresh identifier and made now.  It is
    /// being set up and does not run.
    pub fn new(config: SessionConfig) -> (r: Result<Session, TermComError>)
        ensures
            r is Ok,
            r.unwrap()@ == initial_session(
                config@,
                r.unwrap()@.state.session_id,
                r.unwrap()@.state.created_at,
            ),
            r.unwrap()@.state.session_id.len() == 36,
            r.unwrap()@.wf(),
    {
        Ok(Session::with_identity(config, fresh_uuid(), Timestamp::now()))
    }

    /// Puts an activity into the queue.
    pub fn record_activity(&mut self, activity: SessionActivity)
        ensures
            final(self)@ == (SessionView {
                pending: old(self)@.pending.push(activity@),
                ..old(self)@
            }),
    {
        let ghost before = self.pending.deep_view();
        self.pending.push_back(activity);
        assert(self.pending.deep_view() =~= before.push(activity@));
    }

    /// The first step of a start.  A running session refuses and so does a
    /// closed one, and nothing changes.  Else the session is being set up
    /// and has queued the activity `Created`.
    pub fn begin_start(&mut self) -> (r: Result<(), TermComError>)
        ensures
            if old(self)@.running {
                unit_result(r) == Err::<(), TermComErrorView>(
                    session_error("Session is already running"@),
                ) && final(self)@ == old(self)@
            } else if old(self)@.state.status is Closed {
                unit_result(r) == Err::<(), TermComErrorView>(session_error("Session is closed"@))
                    && final(self)@ == old(self)@
            } else {
                &&& r is Ok
                &&& old(self)@.queued(final(self)@, 1)
                &&& is_plain_activity(
                    old(self)@.queued_at(final(self)@, 0),
                    ActivityTypeView::Created,
                    created_description(old(self)@.config),
                )
                &&& final(self)@ == (SessionView {
                    state: old(self)@.with_status(
                        SessionStatusView::Initializing,
                        final(self)@.state.last_activity,
                    ),
                    pending: final(self)@.pending,
                    ..old(self)@
                })
            },
            old(self)@.wf() ==> final(self)@.wf(),
    {
        if self.running {
            return Err(refuse("Session is already running"));
        }
        if self.state.is_closed() {
            return Err(refuse("Session is closed"));
        }
        let ghost pre = self@;
        self.state.update_status(SessionStatus::Initializing);
        let description = String::from_str("Session '").concat(self.config.name.as_str()).concat(
            "' created for device '",
        ).concat(self.config.device_config.name.as_str()).concat("'");
        self.record_activity(SessionActivity::new(ActivityType::Created, description));
        proof {
            assert(self@.pending.subrange(0, pre.pending.len() as int) =~= pre.pending);
        }
        Ok(())
    }

    /// The last step of a start, once the engine has answered.  With a
    /// connection the session holds its identifier, is active and running,
    /// and has queued the activity `Connected`.  Without one the session has
    /// failed with the text of the error, has queued the activity `Error`,
    /// and the error is handed back.
    pub fn settle_start(&mut self, created: Result<String, TermComError>) -> (r: Result<
        (),
        TermComError,
    >)
        ensures
            old(self)@.queued(final(self)@, 1),
            match created {
                Ok(id) => {
                    &&& r is Ok
                    &&& is_plain_activity(
                        old(self)@.queued_at(final(self)@, 0),
                        ActivityTypeView::Connected,
                        "Transport session established"@,
                    )
                    &&& final(self)@ == (SessionView {
                        transport_session_id: Some(id@),
                        running: true,
                        state: old(self)@.with_status(
                            SessionStatusView::Active,
                            final(self)@.state.last_activity,
                        ),
                        pending: final(self)@.pending,
                        ..old(self)@
                    })
                },
                Err(e) => {
                    &&& unit_result(r) == Err::<(), TermComErrorView>(e@)
                    &&& is_plain_activity(
                        old(self)@.queued_at(final(self)@, 0),
                        ActivityTypeView::Error,
                        "Error: "@ + e@.display_text(),
                    )
                    &&& final(self)@ == (SessionView {
                        state: old(self)@.with_status(
                            SessionStatusView::Error(e@.display_text()),
                            final(self)@.state.last_activity,
                        ),
                        pending: final(self)@.pending,
                        ..old(self)@
                    })
                },
            },
            old(self)@.wf() && !old(self)@.running ==> final(self)@.wf(),
    {
        let ghost pre = self@;
        match created {
            Ok(transport_session_id) => {
                self.transport_session_id = Some(transport_session_id);
                self.state.update_status(SessionStatus::Active);
                self.record_activity(
                    SessionActivity::new(
                        ActivityType::Connected,
                        String::from_str("Transport session established"),
                    ),
                );
                self.running = true;
                proof {
                    assert(self@.pending.subrange(0, pre.pending.len() as int) =~= pre.pending);
                }
                Ok(())
            },
            Err(e) => {
                self.state.update_status(SessionStatus::Error(e.to_string()));
                self.record_activity(SessionActivity::error(e.to_string()));
                proof {
                    assert(self@.pending.subrange(0, pre.pending.len() as int) =~= pre.pending);
                }
                Err(e)
            },
        }
    }

    /// Starts the session: asks the engine for a connection to the device.
    pub fn start<C: TransportClient>(&mut self, engine: &mut CommunicationEngine<C>) -> (r: Result<
        (),
        TermComError,
    >)
        ensures
            start_outcome(old(self)@, final(self)@, old(engine)@, final(engine)@, unit_result(r)),
            old(self)@.wf() ==> final(self)@.wf(),
            old(engine)@.wf() ==> final(engine)@.wf(),
    {
        let ghost pre = self@;
        match self.begin_start() {
            Ok(_) => {},
            Err(e) => {
                return Err(e);
            },
        }
        let ghost begun = self@;
        let created = engine.create_session(&self.config.device_config);
        let r = self.settle_start(created);
        proof {
            assert(self@.pending.subrange(0, pre.pending.len() as int) =~= begun.pending.subrange(
                0,
                pre.pending.len() as int,
            ));
            assert(pre.queued(self@, 2));
        }
        r
    }

    /// The identifier of the connection that carries the session.
    pub fn get_transport_session_id(&self) -> (id: Option<String>)
        ensures
            id.deep_view() == self@.transport_session_id,
    {
        match &self.transport_session_id {
            Some(id) => Some(id.clone()),
            None => None,
        }
    }

    /// The first step of a stop: a running session is closing from now on.
    /// Says whether the session runs; one that does not stays as it is.
    pub fn begin_stop(&mut self) -> (running: bool)
        ensures
            running == old(self)@.running,
            final(self)@ == if running {
                SessionView {
                    state: old(self)@.with_status(
                        SessionStatusView::Closing,
                        final(self)@.state.last_activity,
                    ),
                    ..old(self)@
                }
            } else {
                old(self)@
            },
            old(self)@.wf() ==> final(self)@.wf(),
    {
        if !self.running {
            return false;
        }
        self.state.update_status(SessionStatus::Closing);
        true
    }

    /// The last step of a stop: the session lets go of its connection, is
    /// closed and no longer running, and has queued the activity `Closed`.
    pub fn finish_stop(&mut self)
        ensures
            old(self)@.queued(final(self)@, 1),
            is_plain_activity(
                old(self)@.queued_at(final(self)@, 0),
                ActivityTypeView::Closed,
                "Session closed"@,
            ),
            final(self)@ == (SessionView {
                transport_session_id: None,
                running: false,
                state: old(self)@.with_status(
                    SessionStatusView::Closed,
                    final(self)@.state.last_activity,
                ),
                pending: final(self)@.pending,
                ..old(self)@
            }),
            old(self)@.wf() ==> final(self)@.wf(),
    {
        let ghost pre = self@;
        self.transport_session_id = None;
        self.state.update_status(SessionStatus::Closed);
        self.record_activity(
            SessionActivity::new(ActivityType::Closed, String::from_str("Session closed")),
        );
        self.running = false;
        proof {
            assert(self@.pending.subrange(0, pre.pending.len() as int) =~= pre.pending);
        }
    }

    /// Stops the session: closes its connection and ends its life.  A
    /// session that does not run stays as it is.  The call always succeeds.
    pub fn stop<C: TransportClient>(&mut self, engine: &mut CommunicationEngine<C>) -> (r: Result<
        (),
        TermComError,
    >)
        ensures
            r is Ok,
            stop_outcome(old(self)@, final(self)@, old(engine)@, final(engine)@),
            old(self)@.wf() ==> final(self)@.wf(),
            old(engine)@.wf() ==> final(engine)@.wf(),
    {
        let ghost pre = self@;
        if !self.begin_stop() {
            return Ok(());
        }
        let ghost witness: Result<(), TermComErrorView> = Ok(());
        if let Some(transport_session_id) = &self.transport_session_id {
            let closed = engine.close_session(transport_session_id.as_str());
            proof {
                witness = unit_result(closed);
                assert(pre.transport_session_id == Some(transport_session_id@));
            }
        }
        self.finish_stop();
        proof {
            if pre.transport_session_id is Some {
                assert(crate::engine::close_outcome(
                    old(engine)@,
                    engine@,
                    pre.transport_session_id.unwrap(),
                    witness,
                ));
            }
        }
        Ok(())
    }

    /// Decides whether the session can send: it runs and holds the
    /// identifier of a connection, which is given.
    pub fn check_sendable(&self) -> (r: Result<String, TermComError>)
        ensures
            crate::adapter::text_result(r) == if !self@.running {
                Err::<Seq<char>, TermComErrorView>(session_error("Session is not running"@))
            } else {
                match self@.transport_session_id {
                    Some(id) => Ok::<Seq<char>, TermComErrorView>(id),
                    None => Err::<Seq<char>, TermComErrorView>(
                        session_error("No active transport session"@),
                    ),
                }
            },
    {
        if !self.running {
            return Err(refuse("Session is not running"));
        }
        match &self.transport_session_id {
            Some(id) => Ok(id.clone()),
            None => Err(refuse("No active transport session")),
        }
    }

    /// Finishes a write of `size` bytes once the engine has answered: a
    /// write that went through is queued as the activity `DataSent`; a
    /// failure is handed back and changes nothing.
    pub fn settle_send_data(&mut self, size: usize, sent: Result<(), TermComError>) -> (r: Result<
        (),
        TermComError,
    >)
        ensures
            unit_result(r) == unit_result(sent),
            match sent {
                Ok(_) => {
                    &&& old(self)@.queued(final(self)@, 1)
                    &&& old(self)@.queued_at(final(self)@, 0) == (SessionActivityView {
                        data_size: Some(size),
                        ..plain_activity(
                            old(self)@.queued_at(final(self)@, 0).timestamp,
                            ActivityTypeView::DataSent,
                            sent_description(size),
                        )
                    })
                    &&& final(self)@ == (SessionView {
                        pending: final(self)@.pending,
                        ..old(self)@
                    })
                },
                Err(_) => final(self)@ == old(self)@,
            },
    {
        match sent {
            Ok(_) => {},
            Err(e) => {
                return Err(e);
            },
        }
        let ghost pre = self@;
        let description = String::from_str("Sent ").concat(
            decimal_text(size as u64).as_str(),
        ).concat(" bytes");
        self.record_activity(SessionActivity::data_sent(description, size));
        proof {
            assert(self@.pending.subrange(0, pre.pending.len() as int) =~= pre.pending);
        }
        Ok(())
    }

    /// Finishes a command once the engine has answered: a command that went
    /// through is queued as the activity `CommandExecuted`; a failure is
    /// handed back and changes nothing.
    pub fn settle_send_command(&mut self, command: &str, sent: Result<(), TermComError>) -> (r:
        Result<(), TermComError>)
        ensures
            unit_result(r) == unit_result(sent),
            match sent {
                Ok(_) => {
                    &&& old(self)@.queued(final(self)@, 1)
                    &&& is_plain_activity(
                        old(self)@.queued_at(final(self)@, 0),
                        ActivityTypeView::CommandExecuted,
                        "Executed command: "@ + command@,
                    )
                    &&& final(self)@ == (SessionView {
                        pending: final(self)@.pending,
                        ..old(self)@
                    })
                },
                Err(_) => final(self)@ == old(self)@,
            },
    {
        match sent {
            Ok(_) => {},
            Err(e) => {
                return Err(e);
            },
        }
        let ghost pre = self@;
        self.record_activity(SessionActivity::command_executed(String::from_str(command)));
        proof {
            assert(self@.pending.subrange(0, pre.pending.len() as int) =~= pre.pending);
        }
        Ok(())
    }

    /// Sends `data` to the device through the engine.
    pub fn send_data<C: TransportClient>(
        &mut self,
        engine: &mut CommunicationEngine<C>,
        data: Vec<u8>,
    ) -> (r: Result<(), TermComError>)
        ensures
            send_outcome(
                old(self)@,
                final(self)@,
                old(engine)@,
                final(engine)@,
                MessageType::Sent,
                data@,
                Seq::empty(),
                unit_result(r),
            ),
            old(self)@.wf() ==> final(self)@.wf(),
            old(engine)@.wf() ==> final(engine)@.wf(),
    {
        let transport_session_id = match self.check_sendable() {
            Ok(id) => id,
            Err(e) => {
                return Err(e);
            },
        };
        let size = data.len();
        let sent = engine.send_data(transport_session_id.as_str(), data);
        self.settle_send_data(size, sent)
    }

    /// Sends the text of a command to the device through the engine.
    pub fn send_command<C: TransportClient>(
        &mut self,
        engine: &mut CommunicationEngine<C>,
        command: &str,
    ) -> (r: Result<(), TermComError>)
        ensures
            send_outcome(
                old(self)@,
                final(self)@,
                old(engine)@,
                final(engine)@,
                MessageType::Command,
                encode_utf8(command@),
                command@,
                unit_result(r),
            ),
            old(self)@.wf() ==> final(self)@.wf(),
            old(engine)@.wf() ==> final(engine)@.wf(),
    {
        let transport_session_id = match self.check_sendable() {
            Ok(id) => id,
            Err(e) => {
                return Err(e);
            },
        };
        let sent = engine.send_command(transport_session_id.as_str(), command);
        self.settle_send_command(command, sent)
    }

    /// Takes in bytes that arrived from the device: the engine records
    /// them, and the session queues the activity `DataReceived`.  This is
    /// where a caller who reads from the device hands over what it read.
    pub fn receive_data<C: TransportClient>(
        &mut self,
        engine: &mut CommunicationEngine<C>,
        data: Vec<u8>,
    ) -> (r: Result<(), TermComError>)
        ensures
            receive_outcome(
                old(self)@,
                final(self)@,
                old(engine)@,
                final(engine)@,
                data@,
                unit_result(r),
            ),
            old(self)@.wf() ==> final(self)@.wf(),
            old(engine)@.wf() ==> final(engine)@.wf(),
    {
        let transport_session_id = match self.check_sendable() {
            Ok(id) => id,
            Err(e) => {
                return Err(e);
            },
        };
        let size = data.len();
        match engine.receive_data(transport_session_id.as_str(), data) {
            Ok(_) => {},
            Err(e) => {
                return Err(e);
            },
        }
        let ghost pre = self@;
        let description = String::from_str("Received ").concat(
            decimal_text(size as u64).as_str(),
        ).concat(" bytes");
        self.record_activity(SessionActivity::data_received(description, size));
        proof {
            assert(self@.pending.subrange(0, pre.pending.len() as int) =~= pre.pending);
        }
        Ok(())
    }

    /// Works the queue of activities off, oldest first: each is recorded in
    /// the session's record and entered in the activity history.  Gives the
    /// number of activities worked off.
    pub fn process_activities(&mut self) -> (count: usize)
        ensures
            final(self)@ == processed(old(self)@),
            count == old(self)@.pending.len(),
            old(self)@.wf() ==> final(self)@.wf(),
    {
        let ghost pre = self@;
        let mut count: usize = 0;
        proof {
            assert(pre.pending.subrange(0, 0) =~= Seq::<SessionActivityView>::empty());
            assert(pre.pending.len() == self.pending.len());
            if pre.wf() {
                lemma_entered_all_len(
                    pre.activity_history,
                    pre.pending,
                    pre.activity_capacity as nat,
                );
                lemma_recorded_all_keeps(pre.state, pre.pending);
            }
        }
        while self.pending.len() > 0
            invariant
                count <= pre.pending.len() <= usize::MAX,
                self@.pending == pre.pending.skip(count as int),
                self@.state == recorded_all(pre.state, pre.pending.subrange(0, count as int)),
                self@.activity_history == entered_all(
                    pre.activity_history,
                    pre.pending.subrange(0, count as int),
                    pre.activity_capacity as nat,
                ),
                self@ == (SessionView {
                    state: self@.state,
                    activity_history: self@.activity_history,
                    pending: self@.pending,
                    ..pre
                }),
            decreases self.pending.len(),
        {
            let ghost queue = self.pending.deep_view();
            let ghost history = self.activity_history.deep_view();
            assert(queue.len() == self.pending.len());
            assert(count < pre.pending.len());
            let ghost upto = pre.pending.subrange(0, count + 1);
            match self.pending.pop_front() {
                Some(activity) => {
                    proof {
                        assert(self.pending.deep_view() =~= queue.skip(1));
                        assert(queue.skip(1) =~= pre.pending.skip(count + 1));
                        assert(activity@ == queue[0]);
                        assert(queue[0] == pre.pending[count as int]);
                        assert(upto.drop_last() =~= pre.pending.subrange(0, count as int));
                        assert(upto.last() == activity@);
                    }
                    self.state.record_activity(activity.clone());
                    push_bounded(&mut self.activity_history, activity, self.activity_capacity);
                    assert(self.activity_history.deep_view() =~= bounded_tail(
                        history.push(pre.pending[count as int]),
                        self.activity_capacity as nat,
                    ));
                    count = count + 1;
                },
                None => {},
            }
        }
        proof {
            assert(pre.pending.subrange(0, pre.pending.len() as int) =~= pre.pending);
            assert(self@.pending =~= Seq::<SessionActivityView>::empty());
        }
        count
    }

    /// A copy of the session's record.
    pub fn get_state(&self) -> (state: SessionState)
        ensures
            state@ == self@.state,
    {
        self.state.clone()
    }

    /// The session's configuration.
    pub fn get_config(&self) -> (config: &SessionConfig)
        ensures
            config@ == self@.config,
    {
        &self.config
    }

    /// The messages that the session keeps, oldest first.
    pub fn get_message_history(&self) -> (messages: Vec<Message>)
        ensures
            messages.deep_view() == self@.message_history,
    {
        let mut messages: Vec<Message> = Vec::new();
        let mut i: usize = 0;
        while i < self.message_history.len()
            invariant
                i <= self.message_history.len(),
                messages.len() == i,
                forall|j: int| 0 <= j < i ==> messages[j]@ == self.message_history[j]@,
            decreases self.message_history.len() - i,
        {
            messages.push(self.message_history[i].clone());
            i = i + 1;
        }
        assert(messages.deep_view() =~= self.message_history.deep_view());
        messages
    }

    /// The messages that the session keeps and the pattern admits, oldest
    /// first.
    pub fn get_filtered_messages(&self, pattern: &MessagePattern) -> (messages: Vec<Message>)
        ensures
            messages.deep_view() == crate::engine::admitted(self@.message_history, pattern@),
    {
        let mut messages: Vec<Message> = Vec::new();
        let mut i: usize = 0;
        assert(self@.message_history.subrange(0, 0) =~= Seq::<MessageView>::empty());
        assert(messages.deep_view() =~= Seq::<MessageView>::empty());
        while i < self.message_history.len()
            invariant
                i <= self.message_history.len(),
                messages.deep_view() == crate::engine::admitted(
                    self@.message_history.subrange(0, i as int),
                    pattern@,
                ),
            decreases self.message_history.len() - i,
        {
            let ghost before = messages.deep_view();
            let ghost upto = self@.message_history.subrange(0, i + 1);
            assert(upto.drop_last() =~= self@.message_history.subrange(0, i as int));
            assert(upto.last() == self.message_history[i as int]@);
            if self.message_history[i].matches_pattern(pattern) {
                messages.push(self.message_history[i].clone());
                assert(messages.deep_view() =~= before.push(self.message_history[i as int]@));
            }
            i = i + 1;
        }
        assert(self@.message_history.subrange(0, self@.message_history.len() as int)
            =~= self@.message_history);
        messages
    }

    /// The activities that were worked off, oldest first.
    pub fn get_activity_history(&self) -> (activities: Vec<SessionActivity>)
        ensures
            activities.deep_view() == self@.activity_history,
    {
        let mut activities: Vec<SessionActivity> = Vec::new();
        let mut i: usize = 0;
        while i < self.activity_history.len()
            invariant
                i <= self.activity_history.len(),
                activities.len() == i,
                forall|j: int| 0 <= j < i ==> activities[j]@ == self.activity_history[j]@,
            decreases self.activity_history.len() - i,
        {
            activities.push(self.activity_history[i].clone());
            i = i + 1;
        }
        assert(activities.deep_view() =~= self.activity_history.deep_view());
        activities
    }

    /// The number of messages that the session keeps.
    pub fn message_count(&self) -> (count: usize)
        ensures
            count == self@.message_history.len(),
    {
        self.message_history.len()
    }

    /// The number of activities in the activity history.
    pub fn activity_count(&self) -> (count: usize)
        ensures
            count == self@.activity_history.len(),
    {
        self.activity_history.len()
    }

    /// Empties the message history.
    pub fn clear_message_history(&mut self)
        ensures
            final(self)@ == (SessionView { message_history: Seq::empty(), ..old(self)@ }),
    {
        self.message_history.clear();
        assert(self.message_history.deep_view() =~= Seq::<MessageView>::empty());
    }

    /// Empties the activity history.
    pub fn clear_activity_history(&mut self)
        ensures
            final(self)@ == (SessionView { activity_history: Seq::empty(), ..old(self)@ }),
    {
        self.activity_history.clear();
        assert(self.activity_history.deep_view() =~= Seq::<SessionActivityView>::empty());
    }

    /// Whether the session is running.
    pub fn is_running(&self) -> (running: bool)
        ensures
            running == self@.running,
    {
        self.running
    }

    /// The session's identifier.
    pub fn get_session_id(&self) -> (id: String)
        ensures
            id@ == self@.state.session_id,
    {
        self.state.session_id.clone()
    }

    /// Puts another configuration in place of the session's.  A running
    /// session refuses.
    pub fn update_config(&mut self, new_config: SessionConfig) -> (r: Result<(), TermComError>)
        ensures
            update_outcome(old(self)@, final(self)@, new_config@, unit_result(r)),
            old(self)@.wf() ==> final(self)@.wf(),
    {
        if self.running {
            return Err(refuse("Cannot update configuration while session is running"));
        }
        self.config = new_config;
        self.state.metadata.config_name = Some(self.config.name.clone());
        self.state.metadata.tags = copy_strings(&self.config.tags);
        self.state.metadata.properties = self.config.properties.clone();
        Ok(())
    }
}

/// Recording activities changes neither the status nor the identity of a
/// record: only the time of the last activity and the statistics move.
pub proof fn lemma_recorded_all_keeps(state: SessionStateView, activities: Seq<SessionActivityView>)
    ensures
        recorded_all(state, activities) == (SessionStateView {
            last_activity: recorded_all(state, activities).last_activity,
            statistics: recorded_all(state, activities).statistics,
            ..state
        }),
    decreases activities.len(),
{
    if activities.len() > 0 {
        lemma_recorded_all_keeps(state, activities.drop_last());
    }
}

/// A closed session refuses to send: the call fails with "Session is not
/// running" and changes neither the session nor the engine.
pub proof fn lemma_closed_refuses_send(
    pre: SessionView,
    post: SessionView,
    pre_engine: EngineView,
    post_engine: EngineView,
    message_type: MessageType,
    data: Seq<u8>,
    command: Seq<char>,
    r: Result<(), TermComErrorView>,
)
    requires
        pre.wf(),
        pre.state.status is Closed,
        send_outcome(pre, post, pre_engine, post_engine, message_type, data, command, r),
    ensures
        r == Err::<(), TermComErrorView>(session_error("Session is not running"@)),
        post == pre,
        post_engine == pre_engine,
{
}

/// An active session refuses to start: the call fails and changes neither
/// the session, its statistics among the rest, nor the engine.
pub proof fn lemma_active_refuses_start(
    pre: SessionView,
    post: SessionView,
    pre_engine: EngineView,
    post_engine: EngineView,
    r: Result<(), TermComErrorView>,
)
    requires
        pre.wf(),
        pre.state.status is Active,
        start_outcome(pre, post, pre_engine, post_engine, r),
    ensures
        r == Err::<(), TermComErrorView>(session_error("Session is already running"@)),
        post == pre,
        post.state.statistics == pre.state.statistics,
        post_engine == pre_engine,
{
}

/// Closed is the end: whatever is asked of a closed session, it stays
/// closed and does not run, and a start or a write is refused.
pub proof fn lemma_closed_is_terminal(
    pre: SessionView,
    post: SessionView,
    pre_engine: EngineView,
    post_engine: EngineView,
    message_type: MessageType,
    data: Seq<u8>,
    command: Seq<char>,
    new_config: SessionConfigView,
    r: Result<(), TermComErrorView>,
)
    requires
        pre.wf(),
        pre.state.status is Closed,
        start_outcome(pre, post, pre_engine, post_engine, r) || stop_outcome(
            pre,
            post,
            pre_engine,
            post_engine,
        ) || send_outcome(pre, post, pre_engine, post_engine, message_type, data, command, r)
            || receive_outcome(pre, post, pre_engine, post_engine, data, r) || update_outcome(
            pre,
            post,
            new_config,
            r,
        ) || post == processed(pre),
    ensures
        post.state.status is Closed,
        !post.running,
        start_outcome(pre, post, pre_engine, post_engine, r) ==> r is Err,
        send_outcome(pre, post, pre_engine, post_engine, message_type, data, command, r) ==> r
            is Err,
{
    lemma_recorded_all_keeps(pre.state, pre.pending);
}

/// A start and a stop move the status only along steps that the life of a
/// session allows: a start goes by way of `Initializing` to `Active` or to
/// an error, a stop by way of `Closing` to `Closed`, in one step where the
/// session is closing already.
pub proof fn lemma_status_steps_are_legal(
    pre: SessionView,
    post: SessionView,
    pre_engine: EngineView,
    post_engine: EngineView,
    r: Result<(), TermComErrorView>,
)
    requires
        pre.wf(),
        start_outcome(pre, post, pre_engine, post_engine, r) || stop_outcome(
            pre,
            post,
            pre_engine,
            post_engine,
        ),
    ensures
        post.wf(),
        post.state.status == pre.state.status || pre.state.status.may_become(post.state.status)
            || {
            &&& pre.state.status.may_become(SessionStatusView::Initializing)
            &&& SessionStatusView::Initializing.may_become(post.state.status)
        } || {
            &&& pre.state.status.may_become(SessionStatusView::Closing)
            &&& SessionStatusView::Closing.may_become(post.state.status)
        },
{
}

/// Stopping twice is stopping once: the first stop leaves the session not
/// running, and closed where it ran; the second changes nothing, neither in
/// the session, which gets no second `Closed` activity, nor in the engine.
pub proof fn lemma_stop_is_idempotent(
    before: SessionView,
    once: SessionView,
    twice: SessionView,
    engine_before: EngineView,
    engine_once: EngineView,
    engine_twice: EngineView,
)
    requires
        stop_outcome(before, once, engine_before, engine_once),
        stop_outcome(once, twice, engine_once, engine_twice),
    ensures
        !once.running,
        before.running ==> once.state.status is Closed,
        twice == once,
        engine_twice == engine_once,
{
}

} // verus!
