//! The session manager: it owns the sessions and the engine that serves
//! them, admits a new session only below its limit and only under a name
//! that no other session has, and reports on the sessions one by one and in
//! sum.

use crate::adapter::{text_result, unit_result};
use crate::engine::{CommunicationEngine, EngineView};
use crate::error::{combine_failures, combined, TermComError, TermComErrorView};
use crate::ident::fresh_uuid;
use crate::lookup::{
    all_distinct, last_index_of, lemma_last_index_absent, lemma_last_index_found,
    lemma_last_index_of,
};
use crate::message::MessageType;
use crate::session::{
    initial_session, session_error, Session, SessionConfig, SessionConfigView, SessionType,
    SessionView,
};
use crate::state::{capped_sum, SessionState, SessionStatistics, SessionStatus, SessionStatusView};
use crate::text::{list_contains, occurs_in, text_contains, text_eq};
use crate::time::{span_between, Duration, Timestamp};
use crate::transport::{
    limit_reached_message, limit_reached_text, session_not_found_message, session_not_found_text,
    TransportClient,
};
use vstd::prelude::*;
use vstd::utf8::encode_utf8;

verus! {

/// The main facts about one session.
#[derive(Debug)]
pub struct SessionSummary {
    pub session_id: String,
    pub name: String,
    pub device_name: String,
    pub session_type: SessionType,
    pub status: SessionStatus,
    pub created_at: Timestamp,
    pub last_activity: Timestamp,
    pub uptime: Duration,
    pub message_count: usize,
    pub activity_count: usize,
    pub bytes_sent: u64,
    pub bytes_received: u64,
}

/// A summary with its texts as sequences of characters.
pub struct SessionSummaryView {
    pub session_id: Seq<char>,
    pub name: Seq<char>,
    pub device_name: Seq<char>,
    pub session_type: SessionType,
    pub status: SessionStatusView,
    pub created_at: Timestamp,
    pub last_activity: Timestamp,
    pub uptime: Duration,
    pub message_count: usize,
    pub activity_count: usize,
    pub bytes_sent: u64,
    pub bytes_received: u64,
}

impl View for SessionSummary {
    type V = SessionSummaryView;

    open spec fn view(&self) -> SessionSummaryView {
        SessionSummaryView {
            session_id: self.session_id@,
            name: self.name@,
            device_name: self.device_name@,
            session_type: self.session_type,
            status: self.status@,
            created_at: self.created_at,
            last_activity: self.last_activity,
            uptime: self.uptime,
            message_count: self.message_count,
            activity_count: self.activity_count,
            bytes_sent: self.bytes_sent,
            bytes_received: self.bytes_received,
        }
    }
}

impl DeepView for SessionSummary {
    type V = SessionSummaryView;

    open spec fn deep_view(&self) -> SessionSummaryView {
        self@
    }
}

impl Clone for SessionSummary {
    fn clone(&self) -> (copy: Self)
        ensures
            copy@ == self@,
    {
        SessionSummary {
            session_id: self.session_id.clone(),
            name: self.name.clone(),
            device_name: self.device_name.clone(),
            session_type: self.session_type,
            status: self.status.clone(),
            created_at: self.created_at,
            last_activity: self.last_activity,
            uptime: self.uptime,
            message_count: self.message_count,
            activity_count: self.activity_count,
            bytes_sent: self.bytes_sent,
            bytes_received: self.bytes_received,
        }
    }
}

/// Conditions that select sessions.  A condition that is not set admits
/// every session.
#[derive(Debug)]
pub struct SessionFilter {
    pub session_type: Option<SessionType>,
    pub status: Option<SessionStatus>,
    pub device_name: Option<String>,
    pub tags: Vec<String>,
    pub name_pattern: Option<String>,
}

/// A filter with its texts as sequences of characters.
pub struct SessionFilterView {
    pub session_type: Option<SessionType>,
    pub status: Option<SessionStatusView>,
    pub device_name: Option<Seq<char>>,
    pub tags: Seq<Seq<char>>,
    pub name_pattern: Option<Seq<char>>,
}

/// The view of a status that may be missing.
pub open spec fn status_view(status: Option<SessionStatus>) -> Option<SessionStatusView> {
    match status {
        Some(status) => Some(status@),
        None => None,
    }
}

impl View for SessionFilter {
    type V = SessionFilterView;

    open spec fn view(&self) -> SessionFilterView {
        SessionFilterView {
            session_type: self.session_type,
            status: status_view(self.status),
            device_name: self.device_name.deep_view(),
            tags: self.tags.deep_view(),
            name_pattern: self.name_pattern.deep_view(),
        }
    }
}

/// Whether one of `wanted` is among `present`; true where nothing is
/// wanted.
pub open spec fn has_any_tag(present: Seq<Seq<char>>, wanted: Seq<Seq<char>>) -> bool {
    wanted.len() == 0 || exists|i: int| 0 <= i < wanted.len() && present.contains(#[trigger] wanted[i])
}

impl SessionFilterView {
    /// The filter that admits every session.
    pub open spec fn any() -> SessionFilterView {
        SessionFilterView {
            session_type: None,
            status: None,
            device_name: None,
            tags: Seq::empty(),
            name_pattern: None,
        }
    }

    /// Whether a session with the given summary and tags meets every
    /// condition that is set: the same type, a status of the same kind
    /// (whatever the text of an error), the same device, a name in which
    /// the pattern occurs, and one of the tags.
    pub open spec fn admits(self, summary: SessionSummaryView, tags: Seq<Seq<char>>) -> bool {
        &&& self.session_type is Some ==> summary.session_type == self.session_type.unwrap()
        &&& self.status matches Some(status) ==> summary.status.same_kind(status)
        &&& self.device_name matches Some(device_name) ==> summary.device_name == device_name
        &&& self.name_pattern matches Some(pattern) ==> occurs_in(summary.name, pattern)
        &&& has_any_tag(tags, self.tags)
    }
}

/// Sums over all sessions.
#[derive(Clone, Copy, Debug, PartialEq, Eq, Structural)]
pub struct GlobalStatistics {
    pub total_sessions: usize,
    pub active_sessions: usize,
    pub total_messages: u64,
    pub total_bytes_sent: u64,
    pub total_bytes_received: u64,
    pub total_errors: u64,
}

/// Sums over all sessions, with the sessions counted by status.
#[derive(Clone, Copy, Debug, PartialEq, Eq, Structural)]
pub struct SessionManagerStats {
    pub total_sessions: usize,
    pub active_sessions: usize,
    pub disconnected_sessions: usize,
    pub error_sessions: usize,
    pub closed_sessions: usize,
    pub other_sessions: usize,
    pub total_bytes_sent: u64,
    pub total_bytes_received: u64,
    pub total_messages_sent: u64,
    pub total_messages_received: u64,
    pub total_errors: u64,
}

/// The number of messages that a session's statistics count, or the largest
/// number where that is more.
pub open spec fn traffic_count(statistics: SessionStatistics) -> usize {
    if statistics.messages_sent + statistics.messages_received > usize::MAX {
        usize::MAX
    } else {
        (statistics.messages_sent + statistics.messages_received) as usize
    }
}

/// The summary of a session at the time `now`, with the messages and
/// activities that the session keeps counted.
pub open spec fn summary_of(session: SessionView, now: Timestamp) -> SessionSummaryView {
    SessionSummaryView {
        session_id: session.state.session_id,
        name: session.config.name,
        device_name: session.state.device_name,
        session_type: session.config.session_type,
        status: session.state.status,
        created_at: session.state.created_at,
        last_activity: session.state.last_activity,
        uptime: span_between(now, session.state.created_at),
        message_count: session.message_history.len() as usize,
        activity_count: session.activity_history.len() as usize,
        bytes_sent: session.state.statistics.bytes_sent,
        bytes_received: session.state.statistics.bytes_received,
    }
}

/// The summary of a session at the time `now` as its configuration and its
/// statistics give it: the device is the configured one, the messages are
/// those that the statistics count, and activities are not counted.
pub open spec fn configured_summary_of(session: SessionView, now: Timestamp) -> SessionSummaryView {
    SessionSummaryView {
        device_name: session.config.device_config.name,
        message_count: traffic_count(session.state.statistics),
        activity_count: 0,
        ..summary_of(session, now)
    }
}

/// The summaries of all sessions at the time `now`, in the order of the
/// sessions.
pub open spec fn summaries_of(sessions: Seq<SessionView>, now: Timestamp) -> Seq<SessionSummaryView> {
    sessions.map_values(|session: SessionView| summary_of(session, now))
}

/// The summaries of the sessions that the filter admits, in the order of the
/// sessions.
pub open spec fn admitted_summaries(
    sessions: Seq<SessionView>,
    filter: SessionFilterView,
    now: Timestamp,
    configured: bool,
) -> Seq<SessionSummaryView>
    decreases sessions.len(),
{
    if sessions.len() == 0 {
        Seq::empty()
    } else {
        let summary = if configured {
            configured_summary_of(sessions.last(), now)
        } else {
            summary_of(sessions.last(), now)
        };
        let front = admitted_summaries(sessions.drop_last(), filter, now, configured);
        if filter.admits(summary, sessions.last().config.tags) {
            front.push(summary)
        } else {
            front
        }
    }
}

/// The statistics of no session.
pub open spec fn no_stats() -> SessionManagerStats {
    SessionManagerStats {
        total_sessions: 0,
        active_sessions: 0,
        disconnected_sessions: 0,
        error_sessions: 0,
        closed_sessions: 0,
        other_sessions: 0,
        total_bytes_sent: 0,
        total_bytes_received: 0,
        total_messages_sent: 0,
        total_messages_received: 0,
        total_errors: 0,
    }
}

/// The count after one more, or the largest number where that is more.
pub open spec fn capped_next(count: usize) -> usize {
    if count == usize::MAX {
        count
    } else {
        (count + 1) as usize
    }
}

/// The statistics with one more session taken in: the session is counted
/// under its status, and its traffic is added.  No sum passes the largest
/// number that it can hold.
pub open spec fn stats_with(stats: SessionManagerStats, session: SessionView) -> SessionManagerStats {
    let counted = match session.state.status {
        SessionStatusView::Active => SessionManagerStats {
            active_sessions: capped_next(stats.active_sessions),
            ..stats
        },
        SessionStatusView::Disconnected => SessionManagerStats {
            disconnected_sessions: capped_next(stats.disconnected_sessions),
            ..stats
        },
        SessionStatusView::Error(_) => SessionManagerStats {
            error_sessions: capped_next(stats.error_sessions),
            ..stats
        },
        SessionStatusView::Closed => SessionManagerStats {
            closed_sessions: capped_next(stats.closed_sessions),
            ..stats
        },
        _ => SessionManagerStats { other_sessions: capped_next(stats.other_sessions), ..stats },
    };
    let traffic = session.state.statistics;
    SessionManagerStats {
        total_bytes_sent: capped_sum(stats.total_bytes_sent, traffic.bytes_sent as int),
        total_bytes_received: capped_sum(stats.total_bytes_received, traffic.bytes_received as int),
        total_messages_sent: capped_sum(stats.total_messages_sent, traffic.messages_sent as int),
        total_messages_received: capped_sum(
            stats.total_messages_received,
            traffic.messages_received as int,
        ),
        total_errors: capped_sum(stats.total_errors, traffic.error_count as int),
        ..counted
    }
}

/// The statistics of the given sessions.
pub open spec fn stats_of(sessions: Seq<SessionView>) -> SessionManagerStats
    decreases sessions.len(),
{
    if sessions.len() == 0 {
        no_stats()
    } else {
        SessionManagerStats {
            total_sessions: sessions.len() as usize,
            ..stats_with(stats_of(sessions.drop_last()), sessions.last())
        }
    }
}

/// The global statistics with one more session taken in.
pub open spec fn global_with(stats: GlobalStatistics, session: SessionView) -> GlobalStatistics {
    let traffic = session.state.statistics;
    GlobalStatistics {
        total_sessions: stats.total_sessions,
        active_sessions: if session.state.status is Active {
            capped_next(stats.active_sessions)
        } else {
            stats.active_sessions
        },
        total_messages: capped_sum(
            stats.total_messages,
            capped_sum(traffic.messages_sent, traffic.messages_received as int) as int,
        ),
        total_bytes_sent: capped_sum(stats.total_bytes_sent, traffic.bytes_sent as int),
        total_bytes_received: capped_sum(stats.total_bytes_received, traffic.bytes_received as int),
        total_errors: capped_sum(stats.total_errors, traffic.error_count as int),
    }
}

/// The global statistics of the given sessions.
pub open spec fn global_of(sessions: Seq<SessionView>) -> GlobalStatistics
    decreases sessions.len(),
{
    if sessions.len() == 0 {
        GlobalStatistics {
            total_sessions: 0,
            active_sessions: 0,
            total_messages: 0,
            total_bytes_sent: 0,
            total_bytes_received: 0,
            total_errors: 0,
        }
    } else {
        GlobalStatistics {
            total_sessions: sessions.len() as usize,
            ..global_with(global_of(sessions.drop_last()), sessions.last())
        }
    }
}

/// The number of sessions that run.
pub open spec fn count_running(sessions: Seq<SessionView>) -> nat
    decreases sessions.len(),
{
    if sessions.len() == 0 {
        0
    } else {
        count_running(sessions.drop_last()) + if sessions.last().running {
            1nat
        } else {
            0nat
        }
    }
}

/// The identifiers of the sessions in whose name the pattern occurs, in the
/// order of the sessions.
pub open spec fn ids_by_name(sessions: Seq<SessionView>, pattern: Seq<char>) -> Seq<Seq<char>>
    decreases sessions.len(),
{
    if sessions.len() == 0 {
        Seq::empty()
    } else if occurs_in(sessions.last().config.name, pattern) {
        ids_by_name(sessions.drop_last(), pattern).push(sessions.last().state.session_id)
    } else {
        ids_by_name(sessions.drop_last(), pattern)
    }
}

/// The identifiers of the sessions for the given device, in the order of
/// the sessions.
pub open spec fn ids_by_device(sessions: Seq<SessionView>, device_name: Seq<char>) -> Seq<
    Seq<char>,
>
    decreases sessions.len(),
{
    if sessions.len() == 0 {
        Seq::empty()
    } else if sessions.last().config.device_config.name == device_name {
        ids_by_device(sessions.drop_last(), device_name).push(sessions.last().state.session_id)
    } else {
        ids_by_device(sessions.drop_last(), device_name)
    }
}

/// The text of the error for a name that a session has already.
pub open spec fn name_taken_text(name: Seq<char>) -> Seq<char> {
    "Session with name '"@ + name + "' already exists"@
}

/// The session manager as a value.
pub struct ManagerView {
    pub sessions: Seq<SessionView>,
    pub engine: EngineView,
    pub max_sessions: usize,
    /// The number of sessions that were ever made.
    pub session_counter: u64,
}

impl ManagerView {
    /// The identifiers of the sessions, in the order of the sessions.
    pub open spec fn ids(self) -> Seq<Seq<char>> {
        self.sessions.map_values(|session: SessionView| session.state.session_id)
    }

    /// The names of the sessions, in the order of the sessions.
    pub open spec fn names(self) -> Seq<Seq<char>> {
        self.sessions.map_values(|session: SessionView| session.config.name)
    }

    /// Where the session with the given identifier stands.
    pub open spec fn position(self, id: Seq<char>) -> Option<int> {
        last_index_of(self.ids(), id)
    }

    /// Whether a session has the given identifier.
    pub open spec fn has_session(self, id: Seq<char>) -> bool {
        self.position(id) is Some
    }

    /// The session with the given identifier.
    pub open spec fn session(self, id: Seq<char>) -> Option<SessionView> {
        match self.position(id) {
            Some(i) => Some(self.sessions[i]),
            None => None,
        }
    }

    /// Why a new session of the given name is refused, if it is: the manager
    /// is at its limit, or a session has the name already; in this order.
    pub open spec fn refusal(self, name: Seq<char>) -> Option<TermComErrorView> {
        if self.sessions.len() >= self.max_sessions {
            Some(session_error(limit_reached_text(self.max_sessions)))
        } else if self.names().contains(name) {
            Some(session_error(name_taken_text(name)))
        } else {
            None
        }
    }

    /// The manager after `session` has been taken in: in place of the
    /// session with the same identifier if there is one, else at the end.
    pub open spec fn with_session(self, session: SessionView) -> ManagerView {
        match self.position(session.state.session_id) {
            Some(i) => ManagerView { sessions: self.sessions.update(i, session), ..self },
            None => ManagerView { sessions: self.sessions.push(session), ..self },
        }
    }

    /// What holds of every manager that this crate builds: it is within its
    /// limit, no identifier and no name occurs twice, and each session and
    /// the engine are well formed.
    pub open spec fn wf(self) -> bool {
        &&& self.sessions.len() <= self.max_sessions
        &&& all_distinct(self.ids())
        &&& all_distinct(self.names())
        &&& forall|i: int| 0 <= i < self.sessions.len() ==> (#[trigger] self.sessions[i]).wf()
        &&& self.engine.wf()
    }
}

/// The error for an identifier that names no session of the manager.
pub open spec fn unknown_session(id: Seq<char>) -> TermComErrorView {
    session_error(session_not_found_text(id))
}

/// What `create_session` does to a manager and returns.  A refused request
/// changes nothing and returns the refusal.  Otherwise a session that is
/// being set up is taken in under a new identifier of 36 characters, which
/// is returned, and the count of sessions ever made moves on.
pub open spec fn create_outcome(
    pre: ManagerView,
    post: ManagerView,
    config: SessionConfigView,
    r: Result<Seq<char>, TermComErrorView>,
) -> bool {
    match pre.refusal(config.name) {
        Some(e) => r == Err::<Seq<char>, TermComErrorView>(e) && post == pre,
        None => {
            &&& r matches Ok(id)
            &&& id.len() == 36
            &&& post.session(id) matches Some(made)
            &&& made == initial_session(config, id, made.state.created_at)
            &&& post == ManagerView {
                session_counter: capped_sum(pre.session_counter, 1),
                ..pre.with_session(made)
            }
        },
    }
}

/// What an operation on one session does to a manager: an unknown
/// identifier changes nothing; for a known one only that session and the
/// engine may change.
pub open spec fn touches_only(pre: ManagerView, post: ManagerView, id: Seq<char>) -> bool {
    match pre.position(id) {
        None => post == pre,
        Some(i) => {
            &&& post.sessions.len() == pre.sessions.len()
            &&& post == ManagerView {
                sessions: pre.sessions.update(i, post.sessions[i]),
                engine: post.engine,
                ..pre
            }
        },
    }
}

/// What `start_session` may do to a manager and return: an unknown
/// identifier is reported; for a known one the session does what its own
/// `start` says.
pub open spec fn start_outcome(
    pre: ManagerView,
    post: ManagerView,
    id: Seq<char>,
    r: Result<(), TermComErrorView>,
) -> bool {
    &&& touches_only(pre, post, id)
    &&& match pre.position(id) {
        None => r == Err::<(), TermComErrorView>(unknown_session(id)),
        Some(i) => crate::session::start_outcome(
            pre.sessions[i],
            post.sessions[i],
            pre.engine,
            post.engine,
            r,
        ),
    }
}

/// What `stop_session` may do to a manager and return: an unknown
/// identifier is reported; for a known one the session does what its own
/// `stop` says, and the call succeeds.
pub open spec fn stop_outcome(
    pre: ManagerView,
    post: ManagerView,
    id: Seq<char>,
    r: Result<(), TermComErrorView>,
) -> bool {
    &&& touches_only(pre, post, id)
    &&& match pre.position(id) {
        None => r == Err::<(), TermComErrorView>(unknown_session(id)),
        Some(i) => r is Ok && crate::session::stop_outcome(
            pre.sessions[i],
            post.sessions[i],
            pre.engine,
            post.engine,
        ),
    }
}

/// What `remove_session` may do to a manager and return: an unknown
/// identifier is reported and nothing changes; a known session is stopped,
/// as its own `stop` says, and is gone.
pub open spec fn remove_outcome(
    pre: ManagerView,
    post: ManagerView,
    id: Seq<char>,
    r: Result<(), TermComErrorView>,
) -> bool {
    match pre.position(id) {
        None => r == Err::<(), TermComErrorView>(unknown_session(id)) && post == pre,
        Some(i) => {
            &&& r is Ok
            &&& exists|stopped: SessionView|
                crate::session::stop_outcome(pre.sessions[i], stopped, pre.engine, post.engine)
            &&& post == ManagerView {
                sessions: pre.sessions.remove(i),
                engine: post.engine,
                ..pre
            }
        },
    }
}

/// What `send_data` and `send_command` may do to a manager and return: an
/// unknown identifier is reported; for a known one the session does what its
/// own operation says.
pub open spec fn send_outcome(
    pre: ManagerView,
    post: ManagerView,
    id: Seq<char>,
    message_type: MessageType,
    data: Seq<u8>,
    command: Seq<char>,
    r: Result<(), TermComErrorView>,
) -> bool {
    &&& touches_only(pre, post, id)
    &&& match pre.position(id) {
        None => r == Err::<(), TermComErrorView>(unknown_session(id)),
        Some(i) => crate::session::send_outcome(
            pre.sessions[i],
            post.sessions[i],
            pre.engine,
            post.engine,
            message_type,
            data,
            command,
            r,
        ),
    }
}

/// What `receive_data` does to a manager and returns: an unknown
/// identifier is reported; for a known one the session does what its own
/// `receive_data` says.
pub open spec fn receive_outcome(
    pre: ManagerView,
    post: ManagerView,
    id: Seq<char>,
    data: Seq<u8>,
    r: Result<(), TermComErrorView>,
) -> bool {
    &&& touches_only(pre, post, id)
    &&& match pre.position(id) {
        None => r == Err::<(), TermComErrorView>(unknown_session(id)),
        Some(i) => crate::session::receive_outcome(
            pre.sessions[i],
            post.sessions[i],
            pre.engine,
            post.engine,
            data,
            r,
        ),
    }
}

/// Why a new configuration for the session at place `i` is refused by the
/// manager, if it is: another session has the new name.
pub open spec fn name_clash(pre: ManagerView, i: int, name: Seq<char>) -> bool {
    exists|j: int| 0 <= j < pre.sessions.len() && j != i && #[trigger] pre.names()[j] == name
}

/// What `update_session_config` does to a manager and returns: an unknown
/// identifier is reported; a name that another session has is refused;
/// nothing changes in either case.  Otherwise the session does what its own
/// `update_config` says.
pub open spec fn update_outcome(
    pre: ManagerView,
    post: ManagerView,
    id: Seq<char>,
    new_config: SessionConfigView,
    r: Result<(), TermComErrorView>,
) -> bool {
    match pre.position(id) {
        None => r == Err::<(), TermComErrorView>(unknown_session(id)) && post == pre,
        Some(i) => if name_clash(pre, i, new_config.name) {
            r == Err::<(), TermComErrorView>(session_error(name_taken_text(new_config.name)))
                && post == pre
        } else {
            &&& touches_only(pre, post, id)
            &&& post.engine == pre.engine
            &&& crate::session::update_outcome(pre.sessions[i], post.sessions[i], new_config, r)
        },
    }
}

/// Taking in a session that is not refused keeps the manager well formed,
/// and the session is found under its identifier.
pub proof fn lemma_with_session_wf(manager: ManagerView, session: SessionView)
    requires
        manager.wf(),
        manager.refusal(session.config.name) is None,
        session.wf(),
    ensures
        manager.with_session(session).wf(),
        manager.with_session(session).session(session.state.session_id) == Some(session),
{
    let after = manager.with_session(session);
    let id = session.state.session_id;
    let name = session.config.name;
    lemma_last_index_of(manager.ids(), id);
    match manager.position(id) {
        Some(i) => {
            assert(after.ids() =~= manager.ids());
            assert(after.names() =~= manager.names().update(i, name));
            assert forall|a: int, b: int|
                0 <= a < after.names().len() && 0 <= b < after.names().len() && a
                    != b implies after.names()[a] != after.names()[b] by {
                if a == i {
                    assert(manager.names()[b] != name);
                } else if b == i {
                    assert(manager.names()[a] != name);
                } else {
                    assert(manager.names()[a] != manager.names()[b]);
                }
            }
            assert forall|k: int| 0 <= k < after.sessions.len() implies (
            #[trigger] after.sessions[k]).wf() by {
                if k != i {
                    assert(manager.sessions[k].wf());
                }
            }
        },
        None => {
            assert(after.ids() =~= manager.ids().push(id));
            assert(after.names() =~= manager.names().push(name));
            assert forall|a: int, b: int|
                0 <= a < after.ids().len() && 0 <= b < after.ids().len() && a
                    != b implies after.ids()[a] != after.ids()[b] by {
                if a < manager.ids().len() && b < manager.ids().len() {
                    assert(manager.ids()[a] != manager.ids()[b]);
                } else if a < manager.ids().len() {
                    assert(manager.ids()[a] != id);
                } else {
                    assert(manager.ids()[b] != id);
                }
            }
            assert forall|a: int, b: int|
                0 <= a < after.names().len() && 0 <= b < after.names().len() && a
                    != b implies after.names()[a] != after.names()[b] by {
                if a < manager.names().len() && b < manager.names().len() {
                    assert(manager.names()[a] != manager.names()[b]);
                } else if a < manager.names().len() {
                    assert(manager.names()[a] != name);
                } else {
                    assert(manager.names()[b] != name);
                }
            }
            assert forall|k: int| 0 <= k < after.sessions.len() implies (
            #[trigger] after.sessions[k]).wf() by {
                if k < manager.sessions.len() {
                    assert(manager.sessions[k].wf());
                }
            }
            lemma_last_index_found(after.ids(), id, after.ids().len() - 1);
        },
    }
}

/// Putting a session with the same identifier and name in the place of a
/// session keeps the manager well formed.
pub proof fn lemma_update_wf(
    manager: ManagerView,
    i: int,
    session: SessionView,
    engine: EngineView,
)
    requires
        manager.wf(),
        0 <= i < manager.sessions.len(),
        session.wf(),
        engine.wf(),
        session.state.session_id == manager.sessions[i].state.session_id,
        session.config.name == manager.sessions[i].config.name,
    ensures
        (ManagerView { sessions: manager.sessions.update(i, session), engine, ..manager }).wf(),
{
    let after = ManagerView { sessions: manager.sessions.update(i, session), engine, ..manager };
    assert(after.ids() =~= manager.ids());
    assert(after.names() =~= manager.names());
    assert forall|k: int| 0 <= k < after.sessions.len() implies (#[trigger] after.sessions[k]).wf() by {
        if k != i {
            assert(manager.sessions[k].wf());
        }
    }
}

/// Taking a session out keeps the manager well formed, and the identifier
/// then names no session.
pub proof fn lemma_remove_wf(manager: ManagerView, i: int, engine: EngineView)
    requires
        manager.wf(),
        0 <= i < manager.sessions.len(),
        engine.wf(),
    ensures
        (ManagerView { sessions: manager.sessions.remove(i), engine, ..manager }).wf(),
        !(ManagerView { sessions: manager.sessions.remove(i), engine, ..manager }).has_session(
            manager.ids()[i],
        ),
{
    let after = ManagerView { sessions: manager.sessions.remove(i), engine, ..manager };
    assert(after.ids() =~= manager.ids().remove(i));
    assert(after.names() =~= manager.names().remove(i));
    assert forall|a: int, b: int|
        0 <= a < after.ids().len() && 0 <= b < after.ids().len() && a != b implies after.ids()[a]
        != after.ids()[b] by {
        let a0 = if a < i { a } else { a + 1 };
        let b0 = if b < i { b } else { b + 1 };
        assert(manager.ids()[a0] != manager.ids()[b0]);
    }
    assert forall|a: int, b: int|
        0 <= a < after.names().len() && 0 <= b < after.names().len() && a
            != b implies after.names()[a] != after.names()[b] by {
        let a0 = if a < i { a } else { a + 1 };
        let b0 = if b < i { b } else { b + 1 };
        assert(manager.names()[a0] != manager.names()[b0]);
    }
    assert forall|k: int| 0 <= k < after.sessions.len() implies (#[trigger] after.sessions[k]).wf() by {
        let k0 = if k < i { k } else { k + 1 };
        assert(manager.sessions[k0].wf());
    }
    assert forall|j: int| 0 <= j < after.ids().len() implies after.ids()[j] != manager.ids()[i] by {
        let j0 = if j < i { j } else { j + 1 };
        assert(manager.ids()[j0] != manager.ids()[i]);
    }
    lemma_last_index_absent(after.ids(), manager.ids()[i]);
}

/// The manager of all sessions.
pub struct SessionManager<C: TransportClient> {
    sessions: Vec<Session>,
    comm_engine: CommunicationEngine<C>,
    max_sessions: usize,
    session_counter: u64,
}

impl<C: TransportClient> View for SessionManager<C> {
    type V = ManagerView;

    closed spec fn view(&self) -> ManagerView {
        ManagerView {
            sessions: self.sessions.deep_view(),
            engine: self.comm_engine@,
            max_sessions: self.max_sessions,
            session_counter: self.session_counter,
        }
    }
}

/// The error for an identifier that names no session of the manager.
fn unknown(session_id: &str) -> (e: TermComError)
    ensures
        e@ == unknown_session(session_id@),
{
    TermComError::Session { message: session_not_found_message(session_id) }
}

impl<C: TransportClient> SessionManager<C> {
    /// A manager without sessions that serves them through `comm_engine`
    /// and admits at most `max_sessions`.
    pub fn new(comm_engine: CommunicationEngine<C>, max_sessions: usize) -> (manager: Self)
        ensures
            manager@ == (ManagerView {
                sessions: Seq::empty(),
                engine: comm_engine@,
                max_sessions,
                session_counter: 0,
            }),
            comm_engine@.wf() ==> manager@.wf(),
    {
        let manager = SessionManager {
            sessions: Vec::new(),
            comm_engine,
            max_sessions,
            session_counter: 0,
        };
        assert(manager@.sessions =~= Seq::<SessionView>::empty());
        assert(manager@.ids() =~= Seq::<Seq<char>>::empty());
        assert(manager@.names() =~= Seq::<Seq<char>>::empty());
        manager
    }

    /// The engine that serves the sessions.
    pub fn engine(&self) -> (engine: &CommunicationEngine<C>)
        ensures
            engine@ == self@.engine,
    {
        &self.comm_engine
    }

    fn find(&self, id: &str) -> (found: Option<usize>)
        ensures
            match found {
                Some(i) => i < self.sessions.len() && self@.position(id@) == Some(i as int),
                None => self@.position(id@) is None,
            },
    {
        let mut i: usize = self.sessions.len();
        while i > 0
            invariant
                i <= self.sessions.len(),
                forall|j: int| i <= j < self.sessions.len() ==> self@.ids()[j] != id@,
            decreases i,
        {
            i = i - 1;
            let session_id = self.sessions[i].get_session_id();
            if text_eq(session_id.as_str(), id) {
                proof {
                    assert(self@.ids()[i as int] == id@);
                    lemma_last_index_found(self@.ids(), id@, i as int);
                }
                return Some(i);
            }
        }
        proof {
            lemma_last_index_absent(self@.ids(), id@);
        }
        None
    }

    fn has_name(&self, name: &str, except: Option<usize>) -> (found: bool)
        ensures
            found == exists|j: int|
                0 <= j < self@.sessions.len() && except != Some(j as usize)
                    && #[trigger] self@.names()[j] == name@,
    {
        let mut i: usize = 0;
        while i < self.sessions.len()
            invariant
                i <= self.sessions.len(),
                forall|j: int|
                    0 <= j < i && except != Some(j as usize) ==> self@.names()[j] != name@,
            decreases self.sessions.len() - i,
        {
            let skip = match except {
                Some(k) => k == i,
                None => false,
            };
            if !skip && text_eq(self.sessions[i].get_config().name.as_str(), name) {
                assert(self@.names()[i as int] == name@);
                return true;
            }
            i = i + 1;
        }
        false
    }

    /// Decides whether a new session of the given name may be made.
    pub fn check_admission(&self, name: &str) -> (r: Result<(), TermComError>)
        ensures
            match self@.refusal(name@) {
                Some(e) => r is Err && r.unwrap_err()@ == e,
                None => r is Ok,
            },
    {
        if self.sessions.len() >= self.max_sessions {
            return Err(
                TermComError::Session { message: limit_reached_message(self.max_sessions) },
            );
        }
        if self.has_name(name, None) {
            assert(self@.names().contains(name@));
            return Err(
                TermComError::Session {
                    message: String::from_str("Session with name '").concat(name).concat(
                        "' already exists",
                    ),
                },
            );
        }
        assert(!self@.names().contains(name@)) by {
            if self@.names().contains(name@) {
                let j = choose|j: int| 0 <= j < self@.names().len() && self@.names()[j] == name@;
                assert(self@.names()[j] == name@);
            }
        }
        Ok(())
    }

    /// Makes a session for `config` with the identifier `id` at the time
    /// `now`, where the manager admits it.
    pub fn create_session_with(&mut self, config: SessionConfig, id: String, now: Timestamp) -> (r:
        Result<String, TermComError>)
        ensures
            match old(self)@.refusal(config@.name) {
                Some(e) => text_result(r) == Err::<Seq<char>, TermComErrorView>(e) && final(self)@
                    == old(self)@,
                None => {
                    &&& text_result(r) == Ok::<Seq<char>, TermComErrorView>(id@)
                    &&& final(self)@ == (ManagerView {
                        session_counter: capped_sum(old(self)@.session_counter, 1),
                        ..old(self)@.with_session(initial_session(config@, id@, now))
                    })
                },
            },
            old(self)@.wf() ==> final(self)@.wf(),
    {
        match self.check_admission(config.name.as_str()) {
            Err(e) => {
                return Err(e);
            },
            Ok(_) => {},
        }
        let ghost before = self@;
        let ghost made = initial_session(config@, id@, now);
        let mut session = Session::with_identity(config, id.clone(), now);
        proof {
            if before.wf() {
                lemma_with_session_wf(before, made);
            }
        }
        match self.find(id.as_str()) {
            Some(i) => {
                std::mem::swap(&mut self.sessions[i], &mut session);
                assert(self@.sessions =~= before.sessions.update(i as int, made));
            },
            None => {
                self.sessions.push(session);
                assert(self@.sessions =~= before.sessions.push(made));
            },
        }
        self.session_counter = self.session_counter.saturating_add(1);
        proof {
            let after = ManagerView {
                session_counter: capped_sum(before.session_counter, 1),
                ..before.with_session(made)
            };
            assert(after.ids() =~= before.with_session(made).ids());
            assert(after.names() =~= before.with_session(made).names());
        }
        Ok(id)
    }

    /// Makes a session for `config`, where the manager admits it, and gives
    /// its identifier.
    pub fn create_session(&mut self, config: SessionConfig) -> (r: Result<String, TermComError>)
        ensures
            create_outcome(old(self)@, final(self)@, config@, text_result(r)),
            old(self)@.wf() ==> final(self)@.wf(),
    {
        let id = fresh_uuid();
        let now = Timestamp::now();
        proof {
            lemma_found_after_taking_in(self@, initial_session(config@, id@, now));
        }
        self.create_session_with(config, id, now)
    }

    /// Starts the session with the given identifier.
    pub fn start_session(&mut self, session_id: &str) -> (r: Result<(), TermComError>)
        ensures
            start_outcome(old(self)@, final(self)@, session_id@, unit_result(r)),
            old(self)@.wf() ==> final(self)@.wf(),
    {
        match self.find(session_id) {
            Some(i) => {
                let ghost before = self@;
                let r = self.sessions[i].start(&mut self.comm_engine);
                proof {
                    assert(self@.sessions =~= before.sessions.update(
                        i as int,
                        self@.sessions[i as int],
                    ));
                    if before.wf() {
                        assert(before.sessions[i as int].wf());
                        lemma_update_wf(before, i as int, self@.sessions[i as int], self@.engine);
                    }
                }
                r
            },
            None => Err(unknown(session_id)),
        }
    }

    /// Stops the session with the given identifier.
    pub fn stop_session(&mut self, session_id: &str) -> (r: Result<(), TermComError>)
        ensures
            stop_outcome(old(self)@, final(self)@, session_id@, unit_result(r)),
            old(self)@.wf() ==> final(self)@.wf(),
    {
        match self.find(session_id) {
            Some(i) => {
                let ghost before = self@;
                let r = self.sessions[i].stop(&mut self.comm_engine);
                proof {
                    assert(self@.sessions =~= before.sessions.update(
                        i as int,
                        self@.sessions[i as int],
                    ));
                    if before.wf() {
                        assert(before.sessions[i as int].wf());
                        lemma_update_wf(before, i as int, self@.sessions[i as int], self@.engine);
                    }
                }
                r
            },
            None => Err(unknown(session_id)),
        }
    }

    /// Stops the session with the given identifier, where it runs, and lets
    /// go of it.
    pub fn remove_session(&mut self, session_id: &str) -> (r: Result<(), TermComError>)
        ensures
            remove_outcome(old(self)@, final(self)@, session_id@, unit_result(r)),
            old(self)@.wf() ==> final(self)@.wf(),
    {
        match self.find(session_id) {
            Some(i) => {
                let ghost before = self@;
                let mut session = self.sessions.remove(i);
                assert(self@.sessions =~= before.sessions.remove(i as int));
                assert(session@ == before.sessions[i as int]);
                let _ = session.stop(&mut self.comm_engine);
                proof {
                    assert(crate::session::stop_outcome(
                        before.sessions[i as int],
                        session@,
                        before.engine,
                        self@.engine,
                    ));
                    if before.wf() {
                        assert(before.sessions[i as int].wf());
                        lemma_remove_wf(before, i as int, self@.engine);
                    }
                }
                Ok(())
            },
            None => Err(unknown(session_id)),
        }
    }

    /// Whether a session has the given identifier.
    pub fn has_session(&self, session_id: &str) -> (found: bool)
        ensures
            found == self@.has_session(session_id@),
    {
        self.find(session_id).is_some()
    }

    /// Sends `data` through the session with the given identifier.
    pub fn send_data(&mut self, session_id: &str, data: Vec<u8>) -> (r: Result<(), TermComError>)
        ensures
            send_outcome(
                old(self)@,
                final(self)@,
                session_id@,
                MessageType::Sent,
                data@,
                Seq::empty(),
                unit_result(r),
            ),
            old(self)@.wf() ==> final(self)@.wf(),
    {
        match self.find(session_id) {
            Some(i) => {
                let ghost before = self@;
                let r = self.sessions[i].send_data(&mut self.comm_engine, data);
                proof {
                    assert(self@.sessions =~= before.sessions.update(
                        i as int,
                        self@.sessions[i as int],
                    ));
                    if before.wf() {
                        assert(before.sessions[i as int].wf());
                        lemma_update_wf(before, i as int, self@.sessions[i as int], self@.engine);
                    }
                }
                r
            },
            None => Err(unknown(session_id)),
        }
    }

    /// Sends the text of a command through the session with the given
    /// identifier.
    pub fn send_command(&mut self, session_id: &str, command: &str) -> (r: Result<
        (),
        TermComError,
    >)
        ensures
            send_outcome(
                old(self)@,
                final(self)@,
                session_id@,
                MessageType::Command,
                encode_utf8(command@),
                command@,
                unit_result(r),
            ),
            old(self)@.wf() ==> final(self)@.wf(),
    {
        match self.find(session_id) {
            Some(i) => {
                let ghost before = self@;
                let r = self.sessions[i].send_command(&mut self.comm_engine, command);
                proof {
                    assert(self@.sessions =~= before.sessions.update(
                        i as int,
                        self@.sessions[i as int],
                    ));
                    if before.wf() {
                        assert(before.sessions[i as int].wf());
                        lemma_update_wf(before, i as int, self@.sessions[i as int], self@.engine);
                    }
                }
                r
            },
            None => Err(unknown(session_id)),
        }
    }

    /// Takes in bytes that arrived from the device of the session with the
    /// given identifier.
    pub fn receive_data(&mut self, session_id: &str, data: Vec<u8>) -> (r: Result<(), TermComError>)
        ensures
            receive_outcome(old(self)@, final(self)@, session_id@, data@, unit_result(r)),
            old(self)@.wf() ==> final(self)@.wf(),
    {
        match self.find(session_id) {
            Some(i) => {
                let ghost before = self@;
                let r = self.sessions[i].receive_data(&mut self.comm_engine, data);
                proof {
                    assert(self@.sessions =~= before.sessions.update(
                        i as int,
                        self@.sessions[i as int],
                    ));
                    if before.wf() {
                        assert(before.sessions[i as int].wf());
                        lemma_update_wf(before, i as int, self@.sessions[i as int], self@.engine);
                    }
                }
                r
            },
            None => Err(unknown(session_id)),
        }
    }

    /// A copy of the record of the session with the given identifier.
    pub fn get_session_state(&self, session_id: &str) -> (state: Option<SessionState>)
        ensures
            match state {
                Some(state) => self@.session(session_id@) matches Some(session) && state@
                    == session.state,
                None => self@.session(session_id@) is None,
            },
    {
        match self.find(session_id) {
            Some(i) => Some(self.sessions[i].get_state()),
            None => None,
        }
    }

    /// Puts another configuration in place of that of the session with the
    /// given identifier.  A name that another session has is refused.
    pub fn update_session_config(&mut self, session_id: &str, new_config: SessionConfig) -> (r:
        Result<(), TermComError>)
        ensures
            update_outcome(old(self)@, final(self)@, session_id@, new_config@, unit_result(r)),
            old(self)@.wf() ==> final(self)@.wf(),
    {
        match self.find(session_id) {
            Some(i) => {
                let ghost before = self@;
                if self.has_name(new_config.name.as_str(), Some(i)) {
                    proof {
                        let j = choose|j: int|
                            0 <= j < before.sessions.len() && Some(i) != Some(j as usize)
                                && #[trigger] before.names()[j] == new_config@.name;
                        assert(j != i && before.names()[j] == new_config@.name);
                    }
                    return Err(
                        TermComError::Session {
                            message: String::from_str("Session with name '").concat(
                                new_config.name.as_str(),
                            ).concat("' already exists"),
                        },
                    );
                }
                proof {
                    if name_clash(before, i as int, new_config@.name) {
                        let j = choose|j: int|
                            0 <= j < before.sessions.len() && j != i
                                && #[trigger] before.names()[j] == new_config@.name;
                        assert(Some(i) != Some(j as usize));
                    }
                }
                let r = self.sessions[i].update_config(new_config);
                proof {
                    assert(self@.sessions =~= before.sessions.update(
                        i as int,
                        self@.sessions[i as int],
                    ));
                    if before.wf() {
                        assert(before.sessions[i as int].wf());
                        lemma_rename_wf(before, i as int, self@.sessions[i as int]);
                    }
                }
                r
            },
            None => Err(unknown(session_id)),
        }
    }

    /// The number of sessions.
    pub fn get_session_count(&self) -> (count: usize)
        ensures
            count == self@.sessions.len(),
    {
        self.sessions.len()
    }

    /// The most sessions that the manager admits.
    pub fn get_max_sessions(&self) -> (limit: usize)
        ensures
            limit == self@.max_sessions,
    {
        self.max_sessions
    }
}

/// A session that was taken in is found under its identifier.
pub proof fn lemma_found_after_taking_in(manager: ManagerView, session: SessionView)
    ensures
        manager.with_session(session).session(session.state.session_id) == Some(session),
        (ManagerView {
            session_counter: capped_sum(manager.session_counter, 1),
            ..manager.with_session(session)
        }).session(session.state.session_id) == Some(session),
{
    let after = manager.with_session(session);
    let counted = ManagerView {
        session_counter: capped_sum(manager.session_counter, 1),
        ..manager.with_session(session)
    };
    let id = session.state.session_id;
    lemma_last_index_of(manager.ids(), id);
    assert(counted.ids() =~= after.ids());
    match manager.position(id) {
        Some(i) => {
            assert(after.ids() =~= manager.ids());
        },
        None => {
            assert(after.ids() =~= manager.ids().push(id));
            lemma_last_index_found(after.ids(), id, after.ids().len() - 1);
        },
    }
}

/// Putting a session with the same identifier and a name that no other
/// session has in the place of a session keeps the manager well formed.
pub proof fn lemma_rename_wf(manager: ManagerView, i: int, session: SessionView)
    requires
        manager.wf(),
        0 <= i < manager.sessions.len(),
        session.wf(),
        session.state.session_id == manager.sessions[i].state.session_id,
        session.config.name == manager.sessions[i].config.name || !name_clash(
            manager,
            i,
            session.config.name,
        ),
    ensures
        (ManagerView { sessions: manager.sessions.update(i, session), ..manager }).wf(),
{
    let after = ManagerView { sessions: manager.sessions.update(i, session), ..manager };
    assert(after.ids() =~= manager.ids());
    assert(after.names() =~= manager.names().update(i, session.config.name));
    assert forall|a: int, b: int|
        0 <= a < after.names().len() && 0 <= b < after.names().len() && a
            != b implies after.names()[a] != after.names()[b] by {
        if a == i {
            assert(manager.names()[b] != manager.names()[i]);
            assert(manager.names()[b] == manager.names()[b]);
        } else if b == i {
            assert(manager.names()[a] != manager.names()[i]);
            assert(manager.names()[a] == manager.names()[a]);
        } else {
            assert(manager.names()[a] != manager.names()[b]);
        }
    }
    assert forall|k: int| 0 <= k < after.sessions.len() implies (#[trigger] after.sessions[k]).wf() by {
        if k != i {
            assert(manager.sessions[k].wf());
        }
    }
}

impl SessionFilter {
    /// The filter that admits every session.
    pub fn new() -> (filter: SessionFilter)
        ensures
            filter@ == SessionFilterView::any(),
    {
        let tags: Vec<String> = Vec::new();
        assert(tags.deep_view() =~= Seq::<Seq<char>>::empty());
        SessionFilter { session_type: None, status: None, device_name: None, tags, name_pattern: None }
    }

    /// The filter that also asks for the given type.
    pub fn with_session_type(self, session_type: SessionType) -> (filter: SessionFilter)
        ensures
            filter@ == (SessionFilterView { session_type: Some(session_type), ..self@ }),
    {
        let mut filter = self;
        filter.session_type = Some(session_type);
        filter
    }

    /// The filter that also asks for a status of the kind of `status`.
    pub fn with_status(self, status: SessionStatus) -> (filter: SessionFilter)
        ensures
            filter@ == (SessionFilterView { status: Some(status@), ..self@ }),
    {
        let mut filter = self;
        filter.status = Some(status);
        filter
    }

    /// The filter that also asks for the given device.
    pub fn with_device_name(self, device_name: &str) -> (filter: SessionFilter)
        ensures
            filter@ == (SessionFilterView { device_name: Some(device_name@), ..self@ }),
    {
        let mut filter = self;
        filter.device_name = Some(String::from_str(device_name));
        filter
    }

    /// The filter that also asks for a name in which `pattern` occurs.
    pub fn with_name_pattern(self, pattern: &str) -> (filter: SessionFilter)
        ensures
            filter@ == (SessionFilterView { name_pattern: Some(pattern@), ..self@ }),
    {
        let mut filter = self;
        filter.name_pattern = Some(String::from_str(pattern));
        filter
    }

    /// The filter that also admits by the given tag.
    pub fn with_tag(self, tag: &str) -> (filter: SessionFilter)
        ensures
            filter@ == (SessionFilterView { tags: self@.tags.push(tag@), ..self@ }),
    {
        let mut filter = self;
        let ghost before = filter.tags.deep_view();
        filter.tags.push(String::from_str(tag));
        assert(filter.tags.deep_view() =~= before.push(tag@));
        filter
    }

    /// Whether a session with the given summary and tags meets every
    /// condition of the filter that is set.
    pub fn admits(&self, summary: &SessionSummary, tags: &Vec<String>) -> (admitted: bool)
        ensures
            admitted == self@.admits(summary@, tags.deep_view()),
    {
        if let Some(session_type) = &self.session_type {
            if summary.session_type != *session_type {
                return false;
            }
        }
        if let Some(status) = &self.status {
            if !summary.status.same_kind(status) {
                return false;
            }
        }
        if let Some(device_name) = &self.device_name {
            if !text_eq(summary.device_name.as_str(), device_name.as_str()) {
                return false;
            }
        }
        if let Some(pattern) = &self.name_pattern {
            if !text_contains(summary.name.as_str(), pattern.as_str()) {
                return false;
            }
        }
        any_tag_among(tags, &self.tags)
    }
}

/// Whether one of `wanted` is among `present`; true where nothing is
/// wanted.
pub fn any_tag_among(present: &Vec<String>, wanted: &Vec<String>) -> (found: bool)
    ensures
        found == has_any_tag(present.deep_view(), wanted.deep_view()),
{
    if wanted.len() == 0 {
        return true;
    }
    let mut i: usize = 0;
    while i < wanted.len()
        invariant
            i <= wanted.len(),
            forall|j: int|
                0 <= j < i ==> !present.deep_view().contains(#[trigger] wanted.deep_view()[j]),
        decreases wanted.len() - i,
    {
        assert(wanted.deep_view()[i as int] == wanted[i as int]@);
        if list_contains(present, wanted[i].as_str()) {
            assert(present.deep_view().contains(wanted.deep_view()[i as int]));
            return true;
        }
        i = i + 1;
    }
    false
}

impl Default for SessionFilter {
    fn default() -> (filter: SessionFilter)
        ensures
            filter@ == SessionFilterView::any(),
    {
        SessionFilter::new()
    }
}

impl Clone for SessionFilter {
    fn clone(&self) -> (copy: Self)
        ensures
            copy@ == self@,
    {
        let status = match &self.status {
            Some(status) => Some(status.clone()),
            None => None,
        };
        let device_name = match &self.device_name {
            Some(text) => Some(text.clone()),
            None => None,
        };
        let name_pattern = match &self.name_pattern {
            Some(text) => Some(text.clone()),
            None => None,
        };
        SessionFilter {
            session_type: self.session_type,
            status,
            device_name,
            tags: crate::text::copy_strings(&self.tags),
            name_pattern,
        }
    }
}

impl Default for GlobalStatistics {
    fn default() -> (stats: Self)
        ensures
            stats == global_of(Seq::empty()),
    {
        GlobalStatistics {
            total_sessions: 0,
            active_sessions: 0,
            total_messages: 0,
            total_bytes_sent: 0,
            total_bytes_received: 0,
            total_errors: 0,
        }
    }
}

impl Default for SessionManagerStats {
    fn default() -> (stats: Self)
        ensures
            stats == no_stats(),
    {
        SessionManagerStats {
            total_sessions: 0,
            active_sessions: 0,
            disconnected_sessions: 0,
            error_sessions: 0,
            closed_sessions: 0,
            other_sessions: 0,
            total_bytes_sent: 0,
            total_bytes_received: 0,
            total_messages_sent: 0,
            total_messages_received: 0,
            total_errors: 0,
        }
    }
}

/// The summary of a session at the time `now`.
fn summarize(session: &Session, now: Timestamp, configured: bool) -> (summary: SessionSummary)
    ensures
        summary@ == if configured {
            configured_summary_of(session@, now)
        } else {
            summary_of(session@, now)
        },
{
    let state = session.get_state();
    let config = session.get_config();
    let uptime = state.uptime_at(now);
    let message_count = if configured {
        let counted: u64 = state.statistics.messages_sent.saturating_add(
            state.statistics.messages_received,
        );
        if counted > usize::MAX as u64 {
            usize::MAX
        } else {
            counted as usize
        }
    } else {
        session.message_count()
    };
    SessionSummary {
        session_id: state.session_id,
        name: config.name.clone(),
        device_name: if configured {
            config.device_config.name.clone()
        } else {
            state.device_name
        },
        session_type: config.session_type,
        status: state.status,
        created_at: state.created_at,
        last_activity: state.last_activity,
        uptime,
        message_count,
        activity_count: if configured {
            0
        } else {
            session.activity_count()
        },
        bytes_sent: state.statistics.bytes_sent,
        bytes_received: state.statistics.bytes_received,
    }
}

/// The count after one more, or the largest number where that is more.
fn count_on(count: usize) -> (next: usize)
    ensures
        next == capped_next(count),
{
    if count == usize::MAX {
        count
    } else {
        count + 1
    }
}

impl<C: TransportClient> SessionManager<C> {
    /// The summaries of all sessions at the time `now`, in the order of the
    /// sessions.
    pub fn list_sessions_at(&self, now: Timestamp) -> (list: Vec<SessionSummary>)
        ensures
            list.deep_view() == summaries_of(self@.sessions, now),
    {
        let mut list: Vec<SessionSummary> = Vec::new();
        let mut i: usize = 0;
        while i < self.sessions.len()
            invariant
                i <= self.sessions.len(),
                list.len() == i,
                forall|j: int| 0 <= j < i ==> list[j]@ == summary_of(self@.sessions[j], now),
            decreases self.sessions.len() - i,
        {
            list.push(summarize(&self.sessions[i], now, false));
            i = i + 1;
        }
        assert(list.deep_view() =~= summaries_of(self@.sessions, now));
        list
    }

    /// The summaries of all sessions, in the order of the sessions; the
    /// time that each has been up is read off the system clock.
    pub fn list_sessions(&self) -> (list: Vec<SessionSummary>)
        ensures
            exists|now: Timestamp| list.deep_view() == summaries_of(self@.sessions, now),
    {
        let now = Timestamp::now();
        self.list_sessions_at(now)
    }

    fn filtered_at(&self, filter: &SessionFilter, now: Timestamp, configured: bool) -> (list: Vec<
        SessionSummary,
    >)
        ensures
            list.deep_view() == admitted_summaries(self@.sessions, filter@, now, configured),
    {
        let mut list: Vec<SessionSummary> = Vec::new();
        let mut i: usize = 0;
        assert(self@.sessions.subrange(0, 0) =~= Seq::<SessionView>::empty());
        assert(list.deep_view() =~= Seq::<SessionSummaryView>::empty());
        while i < self.sessions.len()
            invariant
                i <= self.sessions.len(),
                list.deep_view() == admitted_summaries(
                    self@.sessions.subrange(0, i as int),
                    filter@,
                    now,
                    configured,
                ),
            decreases self.sessions.len() - i,
        {
            let ghost before = list.deep_view();
            let ghost upto = self@.sessions.subrange(0, i + 1);
            assert(upto.drop_last() =~= self@.sessions.subrange(0, i as int));
            assert(upto.last() == self@.sessions[i as int]);
            let summary = summarize(&self.sessions[i], now, configured);
            if filter.admits(&summary, &self.sessions[i].get_config().tags) {
                list.push(summary);
                assert(list.deep_view() =~= before.push(summary@));
            }
            i = i + 1;
        }
        assert(self@.sessions.subrange(0, self@.sessions.len() as int) =~= self@.sessions);
        list
    }

    /// The summaries, at the time `now`, of the sessions that the filter
    /// admits, in the order of the sessions.
    pub fn list_sessions_filtered_at(&self, filter: &SessionFilter, now: Timestamp) -> (list: Vec<
        SessionSummary,
    >)
        ensures
            list.deep_view() == admitted_summaries(self@.sessions, filter@, now, false),
    {
        self.filtered_at(filter, now, false)
    }

    /// The summaries of the sessions that the filter admits, in the order
    /// of the sessions; the time that each has been up is read off the
    /// system clock.
    pub fn list_sessions_filtered(&self, filter: &SessionFilter) -> (list: Vec<SessionSummary>)
        ensures
            exists|now: Timestamp|
                list.deep_view() == admitted_summaries(self@.sessions, filter@, now, false),
    {
        let now = Timestamp::now();
        self.filtered_at(filter, now, false)
    }

    /// The summaries, at the time `now`, of the sessions that the filter
    /// admits, as their configuration and statistics give them.
    pub fn get_sessions_summary_filtered_at(&self, filter: &SessionFilter, now: Timestamp) -> (list:
        Vec<SessionSummary>)
        ensures
            list.deep_view() == admitted_summaries(self@.sessions, filter@, now, true),
    {
        self.filtered_at(filter, now, true)
    }

    /// The summaries of the sessions that the filter admits, as their
    /// configuration and statistics give them; the time that each has been
    /// up is read off the system clock.
    pub fn get_sessions_summary_filtered(&self, filter: &SessionFilter) -> (list: Vec<
        SessionSummary,
    >)
        ensures
            exists|now: Timestamp|
                list.deep_view() == admitted_summaries(self@.sessions, filter@, now, true),
    {
        let now = Timestamp::now();
        self.filtered_at(filter, now, true)
    }

    /// The number of sessions that run.
    pub fn get_active_session_count(&self) -> (count: usize)
        ensures
            count == count_running(self@.sessions),
    {
        let mut count: usize = 0;
        let mut i: usize = 0;
        assert(self@.sessions.subrange(0, 0) =~= Seq::<SessionView>::empty());
        while i < self.sessions.len()
            invariant
                i <= self.sessions.len(),
                count == count_running(self@.sessions.subrange(0, i as int)),
                count <= i,
            decreases self.sessions.len() - i,
        {
            let ghost upto = self@.sessions.subrange(0, i + 1);
            assert(upto.drop_last() =~= self@.sessions.subrange(0, i as int));
            assert(upto.last() == self@.sessions[i as int]);
            if self.sessions[i].is_running() {
                count = count + 1;
            }
            i = i + 1;
        }
        assert(self@.sessions.subrange(0, self@.sessions.len() as int) =~= self@.sessions);
        count
    }

    /// The statistics of the sessions: how many there are of each status,
    /// and the sums of their traffic.
    pub fn get_statistics(&self) -> (stats: SessionManagerStats)
        ensures
            stats == stats_of(self@.sessions),
    {
        let mut stats = SessionManagerStats::default();
        let mut i: usize = 0;
        assert(self@.sessions.subrange(0, 0) =~= Seq::<SessionView>::empty());
        while i < self.sessions.len()
            invariant
                i <= self.sessions.len(),
                stats == stats_of(self@.sessions.subrange(0, i as int)),
            decreases self.sessions.len() - i,
        {
            let ghost upto = self@.sessions.subrange(0, i + 1);
            assert(upto.drop_last() =~= self@.sessions.subrange(0, i as int));
            assert(upto.last() == self@.sessions[i as int]);
            let state = self.sessions[i].get_state();
            match state.status {
                SessionStatus::Active => {
                    stats.active_sessions = count_on(stats.active_sessions);
                },
                SessionStatus::Disconnected => {
                    stats.disconnected_sessions = count_on(stats.disconnected_sessions);
                },
                SessionStatus::Error(_) => {
                    stats.error_sessions = count_on(stats.error_sessions);
                },
                SessionStatus::Closed => {
                    stats.closed_sessions = count_on(stats.closed_sessions);
                },
                _ => {
                    stats.other_sessions = count_on(stats.other_sessions);
                },
            }
            stats.total_bytes_sent = stats.total_bytes_sent.saturating_add(
                state.statistics.bytes_sent,
            );
            stats.total_bytes_received = stats.total_bytes_received.saturating_add(
                state.statistics.bytes_received,
            );
            stats.total_messages_sent = stats.total_messages_sent.saturating_add(
                state.statistics.messages_sent,
            );
            stats.total_messages_received = stats.total_messages_received.saturating_add(
                state.statistics.messages_received,
            );
            stats.total_errors = stats.total_errors.saturating_add(state.statistics.error_count);
            i = i + 1;
            stats.total_sessions = i;
        }
        assert(self@.sessions.subrange(0, self@.sessions.len() as int) =~= self@.sessions);
        stats
    }

    /// The sums over all sessions: how many there are and how many of them
    /// are active, and their traffic.
    pub fn get_global_statistics(&self) -> (stats: GlobalStatistics)
        ensures
            stats == global_of(self@.sessions),
    {
        let mut stats = GlobalStatistics::default();
        let mut i: usize = 0;
        assert(self@.sessions.subrange(0, 0) =~= Seq::<SessionView>::empty());
        while i < self.sessions.len()
            invariant
                i <= self.sessions.len(),
                stats == global_of(self@.sessions.subrange(0, i as int)),
            decreases self.sessions.len() - i,
        {
            let ghost upto = self@.sessions.subrange(0, i + 1);
            assert(upto.drop_last() =~= self@.sessions.subrange(0, i as int));
            assert(upto.last() == self@.sessions[i as int]);
            let state = self.sessions[i].get_state();
            if state.is_active() {
                stats.active_sessions = count_on(stats.active_sessions);
            }
            stats.total_messages = stats.total_messages.saturating_add(
                state.statistics.messages_sent.saturating_add(state.statistics.messages_received),
            );
            stats.total_bytes_sent = stats.total_bytes_sent.saturating_add(
                state.statistics.bytes_sent,
            );
            stats.total_bytes_received = stats.total_bytes_received.saturating_add(
                state.statistics.bytes_received,
            );
            stats.total_errors = stats.total_errors.saturating_add(state.statistics.error_count);
            i = i + 1;
            stats.total_sessions = i;
        }
        assert(self@.sessions.subrange(0, self@.sessions.len() as int) =~= self@.sessions);
        stats
    }

    /// The identifiers of the sessions in whose name `pattern` occurs, in
    /// the order of the sessions.
    pub fn find_sessions_by_name(&self, pattern: &str) -> (ids: Vec<String>)
        ensures
            ids.deep_view() == ids_by_name(self@.sessions, pattern@),
    {
        let mut ids: Vec<String> = Vec::new();
        let mut i: usize = 0;
        assert(self@.sessions.subrange(0, 0) =~= Seq::<SessionView>::empty());
        assert(ids.deep_view() =~= Seq::<Seq<char>>::empty());
        while i < self.sessions.len()
            invariant
                i <= self.sessions.len(),
                ids.deep_view() == ids_by_name(self@.sessions.subrange(0, i as int), pattern@),
            decreases self.sessions.len() - i,
        {
            let ghost before = ids.deep_view();
            let ghost upto = self@.sessions.subrange(0, i + 1);
            assert(upto.drop_last() =~= self@.sessions.subrange(0, i as int));
            assert(upto.last() == self@.sessions[i as int]);
            if text_contains(self.sessions[i].get_config().name.as_str(), pattern) {
                let id = self.sessions[i].get_session_id();
                ids.push(id);
                assert(ids.deep_view() =~= before.push(self@.sessions[i as int].state.session_id));
            }
            i = i + 1;
        }
        assert(self@.sessions.subrange(0, self@.sessions.len() as int) =~= self@.sessions);
        ids
    }

    /// The identifiers of the sessions for the device of the given name, in
    /// the order of the sessions.
    pub fn find_sessions_by_device(&self, device_name: &str) -> (ids: Vec<String>)
        ensures
            ids.deep_view() == ids_by_device(self@.sessions, device_name@),
    {
        let mut ids: Vec<String> = Vec::new();
        let mut i: usize = 0;
        assert(self@.sessions.subrange(0, 0) =~= Seq::<SessionView>::empty());
        assert(ids.deep_view() =~= Seq::<Seq<char>>::empty());
        while i < self.sessions.len()
            invariant
                i <= self.sessions.len(),
                ids.deep_view() == ids_by_device(
                    self@.sessions.subrange(0, i as int),
                    device_name@,
                ),
            decreases self.sessions.len() - i,
        {
            let ghost before = ids.deep_view();
            let ghost upto = self@.sessions.subrange(0, i + 1);
            assert(upto.drop_last() =~= self@.sessions.subrange(0, i as int));
            assert(upto.last() == self@.sessions[i as int]);
            if text_eq(self.sessions[i].get_config().device_config.name.as_str(), device_name) {
                let id = self.sessions[i].get_session_id();
                ids.push(id);
                assert(ids.deep_view() =~= before.push(self@.sessions[i as int].state.session_id));
            }
            i = i + 1;
        }
        assert(self@.sessions.subrange(0, self@.sessions.len() as int) =~= self@.sessions);
        ids
    }
}

/// Whether `post` and `post_engine` result from stopping each session of
/// `pre` in turn, the first one first, with the engine handed on from one
/// stop to the next.
pub open spec fn stopped_all(
    pre: Seq<SessionView>,
    post: Seq<SessionView>,
    pre_engine: EngineView,
    post_engine: EngineView,
) -> bool
    decreases pre.len(),
{
    if pre.len() == 0 {
        post.len() == 0 && post_engine == pre_engine
    } else {
        &&& post.len() == pre.len()
        &&& exists|between: EngineView|
            {
                &&& stopped_all(pre.drop_last(), post.drop_last(), pre_engine, between)
                &&& crate::session::stop_outcome(pre.last(), post.last(), between, post_engine)
            }
    }
}

/// The entry for a session that failed to start in the list of failures.
pub open spec fn failure_entry(id: Seq<char>, e: TermComErrorView) -> Seq<char> {
    "Session '"@ + id + "': "@ + e.display_text()
}

/// Whether `post`, `post_engine` and `failures` result from `pre`,
/// `between` and `earlier` by the turn of one session in a start of all: a
/// session that runs is passed over; one that does not is started, and a
/// failure is entered at the end of the list.
pub open spec fn started_one(
    pre: SessionView,
    post: SessionView,
    between: EngineView,
    post_engine: EngineView,
    earlier: Seq<Seq<char>>,
    failures: Seq<Seq<char>>,
) -> bool {
    if pre.running {
        post == pre && post_engine == between && failures == earlier
    } else {
        exists|r: Result<(), TermComErrorView>|
            {
                &&& #[trigger] crate::session::start_outcome(pre, post, between, post_engine, r)
                &&& failures == match r {
                    Ok(_) => earlier,
                    Err(e) => earlier.push(failure_entry(pre.state.session_id, e)),
                }
            }
    }
}

/// Whether `post`, `post_engine` and `failures` result from starting each
/// session of `pre` that does not run in turn, the first one first, with the
/// engine handed on from one start to the next and each failure entered in
/// the list.
pub open spec fn started_all(
    pre: Seq<SessionView>,
    post: Seq<SessionView>,
    pre_engine: EngineView,
    post_engine: EngineView,
    failures: Seq<Seq<char>>,
) -> bool
    decreases pre.len(),
{
    if pre.len() == 0 {
        post.len() == 0 && post_engine == pre_engine && failures.len() == 0
    } else {
        &&& post.len() == pre.len()
        &&& exists|between: EngineView, earlier: Seq<Seq<char>>|
            {
                &&& started_all(pre.drop_last(), post.drop_last(), pre_engine, between, earlier)
                &&& #[trigger] started_one(
                    pre.last(),
                    post.last(),
                    between,
                    post_engine,
                    earlier,
                    failures,
                )
            }
    }
}

/// What `start_all_sessions` may do to a manager and return: every session
/// that does not run is started, whatever happens to the others, and the
/// failures are reported together.
pub open spec fn start_all_outcome(
    pre: ManagerView,
    post: ManagerView,
    r: Result<(), TermComErrorView>,
) -> bool {
    &&& post == ManagerView { sessions: post.sessions, engine: post.engine, ..pre }
    &&& exists|failures: Seq<Seq<char>>|
        {
            &&& started_all(pre.sessions, post.sessions, pre.engine, post.engine, failures)
            &&& r == combined("Errors starting sessions: "@, failures, true)
        }
}

/// The sessions with the queue of each worked off.
pub open spec fn all_processed(sessions: Seq<SessionView>) -> Seq<SessionView> {
    sessions.map_values(|session: SessionView| crate::session::processed(session))
}

/// After every session has been stopped, none runs, each has the
/// identifier and the configuration that it had, and each that ran is
/// closed.
pub proof fn lemma_stopped_all(
    pre: Seq<SessionView>,
    post: Seq<SessionView>,
    pre_engine: EngineView,
    post_engine: EngineView,
)
    requires
        stopped_all(pre, post, pre_engine, post_engine),
    ensures
        post.len() == pre.len(),
        forall|i: int|
            0 <= i < pre.len() ==> {
                &&& !(#[trigger] post[i]).running
                &&& post[i].state.session_id == pre[i].state.session_id
                &&& post[i].config == pre[i].config
                &&& pre[i].running ==> post[i].state.status is Closed
                &&& !pre[i].running ==> post[i] == pre[i]
            },
    decreases pre.len(),
{
    if pre.len() > 0 {
        let between = choose|between: EngineView|
            {
                &&& stopped_all(pre.drop_last(), post.drop_last(), pre_engine, between)
                &&& crate::session::stop_outcome(pre.last(), post.last(), between, post_engine)
            };
        lemma_stopped_all(pre.drop_last(), post.drop_last(), pre_engine, between);
        assert forall|i: int| 0 <= i < pre.len() implies {
            &&& !(#[trigger] post[i]).running
            &&& post[i].state.session_id == pre[i].state.session_id
            &&& post[i].config == pre[i].config
            &&& pre[i].running ==> post[i].state.status is Closed
            &&& !pre[i].running ==> post[i] == pre[i]
        } by {
            if i < pre.len() - 1 {
                assert(post.drop_last()[i] == post[i]);
                assert(pre.drop_last()[i] == pre[i]);
            }
        }
    }
}

impl<C: TransportClient> SessionManager<C> {
    /// Stops every session that runs.  The call succeeds.
    pub fn stop_all_sessions(&mut self) -> (r: Result<(), TermComError>)
        ensures
            r is Ok,
            stopped_all(old(self)@.sessions, final(self)@.sessions, old(self)@.engine, final(self)@.engine),
            final(self)@ == (ManagerView {
                sessions: final(self)@.sessions,
                engine: final(self)@.engine,
                ..old(self)@
            }),
            old(self)@.wf() ==> final(self)@.wf(),
    {
        let ghost before = self@;
        let mut errors: Vec<String> = Vec::new();
        let mut i: usize = 0;
        proof {
            assert(before.sessions.subrange(0, 0) =~= Seq::<SessionView>::empty());
            assert(self@.sessions.subrange(0, 0) =~= Seq::<SessionView>::empty());
        }
        while i < self.sessions.len()
            invariant
                i <= self.sessions.len(),
                errors.len() == 0,
                self@.sessions.len() == before.sessions.len(),
                stopped_all(
                    before.sessions.subrange(0, i as int),
                    self@.sessions.subrange(0, i as int),
                    before.engine,
                    self@.engine,
                ),
                forall|j: int| i <= j < self@.sessions.len() ==> self@.sessions[j] == before.sessions[j],
                self@ == (ManagerView { sessions: self@.sessions, engine: self@.engine, ..before }),
                before.wf() ==> self@.wf(),
            decreases self.sessions.len() - i,
        {
            let ghost earlier = self@;
            if self.sessions[i].is_running() {
                if let Err(e) = self.sessions[i].stop(&mut self.comm_engine) {
                    let entry = String::from_str("Session '").concat(
                        self.sessions[i].get_session_id().as_str(),
                    ).concat("': ").concat(e.to_string().as_str());
                    errors.push(entry);
                }
            }
            proof {
                let done_pre = before.sessions.subrange(0, i + 1);
                let done_post = self@.sessions.subrange(0, i + 1);
                assert(done_pre.drop_last() =~= before.sessions.subrange(0, i as int));
                assert(done_post.drop_last() =~= earlier.sessions.subrange(0, i as int));
                assert(done_pre.last() == before.sessions[i as int]);
                assert(done_post.last() == self@.sessions[i as int]);
                assert(crate::session::stop_outcome(
                    done_pre.last(),
                    done_post.last(),
                    earlier.engine,
                    self@.engine,
                ));
                assert(self@.sessions =~= earlier.sessions.update(
                    i as int,
                    self@.sessions[i as int],
                ));
                if before.wf() {
                    assert(earlier.sessions[i as int].wf());
                    lemma_update_wf(earlier, i as int, self@.sessions[i as int], self@.engine);
                }
            }
            i = i + 1;
        }
        proof {
            assert(before.sessions.subrange(0, before.sessions.len() as int) =~= before.sessions);
            assert(self@.sessions.subrange(0, self@.sessions.len() as int) =~= self@.sessions);
        }
        assert(errors.deep_view() =~= Seq::<Seq<char>>::empty());
        combine_failures("Errors stopping sessions: ", &errors, true)
    }

    /// Starts every session that does not run.  A failure does not keep the
    /// other sessions from being started; the failures are reported
    /// together.
    pub fn start_all_sessions(&mut self) -> (r: Result<(), TermComError>)
        ensures
            start_all_outcome(old(self)@, final(self)@, unit_result(r)),
            old(self)@.wf() ==> final(self)@.wf(),
    {
        let ghost before = self@;
        let mut errors: Vec<String> = Vec::new();
        let mut i: usize = 0;
        proof {
            assert(before.sessions.subrange(0, 0) =~= Seq::<SessionView>::empty());
            assert(self@.sessions.subrange(0, 0) =~= Seq::<SessionView>::empty());
            assert(errors.deep_view() =~= Seq::<Seq<char>>::empty());
        }
        while i < self.sessions.len()
            invariant
                i <= self.sessions.len(),
                self@.sessions.len() == before.sessions.len(),
                started_all(
                    before.sessions.subrange(0, i as int),
                    self@.sessions.subrange(0, i as int),
                    before.engine,
                    self@.engine,
                    errors.deep_view(),
                ),
                forall|j: int| i <= j < self@.sessions.len() ==> self@.sessions[j] == before.sessions[j],
                self@ == (ManagerView { sessions: self@.sessions, engine: self@.engine, ..before }),
                before.wf() ==> self@.wf(),
            decreases self.sessions.len() - i,
        {
            let ghost earlier = self@;
            let ghost failures = errors.deep_view();
            let ghost outcome: Result<(), TermComErrorView> = Ok(());
            if !self.sessions[i].is_running() {
                let started = self.sessions[i].start(&mut self.comm_engine);
                proof {
                    outcome = unit_result(started);
                }
                if let Err(e) = started {
                    let entry = String::from_str("Session '").concat(
                        self.sessions[i].get_session_id().as_str(),
                    ).concat("': ").concat(e.to_string().as_str());
                    errors.push(entry);
                    assert(errors.deep_view() =~= failures.push(
                        failure_entry(before.sessions[i as int].state.session_id, e@),
                    ));
                }
            }
            proof {
                let done_pre = before.sessions.subrange(0, i + 1);
                let done_post = self@.sessions.subrange(0, i + 1);
                assert(done_pre.drop_last() =~= before.sessions.subrange(0, i as int));
                assert(done_post.drop_last() =~= earlier.sessions.subrange(0, i as int));
                assert(done_pre.last() == before.sessions[i as int]);
                assert(done_post.last() == self@.sessions[i as int]);
                assert(started_all(
                    done_pre.drop_last(),
                    done_post.drop_last(),
                    before.engine,
                    earlier.engine,
                    failures,
                ));
                if done_pre.last().running {
                    assert(done_post.last() == done_pre.last());
                } else {
                    assert(crate::session::start_outcome(
                        done_pre.last(),
                        done_post.last(),
                        earlier.engine,
                        self@.engine,
                        outcome,
                    ));
                }
                assert(started_one(
                    done_pre.last(),
                    done_post.last(),
                    earlier.engine,
                    self@.engine,
                    failures,
                    errors.deep_view(),
                ));
                assert(started_all(
                    done_pre,
                    done_post,
                    before.engine,
                    self@.engine,
                    errors.deep_view(),
                ));
                assert(self@.sessions =~= earlier.sessions.update(
                    i as int,
                    self@.sessions[i as int],
                ));
                if before.wf() {
                    assert(earlier.sessions[i as int].wf());
                    lemma_update_wf(earlier, i as int, self@.sessions[i as int], self@.engine);
                }
            }
            i = i + 1;
        }
        proof {
            assert(before.sessions.subrange(0, before.sessions.len() as int) =~= before.sessions);
            assert(self@.sessions.subrange(0, self@.sessions.len() as int) =~= self@.sessions);
        }
        combine_failures("Errors starting sessions: ", &errors, true)
    }

    /// Stops every session that runs and lets go of all sessions.  The call
    /// succeeds.
    pub fn remove_all_sessions(&mut self) -> (r: Result<(), TermComError>)
        ensures
            r is Ok,
            exists|stopped: Seq<SessionView>|
                stopped_all(old(self)@.sessions, stopped, old(self)@.engine, final(self)@.engine),
            final(self)@ == (ManagerView {
                sessions: Seq::empty(),
                engine: final(self)@.engine,
                ..old(self)@
            }),
            old(self)@.wf() ==> final(self)@.wf(),
    {
        match self.stop_all_sessions() {
            Ok(_) => {},
            Err(e) => {
                return Err(e);
            },
        }
        let ghost stopped = self@.sessions;
        self.sessions.clear();
        proof {
            assert(stopped_all(old(self)@.sessions, stopped, old(self)@.engine, self@.engine));
            assert(self@.sessions =~= Seq::<SessionView>::empty());
            assert(self@.ids() =~= Seq::<Seq<char>>::empty());
            assert(self@.names() =~= Seq::<Seq<char>>::empty());
        }
        Ok(())
    }

    /// Starts the engine; see [`CommunicationEngine::start`].  The sessions
    /// stay as they are.
    pub fn start_engine(&mut self) -> (r: Result<(), TermComError>)
        ensures
            exists|now: Timestamp|
                crate::engine::start_outcome(
                    old(self)@.engine,
                    final(self)@.engine,
                    now,
                    unit_result(r),
                ),
            final(self)@ == (ManagerView { engine: final(self)@.engine, ..old(self)@ }),
            old(self)@.wf() ==> final(self)@.wf(),
    {
        let ghost before = self@;
        let r = self.comm_engine.start();
        proof {
            assert(self@.ids() =~= before.ids());
            assert(self@.names() =~= before.names());
        }
        r
    }

    /// Stops the engine; see [`CommunicationEngine::stop`].  The sessions
    /// stay as they are.
    pub fn stop_engine(&mut self) -> (r: Result<(), TermComError>)
        ensures
            r is Ok,
            crate::engine::stop_outcome(old(self)@.engine, final(self)@.engine),
            final(self)@ == (ManagerView { engine: final(self)@.engine, ..old(self)@ }),
            old(self)@.wf() ==> final(self)@.wf(),
    {
        let ghost before = self@;
        let r = self.comm_engine.stop();
        proof {
            assert(self@.ids() =~= before.ids());
            assert(self@.names() =~= before.names());
        }
        r
    }

    /// Lets the engine cut its history to its limit where a cleanup is due;
    /// see [`CommunicationEngine::cleanup_old_data`].
    pub fn cleanup_old_data(&mut self)
        ensures
            exists|now: Timestamp|
                final(self)@.engine == crate::engine::cleaned(old(self)@.engine, now),
            final(self)@ == (ManagerView { engine: final(self)@.engine, ..old(self)@ }),
            old(self)@.wf() ==> final(self)@.wf(),
    {
        let ghost before = self@;
        self.comm_engine.cleanup_old_data();
        proof {
            assert(self@.ids() =~= before.ids());
            assert(self@.names() =~= before.names());
        }
    }

    /// Works off what is queued: the engine moves its queued messages into
    /// its history, where it is running, and each session works its queue
    /// of activities off.
    pub fn process_pending(&mut self)
        ensures
            final(self)@ == (ManagerView {
                sessions: all_processed(old(self)@.sessions),
                engine: crate::engine::processed(old(self)@.engine),
                ..old(self)@
            }),
            old(self)@.wf() ==> final(self)@.wf(),
    {
        let ghost before = self@;
        self.comm_engine.process_pending_messages();
        let mut i: usize = 0;
        proof {
            assert(self@.ids() =~= before.ids());
            assert(self@.names() =~= before.names());
        }
        while i < self.sessions.len()
            invariant
                i <= self.sessions.len(),
                self@.sessions.len() == before.sessions.len(),
                forall|j: int|
                    0 <= j < i ==> self@.sessions[j] == crate::session::processed(
                        before.sessions[j],
                    ),
                forall|j: int| i <= j < self@.sessions.len() ==> self@.sessions[j] == before.sessions[j],
                self@ == (ManagerView {
                    sessions: self@.sessions,
                    engine: crate::engine::processed(before.engine),
                    ..before
                }),
                before.wf() ==> self@.wf(),
            decreases self.sessions.len() - i,
        {
            let ghost earlier = self@;
            self.sessions[i].process_activities();
            proof {
                assert(self@.sessions =~= earlier.sessions.update(
                    i as int,
                    self@.sessions[i as int],
                ));
                if before.wf() {
                    assert(earlier.sessions[i as int].wf());
                    crate::session::lemma_recorded_all_keeps(
                        earlier.sessions[i as int].state,
                        earlier.sessions[i as int].pending,
                    );
                    lemma_update_wf(earlier, i as int, self@.sessions[i as int], self@.engine);
                }
            }
            i = i + 1;
        }
        assert(self@.sessions =~= all_processed(before.sessions));
    }
}

/// A manager at its limit takes no further session: the request fails with
/// the error that names the limit, the manager is as it was, and so is
/// every listing of its sessions.
pub proof fn lemma_session_cap(
    pre: ManagerView,
    post: ManagerView,
    config: SessionConfigView,
    r: Result<Seq<char>, TermComErrorView>,
    now: Timestamp,
)
    requires
        pre.sessions.len() >= pre.max_sessions,
        create_outcome(pre, post, config, r),
    ensures
        r == Err::<Seq<char>, TermComErrorView>(
            session_error(limit_reached_text(pre.max_sessions)),
        ),
        post == pre,
        summaries_of(post.sessions, now) == summaries_of(pre.sessions, now),
{
}

/// A manager never holds more sessions than its limit: a well-formed
/// manager is within its limit, and stays so when a session is made.
pub proof fn lemma_limit_holds(
    pre: ManagerView,
    post: ManagerView,
    config: SessionConfigView,
    r: Result<Seq<char>, TermComErrorView>,
)
    requires
        pre.wf(),
        create_outcome(pre, post, config, r),
    ensures
        post.sessions.len() <= post.max_sessions,
        post.max_sessions == pre.max_sessions,
{
    if pre.refusal(config.name) is None {
        let id = r->Ok_0;
        let made = post.session(id)->Some_0;
        lemma_last_index_of(pre.ids(), id);
    }
}

/// Whether exactly one of `names` is `name`.
pub open spec fn occurs_once(names: Seq<Seq<char>>, name: Seq<char>) -> bool {
    exists|i: int|
        {
            &&& 0 <= i < names.len()
            &&& #[trigger] names[i] == name
            &&& forall|j: int| 0 <= j < names.len() && j != i ==> names[j] != name
        }
}

/// No two sessions get the same name.  Where a session was made under a
/// name, a second request under the same name fails with a session error
/// and changes nothing, and exactly one session has the name afterwards.
pub proof fn lemma_duplicate_name_rejected(
    start: ManagerView,
    after_first: ManagerView,
    after_second: ManagerView,
    first: SessionConfigView,
    second: SessionConfigView,
    first_result: Result<Seq<char>, TermComErrorView>,
    second_result: Result<Seq<char>, TermComErrorView>,
)
    requires
        start.wf(),
        create_outcome(start, after_first, first, first_result),
        first_result is Ok,
        create_outcome(after_first, after_second, second, second_result),
        second.name == first.name,
    ensures
        second_result matches Err(e) && e is Session,
        after_second == after_first,
        occurs_once(after_second.names(), first.name),
{
    let id = first_result->Ok_0;
    let made = after_first.session(id)->Some_0;
    let taken = start.with_session(made);
    assert(made.wf());
    lemma_with_session_wf(start, made);
    assert(after_first.names() =~= taken.names());
    assert(after_first.ids() =~= taken.ids());
    lemma_last_index_of(after_first.ids(), id);
    let at = after_first.position(id)->Some_0;
    assert(after_first.sessions[at] == made);
    assert(after_first.names()[at] == first.name);
    assert(after_first.names().contains(first.name));
    assert forall|j: int| 0 <= j < after_first.names().len() && j != at implies after_first.names()[j]
        != first.name by {
        assert(taken.names()[j] != taken.names()[at]);
    }
}

} // verus!
