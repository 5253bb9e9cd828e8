//! The runtime record of a session: its status, its statistics, its
//! metadata, and the activities that feed the statistics.

use crate::message::{add_unique_tag, with_tag};
use crate::properties::{with_entry, Properties};
use crate::text::copy_strings;
use crate::time::{millis_u64, span_between, Duration, Timestamp};
use vstd::prelude::*;

verus! {

/// Where a session stands in its life.
#[derive(Debug, PartialEq)]
pub enum SessionStatus {
    /// The session is being set up.
    Initializing,
    /// The session is connected and in use.
    Active,
    /// The session has lost its connection for the time being.
    Disconnected,
    /// The session is being closed.
    Closing,
    /// The session is closed for good.
    Closed,
    /// The session has failed.
    Error(String),
}

/// A status with its text as a sequence of characters.
pub enum SessionStatusView {
    Initializing,
    Active,
    Disconnected,
    Closing,
    Closed,
    Error(Seq<char>),
}

impl SessionStatusView {
    /// The line that describes the status to a reader.
    pub open spec fn display_text(self) -> Seq<char> {
        match self {
            SessionStatusView::Initializing => "Initializing"@,
            SessionStatusView::Active => "Active"@,
            SessionStatusView::Disconnected => "Disconnected"@,
            SessionStatusView::Closing => "Closing"@,
            SessionStatusView::Closed => "Closed"@,
            SessionStatusView::Error(text) => "Error: "@ + text,
        }
    }

    /// Whether two statuses are of the same kind, whatever the text of an
    /// error.
    pub open spec fn same_kind(self, other: SessionStatusView) -> bool {
        match (self, other) {
            (SessionStatusView::Initializing, SessionStatusView::Initializing) => true,
            (SessionStatusView::Active, SessionStatusView::Active) => true,
            (SessionStatusView::Disconnected, SessionStatusView::Disconnected) => true,
            (SessionStatusView::Closing, SessionStatusView::Closing) => true,
            (SessionStatusView::Closed, SessionStatusView::Closed) => true,
            (SessionStatusView::Error(_), SessionStatusView::Error(_)) => true,
            _ => false,
        }
    }

    /// Whether a session may go from this status to `next` in one step.  A
    /// session that is being set up becomes active or fails; an active one
    /// loses its connection, fails or is closed; one that lost its connection
    /// or failed is closed or set up anew; closing ends in closed; every
    /// status but closed may turn into an error.  From closed there is no
    /// way on.
    pub open spec fn may_become(self, next: SessionStatusView) -> bool {
        match self {
            SessionStatusView::Initializing => next is Initializing || next is Active
                || next is Error,
            SessionStatusView::Active => next is Disconnected || next is Closing || next is Error,
            SessionStatusView::Disconnected => next is Closing || next is Error
                || next is Initializing,
            SessionStatusView::Closing => next is Closed || next is Error,
            SessionStatusView::Closed => false,
            SessionStatusView::Error(_) => next is Closing || next is Error
                || next is Initializing,
        }
    }
}

impl View for SessionStatus {
    type V = SessionStatusView;

    open spec fn view(&self) -> SessionStatusView {
        match self {
            SessionStatus::Initializing => SessionStatusView::Initializing,
            SessionStatus::Active => SessionStatusView::Active,
            SessionStatus::Disconnected => SessionStatusView::Disconnected,
            SessionStatus::Closing => SessionStatusView::Closing,
            SessionStatus::Closed => SessionStatusView::Closed,
            SessionStatus::Error(text) => SessionStatusView::Error(text@),
        }
    }
}

impl SessionStatus {
    /// The line that describes the status to a reader.
    pub fn to_string(&self) -> (text: String)
        ensures
            text@ == self@.display_text(),
    {
        match self {
            SessionStatus::Initializing => String::from_str("Initializing"),
            SessionStatus::Active => String::from_str("Active"),
            SessionStatus::Disconnected => String::from_str("Disconnected"),
            SessionStatus::Closing => String::from_str("Closing"),
            SessionStatus::Closed => String::from_str("Closed"),
            SessionStatus::Error(text) => String::from_str("Error: ").concat(text.as_str()),
        }
    }

    /// Whether two statuses are of the same kind, whatever the text of an
    /// error.
    pub fn same_kind(&self, other: &SessionStatus) -> (same: bool)
        ensures
            same == self@.same_kind(other@),
    {
        match (self, other) {
            (SessionStatus::Initializing, SessionStatus::Initializing) => true,
            (SessionStatus::Active, SessionStatus::Active) => true,
            (SessionStatus::Disconnected, SessionStatus::Disconnected) => true,
            (SessionStatus::Closing, SessionStatus::Closing) => true,
            (SessionStatus::Closed, SessionStatus::Closed) => true,
            (SessionStatus::Error(_), SessionStatus::Error(_)) => true,
            _ => false,
        }
    }
}

impl Clone for SessionStatus {
    fn clone(&self) -> (copy: Self)
        ensures
            copy@ == self@,
    {
        match self {
            SessionStatus::Initializing => SessionStatus::Initializing,
            SessionStatus::Active => SessionStatus::Active,
            SessionStatus::Disconnected => SessionStatus::Disconnected,
            SessionStatus::Closing => SessionStatus::Closing,
            SessionStatus::Closed => SessionStatus::Closed,
            SessionStatus::Error(text) => SessionStatus::Error(text.clone()),
        }
    }
}

/// Counts of a session's traffic.  The counters stop at the largest number
/// that they can hold.
#[derive(Clone, Copy, Debug, PartialEq, Eq, Structural)]
pub struct SessionStatistics {
    pub bytes_sent: u64,
    pub bytes_received: u64,
    pub messages_sent: u64,
    pub messages_received: u64,
    pub error_count: u64,
    /// The running mean of the response times, in microseconds.
    pub avg_response_time_micros: u64,
    /// The response time that was recorded last, in milliseconds.
    pub last_response_time_ms: Option<u64>,
    pub uptime: Duration,
}

/// The sum of two counters, or the largest number where the sum is larger.
pub open spec fn capped_sum(a: u64, b: int) -> u64 {
    if a + b > u64::MAX {
        u64::MAX
    } else {
        (a + b) as u64
    }
}

/// A time in milliseconds as microseconds, or the largest number where that
/// is larger.
pub open spec fn capped_micros(millis: u64) -> u64 {
    if millis * 1000 > u64::MAX {
        u64::MAX
    } else {
        (millis * 1000) as u64
    }
}

/// The running mean, in microseconds, after the `count`-th response, which
/// took `millis` milliseconds: the first response sets the mean, each later
/// one enters with weight one in `count`, rounded down; never more than the
/// largest number.
pub open spec fn running_mean(mean: u64, count: u64, millis: u64) -> u64 {
    if count > 1 {
        let blended = (mean * (count - 1) + capped_micros(millis)) / (count as int);
        if blended > u64::MAX {
            u64::MAX
        } else {
            blended as u64
        }
    } else {
        capped_micros(millis)
    }
}

/// What kind of event an activity records.
#[derive(Debug, PartialEq)]
pub enum ActivityType {
    Created,
    Connected,
    DataSent,
    DataReceived,
    CommandExecuted,
    ResponseReceived,
    ConnectionLost,
    Closed,
    Error,
    Custom(String),
}

/// A kind of activity with its text as a sequence of characters.
pub enum ActivityTypeView {
    Created,
    Connected,
    DataSent,
    DataReceived,
    CommandExecuted,
    ResponseReceived,
    ConnectionLost,
    Closed,
    Error,
    Custom(Seq<char>),
}

impl ActivityTypeView {
    /// The words that name the kind to a reader.
    pub open spec fn display_text(self) -> Seq<char> {
        match self {
            ActivityTypeView::Created => "Created"@,
            ActivityTypeView::Connected => "Connected"@,
            ActivityTypeView::DataSent => "Data Sent"@,
            ActivityTypeView::DataReceived => "Data Received"@,
            ActivityTypeView::CommandExecuted => "Command Executed"@,
            ActivityTypeView::ResponseReceived => "Response Received"@,
            ActivityTypeView::ConnectionLost => "Connection Lost"@,
            ActivityTypeView::Closed => "Closed"@,
            ActivityTypeView::Error => "Error"@,
            ActivityTypeView::Custom(name) => name,
        }
    }
}

impl View for ActivityType {
    type V = ActivityTypeView;

    open spec fn view(&self) -> ActivityTypeView {
        match self {
            ActivityType::Created => ActivityTypeView::Created,
            ActivityType::Connected => ActivityTypeView::Connected,
            ActivityType::DataSent => ActivityTypeView::DataSent,
            ActivityType::DataReceived => ActivityTypeView::DataReceived,
            ActivityType::CommandExecuted => ActivityTypeView::CommandExecuted,
            ActivityType::ResponseReceived => ActivityTypeView::ResponseReceived,
            ActivityType::ConnectionLost => ActivityTypeView::ConnectionLost,
            ActivityType::Closed => ActivityTypeView::Closed,
            ActivityType::Error => ActivityTypeView::Error,
            ActivityType::Custom(name) => ActivityTypeView::Custom(name@),
        }
    }
}

impl ActivityType {
    /// The words that name the kind to a reader.
    pub fn to_string(&self) -> (text: String)
        ensures
            text@ == self@.display_text(),
    {
        match self {
            ActivityType::Created => String::from_str("Created"),
            ActivityType::Connected => String::from_str("Connected"),
            ActivityType::DataSent => String::from_str("Data Sent"),
            ActivityType::DataReceived => String::from_str("Data Received"),
            ActivityType::CommandExecuted => String::from_str("Command Executed"),
            ActivityType::ResponseReceived => String::from_str("Response Received"),
            ActivityType::ConnectionLost => String::from_str("Connection Lost"),
            ActivityType::Closed => String::from_str("Closed"),
            ActivityType::Error => String::from_str("Error"),
            ActivityType::Custom(name) => name.clone(),
        }
    }
}

impl Clone for ActivityType {
    fn clone(&self) -> (copy: Self)
        ensures
            copy@ == self@,
    {
        match self {
            ActivityType::Created => ActivityType::Created,
            ActivityType::Connected => ActivityType::Connected,
            ActivityType::DataSent => ActivityType::DataSent,
            ActivityType::DataReceived => ActivityType::DataReceived,
            ActivityType::CommandExecuted => ActivityType::CommandExecuted,
            ActivityType::ResponseReceived => ActivityType::ResponseReceived,
            ActivityType::ConnectionLost => ActivityType::ConnectionLost,
            ActivityType::Closed => ActivityType::Closed,
            ActivityType::Error => ActivityType::Error,
            ActivityType::Custom(name) => ActivityType::Custom(name.clone()),
        }
    }
}

/// One event in the life of a session.
#[derive(Debug)]
pub struct SessionActivity {
    pub timestamp: Timestamp,
    pub activity_type: ActivityType,
    pub description: String,
    /// The number of bytes that the event moved.
    pub data_size: Option<usize>,
    /// The time that the event took.
    pub duration: Option<Duration>,
}

/// An activity with its texts as sequences of characters.
pub struct SessionActivityView {
    pub timestamp: Timestamp,
    pub activity_type: ActivityTypeView,
    pub description: Seq<char>,
    pub data_size: Option<usize>,
    pub duration: Option<Duration>,
}

impl View for SessionActivity {
    type V = SessionActivityView;

    open spec fn view(&self) -> SessionActivityView {
        SessionActivityView {
            timestamp: self.timestamp,
            activity_type: self.activity_type@,
            description: self.description@,
            data_size: self.data_size,
            duration: self.duration,
        }
    }
}

impl DeepView for SessionActivity {
    type V = SessionActivityView;

    open spec fn deep_view(&self) -> SessionActivityView {
        self@
    }
}

impl Clone for SessionActivity {
    fn clone(&self) -> (copy: Self)
        ensures
            copy@ == self@,
    {
        SessionActivity {
            timestamp: self.timestamp,
            activity_type: self.activity_type.clone(),
            description: self.description.clone(),
            data_size: self.data_size,
            duration: self.duration,
        }
    }
}

/// The activity that a constructor makes at the time `timestamp`.
pub open spec fn plain_activity(
    timestamp: Timestamp,
    activity_type: ActivityTypeView,
    description: Seq<char>,
) -> SessionActivityView {
    SessionActivityView { timestamp, activity_type, description, data_size: None, duration: None }
}

impl SessionActivity {
    /// An activity at the given time, without size and duration.
    pub fn at(timestamp: Timestamp, activity_type: ActivityType, description: String) -> (activity:
        SessionActivity)
        ensures
            activity@ == plain_activity(timestamp, activity_type@, description@),
    {
        SessionActivity { timestamp, activity_type, description, data_size: None, duration: None }
    }

    /// An activity at the current time, without size and duration.
    pub fn new(activity_type: ActivityType, description: String) -> (activity: SessionActivity)
        ensures
            activity@ == plain_activity(activity.timestamp, activity_type@, description@),
    {
        SessionActivity::at(Timestamp::now(), activity_type, description)
    }

    /// The activity with the given number of bytes.
    pub fn with_data_size(self, size: usize) -> (activity: SessionActivity)
        ensures
            activity@ == (SessionActivityView { data_size: Some(size), ..self@ }),
    {
        let mut activity = self;
        activity.data_size = Some(size);
        activity
    }

    /// The activity with the given duration.
    pub fn with_duration(self, duration: Duration) -> (activity: SessionActivity)
        ensures
            activity@ == (SessionActivityView { duration: Some(duration), ..self@ }),
    {
        let mut activity = self;
        activity.duration = Some(duration);
        activity
    }

    /// The activity for `size` bytes sent.
    pub fn data_sent(description: String, size: usize) -> (activity: SessionActivity)
        ensures
            activity@ == (SessionActivityView {
                data_size: Some(size),
                ..plain_activity(activity.timestamp, ActivityTypeView::DataSent, description@)
            }),
    {
        SessionActivity::new(ActivityType::DataSent, description).with_data_size(size)
    }

    /// The activity for `size` bytes received.
    pub fn data_received(description: String, size: usize) -> (activity: SessionActivity)
        ensures
            activity@ == (SessionActivityView {
                data_size: Some(size),
                ..plain_activity(
                    activity.timestamp,
                    ActivityTypeView::DataReceived,
                    description@,
                )
            }),
    {
        SessionActivity::new(ActivityType::DataReceived, description).with_data_size(size)
    }

    /// The activity for a command that was given to the device.
    pub fn command_executed(command: String) -> (activity: SessionActivity)
        ensures
            activity@ == plain_activity(
                activity.timestamp,
                ActivityTypeView::CommandExecuted,
                "Executed command: "@ + command@,
            ),
    {
        SessionActivity::new(
            ActivityType::CommandExecuted,
            String::from_str("Executed command: ").concat(command.as_str()),
        )
    }

    /// The activity for a response that took `duration`.
    pub fn response_received(description: String, duration: Duration) -> (activity:
        SessionActivity)
        ensures
            activity@ == (SessionActivityView {
                duration: Some(duration),
                ..plain_activity(
                    activity.timestamp,
                    ActivityTypeView::ResponseReceived,
                    description@,
                )
            }),
    {
        SessionActivity::new(ActivityType::ResponseReceived, description).with_duration(duration)
    }

    /// The activity for a failure.
    pub fn error(error_message: String) -> (activity: SessionActivity)
        ensures
            activity@ == plain_activity(
                activity.timestamp,
                ActivityTypeView::Error,
                "Error: "@ + error_message@,
            ),
    {
        SessionActivity::new(
            ActivityType::Error,
            String::from_str("Error: ").concat(error_message.as_str()),
        )
    }

    /// An activity of a kind that the caller names.
    pub fn custom(activity_name: String, description: String) -> (activity: SessionActivity)
        ensures
            activity@ == plain_activity(
                activity.timestamp,
                ActivityTypeView::Custom(activity_name@),
                description@,
            ),
    {
        SessionActivity::new(ActivityType::Custom(activity_name), description)
    }
}

/// The statistics after `activity` has been counted.  Data sent or received
/// counts one message and its bytes.  An error counts one error.  A response
/// counts one received message and, where it has a duration, sets the last
/// response time and enters the running mean.  Nothing else counts.
pub open spec fn accumulated(
    statistics: SessionStatistics,
    activity: SessionActivityView,
) -> SessionStatistics {
    match activity.activity_type {
        ActivityTypeView::DataSent => SessionStatistics {
            messages_sent: capped_sum(statistics.messages_sent, 1),
            bytes_sent: match activity.data_size {
                Some(size) => capped_sum(statistics.bytes_sent, size as int),
                None => statistics.bytes_sent,
            },
            ..statistics
        },
        ActivityTypeView::DataReceived => SessionStatistics {
            messages_received: capped_sum(statistics.messages_received, 1),
            bytes_received: match activity.data_size {
                Some(size) => capped_sum(statistics.bytes_received, size as int),
                None => statistics.bytes_received,
            },
            ..statistics
        },
        ActivityTypeView::Error => SessionStatistics {
            error_count: capped_sum(statistics.error_count, 1),
            ..statistics
        },
        ActivityTypeView::ResponseReceived => {
            let received = capped_sum(statistics.messages_received, 1);
            match activity.duration {
                Some(duration) => SessionStatistics {
                    messages_received: received,
                    last_response_time_ms: Some(millis_u64(duration)),
                    avg_response_time_micros: running_mean(
                        statistics.avg_response_time_micros,
                        received,
                        millis_u64(duration),
                    ),
                    ..statistics
                },
                None => SessionStatistics { messages_received: received, ..statistics },
            }
        },
        _ => statistics,
    }
}

/// The first response sets the mean to its own time, whatever the mean was
/// before; the time is also the last response time.
pub proof fn lemma_first_response_sets_mean(
    statistics: SessionStatistics,
    activity: SessionActivityView,
)
    requires
        activity.activity_type is ResponseReceived,
        activity.duration is Some,
        statistics.messages_received == 0,
    ensures
        accumulated(statistics, activity).messages_received == 1,
        accumulated(statistics, activity).avg_response_time_micros == capped_micros(
            millis_u64(activity.duration.unwrap()),
        ),
        accumulated(statistics, activity).last_response_time_ms == Some(
            millis_u64(activity.duration.unwrap()),
        ),
{
}

/// The statistics after each of `activities` has been counted in turn.
pub open spec fn accumulated_all(
    statistics: SessionStatistics,
    activities: Seq<SessionActivityView>,
) -> SessionStatistics
    decreases activities.len(),
{
    if activities.len() == 0 {
        statistics
    } else {
        accumulated(accumulated_all(statistics, activities.drop_last()), activities.last())
    }
}

impl SessionStatistics {
    /// The statistics of a session that has seen nothing.
    pub open spec fn zero() -> SessionStatistics {
        SessionStatistics {
            bytes_sent: 0,
            bytes_received: 0,
            messages_sent: 0,
            messages_received: 0,
            error_count: 0,
            avg_response_time_micros: 0,
            last_response_time_ms: None,
            uptime: Duration { nanos: 0 },
        }
    }

    /// The statistics after `activity` has been counted.
    pub fn record(&mut self, activity: &SessionActivity)
        ensures
            *final(self) == accumulated(*old(self), activity@),
    {
        match &activity.activity_type {
            ActivityType::DataSent => {
                self.messages_sent = self.messages_sent.saturating_add(1);
                if let Some(size) = activity.data_size {
                    self.bytes_sent = self.bytes_sent.saturating_add(size as u64);
                }
            },
            ActivityType::DataReceived => {
                self.messages_received = self.messages_received.saturating_add(1);
                if let Some(size) = activity.data_size {
                    self.bytes_received = self.bytes_received.saturating_add(size as u64);
                }
            },
            ActivityType::Error => {
                self.error_count = self.error_count.saturating_add(1);
            },
            ActivityType::ResponseReceived => {
                self.messages_received = self.messages_received.saturating_add(1);
                if let Some(duration) = activity.duration {
                    let millis = duration.as_millis_u64();
                    self.last_response_time_ms = Some(millis);
                    self.avg_response_time_micros = mean_after(
                        self.avg_response_time_micros,
                        self.messages_received,
                        millis,
                    );
                }
            },
            _ => {},
        }
    }

    /// The running mean of the response times in whole milliseconds.
    pub fn avg_response_time_ms(&self) -> (millis: u64)
        ensures
            millis == self.avg_response_time_micros / 1000,
    {
        self.avg_response_time_micros / 1000
    }
}

/// The running mean, in microseconds, after the `count`-th response, which
/// took `millis` milliseconds.
pub fn mean_after(mean: u64, count: u64, millis: u64) -> (next: u64)
    ensures
        next == running_mean(mean, count, millis),
{
    let micros: u64 = if millis > u64::MAX / 1000 {
        u64::MAX
    } else {
        millis * 1000
    };
    if count > 1 {
        let earlier: u128 = (count - 1) as u128;
        let weight: u128 = count as u128;
        let wide_mean: u128 = mean as u128;
        assert(wide_mean * earlier <= 0xffff_ffff_ffff_ffff * 0xffff_ffff_ffff_fffe)
            by (nonlinear_arith)
            requires
                wide_mean <= 0xffff_ffff_ffff_ffff,
                earlier <= 0xffff_ffff_ffff_fffe,
        ;
        let total: u128 = wide_mean * earlier + micros as u128;
        let blended: u128 = total / weight;
        if blended > u64::MAX as u128 {
            u64::MAX
        } else {
            blended as u64
        }
    } else {
        micros
    }
}

impl Default for SessionStatistics {
    fn default() -> (statistics: Self)
        ensures
            statistics == SessionStatistics::zero(),
    {
        SessionStatistics {
            bytes_sent: 0,
            bytes_received: 0,
            messages_sent: 0,
            messages_received: 0,
            error_count: 0,
            avg_response_time_micros: 0,
            last_response_time_ms: None,
            uptime: Duration::zero(),
        }
    }
}

/// What is known about a session besides its traffic.
#[derive(Debug)]
pub struct SessionMetadata {
    /// Name of the kind of transport.
    pub transport_type: String,
    /// Parameters of the connection.
    pub connection_params: Properties,
    /// Tags.
    pub tags: Vec<String>,
    /// Free-form properties.
    pub properties: Properties,
    /// Name of the configuration that the session was made from.
    pub config_name: Option<String>,
}

/// Metadata with its texts as sequences of characters.
pub struct SessionMetadataView {
    pub transport_type: Seq<char>,
    pub connection_params: Seq<(Seq<char>, Seq<char>)>,
    pub tags: Seq<Seq<char>>,
    pub properties: Seq<(Seq<char>, Seq<char>)>,
    pub config_name: Option<Seq<char>>,
}

impl View for SessionMetadata {
    type V = SessionMetadataView;

    open spec fn view(&self) -> SessionMetadataView {
        SessionMetadataView {
            transport_type: self.transport_type@,
            connection_params: self.connection_params@,
            tags: self.tags.deep_view(),
            properties: self.properties@,
            config_name: self.config_name.deep_view(),
        }
    }
}

impl Clone for SessionMetadata {
    fn clone(&self) -> (copy: Self)
        ensures
            copy@ == self@,
    {
        let config_name = match &self.config_name {
            Some(name) => Some(name.clone()),
            None => None,
        };
        SessionMetadata {
            transport_type: self.transport_type.clone(),
            connection_params: self.connection_params.clone(),
            tags: copy_strings(&self.tags),
            properties: self.properties.clone(),
            config_name,
        }
    }
}

/// The runtime record of a session.
#[derive(Debug)]
pub struct SessionState {
    pub session_id: String,
    pub device_name: String,
    pub status: SessionStatus,
    pub created_at: Timestamp,
    pub last_activity: Timestamp,
    pub statistics: SessionStatistics,
    pub metadata: SessionMetadata,
}

/// The record of a session with its texts as sequences of characters.
pub struct SessionStateView {
    pub session_id: Seq<char>,
    pub device_name: Seq<char>,
    pub status: SessionStatusView,
    pub created_at: Timestamp,
    pub last_activity: Timestamp,
    pub statistics: SessionStatistics,
    pub metadata: SessionMetadataView,
}

impl View for SessionState {
    type V = SessionStateView;

    open spec fn view(&self) -> SessionStateView {
        SessionStateView {
            session_id: self.session_id@,
            device_name: self.device_name@,
            status: self.status@,
            created_at: self.created_at,
            last_activity: self.last_activity,
            statistics: self.statistics,
            metadata: self.metadata@,
        }
    }
}

impl Clone for SessionState {
    fn clone(&self) -> (copy: Self)
        ensures
            copy@ == self@,
    {
        SessionState {
            session_id: self.session_id.clone(),
            device_name: self.device_name.clone(),
            status: self.status.clone(),
            created_at: self.created_at,
            last_activity: self.last_activity,
            statistics: self.statistics,
            metadata: self.metadata.clone(),
        }
    }
}

/// The record of a session that was made at the time `now`.
pub open spec fn initial_state(
    session_id: Seq<char>,
    device_name: Seq<char>,
    transport_type: Seq<char>,
    now: Timestamp,
) -> SessionStateView {
    SessionStateView {
        session_id,
        device_name,
        status: SessionStatusView::Initializing,
        created_at: now,
        last_activity: now,
        statistics: SessionStatistics::zero(),
        metadata: SessionMetadataView {
            transport_type,
            connection_params: Seq::empty(),
            tags: Seq::empty(),
            properties: Seq::empty(),
            config_name: None,
        },
    }
}

/// The record after `activity` has been recorded: the activity's time is the
/// time of the last activity, and the statistics count it.
pub open spec fn recorded(state: SessionStateView, activity: SessionActivityView) -> SessionStateView {
    SessionStateView {
        last_activity: activity.timestamp,
        statistics: accumulated(state.statistics, activity),
        ..state
    }
}

/// The record after each of `activities` has been recorded in turn.
pub open spec fn recorded_all(
    state: SessionStateView,
    activities: Seq<SessionActivityView>,
) -> SessionStateView
    decreases activities.len(),
{
    if activities.len() == 0 {
        state
    } else {
        recorded(recorded_all(state, activities.drop_last()), activities.last())
    }
}

impl SessionState {
    /// The record of a session that is made at the time `now`.
    pub fn new_at(session_id: String, device_name: String, transport_type: String, now: Timestamp) -> (state:
        SessionState)
        ensures
            state@ == initial_state(session_id@, device_name@, transport_type@, now),
    {
        let tags: Vec<String> = Vec::new();
        assert(tags.deep_view() =~= Seq::<Seq<char>>::empty());
        SessionState {
            session_id,
            device_name,
            status: SessionStatus::Initializing,
            created_at: now,
            last_activity: now,
            statistics: SessionStatistics::default(),
            metadata: SessionMetadata {
                transport_type,
                connection_params: Properties::new(),
                tags,
                properties: Properties::new(),
                config_name: None,
            },
        }
    }

    /// The record of a session that is made now.
    pub fn new(session_id: String, device_name: String, transport_type: String) -> (state:
        SessionState)
        ensures
            state@ == initial_state(session_id@, device_name@, transport_type@, state.created_at),
    {
        SessionState::new_at(session_id, device_name, transport_type, Timestamp::now())
    }

    /// Sets the status at the time `now`.
    pub fn set_status(&mut self, status: SessionStatus, now: Timestamp)
        ensures
            final(self)@ == (SessionStateView {
                status: status@,
                last_activity: now,
                ..old(self)@
            }),
    {
        self.status = status;
        self.last_activity = now;
    }

    /// Sets the status; the current time becomes the time of the last
    /// activity.
    pub fn update_status(&mut self, status: SessionStatus)
        ensures
            final(self)@ == (SessionStateView {
                status: status@,
                last_activity: final(self).last_activity,
                ..old(self)@
            }),
    {
        self.set_status(status, Timestamp::now());
    }

    /// Records an activity: its time becomes the time of the last activity,
    /// and the statistics count it.
    pub fn record_activity(&mut self, activity: SessionActivity)
        ensures
            final(self)@ == recorded(old(self)@, activity@),
    {
        self.last_activity = activity.timestamp;
        self.statistics.record(&activity);
    }

    /// Adds a tag unless the session has it.
    pub fn add_tag(&mut self, tag: String)
        ensures
            final(self)@ == (SessionStateView {
                metadata: SessionMetadataView {
                    tags: with_tag(old(self)@.metadata.tags, tag@),
                    ..old(self)@.metadata
                },
                ..old(self)@
            }),
    {
        add_unique_tag(&mut self.metadata.tags, tag);
    }

    /// Stores a property, in place of the one with the same key if there is
    /// one.
    pub fn add_property(&mut self, key: String, value: String)
        ensures
            final(self)@ == (SessionStateView {
                metadata: SessionMetadataView {
                    properties: with_entry(old(self)@.metadata.properties, key@, value@),
                    ..old(self)@.metadata
                },
                ..old(self)@
            }),
    {
        self.metadata.properties.insert(key, value);
    }

    /// Stores a parameter of the connection, in place of the one with the
    /// same key if there is one.
    pub fn set_connection_param(&mut self, key: String, value: String)
        ensures
            final(self)@ == (SessionStateView {
                metadata: SessionMetadataView {
                    connection_params: with_entry(
                        old(self)@.metadata.connection_params,
                        key@,
                        value@,
                    ),
                    ..old(self)@.metadata
                },
                ..old(self)@
            }),
    {
        self.metadata.connection_params.insert(key, value);
    }

    /// The time from the making of the session to `now`.
    pub fn uptime_at(&self, now: Timestamp) -> (uptime: Duration)
        ensures
            uptime == span_between(now, self.created_at),
    {
        now.duration_since(&self.created_at)
    }

    /// The time from the last activity to `now`.
    pub fn idle_time_at(&self, now: Timestamp) -> (idle: Duration)
        ensures
            idle == span_between(now, self.last_activity),
    {
        now.duration_since(&self.last_activity)
    }

    /// The time since the session was made, read off the system clock.
    pub fn get_uptime(&self) -> (uptime: Duration)
        ensures
            exists|now: Timestamp| uptime == span_between(now, self.created_at),
    {
        let now = Timestamp::now();
        let uptime = self.uptime_at(now);
        assert(uptime == span_between(now, self.created_at));
        uptime
    }

    /// The time since the last activity, read off the system clock.
    pub fn get_idle_time(&self) -> (idle: Duration)
        ensures
            exists|now: Timestamp| idle == span_between(now, self.last_activity),
    {
        let now = Timestamp::now();
        let idle = self.idle_time_at(now);
        assert(idle == span_between(now, self.last_activity));
        idle
    }

    /// Whether the session is active.
    pub fn is_active(&self) -> (active: bool)
        ensures
            active == (self@.status is Active),
    {
        match self.status {
            SessionStatus::Active => true,
            _ => false,
        }
    }

    /// Whether the session is closed.
    pub fn is_closed(&self) -> (closed: bool)
        ensures
            closed == (self@.status is Closed),
    {
        match self.status {
            SessionStatus::Closed => true,
            _ => false,
        }
    }

    /// Whether the session has failed.
    pub fn has_error(&self) -> (failed: bool)
        ensures
            failed == (self@.status is Error),
    {
        match self.status {
            SessionStatus::Error(_) => true,
            _ => false,
        }
    }

    /// The text of the failure, where the session has failed.
    pub fn get_error_message(&self) -> (message: Option<&str>)
        ensures
            match message {
                Some(text) => self@.status == SessionStatusView::Error(text@),
                None => !(self@.status is Error),
            },
    {
        match &self.status {
            SessionStatus::Error(text) => Some(text.as_str()),
            _ => None,
        }
    }

    /// Lets `updater` change the statistics; the current time becomes the
    /// time of the last activity.
    pub fn update_statistics<F: FnOnce(SessionStatistics) -> SessionStatistics>(
        &mut self,
        updater: F,
    )
        requires
            updater.requires((old(self).statistics,)),
        ensures
            updater.ensures((old(self).statistics,), final(self).statistics),
            final(self)@ == (SessionStateView {
                statistics: final(self).statistics,
                last_activity: final(self).last_activity,
                ..old(self)@
            }),
    {
        let statistics = updater(self.statistics);
        self.set_statistics(statistics, Timestamp::now());
    }

    /// Puts other statistics in place of the session's at the time `now`.
    pub fn set_statistics(&mut self, statistics: SessionStatistics, now: Timestamp)
        ensures
            final(self)@ == (SessionStateView { statistics, last_activity: now, ..old(self)@ }),
    {
        self.statistics = statistics;
        self.last_activity = now;
    }
}

} // verus!
