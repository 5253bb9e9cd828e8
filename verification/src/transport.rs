//! Transports: the kinds of connection, what is known about an open
//! connection, the interface to the code that moves the bytes, and the table
//! of open connections that each kind of transport keeps.

use crate::config::ConnectionConfig;
use crate::error::{TermComError, TermComErrorView};
use crate::lookup::{
    all_distinct, last_index_of, lemma_last_index_absent, lemma_last_index_found,
    lemma_last_index_of,
};
use crate::text::{decimal_digits, decimal_text};
use crate::time::Timestamp;
use vstd::prelude::*;

verus! {

/// A kind of transport.
#[derive(Clone, Copy, Debug, PartialEq, Eq, Hash, Structural)]
pub enum TransportType {
    Serial,
    Tcp,
}

impl TransportType {
    /// The name of the kind in lower case.
    pub open spec fn name(self) -> Seq<char> {
        match self {
            TransportType::Serial => "serial"@,
            TransportType::Tcp => "tcp"@,
        }
    }

    /// The name of the kind as it is written in a program.
    pub open spec fn variant_name(self) -> Seq<char> {
        match self {
            TransportType::Serial => "Serial"@,
            TransportType::Tcp => "Tcp"@,
        }
    }

    /// The name of the kind in lower case.
    pub fn to_string(&self) -> (text: String)
        ensures
            text@ == self.name(),
    {
        match self {
            TransportType::Serial => String::from_str("serial"),
            TransportType::Tcp => String::from_str("tcp"),
        }
    }

    /// The name of the kind as it is written in a program.
    pub fn to_variant_name(&self) -> (text: String)
        ensures
            text@ == self.variant_name(),
    {
        match self {
            TransportType::Serial => String::from_str("Serial"),
            TransportType::Tcp => String::from_str("Tcp"),
        }
    }
}

/// The kind of transport that a connection description asks for.
pub open spec fn kind_of(connection: crate::config::ConnectionConfigView) -> TransportType {
    if connection is Serial {
        TransportType::Serial
    } else {
        TransportType::Tcp
    }
}

/// The kind of transport that a connection description asks for.
pub fn get_transport_type(connection: &ConnectionConfig) -> (kind: TransportType)
    ensures
        kind == kind_of(connection@),
{
    match connection {
        ConnectionConfig::Serial { .. } => TransportType::Serial,
        ConnectionConfig::Tcp { .. } => TransportType::Tcp,
    }
}

/// The state of an open connection as its transport sees it.
#[derive(Debug)]
pub enum SessionStatus {
    Connected,
    Disconnected,
    Error(String),
    Connecting,
    Closing,
}

/// A connection state with its text as a sequence of characters.
pub enum SessionStatusView {
    Connected,
    Disconnected,
    Error(Seq<char>),
    Connecting,
    Closing,
}

impl SessionStatusView {
    /// The line that describes the state to a reader.
    pub open spec fn display_text(self) -> Seq<char> {
        match self {
            SessionStatusView::Connected => "Connected"@,
            SessionStatusView::Disconnected => "Disconnected"@,
            SessionStatusView::Error(text) => "Error: "@ + text,
            SessionStatusView::Connecting => "Connecting"@,
            SessionStatusView::Closing => "Closing"@,
        }
    }
}

impl View for SessionStatus {
    type V = SessionStatusView;

    open spec fn view(&self) -> SessionStatusView {
        match self {
            SessionStatus::Connected => SessionStatusView::Connected,
            SessionStatus::Disconnected => SessionStatusView::Disconnected,
            SessionStatus::Error(text) => SessionStatusView::Error(text@),
            SessionStatus::Connecting => SessionStatusView::Connecting,
            SessionStatus::Closing => SessionStatusView::Closing,
        }
    }
}

impl SessionStatus {
    /// The line that describes the state to a reader.
    pub fn to_string(&self) -> (text: String)
        ensures
            text@ == self@.display_text(),
    {
        match self {
            SessionStatus::Connected => String::from_str("Connected"),
            SessionStatus::Disconnected => String::from_str("Disconnected"),
            SessionStatus::Error(text) => String::from_str("Error: ").concat(text.as_str()),
            SessionStatus::Connecting => String::from_str("Connecting"),
            SessionStatus::Closing => String::from_str("Closing"),
        }
    }

    /// Whether the connection is up.
    pub fn is_connected(&self) -> (up: bool)
        ensures
            up == (self@ is Connected),
    {
        match self {
            SessionStatus::Connected => true,
            _ => false,
        }
    }
}

impl Clone for SessionStatus {
    fn clone(&self) -> (copy: Self)
        ensures
            copy@ == self@,
    {
        match self {
            SessionStatus::Connected => SessionStatus::Connected,
            SessionStatus::Disconnected => SessionStatus::Disconnected,
            SessionStatus::Error(text) => SessionStatus::Error(text.clone()),
            SessionStatus::Connecting => SessionStatus::Connecting,
            SessionStatus::Closing => SessionStatus::Closing,
        }
    }
}

/// What is known about one open connection.
#[derive(Debug)]
pub struct SessionInfo {
    pub id: String,
    pub device_name: String,
    pub transport_type: TransportType,
    pub status: SessionStatus,
    pub created_at: Timestamp,
    pub last_activity: Timestamp,
    pub bytes_sent: u64,
    pub bytes_received: u64,
    pub messages_sent: u64,
    pub messages_received: u64,
}

/// The facts about a connection with their texts as sequences of characters.
pub struct SessionInfoView {
    pub id: Seq<char>,
    pub device_name: Seq<char>,
    pub transport_type: TransportType,
    pub status: SessionStatusView,
    pub created_at: Timestamp,
    pub last_activity: Timestamp,
    pub bytes_sent: u64,
    pub bytes_received: u64,
    pub messages_sent: u64,
    pub messages_received: u64,
}

impl View for SessionInfo {
    type V = SessionInfoView;

    open spec fn view(&self) -> SessionInfoView {
        SessionInfoView {
            id: self.id@,
            device_name: self.device_name@,
            transport_type: self.transport_type,
            status: self.status@,
            created_at: self.created_at,
            last_activity: self.last_activity,
            bytes_sent: self.bytes_sent,
            bytes_received: self.bytes_received,
            messages_sent: self.messages_sent,
            messages_received: self.messages_received,
        }
    }
}

impl DeepView for SessionInfo {
    type V = SessionInfoView;

    open spec fn deep_view(&self) -> SessionInfoView {
        self@
    }
}

impl Clone for SessionInfo {
    fn clone(&self) -> (copy: Self)
        ensures
            copy@ == self@,
    {
        SessionInfo {
            id: self.id.clone(),
            device_name: self.device_name.clone(),
            transport_type: self.transport_type,
            status: self.status.clone(),
            created_at: self.created_at,
            last_activity: self.last_activity,
            bytes_sent: self.bytes_sent,
            bytes_received: self.bytes_received,
            messages_sent: self.messages_sent,
            messages_received: self.messages_received,
        }
    }
}

/// The facts about a connection that has just been opened.
pub open spec fn opened_info(
    id: Seq<char>,
    device_name: Seq<char>,
    kind: TransportType,
    now: Timestamp,
) -> SessionInfoView {
    SessionInfoView {
        id,
        device_name,
        transport_type: kind,
        status: SessionStatusView::Connected,
        created_at: now,
        last_activity: now,
        bytes_sent: 0,
        bytes_received: 0,
        messages_sent: 0,
        messages_received: 0,
    }
}

/// The code that moves the bytes of one connection.  The crate decides when
/// a connection is opened, used and closed; an implementation of this trait
/// does the work on the wire.  Nothing is assumed about what its methods
/// return: the crate is proved for every outcome.
pub trait TransportClient: Sized {
    /// Opens a connection to the device that `connection` describes.
    fn open(connection: &ConnectionConfig) -> Result<Self, TermComError>;

    /// Writes `data` to the device.
    fn send(&mut self, data: &Vec<u8>) -> Result<(), TermComError>;

    /// Whether the connection is still alive.
    fn is_connected(&self) -> bool;

    /// Closes the connection.
    fn close(self) -> Result<(), TermComError>;
}

/// The text of the error for a table that is full.
pub open spec fn limit_reached_text(max_sessions: usize) -> Seq<char> {
    "Maximum number of sessions ("@ + decimal_digits(max_sessions as nat) + ") reached"@
}

/// The text of the error for a device that has a connection already.
pub open spec fn device_connected_text(device_name: Seq<char>) -> Seq<char> {
    "Device '"@ + device_name + "' is already connected"@
}

/// The text of the error for an identifier that names no session.
pub open spec fn session_not_found_text(id: Seq<char>) -> Seq<char> {
    "Session '"@ + id + "' not found"@
}

/// The text of the error for a connection description of the wrong kind.
pub open spec fn wrong_connection_text(kind: TransportType) -> Seq<char> {
    match kind {
        TransportType::Serial => "Invalid connection type for serial client"@,
        TransportType::Tcp => "Invalid connection type for TCP client"@,
    }
}

/// What is wrong with the settings of a serial line, if anything: the data
/// bits are not 5 to 8, or the stop bits are neither 1 nor 2.  Nothing is
/// wrong with a TCP connection.
pub open spec fn line_fault(connection: crate::config::ConnectionConfigView) -> Option<Seq<char>> {
    match connection {
        crate::config::ConnectionConfigView::Serial { data_bits, stop_bits, .. } => {
            if !(5 <= data_bits <= 8) {
                Some("Invalid data bits: "@ + decimal_digits(data_bits as nat))
            } else if !(stop_bits == 1 || stop_bits == 2) {
                Some("Invalid stop bits: "@ + decimal_digits(stop_bits as nat))
            } else {
                None
            }
        },
        crate::config::ConnectionConfigView::Tcp { .. } => None,
    }
}

/// Checks the settings of a serial line.
pub fn check_line(connection: &ConnectionConfig) -> (r: Result<(), TermComError>)
    ensures
        match line_fault(connection@) {
            Some(text) => r matches Err(e) && e@ == (TermComErrorView::Communication {
                message: text,
            }),
            None => r is Ok,
        },
{
    match connection {
        ConnectionConfig::Serial { data_bits, stop_bits, .. } => {
            if *data_bits < 5 || *data_bits > 8 {
                return Err(
                    TermComError::Communication {
                        message: String::from_str("Invalid data bits: ").concat(
                            decimal_text(*data_bits as u64).as_str(),
                        ),
                    },
                );
            }
            if *stop_bits != 1 && *stop_bits != 2 {
                return Err(
                    TermComError::Communication {
                        message: String::from_str("Invalid stop bits: ").concat(
                            decimal_text(*stop_bits as u64).as_str(),
                        ),
                    },
                );
            }
            Ok(())
        },
        ConnectionConfig::Tcp { .. } => Ok(()),
    }
}

/// The text of the error for a table that is full.
pub fn limit_reached_message(max_sessions: usize) -> (text: String)
    ensures
        text@ == limit_reached_text(max_sessions),
{
    let limit: u64 = max_sessions as u64;
    let digits = decimal_text(limit);
    String::from_str("Maximum number of sessions (").concat(digits.as_str()).concat(") reached")
}

/// The text of the error for an identifier that names no session.
pub fn session_not_found_message(id: &str) -> (text: String)
    ensures
        text@ == session_not_found_text(id@),
{
    String::from_str("Session '").concat(id).concat("' not found")
}

/// The table of open connections of one kind of transport, as a value.
pub struct AdapterView {
    pub kind: TransportType,
    pub max_sessions: usize,
    pub sessions: Seq<SessionInfoView>,
}

impl AdapterView {
    /// The identifiers of the open connections, in the order of the table.
    pub open spec fn ids(self) -> Seq<Seq<char>> {
        self.sessions.map_values(|info: SessionInfoView| info.id)
    }

    /// The device names of the open connections, in the order of the table.
    pub open spec fn devices(self) -> Seq<Seq<char>> {
        self.sessions.map_values(|info: SessionInfoView| info.device_name)
    }

    /// Where the connection with the given identifier stands in the table.
    pub open spec fn position(self, id: Seq<char>) -> Option<int> {
        last_index_of(self.ids(), id)
    }

    /// Whether the table holds a connection with the given identifier.
    pub open spec fn has_session(self, id: Seq<char>) -> bool {
        self.position(id) is Some
    }

    /// The facts about the connection with the given identifier.
    pub open spec fn session(self, id: Seq<char>) -> Option<SessionInfoView> {
        match self.position(id) {
            Some(i) => Some(self.sessions[i]),
            None => None,
        }
    }

    /// Whether the table has room for a connection to the device of the
    /// given name: it is below its limit and holds no connection to that
    /// device.
    pub open spec fn has_room_for(self, device_name: Seq<char>) -> bool {
        self.sessions.len() < self.max_sessions && !self.devices().contains(device_name)
    }

    /// Why a new connection to a device is refused, if it is: the table is
    /// full, the device has a connection already, the description is for
    /// another kind of transport, or the settings of the serial line are out
    /// of range; in this order.
    pub open spec fn refusal(self, device: crate::config::DeviceConfigView) -> Option<
        TermComErrorView,
    > {
        if self.sessions.len() >= self.max_sessions {
            Some(
                TermComErrorView::Communication { message: limit_reached_text(self.max_sessions) },
            )
        } else if self.devices().contains(device.name) {
            Some(TermComErrorView::Communication { message: device_connected_text(device.name) })
        } else if kind_of(device.connection) != self.kind {
            Some(TermComErrorView::Communication { message: wrong_connection_text(self.kind) })
        } else {
            match line_fault(device.connection) {
                Some(text) => Some(TermComErrorView::Communication { message: text }),
                None => None,
            }
        }
    }

    /// The table after `info` has been entered: in place of the connection
    /// with the same identifier if there is one, else at the end.
    pub open spec fn with_session(self, info: SessionInfoView) -> AdapterView {
        match self.position(info.id) {
            Some(i) => AdapterView { sessions: self.sessions.update(i, info), ..self },
            None => AdapterView { sessions: self.sessions.push(info), ..self },
        }
    }

    /// The table without the connection with the given identifier.
    pub open spec fn without(self, id: Seq<char>) -> AdapterView {
        match self.position(id) {
            Some(i) => AdapterView { sessions: self.sessions.remove(i), ..self },
            None => self,
        }
    }

    /// The table after the connection with the given identifier was used at
    /// the time `now`.
    pub open spec fn touched(self, id: Seq<char>, now: Timestamp) -> AdapterView {
        match self.position(id) {
            Some(i) => AdapterView {
                sessions: self.sessions.update(
                    i,
                    SessionInfoView { last_activity: now, ..self.sessions[i] },
                ),
                ..self
            },
            None => self,
        }
    }

    /// The table after the connection with the given identifier took the
    /// given state at the time `now`.
    pub open spec fn with_status(
        self,
        id: Seq<char>,
        status: SessionStatusView,
        now: Timestamp,
    ) -> AdapterView {
        match self.position(id) {
            Some(i) => AdapterView {
                sessions: self.sessions.update(
                    i,
                    SessionInfoView { status, last_activity: now, ..self.sessions[i] },
                ),
                ..self
            },
            None => self,
        }
    }

    /// The table without any connection.
    pub open spec fn emptied(self) -> AdapterView {
        AdapterView { sessions: Seq::empty(), ..self }
    }

    /// What holds of every table that this crate builds: it is within its
    /// limit, no identifier and no device occurs twice, and every connection
    /// is of the table's kind.
    pub open spec fn wf(self) -> bool {
        &&& self.sessions.len() <= self.max_sessions
        &&& all_distinct(self.ids())
        &&& all_distinct(self.devices())
        &&& forall|i: int|
            0 <= i < self.sessions.len() ==> (#[trigger] self.sessions[i]).transport_type
                == self.kind
    }
}

/// Entering a connection that is not refused keeps the table well formed.
pub proof fn lemma_with_session_wf(table: AdapterView, info: SessionInfoView)
    requires
        table.wf(),
        table.has_room_for(info.device_name),
        info.transport_type == table.kind,
    ensures
        table.with_session(info).wf(),
        table.with_session(info).session(info.id) == Some(info),
{
    let after = table.with_session(info);
    lemma_last_index_of(table.ids(), info.id);
    match table.position(info.id) {
        Some(i) => {
            assert(after.ids() =~= table.ids().update(i, info.id));
            assert(after.ids() =~= table.ids());
            assert(after.devices() =~= table.devices().update(i, info.device_name));
            assert forall|a: int, b: int|
                0 <= a < after.devices().len() && 0 <= b < after.devices().len() && a
                    != b implies after.devices()[a] != after.devices()[b] by {
                if a == i {
                    assert(table.devices()[b] != info.device_name);
                } else if b == i {
                    assert(table.devices()[a] != info.device_name);
                } else {
                    assert(table.devices()[a] != table.devices()[b]);
                }
            }
        },
        None => {
            assert(after.ids() =~= table.ids().push(info.id));
            assert(after.devices() =~= table.devices().push(info.device_name));
            assert forall|a: int, b: int|
                0 <= a < after.ids().len() && 0 <= b < after.ids().len() && a
                    != b implies after.ids()[a] != after.ids()[b] by {
                if a < table.ids().len() && b < table.ids().len() {
                    assert(table.ids()[a] != table.ids()[b]);
                } else if a < table.ids().len() {
                    assert(table.ids()[a] != info.id);
                } else {
                    assert(table.ids()[b] != info.id);
                }
            }
            assert forall|a: int, b: int|
                0 <= a < after.devices().len() && 0 <= b < after.devices().len() && a
                    != b implies after.devices()[a] != after.devices()[b] by {
                if a < table.devices().len() && b < table.devices().len() {
                    assert(table.devices()[a] != table.devices()[b]);
                } else if a < table.devices().len() {
                    assert(table.devices()[a] != info.device_name);
                } else {
                    assert(table.devices()[b] != info.device_name);
                }
            }
            lemma_last_index_found(after.ids(), info.id, after.ids().len() - 1);
        },
    }
}

/// Taking a connection out keeps the table well formed, and the connection
/// is then not in it.
pub proof fn lemma_without_wf(table: AdapterView, id: Seq<char>)
    requires
        table.wf(),
    ensures
        table.without(id).wf(),
        !table.without(id).has_session(id),
        table.has_session(id) ==> table.without(id).sessions.len() == table.sessions.len() - 1,
{
    let after = table.without(id);
    lemma_last_index_of(table.ids(), id);
    match table.position(id) {
        Some(i) => {
            assert(after.ids() =~= table.ids().remove(i));
            assert(after.devices() =~= table.devices().remove(i));
            assert forall|a: int, b: int|
                0 <= a < after.ids().len() && 0 <= b < after.ids().len() && a
                    != b implies after.ids()[a] != after.ids()[b] by {
                let a0 = if a < i { a } else { a + 1 };
                let b0 = if b < i { b } else { b + 1 };
                assert(table.ids()[a0] != table.ids()[b0]);
            }
            assert forall|a: int, b: int|
                0 <= a < after.devices().len() && 0 <= b < after.devices().len() && a
                    != b implies after.devices()[a] != after.devices()[b] by {
                let a0 = if a < i { a } else { a + 1 };
                let b0 = if b < i { b } else { b + 1 };
                assert(table.devices()[a0] != table.devices()[b0]);
            }
            assert forall|j: int| 0 <= j < after.ids().len() implies after.ids()[j] != id by {
                let j0 = if j < i { j } else { j + 1 };
                assert(table.ids()[j0] != table.ids()[i]);
            }
            lemma_last_index_absent(after.ids(), id);
        },
        None => {},
    }
}

} // verus!
