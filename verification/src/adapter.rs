//! The table of open connections that one kind of transport keeps: it admits
//! a new connection only below its limit and only once per device, and it
//! finds, uses and closes connections by their identifier.

use crate::config::{DeviceConfig, DeviceConfigView};
use crate::error::{TermComError, TermComErrorView};
use crate::ident::fresh_uuid_simple;
use crate::lookup::{lemma_last_index_absent, lemma_last_index_found, lemma_last_index_of};
use crate::text::text_eq;
use crate::time::{span_between, Duration, Timestamp};
use crate::transport::{
    check_line, get_transport_type, lemma_with_session_wf, lemma_without_wf,
    limit_reached_message, opened_info, session_not_found_message, session_not_found_text,
    AdapterView, SessionInfo, SessionInfoView, SessionStatus, TransportClient, TransportType,
};
use vstd::prelude::*;

verus! {

/// A result whose texts are sequences of characters.
pub open spec fn text_result(r: Result<String, TermComError>) -> Result<
    Seq<char>,
    TermComErrorView,
> {
    match r {
        Ok(text) => Ok(text@),
        Err(e) => Err(e@),
    }
}

/// A result without a value, with its error's texts as sequences of
/// characters.
pub open spec fn unit_result(r: Result<(), TermComError>) -> Result<(), TermComErrorView> {
    match r {
        Ok(_) => Ok(()),
        Err(e) => Err(e@),
    }
}

/// The error for an identifier that names no connection of a table.
pub open spec fn not_found_error(id: Seq<char>) -> TermComErrorView {
    TermComErrorView::Communication { message: session_not_found_text(id) }
}

/// Whether `id` is an identifier that a table of the given kind gives out:
/// the kind's name, an underscore and 32 more characters.
pub open spec fn is_session_id_of(id: Seq<char>, kind: TransportType) -> bool {
    let prefix = kind.name() + "_"@;
    &&& id.len() == prefix.len() + 32
    &&& id.subrange(0, prefix.len() as int) == prefix
}

/// What `create_session` may do to a table and return.  A refused request
/// changes nothing and returns the refusal.  Otherwise either the connection
/// could not be opened, and nothing changed, or the table holds the new
/// connection under the identifier that is returned.
pub open spec fn create_outcome(
    pre: AdapterView,
    post: AdapterView,
    device: DeviceConfigView,
    r: Result<Seq<char>, TermComErrorView>,
) -> bool {
    match pre.refusal(device) {
        Some(e) => r == Err::<Seq<char>, TermComErrorView>(e) && post == pre,
        None => match r {
            Ok(id) => {
                &&& is_session_id_of(id, pre.kind)
                &&& post.session(id) is Some
                &&& post == pre.with_session(
                    opened_info(id, device.name, pre.kind, post.session(id).unwrap().created_at),
                )
            },
            Err(_) => post == pre,
        },
    }
}

/// What `close_session` may do to a table and return.  An unknown identifier
/// changes nothing and is reported.  A known one leaves the table, whatever
/// closing the connection returned.
pub open spec fn close_outcome(
    pre: AdapterView,
    post: AdapterView,
    id: Seq<char>,
    r: Result<(), TermComErrorView>,
) -> bool {
    if pre.has_session(id) {
        post == pre.without(id)
    } else {
        r == Err::<(), TermComErrorView>(not_found_error(id)) && post == pre
    }
}

/// What `send_data` may do to a table and return.  An unknown identifier
/// changes nothing and is reported.  For a known one either the write
/// failed, and nothing changed, or the connection's last activity moved.
pub open spec fn send_outcome(
    pre: AdapterView,
    post: AdapterView,
    id: Seq<char>,
    r: Result<(), TermComErrorView>,
) -> bool {
    match pre.position(id) {
        None => r == Err::<(), TermComErrorView>(not_found_error(id)) && post == pre,
        Some(i) => match r {
            Ok(_) => post.sessions.len() == pre.sessions.len() && post == pre.touched(
                id,
                post.sessions[i].last_activity,
            ),
            Err(_) => post == pre,
        },
    }
}

/// One open connection: the client that moves its bytes and what is known
/// about it.
pub struct SessionHandle<C> {
    client: C,
    info: SessionInfo,
}

/// What a table reports about one connection, with the time it has been
/// open.
#[derive(Debug)]
pub struct SessionStats {
    pub session_id: String,
    pub device_name: String,
    pub status: SessionStatus,
    pub created_at: Timestamp,
    pub last_activity: Timestamp,
    pub uptime: Duration,
}

/// The table of open connections of one kind of transport.
pub struct TransportAdapter<C: TransportClient> {
    kind: TransportType,
    sessions: Vec<SessionHandle<C>>,
    max_sessions: usize,
}

impl<C: TransportClient> View for TransportAdapter<C> {
    type V = AdapterView;

    /// The table as a value: its kind, its limit, and what is known about
    /// each connection.  The clients are no part of it: they are the
    /// caller's, and nothing is known of what is in them.
    closed spec fn view(&self) -> AdapterView {
        AdapterView {
            kind: self.kind,
            max_sessions: self.max_sessions,
            sessions: self.sessions@.map_values(|handle: SessionHandle<C>| handle.info@),
        }
    }
}

impl<C: TransportClient> TransportAdapter<C> {
    /// An empty table for the given kind of transport and limit.
    pub fn new(kind: TransportType, max_sessions: usize) -> (table: Self)
        ensures
            table@ == (AdapterView { kind, max_sessions, sessions: Seq::empty() }),
            table@.wf(),
    {
        let table = TransportAdapter { kind, sessions: Vec::new(), max_sessions };
        assert(table@.sessions =~= Seq::<SessionInfoView>::empty());
        assert(table@.ids() =~= Seq::<Seq<char>>::empty());
        assert(table@.devices() =~= Seq::<Seq<char>>::empty());
        table
    }

    /// The kind of transport.
    pub fn transport_type(&self) -> (kind: TransportType)
        ensures
            kind == self@.kind,
    {
        self.kind
    }

    /// The most connections that the table admits.
    pub fn get_max_sessions(&self) -> (limit: usize)
        ensures
            limit == self@.max_sessions,
    {
        self.max_sessions
    }

    /// The number of open connections.
    pub fn get_session_count(&self) -> (count: usize)
        ensures
            count == self@.sessions.len(),
    {
        self.sessions.len()
    }

    fn find(&self, id: &str) -> (found: Option<usize>)
        ensures
            match found {
                Some(i) => i < self.sessions.len() && self@.position(id@) == Some(i as int),
                None => self@.position(id@) is None,
            },
    {
        let mut i: usize = self.sessions.len();
        while i > 0
            invariant
                i <= self.sessions.len(),
                forall|j: int| i <= j < self.sessions.len() ==> self@.ids()[j] != id@,
            decreases i,
        {
            i = i - 1;
            if text_eq(self.sessions[i].info.id.as_str(), id) {
                proof {
                    assert(self@.ids()[i as int] == id@);
                    lemma_last_index_found(self@.ids(), id@, i as int);
                }
                return Some(i);
            }
        }
        proof {
            lemma_last_index_absent(self@.ids(), id@);
        }
        None
    }

    fn has_device(&self, device_name: &str) -> (found: bool)
        ensures
            found == self@.devices().contains(device_name@),
    {
        let mut i: usize = 0;
        while i < self.sessions.len()
            invariant
                i <= self.sessions.len(),
                forall|j: int| 0 <= j < i ==> self@.devices()[j] != device_name@,
            decreases self.sessions.len() - i,
        {
            if text_eq(self.sessions[i].info.device_name.as_str(), device_name) {
                assert(self@.devices()[i as int] == device_name@);
                return true;
            }
            i = i + 1;
        }
        false
    }

    /// Whether the table holds a connection with the given identifier.
    pub fn has_session(&self, session_id: &str) -> (found: bool)
        ensures
            found == self@.has_session(session_id@),
    {
        self.find(session_id).is_some()
    }

    /// Decides whether a new connection to the device may be opened.
    pub fn check_admission(&self, device_config: &DeviceConfig) -> (r: Result<(), TermComError>)
        ensures
            match self@.refusal(device_config@) {
                Some(e) => r is Err && r.unwrap_err()@ == e,
                None => r is Ok,
            },
    {
        if self.sessions.len() >= self.max_sessions {
            return Err(
                TermComError::Communication { message: limit_reached_message(self.max_sessions) },
            );
        }
        if self.has_device(device_config.name.as_str()) {
            return Err(
                TermComError::Communication {
                    message: String::from_str("Device '").concat(
                        device_config.name.as_str(),
                    ).concat("' is already connected"),
                },
            );
        }
        if get_transport_type(&device_config.connection) != self.kind {
            let message = match self.kind {
                TransportType::Serial => String::from_str(
                    "Invalid connection type for serial client",
                ),
                TransportType::Tcp => String::from_str("Invalid connection type for TCP client"),
            };
            return Err(TermComError::Communication { message });
        }
        check_line(&device_config.connection)
    }

    /// Finishes the opening of a connection once the attempt on the wire has
    /// ended.  A failed attempt is handed back and changes nothing.  A
    /// connection that stands is entered under `id` with `now` as the time
    /// it was made, in place of one with the same identifier if there is
    /// one.
    pub fn install_session(
        &mut self,
        device_name: String,
        opened: Result<C, TermComError>,
        id: String,
        now: Timestamp,
    ) -> (r: Result<String, TermComError>)
        ensures
            match opened {
                Ok(_) => {
                    &&& text_result(r) == Ok::<Seq<char>, TermComErrorView>(id@)
                    &&& final(self)@ == old(self)@.with_session(
                        opened_info(id@, device_name@, old(self)@.kind, now),
                    )
                },
                Err(e) => {
                    &&& text_result(r) == Err::<Seq<char>, TermComErrorView>(e@)
                    &&& final(self)@ == old(self)@
                },
            },
            old(self)@.wf() && old(self)@.has_room_for(device_name@) ==> final(self)@.wf(),
    {
        match opened {
            Err(e) => Err(e),
            Ok(client) => {
                let ghost before = self@;
                let ghost entered = opened_info(id@, device_name@, self.kind, now);
                proof {
                    if before.wf() && before.has_room_for(device_name@) {
                        lemma_with_session_wf(before, entered);
                    }
                }
                let info = SessionInfo {
                    id: id.clone(),
                    device_name,
                    transport_type: self.kind,
                    status: SessionStatus::Connected,
                    created_at: now,
                    last_activity: now,
                    bytes_sent: 0,
                    bytes_received: 0,
                    messages_sent: 0,
                    messages_received: 0,
                };
                let mut handle = SessionHandle { client, info };
                match self.find(id.as_str()) {
                    Some(i) => {
                        std::mem::swap(&mut self.sessions[i], &mut handle);
                        assert(self@.sessions =~= before.sessions.update(i as int, entered));
                    },
                    None => {
                        self.sessions.push(handle);
                        assert(self@.sessions =~= before.sessions.push(entered));
                    },
                }
                Ok(id)
            },
        }
    }

    /// Opens a connection to the device and enters it in the table.
    pub fn create_session(&mut self, device_config: &DeviceConfig) -> (r: Result<
        String,
        TermComError,
    >)
        ensures
            create_outcome(old(self)@, final(self)@, device_config@, text_result(r)),
            old(self)@.wf() ==> final(self)@.wf(),
    {
        match self.check_admission(device_config) {
            Err(e) => {
                return Err(e);
            },
            Ok(_) => {},
        }
        let opened = C::open(&device_config.connection);
        let id = String::from_str(
            match self.kind {
                TransportType::Serial => "serial_",
                TransportType::Tcp => "tcp_",
            },
        ).concat(fresh_uuid_simple().as_str());
        let now = Timestamp::now();
        proof {
            reveal_strlit("serial_");
            reveal_strlit("tcp_");
            reveal_strlit("serial");
            reveal_strlit("tcp");
            reveal_strlit("_");
            let prefix = self@.kind.name() + "_"@;
            assert(id@.subrange(0, prefix.len() as int) =~= prefix);
            lemma_with_session_wf_entry(
                self@,
                opened_info(id@, device_config@.name, self@.kind, now),
            );
        }
        self.install_session(device_config.name.clone(), opened, id, now)
    }

    /// Takes the connection out of the table and closes it.
    pub fn close_session(&mut self, session_id: &str) -> (r: Result<(), TermComError>)
        ensures
            close_outcome(old(self)@, final(self)@, session_id@, unit_result(r)),
            old(self)@.wf() ==> final(self)@.wf(),
    {
        proof {
            if self@.wf() {
                lemma_without_wf(self@, session_id@);
            }
        }
        match self.find(session_id) {
            Some(i) => {
                let ghost before = self@;
                let handle = self.sessions.remove(i);
                assert(self@.sessions =~= before.sessions.remove(i as int));
                handle.client.close()
            },
            None => Err(
                TermComError::Communication { message: session_not_found_message(session_id) },
            ),
        }
    }

    /// Finishes a write once the attempt on the wire has ended: a write that
    /// went through moves the connection's last activity to `now`, a failed
    /// one is handed back and changes nothing.
    pub fn settle_send(
        &mut self,
        session_id: &str,
        sent: Result<(), TermComError>,
        now: Timestamp,
    ) -> (r: Result<(), TermComError>)
        ensures
            unit_result(r) == unit_result(sent),
            final(self)@ == if sent is Ok {
                old(self)@.touched(session_id@, now)
            } else {
                old(self)@
            },
            old(self)@.wf() ==> final(self)@.wf(),
    {
        match sent {
            Err(e) => Err(e),
            Ok(_) => {
                if let Some(i) = self.find(session_id) {
                    let ghost before = self@;
                    self.sessions[i].info.last_activity = now;
                    proof {
                        assert(self@.sessions =~= before.sessions.update(
                            i as int,
                            SessionInfoView { last_activity: now, ..before.sessions[i as int] },
                        ));
                        assert(self@.ids() =~= before.ids());
                        assert(self@.devices() =~= before.devices());
                    }
                }
                Ok(())
            },
        }
    }

    /// Writes `data` to the connection.
    pub fn send_data(&mut self, session_id: &str, data: Vec<u8>) -> (r: Result<(), TermComError>)
        ensures
            send_outcome(old(self)@, final(self)@, session_id@, unit_result(r)),
            old(self)@.wf() ==> final(self)@.wf(),
    {
        match self.find(session_id) {
            Some(i) => {
                let ghost before = self@;
                let sent = self.sessions[i].client.send(&data);
                assert(self@.sessions =~= before.sessions);
                let now = Timestamp::now();
                self.settle_send(session_id, sent, now)
            },
            None => Err(
                TermComError::Communication { message: session_not_found_message(session_id) },
            ),
        }
    }

    /// Writes the text of a command to the connection.
    pub fn send_command(&mut self, session_id: &str, command: &str) -> (r: Result<
        (),
        TermComError,
    >)
        ensures
            send_outcome(old(self)@, final(self)@, session_id@, unit_result(r)),
            old(self)@.wf() ==> final(self)@.wf(),
    {
        self.send_data(session_id, command.as_bytes_vec())
    }

    /// What is known about the connection with the given identifier.
    pub fn get_session_info(&self, session_id: &str) -> (info: Option<SessionInfo>)
        ensures
            info.deep_view() == self@.session(session_id@),
    {
        match self.find(session_id) {
            Some(i) => Some(self.sessions[i].info.clone()),
            None => None,
        }
    }

    /// What is known about each open connection, in the order of the table.
    pub fn list_sessions(&self) -> (list: Vec<SessionInfo>)
        ensures
            list.deep_view() == self@.sessions,
    {
        let mut list: Vec<SessionInfo> = Vec::new();
        let mut i: usize = 0;
        while i < self.sessions.len()
            invariant
                i <= self.sessions.len(),
                list.len() == i,
                forall|j: int| 0 <= j < i ==> list[j]@ == self@.sessions[j],
            decreases self.sessions.len() - i,
        {
            list.push(self.sessions[i].info.clone());
            i = i + 1;
        }
        assert(list.deep_view() =~= self@.sessions);
        list
    }

    /// Whether the connection with the given identifier is in the table and
    /// its client reports it alive.  For an identifier that the table does
    /// not hold the answer is no.
    pub fn is_session_connected(&self, session_id: &str) -> (alive: bool)
        ensures
            alive ==> self@.has_session(session_id@),
    {
        match self.find(session_id) {
            Some(i) => self.sessions[i].client.is_connected(),
            None => false,
        }
    }

    /// Closes every connection and empties the table.  A connection that
    /// fails to close is dropped all the same.
    pub fn close_all_sessions(&mut self) -> (r: Result<(), TermComError>)
        ensures
            r is Ok,
            final(self)@ == old(self)@.emptied(),
            final(self)@.wf(),
    {
        while self.sessions.len() > 0
            invariant
                self.kind == old(self).kind,
                self.max_sessions == old(self).max_sessions,
            decreases self.sessions.len(),
        {
            let handle = self.sessions.pop();
            if let Some(handle) = handle {
                let _ = handle.client.close();
            }
        }
        proof {
            assert(self@.sessions =~= Seq::<SessionInfoView>::empty());
            assert(self@.ids() =~= Seq::<Seq<char>>::empty());
            assert(self@.devices() =~= Seq::<Seq<char>>::empty());
        }
        Ok(())
    }

    /// Records a new state for the connection at the time `now`.
    pub fn set_session_status(&mut self, session_id: &str, status: SessionStatus, now: Timestamp) -> (r:
        Result<(), TermComError>)
        ensures
            match old(self)@.position(session_id@) {
                Some(_) => r is Ok && final(self)@ == old(self)@.with_status(
                    session_id@,
                    status@,
                    now,
                ),
                None => unit_result(r) == Err::<(), TermComErrorView>(
                    not_found_error(session_id@),
                ) && final(self)@ == old(self)@,
            },
            old(self)@.wf() ==> final(self)@.wf(),
    {
        match self.find(session_id) {
            Some(i) => {
                let ghost before = self@;
                self.sessions[i].info.status = status;
                self.sessions[i].info.last_activity = now;
                proof {
                    assert(self@.sessions =~= before.sessions.update(
                        i as int,
                        SessionInfoView {
                            status: status@,
                            last_activity: now,
                            ..before.sessions[i as int]
                        },
                    ));
                    assert(self@.ids() =~= before.ids());
                    assert(self@.devices() =~= before.devices());
                }
                Ok(())
            },
            None => Err(
                TermComError::Communication { message: session_not_found_message(session_id) },
            ),
        }
    }

    /// Records a new state for the connection, with the current time as the
    /// time of its last activity.
    pub fn update_session_status(&mut self, session_id: &str, status: SessionStatus) -> (r: Result<
        (),
        TermComError,
    >)
        ensures
            match old(self)@.position(session_id@) {
                Some(_) => r is Ok && exists|now: Timestamp|
                    final(self)@ == old(self)@.with_status(session_id@, status@, now),
                None => unit_result(r) == Err::<(), TermComErrorView>(
                    not_found_error(session_id@),
                ) && final(self)@ == old(self)@,
            },
            old(self)@.wf() ==> final(self)@.wf(),
    {
        let now = Timestamp::now();
        let r = self.set_session_status(session_id, status, now);
        proof {
            if old(self)@.position(session_id@) is Some {
                assert(self@ == old(self)@.with_status(session_id@, status@, now));
            }
        }
        r
    }

    /// What is known about the connection, with the time from its opening to
    /// `now`.
    pub fn session_stats_at(&self, session_id: &str, now: Timestamp) -> (stats: Option<
        SessionStats,
    >)
        ensures
            stats is Some == self@.has_session(session_id@),
            stats is Some ==> {
                let info = self@.session(session_id@).unwrap();
                let found = stats.unwrap();
                &&& found.session_id@ == info.id
                &&& found.device_name@ == info.device_name
                &&& found.status@ == info.status
                &&& found.created_at == info.created_at
                &&& found.last_activity == info.last_activity
                &&& found.uptime == span_between(now, info.created_at)
            },
    {
        match self.find(session_id) {
            Some(i) => {
                let info = &self.sessions[i].info;
                Some(
                    SessionStats {
                        session_id: info.id.clone(),
                        device_name: info.device_name.clone(),
                        status: info.status.clone(),
                        created_at: info.created_at,
                        last_activity: info.last_activity,
                        uptime: now.duration_since(&info.created_at),
                    },
                )
            },
            None => None,
        }
    }

    /// What is known about the connection, with the time it has been open.
    pub fn get_session_stats(&self, session_id: &str) -> (stats: Option<SessionStats>)
        ensures
            stats is Some == self@.has_session(session_id@),
            stats is Some ==> {
                let info = self@.session(session_id@).unwrap();
                let found = stats.unwrap();
                &&& found.session_id@ == info.id
                &&& found.device_name@ == info.device_name
                &&& found.status@ == info.status
                &&& found.created_at == info.created_at
                &&& found.last_activity == info.last_activity
                &&& exists|now: Timestamp| found.uptime == span_between(now, info.created_at)
            },
    {
        let now = Timestamp::now();
        let stats = self.session_stats_at(session_id, now);
        proof {
            if stats is Some {
                assert(stats.unwrap().uptime == span_between(
                    now,
                    self@.session(session_id@).unwrap().created_at,
                ));
            }
        }
        stats
    }
}

/// Entering a connection puts it where it can be found again.
proof fn lemma_with_session_wf_entry(table: AdapterView, info: SessionInfoView)
    ensures
        table.with_session(info).session(info.id) == Some(info),
{
    let after = table.with_session(info);
    lemma_last_index_of(table.ids(), info.id);
    match table.position(info.id) {
        Some(i) => {
            assert(after.ids() =~= table.ids());
        },
        None => {
            assert(after.ids() =~= table.ids().push(info.id));
            lemma_last_index_found(after.ids(), info.id, after.ids().len() - 1);
        },
    }
}

} // verus!
