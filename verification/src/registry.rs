//! The registry of transports: one table of connections per kind of
//! transport, and the routing of each request to the table that it concerns.

use crate::adapter::{unit_result, TransportAdapter};
use crate::config::{DeviceConfig, DeviceConfigView};
use crate::error::{combine_failures, TermComError, TermComErrorView};
use crate::transport::{
    get_transport_type, kind_of, AdapterView, SessionInfo, SessionInfoView, TransportClient,
    TransportType,
};
use vstd::prelude::*;

verus! {

/// The registry as a value: the table of each kind of transport, where one
/// is registered.
pub struct RegistryView {
    pub serial: Option<AdapterView>,
    pub tcp: Option<AdapterView>,
}

/// The text of the error for a kind of transport that is not registered.
pub open spec fn transport_missing_text(kind: TransportType) -> Seq<char> {
    "Transport type "@ + kind.variant_name() + " not available"@
}

/// The text of the error for an identifier that no transport claims.
pub open spec fn unclaimed_text(id: Seq<char>) -> Seq<char> {
    "Session '"@ + id + "' not found in any transport"@
}

/// The error for an identifier that no transport claims.
pub open spec fn unclaimed_error(id: Seq<char>) -> TermComErrorView {
    TermComErrorView::Communication { message: unclaimed_text(id) }
}

impl RegistryView {
    /// The table of the given kind.
    pub open spec fn adapter(self, kind: TransportType) -> Option<AdapterView> {
        match kind {
            TransportType::Serial => self.serial,
            TransportType::Tcp => self.tcp,
        }
    }

    /// The registry with `table` as the table of the given kind.
    pub open spec fn with_adapter(self, kind: TransportType, table: AdapterView) -> RegistryView {
        match kind {
            TransportType::Serial => RegistryView { serial: Some(table), ..self },
            TransportType::Tcp => RegistryView { tcp: Some(table), ..self },
        }
    }

    /// The connections of a table, none where the table is missing.
    pub open spec fn sessions_of(table: Option<AdapterView>) -> Seq<SessionInfoView> {
        match table {
            Some(table) => table.sessions,
            None => Seq::empty(),
        }
    }

    /// The connections of all transports: the serial ones, then the TCP
    /// ones.
    pub open spec fn all_sessions(self) -> Seq<SessionInfoView> {
        Self::sessions_of(self.serial) + Self::sessions_of(self.tcp)
    }

    /// Whether the table of the given kind holds the identifier.
    pub open spec fn held_by(self, kind: TransportType, id: Seq<char>) -> bool {
        self.adapter(kind) is Some && self.adapter(kind).unwrap().has_session(id)
    }

    /// Whether some table holds the identifier.
    pub open spec fn owns(self, id: Seq<char>) -> bool {
        self.held_by(TransportType::Serial, id) || self.held_by(TransportType::Tcp, id)
    }

    /// What is known about the connection with the given identifier: the
    /// serial table is asked first.
    pub open spec fn session(self, id: Seq<char>) -> Option<SessionInfoView> {
        if self.held_by(TransportType::Serial, id) {
            self.serial.unwrap().session(id)
        } else if self.held_by(TransportType::Tcp, id) {
            self.tcp.unwrap().session(id)
        } else {
            None
        }
    }

    /// The registry with every table emptied.
    pub open spec fn emptied(self) -> RegistryView {
        RegistryView {
            serial: match self.serial {
                Some(table) => Some(table.emptied()),
                None => None,
            },
            tcp: match self.tcp {
                Some(table) => Some(table.emptied()),
                None => None,
            },
        }
    }

    /// What holds of every registry that this crate builds: each table is
    /// well formed and of the kind under which it is registered.
    pub open spec fn wf(self) -> bool {
        &&& self.serial is Some ==> self.serial.unwrap().wf() && self.serial.unwrap().kind
            == TransportType::Serial
        &&& self.tcp is Some ==> self.tcp.unwrap().wf() && self.tcp.unwrap().kind
            == TransportType::Tcp
    }
}

/// What `create_session` may do to a registry and return.  Where the kind of
/// transport that the device asks for is not registered, nothing changes and
/// this is reported.  Otherwise only the table of that kind may change, as
/// its own `create_session` says, and a new identifier comes with the kind.
pub open spec fn create_outcome(
    pre: RegistryView,
    post: RegistryView,
    device: DeviceConfigView,
    r: Result<(Seq<char>, TransportType), TermComErrorView>,
) -> bool {
    let kind = kind_of(device.connection);
    match pre.adapter(kind) {
        None => {
            &&& r == Err::<(Seq<char>, TransportType), TermComErrorView>(
                TermComErrorView::Communication { message: transport_missing_text(kind) },
            )
            &&& post == pre
        },
        Some(table) => {
            &&& post.adapter(kind) is Some
            &&& post == pre.with_adapter(kind, post.adapter(kind).unwrap())
            &&& crate::adapter::create_outcome(
                table,
                post.adapter(kind).unwrap(),
                device,
                match r {
                    Ok(made) => Ok(made.0),
                    Err(e) => Err(e),
                },
            )
            &&& r matches Ok(made) ==> made.1 == kind
        },
    }
}

/// What `close_session` may do to a registry and return.  Either no
/// transport claimed the identifier, nothing changed and this is reported;
/// or a table that held the identifier holds it no more, whatever closing
/// the connection returned.  An identifier that no table holds is never
/// claimed.
pub open spec fn close_outcome(
    pre: RegistryView,
    post: RegistryView,
    id: Seq<char>,
    r: Result<(), TermComErrorView>,
) -> bool {
    ||| r == Err::<(), TermComErrorView>(unclaimed_error(id)) && post == pre
    ||| pre.held_by(TransportType::Serial, id) && post == pre.with_adapter(
        TransportType::Serial,
        pre.serial.unwrap().without(id),
    )
    ||| pre.held_by(TransportType::Tcp, id) && post == pre.with_adapter(
        TransportType::Tcp,
        pre.tcp.unwrap().without(id),
    )
}

/// What `send_data` may do to a registry and return.  Either no transport
/// claimed the identifier, nothing changed and this is reported; or a table
/// that held the identifier did what its own `send_data` says, and the other
/// table is as it was.
pub open spec fn send_outcome(
    pre: RegistryView,
    post: RegistryView,
    id: Seq<char>,
    r: Result<(), TermComErrorView>,
) -> bool {
    ||| r == Err::<(), TermComErrorView>(unclaimed_error(id)) && post == pre
    ||| {
        &&& pre.held_by(TransportType::Serial, id)
        &&& post.serial is Some
        &&& post.tcp == pre.tcp
        &&& crate::adapter::send_outcome(pre.serial.unwrap(), post.serial.unwrap(), id, r)
    }
    ||| {
        &&& pre.held_by(TransportType::Tcp, id)
        &&& post.tcp is Some
        &&& post.serial == pre.serial
        &&& crate::adapter::send_outcome(pre.tcp.unwrap(), post.tcp.unwrap(), id, r)
    }
}

/// The transport that claims a connection where the serial table answered
/// `serial_alive` and the TCP table `tcp_alive` to the question whether the
/// connection is alive in them: the first that said yes, the serial one
/// first.
pub open spec fn first_claim(serial_alive: bool, tcp_alive: bool) -> Option<TransportType> {
    if serial_alive {
        Some(TransportType::Serial)
    } else if tcp_alive {
        Some(TransportType::Tcp)
    } else {
        None
    }
}

/// The tables of all kinds of transport.
pub struct TransportRegistry<C: TransportClient> {
    serial: Option<TransportAdapter<C>>,
    tcp: Option<TransportAdapter<C>>,
}

impl<C: TransportClient> View for TransportRegistry<C> {
    type V = RegistryView;

    closed spec fn view(&self) -> RegistryView {
        RegistryView {
            serial: match self.serial {
                Some(table) => Some(table@),
                None => None,
            },
            tcp: match self.tcp {
                Some(table) => Some(table@),
                None => None,
            },
        }
    }
}

/// The error for an identifier that no transport claims.
fn unclaimed(session_id: &str) -> (e: TermComError)
    ensures
        e@ == unclaimed_error(session_id@),
{
    TermComError::Communication {
        message: String::from_str("Session '").concat(session_id).concat(
            "' not found in any transport",
        ),
    }
}

impl<C: TransportClient> TransportRegistry<C> {
    /// A registry without any transport.
    pub fn new() -> (registry: Self)
        ensures
            registry@ == (RegistryView { serial: None, tcp: None }),
            registry@.wf(),
    {
        TransportRegistry { serial: None, tcp: None }
    }

    /// Registers a table under its kind, in place of the one that was
    /// registered under that kind.
    pub fn register_transport(&mut self, transport: TransportAdapter<C>)
        ensures
            final(self)@ == old(self)@.with_adapter(transport@.kind, transport@),
            old(self)@.wf() && transport@.wf() ==> final(self)@.wf(),
    {
        match transport.transport_type() {
            TransportType::Serial => {
                self.serial = Some(transport);
            },
            TransportType::Tcp => {
                self.tcp = Some(transport);
            },
        }
    }

    /// The table of the given kind, for reading.
    pub fn transport(&self, transport_type: &TransportType) -> (table: Option<
        &TransportAdapter<C>,
    >)
        ensures
            match table {
                Some(table) => self@.adapter(*transport_type) == Some(table@),
                None => self@.adapter(*transport_type) is None,
            },
    {
        match transport_type {
            TransportType::Serial => self.serial.as_ref(),
            TransportType::Tcp => self.tcp.as_ref(),
        }
    }

    /// The table of the given kind, for using it.  What is done to the
    /// table is done to the table of that kind in the registry; the other
    /// table stays as it is.
    pub fn get_transport(&mut self, transport_type: &TransportType) -> (table: Option<
        &mut TransportAdapter<C>,
    >)
        ensures
            match table {
                Some(table) => old(self)@.adapter(*transport_type) == Some(table@) && final(self)@
                    == old(self)@.with_adapter(*transport_type, final(table)@),
                None => old(self)@.adapter(*transport_type) is None && final(self)@ == old(self)@,
            },
    {
        match transport_type {
            TransportType::Serial => self.serial.as_mut(),
            TransportType::Tcp => self.tcp.as_mut(),
        }
    }

    /// The kinds of transport that are registered: serial first.
    pub fn available_transports(&self) -> (kinds: Vec<TransportType>)
        ensures
            kinds@ == (if self@.serial is Some {
                seq![TransportType::Serial]
            } else {
                Seq::<TransportType>::empty()
            }) + (if self@.tcp is Some {
                seq![TransportType::Tcp]
            } else {
                Seq::<TransportType>::empty()
            }),
    {
        let mut kinds: Vec<TransportType> = Vec::new();
        if self.serial.is_some() {
            kinds.push(TransportType::Serial);
        }
        if self.tcp.is_some() {
            kinds.push(TransportType::Tcp);
        }
        assert(kinds@ =~= (if self@.serial is Some {
            seq![TransportType::Serial]
        } else {
            Seq::<TransportType>::empty()
        }) + (if self@.tcp is Some {
            seq![TransportType::Tcp]
        } else {
            Seq::<TransportType>::empty()
        }));
        kinds
    }

    /// Whether a table of the given kind is registered.
    pub fn has_transport(&self, transport_type: &TransportType) -> (registered: bool)
        ensures
            registered == (self@.adapter(*transport_type) is Some),
    {
        match transport_type {
            TransportType::Serial => self.serial.is_some(),
            TransportType::Tcp => self.tcp.is_some(),
        }
    }

    /// Opens a connection to the device on the transport that its
    /// description asks for.
    pub fn create_session(&mut self, device_config: &DeviceConfig) -> (r: Result<
        (String, TransportType),
        TermComError,
    >)
        ensures
            create_outcome(
                old(self)@,
                final(self)@,
                device_config@,
                match r {
                    Ok(made) => Ok((made.0@, made.1)),
                    Err(e) => Err(e@),
                },
            ),
            old(self)@.wf() ==> final(self)@.wf(),
    {
        let kind = get_transport_type(&device_config.connection);
        let slot = match kind {
            TransportType::Serial => &mut self.serial,
            TransportType::Tcp => &mut self.tcp,
        };
        match slot {
            Some(table) => {
                match table.create_session(device_config) {
                    Ok(id) => Ok((id, kind)),
                    Err(e) => Err(e),
                }
            },
            None => Err(
                TermComError::Communication {
                    message: String::from_str("Transport type ").concat(
                        kind.to_variant_name().as_str(),
                    ).concat(" not available"),
                },
            ),
        }
    }

    /// The transport that claims a connection, given what the tables
    /// answered when they were asked whether the connection is alive in
    /// them: the serial one where it said yes, else the TCP one where that
    /// said yes, else none.
    pub fn first_claimant(serial_alive: bool, tcp_alive: bool) -> (kind: Option<TransportType>)
        ensures
            kind == first_claim(serial_alive, tcp_alive),
    {
        if serial_alive {
            Some(TransportType::Serial)
        } else if tcp_alive {
            Some(TransportType::Tcp)
        } else {
            None
        }
    }

    /// The transport that claims the connection: each table is asked in
    /// turn, the serial one first, whether the connection is alive in it,
    /// and the first that says yes is the claimant; the TCP table is asked
    /// only where the serial one says no.  Whether a table that holds the
    /// connection says yes, its client decides; a table that is not
    /// registered or does not hold the connection says no.
    pub fn claimant(&self, session_id: &str) -> (kind: Option<TransportType>)
        ensures
            exists|serial_alive: bool, tcp_alive: bool|
                {
                    &&& #[trigger] first_claim(serial_alive, tcp_alive) == kind
                    &&& serial_alive ==> self@.held_by(TransportType::Serial, session_id@)
                    &&& tcp_alive ==> self@.held_by(TransportType::Tcp, session_id@)
                },
            kind matches Some(kind) ==> self@.held_by(kind, session_id@),
    {
        let serial_alive = match &self.serial {
            Some(table) => table.is_session_connected(session_id),
            None => false,
        };
        let tcp_alive = if serial_alive {
            false
        } else {
            match &self.tcp {
                Some(table) => table.is_session_connected(session_id),
                None => false,
            }
        };
        let kind = Self::first_claimant(serial_alive, tcp_alive);
        assert(first_claim(serial_alive, tcp_alive) == kind);
        kind
    }

    /// Closes the connection on the transport that claimed it.  Where none
    /// claimed it, or the one that did is not registered, this is reported
    /// and nothing changes; else the table of that kind does what its own
    /// `close_session` says.
    pub fn close_claimed(&mut self, claimant: Option<TransportType>, session_id: &str) -> (r:
        Result<(), TermComError>)
        ensures
            match claimant {
                Some(kind) if old(self)@.adapter(kind) is Some => {
                    &&& final(self)@.adapter(kind) is Some
                    &&& final(self)@ == old(self)@.with_adapter(
                        kind,
                        final(self)@.adapter(kind).unwrap(),
                    )
                    &&& crate::adapter::close_outcome(
                        old(self)@.adapter(kind).unwrap(),
                        final(self)@.adapter(kind).unwrap(),
                        session_id@,
                        unit_result(r),
                    )
                },
                _ => unit_result(r) == Err::<(), TermComErrorView>(unclaimed_error(session_id@))
                    && final(self)@ == old(self)@,
            },
            old(self)@.wf() ==> final(self)@.wf(),
    {
        let slot = match claimant {
            Some(TransportType::Serial) => &mut self.serial,
            Some(TransportType::Tcp) => &mut self.tcp,
            None => {
                return Err(unclaimed(session_id));
            },
        };
        match slot {
            Some(table) => table.close_session(session_id),
            None => Err(unclaimed(session_id)),
        }
    }

    /// Writes `data` to the connection on the transport that claimed it.
    /// Where none claimed it, or the one that did is not registered, this is
    /// reported and nothing changes; else the table of that kind does what
    /// its own `send_data` says.
    pub fn send_claimed(
        &mut self,
        claimant: Option<TransportType>,
        session_id: &str,
        data: Vec<u8>,
    ) -> (r: Result<(), TermComError>)
        ensures
            match claimant {
                Some(kind) if old(self)@.adapter(kind) is Some => {
                    &&& final(self)@.adapter(kind) is Some
                    &&& final(self)@ == old(self)@.with_adapter(
                        kind,
                        final(self)@.adapter(kind).unwrap(),
                    )
                    &&& crate::adapter::send_outcome(
                        old(self)@.adapter(kind).unwrap(),
                        final(self)@.adapter(kind).unwrap(),
                        session_id@,
                        unit_result(r),
                    )
                },
                _ => unit_result(r) == Err::<(), TermComErrorView>(unclaimed_error(session_id@))
                    && final(self)@ == old(self)@,
            },
            old(self)@.wf() ==> final(self)@.wf(),
    {
        let slot = match claimant {
            Some(TransportType::Serial) => &mut self.serial,
            Some(TransportType::Tcp) => &mut self.tcp,
            None => {
                return Err(unclaimed(session_id));
            },
        };
        match slot {
            Some(table) => table.send_data(session_id, data),
            None => Err(unclaimed(session_id)),
        }
    }

    /// Closes the connection on the transport that claims it.
    pub fn close_session(&mut self, session_id: &str) -> (r: Result<(), TermComError>)
        ensures
            close_outcome(old(self)@, final(self)@, session_id@, unit_result(r)),
            old(self)@.wf() ==> final(self)@.wf(),
    {
        let claimant = self.claimant(session_id);
        self.close_claimed(claimant, session_id)
    }

    /// Writes `data` to the connection on the transport that claims it.
    pub fn send_data(&mut self, session_id: &str, data: Vec<u8>) -> (r: Result<(), TermComError>)
        ensures
            send_outcome(old(self)@, final(self)@, session_id@, unit_result(r)),
            old(self)@.wf() ==> final(self)@.wf(),
    {
        let claimant = self.claimant(session_id);
        self.send_claimed(claimant, session_id, data)
    }

    /// What is known about the connection with the given identifier.
    pub fn get_session_info(&self, session_id: &str) -> (info: Option<SessionInfo>)
        ensures
            info.deep_view() == self@.session(session_id@),
    {
        if let Some(table) = &self.serial {
            if let Some(info) = table.get_session_info(session_id) {
                return Some(info);
            }
        }
        if let Some(table) = &self.tcp {
            if let Some(info) = table.get_session_info(session_id) {
                return Some(info);
            }
        }
        None
    }

    /// What is known about every connection: the serial ones, then the TCP
    /// ones.
    pub fn list_all_sessions(&self) -> (list: Vec<SessionInfo>)
        ensures
            list.deep_view() == self@.all_sessions(),
    {
        let mut list: Vec<SessionInfo> = match &self.serial {
            Some(table) => table.list_sessions(),
            None => Vec::new(),
        };
        let ghost first = list.deep_view();
        let mut rest: Vec<SessionInfo> = match &self.tcp {
            Some(table) => table.list_sessions(),
            None => Vec::new(),
        };
        let ghost second = rest.deep_view();
        list.append(&mut rest);
        assert(list.deep_view() =~= first + second);
        assert(first =~= RegistryView::sessions_of(self@.serial));
        assert(second =~= RegistryView::sessions_of(self@.tcp));
        list
    }

    /// Closes every connection of every transport.  Each table is emptied
    /// even where another one fails; the failures are reported together.
    pub fn close_all_sessions(&mut self) -> (r: Result<(), TermComError>)
        ensures
            r is Ok,
            final(self)@ == old(self)@.emptied(),
            old(self)@.wf() ==> final(self)@.wf(),
    {
        let mut errors: Vec<String> = Vec::new();
        if let Some(table) = &mut self.serial {
            if let Err(e) = table.close_all_sessions() {
                errors.push(e.to_string());
            }
        }
        if let Some(table) = &mut self.tcp {
            if let Err(e) = table.close_all_sessions() {
                errors.push(e.to_string());
            }
        }
        assert(errors.deep_view() =~= Seq::<Seq<char>>::empty());
        combine_failures("Errors closing sessions: ", &errors, false)
    }
}

} // verus!
