//! The state of the terminal user interface and what each key does to it.
//! Drawing the state and reading the keys is left to the caller.

use crate::error::TermComError;
use crate::text::{decimal_digits, decimal_text, text_eq};
use crate::time::Timestamp;
use vstd::prelude::*;

verus! {

/// A key that the user pressed.
#[derive(Clone, Copy, Debug, PartialEq, Eq, Structural)]
pub enum Key {
    Char(char),
    Enter,
    Esc,
    Backspace,
    Delete,
    Tab,
    Left,
    Right,
    Up,
    Down,
    Home,
    End,
    /// Any other key.
    Other,
}

/// What the main area shows.
#[derive(Clone, Copy, Debug, PartialEq, Eq, Structural)]
pub enum ViewMode {
    Chat,
    Command,
}

impl ViewMode {
    /// The name of the mode.
    pub open spec fn name(self) -> Seq<char> {
        match self {
            ViewMode::Chat => "Chat"@,
            ViewMode::Command => "Command"@,
        }
    }

    /// The name of the mode.
    pub fn to_string(&self) -> (text: String)
        ensures
            text@ == self.name(),
    {
        match self {
            ViewMode::Chat => String::from_str("Chat"),
            ViewMode::Command => String::from_str("Command"),
        }
    }
}

/// One line of the conversation with the device.
#[derive(Debug)]
pub struct ChatMessage {
    pub content: String,
    pub timestamp: Timestamp,
    /// Whether the user sent the line; else the device did.
    pub is_sent: bool,
}

/// A line of the conversation with its text as a sequence of characters.
pub struct ChatMessageView {
    pub content: Seq<char>,
    pub timestamp: Timestamp,
    pub is_sent: bool,
}

impl View for ChatMessage {
    type V = ChatMessageView;

    open spec fn view(&self) -> ChatMessageView {
        ChatMessageView {
            content: self.content@,
            timestamp: self.timestamp,
            is_sent: self.is_sent,
        }
    }
}

impl DeepView for ChatMessage {
    type V = ChatMessageView;

    open spec fn deep_view(&self) -> ChatMessageView {
        self@
    }
}

/// The connection that the interface shows.
#[derive(Debug)]
pub struct Connection {
    pub name: String,
    pub config_info: String,
    pub connected: bool,
    pub messages: Vec<ChatMessage>,
    pub last_activity: Timestamp,
}

/// A connection with its texts as sequences of characters.
pub struct ConnectionView {
    pub name: Seq<char>,
    pub config_info: Seq<char>,
    pub connected: bool,
    pub messages: Seq<ChatMessageView>,
    pub last_activity: Timestamp,
}

impl View for Connection {
    type V = ConnectionView;

    open spec fn view(&self) -> ConnectionView {
        ConnectionView {
            name: self.name@,
            config_info: self.config_info@,
            connected: self.connected,
            messages: self.messages.deep_view(),
            last_activity: self.last_activity,
        }
    }
}

/// The state of the interface.
#[derive(Debug)]
pub struct AppState {
    pub view_mode: ViewMode,
    /// Whether keys go into the input line.
    pub input_mode: bool,
    pub input_buffer: String,
    pub terminal_size: (u16, u16),
    pub connection: Option<Connection>,
    pub status_message: Option<String>,
    pub show_help: bool,
}

/// The state of the interface with its texts as sequences of characters.
pub struct AppStateView {
    pub view_mode: ViewMode,
    pub input_mode: bool,
    pub input_buffer: Seq<char>,
    pub terminal_size: (u16, u16),
    pub connection: Option<ConnectionView>,
    pub status_message: Option<Seq<char>>,
    pub show_help: bool,
}

/// The view of a connection that may be missing.
pub open spec fn connection_view(connection: Option<Connection>) -> Option<ConnectionView> {
    match connection {
        Some(connection) => Some(connection@),
        None => None,
    }
}

impl View for AppState {
    type V = AppStateView;

    open spec fn view(&self) -> AppStateView {
        AppStateView {
            view_mode: self.view_mode,
            input_mode: self.input_mode,
            input_buffer: self.input_buffer@,
            terminal_size: self.terminal_size,
            connection: connection_view(self.connection),
            status_message: self.status_message.deep_view(),
            show_help: self.show_help,
        }
    }
}

/// What `str::trim` makes of a text.
pub uninterp spec fn trimmed(text: Seq<char>) -> Seq<char>;

/// The words that `str::split_whitespace` finds in a text.
pub uninterp spec fn words_of(text: Seq<char>) -> Seq<Seq<char>>;

/// What `str::to_lowercase` makes of a text.
pub uninterp spec fn lowercased(text: Seq<char>) -> Seq<char>;

/// The value of a decimal digit.
pub open spec fn digit_value(c: char) -> Option<nat> {
    if 48 <= c as u32 <= 57 {
        Some((c as u32 - 48) as nat)
    } else {
        None
    }
}

/// The number that decimal digits stand for; none where one of the
/// characters is no decimal digit.
pub open spec fn digits_value(digits: Seq<char>) -> Option<nat>
    decreases digits.len(),
{
    if digits.len() == 0 {
        Some(0)
    } else {
        match (digits_value(digits.drop_last()), digit_value(digits.last())) {
            (Some(front), Some(last)) => Some(front * 10 + last),
            _ => None,
        }
    }
}

/// The number that a text stands for: one or more decimal digits, with a
/// plus sign before them or without.  Every other text stands for none.
pub open spec fn unsigned_number(text: Seq<char>) -> Option<nat> {
    let digits = if text.len() > 0 && text[0] == '+' {
        text.subrange(1, text.len() as int)
    } else {
        text
    };
    if digits.len() == 0 {
        None
    } else {
        digits_value(digits)
    }
}

/// The number that a text stands for, where it fits in 32 bits.
pub open spec fn parsed_u32(text: Seq<char>) -> Option<u32> {
    match unsigned_number(text) {
        Some(value) => if value <= u32::MAX {
            Some(value as u32)
        } else {
            None
        },
        None => None,
    }
}

/// The number that a text stands for, where it fits in 16 bits.
pub open spec fn parsed_u16(text: Seq<char>) -> Option<u16> {
    match unsigned_number(text) {
        Some(value) => if value <= u16::MAX {
            Some(value as u16)
        } else {
            None
        },
        None => None,
    }
}

/// Takes white space off both ends of a text with `str::trim`.
#[verifier::external_body]
fn trim_text(text: &str) -> (rest: String)
    ensures
        rest@ == trimmed(text@),
{
    text.trim().to_string()
}

/// Splits a text into its words with `str::split_whitespace`.
#[verifier::external_body]
fn split_words(text: &str) -> (words: Vec<String>)
    ensures
        words.deep_view() == words_of(text@),
{
    text.split_whitespace().map(|word| word.to_string()).collect()
}

/// Writes a text in lower case with `str::to_lowercase`.
#[verifier::external_body]
fn lowercase(text: &str) -> (lower: String)
    ensures
        lower@ == lowercased(text@),
{
    text.to_lowercase()
}

/// Reads a number with `str::parse::<u32>`, which takes an optional plus
/// sign followed by decimal digits and nothing else, and rejects a number
/// that does not fit.
#[verifier::external_body]
fn parse_u32(text: &str) -> (number: Option<u32>)
    ensures
        number == parsed_u32(text@),
{
    text.parse::<u32>().ok()
}

/// Reads a number with `str::parse::<u16>`, which takes an optional plus
/// sign followed by decimal digits and nothing else, and rejects a number
/// that does not fit.
#[verifier::external_body]
fn parse_u16(text: &str) -> (number: Option<u16>)
    ensures
        number == parsed_u16(text@),
{
    text.parse::<u16>().ok()
}

/// Puts a character at the end of a text with `String::push`.
#[verifier::external_body]
fn push_char(text: &mut String, c: char)
    ensures
        final(text)@ == old(text)@.push(c),
{
    text.push(c)
}

/// Takes the last character off a text with `String::pop`; an empty text
/// stays empty.
#[verifier::external_body]
fn pop_char(text: &mut String)
    ensures
        final(text)@ == if old(text)@.len() > 0 {
            old(text)@.drop_last()
        } else {
            old(text)@
        },
{
    text.pop();
}

/// The text that the characters make up.
fn text_of(chars: &Vec<char>) -> (text: String)
    ensures
        text@ == chars@,
{
    let mut text = String::new();
    let mut i: usize = 0;
    while i < chars.len()
        invariant
            i <= chars.len(),
            text@ == chars@.subrange(0, i as int),
        decreases chars.len() - i,
    {
        push_char(&mut text, chars[i]);
        assert(text@ =~= chars@.subrange(0, i + 1));
        i = i + 1;
    }
    assert(chars@.subrange(0, chars.len() as int) =~= chars@);
    text
}

/// The connection that the interface shows after a serial connection was
/// asked for at the time `now`.
pub open spec fn serial_connection(port: Seq<char>, baud_rate: u32, now: Timestamp) -> ConnectionView {
    ConnectionView {
        name: "Serial "@ + port,
        config_info: "Port: "@ + port + ", Baud: "@ + decimal_digits(baud_rate as nat),
        connected: true,
        messages: Seq::empty(),
        last_activity: now,
    }
}

/// The connection that the interface shows after a TCP connection was asked
/// for at the time `now`.
pub open spec fn tcp_connection(host: Seq<char>, port: u16, now: Timestamp) -> ConnectionView {
    ConnectionView {
        name: "TCP "@ + host + ":"@ + decimal_digits(port as nat),
        config_info: "Host: "@ + host + ", Port: "@ + decimal_digits(port as nat),
        connected: true,
        messages: Seq::empty(),
        last_activity: now,
    }
}

/// The words of a command: what follows the colon at the start of the
/// command, after white space is taken off the ends of the command, split
/// at white space.  A text that does not start with a colon then is no
/// command.
pub open spec fn command_words(command: Seq<char>) -> Option<Seq<Seq<char>>> {
    match body_of(trimmed(command)) {
        Some(body) => Some(words_of(body)),
        None => None,
    }
}

/// What follows the colon at the start of a line; none where the line is
/// empty or starts with another character.
pub open spec fn body_of(line: Seq<char>) -> Option<Seq<char>> {
    if line.len() == 0 || line[0] != ':' {
        None
    } else {
        Some(line.subrange(1, line.len() as int))
    }
}

impl AppStateView {
    /// The state that the interface starts in.
    pub open spec fn initial() -> AppStateView {
        AppStateView {
            view_mode: ViewMode::Chat,
            input_mode: false,
            input_buffer: Seq::empty(),
            terminal_size: (80, 24),
            connection: None,
            status_message: Some(
                "Welcome to TermCom TUI! Press ':' to connect or 'h' for help."@,
            ),
            show_help: false,
        }
    }

    /// The state with the given status line.
    pub open spec fn with_status(self, text: Seq<char>) -> AppStateView {
        AppStateView { status_message: Some(text), ..self }
    }

    /// The state after a serial connection was made at the time `now`.
    pub open spec fn with_serial(self, port: Seq<char>, baud_rate: u32, now: Timestamp) -> AppStateView {
        AppStateView {
            connection: Some(serial_connection(port, baud_rate, now)),
            status_message: Some("Connected to serial port: "@ + port),
            ..self
        }
    }

    /// The state after a TCP connection was made at the time `now`.
    pub open spec fn with_tcp(self, host: Seq<char>, port: u16, now: Timestamp) -> AppStateView {
        AppStateView {
            connection: Some(tcp_connection(host, port, now)),
            status_message: Some(
                "Connected to TCP: "@ + host + ":"@ + decimal_digits(port as nat),
            ),
            ..self
        }
    }

    /// The state after the connection was closed: there is none, and the
    /// status line names the one that was closed or says that there was
    /// none.
    pub open spec fn closed(self) -> AppStateView {
        AppStateView {
            connection: None,
            status_message: Some(
                match self.connection {
                    Some(connection) => "Closed connection: "@ + connection.name,
                    None => "No connection to close"@,
                },
            ),
            ..self
        }
    }

    /// The state after a line was added to the conversation at the time
    /// `now`: with a connection, the line is added and the time is that of
    /// the connection's last activity, and a line that the user sent is
    /// followed by its echo; without one nothing changes.
    pub open spec fn with_message(self, content: Seq<char>, is_sent: bool, now: Timestamp) -> AppStateView {
        match self.connection {
            Some(connection) => {
                let line = ChatMessageView { content, timestamp: now, is_sent };
                let echo = ChatMessageView {
                    content: "Echo: "@ + content,
                    timestamp: now,
                    is_sent: false,
                };
                AppStateView {
                    connection: Some(
                        ConnectionView {
                            messages: if is_sent {
                                connection.messages.push(line).push(echo)
                            } else {
                                connection.messages.push(line)
                            },
                            last_activity: now,
                            ..connection
                        },
                    ),
                    ..self
                }
            },
            None => self,
        }
    }

    /// What the words of a command do at the time `now`: the state after
    /// them, and whether the interface is to end.  The first word names the
    /// command: `serial` with a port and a baud rate, `tcp` with a host and
    /// a port number, `close`, or `quit`.
    pub open spec fn after_words(self, parts: Seq<Seq<char>>, now: Timestamp) -> (AppStateView, bool) {
        if parts.len() == 0 {
            (self.with_status("Empty command"@), false)
        } else if parts[0] == "serial"@ {
            if parts.len() >= 3 {
                match parsed_u32(parts[2]) {
                    Some(baud_rate) => (
                        AppStateView {
                            view_mode: ViewMode::Chat,
                            ..self.with_serial(parts[1], baud_rate, now)
                        },
                        false,
                    ),
                    None => (self.with_status("Invalid baud rate"@), false),
                }
            } else {
                (self.with_status("Usage: :serial <port> <baud_rate>"@), false)
            }
        } else if parts[0] == "tcp"@ {
            if parts.len() >= 3 {
                match parsed_u16(parts[2]) {
                    Some(port) => (
                        AppStateView {
                            view_mode: ViewMode::Chat,
                            ..self.with_tcp(parts[1], port, now)
                        },
                        false,
                    ),
                    None => (self.with_status("Invalid port number"@), false),
                }
            } else {
                (self.with_status("Usage: :tcp <host> <port>"@), false)
            }
        } else if parts[0] == "close"@ {
            (self.closed(), false)
        } else if parts[0] == "quit"@ {
            (self, true)
        } else {
            (self.with_status("Unknown command: "@ + parts[0]), false)
        }
    }

    /// What a command does at the time `now`: the state after it, and
    /// whether the interface is to end.  A text that is no command is
    /// answered in the status line.
    pub open spec fn after_command(self, command: Seq<char>, now: Timestamp) -> (AppStateView, bool) {
        match command_words(command) {
            Some(parts) => self.after_words(parts, now),
            None => (self.with_status("Commands must start with ':'"@), false),
        }
    }

    /// What a key does at the time `now`: the state after it, and whether
    /// the interface is to end.
    ///
    /// While keys go into the input line, a character is added to the line
    /// and backspace takes the last one off; escape gives the line up;
    /// enter hands the line over, as a line of the conversation in the chat
    /// view where there is a connection, as a command in the command view.
    /// Otherwise `q` and escape end the interface, `h` shows or hides the
    /// help, tab changes the view, `i` opens the input line in the chat
    /// view, and a colon opens it in the command view.
    pub open spec fn after_key(self, key: Key, now: Timestamp) -> (AppStateView, bool) {
        if self.input_mode {
            match key {
                Key::Enter => {
                    let handed = AppStateView {
                        input_buffer: Seq::empty(),
                        input_mode: false,
                        ..self
                    };
                    match self.view_mode {
                        ViewMode::Chat => (
                            handed.with_message(self.input_buffer, true, now),
                            false,
                        ),
                        ViewMode::Command => handed.after_command(self.input_buffer, now),
                    }
                },
                Key::Esc => (
                    AppStateView { input_mode: false, input_buffer: Seq::empty(), ..self },
                    false,
                ),
                Key::Backspace => (
                    AppStateView {
                        input_buffer: if self.input_buffer.len() > 0 {
                            self.input_buffer.drop_last()
                        } else {
                            self.input_buffer
                        },
                        ..self
                    },
                    false,
                ),
                Key::Char(c) => (
                    AppStateView { input_buffer: self.input_buffer.push(c), ..self },
                    false,
                ),
                _ => (self, false),
            }
        } else {
            match key {
                Key::Char(c) => if c == 'q' {
                    (self, true)
                } else if c == 'h' {
                    (AppStateView { show_help: !self.show_help, ..self }, false)
                } else if c == 'i' {
                    (
                        AppStateView {
                            input_mode: self.input_mode || self.view_mode == ViewMode::Chat,
                            ..self
                        },
                        false,
                    )
                } else if c == ':' {
                    (AppStateView { view_mode: ViewMode::Command, input_mode: true, ..self }, false)
                } else {
                    (self, false)
                },
                Key::Esc => (self, true),
                Key::Tab => (
                    AppStateView {
                        view_mode: match self.view_mode {
                            ViewMode::Chat => ViewMode::Command,
                            ViewMode::Command => ViewMode::Chat,
                        },
                        ..self
                    },
                    false,
                ),
                _ => (self, false),
            }
        }
    }
}

/// What follows the colon at the start of a line; none where the line is
/// empty or starts with another character.
pub fn command_body(line: &str) -> (body: Option<String>)
    ensures
        body.deep_view() == body_of(line@),
{
    let length = line.unicode_len();
    if length == 0 || line.get_char(0) != ':' {
        return None;
    }
    Some(String::from_str(line.substring_char(1, length)))
}

impl AppState {
    /// The state that the interface starts in.
    pub fn new() -> (state: AppState)
        ensures
            state@ == AppStateView::initial(),
    {
        AppState {
            view_mode: ViewMode::Chat,
            input_mode: false,
            input_buffer: String::new(),
            terminal_size: (80, 24),
            connection: None,
            status_message: Some(
                String::from_str("Welcome to TermCom TUI! Press ':' to connect or 'h' for help."),
            ),
            show_help: false,
        }
    }

    /// Shows a serial connection made at the time `now` in place of the one
    /// that is shown.
    pub fn create_serial_connection_at(&mut self, port: String, baud_rate: u32, now: Timestamp)
        ensures
            final(self)@ == old(self)@.with_serial(port@, baud_rate, now),
    {
        let messages: Vec<ChatMessage> = Vec::new();
        assert(messages.deep_view() =~= Seq::<ChatMessageView>::empty());
        let connection = Connection {
            name: String::from_str("Serial ").concat(port.as_str()),
            config_info: String::from_str("Port: ").concat(port.as_str()).concat(", Baud: ").concat(
                decimal_text(baud_rate as u64).as_str(),
            ),
            connected: true,
            messages,
            last_activity: now,
        };
        self.connection = Some(connection);
        self.status_message = Some(
            String::from_str("Connected to serial port: ").concat(port.as_str()),
        );
    }

    /// Shows a serial connection in place of the one that is shown.
    pub fn create_serial_connection(&mut self, port: String, baud_rate: u32) -> (r: Result<
        (),
        TermComError,
    >)
        ensures
            r is Ok,
            exists|now: Timestamp| final(self)@ == old(self)@.with_serial(port@, baud_rate, now),
    {
        let now = Timestamp::now();
        self.create_serial_connection_at(port, baud_rate, now);
        assert(self@ == old(self)@.with_serial(port@, baud_rate, now));
        Ok(())
    }

    /// Shows a TCP connection made at the time `now` in place of the one
    /// that is shown.
    pub fn create_tcp_connection_at(&mut self, host: String, port: u16, now: Timestamp)
        ensures
            final(self)@ == old(self)@.with_tcp(host@, port, now),
    {
        let messages: Vec<ChatMessage> = Vec::new();
        assert(messages.deep_view() =~= Seq::<ChatMessageView>::empty());
        let number = decimal_text(port as u64);
        let connection = Connection {
            name: String::from_str("TCP ").concat(host.as_str()).concat(":").concat(
                number.as_str(),
            ),
            config_info: String::from_str("Host: ").concat(host.as_str()).concat(", Port: ").concat(
                number.as_str(),
            ),
            connected: true,
            messages,
            last_activity: now,
        };
        self.connection = Some(connection);
        self.status_message = Some(
            String::from_str("Connected to TCP: ").concat(host.as_str()).concat(":").concat(
                number.as_str(),
            ),
        );
    }

    /// Shows a TCP connection in place of the one that is shown.
    pub fn create_tcp_connection(&mut self, host: String, port: u16) -> (r: Result<
        (),
        TermComError,
    >)
        ensures
            r is Ok,
            exists|now: Timestamp| final(self)@ == old(self)@.with_tcp(host@, port, now),
    {
        let now = Timestamp::now();
        self.create_tcp_connection_at(host, port, now);
        assert(self@ == old(self)@.with_tcp(host@, port, now));
        Ok(())
    }

    /// Adds a line to the conversation at the time `now`; a line that the
    /// user sent is followed by its echo.
    pub fn add_message_at(&mut self, content: String, is_sent: bool, now: Timestamp)
        ensures
            final(self)@ == old(self)@.with_message(content@, is_sent, now),
    {
        if let Some(connection) = &mut self.connection {
            let ghost before = connection.messages.deep_view();
            let ghost line = ChatMessageView { content: content@, timestamp: now, is_sent };
            let echo = String::from_str("Echo: ").concat(content.as_str());
            connection.messages.push(ChatMessage { content, timestamp: now, is_sent });
            connection.last_activity = now;
            if is_sent {
                connection.messages.push(
                    ChatMessage { content: echo, timestamp: now, is_sent: false },
                );
                assert(connection.messages.deep_view() =~= before.push(line).push(
                    ChatMessageView {
                        content: "Echo: "@ + content@,
                        timestamp: now,
                        is_sent: false,
                    },
                ));
            } else {
                assert(connection.messages.deep_view() =~= before.push(line));
            }
        }
    }

    /// Adds a line to the conversation, with the time read off the system
    /// clock; a line that the user sent is followed by its echo.
    pub fn add_message(&mut self, content: String, is_sent: bool) -> (r: Result<(), TermComError>)
        ensures
            r is Ok,
            exists|now: Timestamp| final(self)@ == old(self)@.with_message(content@, is_sent, now),
    {
        let now = Timestamp::now();
        self.add_message_at(content, is_sent, now);
        assert(self@ == old(self)@.with_message(content@, is_sent, now));
        Ok(())
    }

    /// Closes the connection that is shown.
    pub fn close_connection(&mut self) -> (r: Result<(), TermComError>)
        ensures
            r is Ok,
            final(self)@ == old(self)@.closed(),
    {
        let text = match &self.connection {
            Some(connection) => String::from_str("Closed connection: ").concat(
                connection.name.as_str(),
            ),
            None => String::from_str("No connection to close"),
        };
        self.connection = None;
        self.status_message = Some(text);
        Ok(())
    }

    /// Brings the connection up to date.  There is nothing to bring up to
    /// date yet.
    pub fn update_connection(&mut self) -> (r: Result<(), TermComError>)
        ensures
            r is Ok,
            final(self)@ == old(self)@,
    {
        Ok(())
    }

    /// The connection that is shown.
    pub fn get_connection(&self) -> (connection: Option<&Connection>)
        ensures
            match connection {
                Some(connection) => self@.connection == Some(connection@),
                None => self@.connection is None,
            },
    {
        self.connection.as_ref()
    }

    /// The connection that is shown, for changing it.
    pub fn get_connection_mut(&mut self) -> (connection: Option<&mut Connection>)
        ensures
            match connection {
                Some(connection) => old(self).connection == Some(*connection)
                    && final(self).connection == Some(*final(connection)),
                None => old(self).connection is None && final(self).connection is None,
            },
            final(self).view_mode == old(self).view_mode,
            final(self).input_mode == old(self).input_mode,
            final(self).input_buffer == old(self).input_buffer,
            final(self).terminal_size == old(self).terminal_size,
            final(self).status_message == old(self).status_message,
            final(self).show_help == old(self).show_help,
    {
        self.connection.as_mut()
    }

    /// Sets the status line.
    pub fn set_status_message(&mut self, message: String)
        ensures
            final(self)@ == old(self)@.with_status(message@),
    {
        self.status_message = Some(message);
    }

    /// Clears the status line.
    pub fn clear_status_message(&mut self)
        ensures
            final(self)@ == (AppStateView { status_message: None, ..old(self)@ }),
    {
        self.status_message = None;
    }

    /// Shows the help where it is hidden and hides it where it is shown.
    pub fn toggle_help(&mut self)
        ensures
            final(self)@ == (AppStateView { show_help: !old(self)@.show_help, ..old(self)@ }),
    {
        self.show_help = !self.show_help;
    }

    /// Carries out the command that the given words make up, at the time
    /// `now`, and says whether the interface is to end.
    pub fn apply_command_words(&mut self, parts: &Vec<String>, now: Timestamp) -> (quit: bool)
        ensures
            (final(self)@, quit) == old(self)@.after_words(parts.deep_view(), now),
    {
        if parts.len() == 0 {
            self.set_status_message(String::from_str("Empty command"));
            return false;
        }
        assert(parts.deep_view()[0] == parts[0]@);
        if text_eq(parts[0].as_str(), "serial") {
            if parts.len() >= 3 {
                assert(parts.deep_view()[1] == parts[1]@);
                assert(parts.deep_view()[2] == parts[2]@);
                match parse_u32(parts[2].as_str()) {
                    Some(baud_rate) => {
                        self.create_serial_connection_at(parts[1].clone(), baud_rate, now);
                        self.view_mode = ViewMode::Chat;
                    },
                    None => {
                        self.set_status_message(String::from_str("Invalid baud rate"));
                    },
                }
            } else {
                self.set_status_message(String::from_str("Usage: :serial <port> <baud_rate>"));
            }
            false
        } else if text_eq(parts[0].as_str(), "tcp") {
            if parts.len() >= 3 {
                assert(parts.deep_view()[1] == parts[1]@);
                assert(parts.deep_view()[2] == parts[2]@);
                match parse_u16(parts[2].as_str()) {
                    Some(port) => {
                        self.create_tcp_connection_at(parts[1].clone(), port, now);
                        self.view_mode = ViewMode::Chat;
                    },
                    None => {
                        self.set_status_message(String::from_str("Invalid port number"));
                    },
                }
            } else {
                self.set_status_message(String::from_str("Usage: :tcp <host> <port>"));
            }
            false
        } else if text_eq(parts[0].as_str(), "close") {
            let _ = self.close_connection();
            false
        } else if text_eq(parts[0].as_str(), "quit") {
            true
        } else {
            self.set_status_message(
                String::from_str("Unknown command: ").concat(parts[0].as_str()),
            );
            false
        }
    }

    /// Carries a command out at the time `now` and says whether the
    /// interface is to end.
    pub fn handle_command_at(&mut self, command: String, now: Timestamp) -> (quit: bool)
        ensures
            (final(self)@, quit) == old(self)@.after_command(command@, now),
    {
        let line = trim_text(command.as_str());
        match command_body(line.as_str()) {
            Some(body) => {
                let parts = split_words(body.as_str());
                self.apply_command_words(&parts, now)
            },
            None => {
                self.set_status_message(String::from_str("Commands must start with ':'"));
                false
            },
        }
    }

    /// Carries a command out and says whether the interface is to end.
    pub fn handle_command(&mut self, command: String) -> (quit: bool)
        ensures
            exists|now: Timestamp| (final(self)@, quit) == old(self)@.after_command(command@, now),
    {
        let now = Timestamp::now();
        let quit = self.handle_command_at(command, now);
        assert((self@, quit) == old(self)@.after_command(command@, now));
        quit
    }

    /// Does what a key asks for at the time `now` and says whether the
    /// interface is to end.
    pub fn handle_key_event_at(&mut self, key: Key, now: Timestamp) -> (quit: bool)
        ensures
            (final(self)@, quit) == old(self)@.after_key(key, now),
    {
        if self.input_mode {
            match key {
                Key::Enter => {
                    let input = self.input_buffer.clone();
                    self.input_buffer = String::new();
                    self.input_mode = false;
                    match self.view_mode {
                        ViewMode::Chat => {
                            self.add_message_at(input, true, now);
                            false
                        },
                        ViewMode::Command => self.handle_command_at(input, now),
                    }
                },
                Key::Esc => {
                    self.input_mode = false;
                    self.input_buffer = String::new();
                    false
                },
                Key::Backspace => {
                    pop_char(&mut self.input_buffer);
                    false
                },
                Key::Char(c) => {
                    push_char(&mut self.input_buffer, c);
                    false
                },
                _ => false,
            }
        } else {
            match key {
                Key::Char(c) => {
                    if c == 'q' {
                        return true;
                    }
                    if c == 'h' {
                        self.toggle_help();
                    } else if c == 'i' {
                        if self.view_mode == ViewMode::Chat {
                            self.input_mode = true;
                        }
                    } else if c == ':' {
                        self.view_mode = ViewMode::Command;
                        self.input_mode = true;
                    }
                    false
                },
                Key::Esc => true,
                Key::Tab => {
                    self.view_mode = match self.view_mode {
                        ViewMode::Chat => ViewMode::Command,
                        ViewMode::Command => ViewMode::Chat,
                    };
                    false
                },
                _ => false,
            }
        }
    }

    /// Does what a key asks for and says whether the interface is to end.
    pub fn handle_key_event(&mut self, key: Key) -> (quit: bool)
        ensures
            exists|now: Timestamp| (final(self)@, quit) == old(self)@.after_key(key, now),
    {
        let now = Timestamp::now();
        let quit = self.handle_key_event_at(key, now);
        assert((self@, quit) == old(self)@.after_key(key, now));
        quit
    }
}

/// A line of text that is being edited, with the place of the cursor.
#[derive(Debug)]
pub struct InputBuffer {
    content: Vec<char>,
    cursor_position: usize,
}

/// A line that is being edited, as a value.
pub struct InputBufferView {
    pub content: Seq<char>,
    /// The number of characters before the cursor.
    pub cursor: nat,
}

impl InputBufferView {
    /// What holds of every line that this module builds: the cursor stands
    /// within the line or at its end.
    pub open spec fn wf(self) -> bool {
        self.cursor <= self.content.len()
    }

    /// The line after a key: a character goes in at the cursor, backspace
    /// takes out the character before the cursor and delete the one at it,
    /// and the other keys move the cursor.
    pub open spec fn after_key(self, key: Key) -> InputBufferView {
        match key {
            Key::Char(c) => InputBufferView {
                content: self.content.insert(self.cursor as int, c),
                cursor: self.cursor + 1,
            },
            Key::Backspace => if self.cursor > 0 {
                InputBufferView {
                    content: self.content.remove(self.cursor - 1),
                    cursor: (self.cursor - 1) as nat,
                }
            } else {
                self
            },
            Key::Delete => if self.cursor < self.content.len() {
                InputBufferView { content: self.content.remove(self.cursor as int), ..self }
            } else {
                self
            },
            Key::Left => InputBufferView {
                cursor: if self.cursor > 0 {
                    (self.cursor - 1) as nat
                } else {
                    self.cursor
                },
                ..self
            },
            Key::Right => InputBufferView {
                cursor: if self.cursor < self.content.len() {
                    self.cursor + 1
                } else {
                    self.cursor
                },
                ..self
            },
            Key::Home => InputBufferView { cursor: 0, ..self },
            Key::End => InputBufferView { cursor: self.content.len(), ..self },
            _ => self,
        }
    }

    /// Whether the line takes the key.
    pub open spec fn takes(key: Key) -> bool {
        key is Char || key is Backspace || key is Delete || key is Left || key is Right
            || key is Home || key is End
    }
}

impl View for InputBuffer {
    type V = InputBufferView;

    closed spec fn view(&self) -> InputBufferView {
        InputBufferView { content: self.content@, cursor: self.cursor_position as nat }
    }
}

impl InputBuffer {
    /// Whether the cursor stands within the line or at its end.
    pub closed spec fn wf(&self) -> bool {
        self.cursor_position <= self.content@.len()
    }

    /// An empty line.
    pub fn new() -> (buffer: InputBuffer)
        ensures
            buffer@ == (InputBufferView { content: Seq::empty(), cursor: 0 }),
            buffer.wf(),
    {
        InputBuffer { content: Vec::new(), cursor_position: 0 }
    }

    /// Does what a key asks for and says whether the line took the key.
    pub fn handle_key(&mut self, key: Key) -> (taken: bool)
        requires
            old(self).wf(),
        ensures
            final(self).wf(),
            final(self)@ == old(self)@.after_key(key),
            taken == InputBufferView::takes(key),
    {
        match key {
            Key::Char(c) => {
                self.insert_char(c);
                true
            },
            Key::Backspace => {
                self.delete_char();
                true
            },
            Key::Delete => {
                self.delete_char_forward();
                true
            },
            Key::Left => {
                self.move_cursor_left();
                true
            },
            Key::Right => {
                self.move_cursor_right();
                true
            },
            Key::Home => {
                self.move_to_start();
                true
            },
            Key::End => {
                self.move_to_end();
                true
            },
            _ => false,
        }
    }

    /// The text of the line.
    pub fn content(&self) -> (text: String)
        ensures
            text@ == self@.content,
    {
        text_of(&self.content)
    }

    /// The number of characters before the cursor.
    pub fn cursor_position(&self) -> (cursor: usize)
        ensures
            cursor == self@.cursor,
    {
        self.cursor_position
    }

    /// Empties the line.
    pub fn clear(&mut self)
        ensures
            final(self).wf(),
            final(self)@ == (InputBufferView { content: Seq::empty(), cursor: 0 }),
    {
        self.content.clear();
        self.cursor_position = 0;
    }

    /// Whether the line is empty.
    pub fn is_empty(&self) -> (empty: bool)
        ensures
            empty == (self@.content.len() == 0),
    {
        self.content.len() == 0
    }

    /// The number of characters in the line.
    pub fn len(&self) -> (n: usize)
        ensures
            n == self@.content.len(),
    {
        self.content.len()
    }

    /// Puts a character in at the cursor and moves the cursor behind it.
    pub fn insert_char(&mut self, c: char)
        requires
            old(self).wf(),
        ensures
            final(self).wf(),
            final(self)@ == old(self)@.after_key(Key::Char(c)),
    {
        self.content.insert(self.cursor_position, c);
        let length = self.content.len();
        assert(self.cursor_position < length);
        self.cursor_position = self.cursor_position + 1;
    }

    /// Takes out the character before the cursor.
    pub fn delete_char(&mut self)
        requires
            old(self).wf(),
        ensures
            final(self).wf(),
            final(self)@ == old(self)@.after_key(Key::Backspace),
    {
        if self.cursor_position > 0 {
            self.cursor_position = self.cursor_position - 1;
            self.content.remove(self.cursor_position);
        }
    }

    /// Takes out the character at the cursor.
    pub fn delete_char_forward(&mut self)
        requires
            old(self).wf(),
        ensures
            final(self).wf(),
            final(self)@ == old(self)@.after_key(Key::Delete),
    {
        if self.cursor_position < self.content.len() {
            self.content.remove(self.cursor_position);
        }
    }

    /// Moves the cursor one character to the left.
    pub fn move_cursor_left(&mut self)
        requires
            old(self).wf(),
        ensures
            final(self).wf(),
            final(self)@ == old(self)@.after_key(Key::Left),
    {
        if self.cursor_position > 0 {
            self.cursor_position = self.cursor_position - 1;
        }
    }

    /// Moves the cursor one character to the right.
    pub fn move_cursor_right(&mut self)
        requires
            old(self).wf(),
        ensures
            final(self).wf(),
            final(self)@ == old(self)@.after_key(Key::Right),
    {
        if self.cursor_position < self.content.len() {
            self.cursor_position = self.cursor_position + 1;
        }
    }

    /// Moves the cursor to the start of the line.
    pub fn move_to_start(&mut self)
        ensures
            final(self).wf(),
            final(self)@ == old(self)@.after_key(Key::Home),
    {
        self.cursor_position = 0;
    }

    /// Moves the cursor to the end of the line.
    pub fn move_to_end(&mut self)
        ensures
            final(self).wf(),
            final(self)@ == old(self)@.after_key(Key::End),
    {
        self.cursor_position = self.content.len();
    }

    /// The text of the line.
    pub fn to_string(&self) -> (text: String)
        ensures
            text@ == self@.content,
    {
        self.content()
    }
}

impl Default for InputBuffer {
    fn default() -> (buffer: InputBuffer)
        ensures
            buffer@ == (InputBufferView { content: Seq::empty(), cursor: 0 }),
            buffer.wf(),
    {
        InputBuffer::new()
    }
}

impl Clone for InputBuffer {
    fn clone(&self) -> (copy: Self)
        ensures
            copy@ == self@,
            self.wf() ==> copy.wf(),
    {
        let content = self.content.clone();
        assert(content@ =~= self.content@);
        InputBuffer { content, cursor_position: self.cursor_position }
    }
}

/// A panel of the interface.
#[derive(Clone, Copy, Debug, PartialEq, Eq, Structural)]
pub enum ActivePanel {
    Sessions,
    Chat,
    Connect,
}

/// What the interface is asked to do.
#[derive(Debug)]
#[allow(inconsistent_fields)]
pub enum AppEvent {
    Quit,
    SwitchPanel(ActivePanel),
    ToggleInputMode,
    SendMessage(String),
    ConnectSerial { port: String, baud_rate: u32 },
    ConnectTcp { host: String, port: u16 },
    SelectSession(String),
    CloseSession(String),
}

/// A request with its texts as sequences of characters.
#[allow(inconsistent_fields)]
pub enum AppEventView {
    Quit,
    SwitchPanel(ActivePanel),
    ToggleInputMode,
    SendMessage(Seq<char>),
    ConnectSerial { port: Seq<char>, baud_rate: u32 },
    ConnectTcp { host: Seq<char>, port: u16 },
    SelectSession(Seq<char>),
    CloseSession(Seq<char>),
}

impl View for AppEvent {
    type V = AppEventView;

    open spec fn view(&self) -> AppEventView {
        match self {
            AppEvent::Quit => AppEventView::Quit,
            AppEvent::SwitchPanel(panel) => AppEventView::SwitchPanel(*panel),
            AppEvent::ToggleInputMode => AppEventView::ToggleInputMode,
            AppEvent::SendMessage(text) => AppEventView::SendMessage(text@),
            AppEvent::ConnectSerial { port, baud_rate } => AppEventView::ConnectSerial {
                port: port@,
                baud_rate: *baud_rate,
            },
            AppEvent::ConnectTcp { host, port } => AppEventView::ConnectTcp {
                host: host@,
                port: *port,
            },
            AppEvent::SelectSession(id) => AppEventView::SelectSession(id@),
            AppEvent::CloseSession(id) => AppEventView::CloseSession(id@),
        }
    }
}

/// The request that the words of a line typed in the connect panel stand
/// for, where `kind` is the first word in lower case: for `serial` a port
/// and a baud rate, for `tcp` a host and a port number.  Fewer than three
/// words, another first word or a number that cannot be read stand for
/// nothing.
pub open spec fn request_of_words(kind: Seq<char>, parts: Seq<Seq<char>>) -> Option<AppEventView> {
    if parts.len() < 3 {
        None
    } else if kind == "serial"@ {
        match parsed_u32(parts[2]) {
            Some(baud_rate) => Some(AppEventView::ConnectSerial { port: parts[1], baud_rate }),
            None => None,
        }
    } else if kind == "tcp"@ {
        match parsed_u16(parts[2]) {
            Some(port) => Some(AppEventView::ConnectTcp { host: parts[1], port }),
            None => None,
        }
    } else {
        None
    }
}

/// The request that a line typed in the connect panel stands for: the
/// request of its words, with the first word taken in lower case.
pub open spec fn connect_request(input: Seq<char>) -> Option<AppEventView> {
    let parts = words_of(input);
    if parts.len() < 2 {
        None
    } else {
        request_of_words(lowercased(parts[0]), parts)
    }
}

/// The view of a request that may be missing.
pub open spec fn event_view(event: Option<AppEvent>) -> Option<AppEventView> {
    match event {
        Some(event) => Some(event@),
        None => None,
    }
}

/// The first index at which `key` stands in `keys`, if it stands there at
/// all.
pub open spec fn first_index_of(keys: Seq<Seq<char>>, key: Seq<char>) -> Option<int>
    decreases keys.len(),
{
    if keys.len() == 0 {
        None
    } else {
        match first_index_of(keys.drop_last(), key) {
            Some(i) => Some(i),
            None => if keys.last() == key {
                Some(keys.len() - 1)
            } else {
                None
            },
        }
    }
}

/// `first_index_of` gives a place where the key stands and before which it
/// does not stand; it gives none only where the key stands nowhere.
pub proof fn lemma_first_index_of(keys: Seq<Seq<char>>, key: Seq<char>)
    ensures
        match first_index_of(keys, key) {
            Some(i) => {
                &&& 0 <= i < keys.len()
                &&& keys[i] == key
                &&& forall|j: int| 0 <= j < i ==> keys[j] != key
            },
            None => forall|j: int| 0 <= j < keys.len() ==> keys[j] != key,
        },
    decreases keys.len(),
{
    if keys.len() > 0 {
        let front = keys.drop_last();
        lemma_first_index_of(front, key);
        assert forall|j: int| 0 <= j < front.len() implies front[j] == keys[j] by {}
        match first_index_of(front, key) {
            Some(i) => {
                assert forall|j: int| 0 <= j < i implies keys[j] != key by {
                    assert(front[j] != key);
                }
            },
            None => {
                assert forall|j: int| 0 <= j < front.len() implies keys[j] != key by {
                    assert(front[j] != key);
                }
            },
        }
    }
}

/// The place of the selected session in the list: that of the first entry
/// with its identifier, and the first place where nothing is selected or the
/// selected session is not in the list.
pub open spec fn selected_index(ids: Seq<Seq<char>>, selected: Option<Seq<char>>) -> int {
    match selected {
        Some(id) => match first_index_of(ids, id) {
            Some(i) => i,
            None => 0,
        },
        None => 0,
    }
}

/// The session that is selected after a step up the list: the one before
/// the selected one, and the last one from the first; the selection stays
/// where the list is empty.
pub open spec fn previous_selection(ids: Seq<Seq<char>>, selected: Option<Seq<char>>) -> Option<
    Seq<char>,
> {
    if ids.len() == 0 {
        selected
    } else {
        let current = selected_index(ids, selected);
        Some(
            ids[if current == 0 {
                ids.len() - 1
            } else {
                current - 1
            }],
        )
    }
}

/// The session that is selected after a step down the list: the one after
/// the selected one, and the first one from the last; the selection stays
/// where the list is empty.
pub open spec fn next_selection(ids: Seq<Seq<char>>, selected: Option<Seq<char>>) -> Option<
    Seq<char>,
> {
    if ids.len() == 0 {
        selected
    } else {
        let current = selected_index(ids, selected);
        Some(ids[(current + 1) % (ids.len() as int)])
    }
}

/// Turns keys and lines into requests.
#[derive(Clone, Copy, Debug)]
pub struct EventHandler;

impl EventHandler {
    /// A handler.
    pub fn new() -> (handler: EventHandler) {
        EventHandler
    }

    /// The request that the words of a line typed in the connect panel
    /// stand for, where `kind` is the first word in lower case.
    pub fn connect_event(&self, kind: &str, parts: &Vec<String>) -> (event: Option<AppEvent>)
        ensures
            event_view(event) == request_of_words(kind@, parts.deep_view()),
    {
        if parts.len() < 3 {
            return None;
        }
        assert(parts.deep_view()[1] == parts[1]@);
        assert(parts.deep_view()[2] == parts[2]@);
        if text_eq(kind, "serial") {
            match parse_u32(parts[2].as_str()) {
                Some(baud_rate) => Some(
                    AppEvent::ConnectSerial { port: parts[1].clone(), baud_rate },
                ),
                None => None,
            }
        } else if text_eq(kind, "tcp") {
            match parse_u16(parts[2].as_str()) {
                Some(port) => Some(AppEvent::ConnectTcp { host: parts[1].clone(), port }),
                None => None,
            }
        } else {
            None
        }
    }

    /// The request that a line typed in the connect panel stands for.
    pub fn handle_connect_input(&self, input: String) -> (r: Result<Option<AppEvent>, TermComError>)
        ensures
            r matches Ok(event) && event_view(event) == connect_request(input@),
    {
        let parts = split_words(input.as_str());
        if parts.len() < 2 {
            return Ok(None);
        }
        assert(parts.deep_view()[0] == parts[0]@);
        let kind = lowercase(parts[0].as_str());
        Ok(self.connect_event(kind.as_str(), &parts))
    }

    fn current_index(ids: &Vec<String>, selected: &Option<String>) -> (index: usize)
        requires
            ids.len() > 0,
        ensures
            index == selected_index(ids.deep_view(), selected.deep_view()),
            index < ids.len(),
    {
        match selected {
            Some(id) => {
                proof {
                    lemma_first_index_of(ids.deep_view(), id@);
                }
                let mut i: usize = 0;
                while i < ids.len()
                    invariant
                        i <= ids.len(),
                        selected.deep_view() == Some(id@),
                        forall|j: int| 0 <= j < i ==> ids.deep_view()[j] != id@,
                    decreases ids.len() - i,
                {
                    if text_eq(ids[i].as_str(), id.as_str()) {
                        proof {
                            assert(ids.deep_view()[i as int] == id@);
                            lemma_first_index_of(ids.deep_view(), id@);
                        }
                        return i;
                    }
                    i = i + 1;
                }
                0
            },
            None => 0,
        }
    }

    /// The session that is selected after a step up the list.
    pub fn select_previous_session(&self, ids: &Vec<String>, selected: Option<String>) -> (chosen:
        Option<String>)
        ensures
            chosen.deep_view() == previous_selection(ids.deep_view(), selected.deep_view()),
    {
        if ids.len() == 0 {
            return selected;
        }
        let current = Self::current_index(ids, &selected);
        let chosen = if current == 0 {
            ids.len() - 1
        } else {
            current - 1
        };
        assert(ids.deep_view()[chosen as int] == ids[chosen as int]@);
        Some(ids[chosen].clone())
    }

    /// The session that is selected after a step down the list.
    pub fn select_next_session(&self, ids: &Vec<String>, selected: Option<String>) -> (chosen:
        Option<String>)
        ensures
            chosen.deep_view() == next_selection(ids.deep_view(), selected.deep_view()),
    {
        if ids.len() == 0 {
            return selected;
        }
        let current = Self::current_index(ids, &selected);
        let chosen = if current + 1 == ids.len() {
            0
        } else {
            current + 1
        };
        assert(chosen == (current + 1) % (ids.len() as int)) by {
            if current + 1 < ids.len() {
                vstd::arithmetic::div_mod::lemma_small_mod((current + 1) as nat, ids.len() as nat);
            } else {
                vstd::arithmetic::div_mod::lemma_mod_self_0(ids.len() as int);
            }
        }
        assert(ids.deep_view()[chosen as int] == ids[chosen as int]@);
        Some(ids[chosen].clone())
    }
}

/// The state of an interface with panels: a list of sessions, a
/// conversation, and a form for new connections.
#[derive(Debug)]
pub struct PanelState {
    /// Whether keys go into the input line.
    pub input_mode: bool,
    pub show_help: bool,
    pub input_buffer: String,
    pub active_panel: ActivePanel,
    /// The identifier of the session that is selected.
    pub selected_session: Option<String>,
    /// The identifiers of the sessions, in the order of the list.
    pub sessions: Vec<String>,
}

/// The state of an interface with panels, as a value.
pub struct PanelStateView {
    pub input_mode: bool,
    pub show_help: bool,
    pub input_buffer: Seq<char>,
    pub active_panel: ActivePanel,
    pub selected_session: Option<Seq<char>>,
    pub sessions: Seq<Seq<char>>,
}

impl View for PanelState {
    type V = PanelStateView;

    open spec fn view(&self) -> PanelStateView {
        PanelStateView {
            input_mode: self.input_mode,
            show_help: self.show_help,
            input_buffer: self.input_buffer@,
            active_panel: self.active_panel,
            selected_session: self.selected_session.deep_view(),
            sessions: self.sessions.deep_view(),
        }
    }
}

impl ActivePanel {
    /// The panel that tab leads to: from the sessions to the conversation,
    /// from there to the form, and from there to the sessions again.
    pub open spec fn next(self) -> ActivePanel {
        match self {
            ActivePanel::Sessions => ActivePanel::Chat,
            ActivePanel::Chat => ActivePanel::Connect,
            ActivePanel::Connect => ActivePanel::Sessions,
        }
    }
}

impl PanelStateView {
    /// What a line does that is handed over from the input line: the input
    /// line is closed and emptied, and the line goes, as a message in the
    /// conversation, as a request to connect in the form, and to nobody
    /// where it is empty or the sessions are shown.
    pub open spec fn after_submit(self, line: Seq<char>) -> (PanelStateView, Option<AppEventView>) {
        let closed = PanelStateView { input_buffer: Seq::empty(), input_mode: false, ..self };
        if line.len() == 0 {
            (closed, None)
        } else {
            match self.active_panel {
                ActivePanel::Chat => (closed, Some(AppEventView::SendMessage(line))),
                ActivePanel::Connect => (closed, connect_request(line)),
                ActivePanel::Sessions => (closed, None),
            }
        }
    }

    /// What a key does while keys go into the input line: a character is
    /// added and backspace takes the last one off; enter hands the text of
    /// the line over without the white space at its ends.
    pub open spec fn after_input_key(self, key: Key) -> (PanelStateView, Option<AppEventView>) {
        match key {
            Key::Enter => self.after_submit(trimmed(self.input_buffer)),
            Key::Backspace => (
                PanelStateView {
                    input_buffer: if self.input_buffer.len() > 0 {
                        self.input_buffer.drop_last()
                    } else {
                        self.input_buffer
                    },
                    ..self
                },
                None,
            ),
            Key::Char(c) => (PanelStateView { input_buffer: self.input_buffer.push(c), ..self }, None),
            _ => (self, None),
        }
    }

    /// What a key does in the panel that is active.  In the list of
    /// sessions, up and `k` select the session before, down and `j` the one
    /// after, enter leads to the conversation, `d` asks to close the
    /// selected session, and `n` leads to the form.  In the conversation and
    /// in the form, `i` asks for the input line.
    pub open spec fn after_panel_key(self, key: Key) -> (PanelStateView, Option<AppEventView>) {
        match self.active_panel {
            ActivePanel::Sessions => {
                if key == Key::Up || key == Key::Char('k') {
                    (
                        PanelStateView {
                            selected_session: previous_selection(
                                self.sessions,
                                self.selected_session,
                            ),
                            ..self
                        },
                        None,
                    )
                } else if key == Key::Down || key == Key::Char('j') {
                    (
                        PanelStateView {
                            selected_session: next_selection(self.sessions, self.selected_session),
                            ..self
                        },
                        None,
                    )
                } else if key == Key::Enter {
                    (self, Some(AppEventView::SwitchPanel(ActivePanel::Chat)))
                } else if key == Key::Char('d') {
                    match self.selected_session {
                        Some(id) => (self, Some(AppEventView::CloseSession(id))),
                        None => (self, None),
                    }
                } else if key == Key::Char('n') {
                    (self, Some(AppEventView::SwitchPanel(ActivePanel::Connect)))
                } else {
                    (self, None)
                }
            },
            _ => if key == Key::Char('i') {
                (self, Some(AppEventView::ToggleInputMode))
            } else {
                (self, None)
            },
        }
    }

    /// What a key does: the state after it, and what the interface is asked
    /// to do.  While keys go into the input line, the line takes them.
    /// While the help is shown, `h` and escape hide it and no other key does
    /// anything.  Else `h` shows the help, `q` asks to quit, tab asks for
    /// the next panel, and every other key goes to the active panel.
    pub open spec fn after_key(self, key: Key) -> (PanelStateView, Option<AppEventView>) {
        if self.input_mode {
            self.after_input_key(key)
        } else if self.show_help {
            if key == Key::Char('h') || key == Key::Esc {
                (PanelStateView { show_help: false, ..self }, None)
            } else {
                (self, None)
            }
        } else if key == Key::Char('h') {
            (PanelStateView { show_help: true, ..self }, None)
        } else if key == Key::Char('q') {
            (self, Some(AppEventView::Quit))
        } else if key == Key::Tab {
            (self, Some(AppEventView::SwitchPanel(self.active_panel.next())))
        } else {
            self.after_panel_key(key)
        }
    }
}

impl EventHandler {
    /// Takes a line over from the input line: closes and empties the input
    /// line, and gives what the interface is asked to do with the line.
    pub fn submit_line(&self, line: String, state: &mut PanelState) -> (r: Result<
        Option<AppEvent>,
        TermComError,
    >)
        ensures
            r matches Ok(event) && (final(state)@, event_view(event)) == old(state)@.after_submit(
                line@,
            ),
    {
        state.input_buffer = String::new();
        state.input_mode = false;
        if line.as_str().unicode_len() == 0 {
            return Ok(None);
        }
        match state.active_panel {
            ActivePanel::Chat => Ok(Some(AppEvent::SendMessage(line))),
            ActivePanel::Connect => self.handle_connect_input(line),
            ActivePanel::Sessions => Ok(None),
        }
    }

    fn handle_input_mode(&self, key: Key, state: &mut PanelState) -> (r: Result<
        Option<AppEvent>,
        TermComError,
    >)
        ensures
            r matches Ok(event) && (final(state)@, event_view(event)) == old(
                state,
            )@.after_input_key(key),
    {
        match key {
            Key::Enter => {
                let input = trim_text(state.input_buffer.as_str());
                self.submit_line(input, state)
            },
            Key::Backspace => {
                pop_char(&mut state.input_buffer);
                Ok(None)
            },
            Key::Char(c) => {
                push_char(&mut state.input_buffer, c);
                Ok(None)
            },
            _ => Ok(None),
        }
    }

    fn handle_panel_specific(&self, key: Key, state: &mut PanelState) -> (r: Result<
        Option<AppEvent>,
        TermComError,
    >)
        ensures
            r matches Ok(event) && (final(state)@, event_view(event)) == old(
                state,
            )@.after_panel_key(key),
    {
        match state.active_panel {
            ActivePanel::Sessions => {
                if key == Key::Up || key == Key::Char('k') {
                    let selected = copy_option(&state.selected_session);
                    state.selected_session = self.select_previous_session(&state.sessions, selected);
                    Ok(None)
                } else if key == Key::Down || key == Key::Char('j') {
                    let selected = copy_option(&state.selected_session);
                    state.selected_session = self.select_next_session(&state.sessions, selected);
                    Ok(None)
                } else if key == Key::Enter {
                    Ok(Some(AppEvent::SwitchPanel(ActivePanel::Chat)))
                } else if key == Key::Char('d') {
                    match &state.selected_session {
                        Some(id) => Ok(Some(AppEvent::CloseSession(id.clone()))),
                        None => Ok(None),
                    }
                } else if key == Key::Char('n') {
                    Ok(Some(AppEvent::SwitchPanel(ActivePanel::Connect)))
                } else {
                    Ok(None)
                }
            },
            _ => {
                if key == Key::Char('i') {
                    Ok(Some(AppEvent::ToggleInputMode))
                } else {
                    Ok(None)
                }
            },
        }
    }

    /// Does what a key asks for, and gives what the interface is asked to
    /// do.
    pub fn handle_key_event(&self, key: Key, state: &mut PanelState) -> (r: Result<
        Option<AppEvent>,
        TermComError,
    >)
        ensures
            r matches Ok(event) && (final(state)@, event_view(event)) == old(state)@.after_key(key),
    {
        if state.input_mode {
            return self.handle_input_mode(key, state);
        }
        if state.show_help {
            if key == Key::Char('h') || key == Key::Esc {
                state.show_help = false;
            }
            return Ok(None);
        }
        if key == Key::Char('h') {
            state.show_help = true;
            Ok(None)
        } else if key == Key::Char('q') {
            Ok(Some(AppEvent::Quit))
        } else if key == Key::Tab {
            let next_panel = match state.active_panel {
                ActivePanel::Sessions => ActivePanel::Chat,
                ActivePanel::Chat => ActivePanel::Connect,
                ActivePanel::Connect => ActivePanel::Sessions,
            };
            Ok(Some(AppEvent::SwitchPanel(next_panel)))
        } else {
            self.handle_panel_specific(key, state)
        }
    }
}

/// A copy of a text that may be missing.
fn copy_option(text: &Option<String>) -> (copy: Option<String>)
    ensures
        copy.deep_view() == text.deep_view(),
{
    match text {
        Some(text) => Some(text.clone()),
        None => None,
    }
}

/// How long ago something was, in one unit: seconds below a minute,
/// minutes below an hour, hours below a day, and days from then on.
pub open spec fn age(seconds: u64) -> Seq<char> {
    if seconds < 60 {
        decimal_digits(seconds as nat) + "s"@
    } else if seconds < 3600 {
        decimal_digits((seconds / 60) as nat) + "m"@
    } else if seconds < 86400 {
        decimal_digits((seconds / 3600) as nat) + "h"@
    } else {
        decimal_digits((seconds / 86400) as nat) + "d"@
    }
}

/// The seconds from `then` to `now`, none where `then` is the later one.
pub open spec fn seconds_between(then: u64, now: u64) -> u64 {
    if now >= then {
        (now - then) as u64
    } else {
        0
    }
}

/// How long before `now` the time `timestamp` lies, both in seconds since
/// the Unix epoch, written in one unit.
pub fn age_text(timestamp: u64, now: u64) -> (text: String)
    ensures
        text@ == age(seconds_between(timestamp, now)),
{
    let diff: u64 = now.saturating_sub(timestamp);
    if diff < 60 {
        decimal_text(diff).concat("s")
    } else if diff < 3600 {
        decimal_text(diff / 60).concat("m")
    } else if diff < 86400 {
        decimal_text(diff / 3600).concat("h")
    } else {
        decimal_text(diff / 86400).concat("d")
    }
}

/// How long ago the time `timestamp`, in seconds since the Unix epoch, lies,
/// written in one unit; the present is read off the system clock.
pub fn format_timestamp(timestamp: u64) -> (text: String)
    ensures
        exists|seconds: u64| text@ == age(seconds),
{
    let now = Timestamp::now().duration_since(&Timestamp::from_nanos(0)).as_secs();
    let now_secs: u64 = if now > u64::MAX as u128 {
        u64::MAX
    } else {
        now as u64
    };
    age_text(timestamp, now_secs)
}

} // verus!
