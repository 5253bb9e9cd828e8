//! The error type shared by every fallible operation of the crate.

use vstd::prelude::*;

verus! {

/// What went wrong in an operation.
#[derive(Debug)]
pub enum TermComError {
    /// The serial port layer reported a failure.
    Serial(String),
    /// The network layer reported a failure.
    Network(String),
    /// A configuration could not be read or written.
    Config { message: String },
    /// A session was used against its lifecycle.
    Session { message: String },
    /// An exchange with a device took too long.
    Timeout,
    /// Data did not have the expected format.
    InvalidData(String),
    /// The device is not connected.
    DeviceNotConnected,
    /// The device broke the protocol.
    Protocol(String),
    /// A transport or the registry failed.
    Communication { message: String },
    /// The configuration is malformed.
    Configuration(String),
    /// Data supplied by the user is malformed.
    InvalidInput(String),
    /// Output could not be produced.
    Output(String),
}

/// The error of std's I/O functions.
#[verifier::external_type_specification]
#[verifier::external_body]
pub struct ExIoError(std::io::Error);

/// The result of a fallible operation.
pub type TermComResult<T> = Result<T, TermComError>;

/// An error with its texts as sequences of characters.
pub enum TermComErrorView {
    Serial(Seq<char>),
    Network(Seq<char>),
    Config { message: Seq<char> },
    Session { message: Seq<char> },
    Timeout,
    InvalidData(Seq<char>),
    DeviceNotConnected,
    Protocol(Seq<char>),
    Communication { message: Seq<char> },
    Configuration(Seq<char>),
    InvalidInput(Seq<char>),
    Output(Seq<char>),
}

impl TermComErrorView {
    /// The line that describes the error to a reader.
    pub open spec fn display_text(self) -> Seq<char> {
        match self {
            TermComErrorView::Serial(text) => "Serial port error: "@ + text,
            TermComErrorView::Network(text) => "Network error: "@ + text,
            TermComErrorView::Config { message } => "Configuration error: "@ + message,
            TermComErrorView::Session { message } => "Session error: "@ + message,
            TermComErrorView::Timeout => "Communication timeout"@,
            TermComErrorView::InvalidData(text) => "Invalid data format: "@ + text,
            TermComErrorView::DeviceNotConnected => "Device not connected"@,
            TermComErrorView::Protocol(text) => "Protocol error: "@ + text,
            TermComErrorView::Communication { message } => "Communication error: "@ + message,
            TermComErrorView::Configuration(text) => "Configuration error: "@ + text,
            TermComErrorView::InvalidInput(text) => "Invalid input: "@ + text,
            TermComErrorView::Output(text) => "Output error: "@ + text,
        }
    }
}

impl View for TermComError {
    type V = TermComErrorView;

    open spec fn view(&self) -> TermComErrorView {
        match self {
            TermComError::Serial(text) => TermComErrorView::Serial(text@),
            TermComError::Network(text) => TermComErrorView::Network(text@),
            TermComError::Config { message } => TermComErrorView::Config { message: message@ },
            TermComError::Session { message } => TermComErrorView::Session { message: message@ },
            TermComError::Timeout => TermComErrorView::Timeout,
            TermComError::InvalidData(text) => TermComErrorView::InvalidData(text@),
            TermComError::DeviceNotConnected => TermComErrorView::DeviceNotConnected,
            TermComError::Protocol(text) => TermComErrorView::Protocol(text@),
            TermComError::Communication { message } => TermComErrorView::Communication {
                message: message@,
            },
            TermComError::Configuration(text) => TermComErrorView::Configuration(text@),
            TermComError::InvalidInput(text) => TermComErrorView::InvalidInput(text@),
            TermComError::Output(text) => TermComErrorView::Output(text@),
        }
    }
}

/// `prefix` followed by `detail`.
fn prefixed(prefix: &str, detail: &str) -> (text: String)
    ensures
        text@ == prefix@ + detail@,
{
    String::from_str(prefix).concat(detail)
}

impl TermComError {
    /// A session error with the given message.
    pub fn session(message: String) -> (e: TermComError)
        ensures
            e@ == (TermComErrorView::Session { message: message@ }),
    {
        TermComError::Session { message }
    }

    /// A communication error with the given message.
    pub fn communication(message: String) -> (e: TermComError)
        ensures
            e@ == (TermComErrorView::Communication { message: message@ }),
    {
        TermComError::Communication { message }
    }

    /// The line that describes the error to a reader.
    pub fn to_string(&self) -> (text: String)
        ensures
            text@ == self@.display_text(),
    {
        match self {
            TermComError::Serial(text) => prefixed("Serial port error: ", text.as_str()),
            TermComError::Network(text) => prefixed("Network error: ", text.as_str()),
            TermComError::Config { message } => prefixed("Configuration error: ", message.as_str()),
            TermComError::Session { message } => prefixed("Session error: ", message.as_str()),
            TermComError::Timeout => String::from_str("Communication timeout"),
            TermComError::InvalidData(text) => prefixed("Invalid data format: ", text.as_str()),
            TermComError::DeviceNotConnected => String::from_str("Device not connected"),
            TermComError::Protocol(text) => prefixed("Protocol error: ", text.as_str()),
            TermComError::Communication { message } => prefixed(
                "Communication error: ",
                message.as_str(),
            ),
            TermComError::Configuration(text) => prefixed("Configuration error: ", text.as_str()),
            TermComError::InvalidInput(text) => prefixed("Invalid input: ", text.as_str()),
            TermComError::Output(text) => prefixed("Output error: ", text.as_str()),
        }
    }
}

/// What a number of failures come to: success where there is none, else one
/// error whose text is `prefix` followed by the texts of the failures with a
/// comma and a blank between each two.  The error is a session error where
/// `of_sessions` holds, else a communication error.
pub open spec fn combined(prefix: Seq<char>, failures: Seq<Seq<char>>, of_sessions: bool) -> Result<
    (),
    TermComErrorView,
> {
    if failures.len() == 0 {
        Ok(())
    } else if of_sessions {
        Err(TermComErrorView::Session { message: prefix + crate::text::joined(failures, ", "@) })
    } else {
        Err(
            TermComErrorView::Communication {
                message: prefix + crate::text::joined(failures, ", "@),
            },
        )
    }
}

/// Makes one result of a number of failures, so that an operation on many
/// items can try every item and still report all that went wrong.
pub fn combine_failures(prefix: &str, failures: &Vec<String>, of_sessions: bool) -> (r: Result<
    (),
    TermComError,
>)
    ensures
        match r {
            Ok(_) => combined(prefix@, failures.deep_view(), of_sessions) is Ok,
            Err(e) => combined(prefix@, failures.deep_view(), of_sessions) == Err::<
                (),
                TermComErrorView,
            >(e@),
        },
{
    if failures.len() == 0 {
        return Ok(());
    }
    let message = prefixed(prefix, crate::text::join(failures, ", ").as_str());
    if of_sessions {
        Err(TermComError::Session { message })
    } else {
        Err(TermComError::Communication { message })
    }
}

/// The words in which std describes an I/O error, through its `to_string`.
#[verifier::external_body]
fn describe_io_error(e: &std::io::Error) -> (text: String) {
    e.to_string()
}

impl From<std::io::Error> for TermComError {
    /// An I/O error becomes a network error that carries its description.
    fn from(e: std::io::Error) -> (converted: Self)
        ensures
            converted is Network,
    {
        TermComError::Network(describe_io_error(&e))
    }
}

impl vstd::std_specs::convert::FromSpecImpl<std::io::Error> for TermComError {
    open spec fn obeys_from_spec() -> bool {
        false
    }

    open spec fn from_spec(e: std::io::Error) -> TermComError {
        arbitrary()
    }
}

impl Clone for TermComError {
    fn clone(&self) -> (copy: Self)
        ensures
            copy@ == self@,
    {
        match self {
            TermComError::Serial(text) => TermComError::Serial(text.clone()),
            TermComError::Network(text) => TermComError::Network(text.clone()),
            TermComError::Config { message } => TermComError::Config { message: message.clone() },
            TermComError::Session { message } => TermComError::Session { message: message.clone() },
            TermComError::Timeout => TermComError::Timeout,
            TermComError::InvalidData(text) => TermComError::InvalidData(text.clone()),
            TermComError::DeviceNotConnected => TermComError::DeviceNotConnected,
            TermComError::Protocol(text) => TermComError::Protocol(text.clone()),
            TermComError::Communication { message } => TermComError::Communication {
                message: message.clone(),
            },
            TermComError::Configuration(text) => TermComError::Configuration(text.clone()),
            TermComError::InvalidInput(text) => TermComError::InvalidInput(text.clone()),
            TermComError::Output(text) => TermComError::Output(text.clone()),
        }
    }
}

} // verus!
