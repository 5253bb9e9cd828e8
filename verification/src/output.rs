//! The texts in which sessions, devices and the configuration are shown.
//! This module makes the texts; printing them or writing them to a file is
//! left to the caller.

use crate::config::{DeviceConfig, DeviceConfigView, TermComConfig};
use crate::error::{TermComError, TermComErrorView};
use crate::input::OutputFormat;
use crate::manager::{SessionSummary, SessionSummaryView};
use crate::state::{SessionState, SessionStateView};
use crate::text::{decimal_digits, decimal_text};
use crate::transport::{get_transport_type, kind_of};
use vstd::prelude::*;

verus! {

/// What went wrong when output was made.
#[derive(Debug)]
pub enum OutputError {
    /// The data could not be written as JSON.
    JsonError(String),
    /// The output could not be written.
    IoError(String),
    /// The format does not fit the output.
    TableError(String),
}

/// An output error with its text as a sequence of characters.
pub enum OutputErrorView {
    JsonError(Seq<char>),
    IoError(Seq<char>),
    TableError(Seq<char>),
}

impl OutputErrorView {
    /// The line that describes the error to a reader.
    pub open spec fn display_text(self) -> Seq<char> {
        match self {
            OutputErrorView::JsonError(text) => "JSON serialization error: "@ + text,
            OutputErrorView::IoError(text) => "IO error: "@ + text,
            OutputErrorView::TableError(text) => "Table formatting error: "@ + text,
        }
    }
}

impl View for OutputError {
    type V = OutputErrorView;

    open spec fn view(&self) -> OutputErrorView {
        match self {
            OutputError::JsonError(text) => OutputErrorView::JsonError(text@),
            OutputError::IoError(text) => OutputErrorView::IoError(text@),
            OutputError::TableError(text) => OutputErrorView::TableError(text@),
        }
    }
}

impl OutputError {
    /// The line that describes the error to a reader.
    pub fn to_string(&self) -> (text: String)
        ensures
            text@ == self@.display_text(),
    {
        match self {
            OutputError::JsonError(text) => String::from_str("JSON serialization error: ").concat(
                text.as_str(),
            ),
            OutputError::IoError(text) => String::from_str("IO error: ").concat(text.as_str()),
            OutputError::TableError(text) => String::from_str("Table formatting error: ").concat(
                text.as_str(),
            ),
        }
    }

    /// The error of the crate that stands for this output error: an output
    /// error with the line that describes it.
    pub fn into_error(self) -> (e: TermComError)
        ensures
            e@ == TermComErrorView::Output(self@.display_text()),
    {
        TermComError::Output(self.to_string())
    }
}

/// What is shown.
#[derive(Clone, Copy, Debug, PartialEq, Eq, Structural)]
pub enum OutputKind {
    Sessions,
    SessionDetail,
    Config,
    Devices,
}

/// Whether output of the given kind can be written to a file in the given
/// format: lists of sessions and devices as JSON or CSV, the rest as JSON
/// only.
pub open spec fn file_supports(kind: OutputKind, format: OutputFormat) -> bool {
    match kind {
        OutputKind::Sessions | OutputKind::Devices => format == OutputFormat::Json || format
            == OutputFormat::Csv,
        OutputKind::SessionDetail | OutputKind::Config => format == OutputFormat::Json,
    }
}

/// The text of the error for a format that a file does not take.
pub open spec fn unsupported_text(kind: OutputKind) -> Seq<char> {
    match kind {
        OutputKind::Sessions | OutputKind::Devices =>
            "File output only supports JSON and CSV formats"@,
        OutputKind::SessionDetail => "File output only supports JSON format for session details"@,
        OutputKind::Config => "File output only supports JSON format for configuration"@,
    }
}

/// Decides whether output of the given kind can be written to a file in the
/// given format.
pub fn check_file_format(kind: OutputKind, format: OutputFormat) -> (r: Result<(), OutputError>)
    ensures
        file_supports(kind, format) ==> r is Ok,
        !file_supports(kind, format) ==> (r matches Err(e) && e@ == OutputErrorView::TableError(
            unsupported_text(kind),
        )),
{
    let lists = match kind {
        OutputKind::Sessions => true,
        OutputKind::Devices => true,
        _ => false,
    };
    let supported = format == OutputFormat::Json || (lists && format == OutputFormat::Csv);
    if supported {
        return Ok(());
    }
    let text = match kind {
        OutputKind::Sessions => "File output only supports JSON and CSV formats",
        OutputKind::Devices => "File output only supports JSON and CSV formats",
        OutputKind::SessionDetail => "File output only supports JSON format for session details",
        OutputKind::Config => "File output only supports JSON format for configuration",
    };
    Err(OutputError::TableError(String::from_str(text)))
}

/// The rows one after another, each ended by a line feed.
pub open spec fn lines(rows: Seq<Seq<char>>) -> Seq<char>
    decreases rows.len(),
{
    if rows.len() == 0 {
        Seq::empty()
    } else {
        lines(rows.drop_last()) + rows.last() + "\n"@
    }
}

/// The row of a session in the list of sessions.
pub open spec fn session_row(summary: SessionSummaryView) -> Seq<char> {
    summary.session_id + ","@ + summary.device_name + ","@ + summary.session_type.name() + ","@
        + summary.status.display_text() + ","@ + decimal_digits(summary.message_count as nat)
        + ","@ + decimal_digits(summary.bytes_sent as nat) + ","@ + decimal_digits(
        summary.bytes_received as nat,
    )
}

/// The row of a device in the list of devices.
pub open spec fn device_row(device: DeviceConfigView) -> Seq<char> {
    device.name + ","@ + device.description + ","@ + kind_of(device.connection).name()
}

/// The row of a session's record.
pub open spec fn detail_row(state: SessionStateView) -> Seq<char> {
    state.session_id + ","@ + state.device_name + ","@ + state.metadata.transport_type + ","@
        + state.status.display_text() + ","@ + state.metadata.transport_type + ","@
        + decimal_digits(state.statistics.messages_sent as nat) + ","@ + decimal_digits(
        state.statistics.messages_received as nat,
    ) + ","@ + decimal_digits(state.statistics.bytes_sent as nat) + ","@ + decimal_digits(
        state.statistics.bytes_received as nat,
    ) + ","@ + decimal_digits(state.statistics.error_count as nat)
}

/// The description of a device as it is shown: the words "No description"
/// for an empty one.
pub open spec fn shown_description(device: DeviceConfigView) -> Seq<char> {
    if device.description.len() == 0 {
        "No description"@
    } else {
        device.description
    }
}

/// The lines that show a device to a reader.
pub open spec fn device_text(device: DeviceConfigView) -> Seq<char> {
    "Device: "@ + device.name + "\n"@ + "  Description: "@ + shown_description(device) + "\n"@
        + "  Transport: "@ + kind_of(device.connection).name() + "\n\n"@
}

/// The texts of all devices one after another.
pub open spec fn devices_text(devices: Seq<DeviceConfigView>) -> Seq<char>
    decreases devices.len(),
{
    if devices.len() == 0 {
        Seq::empty()
    } else {
        devices_text(devices.drop_last()) + device_text(devices.last())
    }
}

fn push_field(row: &mut String, field: &str)
    ensures
        final(row)@ == old(row)@ + ","@ + field@,
{
    row.append(",");
    row.append(field);
}

/// The row of a session in the list of sessions.
pub fn session_csv_row(summary: &SessionSummary) -> (row: String)
    ensures
        row@ == session_row(summary@),
{
    let mut row = summary.session_id.clone();
    push_field(&mut row, summary.device_name.as_str());
    push_field(&mut row, summary.session_type.to_string().as_str());
    push_field(&mut row, summary.status.to_string().as_str());
    push_field(&mut row, decimal_text(summary.message_count as u64).as_str());
    push_field(&mut row, decimal_text(summary.bytes_sent).as_str());
    push_field(&mut row, decimal_text(summary.bytes_received).as_str());
    row
}

/// The list of sessions as comma-separated values: a line of headings and
/// one line for each session.
pub fn sessions_csv(sessions: &Vec<SessionSummary>) -> (text: String)
    ensures
        text@ == "id,device_name,session_type,status,message_count,bytes_sent,bytes_received\n"@
            + lines(sessions.deep_view().map_values(|s: SessionSummaryView| session_row(s))),
{
    let mut text = String::from_str(
        "id,device_name,session_type,status,message_count,bytes_sent,bytes_received\n",
    );
    let ghost head = text@;
    let ghost rows = sessions.deep_view().map_values(|s: SessionSummaryView| session_row(s));
    let mut i: usize = 0;
    assert(rows.subrange(0, 0) =~= Seq::<Seq<char>>::empty());
    assert(text@ =~= head + lines(rows.subrange(0, 0)));
    while i < sessions.len()
        invariant
            i <= sessions.len(),
            rows == sessions.deep_view().map_values(|s: SessionSummaryView| session_row(s)),
            text@ == head + lines(rows.subrange(0, i as int)),
        decreases sessions.len() - i,
    {
        let ghost upto = rows.subrange(0, i + 1);
        assert(upto.drop_last() =~= rows.subrange(0, i as int));
        assert(upto.last() == session_row(sessions[i as int]@));
        let row = session_csv_row(&sessions[i]);
        text.append(row.as_str());
        text.append("\n");
        assert(text@ =~= head + lines(upto));
        i = i + 1;
    }
    assert(rows.subrange(0, rows.len() as int) =~= rows);
    text
}

/// The row of a device in the list of devices.
pub fn device_csv_row(device: &DeviceConfig) -> (row: String)
    ensures
        row@ == device_row(device@),
{
    let mut row = device.name.clone();
    push_field(&mut row, device.description.as_str());
    push_field(&mut row, get_transport_type(&device.connection).to_string().as_str());
    row
}

/// The list of devices as comma-separated values: a line of headings and
/// one line for each device.
pub fn devices_csv(devices: &Vec<DeviceConfig>) -> (text: String)
    ensures
        text@ == "name,description,transport_type\n"@ + lines(
            devices.deep_view().map_values(|d: DeviceConfigView| device_row(d)),
        ),
{
    let mut text = String::from_str("name,description,transport_type\n");
    let ghost head = text@;
    let ghost rows = devices.deep_view().map_values(|d: DeviceConfigView| device_row(d));
    let mut i: usize = 0;
    assert(rows.subrange(0, 0) =~= Seq::<Seq<char>>::empty());
    assert(text@ =~= head + lines(rows.subrange(0, 0)));
    while i < devices.len()
        invariant
            i <= devices.len(),
            rows == devices.deep_view().map_values(|d: DeviceConfigView| device_row(d)),
            text@ == head + lines(rows.subrange(0, i as int)),
        decreases devices.len() - i,
    {
        let ghost upto = rows.subrange(0, i + 1);
        assert(upto.drop_last() =~= rows.subrange(0, i as int));
        assert(upto.last() == device_row(devices[i as int]@));
        let row = device_csv_row(&devices[i]);
        text.append(row.as_str());
        text.append("\n");
        assert(text@ =~= head + lines(upto));
        i = i + 1;
    }
    assert(rows.subrange(0, rows.len() as int) =~= rows);
    text
}

/// The record of a session as comma-separated values: a line of headings
/// and the line of the session.
pub fn session_detail_csv(state: &SessionState) -> (text: String)
    ensures
        text@
            == "id,device_name,session_type,status,transport_type,messages_sent,messages_received,bytes_sent,bytes_received,error_count\n"@
            + detail_row(state@) + "\n"@,
{
    let mut row = state.session_id.clone();
    push_field(&mut row, state.device_name.as_str());
    push_field(&mut row, state.metadata.transport_type.as_str());
    push_field(&mut row, state.status.to_string().as_str());
    push_field(&mut row, state.metadata.transport_type.as_str());
    push_field(&mut row, decimal_text(state.statistics.messages_sent).as_str());
    push_field(&mut row, decimal_text(state.statistics.messages_received).as_str());
    push_field(&mut row, decimal_text(state.statistics.bytes_sent).as_str());
    push_field(&mut row, decimal_text(state.statistics.bytes_received).as_str());
    push_field(&mut row, decimal_text(state.statistics.error_count).as_str());
    let mut text = String::from_str(
        "id,device_name,session_type,status,transport_type,messages_sent,messages_received,bytes_sent,bytes_received,error_count\n",
    );
    text.append(row.as_str());
    text.append("\n");
    text
}

/// The lines that show the devices to a reader.
pub fn devices_as_text(devices: &Vec<DeviceConfig>) -> (text: String)
    ensures
        text@ == devices_text(devices.deep_view()),
{
    let mut text = String::new();
    let mut i: usize = 0;
    assert(devices.deep_view().subrange(0, 0) =~= Seq::<DeviceConfigView>::empty());
    while i < devices.len()
        invariant
            i <= devices.len(),
            text@ == devices_text(devices.deep_view().subrange(0, i as int)),
        decreases devices.len() - i,
    {
        let ghost before = text@;
        let ghost upto = devices.deep_view().subrange(0, i + 1);
        assert(upto.drop_last() =~= devices.deep_view().subrange(0, i as int));
        assert(upto.last() == devices[i as int]@);
        let device = &devices[i];
        text.append("Device: ");
        text.append(device.name.as_str());
        text.append("\n");
        text.append("  Description: ");
        if device.description.as_str().is_empty() {
            text.append("No description");
        } else {
            text.append(device.description.as_str());
        }
        text.append("\n");
        text.append("  Transport: ");
        text.append(get_transport_type(&device.connection).to_string().as_str());
        text.append("\n\n");
        assert(text@ =~= before + device_text(devices[i as int]@));
        i = i + 1;
    }
    assert(devices.deep_view().subrange(0, devices.len() as int) =~= devices.deep_view());
    text
}

/// The word for a truth value.
pub open spec fn truth_word(value: bool) -> Seq<char> {
    if value {
        "true"@
    } else {
        "false"@
    }
}

/// The line that shows a device in the configuration.
pub open spec fn device_line(device: DeviceConfigView) -> Seq<char> {
    "    "@ + device.name + ": "@ + shown_description(device) + "\n"@
}

/// The lines of all devices in the configuration.
pub open spec fn device_lines(devices: Seq<DeviceConfigView>) -> Seq<char>
    decreases devices.len(),
{
    if devices.len() == 0 {
        Seq::empty()
    } else {
        device_lines(devices.drop_last()) + device_line(devices.last())
    }
}

/// The lines that show the configuration to a reader: the global settings,
/// and the devices under a heading where there are any.
pub open spec fn config_text(config: crate::config::TermComConfigView) -> Seq<char> {
    "TermCom Configuration:\n"@ + "  Log level: "@ + config.global.log_level + "\n"@
        + "  Max sessions: "@ + decimal_digits(config.global.max_sessions as nat) + "\n"@
        + "  Timeout: "@ + decimal_digits(config.global.timeout_ms as nat) + "ms\n"@
        + "  Auto save: "@ + truth_word(config.global.auto_save) + "\n"@ + "  History limit: "@
        + decimal_digits(config.global.history_limit as nat) + "\n"@ + if config.devices.len()
        == 0 {
        Seq::<char>::empty()
    } else {
        "  Devices:\n"@ + device_lines(config.devices)
    }
}

/// The lines that show the configuration to a reader.
pub fn config_as_text(config: &TermComConfig) -> (text: String)
    ensures
        text@ == config_text(config@),
{
    let mut text = String::from_str("TermCom Configuration:\n");
    text.append("  Log level: ");
    text.append(config.global.log_level.as_str());
    text.append("\n");
    text.append("  Max sessions: ");
    text.append(decimal_text(config.global.max_sessions as u64).as_str());
    text.append("\n");
    text.append("  Timeout: ");
    text.append(decimal_text(config.global.timeout_ms).as_str());
    text.append("ms\n");
    text.append("  Auto save: ");
    if config.global.auto_save {
        text.append("true");
    } else {
        text.append("false");
    }
    text.append("\n");
    text.append("  History limit: ");
    text.append(decimal_text(config.global.history_limit as u64).as_str());
    text.append("\n");
    let ghost head = text@;
    if config.devices.len() == 0 {
        assert(text@ =~= config_text(config@));
        return text;
    }
    text.append("  Devices:\n");
    let ghost titled = text@;
    let mut i: usize = 0;
    assert(config.devices.deep_view().subrange(0, 0) =~= Seq::<DeviceConfigView>::empty());
    assert(text@ =~= titled + device_lines(config.devices.deep_view().subrange(0, 0)));
    while i < config.devices.len()
        invariant
            i <= config.devices.len(),
            text@ == titled + device_lines(config.devices.deep_view().subrange(0, i as int)),
        decreases config.devices.len() - i,
    {
        let ghost before = text@;
        let ghost upto = config.devices.deep_view().subrange(0, i + 1);
        assert(upto.drop_last() =~= config.devices.deep_view().subrange(0, i as int));
        assert(upto.last() == config.devices[i as int]@);
        let device = &config.devices[i];
        text.append("    ");
        text.append(device.name.as_str());
        text.append(": ");
        if device.description.as_str().is_empty() {
            text.append("No description");
        } else {
            text.append(device.description.as_str());
        }
        text.append("\n");
        assert(text@ =~= before + device_line(config.devices[i as int]@));
        assert(text@ =~= titled + device_lines(upto));
        i = i + 1;
    }
    assert(config.devices.deep_view().subrange(0, config.devices.len() as int)
        =~= config.devices.deep_view());
    assert(text@ =~= config_text(config@));
    text
}

} // verus!
