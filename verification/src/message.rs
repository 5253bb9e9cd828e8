//! The record of one communication event and the patterns that select such
//! records.

use crate::ident::fresh_uuid;
use crate::properties::{with_entry, Properties};
use crate::text::{copy_strings, join, joined, list_contains, text_eq};
use crate::time::Timestamp;
use vstd::prelude::*;
use vstd::utf8::{decode_utf8, encode_utf8, valid_utf8};

verus! {

/// What kind of event a message records.
#[derive(Clone, Copy, Debug, PartialEq, Eq, Structural)]
pub enum MessageType {
    /// Data sent to the device.
    Sent,
    /// Data received from the device.
    Received,
    /// An event of the system, such as a connection being opened.
    System,
    /// A failure.
    Error,
    /// A command given to the device.
    Command,
    /// The device's answer to a command.
    Response,
}

/// What is known about a message besides its payload.
#[derive(Debug)]
pub struct MessageMetadata {
    /// Name of the transport that carried the message.
    pub transport: String,
    /// Size of the payload in bytes.
    pub size: usize,
    /// Time between a command and its response, in milliseconds.
    pub duration_ms: Option<u64>,
    /// Position of the message among those that the engine sent.
    pub sequence: u64,
    /// Tags, each at most once.
    pub tags: Vec<String>,
    /// Free-form properties.
    pub properties: Properties,
}

/// One communication event.
#[derive(Debug)]
pub struct Message {
    pub id: String,
    pub timestamp: Timestamp,
    pub session_id: String,
    pub device_name: String,
    pub message_type: MessageType,
    pub data: Vec<u8>,
    pub metadata: MessageMetadata,
}

/// Metadata with its texts as sequences of characters.
pub struct MessageMetadataView {
    pub transport: Seq<char>,
    pub size: usize,
    pub duration_ms: Option<u64>,
    pub sequence: u64,
    pub tags: Seq<Seq<char>>,
    pub properties: Seq<(Seq<char>, Seq<char>)>,
}

/// A message with its texts as sequences of characters.
pub struct MessageView {
    pub id: Seq<char>,
    pub timestamp: Timestamp,
    pub session_id: Seq<char>,
    pub device_name: Seq<char>,
    pub message_type: MessageType,
    pub data: Seq<u8>,
    pub metadata: MessageMetadataView,
}

impl View for MessageMetadata {
    type V = MessageMetadataView;

    open spec fn view(&self) -> MessageMetadataView {
        MessageMetadataView {
            transport: self.transport@,
            size: self.size,
            duration_ms: self.duration_ms,
            sequence: self.sequence,
            tags: self.tags.deep_view(),
            properties: self.properties@,
        }
    }
}

impl View for Message {
    type V = MessageView;

    open spec fn view(&self) -> MessageView {
        MessageView {
            id: self.id@,
            timestamp: self.timestamp,
            session_id: self.session_id@,
            device_name: self.device_name@,
            message_type: self.message_type,
            data: self.data@,
            metadata: self.metadata@,
        }
    }
}

impl DeepView for Message {
    type V = MessageView;

    open spec fn deep_view(&self) -> MessageView {
        self@
    }
}

/// The message that a constructor makes from its arguments, an identifier
/// and a time.
pub open spec fn fresh_message(
    id: Seq<char>,
    timestamp: Timestamp,
    session_id: Seq<char>,
    device_name: Seq<char>,
    message_type: MessageType,
    data: Seq<u8>,
    transport: Seq<char>,
) -> MessageView {
    MessageView {
        id,
        timestamp,
        session_id,
        device_name,
        message_type,
        data,
        metadata: MessageMetadataView {
            transport,
            size: data.len() as usize,
            duration_ms: None,
            sequence: 0,
            tags: Seq::empty(),
            properties: Seq::empty(),
        },
    }
}

/// The character for a hexadecimal digit, in lower case.
pub open spec fn hex_digit(d: nat) -> char
    recommends
        d < 16,
{
    if d < 10 {
        ((48 + d) as u8) as char
    } else {
        ((87 + d) as u8) as char
    }
}

/// The two hexadecimal digits of a byte.
pub open spec fn hex_pair(byte: u8) -> Seq<char> {
    seq![hex_digit((byte / 16) as nat), hex_digit((byte % 16) as nat)]
}

/// The bytes of `data` written as pairs of hexadecimal digits with a space
/// between each two.
pub open spec fn hex_text(data: Seq<u8>) -> Seq<char> {
    joined(data.map_values(|byte: u8| hex_pair(byte)), " "@)
}

/// Whether every tag of `wanted` is among `present`.
pub open spec fn has_all_tags(present: Seq<Seq<char>>, wanted: Seq<Seq<char>>) -> bool {
    forall|i: int| 0 <= i < wanted.len() ==> present.contains(#[trigger] wanted[i])
}

/// The tags after `tag` has been added: unchanged where it was among them,
/// else with `tag` at the end.
pub open spec fn with_tag(tags: Seq<Seq<char>>, tag: Seq<char>) -> Seq<Seq<char>> {
    if tags.contains(tag) {
        tags
    } else {
        tags.push(tag)
    }
}

/// Writes one byte with the format `{:02x}`: two hexadecimal digits in lower
/// case, the high one first.
#[verifier::external_body]
fn format_hex_byte(byte: u8) -> (text: String)
    ensures
        text@ == hex_pair(byte),
{
    format!("{:02x}", byte)
}

/// Decodes bytes with `String::from_utf8`, which succeeds exactly on valid
/// UTF-8 and then gives the text that the bytes encode.
#[verifier::external_body]
fn decode_text(bytes: Vec<u8>) -> (text: Option<String>)
    ensures
        text is Some <==> valid_utf8(bytes@),
        text is Some ==> text.unwrap()@ == decode_utf8(bytes@),
{
    String::from_utf8(bytes).ok()
}

/// Adds `tag` to `tags` unless it is among them.
pub fn add_unique_tag(tags: &mut Vec<String>, tag: String)
    ensures
        final(tags).deep_view() == with_tag(old(tags).deep_view(), tag@),
{
    if !list_contains(tags, tag.as_str()) {
        let ghost before = tags.deep_view();
        tags.push(tag);
        assert(tags.deep_view() =~= before.push(tag@));
    }
}

impl Message {
    /// A message with a fresh identifier and the current time.
    pub fn new(
        session_id: String,
        device_name: String,
        message_type: MessageType,
        data: Vec<u8>,
        transport: String,
    ) -> (message: Message)
        ensures
            message@ == fresh_message(
                message.id@,
                message.timestamp,
                session_id@,
                device_name@,
                message_type,
                data@,
                transport@,
            ),
            message.id@.len() == 36,
    {
        Message::from_parts(
            fresh_uuid(),
            Timestamp::now(),
            session_id,
            device_name,
            message_type,
            data,
            transport,
        )
    }

    /// A message with the given identifier and time.
    pub fn from_parts(
        id: String,
        timestamp: Timestamp,
        session_id: String,
        device_name: String,
        message_type: MessageType,
        data: Vec<u8>,
        transport: String,
    ) -> (message: Message)
        ensures
            message@ == fresh_message(
                id@,
                timestamp,
                session_id@,
                device_name@,
                message_type,
                data@,
                transport@,
            ),
    {
        let size = data.len();
        let tags: Vec<String> = Vec::new();
        assert(tags.deep_view() =~= Seq::<Seq<char>>::empty());
        Message {
            id,
            timestamp,
            session_id,
            device_name,
            message_type,
            data,
            metadata: MessageMetadata {
                transport,
                size,
                duration_ms: None,
                sequence: 0,
                tags,
                properties: Properties::new(),
            },
        }
    }

    /// A message for data sent to the device.
    pub fn sent(session_id: String, device_name: String, data: Vec<u8>, transport: String) -> (message:
        Message)
        ensures
            message@ == fresh_message(
                message.id@,
                message.timestamp,
                session_id@,
                device_name@,
                MessageType::Sent,
                data@,
                transport@,
            ),
    {
        Message::new(session_id, device_name, MessageType::Sent, data, transport)
    }

    /// A message for data received from the device.
    pub fn received(
        session_id: String,
        device_name: String,
        data: Vec<u8>,
        transport: String,
    ) -> (message: Message)
        ensures
            message@ == fresh_message(
                message.id@,
                message.timestamp,
                session_id@,
                device_name@,
                MessageType::Received,
                data@,
                transport@,
            ),
    {
        Message::new(session_id, device_name, MessageType::Received, data, transport)
    }

    /// A message for an event of the system, with the text as its payload.
    pub fn system(session_id: String, device_name: String, message: String, transport: String) -> (
        made: Message)
        ensures
            made@ == fresh_message(
                made.id@,
                made.timestamp,
                session_id@,
                device_name@,
                MessageType::System,
                encode_utf8(message@),
                transport@,
            ),
    {
        let data = message.as_str().as_bytes_vec();
        Message::new(session_id, device_name, MessageType::System, data, transport)
    }

    /// A message for a failure, with the text as its payload.
    pub fn error(session_id: String, device_name: String, error: String, transport: String) -> (
        made: Message)
        ensures
            made@ == fresh_message(
                made.id@,
                made.timestamp,
                session_id@,
                device_name@,
                MessageType::Error,
                encode_utf8(error@),
                transport@,
            ),
    {
        let data = error.as_str().as_bytes_vec();
        Message::new(session_id, device_name, MessageType::Error, data, transport)
    }

    /// A message for a command, with the command's text as its payload.
    pub fn command(session_id: String, device_name: String, command: String, transport: String) -> (
        made: Message)
        ensures
            made@ == fresh_message(
                made.id@,
                made.timestamp,
                session_id@,
                device_name@,
                MessageType::Command,
                encode_utf8(command@),
                transport@,
            ),
    {
        let data = command.as_str().as_bytes_vec();
        Message::new(session_id, device_name, MessageType::Command, data, transport)
    }

    /// A message for the answer to a command, with the time the answer took.
    pub fn response(
        session_id: String,
        device_name: String,
        response: Vec<u8>,
        transport: String,
        duration_ms: Option<u64>,
    ) -> (made: Message)
        ensures
            made@ == (MessageView {
                metadata: MessageMetadataView {
                    duration_ms,
                    ..fresh_message(
                        made.id@,
                        made.timestamp,
                        session_id@,
                        device_name@,
                        MessageType::Response,
                        response@,
                        transport@,
                    ).metadata
                },
                ..fresh_message(
                    made.id@,
                    made.timestamp,
                    session_id@,
                    device_name@,
                    MessageType::Response,
                    response@,
                    transport@,
                )
            }),
    {
        let mut made = Message::new(
            session_id,
            device_name,
            MessageType::Response,
            response,
            transport,
        );
        made.metadata.duration_ms = duration_ms;
        made
    }

    /// The payload as text, where it is valid UTF-8.
    pub fn data_as_string(&self) -> (text: Option<String>)
        ensures
            text is Some <==> valid_utf8(self.data@),
            text is Some ==> text.unwrap()@ == decode_utf8(self.data@),
    {
        let bytes = self.data.clone();
        assert(bytes@ =~= self.data@);
        decode_text(bytes)
    }

    /// The payload as pairs of hexadecimal digits with spaces between them.
    pub fn data_as_hex(&self) -> (text: String)
        ensures
            text@ == hex_text(self.data@),
    {
        let mut pairs: Vec<String> = Vec::new();
        let mut i: usize = 0;
        while i < self.data.len()
            invariant
                i <= self.data.len(),
                pairs.len() == i,
                forall|j: int| 0 <= j < i ==> pairs[j]@ == hex_pair(self.data[j]),
            decreases self.data.len() - i,
        {
            pairs.push(format_hex_byte(self.data[i]));
            i = i + 1;
        }
        assert(pairs.deep_view() =~= self.data@.map_values(|byte: u8| hex_pair(byte)));
        join(&pairs, " ")
    }

    /// Adds a tag unless the message has it.
    pub fn add_tag(&mut self, tag: String)
        ensures
            final(self)@ == (MessageView {
                metadata: MessageMetadataView {
                    tags: with_tag(old(self)@.metadata.tags, tag@),
                    ..old(self)@.metadata
                },
                ..old(self)@
            }),
    {
        add_unique_tag(&mut self.metadata.tags, tag);
    }

    /// Stores a property, in place of the one with the same key if there is
    /// one.
    pub fn add_property(&mut self, key: String, value: String)
        ensures
            final(self)@ == (MessageView {
                metadata: MessageMetadataView {
                    properties: with_entry(old(self)@.metadata.properties, key@, value@),
                    ..old(self)@.metadata
                },
                ..old(self)@
            }),
    {
        self.metadata.properties.insert(key, value);
    }

    /// Sets the sequence number.
    pub fn set_sequence(&mut self, sequence: u64)
        ensures
            final(self)@ == (MessageView {
                metadata: MessageMetadataView { sequence, ..old(self)@.metadata },
                ..old(self)@
            }),
    {
        self.metadata.sequence = sequence;
    }

    /// Whether the message meets every condition of the pattern.
    pub fn matches_pattern(&self, pattern: &MessagePattern) -> (matches: bool)
        ensures
            matches == pattern@.admits(self@),
    {
        if let Some(session_id) = &pattern.session_id {
            if !text_eq(self.session_id.as_str(), session_id.as_str()) {
                return false;
            }
        }
        if let Some(device_name) = &pattern.device_name {
            if !text_eq(self.device_name.as_str(), device_name.as_str()) {
                return false;
            }
        }
        if let Some(message_type) = &pattern.message_type {
            if self.message_type != *message_type {
                return false;
            }
        }
        if let Some(transport) = &pattern.transport {
            if !text_eq(self.metadata.transport.as_str(), transport.as_str()) {
                return false;
            }
        }
        let mut i: usize = 0;
        while i < pattern.tags.len()
            invariant
                i <= pattern.tags.len(),
                forall|j: int|
                    0 <= j < i ==> self.metadata.tags.deep_view().contains(
                        #[trigger] pattern.tags.deep_view()[j],
                    ),
            decreases pattern.tags.len() - i,
        {
            if !list_contains(&self.metadata.tags, pattern.tags[i].as_str()) {
                assert(pattern.tags.deep_view()[i as int] == pattern.tags[i as int]@);
                return false;
            }
            assert(pattern.tags.deep_view()[i as int] == pattern.tags[i as int]@);
            i = i + 1;
        }
        true
    }
}

impl Clone for MessageMetadata {
    fn clone(&self) -> (copy: Self)
        ensures
            copy@ == self@,
    {
        MessageMetadata {
            transport: self.transport.clone(),
            size: self.size,
            duration_ms: self.duration_ms,
            sequence: self.sequence,
            tags: copy_strings(&self.tags),
            properties: self.properties.clone(),
        }
    }
}

impl Clone for Message {
    fn clone(&self) -> (copy: Self)
        ensures
            copy@ == self@,
    {
        let data = self.data.clone();
        assert(data@ =~= self.data@);
        Message {
            id: self.id.clone(),
            timestamp: self.timestamp,
            session_id: self.session_id.clone(),
            device_name: self.device_name.clone(),
            message_type: self.message_type,
            data,
            metadata: self.metadata.clone(),
        }
    }
}

/// Conditions that select messages.  A condition that is not set admits
/// every message.
#[derive(Debug)]
pub struct MessagePattern {
    pub session_id: Option<String>,
    pub device_name: Option<String>,
    pub message_type: Option<MessageType>,
    pub transport: Option<String>,
    pub tags: Vec<String>,
}

/// A pattern with its texts as sequences of characters.
pub struct MessagePatternView {
    pub session_id: Option<Seq<char>>,
    pub device_name: Option<Seq<char>>,
    pub message_type: Option<MessageType>,
    pub transport: Option<Seq<char>>,
    pub tags: Seq<Seq<char>>,
}

impl MessagePatternView {
    /// Whether `message` meets every condition that is set: the same
    /// session, device, type and transport, and each of the tags.
    pub open spec fn admits(self, message: MessageView) -> bool {
        &&& self.session_id is Some ==> message.session_id == self.session_id.unwrap()
        &&& self.device_name is Some ==> message.device_name == self.device_name.unwrap()
        &&& self.message_type is Some ==> message.message_type == self.message_type.unwrap()
        &&& self.transport is Some ==> message.metadata.transport == self.transport.unwrap()
        &&& has_all_tags(message.metadata.tags, self.tags)
    }
}

impl View for MessagePattern {
    type V = MessagePatternView;

    open spec fn view(&self) -> MessagePatternView {
        MessagePatternView {
            session_id: self.session_id.deep_view(),
            device_name: self.device_name.deep_view(),
            message_type: self.message_type,
            transport: self.transport.deep_view(),
            tags: self.tags.deep_view(),
        }
    }
}

impl MessagePattern {
    /// The pattern that admits every message.
    pub fn new() -> (pattern: MessagePattern)
        ensures
            pattern@ == (MessagePatternView {
                session_id: None,
                device_name: None,
                message_type: None,
                transport: None,
                tags: Seq::empty(),
            }),
    {
        let tags: Vec<String> = Vec::new();
        assert(tags.deep_view() =~= Seq::<Seq<char>>::empty());
        MessagePattern { session_id: None, device_name: None, message_type: None, transport: None, tags }
    }

    /// The pattern that also asks for the given session.
    pub fn with_session_id(self, session_id: String) -> (pattern: MessagePattern)
        ensures
            pattern@ == (MessagePatternView { session_id: Some(session_id@), ..self@ }),
    {
        let mut pattern = self;
        pattern.session_id = Some(session_id);
        pattern
    }

    /// The pattern that also asks for the given device.
    pub fn with_device_name(self, device_name: String) -> (pattern: MessagePattern)
        ensures
            pattern@ == (MessagePatternView { device_name: Some(device_name@), ..self@ }),
    {
        let mut pattern = self;
        pattern.device_name = Some(device_name);
        pattern
    }

    /// The pattern that also asks for the given type.
    pub fn with_message_type(self, message_type: MessageType) -> (pattern: MessagePattern)
        ensures
            pattern@ == (MessagePatternView { message_type: Some(message_type), ..self@ }),
    {
        let mut pattern = self;
        pattern.message_type = Some(message_type);
        pattern
    }

    /// The pattern that also asks for the given transport.
    pub fn with_transport(self, transport: String) -> (pattern: MessagePattern)
        ensures
            pattern@ == (MessagePatternView { transport: Some(transport@), ..self@ }),
    {
        let mut pattern = self;
        pattern.transport = Some(transport);
        pattern
    }

    /// The pattern that also asks for the given tag.
    pub fn with_tag(self, tag: String) -> (pattern: MessagePattern)
        ensures
            pattern@ == (MessagePatternView { tags: self@.tags.push(tag@), ..self@ }),
    {
        let mut pattern = self;
        let ghost before = pattern.tags.deep_view();
        pattern.tags.push(tag);
        assert(pattern.tags.deep_view() =~= before.push(tag@));
        pattern
    }
}

impl Default for MessagePattern {
    fn default() -> (pattern: MessagePattern)
        ensures
            pattern@ == (MessagePatternView {
                session_id: None,
                device_name: None,
                message_type: None,
                transport: None,
                tags: Seq::empty(),
            }),
    {
        MessagePattern::new()
    }
}

impl Clone for MessagePattern {
    fn clone(&self) -> (copy: Self)
        ensures
            copy@ == self@,
    {
        let session_id = match &self.session_id {
            Some(text) => Some(text.clone()),
            None => None,
        };
        let device_name = match &self.device_name {
            Some(text) => Some(text.clone()),
            None => None,
        };
        let transport = match &self.transport {
            Some(text) => Some(text.clone()),
            None => None,
        };
        MessagePattern {
            session_id,
            device_name,
            message_type: self.message_type,
            transport,
            tags: copy_strings(&self.tags),
        }
    }
}

} // verus!
