//! What a client reports about the bytes that went over its wire.

use crate::time::Timestamp;
use vstd::prelude::*;

verus! {

/// The way that bytes went.
#[derive(Clone, Copy, Debug, PartialEq, Eq, Structural)]
pub enum MessageDirection {
    Sent,
    Received,
}

/// Bytes that went over a serial line.
#[derive(Debug)]
pub struct SerialMessage {
    pub timestamp: Timestamp,
    pub direction: MessageDirection,
    pub data: Vec<u8>,
}

/// Bytes that went over a TCP connection.
#[derive(Debug)]
pub struct TcpMessage {
    pub timestamp: Timestamp,
    pub direction: MessageDirection,
    pub data: Vec<u8>,
}

impl Clone for SerialMessage {
    fn clone(&self) -> (copy: Self)
        ensures
            copy.timestamp == self.timestamp,
            copy.direction == self.direction,
            copy.data@ == self.data@,
    {
        let data = self.data.clone();
        assert(data@ =~= self.data@);
        SerialMessage { timestamp: self.timestamp, direction: self.direction, data }
    }
}

impl Clone for TcpMessage {
    fn clone(&self) -> (copy: Self)
        ensures
            copy.timestamp == self.timestamp,
            copy.direction == self.direction,
            copy.data@ == self.data@,
    {
        let data = self.data.clone();
        assert(data@ =~= self.data@);
        TcpMessage { timestamp: self.timestamp, direction: self.direction, data }
    }
}

} // verus!
