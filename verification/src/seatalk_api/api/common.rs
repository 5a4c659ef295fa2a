//! Response payload shapes shared by several endpoints, and the kind of an
//! outbound chat message.

use vstd::prelude::*;

verus! {

/// The bare response envelope: only the numeric status code.
#[derive(Debug, Clone)]
pub struct Code {
    pub code: u32,
}

/// The response to a message post: status code plus the id the remote side
/// assigned to the new message.
#[derive(Debug, Clone)]
pub struct MessageCode {
    pub code: u32,
    pub message_id: String,
}

/// Whether an outbound message carries markdown text or a base64 image.
#[derive(Debug, Clone, Copy, PartialEq, Eq, Structural)]
pub enum MessageType {
    Text,
    Image,
}

/// The wire tag a message of this kind is serialized under.
pub open spec fn spec_message_tag(t: MessageType) -> Seq<char> {
    match t {
        MessageType::Text => ("text")@,
        MessageType::Image => ("image")@,
    }
}

impl MessageType {
    /// The wire tag of this message kind.
    pub fn tag(&self) -> (s: &'static str)
        ensures
            s@ == spec_message_tag(*self),
    {
        match self {
            MessageType::Text => "text",
            MessageType::Image => "image",
        }
    }
}

} // verus!
