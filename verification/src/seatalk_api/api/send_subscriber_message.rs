//! The subscriber direct-message endpoint: a text or image message to one
//! bot subscriber.

use vstd::prelude::*;

use crate::seatalk_api::endpoint::{Endpoint, HttpMethod};
use crate::text::{push_dec_u64, push_json_str, spec_dec, spec_json_str};

use super::common::MessageType;

verus! {

/// A request to send one direct message to a subscriber.
#[derive(Debug, Clone)]
pub struct SendSubscriberMessage {
    pub employee_code: String,
    pub message: SubscriberMessage,
}

/// The message payload, tagged by its kind on the wire.
#[derive(Debug, Clone)]
pub enum SubscriberMessage {
    Text { text: TextSubscriberMessage },
    Image { image: ImageSubscriberMessage },
}

/// Markdown text content; `format` is always 1 on the wire.
#[derive(Debug, Clone)]
pub struct TextSubscriberMessage {
    pub format: u8,
    pub content: String,
}

/// Base64-encoded image content.
#[derive(Debug, Clone)]
pub struct ImageSubscriberMessage {
    pub content: String,
}

/// The JSON document for the tagged message payload.
pub open spec fn spec_subscriber_payload_doc(m: SubscriberMessage) -> Seq<char> {
    match m {
        SubscriberMessage::Text { text } => ("{\"tag\":\"text\",\"text\":{\"format\":")@ + spec_dec(
            text.format as nat) + (",\"content\":")@ + spec_json_str(text.content@) + ("}}")@,
        SubscriberMessage::Image { image } => ("{\"tag\":\"image\",\"image\":{\"content\":")@
            + spec_json_str(image.content@) + ("}}")@,
    }
}

/// The JSON document for the whole request body.
pub open spec fn spec_subscriber_message_doc(m: SendSubscriberMessage) -> Seq<char> {
    ("{\"employee_code\":")@ + spec_json_str(m.employee_code@) + (",\"message\":")@
        + spec_subscriber_payload_doc(m.message) + ("}")@
}

impl SendSubscriberMessage {
    /// Builds a text or image subscriber message according to `message_type`.
    pub fn new(employee_code: &str, message_type: MessageType, content: &str) -> (r: Self)
        ensures
            r.employee_code@ == employee_code@,
            message_type is Text ==> (r.message matches SubscriberMessage::Text { text: t }
                && t.format == 1 && t.content@ == content@),
            message_type is Image ==> (r.message matches SubscriberMessage::Image { image: im }
                && im.content@ == content@),
    {
        match message_type {
            MessageType::Text => SendSubscriberMessage {
                employee_code: employee_code.to_owned(),
                message: SubscriberMessage::Text {
                    text: TextSubscriberMessage { format: 1, content: content.to_owned() },
                },
            },
            MessageType::Image => SendSubscriberMessage {
                employee_code: employee_code.to_owned(),
                message: SubscriberMessage::Image {
                    image: ImageSubscriberMessage { content: content.to_owned() },
                },
            },
        }
    }
}

impl Endpoint for SendSubscriberMessage {
    open spec fn spec_method(&self) -> HttpMethod {
        HttpMethod::Post
    }

    open spec fn spec_path(&self) -> Seq<char> {
        ("messaging/v2/single_chat")@
    }

    open spec fn spec_body_doc(&self) -> Option<Seq<char>> {
        Option::Some(spec_subscriber_message_doc(*self))
    }

    open spec fn spec_require_auth(&self) -> bool {
        true
    }

    fn method(&self) -> (m: HttpMethod) {
        HttpMethod::Post
    }

    fn endpoint(&self) -> (p: &'static str) {
        "messaging/v2/single_chat"
    }

    fn body(&self) -> (b: Option<(&'static str, String)>) {
        let mut out = String::new();
        out.append("{\"employee_code\":");
        push_json_str(&mut out, self.employee_code.as_str());
        out.append(",\"message\":");
        match &self.message {
            SubscriberMessage::Text { text } => {
                out.append("{\"tag\":\"text\",\"text\":{\"format\":");
                push_dec_u64(&mut out, text.format as u64);
                out.append(",\"content\":");
                push_json_str(&mut out, text.content.as_str());
                out.append("}}");
            },
            SubscriberMessage::Image { image } => {
                out.append("{\"tag\":\"image\",\"image\":{\"content\":");
                push_json_str(&mut out, image.content.as_str());
                out.append("}}");
            },
        }
        out.append("}");
        proof {
            assert(out@ =~= spec_subscriber_message_doc(*self));
        }
        Option::Some(("application/json", out))
    }

    fn require_auth(&self) -> (r: bool) {
        true
    }
}

} // verus!
