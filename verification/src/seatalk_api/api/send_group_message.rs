//! The group-chat message endpoint: a text or image message, optionally
//! quoting a message and optionally placed inside a thread.

use vstd::prelude::*;

use crate::seatalk_api::endpoint::{Endpoint, HttpMethod};
use crate::text::{push_dec_u64, push_json_opt_str, push_json_str, spec_dec, spec_json_opt_str, spec_json_str};

use super::common::MessageType;

verus! {

/// A request to post one message into a group chat.
#[derive(Debug, Clone)]
pub struct SendGroupMessage {
    pub group_id: String,
    pub message: GroupMessage,
}

/// The message payload, tagged by its kind on the wire.
#[derive(Debug, Clone)]
pub enum GroupMessage {
    Text { text: TextGroupMessage, quoted_message_id: Option<String>, thread_id: Option<String> },
    Image { image: ImageGroupMessage, quoted_message_id: Option<String>, thread_id: Option<String> },
}

/// Markdown text content; `format` is always 1 on the wire.
#[derive(Debug, Clone)]
pub struct TextGroupMessage {
    pub format: u8,
    pub content: String,
}

/// Base64-encoded image content.
#[derive(Debug, Clone)]
pub struct ImageGroupMessage {
    pub content: String,
}

/// The JSON document for the tagged message payload.
pub open spec fn spec_group_payload_doc(m: GroupMessage) -> Seq<char> {
    match m {
        GroupMessage::Text { text, quoted_message_id, thread_id } => ("{\"tag\":\"text\",\"text\":{\"format\":")@
            + spec_dec(text.format as nat) + (",\"content\":")@ + spec_json_str(text.content@) + (
        "},\"quoted_message_id\":")@ + spec_json_opt_str(quoted_message_id.deep_view()) + (
        ",\"thread_id\":")@ + spec_json_opt_str(thread_id.deep_view()) + ("}")@,
        GroupMessage::Image { image, quoted_message_id, thread_id } => ("{\"tag\":\"image\",\"image\":{\"content\":")@
            + spec_json_str(image.content@) + ("},\"quoted_message_id\":")@ + spec_json_opt_str(
            quoted_message_id.deep_view()) + (",\"thread_id\":")@ + spec_json_opt_str(
            thread_id.deep_view()) + ("}")@,
    }
}

/// The JSON document for the whole request body.
pub open spec fn spec_group_message_doc(m: SendGroupMessage) -> Seq<char> {
    ("{\"group_id\":")@ + spec_json_str(m.group_id@) + (",\"message\":")@ + spec_group_payload_doc(
        m.message) + ("}")@
}

impl SendGroupMessage {
    /// Builds a text or image group message according to `message_type`.
    pub fn new(
        group_id: &str,
        thread_id: Option<String>,
        text: &str,
        message_type: MessageType,
        quoted_message_id: Option<String>,
    ) -> (r: Self)
        ensures
            r.group_id@ == group_id@,
            message_type is Text ==> (r.message matches GroupMessage::Text {
                text: t,
                quoted_message_id: q,
                thread_id: th,
            } && t.format == 1 && t.content@ == text@ && q == quoted_message_id && th == thread_id),
            message_type is Image ==> (r.message matches GroupMessage::Image {
                image: im,
                quoted_message_id: q,
                thread_id: th,
            } && im.content@ == text@ && q == quoted_message_id && th == thread_id),
    {
        match message_type {
            MessageType::Text => Self::new_text_message(group_id, thread_id, text, quoted_message_id),
            MessageType::Image => Self::new_image_message(group_id, thread_id, text, quoted_message_id),
        }
    }

    /// Builds a text group message with wire format 1.
    pub fn new_text_message(
        group_id: &str,
        thread_id: Option<String>,
        text: &str,
        quoted_message_id: Option<String>,
    ) -> (r: Self)
        ensures
            r.group_id@ == group_id@,
            r.message matches GroupMessage::Text { text: t, quoted_message_id: q, thread_id: th }
                && t.format == 1 && t.content@ == text@ && q == quoted_message_id && th
                == thread_id,
    {
        SendGroupMessage {
            group_id: group_id.to_owned(),
            message: GroupMessage::Text {
                text: TextGroupMessage { format: 1, content: text.to_owned() },
                quoted_message_id,
                thread_id,
            },
        }
    }

    /// Builds an image group message; `text` is the base64 image content.
    pub fn new_image_message(
        group_id: &str,
        thread_id: Option<String>,
        text: &str,
        quoted_message_id: Option<String>,
    ) -> (r: Self)
        ensures
            r.group_id@ == group_id@,
            r.message matches GroupMessage::Image { image: im, quoted_message_id: q, thread_id: th }
                && im.content@ == text@ && q == quoted_message_id && th == thread_id,
    {
        SendGroupMessage {
            group_id: group_id.to_owned(),
            message: GroupMessage::Image {
                image: ImageGroupMessage { content: text.to_owned() },
                quoted_message_id,
                thread_id,
            },
        }
    }
}

impl Endpoint for SendGroupMessage {
    open spec fn spec_method(&self) -> HttpMethod {
        HttpMethod::Post
    }

    open spec fn spec_path(&self) -> Seq<char> {
        ("messaging/v2/group_chat")@
    }

    open spec fn spec_body_doc(&self) -> Option<Seq<char>> {
        Option::Some(spec_group_message_doc(*self))
    }

    open spec fn spec_require_auth(&self) -> bool {
        true
    }

    fn method(&self) -> (m: HttpMethod) {
        HttpMethod::Post
    }

    fn endpoint(&self) -> (p: &'static str) {
        "messaging/v2/group_chat"
    }

    fn body(&self) -> (b: Option<(&'static str, String)>) {
        let mut out = String::new();
        out.append("{\"group_id\":");
        push_json_str(&mut out, self.group_id.as_str());
        out.append(",\"message\":");
        match &self.message {
            GroupMessage::Text { text, quoted_message_id, thread_id } => {
                out.append("{\"tag\":\"text\",\"text\":{\"format\":");
                push_dec_u64(&mut out, text.format as u64);
                out.append(",\"content\":");
                push_json_str(&mut out, text.content.as_str());
                out.append("},\"quoted_message_id\":");
                push_json_opt_str(&mut out, quoted_message_id);
                out.append(",\"thread_id\":");
                push_json_opt_str(&mut out, thread_id);
                out.append("}");
            },
            GroupMessage::Image { image, quoted_message_id, thread_id } => {
                out.append("{\"tag\":\"image\",\"image\":{\"content\":");
                push_json_str(&mut out, image.content.as_str());
                out.append("},\"quoted_message_id\":");
                push_json_opt_str(&mut out, quoted_message_id);
                out.append(",\"thread_id\":");
                push_json_opt_str(&mut out, thread_id);
                out.append("}");
            },
        }
        out.append("}");
        proof {
            assert(out@ =~= spec_group_message_doc(*self));
        }
        Option::Some(("application/json", out))
    }

    fn require_auth(&self) -> (r: bool) {
        true
    }
}

} // verus!
