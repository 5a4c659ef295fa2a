//! The inbound webhook events: a closed union over challenge verification,
//! subscriber direct messages, and group-chat mentions. Unrecognized shapes
//! are rejected at the HTTP boundary before reaching these types.

use vstd::prelude::*;

verus! {

/// One inbound webhook event, discriminated by its wire `event_type`.
#[derive(Debug, Clone)]
pub enum ReceivedMessage {
    /// Wire tag `event_verification`.
    EventVerification {
        event_id: String,
        timestamp: u64,
        app_id: String,
        event: SeatalkChallengeEvent,
    },
    /// Wire tag `message_from_bot_subscriber`.
    MessageFromBotSubscriber {
        event_id: String,
        timestamp: u64,
        app_id: String,
        event: SubscriberMessageEvent,
    },
    /// Wire tag `new_mentioned_message_received_from_group_chat`.
    NewMentionedMessageFromGroupChat {
        event_id: String,
        timestamp: u64,
        app_id: String,
        event: MentionedFromGroupChatEvent,
    },
}

/// The challenge value to echo back on verification.
#[derive(Debug, Clone)]
pub struct SeatalkChallengeEvent {
    pub seatalk_challenge: String,
}

/// A direct message from a bot subscriber.
#[derive(Debug, Clone)]
pub struct SubscriberMessageEvent {
    pub employee_code: String,
    pub message: SubscriberMessage,
}

/// The message a subscriber sent.
#[derive(Debug, Clone)]
pub struct SubscriberMessage {
    pub tag: String,
    pub text: SubscriberMessageContent,
}

/// The text content of a subscriber message.
#[derive(Debug, Clone)]
pub struct SubscriberMessageContent {
    pub content: String,
}

/// A mention of the bot in a group chat.
#[derive(Debug, Clone)]
pub struct MentionedFromGroupChatEvent {
    pub group_id: String,
    pub message: MentionedMessage,
}

/// The mentioning message, with its threading keys.
#[derive(Debug, Clone)]
pub struct MentionedMessage {
    pub message_id: String,
    pub quoted_message_id: String,
    pub thread_id: Option<String>,
    pub sender: Sender,
    pub message_sent_time: u64,
    pub tag: String,
    pub text: MentionedMessageContent,
}

/// Who sent the mentioning message.
#[derive(Debug, Clone)]
pub struct Sender {
    pub seatalk_id: String,
    pub employee_code: String,
    pub sender_type: Option<u8>,
}

/// The text of the mentioning message and who it mentions.
#[derive(Debug, Clone)]
pub struct MentionedMessageContent {
    pub plain_text: String,
    pub mentioned_list: Vec<Mention>,
}

/// One mentioned account.
#[derive(Debug, Clone)]
pub struct Mention {
    pub username: String,
    pub seatalk_id: String,
}

} // verus!
