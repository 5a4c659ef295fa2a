//! Typed descriptions of the outbound REST calls and their error taxonomy.

pub mod access_token;
pub mod common;
pub mod error;
pub mod send_group_message;
pub mod send_subscriber_message;

pub use self::access_token::GetAccessToken;
pub use self::error::ApiError;
pub use self::send_group_message::SendGroupMessage;
pub use self::send_subscriber_message::SendSubscriberMessage;
