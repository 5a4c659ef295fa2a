//! The application configuration, as plain values. Reading it from the
//! configuration file and the environment happens outside the library.

use vstd::prelude::*;

verus! {

/// The source platform's credentials.
#[derive(Debug, Clone)]
pub struct TelegramConfig {
    pub api_token: String,
}

/// The chat platform's host and application credentials.
#[derive(Debug, Clone)]
pub struct SeatalkConfig {
    pub host: String,
    pub app_id: String,
    pub app_secret: String,
}

/// The whole configuration.
#[derive(Debug, Clone)]
pub struct AppConfig {
    pub telegram: TelegramConfig,
    pub seatalk: SeatalkConfig,
}

impl AppConfig {
    /// Assembles the configuration from its two sections.
    pub fn new(telegram: TelegramConfig, seatalk: SeatalkConfig) -> (r: Self)
        ensures
            r.telegram == telegram,
            r.seatalk == seatalk,
    {
        AppConfig { telegram, seatalk }
    }
}

} // verus!
