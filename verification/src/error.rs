//! Error type shared by the library.
use crate::text::concat2;
use vstd::prelude::*;

verus! {

/// Failure categories reported by routing, daemon and setup operations.
#[derive(Debug)]
pub enum RustyJackError {
    Config(String),
    CoreAudio(String),
    Launchd(String),
    AppLaunch(String),
    Speaker(String),
    /// An I/O failure, carried as its rendered message.
    Io(String),
}

impl RustyJackError {
    /// The message carried by the error, whatever its category.
    pub open spec fn detail(&self) -> Seq<char> {
        match self {
            RustyJackError::Config(m) => m@,
            RustyJackError::CoreAudio(m) => m@,
            RustyJackError::Launchd(m) => m@,
            RustyJackError::AppLaunch(m) => m@,
            RustyJackError::Speaker(m) => m@,
            RustyJackError::Io(m) => m@,
        }
    }

    /// The category prefix of the rendered error.
    pub open spec fn category(&self) -> Seq<char> {
        match self {
            RustyJackError::Config(_) => "configuration error: "@,
            RustyJackError::CoreAudio(_) => "coreaudio error: "@,
            RustyJackError::Launchd(_) => "launchd error: "@,
            RustyJackError::AppLaunch(_) => "app launch error: "@,
            RustyJackError::Speaker(_) => "speaker wake error: "@,
            RustyJackError::Io(_) => "io error: "@,
        }
    }

    /// Inner message without the category prefix (for structured logs).
    pub fn detail_message(&self) -> (r: String)
        ensures
            r@ == self.detail(),
    {
        match self {
            RustyJackError::Config(m) => m.clone(),
            RustyJackError::CoreAudio(m) => m.clone(),
            RustyJackError::Launchd(m) => m.clone(),
            RustyJackError::AppLaunch(m) => m.clone(),
            RustyJackError::Speaker(m) => m.clone(),
            RustyJackError::Io(m) => m.clone(),
        }
    }

    /// Rendered error: the category prefix followed by the message.
    pub fn message(&self) -> (r: String)
        ensures
            r@ == self.category() + self.detail(),
    {
        let prefix = match self {
            RustyJackError::Config(_) => "configuration error: ",
            RustyJackError::CoreAudio(_) => "coreaudio error: ",
            RustyJackError::Launchd(_) => "launchd error: ",
            RustyJackError::AppLaunch(_) => "app launch error: ",
            RustyJackError::Speaker(_) => "speaker wake error: ",
            RustyJackError::Io(_) => "io error: ",
        };
        let d = self.detail_message();
        concat2(prefix, d.as_str())
    }
}

} // verus!
