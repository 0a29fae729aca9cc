//! Failures of the engine binding.

use vstd::prelude::*;
use vstd::string::StringExecFns;
use crate::libmpv::text::{join2, join4};

verus! {

/// What a call into the engine can fail with. `code` is the engine's own
/// text for its error number.
#[derive(Debug, Clone, PartialEq, Eq)]
pub enum Error {
    Create,
    ClientCreation,
    Initialize(String),
    SetOption { key: String, code: String },
    GetProperty { key: String, code: String },
    Event { code: String, event_id: String },
    RenderContextCreation(String),
    Render(String),
    Command { name: String, code: String },
    SetProperty { key: String, code: String },
    PropertyObserve { name: String, code: String },
    LoadConfig { path: String, code: String },
    InvalidCString,
    NodeConversion(String),
    PropertyConversion(String),
}

impl Error {
    /// The text of the failure, as a reader of a log sees it.
    pub open spec fn message_text(self) -> Seq<char> {
        match self {
            Error::Create => "Failed to create mpv handle"@,
            Error::ClientCreation => "Failed to create mpv client handle"@,
            Error::Initialize(m) => "Failed to initialize mpv core: "@ + m@,
            Error::SetOption { key, code } => "Failed to set option '"@ + key@ + "': "@ + code@,
            Error::GetProperty { key, code } => "Failed to get property '"@ + key@ + "': "@
                + code@,
            Error::Event { code, event_id } => "Error processing event (id: "@ + event_id@
                + "): "@ + code@,
            Error::RenderContextCreation(m) => "Failed to create render context: "@ + m@,
            Error::Render(m) => "Failed to render frame: "@ + m@,
            Error::Command { name, code } => "Failed to execute command '"@ + name@ + "': "@
                + code@,
            Error::SetProperty { key, code } => "Failed to set property '"@ + key@ + "': "@
                + code@,
            Error::PropertyObserve { name, code } => "Failed to observe property '"@ + name@
                + "': "@ + code@,
            Error::LoadConfig { path, code } => "Failed to load config file at '"@ + path@
                + "': "@ + code@,
            Error::InvalidCString => "Invalid C-style string provided"@,
            Error::NodeConversion(m) => "Failed to convert node: "@ + m@,
            Error::PropertyConversion(m) => "Failed to convert property: "@ + m@,
        }
    }

    /// Renders the failure as text.
    pub fn message(&self) -> (res: String)
        ensures
            res@ == self.message_text(),
    {
        match self {
            Error::Create => String::from_str("Failed to create mpv handle"),
            Error::ClientCreation => String::from_str("Failed to create mpv client handle"),
            Error::Initialize(m) => join2("Failed to initialize mpv core: ", m.as_str()),
            Error::SetOption { key, code } => join4(
                "Failed to set option '",
                key.as_str(),
                "': ",
                code.as_str(),
            ),
            Error::GetProperty { key, code } => join4(
                "Failed to get property '",
                key.as_str(),
                "': ",
                code.as_str(),
            ),
            Error::Event { code, event_id } => join4(
                "Error processing event (id: ",
                event_id.as_str(),
                "): ",
                code.as_str(),
            ),
            Error::RenderContextCreation(m) => join2(
                "Failed to create render context: ",
                m.as_str(),
            ),
            Error::Render(m) => join2("Failed to render frame: ", m.as_str()),
            Error::Command { name, code } => join4(
                "Failed to execute command '",
                name.as_str(),
                "': ",
                code.as_str(),
            ),
            Error::SetProperty { key, code } => join4(
                "Failed to set property '",
                key.as_str(),
                "': ",
                code.as_str(),
            ),
            Error::PropertyObserve { name, code } => join4(
                "Failed to observe property '",
                name.as_str(),
                "': ",
                code.as_str(),
            ),
            Error::LoadConfig { path, code } => join4(
                "Failed to load config file at '",
                path.as_str(),
                "': ",
                code.as_str(),
            ),
            Error::InvalidCString => String::from_str("Invalid C-style string provided"),
            Error::NodeConversion(m) => join2("Failed to convert node: ", m.as_str()),
            Error::PropertyConversion(m) => join2("Failed to convert property: ", m.as_str()),
        }
    }
}

} // verus!
