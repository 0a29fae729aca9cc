//! The failures that the control plane reports to the frontend.

use vstd::prelude::*;
use vstd::string::StringExecFns;
use crate::libmpv;
use crate::libmpv::binding::{call_result, is_failure, status_text, EngineCall};
use crate::libmpv::text::{join2, join3, join4};

verus! {

/// A failure of one of the public operations.
#[derive(Debug, Clone, PartialEq, Eq)]
pub enum Error {
    /// The host has no window with this label.
    WindowNotFound(String),
    /// The window's native handle could not be had.
    WindowHandle,
    /// The platform cannot be supported; the text says why.
    UnsupportedPlatform(String),
    /// The window with this label has no live player.
    InstanceNotFound(String),
    /// An option was rejected before initialization, or initialization
    /// failed.
    EngineInit(String),
    /// The engine rejected the named command.
    EngineCommand { name: String, code: String },
    /// The engine rejected writing the property.
    EngineSetProperty { key: String, code: String },
    /// The engine rejected reading the property.
    EngineGetProperty { key: String, code: String },
    /// A value that cannot be written to a property.
    BadValue(String),
    /// GL setup or the creation of the render context failed.
    RenderInit(String),
    /// A fault inside the render loop.
    Render(String),
}

impl Error {
    /// The failure of the control plane that an engine failure is reported
    /// as where nothing is known of the call that failed. A rejected command
    /// or property access keeps its name and code; a failure of building the
    /// engine, or of a text that cannot be handed to it, becomes
    /// `EngineInit`; that of creating the render context `RenderInit`; and
    /// that of rendering or of reading an event or a value of an event
    /// `Render`; each of the latter with the engine failure's text.
    pub open spec fn spec_from(e: libmpv::Error) -> ErrorModel {
        match e {
            libmpv::Error::Command { name, code } => ErrorModel::EngineCommand(name@, code@),
            libmpv::Error::SetProperty { key, code } => ErrorModel::EngineSetProperty(
                key@,
                code@,
            ),
            libmpv::Error::GetProperty { key, code } => ErrorModel::EngineGetProperty(
                key@,
                code@,
            ),
            libmpv::Error::RenderContextCreation(_) => ErrorModel::RenderInit(e.message_text()),
            libmpv::Error::Render(_) => ErrorModel::Render(e.message_text()),
            libmpv::Error::Event { .. } => ErrorModel::Render(e.message_text()),
            libmpv::Error::NodeConversion(_) => ErrorModel::Render(e.message_text()),
            libmpv::Error::PropertyConversion(_) => ErrorModel::Render(e.message_text()),
            _ => ErrorModel::EngineInit(e.message_text()),
        }
    }

    /// The engine failure says nothing of the call that it came from.
    pub open spec fn is_unnamed(e: libmpv::Error) -> bool {
        e is InvalidCString || e is NodeConversion || e is PropertyConversion
    }

    /// The failure of the control plane that a failure of the given call is
    /// reported as. A failure that says nothing of its call is reported as
    /// the failure of that call, with the engine failure's text as the code:
    /// of the command, of writing or of reading the property; for any other
    /// call as `EngineInit`. Every other failure is reported as `spec_from`
    /// says.
    pub open spec fn spec_in_call(call: EngineCall, e: libmpv::Error) -> ErrorModel {
        if Self::is_unnamed(e) {
            match call {
                EngineCall::Command(name) => ErrorModel::EngineCommand(name@, e.message_text()),
                EngineCall::SetProperty(key) => ErrorModel::EngineSetProperty(
                    key@,
                    e.message_text(),
                ),
                EngineCall::GetProperty(key) => ErrorModel::EngineGetProperty(
                    key@,
                    e.message_text(),
                ),
                _ => ErrorModel::EngineInit(e.message_text()),
            }
        } else {
            Self::spec_from(e)
        }
    }

    /// Reports an engine failure as a failure of the control plane, where
    /// nothing is known of the call that failed.
    pub fn from(e: libmpv::Error) -> (res: Error)
        ensures
            res@ == Self::spec_from(e),
    {
        match e {
            libmpv::Error::Command { name, code } => Error::EngineCommand { name, code },
            libmpv::Error::SetProperty { key, code } => Error::EngineSetProperty { key, code },
            libmpv::Error::GetProperty { key, code } => Error::EngineGetProperty { key, code },
            libmpv::Error::RenderContextCreation(_) => Error::RenderInit(e.message()),
            libmpv::Error::Render(_) => Error::Render(e.message()),
            libmpv::Error::Event { .. } => Error::Render(e.message()),
            libmpv::Error::NodeConversion(_) => Error::Render(e.message()),
            libmpv::Error::PropertyConversion(_) => Error::Render(e.message()),
            _ => Error::EngineInit(e.message()),
        }
    }

    /// Reports the failure of a call into the engine as a failure of the
    /// control plane.
    pub fn in_call(call: EngineCall, e: libmpv::Error) -> (res: Error)
        ensures
            res@ == Self::spec_in_call(call, e),
    {
        let unnamed = match &e {
            libmpv::Error::InvalidCString => true,
            libmpv::Error::NodeConversion(_) => true,
            libmpv::Error::PropertyConversion(_) => true,
            _ => false,
        };
        if unnamed {
            let code = e.message();
            match call {
                EngineCall::Command(name) => Error::EngineCommand { name, code },
                EngineCall::SetProperty(key) => Error::EngineSetProperty { key, code },
                EngineCall::GetProperty(key) => Error::EngineGetProperty { key, code },
                _ => Error::EngineInit(code),
            }
        } else {
            Error::from(e)
        }
    }

    /// The failure of the control plane for a call that the engine answered
    /// with a failing status, `code` being the engine's text for the status:
    /// a command or a property access keeps its name and the code, any other
    /// call is an `EngineInit` with the text of the engine failure.
    pub open spec fn rejected(call: EngineCall, code: Seq<char>) -> ErrorModel {
        match call {
            EngineCall::Command(name) => ErrorModel::EngineCommand(name@, code),
            EngineCall::SetProperty(key) => ErrorModel::EngineSetProperty(key@, code),
            EngineCall::GetProperty(key) => ErrorModel::EngineGetProperty(key@, code),
            EngineCall::Initialize => ErrorModel::EngineInit(
                "Failed to initialize mpv core: "@ + code,
            ),
            EngineCall::SetOption(key) => ErrorModel::EngineInit(
                "Failed to set option '"@ + key@ + "': "@ + code,
            ),
            EngineCall::ObserveProperty(name) => ErrorModel::EngineInit(
                "Failed to observe property '"@ + name@ + "': "@ + code,
            ),
            EngineCall::LoadConfigFile(path) => ErrorModel::EngineInit(
                "Failed to load config file at '"@ + path@ + "': "@ + code,
            ),
        }
    }

    /// The result of an operation from the status that the engine returned
    /// for its call, and the engine's text for that status: success unless
    /// the status is below zero, else the call's failure as the control
    /// plane reports it.
    pub fn call_outcome(call: EngineCall, status: i32, text: Option<&str>) -> (res: Result<
        (),
        Error,
    >)
        ensures
            !is_failure(status) ==> res is Ok,
            is_failure(status) ==> res is Err && res->Err_0@ == Self::rejected(
                call,
                status_text(
                    match text {
                        Some(t) => Some(t@),
                        None => None,
                    },
                ),
            ),
    {
        match call_result(call, status, text) {
            Ok(_) => Ok(()),
            Err(e) => Err(Error::from(e)),
        }
    }

    /// The text that the frontend receives for the failure.
    pub open spec fn message_text(self) -> Seq<char> {
        match self {
            Error::WindowNotFound(label) => "Not found window with label '"@ + label@ + "'"@,
            Error::WindowHandle => "Failed to get window handle"@,
            Error::UnsupportedPlatform(detail) => "Unsupported platform for mpv integration: "@
                + detail@,
            Error::InstanceNotFound(label) => "mpv instance not found: mpv instance for window label '"@
                + label@ + "' not found"@,
            Error::EngineInit(m) => "mpv initialization failed: "@ + m@,
            Error::EngineCommand { name, code } => "Command Error: Command '"@ + name@
                + "' failed: "@ + code@,
            Error::EngineSetProperty { key, code } => "Set Property Error: Property '"@ + key@
                + "' failed: "@ + code@,
            Error::EngineGetProperty { key, code } => "Get Property Error: Property '"@ + key@
                + "' failed: "@ + code@,
            Error::BadValue(detail) => "Set Property Error: "@ + detail@,
            Error::RenderInit(m) => "mpv initialization failed: "@ + m@,
            Error::Render(m) => "Render Error: "@ + m@,
        }
    }

    /// Renders the failure as the text that the frontend receives.
    pub fn message(&self) -> (res: String)
        ensures
            res@ == self.message_text(),
    {
        match self {
            Error::WindowNotFound(label) => join3(
                "Not found window with label '",
                label.as_str(),
                "'",
            ),
            Error::WindowHandle => String::from_str("Failed to get window handle"),
            Error::UnsupportedPlatform(detail) => join2(
                "Unsupported platform for mpv integration: ",
                detail.as_str(),
            ),
            Error::InstanceNotFound(label) => join3(
                "mpv instance not found: mpv instance for window label '",
                label.as_str(),
                "' not found",
            ),
            Error::EngineInit(m) => join2("mpv initialization failed: ", m.as_str()),
            Error::EngineCommand { name, code } => join4(
                "Command Error: Command '",
                name.as_str(),
                "' failed: ",
                code.as_str(),
            ),
            Error::EngineSetProperty { key, code } => join4(
                "Set Property Error: Property '",
                key.as_str(),
                "' failed: ",
                code.as_str(),
            ),
            Error::EngineGetProperty { key, code } => join4(
                "Get Property Error: Property '",
                key.as_str(),
                "' failed: ",
                code.as_str(),
            ),
            Error::BadValue(detail) => join2("Set Property Error: ", detail.as_str()),
            Error::RenderInit(m) => join2("mpv initialization failed: ", m.as_str()),
            Error::Render(m) => join2("Render Error: ", m.as_str()),
        }
    }
}

/// The mathematical value of an `Error`.
pub enum ErrorModel {
    WindowNotFound(Seq<char>),
    WindowHandle,
    UnsupportedPlatform(Seq<char>),
    InstanceNotFound(Seq<char>),
    EngineInit(Seq<char>),
    EngineCommand(Seq<char>, Seq<char>),
    EngineSetProperty(Seq<char>, Seq<char>),
    EngineGetProperty(Seq<char>, Seq<char>),
    BadValue(Seq<char>),
    RenderInit(Seq<char>),
    Render(Seq<char>),
}

impl View for Error {
    type V = ErrorModel;

    open spec fn view(&self) -> ErrorModel {
        match *self {
            Error::WindowNotFound(label) => ErrorModel::WindowNotFound(label@),
            Error::WindowHandle => ErrorModel::WindowHandle,
            Error::UnsupportedPlatform(detail) => ErrorModel::UnsupportedPlatform(detail@),
            Error::InstanceNotFound(label) => ErrorModel::InstanceNotFound(label@),
            Error::EngineInit(m) => ErrorModel::EngineInit(m@),
            Error::EngineCommand { name, code } => ErrorModel::EngineCommand(name@, code@),
            Error::EngineSetProperty { key, code } => ErrorModel::EngineSetProperty(key@, code@),
            Error::EngineGetProperty { key, code } => ErrorModel::EngineGetProperty(key@, code@),
            Error::BadValue(detail) => ErrorModel::BadValue(detail@),
            Error::RenderInit(m) => ErrorModel::RenderInit(m@),
            Error::Render(m) => ErrorModel::Render(m@),
        }
    }
}

} // verus!
