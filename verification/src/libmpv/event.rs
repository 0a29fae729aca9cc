//! The engine's events, and how they are read from the native layout.

use vstd::prelude::*;
use crate::libmpv::error::Error;
use crate::libmpv::models::{
    MpvNode, NodeModel, MPV_FORMAT_DOUBLE, MPV_FORMAT_FLAG, MPV_FORMAT_INT64, MPV_FORMAT_NODE,
    MPV_FORMAT_NONE, MPV_FORMAT_OSD_STRING, MPV_FORMAT_STRING,
};
use crate::libmpv::node::{
    copy_text_list, unsupported_node_text, unsupported_property_text, RawNode,
};

verus! {

pub const MPV_EVENT_NONE: u32 = 0;

pub const MPV_EVENT_SHUTDOWN: u32 = 1;

pub const MPV_EVENT_LOG_MESSAGE: u32 = 2;

pub const MPV_EVENT_GET_PROPERTY_REPLY: u32 = 3;

pub const MPV_EVENT_SET_PROPERTY_REPLY: u32 = 4;

pub const MPV_EVENT_COMMAND_REPLY: u32 = 5;

pub const MPV_EVENT_START_FILE: u32 = 6;

pub const MPV_EVENT_END_FILE: u32 = 7;

pub const MPV_EVENT_FILE_LOADED: u32 = 8;

pub const MPV_EVENT_IDLE: u32 = 11;

pub const MPV_EVENT_TICK: u32 = 14;

pub const MPV_EVENT_CLIENT_MESSAGE: u32 = 16;

pub const MPV_EVENT_VIDEO_RECONFIG: u32 = 17;

pub const MPV_EVENT_AUDIO_RECONFIG: u32 = 18;

pub const MPV_EVENT_SEEK: u32 = 20;

pub const MPV_EVENT_PLAYBACK_RESTART: u32 = 21;

pub const MPV_EVENT_PROPERTY_CHANGE: u32 = 22;

pub const MPV_EVENT_QUEUE_OVERFLOW: u32 = 24;

pub const MPV_EVENT_HOOK: u32 = 25;

/// The level of a log message.
#[derive(Debug, Clone, Copy, PartialEq, Eq)]
pub enum MpvLogLevel {
    Off,
    Fatal,
    Error,
    Warn,
    Info,
    V,
    Debug,
    Trace,
    Unknown,
}

impl MpvLogLevel {
    /// The level that the engine's number stands for.
    pub open spec fn spec_from(level: u32) -> MpvLogLevel {
        if level == 0 {
            MpvLogLevel::Off
        } else if level == 10 {
            MpvLogLevel::Fatal
        } else if level == 20 {
            MpvLogLevel::Error
        } else if level == 30 {
            MpvLogLevel::Warn
        } else if level == 40 {
            MpvLogLevel::Info
        } else if level == 50 {
            MpvLogLevel::V
        } else if level == 60 {
            MpvLogLevel::Debug
        } else if level == 70 {
            MpvLogLevel::Trace
        } else {
            MpvLogLevel::Unknown
        }
    }

    /// Reads the engine's number of a log level.
    pub fn from(level: u32) -> (res: MpvLogLevel)
        ensures
            res == Self::spec_from(level),
    {
        if level == 0 {
            MpvLogLevel::Off
        } else if level == 10 {
            MpvLogLevel::Fatal
        } else if level == 20 {
            MpvLogLevel::Error
        } else if level == 30 {
            MpvLogLevel::Warn
        } else if level == 40 {
            MpvLogLevel::Info
        } else if level == 50 {
            MpvLogLevel::V
        } else if level == 60 {
            MpvLogLevel::Debug
        } else if level == 70 {
            MpvLogLevel::Trace
        } else {
            MpvLogLevel::Unknown
        }
    }
}

/// A log message of the engine.
#[derive(Debug, Clone, PartialEq, Eq)]
pub struct LogMessage {
    pub prefix: String,
    pub level: String,
    pub text: String,
    pub log_level: MpvLogLevel,
}

/// Why playback of a file ended.
#[derive(Debug, Clone, Copy, PartialEq, Eq)]
pub enum EndFileReason {
    Eof,
    Stop,
    Quit,
    Error,
    Redirect,
    Unknown,
}

impl EndFileReason {
    /// The reason that the engine's number stands for.
    pub open spec fn spec_from(reason: u32) -> EndFileReason {
        if reason == 0 {
            EndFileReason::Eof
        } else if reason == 2 {
            EndFileReason::Stop
        } else if reason == 3 {
            EndFileReason::Quit
        } else if reason == 4 {
            EndFileReason::Error
        } else if reason == 5 {
            EndFileReason::Redirect
        } else {
            EndFileReason::Unknown
        }
    }

    /// Reads the engine's number of an end-of-file reason.
    pub fn from(reason: u32) -> (res: EndFileReason)
        ensures
            res == Self::spec_from(reason),
    {
        if reason == 0 {
            EndFileReason::Eof
        } else if reason == 2 {
            EndFileReason::Stop
        } else if reason == 3 {
            EndFileReason::Quit
        } else if reason == 4 {
            EndFileReason::Error
        } else if reason == 5 {
            EndFileReason::Redirect
        } else {
            EndFileReason::Unknown
        }
    }
}

/// The payload of a start-file event.
#[derive(Debug, Clone, Copy, PartialEq, Eq)]
pub struct StartFile {
    pub playlist_entry_id: i64,
}

/// The payload of an end-file event.
#[derive(Debug, Clone, Copy, PartialEq, Eq)]
pub struct EndFile {
    pub reason: EndFileReason,
    pub error: i32,
    pub playlist_entry_id: i64,
    pub playlist_insert_id: i64,
    pub playlist_insert_num_entries: i32,
}

/// The payload of a hook event.
#[derive(Debug, Clone, Copy, PartialEq, Eq)]
pub struct Hook {
    pub id: u64,
}

/// An event of the engine, as the frontend sees it.
#[derive(Debug, PartialEq, Eq)]
pub enum Event {
    Shutdown,
    LogMessage { data: LogMessage },
    GetPropertyReply { name: String, data: MpvNode, error: i32, reply_userdata: u64 },
    SetPropertyReply { error: i32, reply_userdata: u64 },
    CommandReply { data: MpvNode, error: i32, reply_userdata: u64 },
    StartFile { data: StartFile },
    EndFile { data: EndFile },
    FileLoaded,
    Idle,
    Tick,
    ClientMessage { data: Vec<String> },
    VideoReconfig,
    AudioReconfig,
    Seek,
    PlaybackRestart,
    PropertyChange { name: String, data: MpvNode, reply_userdata: u64 },
    QueueOverflow,
    Hook { data: Hook },
}

/// The native payload of a log-message event.
#[derive(Debug, PartialEq, Eq)]
pub struct RawLogMessage {
    pub prefix: String,
    pub level: String,
    pub text: String,
    pub log_level: u32,
}

/// The native payload of a property event. `data` is what lies behind the
/// payload's pointer, `None` where that pointer is null.
#[derive(Debug, PartialEq, Eq)]
pub struct RawProperty {
    pub name: String,
    pub format: u32,
    pub data: Option<RawNode>,
}

/// The native payload of an end-file event.
#[derive(Debug, Clone, Copy, PartialEq, Eq)]
pub struct RawEndFile {
    pub reason: u32,
    pub error: i32,
    pub playlist_entry_id: i64,
    pub playlist_insert_id: i64,
    pub playlist_insert_num_entries: i32,
}

/// An event as the engine lays it out: the event's number, the fields that
/// every event has, and one member for each kind of payload. Only the member
/// that the number selects is meaningful.
#[derive(Debug, PartialEq, Eq)]
pub struct RawEvent {
    pub event_id: u32,
    pub error: i32,
    pub reply_userdata: u64,
    pub log_message: RawLogMessage,
    pub property: RawProperty,
    pub command_result: RawNode,
    pub start_file_entry_id: i64,
    pub end_file: RawEndFile,
    pub client_message: Vec<String>,
    pub hook_id: u64,
}

/// The views of a list of texts.
pub open spec fn texts_of(v: Seq<String>) -> Seq<Seq<char>> {
    Seq::new(v.len(), |i: int| v[i]@)
}

/// The format is one in which a property payload can be read.
pub open spec fn is_payload_format(format: u32) -> bool {
    format == MPV_FORMAT_NONE || format == MPV_FORMAT_STRING || format == MPV_FORMAT_OSD_STRING
        || format == MPV_FORMAT_FLAG || format == MPV_FORMAT_INT64 || format == MPV_FORMAT_DOUBLE
        || format == MPV_FORMAT_NODE
}

/// Tells whether the format is one in which a property payload can be read.
pub fn payload_format_is_known(format: u32) -> (res: bool)
    ensures
        res == is_payload_format(format),
{
    format == MPV_FORMAT_NONE || format == MPV_FORMAT_STRING || format == MPV_FORMAT_OSD_STRING
        || format == MPV_FORMAT_FLAG || format == MPV_FORMAT_INT64 || format == MPV_FORMAT_DOUBLE
        || format == MPV_FORMAT_NODE
}

impl RawProperty {
    /// What the payload of a reply decodes to: null where the pointer is
    /// null, whatever the declared format; else the value in that format.
    pub open spec fn decoded_reply(self) -> Result<NodeModel, u32> {
        match self.data {
            None => Ok(NodeModel::Null),
            Some(data) => data.decoded_as(self.format),
        }
    }

    /// What the payload of a change decodes to. The declared format decides
    /// first: one in which no payload can be read fails with its code,
    /// whether there is a payload or not. Else a null pointer is null, and
    /// anything else the value in the declared format.
    pub open spec fn decoded_change(self) -> Result<NodeModel, u32> {
        if !is_payload_format(self.format) {
            Err(self.format)
        } else {
            match self.data {
                None => Ok(NodeModel::Null),
                Some(data) => data.decoded_as(self.format),
            }
        }
    }

    /// The failure that decoding the payload ends in, for the format code
    /// that could not be decoded.
    pub open spec fn is_failure(self, e: Error, code: u32) -> bool {
        if self.format == MPV_FORMAT_NODE {
            e matches Error::NodeConversion(msg) && msg@ == unsupported_node_text(code)
        } else {
            e matches Error::PropertyConversion(msg) && msg@ == unsupported_property_text(code)
        }
    }

    /// Copies the payload of a reply into an owned value.
    pub fn decode_reply(&self) -> (res: Result<MpvNode, Error>)
        ensures
            match self.decoded_reply() {
                Ok(m) => res is Ok && res->Ok_0.model() == m,
                Err(code) => res is Err && self.is_failure(res->Err_0, code),
            },
    {
        match &self.data {
            None => Ok(MpvNode::Null),
            Some(data) => MpvNode::from_property(self.format, data),
        }
    }

    /// Copies the payload of a change into an owned value.
    pub fn decode_change(&self) -> (res: Result<MpvNode, Error>)
        ensures
            match self.decoded_change() {
                Ok(m) => res is Ok && res->Ok_0.model() == m,
                Err(code) => res is Err && self.is_failure(res->Err_0, code),
            },
    {
        match &self.data {
            None => {
                if payload_format_is_known(self.format) {
                    Ok(MpvNode::Null)
                } else {
                    let nothing = RawNode::blank(MPV_FORMAT_NONE);
                    MpvNode::from_property(self.format, &nothing)
                }
            },
            Some(data) => MpvNode::from_property(self.format, data),
        }
    }
}

impl Event {
    /// The event's name on the wire.
    pub open spec fn wire_name(self) -> Seq<char> {
        match self {
            Event::Shutdown => "shutdown"@,
            Event::LogMessage { .. } => "log-message"@,
            Event::GetPropertyReply { .. } => "get-property-reply"@,
            Event::SetPropertyReply { .. } => "set-property-reply"@,
            Event::CommandReply { .. } => "command-reply"@,
            Event::StartFile { .. } => "start-file"@,
            Event::EndFile { .. } => "end-file"@,
            Event::FileLoaded => "file-loaded"@,
            Event::Idle => "idle"@,
            Event::Tick => "tick"@,
            Event::ClientMessage { .. } => "client-message"@,
            Event::VideoReconfig => "video-reconfig"@,
            Event::AudioReconfig => "audio-reconfig"@,
            Event::Seek => "seek"@,
            Event::PlaybackRestart => "playback-restart"@,
            Event::PropertyChange { .. } => "property-change"@,
            Event::QueueOverflow => "queue-overflow"@,
            Event::Hook { .. } => "hook"@,
        }
    }

    /// The event's name on the wire.
    pub fn name(&self) -> (res: &'static str)
        ensures
            res@ == self.wire_name(),
    {
        match self {
            Event::Shutdown => "shutdown",
            Event::LogMessage { .. } => "log-message",
            Event::GetPropertyReply { .. } => "get-property-reply",
            Event::SetPropertyReply { .. } => "set-property-reply",
            Event::CommandReply { .. } => "command-reply",
            Event::StartFile { .. } => "start-file",
            Event::EndFile { .. } => "end-file",
            Event::FileLoaded => "file-loaded",
            Event::Idle => "idle",
            Event::Tick => "tick",
            Event::ClientMessage { .. } => "client-message",
            Event::VideoReconfig => "video-reconfig",
            Event::AudioReconfig => "audio-reconfig",
            Event::Seek => "seek",
            Event::PlaybackRestart => "playback-restart",
            Event::PropertyChange { .. } => "property-change",
            Event::QueueOverflow => "queue-overflow",
            Event::Hook { .. } => "hook",
        }
    }

    /// The event's number is one that stands for an event without payload,
    /// and `self` is that event.
    pub open spec fn is_plain(self, event_id: u32) -> bool {
        ||| event_id == MPV_EVENT_SHUTDOWN && self == Event::Shutdown
        ||| event_id == MPV_EVENT_FILE_LOADED && self == Event::FileLoaded
        ||| event_id == MPV_EVENT_IDLE && self == Event::Idle
        ||| event_id == MPV_EVENT_TICK && self == Event::Tick
        ||| event_id == MPV_EVENT_VIDEO_RECONFIG && self == Event::VideoReconfig
        ||| event_id == MPV_EVENT_AUDIO_RECONFIG && self == Event::AudioReconfig
        ||| event_id == MPV_EVENT_SEEK && self == Event::Seek
        ||| event_id == MPV_EVENT_PLAYBACK_RESTART && self == Event::PlaybackRestart
        ||| event_id == MPV_EVENT_QUEUE_OVERFLOW && self == Event::QueueOverflow
    }

    /// `self` is what the native event reads as, where its number stands
    /// for an event with a payload.
    pub open spec fn carries(self, raw: RawEvent) -> bool {
        if raw.event_id == MPV_EVENT_LOG_MESSAGE {
            self matches Event::LogMessage { data } && data.prefix@ == raw.log_message.prefix@
                && data.level@ == raw.log_message.level@ && data.text@ == raw.log_message.text@
                && data.log_level == MpvLogLevel::spec_from(raw.log_message.log_level)
        } else if raw.event_id == MPV_EVENT_GET_PROPERTY_REPLY {
            self matches Event::GetPropertyReply { name, data, error, reply_userdata } && name@
                == raw.property.name@ && raw.property.decoded_reply() == Ok::<NodeModel, u32>(
                data.model(),
            ) && error == raw.error && reply_userdata == raw.reply_userdata
        } else if raw.event_id == MPV_EVENT_SET_PROPERTY_REPLY {
            self == (Event::SetPropertyReply {
                error: raw.error,
                reply_userdata: raw.reply_userdata,
            })
        } else if raw.event_id == MPV_EVENT_COMMAND_REPLY {
            self matches Event::CommandReply { data, error, reply_userdata }
                && raw.command_result.decoded() == Ok::<NodeModel, u32>(data.model()) && error
                == raw.error && reply_userdata == raw.reply_userdata
        } else if raw.event_id == MPV_EVENT_START_FILE {
            self == (Event::StartFile {
                data: StartFile { playlist_entry_id: raw.start_file_entry_id },
            })
        } else if raw.event_id == MPV_EVENT_END_FILE {
            self == (Event::EndFile {
                data: EndFile {
                    reason: EndFileReason::spec_from(raw.end_file.reason),
                    error: raw.end_file.error,
                    playlist_entry_id: raw.end_file.playlist_entry_id,
                    playlist_insert_id: raw.end_file.playlist_insert_id,
                    playlist_insert_num_entries: raw.end_file.playlist_insert_num_entries,
                },
            })
        } else if raw.event_id == MPV_EVENT_CLIENT_MESSAGE {
            self matches Event::ClientMessage { data } && texts_of(data@) == texts_of(
                raw.client_message@,
            )
        } else if raw.event_id == MPV_EVENT_PROPERTY_CHANGE {
            self matches Event::PropertyChange { name, data, reply_userdata } && name@
                == raw.property.name@ && raw.property.decoded_change() == Ok::<NodeModel, u32>(
                data.model(),
            ) && reply_userdata == raw.reply_userdata
        } else if raw.event_id == MPV_EVENT_HOOK {
            self == (Event::Hook { data: Hook { id: raw.hook_id } })
        } else {
            self.is_plain(raw.event_id)
        }
    }
}

impl RawEvent {
    /// The event's number is one of those that can be read.
    pub open spec fn is_known(self) -> bool {
        ||| self.event_id == MPV_EVENT_SHUTDOWN
        ||| self.event_id == MPV_EVENT_LOG_MESSAGE
        ||| self.event_id == MPV_EVENT_GET_PROPERTY_REPLY
        ||| self.event_id == MPV_EVENT_SET_PROPERTY_REPLY
        ||| self.event_id == MPV_EVENT_COMMAND_REPLY
        ||| self.event_id == MPV_EVENT_START_FILE
        ||| self.event_id == MPV_EVENT_END_FILE
        ||| self.event_id == MPV_EVENT_FILE_LOADED
        ||| self.event_id == MPV_EVENT_IDLE
        ||| self.event_id == MPV_EVENT_TICK
        ||| self.event_id == MPV_EVENT_CLIENT_MESSAGE
        ||| self.event_id == MPV_EVENT_VIDEO_RECONFIG
        ||| self.event_id == MPV_EVENT_AUDIO_RECONFIG
        ||| self.event_id == MPV_EVENT_SEEK
        ||| self.event_id == MPV_EVENT_PLAYBACK_RESTART
        ||| self.event_id == MPV_EVENT_PROPERTY_CHANGE
        ||| self.event_id == MPV_EVENT_QUEUE_OVERFLOW
        ||| self.event_id == MPV_EVENT_HOOK
    }

    /// The format code on which reading the event fails, if it does:
    /// that of a payload that cannot be decoded.
    pub open spec fn failing_code(self) -> Option<u32> {
        if self.event_id == MPV_EVENT_GET_PROPERTY_REPLY {
            match self.property.decoded_reply() {
                Ok(_) => None,
                Err(code) => Some(code),
            }
        } else if self.event_id == MPV_EVENT_PROPERTY_CHANGE {
            match self.property.decoded_change() {
                Ok(_) => None,
                Err(code) => Some(code),
            }
        } else if self.event_id == MPV_EVENT_COMMAND_REPLY {
            match self.command_result.decoded() {
                Ok(_) => None,
                Err(code) => Some(code),
            }
        } else {
            None
        }
    }
}

impl Event {
    /// `res` is what reading the native event gives: nothing for a
    /// number that is not known; the failure of decoding, where the payload
    /// holds a value of a format that cannot be decoded; else the event with
    /// the payload's fields.
    pub open spec fn is_reading_of(raw: RawEvent, res: Result<Option<Event>, Error>) -> bool {
        if !raw.is_known() {
            res == Ok::<Option<Event>, Error>(None)
        } else {
            match raw.failing_code() {
                None => res matches Ok(Some(e)) && e.carries(raw),
                Some(code) => res is Err && if raw.event_id == MPV_EVENT_COMMAND_REPLY {
                    res->Err_0 matches Error::NodeConversion(msg) && msg@
                        == unsupported_node_text(code)
                } else {
                    raw.property.is_failure(res->Err_0, code)
                },
            }
        }
    }

    /// Reads a native event, by its number.
    pub fn from(raw: &RawEvent) -> (res: Result<Option<Event>, Error>)
        ensures
            Self::is_reading_of(*raw, res),
    {
        let id = raw.event_id;
        if id == MPV_EVENT_SHUTDOWN {
            Ok(Some(Event::Shutdown))
        } else if id == MPV_EVENT_LOG_MESSAGE {
            Ok(
                Some(
                    Event::LogMessage {
                        data: LogMessage {
                            prefix: raw.log_message.prefix.clone(),
                            level: raw.log_message.level.clone(),
                            text: raw.log_message.text.clone(),
                            log_level: MpvLogLevel::from(raw.log_message.log_level),
                        },
                    },
                ),
            )
        } else if id == MPV_EVENT_GET_PROPERTY_REPLY {
            let name = raw.property.name.clone();
            match raw.property.decode_reply() {
                Ok(data) => Ok(
                    Some(
                        Event::GetPropertyReply {
                            name,
                            data,
                            error: raw.error,
                            reply_userdata: raw.reply_userdata,
                        },
                    ),
                ),
                Err(e) => Err(e),
            }
        } else if id == MPV_EVENT_SET_PROPERTY_REPLY {
            Ok(
                Some(
                    Event::SetPropertyReply {
                        error: raw.error,
                        reply_userdata: raw.reply_userdata,
                    },
                ),
            )
        } else if id == MPV_EVENT_COMMAND_REPLY {
            match MpvNode::from_node(&raw.command_result) {
                Ok(data) => Ok(
                    Some(
                        Event::CommandReply {
                            data,
                            error: raw.error,
                            reply_userdata: raw.reply_userdata,
                        },
                    ),
                ),
                Err(e) => Err(e),
            }
        } else if id == MPV_EVENT_START_FILE {
            Ok(
                Some(
                    Event::StartFile {
                        data: StartFile { playlist_entry_id: raw.start_file_entry_id },
                    },
                ),
            )
        } else if id == MPV_EVENT_END_FILE {
            Ok(
                Some(
                    Event::EndFile {
                        data: EndFile {
                            reason: EndFileReason::from(raw.end_file.reason),
                            error: raw.end_file.error,
                            playlist_entry_id: raw.end_file.playlist_entry_id,
                            playlist_insert_id: raw.end_file.playlist_insert_id,
                            playlist_insert_num_entries: raw.end_file.playlist_insert_num_entries,
                        },
                    },
                ),
            )
        } else if id == MPV_EVENT_FILE_LOADED {
            Ok(Some(Event::FileLoaded))
        } else if id == MPV_EVENT_IDLE {
            Ok(Some(Event::Idle))
        } else if id == MPV_EVENT_TICK {
            Ok(Some(Event::Tick))
        } else if id == MPV_EVENT_CLIENT_MESSAGE {
            let data = copy_text_list(&raw.client_message);
            proof {
                assert(texts_of(data@) =~= texts_of(raw.client_message@));
            }
            Ok(Some(Event::ClientMessage { data }))
        } else if id == MPV_EVENT_VIDEO_RECONFIG {
            Ok(Some(Event::VideoReconfig))
        } else if id == MPV_EVENT_AUDIO_RECONFIG {
            Ok(Some(Event::AudioReconfig))
        } else if id == MPV_EVENT_SEEK {
            Ok(Some(Event::Seek))
        } else if id == MPV_EVENT_PLAYBACK_RESTART {
            Ok(Some(Event::PlaybackRestart))
        } else if id == MPV_EVENT_PROPERTY_CHANGE {
            let name = raw.property.name.clone();
            match raw.property.decode_change() {
                Ok(data) => Ok(
                    Some(
                        Event::PropertyChange { name, data, reply_userdata: raw.reply_userdata },
                    ),
                ),
                Err(e) => Err(e),
            }
        } else if id == MPV_EVENT_QUEUE_OVERFLOW {
            Ok(Some(Event::QueueOverflow))
        } else if id == MPV_EVENT_HOOK {
            Ok(Some(Event::Hook { data: Hook { id: raw.hook_id } }))
        } else {
            Ok(None)
        }
    }

    /// What a wait for the next event hands on, given what the engine
    /// returned: nothing where the wait timed out, where the engine returned
    /// its empty event or where the event's number is not known; else the
    /// event that was read, or the failure of reading it.
    pub fn wait_result(raw: Option<&RawEvent>) -> (res: Option<Result<Event, Error>>)
        ensures
            match raw {
                None => res is None,
                Some(raw) => if raw.event_id == MPV_EVENT_NONE {
                    res is None
                } else {
                    Self::is_reading_of(
                        *raw,
                        match res {
                            None => Ok(None),
                            Some(Ok(e)) => Ok(Some(e)),
                            Some(Err(e)) => Err(e),
                        },
                    )
                },
            },
    {
        match raw {
            None => None,
            Some(raw) => {
                if raw.event_id == MPV_EVENT_NONE {
                    None
                } else {
                    match Event::from(raw) {
                        Ok(Some(event)) => Some(Ok(event)),
                        Ok(None) => None,
                        Err(e) => Some(Err(e)),
                    }
                }
            },
        }
    }
}

} // verus!
