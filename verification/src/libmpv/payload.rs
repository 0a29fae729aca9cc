//! The payload that the frontend receives for an event: an object tagged
//! with the event's name under `event`.

use vstd::prelude::*;
use vstd::string::StringExecFns;
use crate::json::{json_of, member, object, text_array, JsonModel, JsonValue};
use crate::libmpv::event::{EndFileReason, Event, MpvLogLevel};

verus! {

/// The name of a log level on the wire.
pub open spec fn level_name(level: MpvLogLevel) -> Seq<char> {
    match level {
        MpvLogLevel::Off => "none"@,
        MpvLogLevel::Fatal => "fatal"@,
        MpvLogLevel::Error => "error"@,
        MpvLogLevel::Warn => "warn"@,
        MpvLogLevel::Info => "info"@,
        MpvLogLevel::V => "v"@,
        MpvLogLevel::Debug => "debug"@,
        MpvLogLevel::Trace => "trace"@,
        MpvLogLevel::Unknown => "unknown"@,
    }
}

/// The name of an end-of-file reason on the wire.
pub open spec fn reason_name(reason: EndFileReason) -> Seq<char> {
    match reason {
        EndFileReason::Eof => "eof"@,
        EndFileReason::Stop => "stop"@,
        EndFileReason::Quit => "quit"@,
        EndFileReason::Error => "error"@,
        EndFileReason::Redirect => "redirect"@,
        EndFileReason::Unknown => "unknown"@,
    }
}

impl MpvLogLevel {
    /// The level's name on the wire.
    pub fn name(self) -> (res: &'static str)
        ensures
            res@ == level_name(self),
    {
        match self {
            MpvLogLevel::Off => "none",
            MpvLogLevel::Fatal => "fatal",
            MpvLogLevel::Error => "error",
            MpvLogLevel::Warn => "warn",
            MpvLogLevel::Info => "info",
            MpvLogLevel::V => "v",
            MpvLogLevel::Debug => "debug",
            MpvLogLevel::Trace => "trace",
            MpvLogLevel::Unknown => "unknown",
        }
    }
}

impl EndFileReason {
    /// The reason's name on the wire.
    pub fn name(self) -> (res: &'static str)
        ensures
            res@ == reason_name(self),
    {
        match self {
            EndFileReason::Eof => "eof",
            EndFileReason::Stop => "stop",
            EndFileReason::Quit => "quit",
            EndFileReason::Error => "error",
            EndFileReason::Redirect => "redirect",
            EndFileReason::Unknown => "unknown",
        }
    }
}

impl Event {
    /// The members that follow the tag in the event's payload.
    pub open spec fn payload_fields(self) -> Seq<(Seq<char>, JsonModel)> {
        match self {
            Event::LogMessage { data } => seq![
                (
                    "data"@,
                    JsonModel::Object(
                        seq![
                            ("prefix"@, JsonModel::Text(data.prefix@)),
                            ("level"@, JsonModel::Text(data.level@)),
                            ("text"@, JsonModel::Text(data.text@)),
                            ("log_level"@, JsonModel::Text(level_name(data.log_level))),
                        ],
                    ),
                ),
            ],
            Event::GetPropertyReply { name, data, error, reply_userdata } => seq![
                ("name"@, JsonModel::Text(name@)),
                ("data"@, json_of(data.model())),
                ("error"@, JsonModel::Int(error as int)),
                ("reply_userdata"@, JsonModel::Int(reply_userdata as int)),
            ],
            Event::SetPropertyReply { error, reply_userdata } => seq![
                ("error"@, JsonModel::Int(error as int)),
                ("reply_userdata"@, JsonModel::Int(reply_userdata as int)),
            ],
            Event::CommandReply { data, error, reply_userdata } => seq![
                ("data"@, json_of(data.model())),
                ("error"@, JsonModel::Int(error as int)),
                ("reply_userdata"@, JsonModel::Int(reply_userdata as int)),
            ],
            Event::StartFile { data } => seq![
                (
                    "data"@,
                    JsonModel::Object(
                        seq![("playlist_entry_id"@, JsonModel::Int(data.playlist_entry_id as int))],
                    ),
                ),
            ],
            Event::EndFile { data } => seq![
                (
                    "data"@,
                    JsonModel::Object(
                        seq![
                            ("reason"@, JsonModel::Text(reason_name(data.reason))),
                            ("error"@, JsonModel::Int(data.error as int)),
                            ("playlist_entry_id"@, JsonModel::Int(data.playlist_entry_id as int)),
                            ("playlist_insert_id"@, JsonModel::Int(data.playlist_insert_id as int)),
                            (
                                "playlist_insert_num_entries"@,
                                JsonModel::Int(data.playlist_insert_num_entries as int),
                            ),
                        ],
                    ),
                ),
            ],
            Event::ClientMessage { data } => seq![
                (
                    "data"@,
                    JsonModel::Array(Seq::new(data@.len(), |i: int| JsonModel::Text(data@[i]@))),
                ),
            ],
            Event::PropertyChange { name, data, reply_userdata } => seq![
                ("name"@, JsonModel::Text(name@)),
                ("data"@, json_of(data.model())),
                ("reply_userdata"@, JsonModel::Int(reply_userdata as int)),
            ],
            Event::Hook { data } => seq![
                ("data"@, JsonModel::Object(seq![("id"@, JsonModel::Int(data.id as int))])),
            ],
            _ => Seq::empty(),
        }
    }

    /// The event's payload: an object with the event's name under `event`,
    /// followed by the event's own members.
    pub open spec fn payload_model(self) -> JsonModel {
        JsonModel::Object(
            seq![("event"@, JsonModel::Text(self.wire_name()))] + self.payload_fields(),
        )
    }

    /// The payload that the frontend receives for the event.
    pub fn payload(&self) -> (res: JsonValue)
        ensures
            res.model() == self.payload_model(),
    {
        let tag = member("event", JsonValue::String(String::from_str(self.name())));
        let res = match self {
            Event::LogMessage { data } => {
                let inner = object(
                    vec![
                        member("prefix", JsonValue::String(data.prefix.clone())),
                        member("level", JsonValue::String(data.level.clone())),
                        member("text", JsonValue::String(data.text.clone())),
                        member(
                            "log_level",
                            JsonValue::String(String::from_str(data.log_level.name())),
                        ),
                    ],
                );
                proof {
                    assert(inner.model()->Object_0 =~= self.payload_fields()[0].1->Object_0);
                }
                object(vec![tag, member("data", inner)])
            },
            Event::GetPropertyReply { name, data, error, reply_userdata } => object(
                vec![
                    tag,
                    member("name", JsonValue::String(name.clone())),
                    member("data", data.to_json()),
                    member("error", JsonValue::Int(*error as i64)),
                    member("reply_userdata", JsonValue::UInt(*reply_userdata)),
                ],
            ),
            Event::SetPropertyReply { error, reply_userdata } => object(
                vec![
                    tag,
                    member("error", JsonValue::Int(*error as i64)),
                    member("reply_userdata", JsonValue::UInt(*reply_userdata)),
                ],
            ),
            Event::CommandReply { data, error, reply_userdata } => object(
                vec![
                    tag,
                    member("data", data.to_json()),
                    member("error", JsonValue::Int(*error as i64)),
                    member("reply_userdata", JsonValue::UInt(*reply_userdata)),
                ],
            ),
            Event::StartFile { data } => {
                let inner = object(
                    vec![member("playlist_entry_id", JsonValue::Int(data.playlist_entry_id))],
                );
                proof {
                    assert(inner.model()->Object_0 =~= self.payload_fields()[0].1->Object_0);
                }
                object(vec![tag, member("data", inner)])
            },
            Event::EndFile { data } => {
                let inner = object(
                    vec![
                        member("reason", JsonValue::String(String::from_str(data.reason.name()))),
                        member("error", JsonValue::Int(data.error as i64)),
                        member("playlist_entry_id", JsonValue::Int(data.playlist_entry_id)),
                        member("playlist_insert_id", JsonValue::Int(data.playlist_insert_id)),
                        member(
                            "playlist_insert_num_entries",
                            JsonValue::Int(data.playlist_insert_num_entries as i64),
                        ),
                    ],
                );
                proof {
                    assert(inner.model()->Object_0 =~= self.payload_fields()[0].1->Object_0);
                }
                object(vec![tag, member("data", inner)])
            },
            Event::ClientMessage { data } => object(vec![tag, member("data", text_array(data))]),
            Event::PropertyChange { name, data, reply_userdata } => object(
                vec![
                    tag,
                    member("name", JsonValue::String(name.clone())),
                    member("data", data.to_json()),
                    member("reply_userdata", JsonValue::UInt(*reply_userdata)),
                ],
            ),
            Event::Hook { data } => {
                let inner = object(vec![member("id", JsonValue::UInt(data.id))]);
                proof {
                    assert(inner.model()->Object_0 =~= self.payload_fields()[0].1->Object_0);
                }
                object(vec![tag, member("data", inner)])
            },
            _ => object(vec![tag]),
        };
        proof {
            assert(res.model()->Object_0 =~= self.payload_model()->Object_0);
        }
        res
    }
}

} // verus!
