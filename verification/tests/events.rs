use tauri_plugin_libmpv::libmpv::event::{
    EndFile, EndFileReason, Event, Hook, LogMessage, MpvLogLevel, RawEndFile, RawEvent,
    RawLogMessage, RawProperty, StartFile, MPV_EVENT_AUDIO_RECONFIG, MPV_EVENT_CLIENT_MESSAGE,
    MPV_EVENT_COMMAND_REPLY, MPV_EVENT_END_FILE, MPV_EVENT_FILE_LOADED,
    MPV_EVENT_GET_PROPERTY_REPLY, MPV_EVENT_HOOK, MPV_EVENT_IDLE, MPV_EVENT_LOG_MESSAGE,
    MPV_EVENT_NONE, MPV_EVENT_PLAYBACK_RESTART, MPV_EVENT_PROPERTY_CHANGE,
    MPV_EVENT_QUEUE_OVERFLOW, MPV_EVENT_SEEK, MPV_EVENT_SET_PROPERTY_REPLY, MPV_EVENT_SHUTDOWN,
    MPV_EVENT_START_FILE, MPV_EVENT_TICK, MPV_EVENT_VIDEO_RECONFIG,
};
use tauri_plugin_libmpv::libmpv::models::{
    MpvNode, MPV_FORMAT_FLAG, MPV_FORMAT_INT64, MPV_FORMAT_NODE, MPV_FORMAT_NODE_MAP,
    MPV_FORMAT_NONE,
};
use tauri_plugin_libmpv::libmpv::node::RawNode;
use tauri_plugin_libmpv::libmpv::Error;

fn raw(event_id: u32) -> RawEvent {
    RawEvent {
        event_id,
        error: 0,
        reply_userdata: 0,
        log_message: RawLogMessage {
            prefix: String::new(),
            level: String::new(),
            text: String::new(),
            log_level: 0,
        },
        property: RawProperty { name: String::new(), format: MPV_FORMAT_NONE, data: None },
        command_result: RawNode::blank(MPV_FORMAT_NONE),
        start_file_entry_id: 0,
        end_file: RawEndFile {
            reason: 0,
            error: 0,
            playlist_entry_id: 0,
            playlist_insert_id: 0,
            playlist_insert_num_entries: 0,
        },
        client_message: Vec::new(),
        hook_id: 0,
    }
}

#[test]
fn log_levels_by_number() {
    assert_eq!(MpvLogLevel::from(0), MpvLogLevel::Off);
    assert_eq!(MpvLogLevel::from(10), MpvLogLevel::Fatal);
    assert_eq!(MpvLogLevel::from(20), MpvLogLevel::Error);
    assert_eq!(MpvLogLevel::from(30), MpvLogLevel::Warn);
    assert_eq!(MpvLogLevel::from(40), MpvLogLevel::Info);
    assert_eq!(MpvLogLevel::from(50), MpvLogLevel::V);
    assert_eq!(MpvLogLevel::from(60), MpvLogLevel::Debug);
    assert_eq!(MpvLogLevel::from(70), MpvLogLevel::Trace);
    assert_eq!(MpvLogLevel::from(1), MpvLogLevel::Unknown);
    assert_eq!(MpvLogLevel::from(80), MpvLogLevel::Unknown);
    assert_eq!(MpvLogLevel::from(u32::MAX), MpvLogLevel::Unknown);
}

#[test]
fn end_file_reasons_by_number() {
    assert_eq!(EndFileReason::from(0), EndFileReason::Eof);
    assert_eq!(EndFileReason::from(2), EndFileReason::Stop);
    assert_eq!(EndFileReason::from(3), EndFileReason::Quit);
    assert_eq!(EndFileReason::from(4), EndFileReason::Error);
    assert_eq!(EndFileReason::from(5), EndFileReason::Redirect);
    assert_eq!(EndFileReason::from(1), EndFileReason::Unknown);
    assert_eq!(EndFileReason::from(6), EndFileReason::Unknown);
}

#[test]
fn events_without_payload() {
    let cases = [
        (MPV_EVENT_SHUTDOWN, Event::Shutdown, "shutdown"),
        (MPV_EVENT_FILE_LOADED, Event::FileLoaded, "file-loaded"),
        (MPV_EVENT_IDLE, Event::Idle, "idle"),
        (MPV_EVENT_TICK, Event::Tick, "tick"),
        (MPV_EVENT_VIDEO_RECONFIG, Event::VideoReconfig, "video-reconfig"),
        (MPV_EVENT_AUDIO_RECONFIG, Event::AudioReconfig, "audio-reconfig"),
        (MPV_EVENT_SEEK, Event::Seek, "seek"),
        (MPV_EVENT_PLAYBACK_RESTART, Event::PlaybackRestart, "playback-restart"),
        (MPV_EVENT_QUEUE_OVERFLOW, Event::QueueOverflow, "queue-overflow"),
    ];
    for (id, event, name) in cases {
        assert_eq!(event.name(), name);
        assert_eq!(Event::from(&raw(id)), Ok(Some(event)));
    }
}

#[test]
fn event_numbers_are_the_engines() {
    assert_eq!(MPV_EVENT_NONE, 0);
    assert_eq!(MPV_EVENT_SHUTDOWN, 1);
    assert_eq!(MPV_EVENT_LOG_MESSAGE, 2);
    assert_eq!(MPV_EVENT_GET_PROPERTY_REPLY, 3);
    assert_eq!(MPV_EVENT_SET_PROPERTY_REPLY, 4);
    assert_eq!(MPV_EVENT_COMMAND_REPLY, 5);
    assert_eq!(MPV_EVENT_START_FILE, 6);
    assert_eq!(MPV_EVENT_END_FILE, 7);
    assert_eq!(MPV_EVENT_FILE_LOADED, 8);
    assert_eq!(MPV_EVENT_IDLE, 11);
    assert_eq!(MPV_EVENT_TICK, 14);
    assert_eq!(MPV_EVENT_CLIENT_MESSAGE, 16);
    assert_eq!(MPV_EVENT_VIDEO_RECONFIG, 17);
    assert_eq!(MPV_EVENT_AUDIO_RECONFIG, 18);
    assert_eq!(MPV_EVENT_SEEK, 20);
    assert_eq!(MPV_EVENT_PLAYBACK_RESTART, 21);
    assert_eq!(MPV_EVENT_PROPERTY_CHANGE, 22);
    assert_eq!(MPV_EVENT_QUEUE_OVERFLOW, 24);
    assert_eq!(MPV_EVENT_HOOK, 25);
}

#[test]
fn unknown_event_numbers_give_nothing() {
    for id in [0u32, 9, 10, 12, 13, 15, 19, 23, 26, 1000, u32::MAX] {
        assert_eq!(Event::from(&raw(id)), Ok(None));
    }
}

#[test]
fn log_message_event() {
    let mut r = raw(MPV_EVENT_LOG_MESSAGE);
    r.log_message = RawLogMessage {
        prefix: "cplayer".to_string(),
        level: "info".to_string(),
        text: "Playing\n".to_string(),
        log_level: 40,
    };
    let event = Event::from(&r).unwrap().unwrap();
    assert_eq!(event.name(), "log-message");
    assert_eq!(
        event,
        Event::LogMessage {
            data: LogMessage {
                prefix: "cplayer".to_string(),
                level: "info".to_string(),
                text: "Playing\n".to_string(),
                log_level: MpvLogLevel::Info,
            }
        }
    );
}

#[test]
fn property_change_event_carries_name_value_and_reply_tag() {
    let mut r = raw(MPV_EVENT_PROPERTY_CHANGE);
    let mut data = RawNode::blank(MPV_FORMAT_NONE);
    data.flag = 1;
    r.reply_userdata = 1;
    r.property = RawProperty { name: "pause".to_string(), format: MPV_FORMAT_FLAG, data: Some(data) };
    let event = Event::from(&r).unwrap().unwrap();
    assert_eq!(event.name(), "property-change");
    assert_eq!(
        event,
        Event::PropertyChange {
            name: "pause".to_string(),
            data: MpvNode::Flag(true),
            reply_userdata: 1
        }
    );
}

#[test]
fn property_change_without_value_is_null() {
    let mut r = raw(MPV_EVENT_PROPERTY_CHANGE);
    r.reply_userdata = 9;
    r.property = RawProperty { name: "path".to_string(), format: MPV_FORMAT_NONE, data: None };
    assert_eq!(
        Event::from(&r),
        Ok(Some(Event::PropertyChange {
            name: "path".to_string(),
            data: MpvNode::Null,
            reply_userdata: 9
        }))
    );
}

#[test]
fn property_change_with_a_bad_format_fails() {
    let mut r = raw(MPV_EVENT_PROPERTY_CHANGE);
    r.property = RawProperty {
        name: "x".to_string(),
        format: MPV_FORMAT_NODE_MAP,
        data: Some(RawNode::blank(MPV_FORMAT_NONE)),
    };
    assert_eq!(
        Event::from(&r),
        Err(Error::PropertyConversion(
            "Unsupported mpv_event_property format code: 8".to_string()
        ))
    );
    r.property = RawProperty {
        name: "x".to_string(),
        format: MPV_FORMAT_NODE,
        data: Some(RawNode::blank(31)),
    };
    assert_eq!(
        Event::from(&r),
        Err(Error::NodeConversion("Unsupported mpv_node format code: 31".to_string()))
    );
}

#[test]
fn get_property_reply_event() {
    let mut r = raw(MPV_EVENT_GET_PROPERTY_REPLY);
    r.error = -3;
    r.reply_userdata = 12;
    let mut data = RawNode::blank(MPV_FORMAT_NONE);
    data.int64 = 55;
    r.property =
        RawProperty { name: "volume".to_string(), format: MPV_FORMAT_INT64, data: Some(data) };
    let event = Event::from(&r).unwrap().unwrap();
    assert_eq!(event.name(), "get-property-reply");
    assert_eq!(
        event,
        Event::GetPropertyReply {
            name: "volume".to_string(),
            data: MpvNode::Int64(55),
            error: -3,
            reply_userdata: 12
        }
    );
    r.property = RawProperty { name: "volume".to_string(), format: MPV_FORMAT_INT64, data: None };
    assert_eq!(
        Event::from(&r),
        Ok(Some(Event::GetPropertyReply {
            name: "volume".to_string(),
            data: MpvNode::Null,
            error: -3,
            reply_userdata: 12
        }))
    );
}

#[test]
fn reply_events() {
    let mut r = raw(MPV_EVENT_SET_PROPERTY_REPLY);
    r.error = -1;
    r.reply_userdata = 4;
    let event = Event::from(&r).unwrap().unwrap();
    assert_eq!(event.name(), "set-property-reply");
    assert_eq!(event, Event::SetPropertyReply { error: -1, reply_userdata: 4 });

    let mut c = raw(MPV_EVENT_COMMAND_REPLY);
    c.reply_userdata = 5;
    let mut result = RawNode::blank(MPV_FORMAT_INT64);
    result.int64 = 8;
    c.command_result = result;
    let event = Event::from(&c).unwrap().unwrap();
    assert_eq!(event.name(), "command-reply");
    assert_eq!(event, Event::CommandReply { data: MpvNode::Int64(8), error: 0, reply_userdata: 5 });
    c.command_result = RawNode::blank(200);
    assert_eq!(
        Event::from(&c),
        Err(Error::NodeConversion("Unsupported mpv_node format code: 200".to_string()))
    );
}

#[test]
fn file_events() {
    let mut s = raw(MPV_EVENT_START_FILE);
    s.start_file_entry_id = 3;
    let event = Event::from(&s).unwrap().unwrap();
    assert_eq!(event.name(), "start-file");
    assert_eq!(event, Event::StartFile { data: StartFile { playlist_entry_id: 3 } });

    let reasons = [
        (0u32, EndFileReason::Eof),
        (2, EndFileReason::Stop),
        (3, EndFileReason::Quit),
        (4, EndFileReason::Error),
        (5, EndFileReason::Redirect),
    ];
    for (number, reason) in reasons {
        let mut e = raw(MPV_EVENT_END_FILE);
        e.end_file = RawEndFile {
            reason: number,
            error: -13,
            playlist_entry_id: 3,
            playlist_insert_id: 4,
            playlist_insert_num_entries: 2,
        };
        let event = Event::from(&e).unwrap().unwrap();
        assert_eq!(event.name(), "end-file");
        assert_eq!(
            event,
            Event::EndFile {
                data: EndFile {
                    reason,
                    error: -13,
                    playlist_entry_id: 3,
                    playlist_insert_id: 4,
                    playlist_insert_num_entries: 2,
                }
            }
        );
    }
}

#[test]
fn client_message_and_hook_events() {
    let mut m = raw(MPV_EVENT_CLIENT_MESSAGE);
    m.client_message = vec!["a".to_string(), "".to_string(), "c d".to_string()];
    let event = Event::from(&m).unwrap().unwrap();
    assert_eq!(event.name(), "client-message");
    assert_eq!(
        event,
        Event::ClientMessage { data: vec!["a".to_string(), "".to_string(), "c d".to_string()] }
    );
    let mut h = raw(MPV_EVENT_HOOK);
    h.hook_id = 77;
    let event = Event::from(&h).unwrap().unwrap();
    assert_eq!(event.name(), "hook");
    assert_eq!(event, Event::Hook { data: Hook { id: 77 } });
}

#[test]
fn wait_result_of_a_timeout_and_of_the_empty_event() {
    assert_eq!(Event::wait_result(None), None);
    assert_eq!(Event::wait_result(Some(&raw(MPV_EVENT_NONE))), None);
    assert_eq!(Event::wait_result(Some(&raw(9))), None);
    assert_eq!(Event::wait_result(Some(&raw(MPV_EVENT_IDLE))), Some(Ok(Event::Idle)));
    let mut c = raw(MPV_EVENT_COMMAND_REPLY);
    c.command_result = RawNode::blank(200);
    assert_eq!(
        Event::wait_result(Some(&c)),
        Some(Err(Error::NodeConversion("Unsupported mpv_node format code: 200".to_string())))
    );
}

#[test]
fn property_change_with_a_bad_format_fails_without_a_payload_too() {
    let mut r = raw(MPV_EVENT_PROPERTY_CHANGE);
    r.property = RawProperty { name: "x".to_string(), format: MPV_FORMAT_NODE_MAP, data: None };
    assert_eq!(
        Event::from(&r),
        Err(Error::PropertyConversion(
            "Unsupported mpv_event_property format code: 8".to_string()
        ))
    );
    r.property = RawProperty { name: "x".to_string(), format: 1000, data: None };
    assert_eq!(
        Event::from(&r),
        Err(Error::PropertyConversion(
            "Unsupported mpv_event_property format code: 1000".to_string()
        ))
    );
    r.property = RawProperty { name: "x".to_string(), format: MPV_FORMAT_INT64, data: None };
    assert_eq!(
        Event::from(&r),
        Ok(Some(Event::PropertyChange {
            name: "x".to_string(),
            data: MpvNode::Null,
            reply_userdata: 0
        }))
    );
}

#[test]
fn get_property_reply_without_a_payload_is_null_whatever_the_format() {
    let mut r = raw(MPV_EVENT_GET_PROPERTY_REPLY);
    r.property = RawProperty { name: "x".to_string(), format: MPV_FORMAT_NODE_MAP, data: None };
    assert_eq!(
        Event::from(&r),
        Ok(Some(Event::GetPropertyReply {
            name: "x".to_string(),
            data: MpvNode::Null,
            error: 0,
            reply_userdata: 0
        }))
    );
    r.property = RawProperty {
        name: "x".to_string(),
        format: MPV_FORMAT_NODE_MAP,
        data: Some(RawNode::blank(MPV_FORMAT_NONE)),
    };
    assert_eq!(
        Event::from(&r),
        Err(Error::PropertyConversion(
            "Unsupported mpv_event_property format code: 8".to_string()
        ))
    );
}
