use std::num::{NonZeroIsize, NonZeroU32};
use std::ptr::NonNull;
use tauri_plugin_libmpv::error::Error as PluginError;
use tauri_plugin_libmpv::libmpv::binding::{
    call_result, command_words, contains_nul, error_string, read_property, write_payload,
    EngineCall,
};
use tauri_plugin_libmpv::libmpv::models::{
    MapEntry, MpvNode, PropertyValue, MPV_FORMAT_DOUBLE, MPV_FORMAT_FLAG, MPV_FORMAT_INT64,
    MPV_FORMAT_NODE, MPV_FORMAT_NODE_ARRAY, MPV_FORMAT_STRING,
};
use tauri_plugin_libmpv::libmpv::node::RawNode;
use tauri_plugin_libmpv::libmpv::text::{join2, join3, join4};
use tauri_plugin_libmpv::libmpv::Error;
use tauri_plugin_libmpv::utils::{
    display_api_preference, get_wid, DisplayApi, NativeWindow, Platform,
};

#[test]
fn nul_characters_are_found() {
    assert!(!contains_nul(""));
    assert!(!contains_nul("seek"));
    assert!(contains_nul("\0"));
    assert!(contains_nul("se\0ek"));
    assert!(contains_nul("seek\0"));
    assert!(!contains_nul("h\u{e9}llo 0"));
}

#[test]
fn command_words_are_the_name_then_the_arguments() {
    assert_eq!(
        command_words("seek", &vec!["10".to_string(), "absolute".to_string()]),
        Ok(vec!["seek".to_string(), "10".to_string(), "absolute".to_string()])
    );
    assert_eq!(command_words("quit", &vec![]), Ok(vec!["quit".to_string()]));
    assert_eq!(command_words("qu\0it", &vec![]), Err(Error::InvalidCString));
    assert_eq!(
        command_words("seek", &vec!["1".to_string(), "a\0".to_string()]),
        Err(Error::InvalidCString)
    );
}

#[test]
fn status_texts() {
    assert_eq!(error_string(Some("property not found")), "property not found");
    assert_eq!(error_string(None), "Unknown error");
}

#[test]
fn call_results_by_status() {
    assert_eq!(call_result(EngineCall::Initialize, 0, None), Ok(()));
    assert_eq!(call_result(EngineCall::Command("seek".to_string()), 1, Some("x")), Ok(()));
    assert_eq!(
        call_result(EngineCall::Initialize, -1, Some("oom")),
        Err(Error::Initialize("oom".to_string()))
    );
    assert_eq!(
        call_result(EngineCall::SetOption("vo".to_string()), -5, Some("option not found")),
        Err(Error::SetOption { key: "vo".to_string(), code: "option not found".to_string() })
    );
    assert_eq!(
        call_result(EngineCall::SetProperty("pause".to_string()), -9, None),
        Err(Error::SetProperty { key: "pause".to_string(), code: "Unknown error".to_string() })
    );
    assert_eq!(
        call_result(EngineCall::Command("seek".to_string()), -12, Some("error running command")),
        Err(Error::Command { name: "seek".to_string(), code: "error running command".to_string() })
    );
    assert_eq!(
        call_result(EngineCall::ObserveProperty("p".to_string()), i32::MIN, Some("e")),
        Err(Error::PropertyObserve { name: "p".to_string(), code: "e".to_string() })
    );
    assert_eq!(
        call_result(EngineCall::GetProperty("g".to_string()), -1, Some("e")),
        Err(Error::GetProperty { key: "g".to_string(), code: "e".to_string() })
    );
    assert_eq!(
        call_result(EngineCall::LoadConfigFile("/c".to_string()), -1, Some("e")),
        Err(Error::LoadConfig { path: "/c".to_string(), code: "e".to_string() })
    );
}

#[test]
fn read_property_by_format() {
    let mut data = RawNode::blank(0);
    data.string = "name.mkv".to_string();
    data.flag = 1;
    data.int64 = -3;
    data.double_bits = 12.5f64.to_bits();
    assert_eq!(
        read_property("k", MPV_FORMAT_STRING, 0, None, Some(&data)),
        Ok(PropertyValue::String("name.mkv".to_string()))
    );
    assert_eq!(
        read_property("k", MPV_FORMAT_STRING, 0, None, None),
        Ok(PropertyValue::String(String::new()))
    );
    assert_eq!(
        read_property("k", MPV_FORMAT_FLAG, 0, None, Some(&data)),
        Ok(PropertyValue::Flag(true))
    );
    assert_eq!(
        read_property("k", MPV_FORMAT_INT64, 0, None, Some(&data)),
        Ok(PropertyValue::Int64(-3))
    );
    assert_eq!(
        read_property("k", MPV_FORMAT_DOUBLE, 0, None, Some(&data)),
        Ok(PropertyValue::Double(12.5f64.to_bits()))
    );
    let mut node = RawNode::blank(MPV_FORMAT_INT64);
    node.int64 = 4;
    assert_eq!(
        read_property("k", MPV_FORMAT_NODE, 0, None, Some(&node)),
        Ok(PropertyValue::Node(MpvNode::Int64(4)))
    );
    assert_eq!(
        read_property("k", MPV_FORMAT_NODE, 0, None, None),
        Ok(PropertyValue::Node(MpvNode::Null))
    );
}

#[test]
fn read_property_failures() {
    assert_eq!(
        read_property("k", MPV_FORMAT_NODE_ARRAY, 0, None, None),
        Err(Error::GetProperty {
            key: "k".to_string(),
            code: "Unsupported format for get_property: 7".to_string()
        })
    );
    assert_eq!(
        read_property("k", MPV_FORMAT_FLAG, -8, Some("property not found"), None),
        Err(Error::GetProperty { key: "k".to_string(), code: "property not found".to_string() })
    );
    assert_eq!(
        read_property("k", MPV_FORMAT_FLAG, -8, None, None),
        Err(Error::GetProperty { key: "k".to_string(), code: "Unknown error".to_string() })
    );
    assert_eq!(
        read_property("k", MPV_FORMAT_NODE, 0, None, Some(&RawNode::blank(55))),
        Err(Error::NodeConversion("Unsupported mpv_node format code: 55".to_string()))
    );
}

#[test]
fn write_payloads_by_variant() {
    let (code, raw) = write_payload(&PropertyValue::String("s".to_string()));
    assert_eq!((code, raw.string.as_str()), (MPV_FORMAT_STRING, "s"));
    let (code, raw) = write_payload(&PropertyValue::Flag(true));
    assert_eq!((code, raw.flag), (MPV_FORMAT_FLAG, 1));
    let (code, raw) = write_payload(&PropertyValue::Flag(false));
    assert_eq!((code, raw.flag), (MPV_FORMAT_FLAG, 0));
    let (code, raw) = write_payload(&PropertyValue::Int64(-2));
    assert_eq!((code, raw.int64), (MPV_FORMAT_INT64, -2));
    let (code, raw) = write_payload(&PropertyValue::Double(7));
    assert_eq!((code, raw.double_bits), (MPV_FORMAT_DOUBLE, 7));
    let node = MpvNode::NodeMap(vec![MapEntry { key: "a".to_string(), value: MpvNode::Null }]);
    let (code, raw) = write_payload(&PropertyValue::Node(node));
    assert_eq!(code, MPV_FORMAT_NODE);
    assert_eq!(
        MpvNode::from_node(&raw),
        Ok(MpvNode::NodeMap(vec![MapEntry { key: "a".to_string(), value: MpvNode::Null }]))
    );
}

#[test]
fn joined_texts() {
    assert_eq!(join2("a", "b"), "ab");
    assert_eq!(join3("a", "", "c"), "ac");
    assert_eq!(join4("a", "b", "c", "d"), "abcd");
}

#[test]
fn window_identifiers() {
    assert_eq!(NativeWindow::Win32(-5).wid(), Ok(-5));
    assert_eq!(NativeWindow::Xlib(6).wid(), Ok(6));
    assert_eq!(NativeWindow::Xcb(7).wid(), Ok(7));
    assert_eq!(NativeWindow::AppKit(i64::MAX).wid(), Ok(i64::MAX));
    assert_eq!(
        NativeWindow::Wayland.wid(),
        Err(PluginError::UnsupportedPlatform(
            "Window embedding via --wid is not supported on Wayland.".to_string()
        ))
    );
    assert_eq!(NativeWindow::Other.wid(), Err(PluginError::UnsupportedPlatform(String::new())));
}

#[test]
fn native_window_of_a_raw_handle() {
    let xlib = raw_window_handle::XlibWindowHandle::new(5);
    assert_eq!(
        NativeWindow::of(&raw_window_handle::RawWindowHandle::Xlib(xlib)),
        NativeWindow::Xlib(5)
    );
    let xcb = raw_window_handle::XcbWindowHandle::new(NonZeroU32::new(6).unwrap());
    assert_eq!(
        NativeWindow::of(&raw_window_handle::RawWindowHandle::Xcb(xcb)),
        NativeWindow::Xcb(6)
    );
    let wayland = raw_window_handle::WaylandWindowHandle::new(NonNull::dangling());
    assert_eq!(
        NativeWindow::of(&raw_window_handle::RawWindowHandle::Wayland(wayland)),
        NativeWindow::Wayland
    );
}

#[test]
fn get_wid_reads_the_raw_handle() {
    let xlib = raw_window_handle::XlibWindowHandle::new(1234);
    assert_eq!(get_wid(raw_window_handle::RawWindowHandle::Xlib(xlib)), Ok(1234));
    let xcb = raw_window_handle::XcbWindowHandle::new(NonZeroU32::new(99).unwrap());
    assert_eq!(get_wid(raw_window_handle::RawWindowHandle::Xcb(xcb)), Ok(99));
    let win = raw_window_handle::Win32WindowHandle::new(NonZeroIsize::new(4096).unwrap());
    assert_eq!(get_wid(raw_window_handle::RawWindowHandle::Win32(win)), Ok(4096));
    let wayland = raw_window_handle::WaylandWindowHandle::new(NonNull::dangling());
    assert_eq!(
        get_wid(raw_window_handle::RawWindowHandle::Wayland(wayland)),
        Err(PluginError::UnsupportedPlatform(
            "Window embedding via --wid is not supported on Wayland.".to_string()
        ))
    );
    let web = raw_window_handle::WebWindowHandle::new(1);
    assert_eq!(
        get_wid(raw_window_handle::RawWindowHandle::Web(web)),
        Err(PluginError::UnsupportedPlatform(String::new()))
    );
}

#[test]
fn display_api_preferences() {
    let x = NativeWindow::Xlib(1);
    assert_eq!(display_api_preference(Platform::Windows, NativeWindow::Win32(1)), DisplayApi::WglThenEgl);
    assert_eq!(display_api_preference(Platform::MacOs, NativeWindow::AppKit(1)), DisplayApi::Cgl);
    assert_eq!(display_api_preference(Platform::Unix, x), DisplayApi::GlxThenEgl);
    assert_eq!(display_api_preference(Platform::Unix, NativeWindow::Xcb(1)), DisplayApi::GlxThenEgl);
    assert_eq!(display_api_preference(Platform::Unix, NativeWindow::Wayland), DisplayApi::Egl);
    assert_eq!(display_api_preference(Platform::Unix, NativeWindow::Other), DisplayApi::Egl);
}
