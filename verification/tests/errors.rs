use tauri_plugin_libmpv::error::Error;
use tauri_plugin_libmpv::libmpv;
use tauri_plugin_libmpv::libmpv::binding::EngineCall;

#[test]
fn engine_failure_messages() {
    let cases: Vec<(libmpv::Error, &str)> = vec![
        (libmpv::Error::Create, "Failed to create mpv handle"),
        (libmpv::Error::ClientCreation, "Failed to create mpv client handle"),
        (libmpv::Error::Initialize("x".to_string()), "Failed to initialize mpv core: x"),
        (
            libmpv::Error::SetOption { key: "vo".to_string(), code: "bad".to_string() },
            "Failed to set option 'vo': bad",
        ),
        (
            libmpv::Error::GetProperty { key: "k".to_string(), code: "c".to_string() },
            "Failed to get property 'k': c",
        ),
        (
            libmpv::Error::Event { code: "c".to_string(), event_id: "7".to_string() },
            "Error processing event (id: 7): c",
        ),
        (
            libmpv::Error::RenderContextCreation("gl".to_string()),
            "Failed to create render context: gl",
        ),
        (libmpv::Error::Render("r".to_string()), "Failed to render frame: r"),
        (
            libmpv::Error::Command { name: "seek".to_string(), code: "c".to_string() },
            "Failed to execute command 'seek': c",
        ),
        (
            libmpv::Error::SetProperty { key: "k".to_string(), code: "c".to_string() },
            "Failed to set property 'k': c",
        ),
        (
            libmpv::Error::PropertyObserve { name: "n".to_string(), code: "c".to_string() },
            "Failed to observe property 'n': c",
        ),
        (
            libmpv::Error::LoadConfig { path: "/p".to_string(), code: "c".to_string() },
            "Failed to load config file at '/p': c",
        ),
        (libmpv::Error::InvalidCString, "Invalid C-style string provided"),
        (libmpv::Error::NodeConversion("n".to_string()), "Failed to convert node: n"),
        (libmpv::Error::PropertyConversion("p".to_string()), "Failed to convert property: p"),
    ];
    for (e, text) in cases {
        assert_eq!(e.message(), text);
    }
}

#[test]
fn control_plane_failure_messages() {
    let cases: Vec<(Error, &str)> = vec![
        (Error::WindowNotFound("main".to_string()), "Not found window with label 'main'"),
        (Error::WindowHandle, "Failed to get window handle"),
        (
            Error::UnsupportedPlatform("why".to_string()),
            "Unsupported platform for mpv integration: why",
        ),
        (
            Error::InstanceNotFound("ghost".to_string()),
            "mpv instance not found: mpv instance for window label 'ghost' not found",
        ),
        (Error::EngineInit("m".to_string()), "mpv initialization failed: m"),
        (
            Error::EngineCommand { name: "seek".to_string(), code: "c".to_string() },
            "Command Error: Command 'seek' failed: c",
        ),
        (
            Error::EngineSetProperty { key: "k".to_string(), code: "c".to_string() },
            "Set Property Error: Property 'k' failed: c",
        ),
        (
            Error::EngineGetProperty { key: "k".to_string(), code: "c".to_string() },
            "Get Property Error: Property 'k' failed: c",
        ),
        (Error::BadValue("d".to_string()), "Set Property Error: d"),
        (Error::RenderInit("m".to_string()), "mpv initialization failed: m"),
        (Error::Render("m".to_string()), "Render Error: m"),
    ];
    for (e, text) in cases {
        assert_eq!(e.message(), text);
    }
}

#[test]
fn engine_failures_as_control_plane_failures() {
    assert_eq!(
        Error::from(libmpv::Error::Command { name: "seek".to_string(), code: "c".to_string() }),
        Error::EngineCommand { name: "seek".to_string(), code: "c".to_string() }
    );
    assert_eq!(
        Error::from(libmpv::Error::SetProperty { key: "k".to_string(), code: "c".to_string() }),
        Error::EngineSetProperty { key: "k".to_string(), code: "c".to_string() }
    );
    assert_eq!(
        Error::from(libmpv::Error::GetProperty { key: "k".to_string(), code: "c".to_string() }),
        Error::EngineGetProperty { key: "k".to_string(), code: "c".to_string() }
    );
    assert_eq!(
        Error::from(libmpv::Error::Create),
        Error::EngineInit("Failed to create mpv handle".to_string())
    );
    assert_eq!(
        Error::from(libmpv::Error::ClientCreation),
        Error::EngineInit("Failed to create mpv client handle".to_string())
    );
    assert_eq!(
        Error::from(libmpv::Error::Initialize("x".to_string())),
        Error::EngineInit("Failed to initialize mpv core: x".to_string())
    );
    assert_eq!(
        Error::from(libmpv::Error::SetOption { key: "vo".to_string(), code: "bad".to_string() }),
        Error::EngineInit("Failed to set option 'vo': bad".to_string())
    );
    assert_eq!(
        Error::from(libmpv::Error::PropertyObserve {
            name: "n".to_string(),
            code: "c".to_string()
        }),
        Error::EngineInit("Failed to observe property 'n': c".to_string())
    );
    assert_eq!(
        Error::from(libmpv::Error::LoadConfig { path: "/p".to_string(), code: "c".to_string() }),
        Error::EngineInit("Failed to load config file at '/p': c".to_string())
    );
    assert_eq!(
        Error::from(libmpv::Error::RenderContextCreation("gl".to_string())),
        Error::RenderInit("Failed to create render context: gl".to_string())
    );
    assert_eq!(
        Error::from(libmpv::Error::Render("r".to_string())),
        Error::Render("Failed to render frame: r".to_string())
    );
    assert_eq!(
        Error::from(libmpv::Error::Event { code: "c".to_string(), event_id: "7".to_string() }),
        Error::Render("Error processing event (id: 7): c".to_string())
    );
    assert_eq!(
        Error::from(libmpv::Error::InvalidCString),
        Error::EngineInit("Invalid C-style string provided".to_string())
    );
    assert_eq!(
        Error::from(libmpv::Error::NodeConversion("n".to_string())),
        Error::Render("Failed to convert node: n".to_string())
    );
    assert_eq!(
        Error::from(libmpv::Error::PropertyConversion("p".to_string())),
        Error::Render("Failed to convert property: p".to_string())
    );
}

#[test]
fn unnamed_engine_failures_are_reported_by_their_call() {
    let nul = || libmpv::Error::InvalidCString;
    let node = || libmpv::Error::NodeConversion("n".to_string());
    assert_eq!(
        Error::in_call(EngineCall::Command("seek".to_string()), nul()),
        Error::EngineCommand {
            name: "seek".to_string(),
            code: "Invalid C-style string provided".to_string()
        }
    );
    assert_eq!(
        Error::in_call(EngineCall::SetProperty("title".to_string()), nul()),
        Error::EngineSetProperty {
            key: "title".to_string(),
            code: "Invalid C-style string provided".to_string()
        }
    );
    assert_eq!(
        Error::in_call(EngineCall::GetProperty("playlist".to_string()), node()),
        Error::EngineGetProperty {
            key: "playlist".to_string(),
            code: "Failed to convert node: n".to_string()
        }
    );
    assert_eq!(
        Error::in_call(
            EngineCall::GetProperty("x".to_string()),
            libmpv::Error::PropertyConversion("p".to_string())
        ),
        Error::EngineGetProperty {
            key: "x".to_string(),
            code: "Failed to convert property: p".to_string()
        }
    );
    assert_eq!(
        Error::in_call(EngineCall::SetOption("vo".to_string()), nul()),
        Error::EngineInit("Invalid C-style string provided".to_string())
    );
    assert_eq!(
        Error::in_call(EngineCall::Initialize, node()),
        Error::EngineInit("Failed to convert node: n".to_string())
    );
    assert_eq!(
        Error::in_call(
            EngineCall::GetProperty("x".to_string()),
            libmpv::Error::GetProperty { key: "k".to_string(), code: "c".to_string() }
        ),
        Error::EngineGetProperty { key: "k".to_string(), code: "c".to_string() }
    );
    assert_eq!(
        Error::in_call(EngineCall::Command("seek".to_string()), libmpv::Error::Create),
        Error::EngineInit("Failed to create mpv handle".to_string())
    );
}

#[test]
fn call_outcomes_for_the_control_plane() {
    assert_eq!(Error::call_outcome(EngineCall::SetProperty("pause".to_string()), 0, None), Ok(()));
    assert_eq!(
        Error::call_outcome(EngineCall::SetProperty("pause".to_string()), -9, Some("bad")),
        Err(Error::EngineSetProperty { key: "pause".to_string(), code: "bad".to_string() })
    );
    assert_eq!(
        Error::call_outcome(EngineCall::GetProperty("x".to_string()), -8, None),
        Err(Error::EngineGetProperty { key: "x".to_string(), code: "Unknown error".to_string() })
    );
    assert_eq!(
        Error::call_outcome(EngineCall::Command("seek".to_string()), -12, Some("c")),
        Err(Error::EngineCommand { name: "seek".to_string(), code: "c".to_string() })
    );
    assert_eq!(
        Error::call_outcome(EngineCall::SetOption("vo".to_string()), -5, Some("c")),
        Err(Error::EngineInit("Failed to set option 'vo': c".to_string()))
    );
    assert_eq!(
        Error::call_outcome(EngineCall::Initialize, -1, Some("c")),
        Err(Error::EngineInit("Failed to initialize mpv core: c".to_string()))
    );
    assert_eq!(
        Error::call_outcome(EngineCall::ObserveProperty("p".to_string()), -1, Some("c")),
        Err(Error::EngineInit("Failed to observe property 'p': c".to_string()))
    );
    assert_eq!(
        Error::call_outcome(EngineCall::LoadConfigFile("/f".to_string()), -1, Some("c")),
        Err(Error::EngineInit("Failed to load config file at '/f': c".to_string()))
    );
}
