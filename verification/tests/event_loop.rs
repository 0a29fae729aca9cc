use tauri_plugin_libmpv::event_loop::{
    channel_name, observations, pump_step, Observation, PumpStep, EVENT_WAIT_SECONDS,
};
use tauri_plugin_libmpv::libmpv::event::Event;
use tauri_plugin_libmpv::libmpv::models::{MpvFormat, MpvNode};
use tauri_plugin_libmpv::libmpv::Error;
use tauri_plugin_libmpv::models::ObservedProperty;

fn run_pump(outcomes: Vec<Option<Result<Event, Error>>>) -> (Vec<Event>, usize) {
    let mut published = Vec::new();
    let mut waits = 0;
    for outcome in outcomes {
        waits += 1;
        match pump_step(outcome) {
            PumpStep::Emit(e) => published.push(e),
            PumpStep::EmitAndStop(e) => {
                published.push(e);
                break;
            }
            PumpStep::Idle => {}
            PumpStep::Stop(_) => break,
        }
    }
    (published, waits)
}

#[test]
fn channel_is_named_after_the_window() {
    assert_eq!(channel_name("main"), "mpv-event-main");
    assert_eq!(channel_name(""), "mpv-event-");
    assert_eq!(channel_name("w-2"), "mpv-event-w-2");
    assert_eq!(EVENT_WAIT_SECONDS, 60);
}

#[test]
fn observations_are_tagged_from_one() {
    let props = vec![
        ObservedProperty { name: "pause".to_string(), format: MpvFormat::Flag },
        ObservedProperty { name: "volume".to_string(), format: MpvFormat::Double },
        ObservedProperty { name: "playlist".to_string(), format: MpvFormat::Node },
    ];
    assert_eq!(
        observations(&props),
        vec![
            Observation { name: "pause".to_string(), format: MpvFormat::Flag, reply_id: 1 },
            Observation { name: "volume".to_string(), format: MpvFormat::Double, reply_id: 2 },
            Observation { name: "playlist".to_string(), format: MpvFormat::Node, reply_id: 3 },
        ]
    );
    assert_eq!(observations(&Vec::new()), Vec::<Observation>::new());
}

#[test]
fn pump_steps() {
    assert_eq!(pump_step(None), PumpStep::Idle);
    assert_eq!(pump_step(Some(Ok(Event::Seek))), PumpStep::Emit(Event::Seek));
    assert_eq!(pump_step(Some(Ok(Event::Shutdown))), PumpStep::EmitAndStop(Event::Shutdown));
    assert_eq!(
        pump_step(Some(Err(Error::ClientCreation))),
        PumpStep::Stop(Error::ClientCreation)
    );
}

#[test]
fn event_ordering_published_is_a_prefix_of_returned() {
    let change = || Event::PropertyChange {
        name: "pause".to_string(),
        data: MpvNode::Flag(true),
        reply_userdata: 1,
    };
    let (published, waits) = run_pump(vec![
        Some(Ok(Event::Idle)),
        None,
        Some(Ok(change())),
        None,
        Some(Ok(Event::Seek)),
        Some(Ok(Event::Shutdown)),
        Some(Ok(Event::Tick)),
    ]);
    assert_eq!(published, vec![Event::Idle, change(), Event::Seek, Event::Shutdown]);
    assert_eq!(waits, 6);
}

#[test]
fn pump_ends_on_a_failed_wait_without_publishing() {
    let (published, waits) = run_pump(vec![
        Some(Ok(Event::Tick)),
        Some(Err(Error::Create)),
        Some(Ok(Event::Seek)),
    ]);
    assert_eq!(published, vec![Event::Tick]);
    assert_eq!(waits, 2);
}
