//! The control plane: what each public operation does to the registry and
//! asks of the engine.

use vstd::prelude::*;
use vstd::string::StringExecFns;
use crate::error::Error;
use crate::event_loop::{observations, observe_all, Observation, PumpStep};
use crate::json::{JsonModel, JsonValue};
use crate::libmpv;
use crate::libmpv::models::{property_model, MpvFormat, PropertyModel, PropertyValue};
use crate::libmpv::text::{
    decimal_text, integer_text, join2, join3, trim_matches, trimmed, unsigned_text,
};
use crate::models::{InitialOption, MpvConfig, MpvIntegration, VideoMarginRatio};
use crate::registry::Registry;
use crate::utils::NativeWindow;

verus! {

/// A live player: the engine handle that the caller made, and how its
/// picture reaches the window.
pub struct MpvInstance<H> {
    pub mpv: H,
    pub integration_mode: MpvIntegration,
}

/// The players of the host, at most one for each window.
pub struct Mpv<H> {
    pub instances: Registry<MpvInstance<H>>,
}

/// What the caller found when it looked the window up.
#[derive(Debug, Clone, Copy, PartialEq, Eq)]
pub enum WindowLookup {
    /// The host has no window with the label.
    Missing,
    /// The window's native handle could not be had.
    NoHandle,
    /// The window, as the platform names it.
    Found(NativeWindow),
}

/// An engine option as text.
#[derive(Debug, Clone, PartialEq, Eq)]
pub struct EngineOption {
    pub key: String,
    pub value: String,
}

/// One step of bringing a player up. `Observe(i)` registers the plan's
/// observation at `i`.
#[derive(Debug, Clone, Copy, PartialEq, Eq)]
pub enum InitStep {
    BuildEngine,
    CreateEventClient,
    CreateRenderClient,
    Register,
    Observe(usize),
    StartEventPump,
    SpawnRenderThread,
    AwaitRenderSetup,
}

/// How to bring a player up: the options to build the engine with, the
/// observations to register, and the steps in their order.
#[derive(Debug, PartialEq, Eq)]
pub struct StartPlan {
    pub integration_mode: MpvIntegration,
    pub options: Vec<EngineOption>,
    pub observations: Vec<Observation>,
    pub steps: Vec<InitStep>,
}

/// What initialization has to do.
#[derive(Debug, PartialEq, Eq)]
pub enum InitPlan {
    /// The window has a live player: nothing is built.
    AlreadyRunning,
    /// The window has none: bring one up.
    Start(StartPlan),
}

/// An argument of a command: the value, and the JSON text of the value,
/// which is read where the value is a double, null, a list or an object.
#[derive(Debug, PartialEq, Eq)]
pub struct CommandArg {
    pub value: JsonValue,
    pub rendered: String,
}

/// One margin to set: the engine property and the bits of the ratio.
#[derive(Debug, Clone, PartialEq, Eq)]
pub struct MarginUpdate {
    pub property: String,
    pub ratio: u64,
}

/// The name of the engine's event client.
pub open spec fn event_client_name() -> Seq<char> {
    "event-client"@
}

/// The name of the engine's render client.
pub open spec fn render_client_name() -> Seq<char> {
    "render-client"@
}

/// The name under which the engine is given its client of the step, if the
/// step creates one.
pub fn client_name(step: InitStep) -> (res: Option<&'static str>)
    ensures
        match step {
            InitStep::CreateEventClient => res is Some && res->Some_0@ == event_client_name(),
            InitStep::CreateRenderClient => res is Some && res->Some_0@ == render_client_name(),
            _ => res is None,
        },
{
    match step {
        InitStep::CreateEventClient => Some("event-client"),
        InitStep::CreateRenderClient => Some("render-client"),
        _ => None,
    }
}

/// The text of a flag as the engine reads it.
pub open spec fn flag_text(b: bool) -> Seq<char> {
    if b {
        "yes"@
    } else {
        "no"@
    }
}

/// The text of a flag as the engine reads it.
pub fn flag_string(b: bool) -> (res: String)
    ensures
        res@ == flag_text(b),
{
    if b {
        String::from_str("yes")
    } else {
        String::from_str("no")
    }
}

/// The text that an option's value is handed to the engine as: a flag as
/// `yes` or `no`, a number as its digits, a text as it is. A value of any
/// other kind has none.
pub open spec fn option_text(value: JsonModel, rendered: Seq<char>) -> Option<Seq<char>> {
    match value {
        JsonModel::Bool(b) => Some(flag_text(b)),
        JsonModel::Int(i) => Some(decimal_text(i)),
        JsonModel::Double(_) => Some(rendered),
        JsonModel::Text(s) => Some(s),
        _ => None,
    }
}

/// The text that a command's argument is handed to the engine as: a flag as
/// `yes` or `no`, a number as its digits, a text as it is, and any other
/// value as its JSON text without quotes at its ends.
pub open spec fn command_arg_text(value: JsonModel, rendered: Seq<char>) -> Seq<char> {
    match value {
        JsonModel::Bool(b) => flag_text(b),
        JsonModel::Int(i) => decimal_text(i),
        JsonModel::Double(_) => rendered,
        JsonModel::Text(s) => s,
        _ => trimmed(rendered, '"'),
    }
}

/// The first `n` options as texts, in order, without those of the reserved
/// key and those whose value has no text.
pub open spec fn option_texts(opts: Seq<InitialOption>, n: nat, reserved: Seq<char>) -> Seq<
    (Seq<char>, Seq<char>),
>
    decreases n,
{
    if n == 0 {
        Seq::empty()
    } else {
        let before = option_texts(opts, (n - 1) as nat, reserved);
        let opt = opts[n - 1];
        match option_text(opt.value.model(), opt.rendered@) {
            Some(text) => if opt.key@ == reserved {
                before
            } else {
                before.push((opt.key@, text))
            },
            None => before,
        }
    }
}

/// The key and the value of each option.
pub open spec fn option_pairs(options: Seq<EngineOption>) -> Seq<(Seq<char>, Seq<char>)> {
    Seq::new(options.len(), |i: int| (options[i].key@, options[i].value@))
}

/// The text that an option's value is handed to the engine as, if it has
/// one.
pub fn option_value(value: &JsonValue, rendered: &str) -> (res: Option<String>)
    ensures
        match option_text(value.model(), rendered@) {
            Some(text) => res is Some && res->Some_0@ == text,
            None => res is None,
        },
{
    match value {
        JsonValue::Bool(b) => Some(flag_string(*b)),
        JsonValue::Int(i) => Some(integer_text(*i)),
        JsonValue::UInt(n) => Some(unsigned_text(*n)),
        JsonValue::Double(_) => Some(String::from_str(rendered)),
        JsonValue::String(s) => Some(s.clone()),
        _ => None,
    }
}

/// The text that a command's argument is handed to the engine as.
pub fn command_arg(value: &JsonValue, rendered: &str) -> (res: String)
    ensures
        res@ == command_arg_text(value.model(), rendered@),
{
    match value {
        JsonValue::Bool(b) => flag_string(*b),
        JsonValue::Int(i) => integer_text(*i),
        JsonValue::UInt(n) => unsigned_text(*n),
        JsonValue::Double(_) => String::from_str(rendered),
        JsonValue::String(s) => s.clone(),
        _ => trim_matches(rendered, '"'),
    }
}

/// The options to build the engine with: the user's, in order, as texts,
/// and after them the one that the integration mode adds under its reserved
/// key, which replaces what the user gave under that key.
pub fn engine_options(opts: &Vec<InitialOption>, reserved: &str, value: String) -> (res: Vec<
    EngineOption,
>)
    ensures
        option_pairs(res@) == option_texts(opts@, opts@.len(), reserved@).push(
            (reserved@, value@),
        ),
{
    let wanted = String::from_str(reserved);
    let mut out: Vec<EngineOption> = Vec::new();
    let mut i: usize = 0;
    proof {
        assert(option_pairs(out@) =~= option_texts(opts@, 0, reserved@));
    }
    while i < opts.len()
        invariant
            i <= opts.len(),
            wanted@ == reserved@,
            option_pairs(out@) == option_texts(opts@, i as nat, reserved@),
        decreases opts.len() - i,
    {
        let ghost before = option_pairs(out@);
        match option_value(&opts[i].value, opts[i].rendered.as_str()) {
            Some(text) => {
                if !(opts[i].key == wanted) {
                    let ghost pair = (opts@[i as int].key@, text@);
                    out.push(EngineOption { key: opts[i].key.clone(), value: text });
                    proof {
                        assert(option_pairs(out@) =~= before.push(pair));
                    }
                }
            },
            None => {},
        }
        i += 1;
    }
    let ghost before = option_pairs(out@);
    let ghost pair = (reserved@, value@);
    out.push(EngineOption { key: wanted, value });
    proof {
        assert(option_pairs(out@) =~= before.push(pair));
    }
    out
}

/// The steps of bringing a player up, in order: the engine is built, its
/// clients are created, the player is registered, every observation is
/// registered, and only then the event pump starts; render mode then spawns
/// the render thread and waits for its setup.
pub open spec fn startup_steps(mode: MpvIntegration, n: nat) -> Seq<InitStep> {
    let head = match mode {
        MpvIntegration::Wid => seq![
            InitStep::BuildEngine,
            InitStep::CreateEventClient,
            InitStep::Register,
        ],
        MpvIntegration::Render => seq![
            InitStep::BuildEngine,
            InitStep::CreateEventClient,
            InitStep::CreateRenderClient,
            InitStep::Register,
        ],
    };
    let tail = match mode {
        MpvIntegration::Wid => seq![InitStep::StartEventPump],
        MpvIntegration::Render => seq![
            InitStep::StartEventPump,
            InitStep::SpawnRenderThread,
            InitStep::AwaitRenderSetup,
        ],
    };
    head + Seq::new(n, |i: int| InitStep::Observe(i as usize)) + tail
}

/// Lists the steps of bringing a player up with `n` observations.
pub fn plan_steps(mode: MpvIntegration, n: usize) -> (res: Vec<InitStep>)
    ensures
        res@ == startup_steps(mode, n as nat),
{
    let mut steps: Vec<InitStep> = Vec::new();
    steps.push(InitStep::BuildEngine);
    steps.push(InitStep::CreateEventClient);
    match mode {
        MpvIntegration::Wid => {},
        MpvIntegration::Render => {
            steps.push(InitStep::CreateRenderClient);
        },
    }
    steps.push(InitStep::Register);
    let ghost head = steps@;
    let mut i: usize = 0;
    while i < n
        invariant
            i <= n,
            steps@ == head + Seq::new(i as nat, |k: int| InitStep::Observe(k as usize)),
        decreases n - i,
    {
        steps.push(InitStep::Observe(i));
        proof {
            assert(steps@ =~= head + Seq::new(
                (i + 1) as nat,
                |k: int| InitStep::Observe(k as usize),
            ));
        }
        i += 1;
    }
    steps.push(InitStep::StartEventPump);
    match mode {
        MpvIntegration::Wid => {},
        MpvIntegration::Render => {
            steps.push(InitStep::SpawnRenderThread);
            steps.push(InitStep::AwaitRenderSetup);
        },
    }
    proof {
        assert(steps@ =~= startup_steps(mode, n as nat));
    }
    steps
}

/// Where the step that registers the observation at `k` stands.
pub open spec fn observe_position(mode: MpvIntegration, k: int) -> int {
    match mode {
        MpvIntegration::Wid => 3 + k,
        MpvIntegration::Render => 4 + k,
    }
}

/// Every observation is registered before the event pump starts: in the
/// steps of bringing a player up, each of the `n` observations has its
/// step, and each such step comes before the one that starts the pump.
pub proof fn observations_precede_the_pump(mode: MpvIntegration, n: nat)
    requires
        n <= usize::MAX,
    ensures
        forall|k: int|
            0 <= k < n ==> 0 <= #[trigger] observe_position(mode, k) < startup_steps(
                mode,
                n,
            ).len() && startup_steps(mode, n)[observe_position(mode, k)] == InitStep::Observe(
                k as usize,
            ),
        forall|i: int, j: int|
            0 <= i < startup_steps(mode, n).len() && 0 <= j < startup_steps(mode, n).len()
                && (#[trigger] startup_steps(mode, n)[i]) is Observe && (#[trigger] startup_steps(
                mode,
                n,
            )[j]) == InitStep::StartEventPump ==> i < j,
{
}

/// The property value that a frontend value is written as, in the
/// narrowest format that holds it: a flag, a text, a signed 64-bit integer
/// for an integer that fits one, a double for any other number. `as_double`
/// holds the bits of the number as a double; it is read where the value is
/// an integer beyond the signed 64 bits. Null, a list and an object have no
/// property value.
pub open spec fn property_of(value: JsonModel, as_double: u64) -> Option<PropertyModel> {
    match value {
        JsonModel::Bool(b) => Some(PropertyModel::Flag(b)),
        JsonModel::Int(i) => if i64::MIN <= i <= i64::MAX {
            Some(PropertyModel::Int64(i))
        } else {
            Some(PropertyModel::Double(as_double))
        },
        JsonModel::Double(bits) => Some(PropertyModel::Double(bits)),
        JsonModel::Text(s) => Some(PropertyModel::Text(s)),
        _ => None,
    }
}

/// The detail of the failure for a value that cannot be written to the
/// property called `name`.
pub open spec fn bad_value_text(value: JsonModel, name: Seq<char>) -> Seq<char> {
    match value {
        JsonModel::Null => "Cannot set property to null"@,
        _ => "Unsupported value type for property '"@ + name + "'"@,
    }
}

/// The frontend's value for a property value that was read.
pub open spec fn property_json(value: PropertyModel) -> JsonModel {
    match value {
        PropertyModel::Text(s) => JsonModel::Text(s),
        PropertyModel::Flag(b) => JsonModel::Bool(b),
        PropertyModel::Int64(i) => JsonModel::Int(i),
        PropertyModel::Double(bits) => crate::json::json_of(
            libmpv::models::NodeModel::Double(bits),
        ),
        PropertyModel::Node(node) => crate::json::json_of(node),
    }
}

/// The property value to write for a frontend value, in the narrowest
/// format that holds it; null, a list and an object are refused.
/// `as_double` holds the bits of the value as a double where the value is a
/// number; it is read for an integer beyond the signed 64 bits.
pub fn property_value(name: &str, value: &JsonValue, as_double: u64) -> (res: Result<
    PropertyValue,
    Error,
>)
    ensures
        match property_of(value.model(), as_double) {
            Some(m) => res is Ok && property_model(res->Ok_0) == m,
            None => res matches Err(Error::BadValue(detail)) && detail@ == bad_value_text(
                value.model(),
                name@,
            ),
        },
{
    match value {
        JsonValue::Bool(b) => Ok(PropertyValue::Flag(*b)),
        JsonValue::Int(i) => Ok(PropertyValue::Int64(*i)),
        JsonValue::UInt(n) => {
            if *n <= 0x7fff_ffff_ffff_ffff {
                Ok(PropertyValue::Int64(*n as i64))
            } else {
                Ok(PropertyValue::Double(as_double))
            }
        },
        JsonValue::Double(bits) => Ok(PropertyValue::Double(*bits)),
        JsonValue::String(s) => Ok(PropertyValue::String(s.clone())),
        JsonValue::Null => Err(Error::BadValue(String::from_str("Cannot set property to null"))),
        _ => Err(Error::BadValue(join3("Unsupported value type for property '", name, "'"))),
    }
}

/// The frontend's value for a property value that was read.
pub fn property_to_json(value: PropertyValue) -> (res: JsonValue)
    ensures
        res.model() == property_json(property_model(value)),
{
    match value {
        PropertyValue::String(s) => JsonValue::String(s),
        PropertyValue::Flag(b) => JsonValue::Bool(b),
        PropertyValue::Int64(i) => JsonValue::Int(i),
        PropertyValue::Double(bits) => libmpv::models::MpvNode::Double(bits).into(),
        PropertyValue::Node(node) => node.into(),
    }
}

/// The margins that a ratio sets, in the order left, right, top, bottom:
/// one for each side that is present.
pub open spec fn margin_pairs(ratio: VideoMarginRatio) -> Seq<(Seq<char>, u64)> {
    let left = match ratio.left {
        Some(bits) => seq![("video-margin-ratio-left"@, bits)],
        None => Seq::empty(),
    };
    let right = match ratio.right {
        Some(bits) => seq![("video-margin-ratio-right"@, bits)],
        None => Seq::empty(),
    };
    let top = match ratio.top {
        Some(bits) => seq![("video-margin-ratio-top"@, bits)],
        None => Seq::empty(),
    };
    let bottom = match ratio.bottom {
        Some(bits) => seq![("video-margin-ratio-bottom"@, bits)],
        None => Seq::empty(),
    };
    left + right + top + bottom
}

/// The property and the ratio of each update.
pub open spec fn update_pairs(updates: Seq<MarginUpdate>) -> Seq<(Seq<char>, u64)> {
    Seq::new(updates.len(), |i: int| (updates[i].property@, updates[i].ratio))
}

/// Appends the update of one side, if the side is present.
fn push_margin(updates: &mut Vec<MarginUpdate>, property: &str, side: Option<u64>)
    ensures
        update_pairs(final(updates)@) == update_pairs(old(updates)@) + match side {
            Some(bits) => seq![(property@, bits)],
            None => Seq::empty(),
        },
{
    let ghost before = update_pairs(updates@);
    match side {
        Some(bits) => {
            updates.push(MarginUpdate { property: String::from_str(property), ratio: bits });
            proof {
                assert(update_pairs(updates@) =~= before + seq![(property@, bits)]);
            }
        },
        None => {
            proof {
                assert(update_pairs(updates@) =~= before + Seq::<(Seq<char>, u64)>::empty());
            }
        },
    }
}

/// The margins to set for a ratio: one update for each side that is
/// present; a side that is absent is left as it is.
pub fn margin_updates(ratio: &VideoMarginRatio) -> (res: Vec<MarginUpdate>)
    ensures
        update_pairs(res@) == margin_pairs(*ratio),
{
    let mut updates: Vec<MarginUpdate> = Vec::new();
    proof {
        assert(update_pairs(updates@) =~= Seq::<(Seq<char>, u64)>::empty());
    }
    push_margin(&mut updates, "video-margin-ratio-left", ratio.left);
    push_margin(&mut updates, "video-margin-ratio-right", ratio.right);
    push_margin(&mut updates, "video-margin-ratio-top", ratio.top);
    push_margin(&mut updates, "video-margin-ratio-bottom", ratio.bottom);
    proof {
        assert(update_pairs(updates@) =~= margin_pairs(*ratio));
    }
    updates
}

/// The name of the command that ends the engine.
pub fn quit_command() -> (res: &'static str)
    ensures
        res@ == "quit"@,
{
    "quit"
}

/// The result of a destroy, given how the engine took the command that ends
/// it: success, or the engine's failure as the control plane reports it.
pub fn destroy_result(quit: Result<(), libmpv::Error>) -> (res: Result<(), Error>)
    ensures
        match quit {
            Ok(_) => res is Ok,
            Err(e) => res is Err && res->Err_0@ == Error::spec_from(e),
        },
{
    match quit {
        Ok(_) => Ok(()),
        Err(e) => Err(Error::from(e)),
    }
}

/// The detail of the failure for a render thread that ended before it
/// reported how its setup went.
pub open spec fn render_setup_text(window_label: Seq<char>) -> Seq<char> {
    "Render thread for window '"@ + window_label + "' terminated unexpectedly during setup."@
}

/// The result of initialization in render mode, given what the render
/// thread reported of its setup: the window's label on success, the
/// thread's failure as it is, and a failure of its own where the thread
/// ended without a report.
pub fn render_setup_result(window_label: &str, report: Option<Result<(), Error>>) -> (res:
    Result<String, Error>)
    ensures
        match report {
            Some(Ok(_)) => res is Ok && res->Ok_0@ == window_label@,
            Some(Err(e)) => res == Err::<String, Error>(e),
            None => res matches Err(Error::RenderInit(detail)) && detail@ == render_setup_text(
                window_label@,
            ),
        },
{
    match report {
        Some(Ok(_)) => Ok(String::from_str(window_label)),
        Some(Err(e)) => Err(e),
        None => Err(
            Error::RenderInit(
                join3(
                    "Render thread for window '",
                    window_label,
                    "' terminated unexpectedly during setup.",
                ),
            ),
        ),
    }
}

/// The key of the option that the integration mode adds.
pub open spec fn reserved_key(mode: MpvIntegration) -> Seq<char> {
    match mode {
        MpvIntegration::Wid => "wid"@,
        MpvIntegration::Render => "vo"@,
    }
}

/// The value of the option that the integration mode adds: the window's
/// identifier in window mode, the engine's offscreen output in render mode.
pub open spec fn reserved_value(mode: MpvIntegration, window: WindowLookup) -> Seq<char> {
    match mode {
        MpvIntegration::Wid => match window {
            WindowLookup::Found(w) => match w.identifier() {
                Some(id) => decimal_text(id as int),
                None => Seq::empty(),
            },
            _ => Seq::empty(),
        },
        MpvIntegration::Render => "libmpv"@,
    }
}

/// The failure that the window stops initialization with, if it does. Only
/// window mode looks at the window.
pub open spec fn window_failure(
    mode: MpvIntegration,
    window: WindowLookup,
    window_label: Seq<char>,
) -> Option<crate::error::ErrorModel> {
    match mode {
        MpvIntegration::Render => None,
        MpvIntegration::Wid => match window {
            WindowLookup::Missing => Some(crate::error::ErrorModel::WindowNotFound(window_label)),
            WindowLookup::NoHandle => Some(crate::error::ErrorModel::WindowHandle),
            WindowLookup::Found(w) => match w.identifier() {
                Some(_) => None,
                None => Some(
                    crate::error::ErrorModel::UnsupportedPlatform(
                        if w == NativeWindow::Wayland {
                            crate::utils::wayland_text()
                        } else {
                            Seq::empty()
                        },
                    ),
                ),
            },
        },
    }
}

/// The plan brings up a player for the configuration and the window.
pub open spec fn is_start_plan(plan: StartPlan, config: MpvConfig, window: WindowLookup) -> bool {
    let mode = config.integration_mode;
    &&& plan.integration_mode == mode
    &&& option_pairs(plan.options@) == option_texts(
        config.initial_options@,
        config.initial_options@.len(),
        reserved_key(mode),
    ).push((reserved_key(mode), reserved_value(mode, window)))
    &&& observe_all(config.observed_properties@, plan.observations@)
    &&& plan.steps@ == startup_steps(mode, config.observed_properties@.len())
}

/// A control plane without players.
pub fn init<H>() -> (res: Mpv<H>)
    ensures
        res.wf(),
        res.instances@ == Map::<Seq<char>, MpvInstance<H>>::empty(),
{
    Mpv { instances: Registry::new() }
}

impl<H> Mpv<H> {
    /// The registry holds at most one player for each window.
    pub open spec fn wf(&self) -> bool {
        self.instances.wf()
    }

    /// Tells whether the window is free for a player to be brought up, that
    /// is, has none yet.
    pub fn lock_and_check_existence(&self, window_label: &str) -> (res: bool)
        requires
            self.wf(),
        ensures
            res == !self.instances@.contains_key(window_label@),
    {
        !self.instances.contains(window_label)
    }

    /// The window's player, or the failure for a window that has none.
    pub fn with_instance(&self, window_label: &str) -> (res: Result<&MpvInstance<H>, Error>)
        requires
            self.wf(),
        ensures
            match res {
                Ok(instance) => self.instances@.contains_key(window_label@) && *instance
                    == self.instances@[window_label@],
                Err(e) => !self.instances@.contains_key(window_label@) && e@
                    == crate::error::ErrorModel::InstanceNotFound(window_label@),
            },
    {
        match self.instances.get(window_label) {
            Some(instance) => Ok(instance),
            None => Err(Error::InstanceNotFound(String::from_str(window_label))),
        }
    }

    /// Detaches the window's player, if it has one: afterwards the window
    /// has no player.
    pub fn remove_instance(&mut self, window_label: &str) -> (res: Option<MpvInstance<H>>)
        requires
            old(self).wf(),
        ensures
            final(self).wf(),
            final(self).instances@ == old(self).instances@.remove(window_label@),
            !final(self).instances@.contains_key(window_label@),
            match res {
                Some(instance) => old(self).instances@.contains_key(window_label@) && instance
                    == old(self).instances@[window_label@],
                None => !old(self).instances@.contains_key(window_label@),
            },
    {
        self.instances.remove(window_label)
    }

    /// Registers a player that was brought up for the window, unless the
    /// window has one by now: then the player comes back.
    pub fn register(&mut self, window_label: String, instance: MpvInstance<H>) -> (res: Option<
        MpvInstance<H>,
    >)
        requires
            old(self).wf(),
        ensures
            final(self).wf(),
            match res {
                None => !old(self).instances@.contains_key(window_label@)
                    && final(self).instances@ == old(self).instances@.insert(
                    window_label@,
                    instance,
                ),
                Some(back) => old(self).instances@.contains_key(window_label@)
                    && final(self).instances@ == old(self).instances@ && back == instance,
            },
    {
        self.instances.insert(window_label, instance)
    }

    /// Decides what initialization has to do. A window that has a player
    /// needs nothing, whatever else holds of it: initializing it again
    /// succeeds and changes nothing. For a window without a player, window
    /// mode fails where the window is missing, has no handle or belongs to a
    /// platform that cannot be drawn into; otherwise the window gets the
    /// plan to bring a player up.
    pub fn init(&self, mpv_config: &MpvConfig, window_label: &str, window: WindowLookup) -> (res:
        Result<InitPlan, Error>)
        requires
            self.wf(),
        ensures
            self.instances@.contains_key(window_label@) ==> res == Ok::<InitPlan, Error>(
                InitPlan::AlreadyRunning,
            ),
            !self.instances@.contains_key(window_label@) ==> match window_failure(
                mpv_config.integration_mode,
                window,
                window_label@,
            ) {
                Some(failure) => res is Err && res->Err_0@ == failure,
                None => res matches Ok(InitPlan::Start(plan)) && is_start_plan(
                    plan,
                    *mpv_config,
                    window,
                ),
            },
    {
        if !self.lock_and_check_existence(window_label) {
            return Ok(InitPlan::AlreadyRunning);
        }
        let mode = mpv_config.integration_mode;
        let (key, value) = match mode {
            MpvIntegration::Wid => {
                match window {
                    WindowLookup::Missing => {
                        return Err(Error::WindowNotFound(String::from_str(window_label)));
                    },
                    WindowLookup::NoHandle => {
                        return Err(Error::WindowHandle);
                    },
                    WindowLookup::Found(native) => {
                        match native.wid() {
                            Ok(id) => ("wid", integer_text(id)),
                            Err(e) => {
                                return Err(e);
                            },
                        }
                    },
                }
            },
            MpvIntegration::Render => ("vo", String::from_str("libmpv")),
        };
        let options = engine_options(&mpv_config.initial_options, key, value);
        let observations = observations(&mpv_config.observed_properties);
        let steps = plan_steps(mode, mpv_config.observed_properties.len());
        Ok(InitPlan::Start(StartPlan { integration_mode: mode, options, observations, steps }))
    }

    /// Takes back the registration of a player whose bringing up failed at
    /// a later step, and hands on the failure: afterwards the window has no
    /// player, and the player that was registered, if any, comes back to be
    /// ended.
    pub fn fail_init(&mut self, window_label: &str, failure: Error) -> (res: (
        Option<MpvInstance<H>>,
        Error,
    ))
        requires
            old(self).wf(),
        ensures
            final(self).wf(),
            final(self).instances@ == old(self).instances@.remove(window_label@),
            res.1 == failure,
            match res.0 {
                Some(instance) => old(self).instances@.contains_key(window_label@) && instance
                    == old(self).instances@[window_label@],
                None => !old(self).instances@.contains_key(window_label@),
            },
    {
        let removed = self.instances.remove(window_label);
        (removed, failure)
    }

    /// What a step of the window's event pump does to the registry: the
    /// step that publishes the engine's shutdown detaches the window's
    /// player, which comes back to be ended; any other step changes
    /// nothing.
    pub fn after_pump_step(&mut self, window_label: &str, step: &PumpStep) -> (res: Option<
        MpvInstance<H>,
    >)
        requires
            old(self).wf(),
        ensures
            final(self).wf(),
            *step is EmitAndStop ==> final(self).instances@ == old(self).instances@.remove(
                window_label@,
            ) && !final(self).instances@.contains_key(window_label@) && match res {
                Some(instance) => old(self).instances@.contains_key(window_label@) && instance
                    == old(self).instances@[window_label@],
                None => !old(self).instances@.contains_key(window_label@),
            },
            !(*step is EmitAndStop) ==> final(self).instances@ == old(self).instances@
                && res is None,
    {
        match step {
            PumpStep::EmitAndStop(_) => self.instances.remove(window_label),
            _ => None,
        }
    }

    /// Removes the window's player and hands it over to be ended with the
    /// quit command. A window without a player needs nothing: destroying it
    /// succeeds, as often as it is asked for.
    pub fn destroy(&mut self, window_label: &str) -> (res: Option<MpvInstance<H>>)
        requires
            old(self).wf(),
        ensures
            final(self).wf(),
            final(self).instances@ == old(self).instances@.remove(window_label@),
            match res {
                Some(instance) => old(self).instances@.contains_key(window_label@) && instance
                    == old(self).instances@[window_label@],
                None => !old(self).instances@.contains_key(window_label@)
                    && final(self).instances@ == old(self).instances@,
            },
    {
        let res = self.remove_instance(window_label);
        proof {
            if res is None {
                assert(old(self).instances@.remove(window_label@) =~= old(self).instances@);
            }
        }
        res
    }

    /// The window's player and the texts of the arguments to send it the
    /// command with, or the failure for a window that has no player.
    pub fn command(&self, name: &str, args: &Vec<CommandArg>, window_label: &str) -> (res: Result<
        (&MpvInstance<H>, Vec<String>),
        Error,
    >)
        requires
            self.wf(),
        ensures
            match res {
                Ok((instance, texts)) => self.instances@.contains_key(window_label@) && *instance
                    == self.instances@[window_label@] && texts@.len() == args@.len()
                    && forall|i: int|
                    0 <= i < args@.len() ==> (#[trigger] texts@[i])@ == command_arg_text(
                        args@[i].value.model(),
                        args@[i].rendered@,
                    ),
                Err(e) => !self.instances@.contains_key(window_label@) && e@
                    == crate::error::ErrorModel::InstanceNotFound(window_label@),
            },
    {
        let instance = match self.with_instance(window_label) {
            Ok(instance) => instance,
            Err(e) => {
                return Err(e);
            },
        };
        let mut texts: Vec<String> = Vec::new();
        let mut i: usize = 0;
        while i < args.len()
            invariant
                i <= args.len(),
                texts@.len() == i,
                forall|k: int|
                    0 <= k < i ==> (#[trigger] texts@[k])@ == command_arg_text(
                        args@[k].value.model(),
                        args@[k].rendered@,
                    ),
            decreases args.len() - i,
        {
            texts.push(command_arg(&args[i].value, args[i].rendered.as_str()));
            i += 1;
        }
        Ok((instance, texts))
    }

    /// The window's player and the property value to write, in the
    /// narrowest format that holds the frontend's value. A window without a
    /// player fails first; then a value that cannot be written. `as_double`
    /// holds the bits of the value as a double where the value is a number.
    pub fn set_property(
        &self,
        name: &str,
        value: &JsonValue,
        as_double: u64,
        window_label: &str,
    ) -> (res: Result<(&MpvInstance<H>, PropertyValue), Error>)
        requires
            self.wf(),
        ensures
            !self.instances@.contains_key(window_label@) ==> res is Err && res->Err_0@
                == crate::error::ErrorModel::InstanceNotFound(window_label@),
            self.instances@.contains_key(window_label@) ==> match property_of(
                value.model(),
                as_double,
            ) {
                Some(m) => res matches Ok((instance, written)) && *instance
                    == self.instances@[window_label@] && property_model(written) == m,
                None => res matches Err(Error::BadValue(detail)) && detail@ == bad_value_text(
                    value.model(),
                    name@,
                ),
            },
    {
        let instance = match self.with_instance(window_label) {
            Ok(instance) => instance,
            Err(e) => {
                return Err(e);
            },
        };
        match property_value(name, value, as_double) {
            Ok(written) => Ok((instance, written)),
            Err(e) => Err(e),
        }
    }

    /// The window's player and the engine's code of the format to read the
    /// property in, or the failure for a window that has no player.
    pub fn get_property(&self, name: &str, format: MpvFormat, window_label: &str) -> (res: Result<
        (&MpvInstance<H>, u32),
        Error,
    >)
        requires
            self.wf(),
        ensures
            match res {
                Ok((instance, code)) => self.instances@.contains_key(window_label@) && *instance
                    == self.instances@[window_label@] && code == format.spec_code(),
                Err(e) => !self.instances@.contains_key(window_label@) && e@
                    == crate::error::ErrorModel::InstanceNotFound(window_label@),
            },
    {
        match self.with_instance(window_label) {
            Ok(instance) => Ok((instance, format.code())),
            Err(e) => Err(e),
        }
    }

    /// The window's player and the margins to set on it: one for each side
    /// of the ratio that is present. A failure of setting one of them is the
    /// caller's to log; it stops neither the others nor the operation.
    pub fn set_video_margin_ratio(&self, ratio: VideoMarginRatio, window_label: &str) -> (res:
        Result<(&MpvInstance<H>, Vec<MarginUpdate>), Error>)
        requires
            self.wf(),
        ensures
            match res {
                Ok((instance, updates)) => self.instances@.contains_key(window_label@)
                    && *instance == self.instances@[window_label@] && update_pairs(updates@)
                    == margin_pairs(ratio),
                Err(e) => !self.instances@.contains_key(window_label@) && e@
                    == crate::error::ErrorModel::InstanceNotFound(window_label@),
            },
    {
        match self.with_instance(window_label) {
            Ok(instance) => Ok((instance, margin_updates(&ratio))),
            Err(e) => Err(e),
        }
    }
}

/// A failed initialization leaves the registry as it was: where the window
/// had no player, registering one and taking the registration back gives the
/// registry from before.
pub proof fn failed_init_restores_registry<H>(
    before: Map<Seq<char>, MpvInstance<H>>,
    window_label: Seq<char>,
    instance: MpvInstance<H>,
)
    requires
        !before.contains_key(window_label),
    ensures
        before.insert(window_label, instance).remove(window_label) == before,
{
    assert(before.insert(window_label, instance).remove(window_label) =~= before);
}

} // verus!
