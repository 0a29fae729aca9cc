//! The decisions of the render thread: frame pacing after the end of
//! playback, reactions to engine events, and the order of teardown.

use vstd::prelude::*;
use crate::libmpv::error::Error;
use crate::libmpv::event::Event;
use crate::models::{MpvIntegration, MpvThreadEvent, RenderState};

verus! {

/// The number of redraws after the end of a file.
pub const CLEARING_FRAMES: u8 = 5;

/// The pause in milliseconds before a redraw that the thread posts to
/// itself while clearing.
pub const REDRAW_INTERVAL_MS: u64 = 16;

/// What a redraw message leads to: the next state, and whether the thread
/// pauses and posts itself another redraw. The frame is rendered and the
/// buffers are swapped in any case.
#[derive(Debug, Clone, Copy, PartialEq, Eq)]
pub struct RedrawStep {
    pub state: RenderState,
    pub repost: bool,
}

/// How the render thread goes on after an engine event.
#[derive(Debug, PartialEq, Eq)]
pub enum RenderFlow {
    /// Keep reading the inbox.
    Continue,
    /// The engine shut down: tear down and end without failure.
    Shutdown,
    /// Reading the event failed: remove the render context and end with the
    /// failure.
    Failed(Error),
}

/// What an engine event leads to in the render thread: the next state,
/// whether a redraw is posted at once, and how the thread goes on.
#[derive(Debug, PartialEq, Eq)]
pub struct EngineStep {
    pub state: RenderState,
    pub repost: bool,
    pub flow: RenderFlow,
}

/// Something that the player owns and must free in order.
#[derive(Debug, Clone, Copy, PartialEq, Eq)]
pub enum Resource {
    RenderContext,
    CurrentContext,
    Surface,
    Display,
    Engine,
}

impl Resource {
    /// One of the GL objects.
    pub open spec fn is_gl(self) -> bool {
        self == Resource::CurrentContext || self == Resource::Surface || self
            == Resource::Display
    }
}

impl RenderState {
    /// A clearing state has at least one redraw left.
    pub open spec fn wf(self) -> bool {
        self matches RenderState::Clearing(n) ==> n >= 1
    }

    /// The state after one redraw.
    pub open spec fn after_redraw(self) -> RenderState {
        match self {
            RenderState::Playing => RenderState::Playing,
            RenderState::Clearing(n) => if n <= 1 {
                RenderState::Stopped
            } else {
                RenderState::Clearing((n - 1) as u8)
            },
            RenderState::Stopped => RenderState::Stopped,
        }
    }

    /// Whether a redraw in this state posts another one.
    pub open spec fn reposts(self) -> bool {
        self matches RenderState::Clearing(n) && n > 1
    }

    /// The state after `k` redraws.
    pub open spec fn after_redraws(self, k: nat) -> RenderState
        decreases k,
    {
        if k == 0 {
            self
        } else {
            self.after_redraw().after_redraws((k - 1) as nat)
        }
    }

    /// The number of redraws that the thread posts to itself in the course
    /// of `k` redraws.
    pub open spec fn reposts_in(self, k: nat) -> nat
        decreases k,
    {
        if k == 0 {
            0
        } else {
            (if self.reposts() {
                1nat
            } else {
                0nat
            }) + self.after_redraw().reposts_in((k - 1) as nat)
        }
    }

    /// The state after an engine event.
    pub open spec fn after_event(self, event: Event) -> RenderState {
        match event {
            Event::StartFile { .. } => RenderState::Playing,
            Event::EndFile { .. } => RenderState::Clearing(CLEARING_FRAMES),
            _ => self,
        }
    }

    /// Handles a redraw message: while clearing, one redraw less is left,
    /// and unless that was the last the thread pauses and posts another.
    pub fn on_redraw(self) -> (step: RedrawStep)
        requires
            self.wf(),
        ensures
            step.state == self.after_redraw(),
            step.repost == self.reposts(),
            step.state.wf(),
    {
        match self {
            RenderState::Playing => RedrawStep { state: RenderState::Playing, repost: false },
            RenderState::Clearing(frames_left) => {
                let left: u8 = frames_left - 1;
                if left == 0 {
                    RedrawStep { state: RenderState::Stopped, repost: false }
                } else {
                    RedrawStep { state: RenderState::Clearing(left), repost: true }
                }
            },
            RenderState::Stopped => RedrawStep { state: RenderState::Stopped, repost: false },
        }
    }

    /// Handles what a wait for an engine event returned: the start of a
    /// file starts playing, the end of a file starts clearing and posts a
    /// redraw, a shutdown ends the thread, a failure ends it with that
    /// failure; any other event changes nothing.
    pub fn on_engine_event(self, result: Result<Event, Error>) -> (step: EngineStep)
        requires
            self.wf(),
        ensures
            step.state.wf(),
            match result {
                Ok(event) => step.state == self.after_event(event) && step.repost == (event is EndFile)
                    && step.flow == if event is Shutdown {
                    RenderFlow::Shutdown
                } else {
                    RenderFlow::Continue
                },
                Err(e) => step.state == self && !step.repost && step.flow == RenderFlow::Failed(e),
            },
    {
        match result {
            Ok(Event::StartFile { .. }) => EngineStep {
                state: RenderState::Playing,
                repost: false,
                flow: RenderFlow::Continue,
            },
            Ok(Event::EndFile { .. }) => EngineStep {
                state: RenderState::Clearing(CLEARING_FRAMES),
                repost: true,
                flow: RenderFlow::Continue,
            },
            Ok(Event::Shutdown) => EngineStep {
                state: self,
                repost: false,
                flow: RenderFlow::Shutdown,
            },
            Ok(_) => EngineStep { state: self, repost: false, flow: RenderFlow::Continue },
            Err(e) => EngineStep { state: self, repost: false, flow: RenderFlow::Failed(e) },
        }
    }
}

/// Where the engine draws a frame: the framebuffer, its size, and whether
/// the picture is flipped vertically.
#[derive(Debug, Clone, Copy, PartialEq, Eq)]
pub struct FrameTarget {
    pub fbo: i32,
    pub width: i32,
    pub height: i32,
    pub internal_format: i32,
    pub flip_y: bool,
}

/// A dimension of the window as the engine takes it: unchanged where it
/// fits the signed 32 bits, wrapped around where it does not.
pub open spec fn frame_dimension(d: u32) -> int {
    if d <= i32::MAX {
        d as int
    } else {
        d - 0x1_0000_0000
    }
}

/// The target of one frame: the default framebuffer in the window's current
/// inner size, flipped vertically, in the format that the engine picks.
pub fn frame_target(width: u32, height: u32) -> (res: FrameTarget)
    ensures
        res.fbo == 0,
        res.internal_format == 0,
        res.flip_y,
        res.width == frame_dimension(width),
        res.height == frame_dimension(height),
{
    FrameTarget {
        fbo: 0,
        width: signed(width),
        height: signed(height),
        internal_format: 0,
        flip_y: true,
    }
}

/// The 32 bits read as a signed number.
fn signed(d: u32) -> (res: i32)
    ensures
        res == frame_dimension(d),
{
    if d <= 0x7fff_ffff {
        d as i32
    } else {
        let below: u32 = d - 0x8000_0000;
        let low: i32 = below as i32;
        low - 0x7fff_ffff - 1
    }
}

/// Which message a resize of the window and an update of the engine's
/// render context put into the inbox, and which one the engine's wake-up
/// does.
pub fn inbox_message(from_engine_wakeup: bool) -> (res: MpvThreadEvent)
    ensures
        res == if from_engine_wakeup {
            MpvThreadEvent::MpvEvents
        } else {
            MpvThreadEvent::Redraw
        },
{
    if from_engine_wakeup {
        MpvThreadEvent::MpvEvents
    } else {
        MpvThreadEvent::Redraw
    }
}

/// While clearing with `n` redraws left, the next `n` redraws end in
/// `Stopped`, each earlier one leaves one redraw less, the thread posts
/// itself `n - 1` of them, and once stopped a redraw neither changes the
/// state nor posts another.
pub proof fn clearing_runs_out(n: u8)
    requires
        n >= 1,
    ensures
        RenderState::Clearing(n).after_redraws(n as nat) == RenderState::Stopped,
        forall|k: nat|
            k < n ==> #[trigger] RenderState::Clearing(n).after_redraws(k) == RenderState::Clearing(
                (n - k) as u8,
            ),
        RenderState::Clearing(n).reposts_in(n as nat) == n - 1,
        RenderState::Stopped.after_redraw() == RenderState::Stopped,
        !RenderState::Stopped.reposts(),
    decreases n,
{
    let start = RenderState::Clearing(n);
    if n == 1 {
        assert(start.after_redraw() == RenderState::Stopped);
        assert(RenderState::Stopped.after_redraws(0) == RenderState::Stopped);
        assert(RenderState::Stopped.reposts_in(0) == 0);
        assert(start.after_redraws(1) == RenderState::Stopped);
        assert(start.reposts_in(1) == 0);
        assert forall|k: nat| k < n implies #[trigger] start.after_redraws(k)
            == RenderState::Clearing((n - k) as u8) by {
            assert(k == 0);
        }
    } else {
        let next = RenderState::Clearing((n - 1) as u8);
        clearing_runs_out((n - 1) as u8);
        assert(start.after_redraw() == next);
        assert(start.after_redraws(n as nat) == next.after_redraws((n - 1) as nat));
        assert(start.reposts_in(n as nat) == 1 + next.reposts_in((n - 1) as nat));
        assert forall|k: nat| k < n implies #[trigger] start.after_redraws(k)
            == RenderState::Clearing((n - k) as u8) by {
            if k > 0 {
                assert(start.after_redraws(k) == next.after_redraws((k - 1) as nat));
                assert(next.after_redraws((k - 1) as nat) == RenderState::Clearing(
                    ((n - 1) - (k - 1)) as u8,
                ));
            }
        }
    }
}

/// After the end of a file the thread redraws as often as `CLEARING_FRAMES`
/// says and then stops: the end of the file posts the first of these
/// redraws, each but the last posts the next, the last one leaves the state
/// `Stopped`, and from then on a redraw posts nothing.
pub proof fn redraws_after_end_of_file(before: RenderState, event: Event)
    requires
        event is EndFile,
    ensures
        before.after_event(event) == RenderState::Clearing(CLEARING_FRAMES),
        1 + before.after_event(event).reposts_in(CLEARING_FRAMES as nat) == CLEARING_FRAMES,
        before.after_event(event).after_redraws(CLEARING_FRAMES as nat) == RenderState::Stopped,
        forall|k: nat|
            k < CLEARING_FRAMES ==> #[trigger] before.after_event(event).after_redraws(k)
                != RenderState::Stopped,
        !RenderState::Stopped.reposts(),
        RenderState::Stopped.after_redraw() == RenderState::Stopped,
{
    clearing_runs_out(CLEARING_FRAMES);
}

/// The order in which a player's resources are freed: in render mode the
/// render context first, then the GL objects from the current context down
/// to the display, and the engine last; in window mode the engine alone.
pub fn destruction_order(mode: MpvIntegration) -> (res: Vec<Resource>)
    ensures
        res@ == match mode {
            MpvIntegration::Wid => seq![Resource::Engine],
            MpvIntegration::Render => seq![
                Resource::RenderContext,
                Resource::CurrentContext,
                Resource::Surface,
                Resource::Display,
                Resource::Engine,
            ],
        },
        forall|i: int, j: int|
            0 <= i < res@.len() && 0 <= j < res@.len() && res@[i] == Resource::RenderContext
                && res@[j].is_gl() ==> i < j,
        forall|i: int, j: int|
            0 <= i < res@.len() && 0 <= j < res@.len() && res@[i].is_gl() && res@[j]
                == Resource::Engine ==> i < j,
{
    let mut order: Vec<Resource> = Vec::new();
    match mode {
        MpvIntegration::Wid => {},
        MpvIntegration::Render => {
            order.push(Resource::RenderContext);
            order.push(Resource::CurrentContext);
            order.push(Resource::Surface);
            order.push(Resource::Display);
        },
    }
    order.push(Resource::Engine);
    proof {
        match mode {
            MpvIntegration::Wid => {
                assert(order@ =~= seq![Resource::Engine]);
            },
            MpvIntegration::Render => {
                assert(order@ =~= seq![
                    Resource::RenderContext,
                    Resource::CurrentContext,
                    Resource::Surface,
                    Resource::Display,
                    Resource::Engine,
                ]);
            },
        }
    }
    order
}

} // verus!
