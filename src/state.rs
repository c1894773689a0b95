use vstd::prelude::*;
use crate::camera::{Controller, Key, KeyState, Projection, after_key};

verus! {

/// Where the frame loop stands.
#[derive(Clone, Copy, Debug, PartialEq, Eq, Structural)]
pub enum Mode {
    /// Drawing frames.
    Running,
    /// The window changed size; the surface must be configured at the new size.
    Resizing,
    /// The surface was lost; it must be configured again before the next draw.
    Recovering,
    /// The loop is to end. Nothing leaves this mode.
    Exiting,
}

/// A window or device event, as far as the frame loop decides on it.
#[derive(Clone, Copy, Debug, PartialEq, Eq, Structural)]
pub enum InputEvent {
    /// The window's inner size changed.
    Resized { width: u32, height: u32 },
    /// The user asked to close the window.
    CloseRequested,
    /// A key went down or came up.
    Key { key: Key, state: KeyState },
    /// A pointer button went down or came up.
    Button { button: u32, state: KeyState },
    /// Anything else.
    Other,
}

/// What the caller of the frame loop is to do next.
#[derive(Clone, Copy, Debug, PartialEq, Eq, Structural)]
pub enum Flow {
    /// Go on.
    Continue,
    /// Configure the surface, and what depends on its size, at `size()`, then
    /// call `surface_configured`.
    Reconfigure,
    /// Report the render error to the user and go on.
    Report,
    /// End the loop.
    Exit,
}

/// How drawing a frame ended.
#[derive(Clone, Copy, Debug, PartialEq, Eq, Structural)]
pub enum RenderOutcome {
    /// The frame was submitted and presented.
    Presented,
    /// The surface was lost and must be configured again.
    SurfaceLost,
    /// The device ran out of memory.
    OutOfMemory,
    /// Any other backend error.
    Failed,
}

/// The time between frames assumed before the first update: 13 ms.
pub const INITIAL_DELTA_NANOS: u64 = 13_000_000;

/// The per-frame state of the viewer: the surface size with its aspect ratio,
/// the movement intents, the pointer button, and the frame clock. Times are
/// nanoseconds on a monotonic clock whose origin the caller picks.
#[derive(Clone, Copy, Debug, PartialEq, Eq, Structural)]
pub struct FrameState {
    pub mode: Mode,
    pub projection: Projection,
    pub controller: Controller,
    pub mouse_pressed: bool,
    pub frame_count: u64,
    pub delta_nanos: u64,
    pub last_frame_nanos: u64,
    pub start_nanos: u64,
}

impl FrameState {
    /// The projection has a defined, positive aspect ratio.
    pub open spec fn wf(self) -> bool {
        self.projection.wf()
    }

    /// The state and the flow after `e`.
    pub open spec fn after_input(self, e: InputEvent) -> (FrameState, Flow) {
        if self.mode == Mode::Exiting {
            (self, Flow::Exit)
        } else {
            match e {
                InputEvent::Resized { width, height } => self.after_resize(width, height),
                InputEvent::CloseRequested => (FrameState { mode: Mode::Exiting, ..self }, Flow::Exit),
                InputEvent::Key { key, state } => {
                    let s = FrameState { controller: after_key(self.controller, key, state), ..self };
                    if key == Key::Escape {
                        (FrameState { mode: Mode::Exiting, ..s }, Flow::Exit)
                    } else {
                        (s, Flow::Continue)
                    }
                },
                InputEvent::Button { button, state } => {
                    if button == 1 {
                        (FrameState { mouse_pressed: state == KeyState::Pressed, ..self }, Flow::Continue)
                    } else {
                        (self, Flow::Continue)
                    }
                },
                InputEvent::Other => (self, Flow::Continue),
            }
        }
    }

    /// The state and the flow after the window reports a size of `width` by
    /// `height`: a size with a zero side is ignored.
    pub open spec fn after_resize(self, width: u32, height: u32) -> (FrameState, Flow) {
        if self.mode == Mode::Exiting {
            (self, Flow::Exit)
        } else if width > 0 && height > 0 {
            (
                FrameState {
                    mode: Mode::Resizing,
                    projection: self.projection.resized(width as int, height as int),
                    ..self
                },
                Flow::Reconfigure,
            )
        } else {
            (self, Flow::Continue)
        }
    }

    /// The state and the flow after drawing a frame ended with `outcome`.
    pub open spec fn after_render(self, outcome: RenderOutcome) -> (FrameState, Flow) {
        if self.mode == Mode::Exiting {
            (self, Flow::Exit)
        } else {
            match outcome {
                RenderOutcome::Presented => (self, Flow::Continue),
                RenderOutcome::SurfaceLost => (FrameState { mode: Mode::Recovering, ..self }, Flow::Reconfigure),
                RenderOutcome::OutOfMemory => (FrameState { mode: Mode::Exiting, ..self }, Flow::Exit),
                RenderOutcome::Failed => (self, Flow::Report),
            }
        }
    }

    /// The state once the surface has been configured at the current size.
    pub open spec fn after_configured(self) -> FrameState {
        if self.mode == Mode::Resizing || self.mode == Mode::Recovering {
            FrameState { mode: Mode::Running, ..self }
        } else {
            self
        }
    }

    /// The time since the previous update, at time `now`; none if the clock
    /// reads earlier than that update.
    pub open spec fn elapsed(self, now: u64) -> int {
        if now >= self.last_frame_nanos { now - self.last_frame_nanos } else { 0 }
    }

    /// The state after the update at time `now`.
    pub open spec fn after_update(self, now: u64) -> FrameState {
        FrameState {
            delta_nanos: self.elapsed(now) as u64,
            last_frame_nanos: now,
            frame_count: (self.frame_count + 1) as u64,
            ..self
        }
    }

    /// A running frame loop for a surface of `width` by `height`, started at
    /// time `now`. `None` when a side is zero.
    pub fn new(width: u32, height: u32, now: u64) -> (r: Option<FrameState>)
        ensures
            r.is_some() <==> width > 0 && height > 0,
            r matches Some(s) ==> {
                &&& s.wf()
                &&& s.mode == Mode::Running
                &&& s.projection.width_spec() == width
                &&& s.projection.height_spec() == height
                &&& s.controller == Controller::new_spec()
                &&& !s.mouse_pressed
                &&& s.frame_count == 0
                &&& s.delta_nanos == INITIAL_DELTA_NANOS
                &&& s.last_frame_nanos == now
                &&& s.start_nanos == now
            },
    {
        match Projection::new(width, height) {
            Some(projection) => Some(
                FrameState {
                    mode: Mode::Running,
                    projection,
                    controller: Controller::new(),
                    mouse_pressed: false,
                    frame_count: 0,
                    delta_nanos: INITIAL_DELTA_NANOS,
                    last_frame_nanos: now,
                    start_nanos: now,
                },
            ),
            None => None,
        }
    }

    /// The current surface size.
    pub fn size(&self) -> (r: (u32, u32))
        ensures
            r.0 == self.projection.width_spec(),
            r.1 == self.projection.height_spec(),
    {
        (self.projection.width(), self.projection.height())
    }

    /// Takes the window's new size. A size with a zero side changes nothing;
    /// any other sets the aspect ratio and asks for the surface to be
    /// configured again.
    pub fn resize(&mut self, width: u32, height: u32) -> (flow: Flow)
        requires
            old(self).wf(),
        ensures
            (*final(self), flow) == old(self).after_resize(width, height),
            final(self).wf(),
    {
        if self.mode == Mode::Exiting {
            return Flow::Exit;
        }
        if width > 0 && height > 0 {
            self.projection.resize(width, height);
            self.mode = Mode::Resizing;
            Flow::Reconfigure
        } else {
            Flow::Continue
        }
    }

    /// Routes one event: a resize to the projection, a key to the movement
    /// intents, the primary pointer button to `mouse_pressed`. Closing the
    /// window or the Escape key ends the loop.
    pub fn input(&mut self, event: &InputEvent) -> (flow: Flow)
        requires
            old(self).wf(),
        ensures
            (*final(self), flow) == old(self).after_input(*event),
            final(self).wf(),
    {
        if self.mode == Mode::Exiting {
            return Flow::Exit;
        }
        match *event {
            InputEvent::Resized { width, height } => self.resize(width, height),
            InputEvent::CloseRequested => {
                self.mode = Mode::Exiting;
                Flow::Exit
            },
            InputEvent::Key { key, state } => self.keyboard_input(key, state),
            InputEvent::Button { button, state } => {
                if button == 1 {
                    self.mouse_pressed = state == KeyState::Pressed;
                }
                Flow::Continue
            },
            InputEvent::Other => Flow::Continue,
        }
    }

    fn keyboard_input(&mut self, key: Key, state: KeyState) -> (flow: Flow)
        requires
            old(self).mode != Mode::Exiting,
        ensures
            (*final(self), flow) == old(self).after_input(InputEvent::Key { key, state }),
    {
        self.controller.process_keyboard(key, state);
        if key == Key::Escape {
            self.mode = Mode::Exiting;
            Flow::Exit
        } else {
            Flow::Continue
        }
    }

    /// Decides on how drawing a frame ended: a lost surface is configured
    /// again, running out of memory ends the loop, any other error is
    /// reported and the loop goes on.
    pub fn render_outcome(&mut self, outcome: RenderOutcome) -> (flow: Flow)
        requires
            old(self).wf(),
        ensures
            (*final(self), flow) == old(self).after_render(outcome),
            final(self).wf(),
    {
        if self.mode == Mode::Exiting {
            return Flow::Exit;
        }
        match outcome {
            RenderOutcome::Presented => Flow::Continue,
            RenderOutcome::SurfaceLost => {
                self.mode = Mode::Recovering;
                Flow::Reconfigure
            },
            RenderOutcome::OutOfMemory => {
                self.mode = Mode::Exiting;
                Flow::Exit
            },
            RenderOutcome::Failed => Flow::Report,
        }
    }

    /// Records that the surface has been configured at the current size.
    pub fn surface_configured(&mut self)
        ensures
            *final(self) == old(self).after_configured(),
    {
        if self.mode == Mode::Resizing || self.mode == Mode::Recovering {
            self.mode = Mode::Running;
        }
    }

    /// Starts a new frame at time `now`: the time since the previous frame
    /// becomes `delta_nanos`, and the frame count goes up by one. Returns
    /// `delta_nanos`.
    pub fn update(&mut self, now: u64) -> (dt: u64)
        requires
            old(self).frame_count < u64::MAX,
        ensures
            *final(self) == old(self).after_update(now),
            dt == final(self).delta_nanos,
            final(self).frame_count == old(self).frame_count + 1,
            final(self).delta_nanos == old(self).elapsed(now),
    {
        let dt = now.saturating_sub(self.last_frame_nanos);
        self.delta_nanos = dt;
        self.last_frame_nanos = now;
        self.frame_count = self.frame_count + 1;
        dt
    }
}

/// Once the loop is exiting it stays so: every event and every render outcome
/// leaves the state as it is and answers `Exit`.
pub proof fn lemma_exiting_is_terminal(s: FrameState, e: InputEvent, outcome: RenderOutcome)
    requires
        s.mode == Mode::Exiting,
    ensures
        s.after_input(e) == (s, Flow::Exit),
        s.after_render(outcome) == (s, Flow::Exit),
        s.after_configured() == s,
{
}

/// Input and render outcomes never change the frame count or the clock; only
/// an update does, and it adds one frame.
pub proof fn lemma_frame_count_moves_only_on_update(
    s: FrameState,
    e: InputEvent,
    outcome: RenderOutcome,
    now: u64,
)
    requires
        s.frame_count < u64::MAX,
    ensures
        s.after_input(e).0.frame_count == s.frame_count,
        s.after_input(e).0.delta_nanos == s.delta_nanos,
        s.after_render(outcome).0.frame_count == s.frame_count,
        s.after_configured().frame_count == s.frame_count,
        s.after_update(now).frame_count == s.frame_count + 1,
{
}

} // verus!
