use vstd::prelude::*;
use crate::camera::{Camera, CameraController, Heading};
use crate::input::{InputEvent, Key};
use crate::projection::CameraProjection;

verus! {

/// Length of one tick at the target rate of 60 ticks per second, in nanoseconds.
pub const TICK_NANOS: u64 = 16_666_666;

#[derive(Clone, Copy, Debug, PartialEq, Eq)]
pub enum RunState {
    Running,
    /// Terminal: the loop exits without another tick.
    Stopped,
}

/// What the driver must do outside the library after an event.
#[derive(Clone, Copy, Debug, PartialEq, Eq)]
pub enum FrameAction {
    Nothing,
    /// Leave the loop.
    Stop,
    /// Reconfigure the output surface and recreate the depth buffer at this size.
    Reconfigure { width: u32, height: u32 },
}

/// The state that the frame loop owns: run state, camera, controller and projection.
#[derive(Clone, Copy, Debug, PartialEq, Eq)]
pub struct FrameLoop {
    pub state: RunState,
    pub camera: Camera,
    pub controller: CameraController,
    pub projection: CameraProjection,
}

impl FrameLoop {
    pub open spec fn wf(&self) -> bool {
        &&& self.camera.wf()
        &&& self.controller.wf()
        &&& self.projection.wf()
    }

    /// The loop after one event, and the action it asks for. Closing the window or
    /// pressing escape stops the loop; a resize to a surface with two positive sides
    /// takes its aspect ratio and asks for a reconfiguration, while a degenerate one is
    /// ignored; every other event goes to the camera controller. A stopped loop ignores
    /// everything.
    pub open spec fn after_event(self, event: InputEvent) -> (FrameLoop, FrameAction) {
        match self.state {
            RunState::Stopped => (self, FrameAction::Nothing),
            RunState::Running => match event {
                InputEvent::Quit | InputEvent::KeyDown(Key::Escape) => (
                    FrameLoop { state: RunState::Stopped, ..self },
                    FrameAction::Stop,
                ),
                InputEvent::Resized(w, h) => {
                    if w > 0 && h > 0 {
                        (
                            FrameLoop {
                                projection: CameraProjection {
                                    aspect_width: w as u32,
                                    aspect_height: h as u32,
                                    ..self.projection
                                },
                                ..self
                            },
                            FrameAction::Reconfigure { width: w as u32, height: h as u32 },
                        )
                    } else {
                        (self, FrameAction::Nothing)
                    }
                },
                _ => (
                    FrameLoop { controller: self.controller.after_event(event), ..self },
                    FrameAction::Nothing,
                ),
            },
        }
    }

    /// The loop after a run of events, handled in order.
    pub open spec fn after_events(self, events: Seq<InputEvent>) -> FrameLoop
        decreases events.len(),
    {
        if events.len() == 0 {
            self
        } else {
            self.after_events(events.drop_last()).after_event(events.last()).0
        }
    }

    pub fn new(camera: Camera, controller: CameraController, projection: CameraProjection) -> (r:
        FrameLoop)
        ensures
            r == (FrameLoop { state: RunState::Running, camera, controller, projection }),
    {
        FrameLoop { state: RunState::Running, camera, controller, projection }
    }

    pub fn is_running(&self) -> (r: bool)
        ensures
            r == (self.state == RunState::Running),
    {
        match self.state {
            RunState::Running => true,
            RunState::Stopped => false,
        }
    }

    /// Handles one pending input event.
    pub fn handle_event(&mut self, event: InputEvent) -> (r: FrameAction)
        ensures
            (*final(self), r) == old(self).after_event(event),
            old(self).wf() ==> final(self).wf(),
    {
        if !self.is_running() {
            return FrameAction::Nothing;
        }
        match event {
            InputEvent::Quit | InputEvent::KeyDown(Key::Escape) => {
                self.state = RunState::Stopped;
                FrameAction::Stop
            },
            InputEvent::Resized(w, h) => {
                if w > 0 && h > 0 {
                    self.projection.resize(w as u32, h as u32);
                    FrameAction::Reconfigure { width: w as u32, height: h as u32 }
                } else {
                    FrameAction::Nothing
                }
            },
            _ => {
                self.controller.process_event(event);
                FrameAction::Nothing
            },
        }
    }

    /// Drains a tick's pending events in order and returns the action of each.
    pub fn handle_events(&mut self, events: &Vec<InputEvent>) -> (r: Vec<FrameAction>)
        ensures
            *final(self) == old(self).after_events(events@),
            r@.len() == events@.len(),
            forall|i: int|
                0 <= i < events@.len() ==> #[trigger] r@[i] == old(self).after_events(
                    events@.take(i),
                ).after_event(events@[i]).1,
            old(self).wf() ==> final(self).wf(),
    {
        let mut actions: Vec<FrameAction> = Vec::new();
        let mut i: usize = 0;
        while i < events.len()
            invariant
                i <= events@.len(),
                *self == old(self).after_events(events@.take(i as int)),
                old(self).wf() ==> self.wf(),
                actions@.len() == i,
                forall|k: int|
                    0 <= k < i ==> #[trigger] actions@[k] == old(self).after_events(
                        events@.take(k),
                    ).after_event(events@[k]).1,
            decreases events@.len() - i,
        {
            let action = self.handle_event(events[i]);
            actions.push(action);
            proof {
                assert(events@.take(i + 1).drop_last() =~= events@.take(i as int));
            }
            i = i + 1;
        }
        proof {
            assert(events@.take(events@.len() as int) =~= events@);
        }
        actions
    }

    /// Integrates the camera over the last tick's elapsed time while the loop runs.
    /// Returns whether the camera was updated, so that the frame uniform is repacked.
    pub fn update(&mut self, heading: Heading, dt_micros: u32) -> (r: bool)
        requires
            old(self).controller.wf(),
        ensures
            r == (old(self).state == RunState::Running),
            r ==> *final(self) == (FrameLoop {
                camera: old(self).controller.integrated(old(self).camera, heading, dt_micros as int),
                ..*old(self)
            }),
            !r ==> *final(self) == *old(self),
            old(self).wf() ==> final(self).wf(),
    {
        if self.is_running() {
            self.controller.update_camera(&mut self.camera, heading, dt_micros);
            true
        } else {
            false
        }
    }
}

/// A stopped loop is terminal: whatever events follow, it stays stopped and unchanged.
pub proof fn lemma_stopped_is_terminal(frame: FrameLoop, events: Seq<InputEvent>)
    requires
        frame.state == RunState::Stopped,
    ensures
        frame.after_events(events) == frame,
    decreases events.len(),
{
    if events.len() > 0 {
        lemma_stopped_is_terminal(frame, events.drop_last());
    }
}

/// How long to sleep after a tick whose work took `elapsed_nanos`, so that ticks come at
/// the target rate: the rest of the tick, or nothing when the tick ran late.
pub fn pacing_sleep_nanos(elapsed_nanos: u64) -> (r: u64)
    ensures
        elapsed_nanos < TICK_NANOS ==> r == TICK_NANOS - elapsed_nanos,
        elapsed_nanos >= TICK_NANOS ==> r == 0,
{
    if elapsed_nanos < TICK_NANOS {
        TICK_NANOS - elapsed_nanos
    } else {
        0
    }
}

/// The elapsed time between two ticks in whole microseconds, the time step of the next
/// update, held at `u32::MAX` for a pause longer than that.
pub fn dt_micros(elapsed_nanos: u64) -> (r: u32)
    ensures
        elapsed_nanos / 1000 <= u32::MAX ==> r == elapsed_nanos / 1000,
        elapsed_nanos / 1000 > u32::MAX ==> r == u32::MAX,
{
    let micros = elapsed_nanos / 1000;
    if micros > u32::MAX as u64 {
        u32::MAX
    } else {
        micros as u32
    }
}

} // verus!
