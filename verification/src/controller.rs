//! The interaction controller: pointer, key and clock events become changes to the
//! clock, to the selection in progress and to the validity of the last frame, and
//! tell the caller what to do with the viewport.

use vstd::prelude::*;
use crate::clock::{budget_at, AnimationState};
use crate::raster::{covers_grid, generate_frame, is_frame};

verus! {

/// Whether the last presented frame still reflects the current state.
#[derive(Clone, Copy, Debug, PartialEq, Eq)]
pub enum FrameValidity {
    Valid,
    Invalid,
}

/// What a key press asks for.
#[derive(Clone, Copy, Debug, PartialEq, Eq)]
pub enum Command {
    /// Restart the depth ramp from the current budget; the viewport stays.
    FreezeDepth,
    /// Pause or resume the animation.
    ToggleRunning,
    /// A key without a meaning here.
    Ignored,
}

/// Which pointer button an event is about.
#[derive(Clone, Copy, Debug, PartialEq, Eq)]
pub enum MouseButton {
    Left,
    Right,
    Other,
}

/// A selection rectangle in progress, given by two opposite corners in window
/// space: where the primary button went down and where the pointer is now.
#[derive(Clone, Copy, Debug, PartialEq)]
pub struct InteractionState<P> {
    pub anchor: P,
    pub current: P,
}

/// What the caller has to do with the viewport after a button release.
#[derive(Clone, Copy, Debug, PartialEq)]
pub enum ViewportAction<P> {
    /// Leave the viewport as it is.
    Keep,
    /// Zoom to the rectangle spanned by the two corners.
    Rebase { anchor: P, current: P },
    /// Restore the default rectangle.
    Reset,
}

/// All mutable state of the viewer but the viewport itself.
#[derive(Clone, Copy, Debug, PartialEq)]
pub struct Controller<P> {
    pub clock: AnimationState,
    pub interaction: Option<InteractionState<P>>,
    pub validity: FrameValidity,
}

impl<P: Copy> Controller<P> {
    /// The clock is well formed.
    pub open spec fn wf(&self) -> bool {
        self.clock.wf()
    }

    /// A frame must be computed exactly when the animation runs and either the last
    /// frame is invalid or a selection is in progress.
    pub open spec fn render_due(&self) -> bool {
        self.clock.running && (self.validity == FrameValidity::Invalid
            || self.interaction is Some)
    }

    /// The state after a key press.
    pub open spec fn after_key(&self, command: Command) -> Controller<P> {
        match command {
            Command::FreezeDepth => Controller {
                clock: self.clock.frozen(),
                interaction: self.interaction,
                validity: self.validity,
            },
            Command::ToggleRunning => Controller {
                clock: self.clock.toggled(),
                interaction: self.interaction,
                validity: self.validity,
            },
            Command::Ignored => *self,
        }
    }

    /// The state after a button press at `position`.
    pub open spec fn after_press(&self, button: MouseButton, position: P) -> Controller<P> {
        match button {
            MouseButton::Left => Controller {
                clock: self.clock,
                interaction: Some(InteractionState { anchor: position, current: position }),
                validity: self.validity,
            },
            _ => *self,
        }
    }

    /// The state after the pointer moved and the far corner became `current`.
    pub open spec fn after_move(&self, current: P) -> Controller<P> {
        match self.interaction {
            Some(selection) => Controller {
                clock: self.clock,
                interaction: Some(InteractionState { anchor: selection.anchor, current }),
                validity: self.validity,
            },
            None => *self,
        }
    }

    /// The state after a button release; `moved` says whether the two corners of the
    /// selection differ.
    pub open spec fn after_release(&self, button: MouseButton, moved: bool) -> Controller<P> {
        match button {
            MouseButton::Left => Controller {
                clock: self.clock,
                interaction: None,
                validity: if self.interaction is Some && moved {
                    FrameValidity::Invalid
                } else {
                    self.validity
                },
            },
            MouseButton::Right => Controller {
                clock: self.clock.frozen(),
                interaction: self.interaction,
                validity: FrameValidity::Invalid,
            },
            MouseButton::Other => *self,
        }
    }

    /// What a button release asks of the viewport.
    pub open spec fn release_action(&self, button: MouseButton, moved: bool) -> ViewportAction<P> {
        match button {
            MouseButton::Left => match self.interaction {
                Some(selection) if moved => ViewportAction::Rebase {
                    anchor: selection.anchor,
                    current: selection.current,
                },
                _ => ViewportAction::Keep,
            },
            MouseButton::Right => ViewportAction::Reset,
            MouseButton::Other => ViewportAction::Keep,
        }
    }

    /// The state after a tick at `elapsed_millis`.
    pub open spec fn after_update(&self, elapsed_millis: usize) -> Controller<P> {
        Controller {
            clock: self.clock.advanced(elapsed_millis),
            interaction: self.interaction,
            validity: if (self.clock.running && budget_at(elapsed_millis) != self.clock.raw_budget)
                || self.interaction is Some {
                FrameValidity::Invalid
            } else {
                self.validity
            },
        }
    }

    /// The state after a frame was computed and presented.
    pub open spec fn after_render(&self) -> Controller<P> {
        Controller {
            clock: self.clock,
            interaction: self.interaction,
            validity: if self.clock.running && self.interaction is None {
                FrameValidity::Valid
            } else {
                self.validity
            },
        }
    }

    /// The state at start: a running clock at zero, no selection, and no valid frame.
    pub fn new() -> (controller: Controller<P>)
        ensures
            controller.clock == (AnimationState { raw_budget: 0, offset: 0, running: true }),
            controller.interaction is None,
            controller.validity == FrameValidity::Invalid,
            controller.wf(),
            controller.render_due(),
    {
        Controller { clock: AnimationState::new(), interaction: None, validity: FrameValidity::Invalid }
    }

    /// Applies a key command.
    pub fn key_pressed(&mut self, command: Command)
        ensures
            *final(self) == old(self).after_key(command),
            old(self).wf() ==> final(self).wf(),
    {
        match command {
            Command::FreezeDepth => self.clock.freeze_depth(),
            Command::ToggleRunning => self.clock.toggle_running(),
            Command::Ignored => {},
        }
    }

    /// The primary button starts a selection whose two corners are both `position`;
    /// any other button leaves the state alone.
    pub fn mouse_pressed(&mut self, button: MouseButton, position: P)
        ensures
            *final(self) == old(self).after_press(button, position),
            old(self).wf() ==> final(self).wf(),
    {
        match button {
            MouseButton::Left => {
                self.interaction = Some(InteractionState { anchor: position, current: position });
            },
            _ => {},
        }
    }

    /// Moves the far corner of the selection in progress to `current`. Without a
    /// selection this does nothing.
    pub fn mouse_moved(&mut self, current: P)
        ensures
            *final(self) == old(self).after_move(current),
            old(self).wf() ==> final(self).wf(),
    {
        match self.interaction {
            Some(selection) => {
                self.interaction = Some(InteractionState { anchor: selection.anchor, current });
            },
            None => {},
        }
    }

    /// Handles a button release.
    ///
    /// The primary button ends the selection in progress; where its corners differ
    /// (`moved`), the frame becomes invalid and the caller is told to zoom to them.
    /// A release without a selection does nothing.
    ///
    /// The secondary button asks for the default viewport, restarts the depth ramp
    /// and invalidates the frame. It does not end a selection in progress: that
    /// selection goes on and is applied to the restored viewport when the primary
    /// button is released.
    pub fn mouse_released(&mut self, button: MouseButton, moved: bool) -> (action: ViewportAction<P>)
        ensures
            *final(self) == old(self).after_release(button, moved),
            action == old(self).release_action(button, moved),
            old(self).wf() ==> final(self).wf(),
    {
        match button {
            MouseButton::Left => {
                let selection = self.interaction;
                self.interaction = None;
                match selection {
                    Some(selection) => {
                        if moved {
                            self.validity = FrameValidity::Invalid;
                            ViewportAction::Rebase {
                                anchor: selection.anchor,
                                current: selection.current,
                            }
                        } else {
                            ViewportAction::Keep
                        }
                    },
                    None => ViewportAction::Keep,
                }
            },
            MouseButton::Right => {
                self.clock.freeze_depth();
                self.validity = FrameValidity::Invalid;
                ViewportAction::Reset
            },
            MouseButton::Other => ViewportAction::Keep,
        }
    }

    /// Takes a reading of the clock at the start of a tick. The frame becomes
    /// invalid where the raw budget changed while running, and on every tick with a
    /// selection in progress.
    pub fn update(&mut self, elapsed_millis: usize)
        requires
            old(self).wf(),
            old(self).clock.raw_budget <= budget_at(elapsed_millis),
        ensures
            *final(self) == old(self).after_update(elapsed_millis),
            final(self).wf(),
    {
        let changed = self.clock.advance(elapsed_millis);
        let selecting = self.interaction.is_some();
        if (changed && self.clock.running) || selecting {
            self.validity = FrameValidity::Invalid;
        }
    }

    /// Whether a frame must be computed this tick. Where it need not, the frame
    /// presented last is shown again.
    pub fn should_render(&self) -> (due: bool)
        ensures
            due == self.render_due(),
    {
        let invalid = match self.validity {
            FrameValidity::Invalid => true,
            FrameValidity::Valid => false,
        };
        self.clock.running && (invalid || self.interaction.is_some())
    }

    /// The iteration cap for the frame computed this tick.
    pub fn effective_iterations(&self) -> (iterations: usize)
        requires
            self.wf(),
        ensures
            iterations == self.clock.effective(),
    {
        self.clock.effective_iterations()
    }

    /// Computes this tick's frame where one is due, and records it as rendered.
    /// Where none is due, nothing is computed and nothing changes: the caller shows
    /// the frame presented last.
    pub fn render<F: Fn(u32, u32, usize) -> [u8; 3] + Sync + Send>(&mut self, shade: &F) -> (frame: Option<Vec<u8>>)
        requires
            old(self).wf(),
            old(self).render_due() ==> covers_grid(*shade, old(self).clock.effective() as usize),
        ensures
            frame is Some <==> old(self).render_due(),
            frame matches Some(bytes) ==> is_frame(
                bytes@,
                *shade,
                old(self).clock.effective() as usize,
            ),
            old(self).render_due() ==> *final(self) == old(self).after_render(),
            !old(self).render_due() ==> *final(self) == *old(self),
            final(self).wf(),
    {
        if self.should_render() {
            let frame = generate_frame(self.effective_iterations(), shade);
            self.frame_rendered();
            Some(frame)
        } else {
            None
        }
    }

    /// Records that a frame was computed and presented: the frame is valid from now
    /// on, unless the animation is paused or a selection is in progress.
    pub fn frame_rendered(&mut self)
        ensures
            *final(self) == old(self).after_render(),
            old(self).wf() ==> final(self).wf(),
    {
        if self.clock.running && self.interaction.is_none() {
            self.validity = FrameValidity::Valid;
        }
    }
}

} // verus!
