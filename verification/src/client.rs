//! The render client's state and its event-driven transitions.
//!
//! The client owns the loop-relevant state: the surface configuration's
//! dimensions, the clear-color cycle index, and the terminate flag. Each
//! public method returns what the surrounding event loop must do on the GPU
//! side (reconfigure the surface, render one clearing pass), so every
//! decision of the loop is made — and proved — here.

use vstd::prelude::*;

use crate::color::ClearColor;
use crate::color::clear_color;
use crate::color::color_of_index;
use crate::color::next_index;

verus! {

/// A window lifecycle event, as delivered by the window system.
#[derive(Clone, Copy, Debug, PartialEq, Eq, Structural)]
pub enum WindowEvent {
    /// The user asked to close the window.
    CloseRequested,
    /// The window was resized to the given physical dimensions.
    Resized { width: u32, height: u32 },
    /// The compositor asked for the next frame.
    RedrawRequested,
    /// Any other event; the client ignores it.
    Other,
}

/// One clearing render pass: the color every pixel is cleared to, and the
/// surface dimensions the pass targets.
#[derive(Clone, Copy, Debug, PartialEq, Eq, Structural)]
pub struct DrawPass {
    pub color: ClearColor,
    pub width: u32,
    pub height: u32,
}

/// What the event loop must do on the GPU side after an event is handled.
#[derive(Clone, Copy, Debug, PartialEq, Eq, Structural)]
pub enum Action {
    /// No GPU work.
    Nothing,
    /// Reconfigure the surface to the given dimensions.
    Reconfigure { width: u32, height: u32 },
    /// Render the given clearing pass, present it, and request the next
    /// redraw (the request chains the continuous repaint loop).
    Render { pass: DrawPass },
}

/// The render client's loop-relevant state.
#[derive(Clone, Copy, Debug, PartialEq, Eq, Structural)]
pub struct Client {
    /// Set by a close request; the next tick terminates the loop.
    pub exit: bool,
    /// Clear-color cycle index, always below the cycle length.
    pub color_index: u32,
    /// Surface configuration width, kept equal to the window's physical width.
    pub width: u32,
    /// Surface configuration height, kept equal to the window's physical height.
    pub height: u32,
}

/// The state of a freshly initialized client for a window of the given
/// physical dimensions.
pub open spec fn spec_new(width: u32, height: u32) -> Client {
    Client { exit: false, color_index: 0, width, height }
}

/// The state after the surface is resized to the given dimensions.
pub open spec fn spec_resize(c: Client, width: u32, height: u32) -> Client {
    Client { exit: c.exit, color_index: c.color_index, width, height }
}

/// The state and the clearing pass of one drawn frame: the pass clears to
/// the color selected by the current cycle index at the current surface
/// dimensions, and the index advances by one modulo the cycle length.
pub open spec fn spec_draw(c: Client) -> (Client, DrawPass) {
    (
        Client { exit: c.exit, color_index: next_index(c.color_index), width: c.width, height: c.height },
        DrawPass { color: color_of_index(c.color_index), width: c.width, height: c.height },
    )
}

/// The state after a close request: the terminate flag is set.
pub open spec fn spec_close(c: Client) -> Client {
    Client { exit: true, color_index: c.color_index, width: c.width, height: c.height }
}

/// Whether a tick terminates the loop: exactly when a close request has set
/// the terminate flag. A tick changes no state.
pub open spec fn spec_tick(c: Client) -> bool {
    c.exit
}

/// The state and the GPU action after one window event is handled.
pub open spec fn spec_event(c: Client, event: WindowEvent) -> (Client, Action) {
    match event {
        WindowEvent::CloseRequested => (spec_close(c), Action::Nothing),
        WindowEvent::Resized { width, height } => (
            spec_resize(c, width, height),
            Action::Reconfigure { width, height },
        ),
        WindowEvent::RedrawRequested => (spec_draw(c).0, Action::Render { pass: spec_draw(c).1 }),
        WindowEvent::Other => (c, Action::Nothing),
    }
}

/// The state after a sequence of window events is handled in order.
pub open spec fn spec_run_events(c: Client, events: Seq<WindowEvent>) -> Client
    decreases events.len(),
{
    if events.len() == 0 {
        c
    } else {
        spec_run_events(spec_event(c, events[0]).0, events.skip(1))
    }
}

impl Client {
    /// The client's invariant: the cycle index stays below the cycle length.
    pub open spec fn wf(self) -> bool {
        self.color_index < crate::color::COLOR_CYCLE_LEN
    }

    /// A freshly initialized client for a window of the given physical
    /// dimensions: not terminating, cycle index zero.
    pub fn new(width: u32, height: u32) -> (c: Client)
        ensures
            c == spec_new(width, height),
            c.wf(),
    {
        Client { exit: false, color_index: 0, width, height }
    }

    /// Records a resize: the surface configuration's dimensions become
    /// exactly the given ones, synchronously, before any subsequent draw.
    pub fn resize(&mut self, width: u32, height: u32)
        ensures
            *final(self) == spec_resize(*old(self), width, height),
    {
        self.width = width;
        self.height = height;
    }

    /// Draws one frame: returns the clearing pass for the current cycle index
    /// and the current surface dimensions, then advances the index modulo the
    /// cycle length. The dimensions and the terminate flag are unchanged.
    pub fn draw(&mut self) -> (pass: DrawPass)
        requires
            old(self).wf(),
        ensures
            (*final(self), pass) == spec_draw(*old(self)),
            final(self).wf(),
    {
        let color = clear_color(self.color_index);
        let pass = DrawPass { color, width: self.width, height: self.height };
        self.color_index = (self.color_index + 1) % crate::color::COLOR_CYCLE_LEN;
        pass
    }

    /// Handles one window event: a close request sets the terminate flag, a
    /// resize updates the dimensions and asks the loop to reconfigure the
    /// surface, a redraw request draws one frame and asks the loop to render
    /// and present it (and to request the next redraw); every other event is
    /// ignored.
    pub fn window_event(&mut self, event: WindowEvent) -> (action: Action)
        requires
            old(self).wf(),
        ensures
            (*final(self), action) == spec_event(*old(self), event),
            final(self).wf(),
    {
        match event {
            WindowEvent::CloseRequested => {
                self.exit = true;
                Action::Nothing
            },
            WindowEvent::Resized { width, height } => {
                self.resize(width, height);
                Action::Reconfigure { width, height }
            },
            WindowEvent::RedrawRequested => {
                let pass = self.draw();
                Action::Render { pass }
            },
            WindowEvent::Other => Action::Nothing,
        }
    }

    /// One idle tick: reports whether the loop must terminate, which is the
    /// case exactly when a close request was handled before. The state is
    /// unchanged.
    pub fn update(&mut self) -> (exit: bool)
        ensures
            *final(self) == *old(self),
            exit == spec_tick(*old(self)),
    {
        self.exit
    }
}

/// Law: the clear color of a drawn frame is determined by the cycle index —
/// red, green, blue, magenta for indices 0, 1, 2, 3 — and four consecutive
/// draws return the index to its starting value.
pub proof fn lemma_color_cycle(c: Client)
    requires
        c.wf(),
    ensures
        spec_draw(c).1.color == color_of_index(c.color_index),
        c.color_index == 0 ==> spec_draw(c).1.color == ClearColor::Red,
        c.color_index == 1 ==> spec_draw(c).1.color == ClearColor::Green,
        c.color_index == 2 ==> spec_draw(c).1.color == ClearColor::Blue,
        c.color_index == 3 ==> spec_draw(c).1.color == ClearColor::Magenta,
        spec_draw(spec_draw(spec_draw(spec_draw(c).0).0).0).0.color_index == c.color_index,
{
}

/// The state after a number of consecutive drawn frames.
pub open spec fn spec_draws(c: Client, n: nat) -> Client
    decreases n,
{
    if n == 0 {
        c
    } else {
        spec_draws(spec_draw(c).0, (n - 1) as nat)
    }
}

/// Drawing frames never changes the surface dimensions.
pub proof fn lemma_draws_preserve_dims(c: Client, n: nat)
    ensures
        spec_draws(c, n).width == c.width,
        spec_draws(c, n).height == c.height,
    decreases n,
{
    if n > 0 {
        lemma_draws_preserve_dims(spec_draw(c).0, (n - 1) as nat);
    }
}

/// Law: after a resize, every subsequent draw — however many frames later —
/// clears a frame of exactly the resized dimensions; the dimensions in use
/// never lag behind the most recent resize.
pub proof fn lemma_resize_then_draw(c: Client, width: u32, height: u32, n: nat)
    ensures
        spec_draw(spec_draws(spec_resize(c, width, height), n)).1.width == width,
        spec_draw(spec_draws(spec_resize(c, width, height), n)).1.height == height,
{
    lemma_draws_preserve_dims(spec_resize(c, width, height), n);
}

/// Law: a close event followed by a tick terminates the loop.
pub proof fn lemma_close_then_tick(c: Client)
    ensures
        spec_tick(spec_event(c, WindowEvent::CloseRequested).0),
{
}

/// Law: without a close event the loop never terminates — after any sequence
/// of non-close events on a client whose terminate flag is clear, a tick does
/// not terminate the loop.
pub proof fn lemma_tick_without_close(c: Client, events: Seq<WindowEvent>)
    requires
        !c.exit,
        forall|i: int| 0 <= i < events.len() ==> events[i] !is CloseRequested,
    ensures
        !spec_tick(spec_run_events(c, events)),
    decreases events.len(),
{
    if events.len() > 0 {
        let next = spec_event(c, events[0]).0;
        lemma_tick_without_close(next, events.skip(1));
    }
}

} // verus!
