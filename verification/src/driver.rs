//! The frame loop's decisions.
//!
//! The caller owns the window, the surface and the event loop. It reports
//! what happened and does what it is told: each event of the loop has one
//! reaction, and each attempt to get the next frame of the surface tells
//! whether the frame is drawn.

use vstd::prelude::*;

verus! {

/// Width of the window when it opens.
pub const INITIAL_WIDTH: u32 = 480;

/// Height of the window when it opens.
pub const INITIAL_HEIGHT: u32 = 480;

/// How finished frames reach the screen.
#[derive(Clone, Copy, Debug, PartialEq, Eq, Structural)]
pub enum PresentMode {
    Immediate,
    Mailbox,
    Fifo,
}

/// How the surface of the window is set up. `F` is the pixel format, which
/// the surface picks and nothing here looks into.
#[derive(Debug)]
pub struct SurfaceConfiguration<F> {
    pub format: F,
    pub width: u32,
    pub height: u32,
    pub present_mode: PresentMode,
}

/// Why the surface gave no frame.
#[derive(Clone, Copy, Debug, PartialEq, Eq, Structural)]
pub enum SurfaceError {
    Timeout,
    Outdated,
    Lost,
    OutOfMemory,
}

/// What becomes of a frame.
#[derive(Clone, Copy, Debug, PartialEq, Eq, Structural)]
pub enum FrameStart {
    /// The surface gave a frame: draw it.
    Draw,
    /// Drop the frame and say nothing.
    Skip,
    /// Drop the frame and report the error.
    SkipAndReport,
}

/// An event of the window.
#[derive(Clone, Copy, Debug, PartialEq, Eq, Structural)]
pub enum WindowEvent {
    Resized { width: u32, height: u32 },
    CloseRequested,
    Other,
}

/// An event of the loop.
#[derive(Clone, Copy, Debug, PartialEq, Eq, Structural)]
pub enum Event {
    /// The window wants to be drawn.
    RedrawRequested,
    /// All pending events have been handled.
    MainEventsCleared,
    /// An event of the window. The settings panel sees it first;
    /// `exclusive` is set when the panel kept it for itself.
    Window { event: WindowEvent, exclusive: bool },
    /// Anything else.
    Other,
}

/// What the loop does next.
#[derive(Clone, Copy, Debug, PartialEq, Eq, Structural)]
pub enum Action {
    /// Nothing.
    Wait,
    /// Draw one frame.
    DrawFrame,
    /// Ask the window for a redraw.
    RequestRedraw,
    /// Set the surface up again, with the configuration as it is now.
    Reconfigure,
    /// Leave the loop.
    Exit,
}

/// What becomes of a frame: drawn if the surface gave one; dropped in
/// silence if the surface is outdated, which a minimized window causes;
/// dropped with a report on any other error.
pub open spec fn frame_start(acquired: Result<(), SurfaceError>) -> FrameStart {
    match acquired {
        Ok(_) => FrameStart::Draw,
        Err(SurfaceError::Outdated) => FrameStart::Skip,
        Err(_) => FrameStart::SkipAndReport,
    }
}

/// What the loop does on `event`. A resize counts only if the panel did not
/// keep the event and both sides are above zero; so does a request to
/// close.
pub open spec fn action_on(event: Event) -> Action {
    match event {
        Event::RedrawRequested => Action::DrawFrame,
        Event::MainEventsCleared => Action::RequestRedraw,
        Event::Window { event: WindowEvent::Resized { width, height }, exclusive: false } => {
            if width > 0 && height > 0 {
                Action::Reconfigure
            } else {
                Action::Wait
            }
        },
        Event::Window { event: WindowEvent::CloseRequested, exclusive: false } => Action::Exit,
        _ => Action::Wait,
    }
}

impl<F> SurfaceConfiguration<F> {
    /// The configuration with the size `width` by `height`, unless a side
    /// is zero: then the configuration as it is.
    pub open spec fn resized(self, width: u32, height: u32) -> SurfaceConfiguration<F> {
        if width > 0 && height > 0 {
            SurfaceConfiguration { width, height, ..self }
        } else {
            self
        }
    }

    /// The configuration after `event`: a resize that counts sets the size,
    /// nothing else changes anything.
    pub open spec fn after(self, event: Event) -> SurfaceConfiguration<F> {
        match event {
            Event::Window {
                event: WindowEvent::Resized { width, height },
                exclusive: false,
            } => self.resized(width, height),
            _ => self,
        }
    }

    /// A configuration that presents frames in step with the display.
    pub fn new(format: F, width: u32, height: u32) -> (config: SurfaceConfiguration<F>)
        ensures
            config == (SurfaceConfiguration {
                format,
                width,
                height,
                present_mode: PresentMode::Fifo,
            }),
    {
        SurfaceConfiguration { format, width, height, present_mode: PresentMode::Fifo }
    }

    /// Takes the size `width` by `height` over, unless a side is zero: a
    /// window reports such a size while it is minimized, and a surface
    /// cannot have it. Returns whether the size was taken over.
    pub fn resize(&mut self, width: u32, height: u32) -> (applied: bool)
        ensures
            *final(self) == old(self).resized(width, height),
            applied == (width > 0 && height > 0),
    {
        if width > 0 && height > 0 {
            self.width = width;
            self.height = height;
            true
        } else {
            false
        }
    }

    /// Width and height, as the overlay of the settings panel needs them.
    pub fn size_in_pixels(&self) -> (size: [u32; 2])
        ensures
            size@ == seq![self.width, self.height],
    {
        [self.width, self.height]
    }

    /// Reacts to an event of the loop: brings the configuration up to date
    /// and says what the loop does next.
    pub fn on_event(&mut self, event: Event) -> (action: Action)
        ensures
            *final(self) == old(self).after(event),
            action == action_on(event),
    {
        match event {
            Event::RedrawRequested => Action::DrawFrame,
            Event::MainEventsCleared => Action::RequestRedraw,
            Event::Window { event, exclusive } => {
                if exclusive {
                    Action::Wait
                } else {
                    match event {
                        WindowEvent::Resized { width, height } => {
                            if self.resize(width, height) {
                                Action::Reconfigure
                            } else {
                                Action::Wait
                            }
                        },
                        WindowEvent::CloseRequested => Action::Exit,
                        WindowEvent::Other => Action::Wait,
                    }
                }
            },
            Event::Other => Action::Wait,
        }
    }
}

/// Decides what becomes of a frame from the answer of the surface.
pub fn on_acquire(acquired: Result<(), SurfaceError>) -> (start: FrameStart)
    ensures
        start == frame_start(acquired),
{
    match acquired {
        Ok(_) => FrameStart::Draw,
        Err(SurfaceError::Outdated) => FrameStart::Skip,
        Err(_) => FrameStart::SkipAndReport,
    }
}

/// A resize with a side of zero leaves the configuration as it was.
pub proof fn lemma_degenerate_resize_ignored<F>(
    config: SurfaceConfiguration<F>,
    width: u32,
    height: u32,
)
    requires
        width == 0 || height == 0,
    ensures
        config.resized(width, height) == config,
        config.after(Event::Window { event: WindowEvent::Resized { width, height }, exclusive: false })
            == config,
        action_on(Event::Window { event: WindowEvent::Resized { width, height }, exclusive: false })
            == Action::Wait,
{
}

/// A resize with both sides above zero sets exactly that size and leaves
/// format and presentation alone. The loop is told to set the surface up
/// again, and an event that draws the next frame finds the new size.
pub proof fn lemma_resize_applied<F>(config: SurfaceConfiguration<F>, width: u32, height: u32)
    requires
        width > 0,
        height > 0,
    ensures
        config.resized(width, height) == (SurfaceConfiguration { width, height, ..config }),
        config.after(Event::Window { event: WindowEvent::Resized { width, height }, exclusive: false })
            == config.resized(width, height),
        action_on(Event::Window { event: WindowEvent::Resized { width, height }, exclusive: false })
            == Action::Reconfigure,
        config.resized(width, height).after(Event::RedrawRequested).width == width,
        config.resized(width, height).after(Event::RedrawRequested).height == height,
{
}

/// Only a resize that counts changes the configuration.
pub proof fn lemma_only_resize_reconfigures<F>(config: SurfaceConfiguration<F>, event: Event)
    ensures
        action_on(event) != Action::Reconfigure ==> config.after(event) == config,
{
}

} // verus!
