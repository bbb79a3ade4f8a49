//! The window's event handler: which events reach the render side.

use vstd::prelude::*;
use crate::render::{App, AppView, RenderAction, ResizeAction};
use crate::slot::{SharedData, SlotView};

verus! {

/// The window events the handler tells apart.
#[derive(Clone, Copy, Debug, PartialEq, Eq, Structural)]
pub enum WindowEvent {
    /// The window asks to be redrawn.
    RedrawRequested,
    /// The window has a new inner size.
    Resized { width: u32, height: u32 },
    /// Anything else.
    Other,
}

/// What the caller of an [`AppHandler`] does after a window event.
#[derive(Clone, Copy, Debug, PartialEq, Eq, Structural)]
pub enum EventAction {
    /// Nothing.
    Ignore,
    /// Carry out the tick's action, then ask the window for the next redraw,
    /// so that ticks follow one another without pause.
    Redraw(RenderAction),
    /// Carry out the resize's action.
    Resize(ResizeAction),
}

/// What the caller of an [`AppHandler`] does when the event loop resumes.
#[derive(Clone, Copy, Debug, PartialEq, Eq, Structural)]
pub enum ResumeAction {
    /// Nothing: the overlay is running.
    Ignore,
    /// Create the overlay window, start the capture, and report the
    /// window's inner size with [`AppHandler::launched`].
    Launch,
}

/// What a resume leads to: a launch, unless the overlay is running.
pub open spec fn resume_action(app: Option<AppView>) -> ResumeAction {
    if app is None {
        ResumeAction::Launch
    } else {
        ResumeAction::Ignore
    }
}

/// The handler after the overlay window was created with this inner size:
/// a render side before its first tick, unless one exists already.
pub open spec fn after_launch(app: Option<AppView>, width: u32, height: u32) -> Option<AppView> {
    if app is None {
        Some(AppView::fresh(width, height))
    } else {
        app
    }
}

/// A redraw request becomes a tick and a resize a resize, once the overlay
/// is running. Every other event, and every event before the launch, is
/// ignored.
pub open spec fn dispatch(app: Option<AppView>, slot: SlotView, event: WindowEvent) -> (
    Option<AppView>,
    EventAction,
) {
    match (app, event) {
        (Some(app), WindowEvent::RedrawRequested) => {
            let (app, action) = app.render(slot);
            (Some(app), EventAction::Redraw(action))
        },
        (Some(app), WindowEvent::Resized { width, height }) => {
            let (app, action) = app.resize(width, height);
            (Some(app), EventAction::Resize(action))
        },
        _ => (app, EventAction::Ignore),
    }
}

/// Handler of the overlay window's events.
#[derive(Debug)]
pub struct AppHandler {
    /// The render side, once the overlay was launched.
    pub app: Option<App>,
}

impl View for AppHandler {
    type V = Option<AppView>;

    open spec fn view(&self) -> Option<AppView> {
        match self.app {
            Some(app) => Some(app@),
            None => None,
        }
    }
}

impl AppHandler {
    /// A handler of an overlay that was not launched yet.
    pub fn new() -> (handler: AppHandler)
        ensures
            handler@ is None,
    {
        AppHandler { app: None }
    }

    /// The event loop resumed.
    pub fn resumed(&self) -> (action: ResumeAction)
        ensures
            action == resume_action(self@),
    {
        match &self.app {
            Some(_) => ResumeAction::Ignore,
            None => ResumeAction::Launch,
        }
    }

    /// The overlay window was created with this inner size. Returns whether
    /// this was the launch.
    pub fn launched(&mut self, width: u32, height: u32) -> (first: bool)
        ensures
            first == (old(self)@ is None),
            final(self)@ == after_launch(old(self)@, width, height),
    {
        match &self.app {
            Some(_) => false,
            None => {
                self.app = Some(App::new(width, height));
                true
            },
        }
    }

    /// A window event arrived. Called under the slot's lock; the slot is
    /// only read.
    pub fn window_event(&mut self, slot: &SharedData, event: WindowEvent) -> (action:
        EventAction)
        ensures
            (final(self)@, action) == dispatch(old(self)@, slot@, event),
    {
        match &mut self.app {
            Some(app) => match event {
                WindowEvent::RedrawRequested => {
                    let action = app.render(slot);
                    EventAction::Redraw(action)
                },
                WindowEvent::Resized { width, height } => {
                    let action = app.resize(width, height);
                    EventAction::Resize(action)
                },
                WindowEvent::Other => EventAction::Ignore,
            },
            None => EventAction::Ignore,
        }
    }
}

impl Default for AppHandler {
    /// A handler of an overlay that was not launched yet.
    fn default() -> (handler: AppHandler)
        ensures
            handler@ is None,
    {
        AppHandler::new()
    }
}

} // verus!
