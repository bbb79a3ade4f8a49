//! The render side: what to do on each redraw tick and on each resize.
//!
//! An [`App`] never touches the GPU or the window itself. Each of its
//! methods takes what just happened, updates its state and answers with the
//! next thing to do. The caller does that thing and reports back.

use vstd::prelude::*;
use crate::geometry::{frame_bytes, renderable};
use crate::keyed_mutex::{ACQUIRE_TIMEOUT_MS, CONSUMER_KEY, PRODUCER_KEY};
use crate::slot::{Payload, PayloadView, SharedData, SharedHandle, SlotView};

verus! {

/// Number of vertices of the one draw call: a single triangle that covers
/// the whole viewport, made up in the vertex stage without a vertex buffer.
pub const FULLSCREEN_VERTICES: u32 = 3;

/// What the texture bound to the draw pipeline was derived from.
#[derive(Clone, Copy, Debug, PartialEq, Eq)]
pub struct Binding {
    /// The shared handle the texture was opened from; `None` for a texture
    /// of the render side's own, filled by upload.
    pub handle: Option<SharedHandle>,
    /// Width of the texture.
    pub width: u32,
    /// Height of the texture.
    pub height: u32,
}

/// Where the binding of the draw pipeline's texture stands.
#[derive(Clone, Copy, Debug, PartialEq, Eq, Structural)]
pub enum BindingState {
    /// No frame was bound yet.
    Unbound,
    /// A texture is bound and matches the last frame that was accepted.
    Bound,
    /// A shared texture of another handle or size is being opened.
    Rebinding,
}

/// Where the render side stands within one redraw tick.
#[derive(Clone, Copy, Debug, PartialEq, Eq, Structural)]
pub enum RenderPhase {
    /// Between ticks.
    Idle,
    /// The opening of a shared texture was asked for.
    Importing,
    /// An acquisition of the keyed mutex was asked for.
    Acquiring,
    /// The keyed mutex is held and the frame is being drawn.
    Drawing,
}

/// What the caller of an [`App`] does next on a redraw tick.
#[derive(Clone, Copy, Debug, PartialEq, Eq, Structural)]
pub enum RenderAction {
    /// Nothing: no GPU work is due.
    Skip,
    /// Upload the local pixels, `width` by `height`, to the draw pipeline's
    /// texture, making a texture of that size first where `rebind` says so;
    /// then draw into a viewport of the surface's size and present.
    Upload { width: u32, height: u32, rebind: bool, surface_width: u32, surface_height: u32 },
    /// Open the shared texture behind `handle`, derive its shader view and
    /// its keyed mutex, keep them, and report with [`App::import_finished`].
    Import { handle: SharedHandle, width: u32, height: u32 },
    /// Try to acquire the bound texture's keyed mutex with `key`, waiting no
    /// longer than `timeout_ms` milliseconds, and report with
    /// [`App::acquire_finished`].
    Acquire { key: u64, timeout_ms: u32 },
    /// Bind the shared texture, draw into a viewport of the surface's size,
    /// release the keyed mutex with `key`, present, and report with
    /// [`App::presented`].
    DrawAndRelease { key: u64, surface_width: u32, surface_height: u32 },
}

/// What the caller of an [`App`] does on a resize.
#[derive(Clone, Copy, Debug, PartialEq, Eq, Structural)]
pub enum ResizeAction {
    /// Nothing: the size cannot be rendered to, the surface and the bound
    /// texture stay as they are.
    Ignore,
    /// Configure the presentation surface and the viewport to this size
    /// and, where `rebind` says so, make a texture of the render side's own
    /// at this size and bind it in place of the one that was bound.
    Reconfigure { width: u32, height: u32, rebind: bool },
}

/// Mathematical value of an [`App`].
pub struct AppView {
    /// Width the presentation surface is configured to.
    pub surface_width: u32,
    /// Height the presentation surface is configured to.
    pub surface_height: u32,
    /// Version of the last frame that was accepted for drawing; zero, which
    /// no published frame carries, before the first.
    pub last_frame_id: nat,
    /// The render side's own copy of the last frame of bytes.
    pub local_buffer: Seq<u8>,
    /// What the bound texture was derived from, if one is bound.
    pub binding: Option<Binding>,
    /// Progress within the current tick.
    pub phase: RenderPhase,
    /// Version of the frame the current tick is about.
    pub pending_version: nat,
    /// Binding the current tick is opening.
    pub pending_binding: Option<Binding>,
}

impl AppView {
    /// The render side before its first tick, with a surface of this size.
    pub open spec fn fresh(width: u32, height: u32) -> AppView {
        AppView {
            surface_width: width,
            surface_height: height,
            last_frame_id: 0,
            local_buffer: Seq::empty(),
            binding: None,
            phase: RenderPhase::Idle,
            pending_version: 0,
            pending_binding: None,
        }
    }

    /// Where the binding stands.
    pub open spec fn binding_state(self) -> BindingState {
        if self.phase == RenderPhase::Importing {
            BindingState::Rebinding
        } else if self.binding is Some {
            BindingState::Bound
        } else {
            BindingState::Unbound
        }
    }

    /// Whether a tick finds a frame it has not accepted yet: between ticks,
    /// a published frame whose version lies above the last accepted one. A
    /// slot's version only grows, so a version that does not lie above holds
    /// nothing new.
    pub open spec fn sees_new_frame(self, slot: SlotView) -> bool {
        &&& self.phase == RenderPhase::Idle
        &&& slot.published()
        &&& slot.version > self.last_frame_id
        &&& slot.payload != PayloadView::Texture(None)
    }

    /// A tick in progress is about a version that does not lie below the
    /// last accepted one.
    pub open spec fn wf(self) -> bool {
        self.phase != RenderPhase::Idle ==> self.pending_version >= self.last_frame_id
    }

    /// The bound texture is a shared one, opened from a handle.
    pub open spec fn binds_shared_texture(self) -> bool {
        self.binding matches Some(binding) && binding.handle is Some
    }

    /// A resize to a size with a zero dimension is ignored. Any other size
    /// becomes the surface's size, and the texture of the render side's own
    /// is made anew at that size and bound: the binding records it. Only a
    /// bound shared texture stays, since its size is the source's. Nothing
    /// else changes.
    pub open spec fn resize(self, width: u32, height: u32) -> (AppView, ResizeAction) {
        if renderable(width, height) {
            (
                AppView {
                    surface_width: width,
                    surface_height: height,
                    binding: if self.binds_shared_texture() {
                        self.binding
                    } else {
                        Some(Binding { handle: None, width, height })
                    },
                    ..self
                },
                ResizeAction::Reconfigure { width, height, rebind: !self.binds_shared_texture() },
            )
        } else {
            (self, ResizeAction::Ignore)
        }
    }

    /// One redraw tick. The slot is only read. Without a new frame nothing
    /// happens. New bytes are copied out of the slot at once and are
    /// uploaded next. A new frame in a shared texture is only noted: the
    /// texture is opened first where the bound one has another handle or
    /// size, and acquired otherwise.
    pub open spec fn render(self, slot: SlotView) -> (AppView, RenderAction) {
        if !self.sees_new_frame(slot) {
            (self, RenderAction::Skip)
        } else {
            match slot.payload {
                PayloadView::Bytes(bytes) => {
                    let binding = Binding { handle: None, width: slot.width, height: slot.height };
                    (
                        AppView {
                            last_frame_id: slot.version,
                            local_buffer: bytes,
                            binding: Some(binding),
                            ..self
                        },
                        RenderAction::Upload {
                            width: slot.width,
                            height: slot.height,
                            rebind: self.binding != Some(binding),
                            surface_width: self.surface_width,
                            surface_height: self.surface_height,
                        },
                    )
                },
                PayloadView::Texture(handle) => {
                    let binding = Binding { handle, width: slot.width, height: slot.height };
                    if self.binding == Some(binding) {
                        (
                            AppView {
                                phase: RenderPhase::Acquiring,
                                pending_version: slot.version,
                                ..self
                            },
                            RenderAction::Acquire { key: CONSUMER_KEY, timeout_ms: ACQUIRE_TIMEOUT_MS },
                        )
                    } else {
                        (
                            AppView {
                                phase: RenderPhase::Importing,
                                pending_version: slot.version,
                                pending_binding: Some(binding),
                                ..self
                            },
                            RenderAction::Import {
                                handle: handle->0,
                                width: slot.width,
                                height: slot.height,
                            },
                        )
                    }
                },
            }
        }
    }

    /// The shared texture was opened or not. An opened texture becomes the
    /// bound one and is acquired next; a failure ends the tick and leaves
    /// the binding and the last accepted version as they were.
    pub open spec fn import_finished(self, opened: bool) -> (AppView, RenderAction) {
        if self.phase != RenderPhase::Importing {
            (self, RenderAction::Skip)
        } else if opened {
            (
                AppView { binding: self.pending_binding, phase: RenderPhase::Acquiring, ..self },
                RenderAction::Acquire { key: CONSUMER_KEY, timeout_ms: ACQUIRE_TIMEOUT_MS },
            )
        } else {
            (AppView { phase: RenderPhase::Idle, ..self }, RenderAction::Skip)
        }
    }

    /// The acquisition succeeded or not. With the mutex in hand the frame is
    /// drawn and the mutex released to the capture side; without it the tick
    /// ends and the last accepted version stays.
    pub open spec fn acquire_finished(self, acquired: bool) -> (AppView, RenderAction) {
        if self.phase != RenderPhase::Acquiring {
            (self, RenderAction::Skip)
        } else if acquired {
            (
                AppView { phase: RenderPhase::Drawing, ..self },
                RenderAction::DrawAndRelease {
                    key: PRODUCER_KEY,
                    surface_width: self.surface_width,
                    surface_height: self.surface_height,
                },
            )
        } else {
            (AppView { phase: RenderPhase::Idle, ..self }, RenderAction::Skip)
        }
    }

    /// The frame was drawn, the mutex released and the surface presented:
    /// the frame's version becomes the last accepted one.
    pub open spec fn presented(self) -> AppView {
        if self.phase != RenderPhase::Drawing {
            self
        } else {
            AppView { last_frame_id: self.pending_version, phase: RenderPhase::Idle, ..self }
        }
    }
}

/// The render side of the pipeline.
#[derive(Debug)]
pub struct App {
    surface_width: u32,
    surface_height: u32,
    last_frame_id: u64,
    local_buffer: Vec<u8>,
    binding: Option<Binding>,
    phase: RenderPhase,
    pending_version: u64,
    pending_binding: Option<Binding>,
}

impl View for App {
    type V = AppView;

    closed spec fn view(&self) -> AppView {
        AppView {
            surface_width: self.surface_width,
            surface_height: self.surface_height,
            last_frame_id: self.last_frame_id as nat,
            local_buffer: self.local_buffer@,
            binding: self.binding,
            phase: self.phase,
            pending_version: self.pending_version as nat,
            pending_binding: self.pending_binding,
        }
    }
}

/// Whether `bound` is exactly `wanted`.
fn is_bound_to(bound: &Option<Binding>, wanted: &Binding) -> (same: bool)
    ensures
        same == (*bound == Some(*wanted)),
{
    match bound {
        Some(binding) => {
            let same_handle = match (binding.handle, wanted.handle) {
                (Some(a), Some(b)) => a.0 == b.0,
                (None, None) => true,
                _ => false,
            };
            same_handle && binding.width == wanted.width && binding.height == wanted.height
        },
        None => false,
    }
}

impl App {
    /// Every render side is well formed, at all times.
    #[verifier::type_invariant]
    pub open spec fn inv(self) -> bool {
        self@.wf()
    }

    /// The render side before its first tick, with a surface of this size.
    pub fn new(width: u32, height: u32) -> (app: App)
        ensures
            app@ == AppView::fresh(width, height),
    {
        App {
            surface_width: width,
            surface_height: height,
            last_frame_id: 0,
            local_buffer: Vec::new(),
            binding: None,
            phase: RenderPhase::Idle,
            pending_version: 0,
            pending_binding: None,
        }
    }

    /// Size the presentation surface is configured to.
    pub fn size(&self) -> (size: (u32, u32))
        ensures
            size == (self@.surface_width, self@.surface_height),
    {
        (self.surface_width, self.surface_height)
    }

    /// Version of the last frame that was accepted for drawing.
    pub fn last_frame_id(&self) -> (version: u64)
        ensures
            version == self@.last_frame_id,
    {
        self.last_frame_id
    }

    /// The render side's own copy of the last frame of bytes.
    pub fn local_buffer(&self) -> (pixels: &Vec<u8>)
        ensures
            pixels@ == self@.local_buffer,
    {
        &self.local_buffer
    }

    /// What the bound texture was derived from, if one is bound.
    pub fn binding(&self) -> (binding: Option<Binding>)
        ensures
            binding == self@.binding,
    {
        self.binding
    }

    /// Progress within the current tick.
    pub fn phase(&self) -> (phase: RenderPhase)
        ensures
            phase == self@.phase,
    {
        self.phase
    }

    /// Where the binding stands.
    pub fn binding_state(&self) -> (state: BindingState)
        ensures
            state == self@.binding_state(),
    {
        match self.phase {
            RenderPhase::Importing => BindingState::Rebinding,
            _ => match self.binding {
                Some(_) => BindingState::Bound,
                None => BindingState::Unbound,
            },
        }
    }

    /// The window was resized. A size with a zero dimension changes
    /// nothing. Any other size becomes the surface's size, and unless a
    /// shared texture is bound, a texture of the render side's own is bound
    /// at that size.
    pub fn resize(&mut self, width: u32, height: u32) -> (action: ResizeAction)
        ensures
            (final(self)@, action) == old(self)@.resize(width, height),
    {
        proof {
            use_type_invariant(&*self);
        }
        if width > 0 && height > 0 {
            let rebind = match self.binding {
                Some(binding) => match binding.handle {
                    Some(_) => false,
                    None => true,
                },
                None => true,
            };
            self.surface_width = width;
            self.surface_height = height;
            if rebind {
                self.binding = Some(Binding { handle: None, width, height });
            }
            ResizeAction::Reconfigure { width, height, rebind }
        } else {
            ResizeAction::Ignore
        }
    }

    /// One redraw tick, under the slot's lock. The slot is only read. Bytes
    /// that are handed to the upload are exactly the bytes that were
    /// published, and as many as the frame's dimensions ask for. The last
    /// accepted version never goes back: it stays, or becomes the slot's.
    pub fn render(&mut self, slot: &SharedData) -> (action: RenderAction)
        ensures
            (final(self)@, action) == old(self)@.render(slot@),
            (action matches RenderAction::Upload { width, height, .. } ==> {
                &&& PayloadView::Bytes(final(self)@.local_buffer) == slot@.payload
                &&& final(self)@.local_buffer.len() == frame_bytes(width, height)
            }),
            final(self)@.last_frame_id >= old(self)@.last_frame_id,
            final(self)@.last_frame_id == old(self)@.last_frame_id || final(self)@.last_frame_id
                == slot@.version,
    {
        match self.phase {
            RenderPhase::Idle => {},
            _ => {
                return RenderAction::Skip;
            },
        }
        let frame = match slot.try_consume() {
            Some(frame) => frame,
            None => {
                return RenderAction::Skip;
            },
        };
        if frame.version <= self.last_frame_id {
            return RenderAction::Skip;
        }
        match frame.payload {
            Payload::Bytes(bytes) => {
                let binding = Binding { handle: None, width: frame.width, height: frame.height };
                let bound = is_bound_to(&self.binding, &binding);
                let mut pixels: Vec<u8> = Vec::new();
                std::mem::swap(&mut pixels, &mut self.local_buffer);
                pixels.clear();
                pixels.extend_from_slice(bytes.as_slice());
                assert(pixels@ =~= bytes@);
                std::mem::swap(&mut pixels, &mut self.local_buffer);
                self.last_frame_id = frame.version;
                self.binding = Some(binding);
                RenderAction::Upload {
                    width: frame.width,
                    height: frame.height,
                    rebind: !bound,
                    surface_width: self.surface_width,
                    surface_height: self.surface_height,
                }
            },
            Payload::Texture(None) => RenderAction::Skip,
            Payload::Texture(Some(handle)) => {
                let binding = Binding {
                    handle: Some(*handle),
                    width: frame.width,
                    height: frame.height,
                };
                let bound = is_bound_to(&self.binding, &binding);
                self.pending_version = frame.version;
                if bound {
                    self.phase = RenderPhase::Acquiring;
                    RenderAction::Acquire { key: CONSUMER_KEY, timeout_ms: ACQUIRE_TIMEOUT_MS }
                } else {
                    self.phase = RenderPhase::Importing;
                    self.pending_binding = Some(binding);
                    RenderAction::Import {
                        handle: *handle,
                        width: frame.width,
                        height: frame.height,
                    }
                }
            },
        }
    }

    /// The shared texture was opened or not.
    pub fn import_finished(&mut self, opened: bool) -> (action: RenderAction)
        ensures
            (final(self)@, action) == old(self)@.import_finished(opened),
    {
        proof {
            use_type_invariant(&*self);
        }
        match self.phase {
            RenderPhase::Importing => {
                if opened {
                    self.binding = self.pending_binding;
                    self.phase = RenderPhase::Acquiring;
                    RenderAction::Acquire { key: CONSUMER_KEY, timeout_ms: ACQUIRE_TIMEOUT_MS }
                } else {
                    self.phase = RenderPhase::Idle;
                    RenderAction::Skip
                }
            },
            _ => RenderAction::Skip,
        }
    }

    /// The acquisition of the keyed mutex succeeded or not.
    pub fn acquire_finished(&mut self, acquired: bool) -> (action: RenderAction)
        ensures
            (final(self)@, action) == old(self)@.acquire_finished(acquired),
    {
        proof {
            use_type_invariant(&*self);
        }
        match self.phase {
            RenderPhase::Acquiring => {
                if acquired {
                    self.phase = RenderPhase::Drawing;
                    RenderAction::DrawAndRelease {
                        key: PRODUCER_KEY,
                        surface_width: self.surface_width,
                        surface_height: self.surface_height,
                    }
                } else {
                    self.phase = RenderPhase::Idle;
                    RenderAction::Skip
                }
            },
            _ => RenderAction::Skip,
        }
    }

    /// The frame was drawn, the keyed mutex released and the surface
    /// presented. The last accepted version never goes back.
    pub fn presented(&mut self)
        ensures
            final(self)@ == old(self)@.presented(),
            final(self)@.last_frame_id >= old(self)@.last_frame_id,
    {
        proof {
            use_type_invariant(&*self);
        }
        match self.phase {
            RenderPhase::Drawing => {
                self.last_frame_id = self.pending_version;
                self.phase = RenderPhase::Idle;
            },
            _ => {},
        }
    }
}

/// One whole redraw tick: its first step and, for a frame in a shared
/// texture, the steps that follow it, where `opened` and `acquired` are what
/// the caller reports if it is asked to open the texture and to acquire its
/// keyed mutex. The action that comes back is the one that ends the tick:
/// an upload, a draw, or nothing.
pub open spec fn whole_tick(app: AppView, slot: SlotView, opened: bool, acquired: bool) -> (
    AppView,
    RenderAction,
) {
    let (app, action) = app.render(slot);
    let (app, action) = if action is Import {
        app.import_finished(opened)
    } else {
        (app, action)
    };
    let (app, action) = if action is Acquire {
        app.acquire_finished(acquired)
    } else {
        (app, action)
    };
    let app = if action is DrawAndRelease {
        app.presented()
    } else {
        app
    };
    (app, action)
}

/// A tick that finds the version it accepted last does nothing at all: no
/// upload, no draw, no change of the render side.
pub proof fn lemma_tick_without_news_is_skipped(app: AppView, slot: SlotView)
    requires
        slot.version == app.last_frame_id,
    ensures
        app.render(slot) == (app, RenderAction::Skip),
{
}

/// The last accepted version never goes back. Whatever slot a whole tick
/// is handed and whatever the caller reports, the version stays or becomes
/// the slot's, which then lies above it.
pub proof fn lemma_last_accepted_never_goes_back(
    app: AppView,
    slot: SlotView,
    opened: bool,
    acquired: bool,
)
    ensures
        ({
            let (after, _) = whole_tick(app, slot, opened, acquired);
            &&& after.last_frame_id >= app.last_frame_id
            &&& after.last_frame_id == app.last_frame_id || after.last_frame_id == slot.version
        }),
{
}

/// No frame is drawn twice. Of two ticks in a row with no publication
/// between them, the second does nothing at all: no upload, no draw, no
/// change of the last accepted version or of the rest of the render side.
/// The one exception is a first tick that found a new frame in a shared
/// texture and had to give it up, because the texture could not be opened
/// or its keyed mutex was not granted: that frame was not drawn, and the
/// second tick tries again.
pub proof fn lemma_no_double_draw(
    app: AppView,
    slot: SlotView,
    opened: bool,
    acquired: bool,
    opened_again: bool,
    acquired_again: bool,
)
    ensures
        ({
            let (app1, first) = whole_tick(app, slot, opened, acquired);
            let (app2, second) = whole_tick(app1, slot, opened_again, acquired_again);
            let gave_up = app.sees_new_frame(slot) && slot.payload is Texture && first
                == RenderAction::Skip;
            !gave_up ==> {
                &&& second == RenderAction::Skip
                &&& app2 == app1
            }
        }),
{
}

/// Resizing. A resize to a size with a zero dimension changes nothing and
/// asks for nothing. A resize to any other size asks for the surface to be
/// configured to it and, unless a shared texture is bound, for the texture
/// of the render side's own to be made anew at it; the binding then has that
/// size. From then on every upload and every draw targets a viewport of
/// exactly that size.
pub proof fn lemma_resize_takes_effect(
    app: AppView,
    slot: SlotView,
    width: u32,
    height: u32,
    opened: bool,
    acquired: bool,
)
    ensures
        !renderable(width, height) ==> app.resize(width, height) == (app, ResizeAction::Ignore),
        renderable(width, height) ==> ({
            let (resized, action) = app.resize(width, height);
            let (after, drawn) = whole_tick(resized, slot, opened, acquired);
            &&& action == ResizeAction::Reconfigure {
                width,
                height,
                rebind: !app.binds_shared_texture(),
            }
            &&& resized.surface_width == width && resized.surface_height == height
            &&& !app.binds_shared_texture() ==> resized.binding == Some(
                Binding { handle: None, width, height },
            )
            &&& app.binds_shared_texture() ==> resized.binding == app.binding
            &&& resized.last_frame_id == app.last_frame_id
            &&& resized.local_buffer == app.local_buffer
            &&& resized.phase == app.phase
            &&& after.surface_width == width && after.surface_height == height
            &&& drawn matches RenderAction::Upload { surface_width, surface_height, .. }
                ==> surface_width == width && surface_height == height
            &&& drawn matches RenderAction::DrawAndRelease { surface_width, surface_height, .. }
                ==> surface_width == width && surface_height == height
        }),
{
}

} // verus!
