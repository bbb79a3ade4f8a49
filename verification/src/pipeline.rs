//! The whole pipeline as one model: a slot, the capture side, the render
//! side, and the keyed mutexes of the shared textures, driven by callers
//! that do what they are told.
//!
//! The model takes the two sides' own transition functions as they are and
//! adds what the library cannot see: the keyed mutex of every shared
//! texture, which grants an acquisition only while it lies released under
//! the key that is asked for. Events of the two sides may interleave in any
//! order. The theorems at the end say what holds after every such
//! interleaving.

use vstd::prelude::*;
use crate::capture::{CaptureAction, CapturePhase, CapturerView, ColorFormat, SharedTexture};
use crate::geometry::frame_bytes;
use crate::keyed_mutex::{KeyedMutex, ACQUIRE_TIMEOUT_MS, CONSUMER_KEY, PRODUCER_KEY};
use crate::render::{AppView, RenderAction, RenderPhase};
use crate::slot::{PayloadView, SharedHandle, SlotView, Transport};

verus! {

/// A shared texture as the model sees it.
pub struct TextureModel {
    /// The texture's keyed mutex.
    pub mutex: KeyedMutex,
    /// Frames the capture side copied into the texture so far.
    pub copies: nat,
    /// Times the render side drew from the texture so far.
    pub draws: nat,
}

impl TextureModel {
    /// A texture that was just created.
    pub open spec fn fresh() -> TextureModel {
        TextureModel { mutex: KeyedMutex::fresh(), copies: 0, draws: 0 }
    }
}

/// State of the whole pipeline.
pub struct Pipeline {
    /// The shared frame slot.
    pub slot: SlotView,
    /// The capture side.
    pub capturer: CapturerView,
    /// What the capture side's caller was told last and has not done yet.
    pub capture_todo: CaptureAction,
    /// The render side.
    pub app: AppView,
    /// What the render side's caller was told last and has not done yet.
    pub render_todo: RenderAction,
    /// Every shared texture that was created, by its handle.
    pub textures: Map<SharedHandle, TextureModel>,
}

/// One thing that happens to the pipeline.
pub enum Event {
    /// The capture service delivers a frame as bytes, or fails to.
    FrameBytes { bytes: Option<Seq<u8>>, width: u32, height: u32 },
    /// The capture service delivers a frame as a texture.
    FrameTexture { width: u32, height: u32, format: ColorFormat },
    /// The capture side's caller does what it was told and reports.
    /// `created` is the handle of the new texture where it was told to
    /// create one and could.
    CaptureDone { created: Option<SharedHandle> },
    /// The window asks to be redrawn.
    Redraw,
    /// The window has a new size.
    Resized { width: u32, height: u32 },
    /// The render side's caller does what it was told and reports.
    /// `opened` says whether the shared texture could be opened where it was
    /// told to open one.
    RenderDone { opened: bool },
}

impl Pipeline {
    /// The pipeline at startup.
    pub open spec fn start(transport: Transport, width: u32, height: u32) -> Pipeline {
        Pipeline {
            slot: SlotView::empty(transport),
            capturer: CapturerView::fresh(),
            capture_todo: CaptureAction::Skip,
            app: AppView::fresh(width, height),
            render_todo: RenderAction::Skip,
            textures: Map::empty(),
        }
    }

    /// The capture side holds the keyed mutex of texture `handle`.
    pub open spec fn capture_holds(self, handle: SharedHandle) -> bool {
        &&& self.capturer.phase == CapturePhase::Copying
        &&& self.capturer.texture matches Some(texture)
        &&& texture.handle == handle
    }

    /// The render side holds the keyed mutex of texture `handle`.
    pub open spec fn render_holds(self, handle: SharedHandle) -> bool {
        &&& self.app.phase == RenderPhase::Drawing
        &&& self.app.binding matches Some(binding)
        &&& binding.handle == Some(handle)
    }

    /// The capture side's caller does what it was told.
    pub open spec fn capture_done(self, created: Option<SharedHandle>) -> Pipeline {
        match self.capture_todo {
            CaptureAction::Skip => self,
            CaptureAction::Publish => {
                let (capturer, slot) = self.capturer.publish_staged(self.slot);
                Pipeline { capturer, slot, capture_todo: CaptureAction::Skip, ..self }
            },
            CaptureAction::CreateTexture { .. } => {
                let (capturer, slot, todo) = self.capturer.texture_created(self.slot, created);
                Pipeline {
                    capturer,
                    slot,
                    capture_todo: todo,
                    textures: match created {
                        Some(handle) => self.textures.insert(handle, TextureModel::fresh()),
                        None => self.textures,
                    },
                    ..self
                }
            },
            CaptureAction::Acquire { key, .. } => match self.capturer.texture {
                Some(texture) if self.textures.dom().contains(texture.handle) => {
                    let model = self.textures[texture.handle];
                    let (capturer, todo) = self.capturer.acquire_finished(
                        model.mutex.grants(key),
                    );
                    Pipeline {
                        capturer,
                        capture_todo: todo,
                        textures: self.textures.insert(
                            texture.handle,
                            TextureModel { mutex: model.mutex.acquire(key), ..model },
                        ),
                        ..self
                    }
                },
                _ => self,
            },
            CaptureAction::CopyAndRelease { key } => match self.capturer.texture {
                Some(texture) if self.textures.dom().contains(texture.handle) => {
                    let model = self.textures[texture.handle];
                    let (capturer, slot) = self.capturer.copy_finished(self.slot);
                    Pipeline {
                        capturer,
                        slot,
                        capture_todo: CaptureAction::Skip,
                        textures: self.textures.insert(
                            texture.handle,
                            TextureModel {
                                mutex: model.mutex.release(key),
                                copies: model.copies + 1,
                                ..model
                            },
                        ),
                        ..self
                    }
                },
                _ => self,
            },
        }
    }

    /// The handle of the texture the render side has bound, if it has bound
    /// a shared one that exists.
    pub open spec fn bound_handle(self) -> Option<SharedHandle> {
        match self.app.binding {
            Some(binding) => match binding.handle {
                Some(handle) if self.textures.dom().contains(handle) => Some(handle),
                _ => None,
            },
            None => None,
        }
    }

    /// The render side's caller does what it was told.
    pub open spec fn render_done(self, opened: bool) -> Pipeline {
        match self.render_todo {
            RenderAction::Skip => self,
            RenderAction::Upload { .. } => Pipeline { render_todo: RenderAction::Skip, ..self },
            RenderAction::Import { .. } => {
                let (app, todo) = self.app.import_finished(opened);
                Pipeline { app, render_todo: todo, ..self }
            },
            RenderAction::Acquire { key, .. } => match self.bound_handle() {
                Some(handle) => {
                    let model = self.textures[handle];
                    let (app, todo) = self.app.acquire_finished(model.mutex.grants(key));
                    Pipeline {
                        app,
                        render_todo: todo,
                        textures: self.textures.insert(
                            handle,
                            TextureModel { mutex: model.mutex.acquire(key), ..model },
                        ),
                        ..self
                    }
                },
                None => self,
            },
            RenderAction::DrawAndRelease { key, .. } => match self.bound_handle() {
                Some(handle) => {
                    let model = self.textures[handle];
                    Pipeline {
                        app: self.app.presented(),
                        render_todo: RenderAction::Skip,
                        textures: self.textures.insert(
                            handle,
                            TextureModel {
                                mutex: model.mutex.release(key),
                                draws: model.draws + 1,
                                ..model
                            },
                        ),
                        ..self
                    }
                },
                None => self,
            },
        }
    }

    /// The pipeline after one event. A caller finishes what it was told
    /// before it hands in the next event of its side, so a delivery, a
    /// redraw request or a resize that comes while something is still to do
    /// on its side changes nothing.
    pub open spec fn advance(self, event: Event) -> Pipeline {
        match event {
            Event::FrameBytes { bytes, width, height } => {
                if self.capture_todo == CaptureAction::Skip {
                    let (capturer, todo) = self.capturer.stage_frame(bytes, width, height);
                    Pipeline { capturer, capture_todo: todo, ..self }
                } else {
                    self
                }
            },
            Event::FrameTexture { width, height, format } => {
                if self.capture_todo == CaptureAction::Skip {
                    let (capturer, todo) = self.capturer.frame_arrived(width, height, format);
                    Pipeline { capturer, capture_todo: todo, ..self }
                } else {
                    self
                }
            },
            Event::CaptureDone { created } => self.capture_done(created),
            Event::Redraw => {
                if self.render_todo == RenderAction::Skip {
                    let (app, todo) = self.app.render(self.slot);
                    Pipeline { app, render_todo: todo, ..self }
                } else {
                    self
                }
            },
            Event::Resized { width, height } => {
                if self.render_todo == RenderAction::Skip {
                    Pipeline { app: self.app.resize(width, height).0, ..self }
                } else {
                    self
                }
            },
            Event::RenderDone { opened } => self.render_done(opened),
        }
    }

    /// An event can happen in this state: a texture that is created gets a
    /// handle that no texture before it had.
    pub open spec fn admits(self, event: Event) -> bool {
        event matches Event::CaptureDone { created: Some(handle) } ==> !self.textures.dom().contains(
            handle,
        )
    }

    /// The pipeline after a sequence of events, first to last.
    pub open spec fn run(self, events: Seq<Event>) -> Pipeline
        decreases events.len(),
    {
        if events.len() == 0 {
            self
        } else {
            self.run(events.drop_last()).advance(events.last())
        }
    }

    /// Every event of the sequence can happen in the state it meets.
    pub open spec fn admits_all(self, events: Seq<Event>) -> bool
        decreases events.len(),
    {
        if events.len() == 0 {
            true
        } else {
            self.admits_all(events.drop_last()) && self.run(events.drop_last()).admits(
                events.last(),
            )
        }
    }

    /// What the capture side's caller has to do fits the capture side's
    /// phase.
    pub open spec fn capture_in_step(self) -> bool {
        match self.capturer.phase {
            CapturePhase::Idle => self.capture_todo == CaptureAction::Skip || self.capture_todo
                == CaptureAction::Publish,
            CapturePhase::Creating { .. } => self.capture_todo is CreateTexture,
            CapturePhase::Acquiring => {
                &&& self.capture_todo == CaptureAction::Acquire {
                    key: PRODUCER_KEY,
                    timeout_ms: ACQUIRE_TIMEOUT_MS,
                }
                &&& self.capturer.texture is Some
            },
            CapturePhase::Copying => {
                &&& self.capture_todo == CaptureAction::CopyAndRelease { key: CONSUMER_KEY }
                &&& self.capturer.texture is Some
            },
        }
    }

    /// What the render side's caller has to do fits the render side's
    /// phase.
    pub open spec fn render_in_step(self) -> bool {
        match self.app.phase {
            RenderPhase::Idle => self.render_todo == RenderAction::Skip || self.render_todo
                is Upload,
            RenderPhase::Importing => {
                &&& self.render_todo is Import
                &&& self.app.pending_binding matches Some(binding)
                &&& binding.handle matches Some(handle)
                &&& self.textures.dom().contains(handle)
            },
            RenderPhase::Acquiring => {
                &&& self.render_todo == RenderAction::Acquire {
                    key: CONSUMER_KEY,
                    timeout_ms: ACQUIRE_TIMEOUT_MS,
                }
                &&& self.bound_handle() is Some
            },
            RenderPhase::Drawing => {
                &&& self.render_todo matches RenderAction::DrawAndRelease { key, .. }
                &&& key == PRODUCER_KEY
                &&& self.bound_handle() is Some
            },
        }
    }

    /// Every handle in use belongs to a texture that was created, and the
    /// slot announces exactly the texture the capture side writes to, with
    /// that texture's dimensions.
    pub open spec fn handles_agree(self) -> bool {
        &&& self.capturer.texture matches Some(texture) ==> {
            &&& self.textures.dom().contains(texture.handle)
            &&& self.slot.payload == PayloadView::Texture(Some(texture.handle))
            &&& self.slot.width == texture.width
            &&& self.slot.height == texture.height
        }
        &&& self.slot.payload matches PayloadView::Texture(Some(handle))
            ==> self.capturer.texture matches Some(texture) && texture.handle == handle
        &&& self.app.binding matches Some(binding) ==> (binding.handle matches Some(handle)
            ==> self.textures.dom().contains(handle))
    }

    /// The keyed mutex of texture `handle` is held exactly while one side
    /// works on the texture, never by both, and its key and the counts of
    /// copies and draws tell whose turn it is.
    pub open spec fn texture_in_turn(self, handle: SharedHandle) -> bool {
        let model = self.textures[handle];
        &&& !(self.capture_holds(handle) && self.render_holds(handle))
        &&& match model.mutex {
            KeyedMutex::Held => {
                &&& self.capture_holds(handle) || self.render_holds(handle)
                &&& self.capture_holds(handle) ==> model.copies == model.draws
                &&& self.render_holds(handle) ==> model.copies == model.draws + 1
            },
            KeyedMutex::Released { key } => {
                &&& !self.capture_holds(handle)
                &&& !self.render_holds(handle)
                &&& key == PRODUCER_KEY || key == CONSUMER_KEY
                &&& key == PRODUCER_KEY ==> model.copies == model.draws
                &&& key == CONSUMER_KEY ==> model.copies == model.draws + 1
            },
        }
    }

    /// The render side never runs ahead of the slot: what it accepted, and
    /// what it is about to accept, was published.
    pub open spec fn versions_in_order(self) -> bool {
        &&& self.app.last_frame_id <= self.slot.version
        &&& self.app.phase != RenderPhase::Idle ==> self.app.last_frame_id
            <= self.app.pending_version <= self.slot.version
    }

    /// What holds of the pipeline at all times.
    pub open spec fn inv(self) -> bool {
        &&& self.slot.wf()
        &&& self.versions_in_order()
        &&& self.capture_in_step()
        &&& self.render_in_step()
        &&& self.handles_agree()
        &&& forall|handle: SharedHandle| #[trigger]
            self.textures.dom().contains(handle) ==> self.texture_in_turn(handle)
    }
}

/// The pipeline at startup is in order.
pub proof fn lemma_start_in_order(transport: Transport, width: u32, height: u32)
    ensures
        Pipeline::start(transport, width, height).inv(),
{
}

/// Every event that can happen leaves a pipeline that is in order in order.
pub proof fn lemma_advance_in_order(pipeline: Pipeline, event: Event)
    requires
        pipeline.inv(),
        pipeline.admits(event),
    ensures
        pipeline.advance(event).inv(),
{
    let next = pipeline.advance(event);
    assert forall|handle: SharedHandle| #[trigger]
        next.textures.dom().contains(handle) implies next.texture_in_turn(handle) by {
        if pipeline.textures.dom().contains(handle) {
            assert(pipeline.texture_in_turn(handle));
        }
    }
}

/// No event makes the slot's version or the render side's last accepted
/// version go back.
pub proof fn lemma_advance_never_goes_back(pipeline: Pipeline, event: Event)
    requires
        pipeline.inv(),
    ensures
        pipeline.slot.version <= pipeline.advance(event).slot.version,
        pipeline.app.last_frame_id <= pipeline.advance(event).app.last_frame_id,
{
}

/// After every sequence of events that can happen, the pipeline is in
/// order.
pub proof fn lemma_run_in_order(transport: Transport, width: u32, height: u32, events: Seq<Event>)
    requires
        Pipeline::start(transport, width, height).admits_all(events),
    ensures
        Pipeline::start(transport, width, height).run(events).inv(),
    decreases events.len(),
{
    let start = Pipeline::start(transport, width, height);
    if events.len() == 0 {
        lemma_start_in_order(transport, width, height);
    } else {
        lemma_run_in_order(transport, width, height, events.drop_last());
        lemma_advance_in_order(start.run(events.drop_last()), events.last());
    }
}

/// Versions only grow. However the events of the two sides interleave, a
/// later look at the slot finds a version at least as high as an earlier
/// one, the render side's last accepted version never goes back, and it
/// never exceeds what was published.
pub proof fn lemma_versions_only_grow(
    transport: Transport,
    width: u32,
    height: u32,
    events: Seq<Event>,
    earlier: int,
    later: int,
)
    requires
        Pipeline::start(transport, width, height).admits_all(events),
        0 <= earlier <= later <= events.len(),
    ensures
        ({
            let start = Pipeline::start(transport, width, height);
            let before = start.run(events.take(earlier));
            let after = start.run(events.take(later));
            &&& before.slot.version <= after.slot.version
            &&& before.app.last_frame_id <= after.app.last_frame_id
            &&& after.app.last_frame_id <= after.slot.version
        }),
    decreases later - earlier,
{
    let start = Pipeline::start(transport, width, height);
    lemma_admits_prefix(start, events, later);
    lemma_run_in_order(transport, width, height, events.take(later));
    if earlier < later {
        lemma_versions_only_grow(transport, width, height, events, earlier, later - 1);
        let upto = events.take(later);
        assert(upto.drop_last() == events.take(later - 1));
        lemma_admits_prefix(start, events, later - 1);
        lemma_run_in_order(transport, width, height, events.take(later - 1));
        lemma_advance_never_goes_back(start.run(events.take(later - 1)), upto.last());
    }
}

/// Every beginning of a sequence of events that can happen can happen.
proof fn lemma_admits_prefix(pipeline: Pipeline, events: Seq<Event>, len: int)
    requires
        pipeline.admits_all(events),
        0 <= len <= events.len(),
    ensures
        pipeline.admits_all(events.take(len)),
    decreases events.len(),
{
    if len < events.len() {
        assert(events.drop_last().take(len) == events.take(len));
        lemma_admits_prefix(pipeline, events.drop_last(), len);
    } else {
        assert(events.take(len) == events);
    }
}

/// Alternation. After every interleaving of events of the two sides:
/// no shared texture's keyed mutex is held by both sides at once; a mutex is
/// held exactly while one side works on its texture; and copies and draws of
/// each texture take turns, a copy first, so that the render side never
/// draws a texture twice without a copy in between and the capture side
/// never overwrites a frame that was not drawn.
pub proof fn lemma_sides_take_turns(
    transport: Transport,
    width: u32,
    height: u32,
    events: Seq<Event>,
    handle: SharedHandle,
)
    requires
        Pipeline::start(transport, width, height).admits_all(events),
        Pipeline::start(transport, width, height).run(events).textures.dom().contains(handle),
    ensures
        ({
            let pipeline = Pipeline::start(transport, width, height).run(events);
            let texture = pipeline.textures[handle];
            &&& !(pipeline.capture_holds(handle) && pipeline.render_holds(handle))
            &&& texture.mutex is Held <==> pipeline.capture_holds(handle) || pipeline.render_holds(
                handle,
            )
            &&& texture.draws <= texture.copies <= texture.draws + 1
            &&& pipeline.render_holds(handle) ==> texture.copies == texture.draws + 1
            &&& pipeline.capture_holds(handle) ==> texture.copies == texture.draws
        }),
{
    lemma_run_in_order(transport, width, height, events);
    let pipeline = Pipeline::start(transport, width, height).run(events);
    assert(pipeline.texture_in_turn(handle));
}

/// The slot is consistent after every interleaving: it is well formed, and
/// where it announces a shared texture, handle and dimensions are those of
/// the texture the capture side writes to.
pub proof fn lemma_slot_stays_consistent(
    transport: Transport,
    width: u32,
    height: u32,
    events: Seq<Event>,
)
    requires
        Pipeline::start(transport, width, height).admits_all(events),
    ensures
        ({
            let pipeline = Pipeline::start(transport, width, height).run(events);
            &&& pipeline.slot.wf()
            &&& pipeline.slot.payload matches PayloadView::Bytes(bytes) ==> bytes.len()
                == frame_bytes(pipeline.slot.width, pipeline.slot.height)
            &&& pipeline.slot.payload matches PayloadView::Texture(Some(handle))
                ==> pipeline.capturer.texture == Some(
                SharedTexture { handle, width: pipeline.slot.width, height: pipeline.slot.height },
            )
        }),
{
    lemma_run_in_order(transport, width, height, events);
}

/// An acquisition by the capture side that is not granted changes nothing
/// that is shared: the slot, every texture and the render side stay exactly
/// as they were, and the capture side is back between frames with nothing
/// to do.
pub proof fn lemma_refused_capture_is_harmless(pipeline: Pipeline, texture: SharedTexture)
    requires
        pipeline.inv(),
        pipeline.capturer.phase == CapturePhase::Acquiring,
        pipeline.capturer.texture == Some(texture),
        !pipeline.textures[texture.handle].mutex.grants(PRODUCER_KEY),
    ensures
        ({
            let next = pipeline.advance(Event::CaptureDone { created: None });
            &&& next.slot == pipeline.slot
            &&& next.textures == pipeline.textures
            &&& next.app == pipeline.app
            &&& next.render_todo == pipeline.render_todo
            &&& next.capturer == CapturerView { phase: CapturePhase::Idle, ..pipeline.capturer }
            &&& next.capture_todo == CaptureAction::Skip
        }),
{
    let next = pipeline.advance(Event::CaptureDone { created: None });
    assert(next.textures =~= pipeline.textures);
}

/// An acquisition by the render side that is not granted changes nothing
/// that is shared either, and leaves the last accepted version where it
/// was, so that the next tick tries again.
pub proof fn lemma_refused_render_is_harmless(pipeline: Pipeline, handle: SharedHandle)
    requires
        pipeline.inv(),
        pipeline.app.phase == RenderPhase::Acquiring,
        pipeline.bound_handle() == Some(handle),
        !pipeline.textures[handle].mutex.grants(CONSUMER_KEY),
    ensures
        ({
            let next = pipeline.advance(Event::RenderDone { opened: true });
            &&& next.slot == pipeline.slot
            &&& next.textures == pipeline.textures
            &&& next.capturer == pipeline.capturer
            &&& next.capture_todo == pipeline.capture_todo
            &&& next.app == AppView { phase: RenderPhase::Idle, ..pipeline.app }
            &&& next.render_todo == RenderAction::Skip
        }),
{
    let next = pipeline.advance(Event::RenderDone { opened: true });
    assert(next.textures =~= pipeline.textures);
}

} // verus!
