//! The capture side: what to do with each frame the capture service
//! delivers.
//!
//! A [`Capturer`] never touches the GPU or the capture service itself. Each
//! of its methods takes what just happened, updates its state and, where a
//! publication is due, the slot, and answers with the next thing to do. The
//! caller does that thing and reports back.

use vstd::prelude::*;
use crate::geometry::{frame_bytes, holds_frame};
use crate::keyed_mutex::{ACQUIRE_TIMEOUT_MS, CONSUMER_KEY, PRODUCER_KEY};
use crate::slot::{PayloadView, SharedData, SharedHandle, SlotView};

verus! {

/// Pixel format of a captured frame.
#[derive(Clone, Copy, Debug, PartialEq, Eq, Structural)]
pub enum ColorFormat {
    /// Four 16-bit floating-point channels, red first.
    Rgba16F,
    /// Four 8-bit channels, red first.
    Rgba8,
    /// Four 8-bit channels, blue first.
    Bgra8,
}

/// The DXGI format number of a colour format.
pub open spec fn dxgi_code(format: ColorFormat) -> int {
    match format {
        ColorFormat::Rgba16F => 10,
        ColorFormat::Rgba8 => 28,
        ColorFormat::Bgra8 => 87,
    }
}

/// The DXGI format a shared texture needs to receive frames of `format`.
pub fn dxgi_format_from_color(format: ColorFormat) -> (code: i32)
    ensures
        code == dxgi_code(format),
{
    match format {
        ColorFormat::Rgba16F => 10,
        ColorFormat::Rgba8 => 28,
        ColorFormat::Bgra8 => 87,
    }
}

/// Usage of a texture that the GPU reads and writes.
pub const USAGE_DEFAULT: i32 = 0;

/// Bind flag of a texture that shaders can read.
pub const BIND_SHADER_RESOURCE: u32 = 0x8;

/// Miscellaneous flag of a texture that is shared across devices under a
/// keyed mutex.
pub const MISC_SHARED_KEYEDMUTEX: u32 = 0x100;

/// Description of a two-dimensional texture, field by field as Direct3D 11
/// takes it.
#[derive(Clone, Copy, Debug, PartialEq, Eq, Structural)]
pub struct TextureDesc {
    pub width: u32,
    pub height: u32,
    pub mip_levels: u32,
    pub array_size: u32,
    /// DXGI format number.
    pub format: i32,
    pub sample_count: u32,
    pub sample_quality: u32,
    pub usage: i32,
    pub bind_flags: u32,
    pub cpu_access_flags: u32,
    pub misc_flags: u32,
}

impl TextureDesc {
    /// The texture that receives the frames of a source of this size and
    /// format: one image without mip levels or multisampling, readable by
    /// shaders, out of the CPU's reach, and shared across devices under a
    /// keyed mutex.
    pub open spec fn spec_shared(width: u32, height: u32, format: ColorFormat) -> TextureDesc {
        TextureDesc {
            width,
            height,
            mip_levels: 1,
            array_size: 1,
            format: dxgi_code(format) as i32,
            sample_count: 1,
            sample_quality: 0,
            usage: USAGE_DEFAULT,
            bind_flags: BIND_SHADER_RESOURCE,
            cpu_access_flags: 0,
            misc_flags: MISC_SHARED_KEYEDMUTEX,
        }
    }

    /// Describes the shared texture for a source of this size and format.
    #[verifier::when_used_as_spec(spec_shared)]
    pub fn shared(width: u32, height: u32, format: ColorFormat) -> (desc: TextureDesc)
        ensures
            desc == TextureDesc::spec_shared(width, height, format),
    {
        TextureDesc {
            width,
            height,
            mip_levels: 1,
            array_size: 1,
            format: dxgi_format_from_color(format),
            sample_count: 1,
            sample_quality: 0,
            usage: USAGE_DEFAULT,
            bind_flags: BIND_SHADER_RESOURCE,
            cpu_access_flags: 0,
            misc_flags: MISC_SHARED_KEYEDMUTEX,
        }
    }
}

/// What the caller of a [`Capturer`] does next.
#[derive(Clone, Copy, Debug, PartialEq, Eq, Structural)]
pub enum CaptureAction {
    /// Nothing: this frame is dropped, or the frame is done.
    Skip,
    /// Publish the staged bytes: lock the slot and call
    /// [`Capturer::publish_staged`].
    Publish,
    /// Create the texture that `desc` describes, export its handle, and
    /// report with [`Capturer::texture_created`].
    CreateTexture { desc: TextureDesc },
    /// Try to acquire the shared texture's keyed mutex with `key`, waiting
    /// no longer than `timeout_ms` milliseconds, and report with
    /// [`Capturer::acquire_finished`].
    Acquire { key: u64, timeout_ms: u32 },
    /// Copy the delivered frame into the shared texture, release the keyed
    /// mutex with `key`, and report with [`Capturer::copy_finished`].
    CopyAndRelease { key: u64 },
}

/// The shared texture the capture side currently writes to.
#[derive(Clone, Copy, Debug, PartialEq, Eq, Structural)]
pub struct SharedTexture {
    pub handle: SharedHandle,
    pub width: u32,
    pub height: u32,
}

/// Where the capture side stands within one delivered frame.
#[derive(Clone, Copy, Debug, PartialEq, Eq, Structural)]
pub enum CapturePhase {
    /// Between frames.
    Idle,
    /// A texture of this size was asked for.
    Creating { width: u32, height: u32 },
    /// An acquisition of the keyed mutex was asked for.
    Acquiring,
    /// The keyed mutex is held and the frame is being copied.
    Copying,
}

/// Mathematical value of a [`Capturer`].
pub struct CapturerView {
    /// The buffer the next byte publication swaps in.
    pub scratch: Seq<u8>,
    /// Dimensions of the frame staged in `scratch`, if one is.
    pub staged: Option<(u32, u32)>,
    /// The shared texture in use, if one was created.
    pub texture: Option<SharedTexture>,
    /// Frames copied into the texture in use.
    pub frames: nat,
    /// Whether the frame in progress has raised the slot's version already,
    /// by publishing the texture it goes into.
    pub announced: bool,
    /// Progress within the current frame.
    pub phase: CapturePhase,
}

impl CapturerView {
    /// A capturer that has seen no frame.
    pub open spec fn fresh() -> CapturerView {
        CapturerView {
            scratch: Seq::empty(),
            staged: None,
            texture: None,
            frames: 0,
            announced: false,
            phase: CapturePhase::Idle,
        }
    }

    /// A delivered frame's bytes are staged when they could be obtained and
    /// fill the frame's dimensions exactly; any other delivery clears the
    /// stage and is dropped.
    pub open spec fn stage_frame(self, bytes: Option<Seq<u8>>, width: u32, height: u32) -> (
        CapturerView,
        CaptureAction,
    ) {
        match bytes {
            Some(bytes) if bytes.len() == frame_bytes(width, height) => (
                CapturerView { scratch: bytes, staged: Some((width, height)), ..self },
                CaptureAction::Publish,
            ),
            _ => (CapturerView { staged: None, ..self }, CaptureAction::Skip),
        }
    }

    /// Whether a staged frame goes out to `slot`.
    pub open spec fn publishes(self, slot: SlotView) -> bool {
        self.staged matches Some((width, height)) && slot.accepts_bytes(self.scratch, width, height)
    }

    /// The staged frame is swapped into the slot, and the scratch buffer
    /// becomes what was published before. The stage is empty afterwards.
    pub open spec fn publish_staged(self, slot: SlotView) -> (CapturerView, SlotView) {
        match self.staged {
            Some((width, height)) if slot.accepts_bytes(self.scratch, width, height) => (
                CapturerView { scratch: slot.payload->Bytes_0, staged: None, ..self },
                slot.with_bytes(self.scratch, width, height),
            ),
            _ => (CapturerView { staged: None, ..self }, slot),
        }
    }

    /// Whether the texture in use has exactly these dimensions.
    pub open spec fn texture_fits(self, width: u32, height: u32) -> bool {
        self.texture matches Some(texture) && texture.width == width && texture.height == height
    }

    /// A frame arrives. Between frames, a texture of the right size leads
    /// straight to the acquisition; without one, a texture is asked for
    /// first. While an earlier frame is still in progress the delivery is
    /// dropped.
    pub open spec fn frame_arrived(self, width: u32, height: u32, format: ColorFormat) -> (
        CapturerView,
        CaptureAction,
    ) {
        if self.phase != CapturePhase::Idle {
            (self, CaptureAction::Skip)
        } else if self.texture_fits(width, height) {
            (
                CapturerView { announced: false, phase: CapturePhase::Acquiring, ..self },
                CaptureAction::Acquire { key: PRODUCER_KEY, timeout_ms: ACQUIRE_TIMEOUT_MS },
            )
        } else {
            (
                CapturerView {
                    announced: false,
                    phase: CapturePhase::Creating { width, height },
                    ..self
                },
                CaptureAction::CreateTexture { desc: TextureDesc::spec_shared(width, height, format) },
            )
        }
    }

    /// The texture that was asked for is there, or could not be made. A new
    /// texture is published with its dimensions in one step, which raises
    /// the slot's version for this frame; it becomes the texture in use with
    /// no frame copied yet, and is acquired next. A failure, or a slot that
    /// carries no texture, ends the frame and leaves everything else as it
    /// was.
    pub open spec fn texture_created(self, slot: SlotView, handle: Option<SharedHandle>) -> (
        CapturerView,
        SlotView,
        CaptureAction,
    ) {
        match (self.phase, handle) {
            (CapturePhase::Creating { width, height }, Some(handle)) if slot.payload is Texture => (
                CapturerView {
                    texture: Some(SharedTexture { handle, width, height }),
                    frames: 0,
                    announced: true,
                    phase: CapturePhase::Acquiring,
                    ..self
                },
                slot.with_handle(handle, width, height),
                CaptureAction::Acquire { key: PRODUCER_KEY, timeout_ms: ACQUIRE_TIMEOUT_MS },
            ),
            (CapturePhase::Creating { .. }, _) => (
                CapturerView { phase: CapturePhase::Idle, ..self },
                slot,
                CaptureAction::Skip,
            ),
            _ => (self, slot, CaptureAction::Skip),
        }
    }

    /// The acquisition succeeded or not. With the mutex in hand the frame is
    /// copied and the mutex released to the render side; without it the
    /// frame is dropped.
    pub open spec fn acquire_finished(self, acquired: bool) -> (CapturerView, CaptureAction) {
        if self.phase != CapturePhase::Acquiring {
            (self, CaptureAction::Skip)
        } else if acquired {
            (
                CapturerView { phase: CapturePhase::Copying, ..self },
                CaptureAction::CopyAndRelease { key: CONSUMER_KEY },
            )
        } else {
            (CapturerView { phase: CapturePhase::Idle, ..self }, CaptureAction::Skip)
        }
    }

    /// The frame was copied and the mutex released: one more frame counts
    /// for the texture in use, and the slot announces it, unless the frame
    /// was announced already when its texture was published. Either way the
    /// slot's version stands one above where it stood before the frame.
    pub open spec fn copy_finished(self, slot: SlotView) -> (CapturerView, SlotView) {
        if self.phase != CapturePhase::Copying {
            (self, slot)
        } else {
            (
                CapturerView {
                    frames: self.frames + 1,
                    announced: false,
                    phase: CapturePhase::Idle,
                    ..self
                },
                if self.announced {
                    slot
                } else {
                    slot.after_refresh()
                },
            )
        }
    }
}

/// The capture side of the pipeline.
#[derive(Debug)]
pub struct Capturer {
    scratch: Vec<u8>,
    staged: Option<(u32, u32)>,
    shared_texture: Option<SharedTexture>,
    current_frame_id: u64,
    announced: bool,
    phase: CapturePhase,
}

impl View for Capturer {
    type V = CapturerView;

    closed spec fn view(&self) -> CapturerView {
        CapturerView {
            scratch: self.scratch@,
            staged: self.staged,
            texture: self.shared_texture,
            frames: self.current_frame_id as nat,
            announced: self.announced,
            phase: self.phase,
        }
    }
}

impl Capturer {
    /// A capturer that has seen no frame.
    pub fn new() -> (capturer: Capturer)
        ensures
            capturer@ == CapturerView::fresh(),
    {
        Capturer {
            scratch: Vec::new(),
            staged: None,
            shared_texture: None,
            current_frame_id: 0,
            announced: false,
            phase: CapturePhase::Idle,
        }
    }

    /// Progress within the current frame.
    pub fn phase(&self) -> (phase: CapturePhase)
        ensures
            phase == self@.phase,
    {
        self.phase
    }

    /// The shared texture in use, if one was created.
    pub fn shared_texture(&self) -> (texture: Option<SharedTexture>)
        ensures
            texture == self@.texture,
    {
        self.shared_texture
    }

    /// Frames copied into the texture in use.
    pub fn current_frame_id(&self) -> (frames: u64)
        ensures
            frames == self@.frames,
    {
        self.current_frame_id
    }

    /// The scratch buffer: the staged frame, or what was published before.
    pub fn scratch(&self) -> (scratch: &Vec<u8>)
        ensures
            scratch@ == self@.scratch,
    {
        &self.scratch
    }

    /// Takes the bytes of a delivered frame into the scratch buffer, outside
    /// the slot's lock. `bytes` is `None` when the frame's bytes could not be
    /// obtained.
    pub fn stage_frame(&mut self, bytes: Option<&[u8]>, width: u32, height: u32) -> (action:
        CaptureAction)
        ensures
            (final(self)@, action) == old(self)@.stage_frame(
                match bytes {
                    Some(bytes) => Some(bytes@),
                    None => None,
                },
                width,
                height,
            ),
    {
        self.staged = None;
        match bytes {
            Some(bytes) => {
                if holds_frame(bytes.len(), width, height) {
                    self.scratch.clear();
                    self.scratch.extend_from_slice(bytes);
                    assert(self.scratch@ =~= bytes@);
                    self.staged = Some((width, height));
                    CaptureAction::Publish
                } else {
                    CaptureAction::Skip
                }
            },
            None => CaptureAction::Skip,
        }
    }

    /// Publishes the staged frame, under the slot's lock. Returns whether a
    /// frame went out.
    pub fn publish_staged(&mut self, slot: &mut SharedData) -> (published: bool)
        requires
            old(slot)@.version < u64::MAX,
        ensures
            published == old(self)@.publishes(old(slot)@),
            (final(self)@, final(slot)@) == old(self)@.publish_staged(old(slot)@),
    {
        match self.staged {
            Some((width, height)) => {
                self.staged = None;
                slot.publish_bytes(&mut self.scratch, width, height)
            },
            None => false,
        }
    }

    /// A frame of these dimensions and this format was delivered as a
    /// texture.
    pub fn on_frame_arrived(&mut self, width: u32, height: u32, format: ColorFormat) -> (action:
        CaptureAction)
        ensures
            (final(self)@, action) == old(self)@.frame_arrived(width, height, format),
    {
        match self.phase {
            CapturePhase::Idle => {},
            _ => {
                return CaptureAction::Skip;
            },
        }
        let fits = match self.shared_texture {
            Some(texture) => texture.width == width && texture.height == height,
            None => false,
        };
        self.announced = false;
        if fits {
            self.phase = CapturePhase::Acquiring;
            CaptureAction::Acquire { key: PRODUCER_KEY, timeout_ms: ACQUIRE_TIMEOUT_MS }
        } else {
            self.phase = CapturePhase::Creating { width, height };
            CaptureAction::CreateTexture { desc: TextureDesc::shared(width, height, format) }
        }
    }

    /// The texture asked for was created and exported under `handle`, or
    /// could not be (`None`). Called under the slot's lock.
    pub fn texture_created(&mut self, slot: &mut SharedData, handle: Option<SharedHandle>) -> (action:
        CaptureAction)
        requires
            old(slot)@.version < u64::MAX,
        ensures
            (final(self)@, final(slot)@, action) == old(self)@.texture_created(old(slot)@, handle),
    {
        match self.phase {
            CapturePhase::Creating { width, height } => {
                match handle {
                    Some(handle) => {
                        if slot.publish_handle(handle, width, height) {
                            self.shared_texture = Some(SharedTexture { handle, width, height });
                            self.current_frame_id = 0;
                            self.announced = true;
                            self.phase = CapturePhase::Acquiring;
                            return CaptureAction::Acquire { key: PRODUCER_KEY, timeout_ms: ACQUIRE_TIMEOUT_MS };
                        }
                    },
                    None => {},
                }
                self.phase = CapturePhase::Idle;
                CaptureAction::Skip
            },
            _ => CaptureAction::Skip,
        }
    }

    /// The acquisition of the keyed mutex succeeded or not.
    pub fn acquire_finished(&mut self, acquired: bool) -> (action: CaptureAction)
        ensures
            (final(self)@, action) == old(self)@.acquire_finished(acquired),
    {
        match self.phase {
            CapturePhase::Acquiring => {
                if acquired {
                    self.phase = CapturePhase::Copying;
                    CaptureAction::CopyAndRelease { key: CONSUMER_KEY }
                } else {
                    self.phase = CapturePhase::Idle;
                    CaptureAction::Skip
                }
            },
            _ => CaptureAction::Skip,
        }
    }

    /// The frame was copied into the shared texture and the keyed mutex
    /// released. Called under the slot's lock.
    pub fn copy_finished(&mut self, slot: &mut SharedData)
        requires
            old(slot)@.version < u64::MAX,
            old(self)@.frames < u64::MAX,
        ensures
            (final(self)@, final(slot)@) == old(self)@.copy_finished(old(slot)@),
    {
        match self.phase {
            CapturePhase::Copying => {
                self.current_frame_id = self.current_frame_id + 1;
                self.phase = CapturePhase::Idle;
                if self.announced {
                    self.announced = false;
                } else {
                    let _ = slot.refresh();
                }
            },
            _ => {},
        }
    }
}

/// One whole frame delivered as a texture: its arrival and the steps that
/// follow it, where `created` and `acquired` are what the caller reports if
/// it is asked to create the texture and to acquire its keyed mutex. The
/// action that comes back is the one that ends the frame: the copy, or
/// nothing.
pub open spec fn whole_frame(
    capturer: CapturerView,
    slot: SlotView,
    width: u32,
    height: u32,
    format: ColorFormat,
    created: Option<SharedHandle>,
    acquired: bool,
) -> (CapturerView, SlotView, CaptureAction) {
    let (capturer, action) = capturer.frame_arrived(width, height, format);
    let (capturer, slot, action) = if action is CreateTexture {
        capturer.texture_created(slot, created)
    } else {
        (capturer, slot, action)
    };
    let (capturer, action) = if action is Acquire {
        capturer.acquire_finished(acquired)
    } else {
        (capturer, action)
    };
    let (capturer, slot) = if action is CopyAndRelease {
        capturer.copy_finished(slot)
    } else {
        (capturer, slot)
    };
    (capturer, slot, action)
}

/// The capture side and the slot belong together: the slot carries a
/// texture, and it announces the texture the capture side writes to, if
/// there is one, with that texture's dimensions.
pub open spec fn announces(slot: SlotView, capturer: CapturerView) -> bool {
    &&& slot.wf()
    &&& slot.payload is Texture
    &&& capturer.texture matches Some(texture) ==> {
        &&& slot.published()
        &&& slot.payload == PayloadView::Texture(Some(texture.handle))
        &&& slot.width == texture.width
        &&& slot.height == texture.height
    }
}

/// One frame, one version. A frame that is copied into the shared texture
/// leaves the slot's version exactly one above where it stood before the
/// frame, whether the frame went into the texture in use or needed a new
/// one, and leaves the slot with the frame's dimensions. A frame that is
/// dropped leaves the version where it stood, unless it published a new
/// texture before it was dropped, which raises the version by one as well.
pub proof fn lemma_one_frame_one_version(
    capturer: CapturerView,
    slot: SlotView,
    width: u32,
    height: u32,
    format: ColorFormat,
    created: Option<SharedHandle>,
    acquired: bool,
)
    requires
        capturer.phase == CapturePhase::Idle,
        announces(slot, capturer),
    ensures
        ({
            let (after, published, last) = whole_frame(
                capturer,
                slot,
                width,
                height,
                format,
                created,
                acquired,
            );
            let made_texture = !capturer.texture_fits(width, height) && created is Some;
            &&& announces(published, after)
            &&& after.phase == CapturePhase::Idle
            &&& last is CopyAndRelease ==> {
                &&& published.version == slot.version + 1
                &&& published.width == width
                &&& published.height == height
                &&& after.frames == if made_texture {
                    1
                } else {
                    capturer.frames + 1
                }
            }
            &&& !(last is CopyAndRelease) ==> published.version == slot.version + if made_texture {
                1nat
            } else {
                0nat
            }
            &&& !made_texture ==> published.payload == slot.payload
        }),
{
}

} // verus!
