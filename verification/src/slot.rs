//! The shared frame slot: the one cell through which the capture side hands
//! the latest frame to the render side.
//!
//! The slot holds a version counter, the dimensions of the latest frame and
//! its payload. Every publication replaces dimensions and payload together
//! and raises the version by one, so a reader never sees dimensions of one
//! frame beside the payload of another.

use vstd::prelude::*;
use crate::geometry::{frame_bytes, holds_frame};

verus! {

/// An exported handle of a GPU texture, kept as its raw value. The library
/// only stores and compares it.
#[derive(Clone, Copy, Debug, PartialEq, Eq, Structural)]
pub struct SharedHandle(pub usize);

/// How frames travel through a slot. The choice is made when the slot is
/// created and never changes.
#[derive(Clone, Copy, Debug, PartialEq, Eq, Structural)]
pub enum Transport {
    /// Raw pixel bytes: published by swapping buffers, read by copying.
    ByteBuffer,
    /// A shared GPU texture, handed over by its exported handle.
    SharedTexture,
}

/// What a slot carries.
#[derive(Debug)]
pub enum Payload {
    /// Tightly packed, row-major pixels, four bytes each.
    Bytes(Vec<u8>),
    /// The exported handle of the shared texture, once one exists.
    Texture(Option<SharedHandle>),
}

/// Mathematical value of a [`Payload`].
pub enum PayloadView {
    Bytes(Seq<u8>),
    Texture(Option<SharedHandle>),
}

impl PayloadView {
    /// The transport this payload belongs to.
    pub open spec fn transport(self) -> Transport {
        match self {
            PayloadView::Bytes(_) => Transport::ByteBuffer,
            PayloadView::Texture(_) => Transport::SharedTexture,
        }
    }

    /// The payload of a slot nothing was published to.
    pub open spec fn empty(transport: Transport) -> PayloadView {
        match transport {
            Transport::ByteBuffer => PayloadView::Bytes(Seq::empty()),
            Transport::SharedTexture => PayloadView::Texture(None),
        }
    }
}

impl View for Payload {
    type V = PayloadView;

    open spec fn view(&self) -> PayloadView {
        match self {
            Payload::Bytes(bytes) => PayloadView::Bytes(bytes@),
            Payload::Texture(handle) => PayloadView::Texture(*handle),
        }
    }
}

/// Mathematical value of a slot.
pub struct SlotView {
    /// Number of publications so far.
    pub version: nat,
    /// Width of the latest frame, in pixels.
    pub width: u32,
    /// Height of the latest frame, in pixels.
    pub height: u32,
    /// Payload of the latest frame.
    pub payload: PayloadView,
}

impl SlotView {
    /// The slot before its first publication.
    pub open spec fn empty(transport: Transport) -> SlotView {
        SlotView { version: 0, width: 0, height: 0, payload: PayloadView::empty(transport) }
    }

    /// Something was published.
    pub open spec fn published(self) -> bool {
        self.version > 0
    }

    /// Dimensions and payload belong together: an unpublished slot is
    /// pristine, published bytes have exactly the length their dimensions
    /// ask for, and a published texture has a handle.
    pub open spec fn wf(self) -> bool {
        if self.version == 0 {
            self == SlotView::empty(self.payload.transport())
        } else {
            match self.payload {
                PayloadView::Bytes(bytes) => bytes.len() == frame_bytes(self.width, self.height),
                PayloadView::Texture(handle) => handle is Some,
            }
        }
    }

    /// Whether a byte publication of these dimensions is taken.
    pub open spec fn accepts_bytes(self, bytes: Seq<u8>, width: u32, height: u32) -> bool {
        self.payload is Bytes && bytes.len() == frame_bytes(width, height)
    }

    /// The slot after an accepted byte publication.
    pub open spec fn with_bytes(self, bytes: Seq<u8>, width: u32, height: u32) -> SlotView {
        SlotView { version: self.version + 1, width, height, payload: PayloadView::Bytes(bytes) }
    }

    /// The slot after an accepted handle publication.
    pub open spec fn with_handle(self, handle: SharedHandle, width: u32, height: u32) -> SlotView {
        SlotView {
            version: self.version + 1,
            width,
            height,
            payload: PayloadView::Texture(Some(handle)),
        }
    }

    /// Whether the shared texture can be announced as refreshed.
    pub open spec fn accepts_refresh(self) -> bool {
        self.version > 0 && self.payload is Texture
    }

    /// The slot after the shared texture was refreshed in place.
    pub open spec fn refreshed(self) -> SlotView {
        SlotView { version: self.version + 1, ..self }
    }

    /// The slot after a byte publication was attempted.
    pub open spec fn after_publish_bytes(self, bytes: Seq<u8>, width: u32, height: u32) -> SlotView {
        if self.accepts_bytes(bytes, width, height) {
            self.with_bytes(bytes, width, height)
        } else {
            self
        }
    }

    /// The slot after a handle publication was attempted.
    pub open spec fn after_publish_handle(self, handle: SharedHandle, width: u32, height: u32) -> SlotView {
        if self.payload is Texture {
            self.with_handle(handle, width, height)
        } else {
            self
        }
    }

    /// The slot after a refresh was attempted.
    pub open spec fn after_refresh(self) -> SlotView {
        if self.accepts_refresh() {
            self.refreshed()
        } else {
            self
        }
    }
}

/// What one read of the slot shows: the latest frame and its version.
#[derive(Clone, Copy, Debug)]
pub struct FrameRef<'a> {
    /// Version of the frame.
    pub version: u64,
    /// Width in pixels.
    pub width: u32,
    /// Height in pixels.
    pub height: u32,
    /// The frame itself.
    pub payload: &'a Payload,
}

/// The shared frame slot.
#[derive(Debug)]
pub struct SharedData {
    frame_id: u64,
    width: u32,
    height: u32,
    payload: Payload,
}

impl View for SharedData {
    type V = SlotView;

    closed spec fn view(&self) -> SlotView {
        SlotView {
            version: self.frame_id as nat,
            width: self.width,
            height: self.height,
            payload: self.payload@,
        }
    }
}

impl SharedData {
    /// Every slot is well formed, at all times.
    #[verifier::type_invariant]
    pub open spec fn inv(self) -> bool {
        self@.wf()
    }

    /// A slot for the given transport, with nothing published.
    pub fn new(transport: Transport) -> (slot: SharedData)
        ensures
            slot@ == SlotView::empty(transport),
    {
        let payload = match transport {
            Transport::ByteBuffer => Payload::Bytes(Vec::new()),
            Transport::SharedTexture => Payload::Texture(None),
        };
        SharedData { frame_id: 0, width: 0, height: 0, payload }
    }

    /// The transport chosen at creation.
    pub fn transport(&self) -> (transport: Transport)
        ensures
            transport == self@.payload.transport(),
    {
        match &self.payload {
            Payload::Bytes(_) => Transport::ByteBuffer,
            Payload::Texture(_) => Transport::SharedTexture,
        }
    }

    /// Number of publications so far; zero before the first.
    pub fn version(&self) -> (version: u64)
        ensures
            version == self@.version,
    {
        self.frame_id
    }

    /// The exported handle of the shared texture, once one was published.
    pub fn handle(&self) -> (handle: Option<SharedHandle>)
        ensures
            handle == (match self@.payload {
                PayloadView::Bytes(_) => None,
                PayloadView::Texture(handle) => handle,
            }),
    {
        match &self.payload {
            Payload::Bytes(_) => None,
            Payload::Texture(handle) => *handle,
        }
    }

    /// The published bytes; empty where the slot carries a texture.
    pub fn pixels(&self) -> (pixels: &[u8])
        ensures
            pixels@ == (match self@.payload {
                PayloadView::Bytes(bytes) => bytes,
                PayloadView::Texture(_) => Seq::empty(),
            }),
    {
        match &self.payload {
            Payload::Bytes(bytes) => bytes.as_slice(),
            Payload::Texture(_) => &[],
        }
    }

    /// Width of the latest frame.
    pub fn width(&self) -> (width: u32)
        ensures
            width == self@.width,
    {
        self.width
    }

    /// Height of the latest frame.
    pub fn height(&self) -> (height: u32)
        ensures
            height == self@.height,
    {
        self.height
    }

    /// Reads the latest frame. Nothing is returned before the first
    /// publication; afterwards the frame comes with the slot's version and
    /// dimensions, and bytes always fill their dimensions exactly.
    pub fn try_consume(&self) -> (frame: Option<FrameRef<'_>>)
        ensures
            self@.wf(),
            frame is Some <==> self@.published(),
            (frame matches Some(f) ==> {
                &&& f.version == self@.version
                &&& f.width == self@.width
                &&& f.height == self@.height
                &&& f.payload@ == self@.payload
                &&& f.payload@ matches PayloadView::Bytes(bytes) ==> bytes.len() == frame_bytes(
                    f.width,
                    f.height,
                )
                &&& f.payload@ matches PayloadView::Texture(handle) ==> handle is Some
            }),
    {
        proof {
            use_type_invariant(self);
        }
        if self.frame_id == 0 {
            None
        } else {
            Some(
                FrameRef {
                    version: self.frame_id,
                    width: self.width,
                    height: self.height,
                    payload: &self.payload,
                },
            )
        }
    }

    /// Publishes a frame of pixel bytes by swapping buffers: the slot takes
    /// `scratch`, and `scratch` receives the buffer the slot held before,
    /// which holds the frame that was published last, so no frame is copied
    /// or allocated here. Nobody but a publication writes the slot's bytes.
    ///
    /// The publication is taken exactly when the slot carries bytes and
    /// `scratch` holds `width * height * 4` of them. Otherwise nothing
    /// changes.
    pub fn publish_bytes(&mut self, scratch: &mut Vec<u8>, width: u32, height: u32) -> (taken: bool)
        requires
            old(self)@.version < u64::MAX,
        ensures
            taken == old(self)@.accepts_bytes(old(scratch)@, width, height),
            final(self)@ == old(self)@.after_publish_bytes(old(scratch)@, width, height),
            taken ==> PayloadView::Bytes(final(scratch)@) == old(self)@.payload,
            !taken ==> final(scratch)@ == old(scratch)@,
            final(self)@.wf(),
    {
        proof {
            use_type_invariant(&*self);
        }
        if !holds_frame(scratch.len(), width, height) {
            return false;
        }
        match &self.payload {
            Payload::Bytes(_) => {},
            Payload::Texture(_) => {
                return false;
            },
        }
        let mut bytes: Vec<u8> = Vec::new();
        std::mem::swap(&mut bytes, scratch);
        let mut slot = SharedData {
            frame_id: self.frame_id + 1,
            width,
            height,
            payload: Payload::Bytes(bytes),
        };
        std::mem::swap(self, &mut slot);
        let SharedData { payload, .. } = slot;
        match payload {
            Payload::Bytes(previous) => {
                *scratch = previous;
            },
            Payload::Texture(_) => {},
        }
        true
    }

    /// Publishes a freshly exported shared texture with its dimensions.
    ///
    /// The publication is taken exactly when the slot carries a texture.
    /// Otherwise nothing changes.
    pub fn publish_handle(&mut self, handle: SharedHandle, width: u32, height: u32) -> (taken: bool)
        requires
            old(self)@.version < u64::MAX,
        ensures
            taken == (old(self)@.payload is Texture),
            final(self)@ == old(self)@.after_publish_handle(handle, width, height),
            final(self)@.wf(),
    {
        proof {
            use_type_invariant(&*self);
        }
        match &self.payload {
            Payload::Bytes(_) => {
                return false;
            },
            Payload::Texture(_) => {},
        }
        *self = SharedData {
            frame_id: self.frame_id + 1,
            width,
            height,
            payload: Payload::Texture(Some(handle)),
        };
        true
    }

    /// Announces that the shared texture holds a new frame: handle and
    /// dimensions stay, the version rises by one.
    ///
    /// This is taken exactly when a texture was published before. Otherwise
    /// nothing changes.
    pub fn refresh(&mut self) -> (taken: bool)
        requires
            old(self)@.version < u64::MAX,
        ensures
            taken == old(self)@.accepts_refresh(),
            final(self)@ == old(self)@.after_refresh(),
            final(self)@.wf(),
    {
        proof {
            use_type_invariant(&*self);
        }
        if self.frame_id == 0 {
            return false;
        }
        match &self.payload {
            Payload::Bytes(_) => {
                return false;
            },
            Payload::Texture(_) => {},
        }
        self.frame_id = self.frame_id + 1;
        true
    }
}

impl Default for SharedData {
    /// A slot for a shared texture, with nothing published.
    fn default() -> (slot: SharedData)
        ensures
            slot@ == SlotView::empty(Transport::SharedTexture),
    {
        SharedData::new(Transport::SharedTexture)
    }
}

} // verus!
