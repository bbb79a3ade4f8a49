//! Histories of a slot: what holds after any sequence of operations on it,
//! whoever performs them and in whatever order.

use vstd::prelude::*;
use crate::geometry::frame_bytes;
use crate::slot::{PayloadView, SharedHandle, SlotView};

verus! {

/// One operation on a slot.
pub enum SlotOp {
    /// [`crate::slot::SharedData::publish_bytes`] with these arguments.
    PublishBytes { bytes: Seq<u8>, width: u32, height: u32 },
    /// [`crate::slot::SharedData::publish_handle`] with these arguments.
    PublishHandle { handle: SharedHandle, width: u32, height: u32 },
    /// [`crate::slot::SharedData::refresh`].
    Refresh,
    /// [`crate::slot::SharedData::try_consume`], or any other read.
    Read,
}

/// The slot after one operation.
pub open spec fn apply(slot: SlotView, op: SlotOp) -> SlotView {
    match op {
        SlotOp::PublishBytes { bytes, width, height } => slot.after_publish_bytes(
            bytes,
            width,
            height,
        ),
        SlotOp::PublishHandle { handle, width, height } => slot.after_publish_handle(
            handle,
            width,
            height,
        ),
        SlotOp::Refresh => slot.after_refresh(),
        SlotOp::Read => slot,
    }
}

/// The slot after a sequence of operations, first to last.
pub open spec fn replay(slot: SlotView, ops: Seq<SlotOp>) -> SlotView
    decreases ops.len(),
{
    if ops.len() == 0 {
        slot
    } else {
        apply(replay(slot, ops.drop_last()), ops.last())
    }
}

/// Whether an operation is a publication that the slot takes.
pub open spec fn publishes(slot: SlotView, op: SlotOp) -> bool {
    match op {
        SlotOp::PublishBytes { bytes, width, height } => slot.accepts_bytes(bytes, width, height),
        SlotOp::PublishHandle { .. } => slot.payload is Texture,
        SlotOp::Refresh => slot.accepts_refresh(),
        SlotOp::Read => false,
    }
}

/// Number of publications the slot takes during a sequence of operations.
pub open spec fn publications(slot: SlotView, ops: Seq<SlotOp>) -> nat
    decreases ops.len(),
{
    if ops.len() == 0 {
        0
    } else {
        let before = publications(slot, ops.drop_last());
        if publishes(replay(slot, ops.drop_last()), ops.last()) {
            before + 1
        } else {
            before
        }
    }
}

/// One operation keeps a well-formed slot well formed, keeps its transport,
/// and raises its version by one if it is a publication the slot takes and
/// not at all otherwise.
pub proof fn lemma_apply(slot: SlotView, op: SlotOp)
    requires
        slot.wf(),
    ensures
        apply(slot, op).wf(),
        apply(slot, op).payload.transport() == slot.payload.transport(),
        apply(slot, op).version == slot.version + (if publishes(slot, op) {
            1nat
        } else {
            0nat
        }),
{
}

/// The version counts the publications: after any sequence of operations it
/// stands at where it started plus the number of publications the slot
/// took.
pub proof fn lemma_version_counts_publications(slot: SlotView, ops: Seq<SlotOp>)
    requires
        slot.wf(),
    ensures
        replay(slot, ops).wf(),
        replay(slot, ops).version == slot.version + publications(slot, ops),
    decreases ops.len(),
{
    if ops.len() > 0 {
        lemma_version_counts_publications(slot, ops.drop_last());
        lemma_apply(replay(slot, ops.drop_last()), ops.last());
    }
}

/// The version never decreases: of two reads of one slot, the later one
/// sees a version at least as high as the earlier one, whatever operations
/// lie before and between them.
pub proof fn lemma_version_never_decreases(slot: SlotView, ops: Seq<SlotOp>, earlier: int, later: int)
    requires
        slot.wf(),
        0 <= earlier <= later <= ops.len(),
    ensures
        replay(slot, ops.take(earlier)).version <= replay(slot, ops.take(later)).version,
    decreases later - earlier,
{
    if earlier < later {
        lemma_version_never_decreases(slot, ops, earlier, later - 1);
        let upto = ops.take(later);
        assert(upto.drop_last() == ops.take(later - 1));
        lemma_version_counts_publications(slot, ops.take(later - 1));
        lemma_apply(replay(slot, ops.take(later - 1)), upto.last());
    }
}

/// No frame is ever torn: after any sequence of operations on a slot that
/// started out empty, a read finds either nothing published, or bytes that
/// fill the dimensions beside them exactly, or a texture with its handle.
pub proof fn lemma_frames_are_whole(transport: crate::slot::Transport, ops: Seq<SlotOp>)
    ensures
        ({
            let slot = replay(SlotView::empty(transport), ops);
            &&& slot.wf()
            &&& slot.payload.transport() == transport
            &&& slot.published() ==> match slot.payload {
                PayloadView::Bytes(bytes) => bytes.len() == frame_bytes(slot.width, slot.height),
                PayloadView::Texture(handle) => handle is Some,
            }
        }),
    decreases ops.len(),
{
    if ops.len() > 0 {
        lemma_frames_are_whole(transport, ops.drop_last());
        lemma_apply(replay(SlotView::empty(transport), ops.drop_last()), ops.last());
    }
}

} // verus!
