//! The frame descriptor handed from the render thread to a window, and the
//! single-slot cells that carry it.

use atomicbox::AtomicOptionBox;
use std::sync::atomic::Ordering;
use std::sync::Arc;
use vstd::prelude::*;

use crate::size::Size;

verus! {

/// A GPU texture view allocated for a render target: the identifier under which the
/// renderer keeps the GPU resource, and its size. Frames and the render-target
/// registry share it through `Arc`, so the resource outlives whichever holder lets
/// go of it first.
#[derive(Debug)]
pub struct TextureView {
    pub id: u64,
    pub size: Size,
}

/// An exported buffer descriptor for a render target, importable by another process.
#[derive(Debug)]
pub struct DmabufInfo {
    pub size: Size,
    pub fd: i32,
}

/// One rendered frame: its size, the texture view it was rendered into, and the
/// exported descriptor of the same memory.
#[derive(Debug)]
pub struct FrameInfo {
    pub dmabuf: DmabufInfo,
    pub texture_view: Arc<TextureView>,
}

impl FrameInfo {
    /// The descriptor's size is that of the target it was produced from.
    pub open spec fn wf(self) -> bool {
        &&& self.dmabuf.size == (*self.texture_view).size
        &&& self.dmabuf.size.is_allocatable()
    }

    pub fn new(texture_view: Arc<TextureView>, fd: i32) -> (r: FrameInfo)
        ensures
            r.texture_view == texture_view,
            r.dmabuf == (DmabufInfo { size: (*texture_view).size, fd }),
            (*texture_view).size.is_allocatable() ==> r.wf(),
    {
        let size = texture_view.size;
        FrameInfo { dmabuf: DmabufInfo { size, fd }, texture_view }
    }

    pub fn size(&self) -> (r: Size)
        ensures
            r == self.dmabuf.size,
    {
        self.dmabuf.size
    }
}

/// `atomicbox::AtomicOptionBox`, an `Option<Box<T>>` that threads can store into and take
/// from atomically; opaque here, its contents named by `cell_contents`.
#[verifier::external_type_specification]
#[verifier::external_body]
#[verifier::reject_recursive_types(T)]
pub struct ExAtomicOptionBox<T>(AtomicOptionBox<T>);

/// What a frame cell holds while nothing else can reach it.
pub uninterp spec fn cell_contents(cell: AtomicOptionBox<FrameInfo>) -> Option<FrameInfo>;

/// Relies on `AtomicOptionBox::none`: a cell that holds no value.
#[verifier::external_body]
pub(crate) fn empty_cell() -> (r: AtomicOptionBox<FrameInfo>)
    ensures
        cell_contents(r) == None::<FrameInfo>,
{
    AtomicOptionBox::none()
}

/// Relies on `AtomicOptionBox::none`: a new cell for sharing with another thread.
/// Nothing is said of what it holds, as the other thread may store into it at any moment.
#[verifier::external_body]
pub(crate) fn shared_cell() -> (r: AtomicOptionBox<FrameInfo>) {
    AtomicOptionBox::none()
}

/// Relies on `AtomicOptionBox::store`: the cell then holds the stored value, and the
/// one it held before is dropped. Exclusive access means no other thread intervenes.
#[verifier::external_body]
pub(crate) fn cell_store(cell: &mut AtomicOptionBox<FrameInfo>, frame: FrameInfo)
    ensures
        cell_contents(*final(cell)) == Some(frame),
{
    cell.store(Some(Box::new(frame)), Ordering::SeqCst)
}

/// Relies on `AtomicOptionBox::take`: it returns what the cell held and leaves it empty.
#[verifier::external_body]
pub(crate) fn cell_take(cell: &mut AtomicOptionBox<FrameInfo>) -> (r: Option<FrameInfo>)
    ensures
        r == cell_contents(*old(cell)),
        cell_contents(*final(cell)) == None::<FrameInfo>,
{
    cell.take(Ordering::SeqCst).map(|b| *b)
}

/// Relies on `AtomicOptionBox::store` on a cell shared with another thread. Nothing is
/// said of what the cell holds afterwards: the other thread may take it at any moment.
#[verifier::external_body]
pub(crate) fn publish_to_cell(cell: &Arc<AtomicOptionBox<FrameInfo>>, frame: FrameInfo) {
    cell.store(Some(Box::new(frame)), Ordering::SeqCst)
}

/// The slot's value after storing `frame` into it: the new frame, whatever was there.
pub open spec fn stored(slot: Option<FrameInfo>, frame: FrameInfo) -> Option<FrameInfo> {
    Some(frame)
}

/// The slot's value after storing each frame of `frames` in turn.
pub open spec fn after_stores(slot: Option<FrameInfo>, frames: Seq<FrameInfo>) -> Option<FrameInfo>
    decreases frames.len(),
{
    if frames.len() == 0 {
        slot
    } else {
        stored(after_stores(slot, frames.drop_last()), frames.last())
    }
}

/// A single-slot frame cell owned by one side: each store overwrites what it held,
/// and a take empties it.
pub struct FrameSlot {
    cell: AtomicOptionBox<FrameInfo>,
}

impl View for FrameSlot {
    type V = Option<FrameInfo>;

    closed spec fn view(&self) -> Option<FrameInfo> {
        cell_contents(self.cell)
    }
}

impl FrameSlot {
    pub fn new() -> (r: FrameSlot)
        ensures
            r@ == None::<FrameInfo>,
    {
        FrameSlot { cell: empty_cell() }
    }

    /// Stores `frame`, overwriting any value not yet taken.
    pub fn store(&mut self, frame: FrameInfo)
        ensures
            final(self)@ == stored(old(self)@, frame),
    {
        cell_store(&mut self.cell, frame);
    }

    /// Removes and returns the value held, if any.
    pub fn take(&mut self) -> (r: Option<FrameInfo>)
        ensures
            r == old(self)@,
            final(self)@ == None::<FrameInfo>,
    {
        cell_take(&mut self.cell)
    }
}

/// Of any non-empty run of stores with no take in between, only the last is kept:
/// a take that follows returns exactly that frame.
pub proof fn lemma_last_store_wins(slot: Option<FrameInfo>, frames: Seq<FrameInfo>)
    requires
        frames.len() > 0,
    ensures
        after_stores(slot, frames) == Some(frames.last()),
{
}

} // verus!
