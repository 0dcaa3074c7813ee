//! Pointing cameras at a window's render target.

use vstd::prelude::*;

use crate::window::AdwaitaWindow;

verus! {

/// The window a camera draws into.
#[derive(Debug, Clone, Copy, PartialEq, Eq, Structural)]
pub enum WindowRef {
    /// Whichever window is the primary one.
    Primary,
    /// A window named by its entity number.
    Entity(u64),
}

/// Where a camera draws.
#[derive(Debug, Clone, Copy, PartialEq, Eq, Structural)]
pub enum RenderTarget {
    Window(WindowRef),
    /// A render target registered under this handle.
    TextureView(u32),
}

/// A camera aimed at the primary window is aimed at the render target under `handle`
/// instead; any other target is kept.
pub open spec fn retargeted(target: RenderTarget, handle: u32) -> RenderTarget {
    if target == RenderTarget::Window(WindowRef::Primary) {
        RenderTarget::TextureView(handle)
    } else {
        target
    }
}

impl AdwaitaWindow {
    /// The target that cameras drawing into this window use.
    pub fn render_target(&self) -> (r: RenderTarget)
        ensures
            r == RenderTarget::TextureView(self.handle()),
    {
        RenderTarget::TextureView(self.render_target_handle())
    }
}

/// The target of a camera just added: when there is exactly one primary window and the
/// camera aims at the primary window, that window's render target; otherwise unchanged.
pub fn update_default_camera_render_target(target: RenderTarget, primary_windows: &Vec<&AdwaitaWindow>) -> (r: RenderTarget)
    ensures
        primary_windows@.len() == 1 ==> r == retargeted(target, primary_windows@[0].handle()),
        primary_windows@.len() != 1 ==> r == target,
{
    if primary_windows.len() != 1 {
        return target;
    }
    let primary = primary_windows[0];
    if target == RenderTarget::Window(WindowRef::Primary) {
        primary.render_target()
    } else {
        target
    }
}

/// When `window` becomes the primary window, every camera aimed at the primary window
/// is aimed at its render target.
pub fn update_existing_cameras_render_target(cameras: &mut Vec<RenderTarget>, window: &AdwaitaWindow)
    ensures
        final(cameras)@.len() == old(cameras)@.len(),
        forall|i: int| 0 <= i < old(cameras)@.len()
            ==> #[trigger] final(cameras)@[i] == retargeted(old(cameras)@[i], window.handle()),
{
    let mut i: usize = 0;
    while i < cameras.len()
        invariant
            0 <= i <= cameras@.len(),
            cameras@.len() == old(cameras)@.len(),
            forall|j: int| 0 <= j < i ==> #[trigger] cameras@[j] == retargeted(old(cameras)@[j], window.handle()),
            forall|j: int| i <= j < cameras@.len() ==> #[trigger] cameras@[j] == old(cameras)@[j],
        decreases cameras@.len() - i,
    {
        if cameras[i] == RenderTarget::Window(WindowRef::Primary) {
            cameras.set(i, window.render_target());
        }
        i = i + 1;
    }
}

} // verus!
