//! Hand-off of rendered frames from a render thread to a window owned by a
//! separate UI-toolkit thread, and the lifecycle of each window's render target.

pub mod size;
pub mod frame;
pub mod config;
pub mod window;
pub mod camera;

pub use camera::RenderTarget;
pub use config::{AdwaitaHeaderBar, AdwaitaWindowConfig, AdwaitaWindowPlugin, PrimaryAdwaitaWindow, WindowCommand};
pub use frame::{DmabufInfo, FrameInfo, FrameSlot, TextureView};
pub use size::Size;
pub use window::{AdwaitaWindow, WindowOpen, Windows};
