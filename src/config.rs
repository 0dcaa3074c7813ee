//! How a window is to be opened, and the messages a window can carry back.

use vstd::prelude::*;
use vstd::string::StringExecFns;

verus! {

/// How the window's header bar is laid out.
#[derive(Debug, Clone, Copy, PartialEq, Eq, Hash, Structural)]
pub enum AdwaitaHeaderBar {
    Full,
    OverContent,
    /// No header bar at all.
    Hidden,
}

impl Default for AdwaitaHeaderBar {
    fn default() -> (r: AdwaitaHeaderBar)
        ensures
            r == AdwaitaHeaderBar::Full,
    {
        AdwaitaHeaderBar::Full
    }
}

/// Initial settings of a window.
#[derive(Debug, Clone)]
pub struct AdwaitaWindowConfig {
    pub width: u32,
    pub height: u32,
    pub title: String,
    pub resizable: bool,
    pub maximized: bool,
    pub fullscreen: bool,
    pub header_bar: AdwaitaHeaderBar,
}

impl Default for AdwaitaWindowConfig {
    fn default() -> (r: AdwaitaWindowConfig)
        ensures
            r.width == 1280,
            r.height == 720,
            r.title@ == "App"@,
            r.resizable,
            !r.maximized,
            !r.fullscreen,
            r.header_bar == AdwaitaHeaderBar::Full,
    {
        AdwaitaWindowConfig {
            width: 1280,
            height: 720,
            title: String::from_str("App"),
            resizable: true,
            maximized: false,
            fullscreen: false,
            header_bar: AdwaitaHeaderBar::default(),
        }
    }
}

/// Marks the window that cameras aimed at the primary window render into.
#[derive(Debug, Default, Clone, Copy, PartialEq, Eq, Hash)]
pub struct PrimaryAdwaitaWindow;

/// Settings of the window integration: the primary window to open at start-up, if any.
#[derive(Debug, Clone)]
pub struct AdwaitaWindowPlugin {
    pub primary_window_config: Option<AdwaitaWindowConfig>,
}

impl Default for AdwaitaWindowPlugin {
    fn default() -> (r: AdwaitaWindowPlugin)
        ensures
            r.primary_window_config matches Some(c) && c.width == 1280 && c.height == 720
                && c.title@ == "App"@ && c.resizable && !c.maximized && !c.fullscreen
                && c.header_bar == AdwaitaHeaderBar::Full,
    {
        AdwaitaWindowPlugin { primary_window_config: Some(AdwaitaWindowConfig::default()) }
    }
}

/// A directive sent over a window's command channel; new kinds may be added.
#[derive(Debug, Clone, Copy, PartialEq, Eq, Structural)]
#[non_exhaustive]
pub enum WindowCommand {
    /// Ask for the window's content to take this size in pixels.
    SetSize { width: u32, height: u32 },
    /// Show or hide the window.
    SetVisible(bool),
}

} // verus!
