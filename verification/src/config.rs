//! Window configuration for the renderer.
//!
//! The configuration is plain data; the host reads it when it builds the
//! actual window and canvas at startup. Only the dimension fallback rule is
//! logic of this crate.

use vstd::prelude::*;

verus! {

/// Window width used when no dimensions are configured.
pub const FALLBACK_WIDTH: u32 = 640;

/// Window height used when no dimensions are configured.
pub const FALLBACK_HEIGHT: u32 = 480;

/// Configuration for the renderer's window.
#[derive(Debug, Clone)]
pub struct RendererConfig {
    /// Dimensions of the window; when `None`, the fallback dimensions are
    /// used.
    pub dimensions: Option<(u32, u32)>,
    /// Title of the window.
    pub title: String,
    /// Position of the window.
    pub position: Option<(i32, i32)>,
    /// Centers the window.
    pub position_centered: bool,
    /// Set the window to start in fullscreen mode.
    pub fullscreen: bool,
    /// Allow the window to be usable with an OpenGL context.
    pub opengl: bool,
    /// Set the window to borderless.
    pub borderless: bool,
    /// Allow the window to be resized.
    pub resizable: bool,
    /// Start the window as minimized.
    pub minimized: bool,
    /// Start the window as maximized.
    pub maximized: bool,
    /// Set the window to have grabbed input focus.
    pub input_grabbed: bool,
    /// Set the window to fullscreen at the current desktop resolution.
    pub fullscreen_desktop: bool,
    /// Create the window in high-DPI mode.
    pub allow_highdpi: bool,
    /// Allow the window to be usable with a Vulkan instance.
    pub vulkan: bool,
    /// Use hardware acceleration for the canvas.
    pub accelerated: bool,
    /// Use vertical synchronization for the canvas.
    pub present_vsync: bool,
}

impl RendererConfig {
    /// The dimensions the window will get: the configured ones, or the
    /// fallback dimensions when none are configured.
    pub fn dimensions(&self) -> (d: (u32, u32))
        ensures
            self.dimensions is Some ==> d == self.dimensions.unwrap(),
            self.dimensions is None ==> d == (FALLBACK_WIDTH, FALLBACK_HEIGHT),
    {
        if let Some(dimensions) = self.dimensions {
            dimensions
        } else {
            (FALLBACK_WIDTH, FALLBACK_HEIGHT)
        }
    }
}

impl Default for RendererConfig {
    /// A resizable window with the fallback dimensions and the default
    /// title.
    fn default() -> (c: RendererConfig)
        ensures
            c.dimensions is None,
            c.title@ == "ctrait"@,
            c.position is None,
            !c.position_centered,
            !c.fullscreen,
            !c.opengl,
            !c.borderless,
            c.resizable,
            !c.minimized,
            !c.maximized,
            !c.input_grabbed,
            !c.fullscreen_desktop,
            !c.allow_highdpi,
            !c.vulkan,
            !c.accelerated,
            !c.present_vsync,
    {
        RendererConfig {
            title: "ctrait".to_owned(),
            dimensions: None,
            position: None,
            position_centered: false,
            fullscreen: false,
            opengl: false,
            borderless: false,
            resizable: true,
            minimized: false,
            maximized: false,
            input_grabbed: false,
            fullscreen_desktop: false,
            allow_highdpi: false,
            vulkan: false,
            accelerated: false,
            present_vsync: false,
        }
    }
}

} // verus!
