//! Plain records of the surface's geometry, capabilities and configuration.

use vstd::prelude::*;

verus! {

/// Physical pixel dimensions of a window.
#[derive(Clone, Copy, Debug, PartialEq, Eq)]
pub struct WindowSize {
    pub width: u32,
    pub height: u32,
}

impl WindowSize {
    /// A size is drawable when neither dimension is zero. A minimized or
    /// hidden window reports a size that is not.
    pub open spec fn is_drawable(self) -> bool {
        self.width > 0 && self.height > 0
    }

    pub fn new(width: u32, height: u32) -> (size: WindowSize)
        ensures
            size == (WindowSize { width, height }),
    {
        WindowSize { width, height }
    }

    /// Decides `is_drawable`.
    pub fn drawable(&self) -> (yes: bool)
        ensures
            yes == self.is_drawable(),
    {
        self.width > 0 && self.height > 0
    }
}

/// What the surface's textures are used for. Presentation surfaces support
/// a single usage.
#[derive(Clone, Copy, Debug, PartialEq, Eq)]
pub enum SurfaceUsage {
    RenderAttachment,
}

/// What a surface reports it can do together with a given adapter. Each list
/// is in the backend's order of preference.
#[derive(Debug, PartialEq, Eq)]
pub struct SurfaceCapabilities {
    pub formats: Vec<wgpu::TextureFormat>,
    pub present_modes: Vec<wgpu::PresentMode>,
    pub alpha_modes: Vec<wgpu::CompositeAlphaMode>,
}

/// The parameters a surface is configured with.
#[derive(Clone, Copy, Debug, PartialEq, Eq)]
pub struct SurfaceConfiguration {
    pub usage: SurfaceUsage,
    pub format: wgpu::TextureFormat,
    pub width: u32,
    pub height: u32,
    pub present_mode: wgpu::PresentMode,
    pub alpha_mode: wgpu::CompositeAlphaMode,
}

impl SurfaceConfiguration {
    /// Only a configuration with two non-zero dimensions may be applied to a
    /// surface.
    pub open spec fn is_applicable(self) -> bool {
        self.width > 0 && self.height > 0
    }

    /// The dimensions as a window size.
    pub open spec fn extent(self) -> WindowSize {
        WindowSize { width: self.width, height: self.height }
    }

    /// This configuration with the dimensions of `size` and everything else
    /// as it is.
    pub open spec fn resized(self, size: WindowSize) -> SurfaceConfiguration {
        SurfaceConfiguration { width: size.width, height: size.height, ..self }
    }

    /// Decides `is_applicable`.
    pub fn applicable(&self) -> (yes: bool)
        ensures
            yes == self.is_applicable(),
    {
        self.width > 0 && self.height > 0
    }

    /// Computes `resized`.
    pub fn with_size(&self, size: WindowSize) -> (config: SurfaceConfiguration)
        ensures
            config == self.resized(size),
    {
        SurfaceConfiguration {
            usage: self.usage,
            format: self.format,
            width: size.width,
            height: size.height,
            present_mode: self.present_mode,
            alpha_mode: self.alpha_mode,
        }
    }
}

} // verus!
