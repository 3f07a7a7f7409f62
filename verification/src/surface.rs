//! The window's drawable area and the configuration of its swap target.

use vstd::prelude::*;

verus! {

/// Physical size of a window's drawable area, in pixels.
#[derive(Clone, Copy, Debug, PartialEq, Eq, Structural)]
pub struct Size {
    pub width: u32,
    pub height: u32,
}

/// Texel formats a presentable image may have.
#[derive(Clone, Copy, Debug, PartialEq, Eq, Structural)]
pub enum TextureFormat {
    Rgba8Unorm,
    Rgba8UnormSrgb,
    Bgra8Unorm,
    Bgra8UnormSrgb,
}

/// How finished images are handed to the display.
#[derive(Clone, Copy, Debug, PartialEq, Eq, Structural)]
pub enum PresentMode {
    Immediate,
    Mailbox,
    Fifo,
}

/// What the images of a texture are used for.
#[derive(Clone, Copy, Debug, PartialEq, Eq, Structural)]
pub enum TextureUsage {
    CopySrc,
    CopyDst,
    Sampled,
    Storage,
    OutputAttachment,
}

/// Configuration of the swap target: the images a surface cycles through.
#[derive(Clone, Copy, Debug, PartialEq, Eq, Structural)]
pub struct SwapConfig {
    pub usage: TextureUsage,
    pub format: TextureFormat,
    pub width: u32,
    pub height: u32,
    pub present_mode: PresentMode,
}

impl SwapConfig {
    /// The configuration a window of `size` starts with: sRGB BGRA images
    /// that are rendered into, presented in FIFO order, as large as the window.
    pub open spec fn initial(size: Size) -> SwapConfig {
        SwapConfig {
            usage: TextureUsage::OutputAttachment,
            format: TextureFormat::Bgra8UnormSrgb,
            width: size.width,
            height: size.height,
            present_mode: PresentMode::Fifo,
        }
    }

    /// This configuration with the dimensions of `size` and nothing else changed.
    pub open spec fn with_size(self, size: Size) -> SwapConfig {
        SwapConfig { width: size.width, height: size.height, ..self }
    }

    /// The dimensions of the swap target's images.
    pub open spec fn extent(self) -> Size {
        Size { width: self.width, height: self.height }
    }

    /// Builds the configuration a window of `size` starts with.
    pub fn for_window(size: Size) -> (config: SwapConfig)
        ensures
            config == SwapConfig::initial(size),
            config.extent() == size,
    {
        SwapConfig {
            usage: TextureUsage::OutputAttachment,
            format: TextureFormat::Bgra8UnormSrgb,
            width: size.width,
            height: size.height,
            present_mode: PresentMode::Fifo,
        }
    }

    /// Returns this configuration resized to `size`; usage, format and
    /// present mode stay.
    pub fn resized(self, size: Size) -> (config: SwapConfig)
        ensures
            config == self.with_size(size),
            config.extent() == size,
            config.usage == self.usage,
            config.format == self.format,
            config.present_mode == self.present_mode,
    {
        SwapConfig {
            usage: self.usage,
            format: self.format,
            width: size.width,
            height: size.height,
            present_mode: self.present_mode,
        }
    }

    /// The dimensions of the swap target's images.
    pub fn size(&self) -> (size: Size)
        ensures
            size == self.extent(),
    {
        Size { width: self.width, height: self.height }
    }
}

} // verus!
