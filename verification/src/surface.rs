//! The presentation surface's configuration and how its first value is
//! chosen.

use vstd::prelude::*;

verus! {

/// `wgpu::TextureFormat`, carried through this crate without being looked
/// into: a format is only ever picked from a list, stored and handed on.
#[verifier::external_type_specification]
#[verifier::external_body]
pub struct ExTextureFormat(wgpu::TextureFormat);

/// When a submitted frame becomes visible relative to the display refresh.
#[derive(Clone, Copy, Debug, PartialEq, Eq, Hash, Structural)]
pub enum PresentMode {
    AutoVsync,
    AutoNoVsync,
    Fifo,
    FifoRelaxed,
    Immediate,
    Mailbox,
}

/// How the alpha channel of the surface is treated during compositing.
#[derive(Clone, Copy, Debug, PartialEq, Eq, Hash, Structural)]
pub enum CompositeAlphaMode {
    Auto,
    Opaque,
    PreMultiplied,
    PostMultiplied,
    Inherit,
}

/// What a texture may be used for.
#[derive(Clone, Copy, Debug, PartialEq, Eq, Hash, Structural)]
pub enum TextureUsage {
    CopySrc,
    CopyDst,
    TextureBinding,
    StorageBinding,
    RenderAttachment,
}

/// The configuration of the presentation surface. After setup only `width`
/// and `height` ever change.
#[derive(Clone, Copy, Debug, PartialEq, Eq)]
pub struct SurfaceConfig {
    pub usage: TextureUsage,
    pub format: wgpu::TextureFormat,
    pub width: u32,
    pub height: u32,
    pub present_mode: PresentMode,
    pub alpha_mode: CompositeAlphaMode,
}

impl SurfaceConfig {
    /// The configuration a surface starts with: a render attachment of the
    /// given format and size, presented first-in-first-out (capped to the
    /// display's refresh), with the alpha mode left to the platform.
    pub open spec fn initial_spec(
        format: wgpu::TextureFormat,
        width: u32,
        height: u32,
    ) -> SurfaceConfig {
        SurfaceConfig {
            usage: TextureUsage::RenderAttachment,
            format,
            width,
            height,
            present_mode: PresentMode::Fifo,
            alpha_mode: CompositeAlphaMode::Auto,
        }
    }

    /// This configuration with another size and everything else kept.
    pub open spec fn resized_spec(self, width: u32, height: u32) -> SurfaceConfig {
        SurfaceConfig { width, height, ..self }
    }

    /// Builds the configuration a surface starts with.
    pub fn initial(format: wgpu::TextureFormat, width: u32, height: u32) -> (config: SurfaceConfig)
        ensures
            config == Self::initial_spec(format, width, height),
    {
        SurfaceConfig {
            usage: TextureUsage::RenderAttachment,
            format,
            width,
            height,
            present_mode: PresentMode::Fifo,
            alpha_mode: CompositeAlphaMode::Auto,
        }
    }

    /// Returns this configuration with another size.
    pub fn resized(&self, width: u32, height: u32) -> (config: SurfaceConfig)
        ensures
            config == self.resized_spec(width, height),
    {
        SurfaceConfig {
            usage: self.usage,
            format: self.format,
            width,
            height,
            present_mode: self.present_mode,
            alpha_mode: self.alpha_mode,
        }
    }
}

/// The format to configure the surface with: the first one it reports for the
/// adapter, which is the one it prefers. `None` when it reports none, which
/// means that the adapter cannot present to the surface.
pub open spec fn preferred_format(formats: Seq<wgpu::TextureFormat>) -> Option<
    wgpu::TextureFormat,
> {
    if formats.len() == 0 {
        None
    } else {
        Some(formats[0])
    }
}

/// Picks the surface format out of the formats that the surface supports.
pub fn choose_format(formats: &Vec<wgpu::TextureFormat>) -> (format: Option<wgpu::TextureFormat>)
    ensures
        format == preferred_format(formats@),
{
    if formats.len() == 0 {
        None
    } else {
        Some(formats[0])
    }
}

} // verus!
