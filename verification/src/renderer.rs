//! The device context: the surface configuration it owns, how it is built
//! from the surface's capabilities at startup, and how a window resize is
//! applied. Adapter and device negotiation with the driver happens outside;
//! this module computes every choice that negotiation feeds on.

use vstd::prelude::*;

verus! {

/// A window dimension pair in physical pixels.
#[derive(Clone, Copy, PartialEq, Eq, Structural, Debug)]
pub struct Extent {
    pub width: u32,
    pub height: u32,
}

/// One texture format the surface supports, as the logic reads it: an opaque
/// identifier and whether the format is gamma-correct (sRGB).
#[derive(Clone, Copy, PartialEq, Eq, Structural, Debug)]
pub struct SurfaceFormat {
    pub id: u32,
    pub srgb: bool,
}

/// What the surface reports it supports, in the driver's preference order.
/// Present and alpha-compositing modes are opaque identifiers.
pub struct SurfaceCapabilities {
    pub formats: Vec<SurfaceFormat>,
    pub present_modes: Vec<u32>,
    pub alpha_modes: Vec<u32>,
}

/// The surface configuration the device context keeps current.
#[derive(Clone, Copy, PartialEq, Eq, Structural, Debug)]
pub struct SurfaceConfig {
    pub format: SurfaceFormat,
    pub width: u32,
    pub height: u32,
    pub present_mode: u32,
    pub alpha_mode: u32,
    pub desired_maximum_frame_latency: u32,
}

/// Why the device context could not be set up.
#[derive(Clone, Copy, PartialEq, Eq, Structural, Debug)]
pub enum RendererError {
    /// The surface reported no supported texture format.
    NoSurfaceFormat,
    /// The surface reported no supported present mode.
    NoPresentMode,
    /// The surface reported no supported alpha-compositing mode.
    NoAlphaMode,
}

/// There is a gamma-correct format among the supported ones.
pub open spec fn has_srgb(formats: Seq<SurfaceFormat>) -> bool {
    exists|i: int| 0 <= i < formats.len() && formats[i].srgb
}

/// `f` is the first gamma-correct format of the supported list.
pub open spec fn is_first_srgb(formats: Seq<SurfaceFormat>, f: SurfaceFormat) -> bool {
    exists|i: int|
        0 <= i < formats.len() && #[trigger] formats[i].srgb && f == formats[i] && (forall|j: int|
            0 <= j < i ==> !formats[j].srgb)
}

/// The device context: the stored window size and the surface configuration,
/// which always carries the last known nonzero size.
#[derive(Debug)]
pub struct Renderer {
    pub size: Extent,
    pub config: SurfaceConfig,
}

impl Renderer {
    /// Builds the startup configuration from the window size and the
    /// surface's capabilities: the first gamma-correct format, falling back
    /// to the first supported one; the first present and alpha modes; and a
    /// frame latency of 2. Succeeds if and only if each capability list is
    /// nonempty, and says which one was empty otherwise.
    pub fn new(size: Extent, capabilities: &SurfaceCapabilities) -> (r: Result<
        Renderer,
        RendererError,
    >)
        ensures
            r is Ok <==> (capabilities.formats@.len() > 0 && capabilities.present_modes@.len() > 0
                && capabilities.alpha_modes@.len() > 0),
            capabilities.formats@.len() == 0 ==> r == Err::<Renderer, RendererError>(
                RendererError::NoSurfaceFormat,
            ),
            capabilities.formats@.len() > 0 && capabilities.present_modes@.len() == 0 ==> r
                == Err::<Renderer, RendererError>(RendererError::NoPresentMode),
            capabilities.formats@.len() > 0 && capabilities.present_modes@.len() > 0
                && capabilities.alpha_modes@.len() == 0 ==> r == Err::<Renderer, RendererError>(
                RendererError::NoAlphaMode,
            ),
            r matches Ok(rend) ==> ({
                &&& rend.size == size
                &&& rend.config.width == size.width
                &&& rend.config.height == size.height
                &&& rend.config.present_mode == capabilities.present_modes@[0]
                &&& rend.config.alpha_mode == capabilities.alpha_modes@[0]
                &&& rend.config.desired_maximum_frame_latency == 2
                &&& has_srgb(capabilities.formats@) ==> is_first_srgb(
                    capabilities.formats@,
                    rend.config.format,
                )
                &&& !has_srgb(capabilities.formats@) ==> rend.config.format
                    == capabilities.formats@[0]
            }),
    {
        if capabilities.formats.len() == 0 {
            return Err(RendererError::NoSurfaceFormat);
        }
        if capabilities.present_modes.len() == 0 {
            return Err(RendererError::NoPresentMode);
        }
        if capabilities.alpha_modes.len() == 0 {
            return Err(RendererError::NoAlphaMode);
        }
        let mut format: SurfaceFormat = capabilities.formats[0];
        let mut found: bool = false;
        let mut i: usize = 0;
        while i < capabilities.formats.len()
            invariant
                0 <= i <= capabilities.formats@.len(),
                capabilities.formats@.len() > 0,
                !found ==> forall|j: int| 0 <= j < i ==> !capabilities.formats@[j].srgb,
                !found ==> format == capabilities.formats@[0],
                found ==> is_first_srgb(capabilities.formats@, format),
            decreases capabilities.formats@.len() - i,
        {
            if !found && capabilities.formats[i].srgb {
                format = capabilities.formats[i];
                found = true;
            }
            i = i + 1;
        }
        let config = SurfaceConfig {
            format,
            width: size.width,
            height: size.height,
            present_mode: capabilities.present_modes[0],
            alpha_mode: capabilities.alpha_modes[0],
            desired_maximum_frame_latency: 2,
        };
        Ok(Renderer { size, config })
    }

    /// Applies a window resize: a size with both dimensions nonzero is
    /// stored, the configuration follows it, and the caller must reconfigure
    /// the surface exactly once (the result says so); a size with a zero
    /// dimension changes nothing and asks for no reconfiguration.
    pub fn resize(&mut self, new_size: Extent) -> (reconfigured: bool)
        ensures
            reconfigured <==> (new_size.width > 0 && new_size.height > 0),
            reconfigured ==> ({
                &&& final(self).size == new_size
                &&& final(self).config.width == new_size.width
                &&& final(self).config.height == new_size.height
                &&& final(self).config.format == old(self).config.format
                &&& final(self).config.present_mode == old(self).config.present_mode
                &&& final(self).config.alpha_mode == old(self).config.alpha_mode
                &&& final(self).config.desired_maximum_frame_latency == old(
                    self,
                ).config.desired_maximum_frame_latency
            }),
            !reconfigured ==> *final(self) == *old(self),
    {
        if new_size.width > 0 && new_size.height > 0 {
            self.size = new_size;
            self.config.width = new_size.width;
            self.config.height = new_size.height;
            true
        } else {
            false
        }
    }
}

} // verus!
