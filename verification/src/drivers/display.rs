//! MIPI DSI display driver: mode configuration and composition layers.

use vstd::prelude::*;

verus! {

/// Display resolution.
#[derive(Clone, Copy, Debug, PartialEq, Eq, Structural)]
pub struct Resolution {
    /// Width in pixels
    pub width: u32,
    /// Height in pixels
    pub height: u32,
}

/// Pixel formats the panel accepts.
#[derive(Clone, Copy, Debug, PartialEq, Eq, Structural)]
pub enum PixelFormat {
    /// 32-bit RGBA
    RGBA8888,
    /// 24-bit RGB
    RGB888,
    /// 16-bit RGB
    RGB565,
}

/// One composition layer.
#[derive(Clone, Copy, Debug, PartialEq, Eq, Structural)]
pub struct DisplayLayer {
    /// Layer id
    pub id: u32,
    /// Framebuffer address
    pub framebuffer: usize,
    /// Layer resolution
    pub resolution: Resolution,
    /// Pixel format
    pub format: PixelFormat,
    /// Z-order; higher draws on top
    pub z_order: u8,
    /// Alpha blending, 0-255
    pub alpha: u8,
}

/// Driver errors, shared with the driver framework.
pub use crate::drivers::DriverError;

/// The MIPI DSI display driver.
#[derive(Debug)]
pub struct MipiDsiDriver {
    /// Panel resolution
    resolution: Resolution,
    /// Refresh rate in Hz
    refresh_rate: u32,
    /// Active composition layers
    layers: Vec<DisplayLayer>,
    /// Whether the controller has been configured
    configured: bool,
}

impl MipiDsiDriver {
    /// Spec view of the panel resolution.
    pub closed spec fn spec_resolution(&self) -> Resolution {
        self.resolution
    }

    /// Spec view of the refresh rate.
    pub closed spec fn spec_refresh_rate(&self) -> u32 {
        self.refresh_rate
    }

    /// Spec view of the layers.
    pub closed spec fn spec_layers(&self) -> Seq<DisplayLayer> {
        self.layers@
    }

    /// Spec view of the configured flag.
    pub closed spec fn spec_configured(&self) -> bool {
        self.configured
    }

    /// An unconfigured driver for a panel mode.
    pub fn new(resolution: Resolution, refresh_rate: u32) -> (r: Self)
        ensures
            r.spec_resolution() == resolution,
            r.spec_refresh_rate() == refresh_rate,
            r.spec_layers().len() == 0,
            !r.spec_configured(),
    {
        MipiDsiDriver { resolution, refresh_rate, layers: Vec::new(), configured: false }
    }

    /// Configure the controller and panel. The register programming
    /// belongs to the platform layer; here the driver records that the
    /// mode is set.
    pub fn configure(&mut self) -> (r: Result<(), DriverError>)
        ensures
            r is Ok,
            final(self).spec_configured(),
            final(self).spec_resolution() == old(self).spec_resolution(),
            final(self).spec_refresh_rate() == old(self).spec_refresh_rate(),
            final(self).spec_layers() == old(self).spec_layers(),
    {
        self.configured = true;
        Ok(())
    }

    /// Create a composition layer. Its id is its index; the framebuffer
    /// region is the platform's fixed scanout base.
    pub fn create_layer(
        &mut self,
        resolution: Resolution,
        format: PixelFormat,
        z_order: u8,
    ) -> (r: Result<u32, DriverError>)
        requires
            old(self).spec_layers().len() < u32::MAX,
        ensures
            r == Ok::<u32, DriverError>(old(self).spec_layers().len() as u32),
            final(self).spec_layers() == old(self).spec_layers().push(
                DisplayLayer {
                    id: old(self).spec_layers().len() as u32,
                    framebuffer: 0x8000_0000,
                    resolution,
                    format,
                    z_order,
                    alpha: 255u8,
                },
            ),
            final(self).spec_resolution() == old(self).spec_resolution(),
            final(self).spec_refresh_rate() == old(self).spec_refresh_rate(),
            final(self).spec_configured() == old(self).spec_configured(),
    {
        let layer_id = self.layers.len() as u32;
        let layer = DisplayLayer {
            id: layer_id,
            framebuffer: 0x8000_0000,
            resolution,
            format,
            z_order,
            alpha: 255,
        };
        self.layers.push(layer);
        Ok(layer_id)
    }

    /// Queue a layer update for the next vertical sync; unknown layer ids
    /// are refused.
    pub fn update_layer(&mut self, layer_id: u32) -> (r: Result<(), DriverError>)
        ensures
            *final(self) == *old(self),
            r == (if layer_id < old(self).spec_layers().len() {
                Ok::<(), DriverError>(())
            } else {
                Err::<(), DriverError>(DriverError::InvalidArgument)
            }),
    {
        if (layer_id as usize) < self.layers.len() {
            Ok(())
        } else {
            Err(DriverError::InvalidArgument)
        }
    }

    /// Wait for the next vertical sync. Blocking on the interrupt belongs
    /// to the platform layer; the driver state is untouched.
    pub fn wait_vsync(&self) -> (r: Result<(), DriverError>)
        ensures
            r is Ok,
    {
        Ok(())
    }
}

} // verus!
