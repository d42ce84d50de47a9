//! Image signal processor configuration: white balance, auto-exposure and
//! demosaicing for the raw sensor data.
//!
//! The color correction matrix is kept in thousandths so the configuration
//! stays in exact integer arithmetic; 1000 stands for a gain of one.

use vstd::prelude::*;

verus! {

/// The fixed-point unit of the color correction matrix.
pub const CCM_ONE_MILLI: i32 = 1000;

pub enum DemosaicMethod {
    /// Bilinear interpolation — fast, lower quality.
    Bilinear,
    /// Edge-directed — better edges, slightly more computation.
    EdgeDirected,
}

/// Typed ISP stage configuration; each field maps to an ISP register
/// block.
pub struct IspConfig {
    pub awb_enabled: bool,
    pub ae_enabled: bool,
    pub ae_target_brightness: u8,
    pub demosaic_method: DemosaicMethod,
    /// Row-major color correction matrix, entries in thousandths.
    pub color_correction_matrix: [[i32; 3]; 3],
}

impl Default for IspConfig {
    /// Auto white balance and auto exposure on, mid-range exposure
    /// target, edge-directed demosaicing, identity color correction.
    fn default() -> (c: Self)
        ensures
            c.awb_enabled,
            c.ae_enabled,
            c.ae_target_brightness == 128,
            c.demosaic_method is EdgeDirected,
            forall|i: int, j: int| 0 <= i < 3 && 0 <= j < 3 ==> c.color_correction_matrix[i][j]
                == if i == j {
                    CCM_ONE_MILLI as int
                } else {
                    0
                },
    {
        let c = IspConfig {
            awb_enabled: true,
            ae_enabled: true,
            ae_target_brightness: 128,
            demosaic_method: DemosaicMethod::EdgeDirected,
            color_correction_matrix: [
                [CCM_ONE_MILLI, 0, 0],
                [0, CCM_ONE_MILLI, 0],
                [0, 0, CCM_ONE_MILLI],
            ],
        };
        c
    }
}

/// The register-level ISP configuration handed to the device layer.
pub struct IspRegConfig {
    pub awb_enable: bool,
    pub ae_enable: bool,
    pub ae_target: u8,
}

/// Handle to the hardware ISP pipeline; the device layer performs the
/// in-place transforms on the buffers the processing stage owns.
pub struct IspPipeline {
    pub config: IspConfig,
}

/// Bind an ISP handle to a stage configuration.
pub fn init(config: IspConfig) -> (isp: IspPipeline)
    ensures
        isp.config == config,
{
    IspPipeline { config }
}

impl IspPipeline {
    /// Update the auto-exposure target at runtime.
    pub fn set_ae_target(&mut self, brightness: u8)
        ensures
            final(self).config.ae_target_brightness == brightness,
            final(self).config.awb_enabled == old(self).config.awb_enabled,
            final(self).config.ae_enabled == old(self).config.ae_enabled,
            final(self).config.demosaic_method == old(self).config.demosaic_method,
            final(self).config.color_correction_matrix == old(
                self,
            ).config.color_correction_matrix,
    {
        self.config.ae_target_brightness = brightness;
    }

    /// The register-level configuration for the current settings.
    pub fn reg_config(&self) -> (r: IspRegConfig)
        ensures
            r.awb_enable == self.config.awb_enabled,
            r.ae_enable == self.config.ae_enabled,
            r.ae_target == self.config.ae_target_brightness,
    {
        IspRegConfig {
            awb_enable: self.config.awb_enabled,
            ae_enable: self.config.ae_enabled,
            ae_target: self.config.ae_target_brightness,
        }
    }
}

/// The outcome of the two-stage ISP bring-up: the processor is created,
/// then enabled; the first failing status code is surfaced.
pub fn isp_init_outcome(create_status: i32, enable_status: i32) -> (r: Result<(), i32>)
    ensures
        create_status != 0 ==> r == Err::<(), i32>(create_status),
        create_status == 0 && enable_status != 0 ==> r == Err::<(), i32>(enable_status),
        create_status == 0 && enable_status == 0 ==> r is Ok,
{
    if create_status != 0 {
        Err(create_status)
    } else if enable_status != 0 {
        Err(enable_status)
    } else {
        Ok(())
    }
}

} // verus!
