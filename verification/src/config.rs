use vstd::prelude::*;

verus! {

/// Upper bound on escape-time iterations: a point whose orbit stays below
/// the escape threshold for this many steps is taken to lie inside the set.
pub const MAX_ITERATIONS: u32 = 1000;

/// The escape threshold, compared against the squared magnitude of the
/// orbit; an orbit whose squared magnitude reaches it has escaped.
pub const ESCAPE_THRESHOLD: u32 = 32;

/// Raster geometry: the display dimensions, the downsample factor of the
/// interactive preview, and the upsample factor of the exported image.
#[derive(Clone, Copy, PartialEq, Eq, Structural, Debug)]
pub struct RasterConfig {
    pub width: u32,
    pub height: u32,
    pub factor: u32,
    pub export_factor: u32,
}

impl RasterConfig {
    /// The dimensions and factors are positive, the preview raster is
    /// non-empty, and the export raster fits in `u32` coordinates.
    pub open spec fn wf(self) -> bool {
        &&& 0 < self.width
        &&& 0 < self.height
        &&& 0 < self.factor
        &&& self.factor <= self.width
        &&& self.factor <= self.height
        &&& 0 < self.export_factor
        &&& self.width * self.export_factor <= u32::MAX
        &&& self.height * self.export_factor <= u32::MAX
    }

    /// The fixed geometry of the interactive window.
    pub fn standard() -> (c: RasterConfig)
        ensures
            c.wf(),
            c == (RasterConfig { width: 1500, height: 1000, factor: 4, export_factor: 2 }),
    {
        RasterConfig { width: 1500, height: 1000, factor: 4, export_factor: 2 }
    }

    /// Width of the downsampled preview raster.
    pub fn preview_width(&self) -> (w: u32)
        requires
            self.wf(),
        ensures
            w == self.width as int / self.factor as int,
            0 < w,
    {
        proof {
            assert(1 <= self.width as int / self.factor as int) by (nonlinear_arith)
                requires
                    0 < self.factor,
                    self.factor <= self.width,
            ;
        }
        self.width / self.factor
    }

    /// Height of the downsampled preview raster.
    pub fn preview_height(&self) -> (h: u32)
        requires
            self.wf(),
        ensures
            h == self.height as int / self.factor as int,
            0 < h,
    {
        proof {
            assert(1 <= self.height as int / self.factor as int) by (nonlinear_arith)
                requires
                    0 < self.factor,
                    self.factor <= self.height,
            ;
        }
        self.height / self.factor
    }

    /// Width of the exported image.
    pub fn export_width(&self) -> (w: u32)
        requires
            self.wf(),
        ensures
            w == self.width * self.export_factor,
            0 < w,
    {
        proof {
            assert(1 <= self.width * self.export_factor) by (nonlinear_arith)
                requires
                    0 < self.width,
                    0 < self.export_factor,
            ;
        }
        self.width * self.export_factor
    }

    /// Height of the exported image.
    pub fn export_height(&self) -> (h: u32)
        requires
            self.wf(),
        ensures
            h == self.height * self.export_factor,
            0 < h,
    {
        proof {
            assert(1 <= self.height * self.export_factor) by (nonlinear_arith)
                requires
                    0 < self.height,
                    0 < self.export_factor,
            ;
        }
        self.height * self.export_factor
    }
}

} // verus!
