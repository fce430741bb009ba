//! Captured frame buffers and bounds-checked pixel sampling.

use vstd::prelude::*;
use crate::color::{color_hex, to_hex};
use crate::errors::RobotError;

verus! {

/// Whether `(x, y)` lies inside a `width` by `height` extent.
pub open spec fn in_bounds(width: int, height: int, x: int, y: int) -> bool {
    0 <= x < width && 0 <= y < height
}

/// The byte offset of pixel `(x, y)` in a row-major buffer with four bytes
/// per pixel.
pub open spec fn pixel_offset(width: int, x: int, y: int) -> int {
    (y * width + x) * 4
}

/// A captured frame: `width * height` pixels in row-major order, four bytes
/// each, with red, green and blue in the first three byte positions of a
/// pixel (the fourth byte is padding and is ignored).
pub struct PixelBuffer {
    pub width: i32,
    pub height: i32,
    pub data: Vec<u8>,
}

impl PixelBuffer {
    /// Well-formedness: non-negative extent and exactly four bytes per pixel.
    pub open spec fn wf(&self) -> bool {
        &&& 0 <= self.width
        &&& 0 <= self.height
        &&& self.data@.len() == self.width * self.height * 4
    }

    /// Bytes per row (the stride), always `width * 4`.
    pub fn byte_width(&self) -> (w: i64)
        ensures
            w == self.width * 4,
    {
        self.width as i64 * 4
    }

    /// Bits per pixel of every buffer this core produces.
    pub fn bits_per_pixel(&self) -> (b: u32)
        ensures
            b == 32,
    {
        32
    }

    /// Bytes per pixel of every buffer this core produces.
    pub fn bytes_per_pixel(&self) -> (b: u32)
        ensures
            b == 4,
    {
        4
    }

    /// Wraps a raw captured frame into a buffer. The frame is rejected when
    /// its byte count does not match the claimed extent, which marks a
    /// failure of the capture backend.
    pub fn from_frame(width: i32, height: i32, data: Vec<u8>) -> (r: Result<PixelBuffer, RobotError>)
        ensures
            match r {
                Result::Ok(b) => {
                    &&& b.wf()
                    &&& b.width == width
                    &&& b.height == height
                    &&& b.data@ == data@
                },
                Result::Err(e) => {
                    &&& e == RobotError::BackendUnavailable
                    &&& (width < 0 || height < 0 || data@.len() != width * height * 4)
                },
            },
    {
        if width < 0 || height < 0 {
            return Result::Err(RobotError::BackendUnavailable);
        }
        proof {
            assert(0 <= width as int * height as int * 4 < 0x10000000000000000)
                by (nonlinear_arith)
                requires
                    0 <= width <= 0x7fffffff,
                    0 <= height <= 0x7fffffff,
            ;
        }
        let expected: u64 = (width as u64) * (height as u64) * 4;
        if (data.len() as u64) != expected {
            return Result::Err(RobotError::BackendUnavailable);
        }
        Result::Ok(PixelBuffer { width, height, data })
    }

    /// Samples the pixel at `(x, y)` of an already captured buffer and
    /// renders it as a `#rrggbb` string; coordinates outside the buffer's
    /// extent fail with `OutOfBounds` and yield no color.
    pub fn color_at(&self, x: i32, y: i32) -> (r: Result<String, RobotError>)
        requires
            self.wf(),
        ensures
            match r {
                Result::Ok(s) => {
                    &&& in_bounds(self.width as int, self.height as int, x as int, y as int)
                    &&& s@ == color_hex(
                        self.data@[pixel_offset(self.width as int, x as int, y as int)],
                        self.data@[pixel_offset(self.width as int, x as int, y as int) + 1],
                        self.data@[pixel_offset(self.width as int, x as int, y as int) + 2],
                    )
                },
                Result::Err(e) => {
                    &&& e == RobotError::OutOfBounds
                    &&& !in_bounds(self.width as int, self.height as int, x as int, y as int)
                },
            },
    {
        if x < 0 || x >= self.width || y < 0 || y >= self.height {
            return Result::Err(RobotError::OutOfBounds);
        }
        let n = self.data.len();
        proof {
            assert(0 <= y * self.width && (y * self.width + x) * 4 + 3 < self.width * self.height
                * 4) by (nonlinear_arith)
                requires
                    0 <= x < self.width,
                    0 <= y < self.height,
            ;
        }
        let index: usize = (y as usize * self.width as usize + x as usize) * 4;
        let red = self.data[index];
        let green = self.data[index + 1];
        let blue = self.data[index + 2];
        Result::Ok(to_hex(red, green, blue))
    }
}

/// The value of an optional coordinate, with its documented default.
pub open spec fn opt_coord_or(o: Option<i32>, d: i32) -> i32 {
    match o {
        Option::Some(v) => v,
        Option::None => d,
    }
}

/// The capture region actually requested from the capture backend: omitted
/// fields default to the primary display's origin and full extent, in the
/// order x, y, width, height.
pub fn resolve_capture_region(
    x: Option<i32>,
    y: Option<i32>,
    width: Option<i32>,
    height: Option<i32>,
    display_width: i32,
    display_height: i32,
) -> (r: (i32, i32, i32, i32))
    ensures
        r.0 == opt_coord_or(x, 0),
        r.1 == opt_coord_or(y, 0),
        r.2 == opt_coord_or(width, display_width),
        r.3 == opt_coord_or(height, display_height),
{
    let rx = match x {
        Option::Some(v) => v,
        Option::None => 0,
    };
    let ry = match y {
        Option::Some(v) => v,
        Option::None => 0,
    };
    let rw = match width {
        Option::Some(v) => v,
        Option::None => display_width,
    };
    let rh = match height {
        Option::Some(v) => v,
        Option::None => display_height,
    };
    (rx, ry, rw, rh)
}

} // verus!
