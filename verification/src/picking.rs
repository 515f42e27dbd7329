//! Index arithmetic of the depth-picking readback.
//!
//! A click copies the whole depth texture into a staging buffer whose rows
//! are padded to the backend's copy alignment; the callback then indexes the
//! mapped words with the last recorded mouse coordinate. The byte and index
//! computations are verified here; reading the buffer and turning the raw
//! depth word into a linear depth happen at the GPU boundary outside.

use vstd::prelude::*;
use vstd::arithmetic::div_mod::{lemma_fundamental_div_mod, lemma_mod_multiples_basic};

verus! {

/// Row alignment the backend requires of texture-to-buffer copies, in bytes.
pub const COPY_ROW_ALIGNMENT: u32 = 256;

/// Bytes of one depth texel.
pub const DEPTH_BYTES_PER_PIXEL: u32 = 4;

/// The least multiple of `alignment` that is at least `value`.
pub open spec fn align_up_spec(value: int, alignment: int) -> int {
    (value + alignment - 1) / alignment * alignment
}

/// `align_up_spec` is a multiple of the alignment inside `[value, value +
/// alignment)`.
pub proof fn lemma_align_up_bounds(value: int, alignment: int)
    requires
        value >= 0,
        alignment >= 1,
    ensures
        align_up_spec(value, alignment) % alignment == 0,
        value <= align_up_spec(value, alignment) < value + alignment,
{
    let sum = value + alignment - 1;
    let q = sum / alignment;
    lemma_fundamental_div_mod(sum, alignment);
    lemma_mod_multiples_basic(q, alignment);
}

/// Round a byte count up to the next multiple of the alignment.
pub fn align_up(value: u32, alignment: u32) -> (r: u32)
    requires
        alignment >= 1,
        value + alignment - 1 <= u32::MAX,
    ensures
        r == align_up_spec(value as int, alignment as int),
        r % alignment == 0,
        value <= r < value + alignment,
{
    proof {
        lemma_align_up_bounds(value as int, alignment as int);
        lemma_fundamental_div_mod((value + alignment - 1) as int, alignment as int);
    }
    let r = (value + (alignment - 1)) / alignment * alignment;
    proof {
        lemma_mod_multiples_basic((r / alignment) as int, alignment as int);
        lemma_fundamental_div_mod(r as int, alignment as int);
    }
    r
}

/// Bytes of one unpadded row of the depth texture.
pub fn depth_bytes_per_row(width: u32) -> (r: u32)
    requires
        4 * width <= u32::MAX,
    ensures
        r == 4 * width,
{
    width * DEPTH_BYTES_PER_PIXEL
}

/// Bytes of one row of the staging buffer: the unpadded row rounded up to
/// the copy alignment.
pub fn padded_bytes_per_row(width: u32) -> (r: u32)
    requires
        4 * width + 255 <= u32::MAX,
    ensures
        r == align_up_spec(4 * width, 256),
        r % 256 == 0,
        4 * width <= r < 4 * width + 256,
{
    align_up(width * 4, COPY_ROW_ALIGNMENT)
}

/// Size in bytes of the staging buffer: one padded row per texture row.
pub fn picking_buffer_size(width: u32, height: u32) -> (r: u64)
    requires
        4 * width + 255 <= u32::MAX,
    ensures
        r == align_up_spec(4 * width, 256) * height,
{
    let padded = padded_bytes_per_row(width);
    proof {
        lemma_align_up_bounds(4 * width as int, 256);
        assert((padded as u64) * (height as u64) <= u32::MAX as u64 * u32::MAX as u64) by (
        nonlinear_arith)
            requires
                padded <= u32::MAX,
                height <= u32::MAX,
        ;
    }
    (padded as u64) * (height as u64)
}

/// Index into the mapped buffer at which the clicked pixel's depth word is
/// read: four times the linear pixel number of the mouse coordinate.
pub fn depth_pixel_index(x: u32, y: u32, width: u32) -> (r: usize)
    requires
        4 * (x + y * width) <= u32::MAX,
    ensures
        r == 4 * (x + y * width),
{
    ((x + y * width) * 4) as usize
}

/// One picking readback request: the staging-buffer geometry for the depth
/// texture and the index of the clicked pixel.
#[derive(Clone, Copy, Debug, PartialEq, Eq, Structural)]
pub struct PickingRequest {
    pub padded_bytes_per_row: u32,
    pub rows: u32,
    pub buffer_size: u64,
    pub pixel_index: usize,
}

/// Lay out the staging buffer and pixel index for a picking readback of a
/// `width` by `height` depth texture at mouse coordinate `(x, y)`.
pub fn plan_picking(width: u32, height: u32, x: u32, y: u32) -> (r: PickingRequest)
    requires
        4 * width + 255 <= u32::MAX,
        4 * (x + y * width) <= u32::MAX,
    ensures
        r.padded_bytes_per_row == align_up_spec(4 * width, 256),
        r.rows == height,
        r.buffer_size == align_up_spec(4 * width, 256) * height,
        r.pixel_index == 4 * (x + y * width),
{
    let padded = padded_bytes_per_row(width);
    let buffer_size = picking_buffer_size(width, height);
    let pixel_index = depth_pixel_index(x, y, width);
    PickingRequest { padded_bytes_per_row: padded, rows: height, buffer_size, pixel_index }
}

} // verus!
