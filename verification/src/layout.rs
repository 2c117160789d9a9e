//! Byte layout of the readback image: a row-major dump of 4-channel
//! 32-bit float pixels, 16 bytes each, with no padding between rows.

use vstd::prelude::*;
use crate::errors::ValidationError;

verus! {

/// Bytes per pixel of the render target: four 32-bit float channels.
pub const BYTES_PER_PIXEL: u64 = 16;

/// Byte stride between consecutive rows of the staging buffer. The
/// layout has no alignment padding, so the pitch is exact.
pub open spec fn spec_row_pitch(width: nat) -> nat {
    width * (BYTES_PER_PIXEL as nat)
}

/// Exact byte capacity of the output image and of the staging buffer.
pub open spec fn spec_image_bytes(width: nat, height: nat) -> nat {
    height * spec_row_pitch(width)
}

/// Byte stride between consecutive rows for a `width`-pixel row.
pub fn row_pitch(width: u32) -> (r: u64)
    ensures
        r == spec_row_pitch(width as nat),
{
    (width as u64) * BYTES_PER_PIXEL
}

/// Byte capacity a staging buffer must have to receive a full
/// `width` x `height` image, or `SizeOverflow` where that count does
/// not fit in a u64.
pub fn image_bytes(width: u32, height: u32) -> (r: Result<u64, ValidationError>)
    ensures
        spec_image_bytes(width as nat, height as nat) <= u64::MAX
            ==> (r matches Ok(n) && n == spec_image_bytes(width as nat, height as nat)),
        spec_image_bytes(width as nat, height as nat) > u64::MAX
            ==> r == Err::<u64, ValidationError>(ValidationError::SizeOverflow),
{
    proof {
        assert((width as nat) * (height as nat) <= 0xFFFF_FFFFnat * 0xFFFF_FFFFnat)
            by (nonlinear_arith)
            requires
                width as nat <= 0xFFFF_FFFFnat,
                height as nat <= 0xFFFF_FFFFnat,
        ;
    }
    let pixels: u64 = (width as u64) * (height as u64);
    if pixels > u64::MAX / BYTES_PER_PIXEL {
        proof {
            assert((width as nat) * (height as nat) * 16 > u64::MAX) by (nonlinear_arith)
                requires
                    (width as u64) * (height as u64) > u64::MAX / 16,
                    pixels == (width as u64) * (height as u64),
            ;
            assert(spec_image_bytes(width as nat, height as nat)
                == (width as nat) * (height as nat) * 16) by (nonlinear_arith);
        }
        Err(ValidationError::SizeOverflow)
    } else {
        proof {
            assert(spec_image_bytes(width as nat, height as nat)
                == (width as nat) * (height as nat) * 16) by (nonlinear_arith);
        }
        Ok(pixels * BYTES_PER_PIXEL)
    }
}

} // verus!
