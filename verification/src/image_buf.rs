//! The decoded image buffer a job carries from the decoder to the
//! encoder: width, height, and interleaved three-channel 8-bit pixels.
//! Construction checks that the byte count matches the dimensions, the
//! defensive guard against a decoder/encoder contract mismatch.

use vstd::prelude::*;
use crate::errors::ConvertError;

verus! {

pub struct DecodedImage {
    pub width: usize,
    pub height: usize,
    pub data: Vec<u8>,
}

impl DecodedImage {
    /// Three interleaved 8-bit channels for every pixel.
    pub open spec fn wf(&self) -> bool {
        self.data@.len() == self.width * self.height * 3
    }

    /// Builds a buffer from the decoder's output. Succeeds exactly when
    /// the byte count matches width x height x 3; otherwise reports the
    /// mismatch as a `BufferShape` error carrying the counts.
    pub fn from_raw(width: usize, height: usize, data: Vec<u8>) -> (r: Result<
        DecodedImage,
        ConvertError,
    >)
        ensures
            data@.len() == width * height * 3 ==> (r matches Ok(img) && img.width == width
                && img.height == height && img.data@ == data@ && img.wf()),
            data@.len() != width * height * 3 ==> (r matches Err(ConvertError::BufferShape {
                width: w,
                height: h,
                actual: a,
            }) && w == width && h == height && a == data@.len()),
    {
        let len = data.len();
        proof {
            assert((width as int) * (height as int) <= u64::MAX * u64::MAX) by (nonlinear_arith)
                requires
                    width <= u64::MAX,
                    height <= u64::MAX,
            ;
        }
        let wide: u128 = (width as u128) * (height as u128);
        if wide > usize::MAX as u128 {
            proof {
                assert((width * height) * 3 >= width * height) by (nonlinear_arith)
                    requires
                        width * height >= 0,
                ;
            }
            return Err(ConvertError::BufferShape { width, height, actual: len });
        }
        let expected: u128 = wide * 3;
        if (len as u128) == expected {
            proof {
                assert(len == (width * height) * 3);
            }
            Ok(DecodedImage { width, height, data })
        } else {
            Err(ConvertError::BufferShape { width, height, actual: len })
        }
    }
}

} // verus!
