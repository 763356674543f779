use vstd::prelude::*;
use crate::driver_codes::DriverCodes;

verus! {

/// Pixel formats the image sensor can deliver.
#[derive(Debug, Clone, Copy, PartialEq, Eq, Structural)]
pub enum PixelFormat {
    /// One byte per pixel.
    GRAYSCALE,
    /// Two bytes per pixel.
    RGB565,
    /// Two bytes per pixel.
    YUV422,
    /// Compressed image.
    JPEG,
}

/// A driver code that names no variant of the enumeration it was read for.
#[derive(Debug, Clone, Copy, PartialEq, Eq, Structural)]
pub struct UnknownCode(pub u32);

impl PixelFormat {
    /// The position of the variant in declaration order, which is also its
    /// entry in the driver's code table.
    pub open spec fn spec_index(self) -> int {
        match self {
            PixelFormat::GRAYSCALE => 0,
            PixelFormat::RGB565 => 1,
            PixelFormat::YUV422 => 2,
            PixelFormat::JPEG => 3,
        }
    }

    /// The driver's code for the variant.
    pub open spec fn spec_code(self, codes: DriverCodes) -> u32 {
        codes.pixel_formats@[self.spec_index()]
    }

    /// The variant whose driver code is `code`, if any.
    pub open spec fn spec_from_code(codes: DriverCodes, code: u32) -> Option<PixelFormat> {
        let t = codes.pixel_formats@;
        if t[0] == code {
            Some(PixelFormat::GRAYSCALE)
        } else if t[1] == code {
            Some(PixelFormat::RGB565)
        } else if t[2] == code {
            Some(PixelFormat::YUV422)
        } else if t[3] == code {
            Some(PixelFormat::JPEG)
        } else {
            None
        }
    }

    /// The pixel format used when none is configured.
    pub open spec fn spec_default() -> PixelFormat {
        PixelFormat::JPEG
    }

    /// The position of the variant in declaration order.
    pub fn index(&self) -> (r: usize)
        ensures
            r == self.spec_index(),
    {
        match self {
            PixelFormat::GRAYSCALE => 0,
            PixelFormat::RGB565 => 1,
            PixelFormat::YUV422 => 2,
            PixelFormat::JPEG => 3,
        }
    }

    /// Encodes the variant as the driver's numeric code.
    pub fn code(&self, codes: &DriverCodes) -> (r: u32)
        ensures
            r == self.spec_code(*codes),
    {
        codes.pixel_formats[self.index()]
    }

    /// Decodes a driver code; a code outside the table is an error, never a default.
    pub fn from_code(code: u32, codes: &DriverCodes) -> (r: Result<PixelFormat, UnknownCode>)
        ensures
            match Self::spec_from_code(*codes, code) {
                Some(v) => r == Ok::<PixelFormat, UnknownCode>(v),
                None => r == Err::<PixelFormat, UnknownCode>(UnknownCode(code)),
            },
            r is Ok <==> codes.pixel_formats@.contains(code),
    {
        let t = &codes.pixel_formats;
        if t[0] == code {
            Ok(PixelFormat::GRAYSCALE)
        } else if t[1] == code {
            Ok(PixelFormat::RGB565)
        } else if t[2] == code {
            Ok(PixelFormat::YUV422)
        } else if t[3] == code {
            Ok(PixelFormat::JPEG)
        } else {
            assert(!codes.pixel_formats@.contains(code)) by {
                assert(forall|i: int| 0 <= i < 4 ==> codes.pixel_formats@[i] != code);
            }
            Err(UnknownCode(code))
        }
    }
}

impl Default for PixelFormat {
    fn default() -> (r: PixelFormat)
        ensures
            r == PixelFormat::spec_default(),
    {
        PixelFormat::JPEG
    }
}

/// With a table whose codes are distinct, decoding the code of any pixel format
/// gives that pixel format back.
pub proof fn lemma_pixel_format_round_trip(codes: DriverCodes, v: PixelFormat)
    requires
        codes.wf(),
    ensures
        PixelFormat::spec_from_code(codes, v.spec_code(codes)) == Some(v),
{
    let t = codes.pixel_formats@;
    assert(forall|j: int| 0 <= j < 4 && j != v.spec_index() ==> #[trigger] t[j] != t[v.spec_index()]);
}

/// Every code in the table names the pixel format whose code it is; no other code names one.
pub proof fn lemma_pixel_format_codes_total(codes: DriverCodes, code: u32)
    requires
        codes.wf(),
    ensures
        codes.pixel_formats@.contains(code) ==> (PixelFormat::spec_from_code(codes, code) matches Some(v) && v.spec_code(codes) == code),
        !codes.pixel_formats@.contains(code) ==> PixelFormat::spec_from_code(codes, code) is None,
{
    let t = codes.pixel_formats@;
    if !t.contains(code) {
        assert(forall|i: int| 0 <= i < 4 ==> t[i] != code);
    }
}

} // verus!
