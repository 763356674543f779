use vstd::prelude::*;
use crate::driver_codes::DriverCodes;
use crate::pixel_format::UnknownCode;

verus! {

/// Resolutions the image sensor supports, from smallest to largest.
#[derive(Debug, Clone, Copy, PartialEq, Eq, Structural)]
pub enum FrameSize {
    /// Quarter quarter VGA, 160 x 120, about 28.8 kbps.
    QQVGA,
    /// Quarter common intermediate format, 176 x 144, about 38 kbps.
    QCIF,
    /// Quarter VGA, 320 x 240, about 115.2 kbps.
    QVGA,
    /// Common intermediate format, 352 x 288, about 152 kbps.
    CIF,
    /// Video graphics array, 640 x 480, about 460.8 kbps.
    VGA,
    /// Super VGA, 800 x 600, about 720 kbps.
    SVGA,
    /// Extended graphics array, 1024 x 768, about 1.18 Mbps.
    XGA,
    /// Super extended graphics array, 1280 x 1024, about 1.97 Mbps.
    SXGA,
    /// Ultra extended graphics array, 1600 x 1200, about 2.88 Mbps.
    UXGA,
}

impl FrameSize {
    /// The position of the variant in declaration order, which is also its
    /// entry in the driver's code table.
    pub open spec fn spec_index(self) -> int {
        match self {
            FrameSize::QQVGA => 0,
            FrameSize::QCIF => 1,
            FrameSize::QVGA => 2,
            FrameSize::CIF => 3,
            FrameSize::VGA => 4,
            FrameSize::SVGA => 5,
            FrameSize::XGA => 6,
            FrameSize::SXGA => 7,
            FrameSize::UXGA => 8,
        }
    }

    /// The driver's code for the variant.
    pub open spec fn spec_code(self, codes: DriverCodes) -> u32 {
        codes.frame_sizes@[self.spec_index()]
    }

    /// The variant whose driver code is `code`, if any.
    pub open spec fn spec_from_code(codes: DriverCodes, code: u32) -> Option<FrameSize> {
        let t = codes.frame_sizes@;
        if t[0] == code {
            Some(FrameSize::QQVGA)
        } else if t[1] == code {
            Some(FrameSize::QCIF)
        } else if t[2] == code {
            Some(FrameSize::QVGA)
        } else if t[3] == code {
            Some(FrameSize::CIF)
        } else if t[4] == code {
            Some(FrameSize::VGA)
        } else if t[5] == code {
            Some(FrameSize::SVGA)
        } else if t[6] == code {
            Some(FrameSize::XGA)
        } else if t[7] == code {
            Some(FrameSize::SXGA)
        } else if t[8] == code {
            Some(FrameSize::UXGA)
        } else {
            None
        }
    }

    /// The frame size used when none is configured.
    pub open spec fn spec_default() -> FrameSize {
        FrameSize::SVGA
    }

    /// The position of the variant in declaration order.
    pub fn index(&self) -> (r: usize)
        ensures
            r == self.spec_index(),
    {
        match self {
            FrameSize::QQVGA => 0,
            FrameSize::QCIF => 1,
            FrameSize::QVGA => 2,
            FrameSize::CIF => 3,
            FrameSize::VGA => 4,
            FrameSize::SVGA => 5,
            FrameSize::XGA => 6,
            FrameSize::SXGA => 7,
            FrameSize::UXGA => 8,
        }
    }

    /// Encodes the variant as the driver's numeric code.
    pub fn code(&self, codes: &DriverCodes) -> (r: u32)
        ensures
            r == self.spec_code(*codes),
    {
        codes.frame_sizes[self.index()]
    }

    /// Decodes a driver code; a code outside the table is an error, never a default.
    pub fn from_code(code: u32, codes: &DriverCodes) -> (r: Result<FrameSize, UnknownCode>)
        ensures
            match Self::spec_from_code(*codes, code) {
                Some(v) => r == Ok::<FrameSize, UnknownCode>(v),
                None => r == Err::<FrameSize, UnknownCode>(UnknownCode(code)),
            },
            r is Ok <==> codes.frame_sizes@.contains(code),
    {
        let t = &codes.frame_sizes;
        if t[0] == code {
            Ok(FrameSize::QQVGA)
        } else if t[1] == code {
            Ok(FrameSize::QCIF)
        } else if t[2] == code {
            Ok(FrameSize::QVGA)
        } else if t[3] == code {
            Ok(FrameSize::CIF)
        } else if t[4] == code {
            Ok(FrameSize::VGA)
        } else if t[5] == code {
            Ok(FrameSize::SVGA)
        } else if t[6] == code {
            Ok(FrameSize::XGA)
        } else if t[7] == code {
            Ok(FrameSize::SXGA)
        } else if t[8] == code {
            Ok(FrameSize::UXGA)
        } else {
            assert(!codes.frame_sizes@.contains(code)) by {
                assert(forall|i: int| 0 <= i < 9 ==> codes.frame_sizes@[i] != code);
            }
            Err(UnknownCode(code))
        }
    }
}

impl Default for FrameSize {
    fn default() -> (r: FrameSize)
        ensures
            r == FrameSize::spec_default(),
    {
        FrameSize::SVGA
    }
}

/// With a table whose codes are distinct, decoding the code of any frame size
/// gives that frame size back.
pub proof fn lemma_frame_size_round_trip(codes: DriverCodes, v: FrameSize)
    requires
        codes.wf(),
    ensures
        FrameSize::spec_from_code(codes, v.spec_code(codes)) == Some(v),
{
    let t = codes.frame_sizes@;
    assert(forall|j: int| 0 <= j < 9 && j != v.spec_index() ==> #[trigger] t[j] != t[v.spec_index()]);
}

/// Every code in the table names the frame size whose code it is; no other code names one.
pub proof fn lemma_frame_size_codes_total(codes: DriverCodes, code: u32)
    requires
        codes.wf(),
    ensures
        codes.frame_sizes@.contains(code) ==> (FrameSize::spec_from_code(codes, code) matches Some(v) && v.spec_code(codes) == code),
        !codes.frame_sizes@.contains(code) ==> FrameSize::spec_from_code(codes, code) is None,
{
    let t = codes.frame_sizes@;
    if !t.contains(code) {
        assert(forall|i: int| 0 <= i < 9 ==> t[i] != code);
    }
}

} // verus!
