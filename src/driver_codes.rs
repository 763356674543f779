use vstd::prelude::*;

verus! {

/// Whether no two entries of a sequence are equal.
pub open spec fn spec_distinct(s: Seq<u32>) -> bool {
    forall|i: int, j: int| 0 <= i < s.len() && 0 <= j < s.len() && i != j ==> s[i] != s[j]
}

/// The camera driver's numeric codes, one per variant in declaration order:
/// `pixel_formats` for GRAYSCALE, RGB565, YUV422, JPEG and `frame_sizes` for
/// QQVGA up to UXGA. The driver defines these numbers; the library only
/// reads wire payloads and settings against them.
#[derive(Debug, Clone, Copy, PartialEq, Eq)]
pub struct DriverCodes {
    pub pixel_formats: [u32; 4],
    pub frame_sizes: [u32; 9],
}

impl DriverCodes {
    /// Each code names one variant only.
    pub open spec fn wf(self) -> bool {
        &&& spec_distinct(self.pixel_formats@)
        &&& spec_distinct(self.frame_sizes@)
    }

    /// Takes the driver's tables, or `None` when a code repeats within one.
    pub fn checked(pixel_formats: [u32; 4], frame_sizes: [u32; 9]) -> (r: Option<DriverCodes>)
        ensures
            r is Some <==> spec_distinct(pixel_formats@) && spec_distinct(frame_sizes@),
            r matches Some(c) ==> c.pixel_formats == pixel_formats && c.frame_sizes == frame_sizes
                && c.wf(),
    {
        if distinct(&pixel_formats) && distinct(&frame_sizes) {
            Some(DriverCodes { pixel_formats, frame_sizes })
        } else {
            None
        }
    }
}

/// Whether no two entries of an array are equal.
pub fn distinct<const N: usize>(t: &[u32; N]) -> (r: bool)
    ensures
        r == spec_distinct(t@),
{
    let mut i: usize = 0;
    while i < N
        invariant
            0 <= i <= N,
            t@.len() == N,
            forall|a: int, b: int| 0 <= a < i && 0 <= b < N && a != b ==> t@[a] != t@[b],
        decreases N - i,
    {
        let mut j: usize = 0;
        while j < N
            invariant
                0 <= i < N,
                0 <= j <= N,
                t@.len() == N,
                forall|a: int, b: int| 0 <= a < i && 0 <= b < N && a != b ==> t@[a] != t@[b],
                forall|b: int| 0 <= b < j && b != i ==> t@[i as int] != t@[b],
            decreases N - j,
        {
            if j != i && t[j] == t[i] {
                assert(t@[i as int] == t@[j as int]);
                return false;
            }
            j += 1;
        }
        i += 1;
    }
    true
}

} // verus!
