use vstd::prelude::*;
use base64::Engine;

verus! {

/// The padded, standard-alphabet base64 text of a byte sequence.
pub uninterp spec fn base64_standard(bytes: Seq<u8>) -> Seq<char>;

/// Relies on base64's `engine::general_purpose::STANDARD.encode`: padded text
/// in the standard alphabet, four characters for each started group of three
/// bytes. Its length computation panics on overflow, which the bound excludes.
#[verifier::external_body]
fn base64_encode(bytes: &Vec<u8>) -> (r: String)
    requires
        bytes@.len() <= usize::MAX / 2,
    ensures
        r@ == base64_standard(bytes@),
        r@.len() == 4 * ((bytes@.len() + 2) / 3),
{
    base64::engine::general_purpose::STANDARD.encode(bytes)
}

/// What is logged about a captured frame when debugging: its size in whole
/// kibibytes and its bytes as base64 text.
#[derive(Debug, PartialEq, Eq)]
pub struct FrameReport {
    pub size_kib: usize,
    pub base64: String,
}

/// Builds the debug report of a captured frame.
pub fn frame_report(image: &Vec<u8>) -> (r: FrameReport)
    requires
        image@.len() <= usize::MAX / 2,
    ensures
        r.size_kib == image@.len() / 1024,
        r.base64@ == base64_standard(image@),
        r.base64@.len() == 4 * ((image@.len() + 2) / 3),
{
    FrameReport { size_kib: image.len() / 1024, base64: base64_encode(image) }
}

} // verus!
