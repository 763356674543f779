use vstd::prelude::*;
use crate::driver_codes::DriverCodes;
use crate::frame_size::FrameSize;
use crate::packet::{frame_payload, spec_payload, ProtocolError};
use crate::pixel_format::PixelFormat;

verus! {

/// A command in the zero-based framing: tags 0 capture, 1 pixel format,
/// 2 frame size, 3 restart, in the same five-byte frame.
#[derive(Debug, Clone, Copy, PartialEq, Eq, Structural)]
pub enum Instruction {
    Capture,
    Format(PixelFormat),
    Resolution(FrameSize),
    Restart,
}

/// A reply in the zero-based framing.
#[derive(Debug, PartialEq, Eq)]
pub enum InstructionResult {
    Capture(Vec<u8>),
    Format(bool),
    Resolution(bool),
    Restart(bool),
}

/// The instruction a five-byte frame of the zero-based framing stands for under
/// the driver's code table.
pub open spec fn spec_decode_instruction(codes: DriverCodes, frame: Seq<u8>) -> Result<Instruction, ProtocolError> {
    let tag = frame[0];
    let code = spec_payload(frame);
    if tag == 0 {
        Ok(Instruction::Capture)
    } else if tag == 1 {
        match PixelFormat::spec_from_code(codes, code) {
            Some(p) => Ok(Instruction::Format(p)),
            None => Err(ProtocolError::InvalidPayload(code)),
        }
    } else if tag == 2 {
        match FrameSize::spec_from_code(codes, code) {
            Some(f) => Ok(Instruction::Resolution(f)),
            None => Err(ProtocolError::InvalidPayload(code)),
        }
    } else if tag == 3 {
        Ok(Instruction::Restart)
    } else {
        Err(ProtocolError::UnknownTag(tag))
    }
}

impl Instruction {
    /// Decodes one frame of the zero-based framing; unknown tags and payloads
    /// that are no code of the driver's table are errors.
    pub fn decode(frame: &[u8; 5], codes: &DriverCodes) -> (r: Result<Instruction, ProtocolError>)
        ensures
            r == spec_decode_instruction(*codes, frame@),
    {
        let tag = frame[0];
        if tag == 0 {
            Ok(Instruction::Capture)
        } else if tag == 1 {
            let code = frame_payload(frame);
            match PixelFormat::from_code(code, codes) {
                Ok(p) => Ok(Instruction::Format(p)),
                Err(_) => Err(ProtocolError::InvalidPayload(code)),
            }
        } else if tag == 2 {
            let code = frame_payload(frame);
            match FrameSize::from_code(code, codes) {
                Ok(f) => Ok(Instruction::Resolution(f)),
                Err(_) => Err(ProtocolError::InvalidPayload(code)),
            }
        } else if tag == 3 {
            Ok(Instruction::Restart)
        } else {
            Err(ProtocolError::UnknownTag(tag))
        }
    }
}

} // verus!
