use vstd::prelude::*;
use crate::driver_codes::DriverCodes;
use crate::frame_size::{lemma_frame_size_round_trip, FrameSize};
use crate::pixel_format::{lemma_pixel_format_round_trip, PixelFormat};

verus! {

/// Length of every inbound frame: one tag byte and four payload bytes.
pub const FRAME_LEN: usize = 5;

/// Tag of the capture command and its response.
pub const TAG_CAPTURE: u8 = 1;

/// Tag of the pixel-format command and its response.
pub const TAG_SET_PIXEL_FORMAT: u8 = 2;

/// Tag of the frame-size command and its response.
pub const TAG_SET_FRAME_SIZE: u8 = 3;

/// Tag of the restart command and its response.
pub const TAG_RESTART: u8 = 4;

/// A command received from the controlling peer.
#[derive(Debug, Clone, Copy, PartialEq, Eq, Structural)]
pub enum IncomingPacket {
    Capture,
    SetPixelFormat(PixelFormat),
    SetFrameSize(FrameSize),
    Restart,
}

/// Why an inbound frame was not a command.
#[derive(Debug, Clone, Copy, PartialEq, Eq, Structural)]
pub enum ProtocolError {
    /// The tag byte names no command.
    UnknownTag(u8),
    /// The payload is not a code of the enumeration the tag expects.
    InvalidPayload(u32),
}

/// A reply to the controlling peer; it carries the tag of the command it answers.
#[derive(Debug, PartialEq, Eq)]
pub enum OutgoingPacket {
    /// The image bytes of one captured frame.
    Capture(Vec<u8>),
    SetPixelFormat(bool),
    SetFrameSize(bool),
    Restart(bool),
}

/// The four payload bytes of a frame, read as a big-endian unsigned integer.
pub open spec fn spec_payload(frame: Seq<u8>) -> u32 {
    (frame[1] as int * 16777216 + frame[2] as int * 65536 + frame[3] as int * 256
        + frame[4] as int) as u32
}

/// The command a five-byte frame stands for under the driver's code table, or
/// why it stands for none.
pub open spec fn spec_decode(codes: DriverCodes, frame: Seq<u8>) -> Result<IncomingPacket, ProtocolError> {
    let tag = frame[0];
    let code = spec_payload(frame);
    if tag == TAG_CAPTURE {
        Ok(IncomingPacket::Capture)
    } else if tag == TAG_SET_PIXEL_FORMAT {
        match PixelFormat::spec_from_code(codes, code) {
            Some(p) => Ok(IncomingPacket::SetPixelFormat(p)),
            None => Err(ProtocolError::InvalidPayload(code)),
        }
    } else if tag == TAG_SET_FRAME_SIZE {
        match FrameSize::spec_from_code(codes, code) {
            Some(f) => Ok(IncomingPacket::SetFrameSize(f)),
            None => Err(ProtocolError::InvalidPayload(code)),
        }
    } else if tag == TAG_RESTART {
        Ok(IncomingPacket::Restart)
    } else {
        Err(ProtocolError::UnknownTag(tag))
    }
}

/// The byte that acknowledges a configuration or control command.
pub open spec fn spec_flag(ok: bool) -> u8 {
    if ok { 1 } else { 0 }
}

/// Reads the payload of a frame as a big-endian unsigned integer.
pub fn frame_payload(frame: &[u8; 5]) -> (r: u32)
    ensures
        r == spec_payload(frame@),
{
    let b1 = frame[1] as u32;
    let b2 = frame[2] as u32;
    let b3 = frame[3] as u32;
    let b4 = frame[4] as u32;
    b1 * 16777216 + b2 * 65536 + b3 * 256 + b4
}

impl IncomingPacket {
    /// The tag byte that identifies the command on the wire.
    pub open spec fn spec_tag(self) -> u8 {
        match self {
            IncomingPacket::Capture => TAG_CAPTURE,
            IncomingPacket::SetPixelFormat(_) => TAG_SET_PIXEL_FORMAT,
            IncomingPacket::SetFrameSize(_) => TAG_SET_FRAME_SIZE,
            IncomingPacket::Restart => TAG_RESTART,
        }
    }

    /// Decodes one inbound frame against the driver's code table. Unknown tags
    /// and payloads that are no code of the table are errors; a payload is never
    /// replaced by a default.
    pub fn decode(frame: &[u8; 5], codes: &DriverCodes) -> (r: Result<IncomingPacket, ProtocolError>)
        ensures
            r == spec_decode(*codes, frame@),
    {
        let tag = frame[0];
        if tag == TAG_CAPTURE {
            Ok(IncomingPacket::Capture)
        } else if tag == TAG_SET_PIXEL_FORMAT {
            let code = frame_payload(frame);
            match PixelFormat::from_code(code, codes) {
                Ok(p) => Ok(IncomingPacket::SetPixelFormat(p)),
                Err(_) => Err(ProtocolError::InvalidPayload(code)),
            }
        } else if tag == TAG_SET_FRAME_SIZE {
            let code = frame_payload(frame);
            match FrameSize::from_code(code, codes) {
                Ok(f) => Ok(IncomingPacket::SetFrameSize(f)),
                Err(_) => Err(ProtocolError::InvalidPayload(code)),
            }
        } else if tag == TAG_RESTART {
            Ok(IncomingPacket::Restart)
        } else {
            Err(ProtocolError::UnknownTag(tag))
        }
    }
}

impl OutgoingPacket {
    /// The tag byte that leads the response on the wire.
    pub open spec fn spec_tag(&self) -> u8 {
        match self {
            OutgoingPacket::Capture(_) => TAG_CAPTURE,
            OutgoingPacket::SetPixelFormat(_) => TAG_SET_PIXEL_FORMAT,
            OutgoingPacket::SetFrameSize(_) => TAG_SET_FRAME_SIZE,
            OutgoingPacket::Restart(_) => TAG_RESTART,
        }
    }

    /// The bytes that carry the response: its tag, then the image bytes of a
    /// capture or one acknowledgement byte for the other responses.
    pub open spec fn spec_bytes(&self) -> Seq<u8> {
        match self {
            OutgoingPacket::Capture(data) => seq![TAG_CAPTURE] + data@,
            OutgoingPacket::SetPixelFormat(ok) => seq![TAG_SET_PIXEL_FORMAT, spec_flag(*ok)],
            OutgoingPacket::SetFrameSize(ok) => seq![TAG_SET_FRAME_SIZE, spec_flag(*ok)],
            OutgoingPacket::Restart(ok) => seq![TAG_RESTART, spec_flag(*ok)],
        }
    }

    /// Encodes the response; encoding always succeeds.
    pub fn encode(self) -> (r: Vec<u8>)
        ensures
            r@ == self.spec_bytes(),
            r@.len() >= 1,
            r@[0] == self.spec_tag(),
    {
        let mut bytes: Vec<u8> = Vec::new();
        match self {
            OutgoingPacket::Capture(mut data) => {
                bytes.push(TAG_CAPTURE);
                bytes.append(&mut data);
            },
            OutgoingPacket::SetPixelFormat(ok) => {
                bytes.push(TAG_SET_PIXEL_FORMAT);
                bytes.push(if ok { 1 } else { 0 });
            },
            OutgoingPacket::SetFrameSize(ok) => {
                bytes.push(TAG_SET_FRAME_SIZE);
                bytes.push(if ok { 1 } else { 0 });
            },
            OutgoingPacket::Restart(ok) => {
                bytes.push(TAG_RESTART);
                bytes.push(if ok { 1 } else { 0 });
            },
        }
        assert(bytes@ =~= self.spec_bytes());
        bytes
    }
}

/// A frame whose tag is one of the four commands decodes without error whenever
/// its payload is well formed: any payload for capture and restart, a code of the
/// driver's table for the two configuration commands.
pub proof fn lemma_known_tag_decodes(codes: DriverCodes, frame: Seq<u8>)
    requires
        frame.len() == FRAME_LEN,
        frame[0] == TAG_CAPTURE || frame[0] == TAG_RESTART
            || (frame[0] == TAG_SET_PIXEL_FORMAT && codes.pixel_formats@.contains(spec_payload(frame)))
            || (frame[0] == TAG_SET_FRAME_SIZE && codes.frame_sizes@.contains(spec_payload(frame))),
    ensures
        spec_decode(codes, frame) matches Ok(cmd) && cmd.spec_tag() == frame[0],
{
    let code = spec_payload(frame);
    if frame[0] == TAG_SET_PIXEL_FORMAT {
        let i = choose|i: int| 0 <= i < 4 && codes.pixel_formats@[i] == code;
    }
    if frame[0] == TAG_SET_FRAME_SIZE {
        let i = choose|i: int| 0 <= i < 9 && codes.frame_sizes@[i] == code;
    }
}

/// A frame whose tag is none of the four commands always fails with that tag.
pub proof fn lemma_unknown_tag_rejected(codes: DriverCodes, frame: Seq<u8>)
    requires
        frame.len() == FRAME_LEN,
        frame[0] != TAG_CAPTURE,
        frame[0] != TAG_SET_PIXEL_FORMAT,
        frame[0] != TAG_SET_FRAME_SIZE,
        frame[0] != TAG_RESTART,
    ensures
        spec_decode(codes, frame) == Err::<IncomingPacket, ProtocolError>(ProtocolError::UnknownTag(frame[0])),
{
}

/// A configuration frame whose payload is no code of the driver's table fails
/// with that payload; no default value is put in its place.
pub proof fn lemma_invalid_payload_rejected(codes: DriverCodes, frame: Seq<u8>)
    requires
        frame.len() == FRAME_LEN,
        (frame[0] == TAG_SET_PIXEL_FORMAT && !codes.pixel_formats@.contains(spec_payload(frame)))
            || (frame[0] == TAG_SET_FRAME_SIZE && !codes.frame_sizes@.contains(spec_payload(frame))),
    ensures
        spec_decode(codes, frame) == Err::<IncomingPacket, ProtocolError>(
            ProtocolError::InvalidPayload(spec_payload(frame)),
        ),
{
    let code = spec_payload(frame);
    assert(forall|i: int| 0 <= i < 4 && frame[0] == TAG_SET_PIXEL_FORMAT ==> codes.pixel_formats@[i] != code);
    assert(forall|i: int| 0 <= i < 9 && frame[0] == TAG_SET_FRAME_SIZE ==> codes.frame_sizes@[i] != code);
}

/// With a table whose codes are distinct, a configuration frame that carries the
/// driver's code of a setting decodes to the command for exactly that setting.
pub proof fn lemma_setting_frame_round_trip(codes: DriverCodes, frame: Seq<u8>, p: PixelFormat, f: FrameSize)
    requires
        codes.wf(),
        frame.len() == FRAME_LEN,
    ensures
        frame[0] == TAG_SET_PIXEL_FORMAT && spec_payload(frame) == p.spec_code(codes)
            ==> spec_decode(codes, frame) == Ok::<IncomingPacket, ProtocolError>(IncomingPacket::SetPixelFormat(p)),
        frame[0] == TAG_SET_FRAME_SIZE && spec_payload(frame) == f.spec_code(codes)
            ==> spec_decode(codes, frame) == Ok::<IncomingPacket, ProtocolError>(IncomingPacket::SetFrameSize(f)),
{
    lemma_pixel_format_round_trip(codes, p);
    lemma_frame_size_round_trip(codes, f);
}

} // verus!
