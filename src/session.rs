use vstd::prelude::*;
use crate::driver_codes::DriverCodes;
use crate::camera::{CameraSensor, CameraView, FrameBuffer, HookOutcome};
use crate::frame_size::FrameSize;
use crate::packet::{
    spec_decode, spec_flag, IncomingPacket, OutgoingPacket, TAG_CAPTURE, TAG_SET_FRAME_SIZE,
    TAG_SET_PIXEL_FORMAT,
};
use crate::pixel_format::PixelFormat;

verus! {

/// What the dispatcher is waiting for.
#[derive(Debug, Clone, Copy, PartialEq, Eq, Structural)]
pub enum Phase {
    /// Ready for the next five-byte request.
    Idle,
    /// Waiting for the driver's frame buffer.
    AwaitFrame,
    /// Waiting for the frame buffer to be handed back to the driver.
    AwaitRelease,
    /// Waiting for the live frame-size entry point's outcome.
    AwaitFrameSize(FrameSize),
    /// Waiting for the live pixel-format entry point's outcome.
    AwaitPixelFormat(PixelFormat),
    /// A restart was requested; nothing more is served.
    Restarting,
}

/// The next thing the surrounding program must do, and report back.
#[derive(Debug, PartialEq, Eq)]
pub enum Action {
    /// Ask the driver for its frame buffer; report with [`Session::on_frame`].
    FetchFrame,
    /// Hand the frame buffer back to the driver; report with [`Session::on_frame_returned`].
    ReturnFrame,
    /// Call the driver's live frame-size entry point; report with [`Session::on_hook`].
    ApplyFrameSize(FrameSize),
    /// Call the driver's live pixel-format entry point; report with [`Session::on_hook`].
    ApplyPixelFormat(PixelFormat),
    /// Restart the process; no reply is ever written.
    Restart,
    /// Write these bytes to the peer; the request is then served.
    Reply(Vec<u8>),
    /// Close the connection without writing anything.
    Abandon,
}

/// The abstract state of a dispatcher.
pub struct SessionView {
    pub camera: CameraView,
    /// The driver's code table that requests are read against.
    pub codes: DriverCodes,
    pub phase: Phase,
    /// The frame leased from the driver, while one is.
    pub held: Option<Seq<u8>>,
}

impl SessionView {
    /// A lease is out exactly while the dispatcher waits to hand it back, and
    /// the camera's frame ledger is balanced.
    pub open spec fn wf(self) -> bool {
        &&& self.camera.frame_held <==> self.phase == Phase::AwaitRelease
        &&& self.held is Some <==> self.phase == Phase::AwaitRelease
        &&& self.camera.balanced()
    }
}

/// The reply bytes that acknowledge a configuration command.
pub open spec fn spec_ack(tag: u8, ok: bool) -> Seq<u8> {
    seq![tag, spec_flag(ok)]
}

/// Serves one request at a time for the single camera session.
pub struct Session {
    camera: CameraSensor,
    codes: DriverCodes,
    phase: Phase,
    held: Option<FrameBuffer>,
}

impl View for Session {
    type V = SessionView;

    closed spec fn view(&self) -> SessionView {
        SessionView {
            camera: self.camera@,
            codes: self.codes,
            phase: self.phase,
            held: match self.held {
                Some(fb) => Some(fb@),
                None => None,
            },
        }
    }
}

impl Session {
    /// Starts serving with a camera that has no frame leased, reading requests
    /// against the driver's code table.
    pub fn new(camera: CameraSensor, codes: DriverCodes) -> (r: Session)
        requires
            !camera@.frame_held,
            camera@.balanced(),
        ensures
            r@.camera == camera@,
            r@.codes == codes,
            r@.phase == Phase::Idle,
            r@.wf(),
    {
        Session { camera, codes, phase: Phase::Idle, held: None }
    }

    pub fn camera(&self) -> (r: &CameraSensor)
        ensures
            r@ == self@.camera,
    {
        &self.camera
    }

    pub fn phase(&self) -> (r: Phase)
        ensures
            r == self@.phase,
    {
        self.phase
    }

    /// Takes one five-byte request while idle. A frame that does not decode is
    /// abandoned with no reply; a command starts the driver work it needs.
    pub fn on_request(&mut self, frame: &[u8; 5]) -> (r: Action)
        requires
            old(self)@.wf(),
            old(self)@.phase == Phase::Idle,
        ensures
            final(self)@.wf(),
            final(self)@.camera == old(self)@.camera,
            final(self)@.codes == old(self)@.codes,
            final(self)@.held == old(self)@.held,
            match spec_decode(old(self)@.codes, frame@) {
                Err(_) => r == Action::Abandon && final(self)@.phase == Phase::Idle,
                Ok(IncomingPacket::Capture) => r == Action::FetchFrame
                    && final(self)@.phase == Phase::AwaitFrame,
                Ok(IncomingPacket::SetFrameSize(f)) => r == Action::ApplyFrameSize(f)
                    && final(self)@.phase == Phase::AwaitFrameSize(f),
                Ok(IncomingPacket::SetPixelFormat(p)) => r == Action::ApplyPixelFormat(p)
                    && final(self)@.phase == Phase::AwaitPixelFormat(p),
                Ok(IncomingPacket::Restart) => r == Action::Restart
                    && final(self)@.phase == Phase::Restarting,
            },
    {
        match IncomingPacket::decode(frame, &self.codes) {
            Err(_) => Action::Abandon,
            Ok(IncomingPacket::Capture) => {
                self.phase = Phase::AwaitFrame;
                Action::FetchFrame
            },
            Ok(IncomingPacket::SetFrameSize(f)) => {
                self.phase = Phase::AwaitFrameSize(f);
                Action::ApplyFrameSize(f)
            },
            Ok(IncomingPacket::SetPixelFormat(p)) => {
                self.phase = Phase::AwaitPixelFormat(p);
                Action::ApplyPixelFormat(p)
            },
            Ok(IncomingPacket::Restart) => {
                self.phase = Phase::Restarting;
                Action::Restart
            },
        }
    }

    /// Takes what the driver handed out for a capture: the frame's bytes, or
    /// `None` when it had no buffer. A frame is leased and must be handed back
    /// before the reply; without one the reply is the bare capture tag.
    pub fn on_frame(&mut self, fetched: Option<Vec<u8>>) -> (r: Action)
        requires
            old(self)@.wf(),
            old(self)@.phase == Phase::AwaitFrame,
        ensures
            final(self)@.wf(),
            final(self)@.camera.pixel_format == old(self)@.camera.pixel_format,
            final(self)@.camera.frame_size == old(self)@.camera.frame_size,
            final(self)@.camera.dvp_pins == old(self)@.camera.dvp_pins,
            final(self)@.camera.released == old(self)@.camera.released,
            fetched matches Some(b) ==> {
                &&& r == Action::ReturnFrame
                &&& final(self)@.phase == Phase::AwaitRelease
                &&& final(self)@.held == Some(b@)
                &&& final(self)@.camera.acquired == old(self)@.camera.acquired + 1
            },
            fetched is None ==> {
                &&& r matches Action::Reply(bytes) && bytes@ == seq![TAG_CAPTURE]
                &&& final(self)@.phase == Phase::Idle
                &&& final(self)@.camera == old(self)@.camera
            },
    {
        match self.camera.capture_image(fetched) {
            Ok(fb) => {
                self.held = Some(fb);
                self.phase = Phase::AwaitRelease;
                Action::ReturnFrame
            },
            Err(_) => {
                self.phase = Phase::Idle;
                let empty: Vec<u8> = Vec::new();
                let bytes = OutgoingPacket::Capture(empty).encode();
                assert(bytes@ =~= seq![TAG_CAPTURE]);
                Action::Reply(bytes)
            },
        }
    }

    /// Takes the news that the frame buffer is back with the driver, and
    /// replies with the capture tag followed by the frame's bytes.
    pub fn on_frame_returned(&mut self) -> (r: Action)
        requires
            old(self)@.wf(),
            old(self)@.phase == Phase::AwaitRelease,
        ensures
            final(self)@.wf(),
            final(self)@.phase == Phase::Idle,
            final(self)@.held is None,
            !final(self)@.camera.frame_held,
            final(self)@.camera.acquired == old(self)@.camera.acquired,
            final(self)@.camera.released == old(self)@.camera.released + 1,
            final(self)@.camera.pixel_format == old(self)@.camera.pixel_format,
            final(self)@.camera.frame_size == old(self)@.camera.frame_size,
            final(self)@.camera.dvp_pins == old(self)@.camera.dvp_pins,
            old(self)@.held matches Some(b) && r matches Action::Reply(bytes)
                && bytes@ == seq![TAG_CAPTURE] + b,
    {
        let held = self.held.take();
        match held {
            Some(fb) => {
                let data = self.camera.release_frame(fb);
                self.phase = Phase::Idle;
                Action::Reply(OutgoingPacket::Capture(data).encode())
            },
            None => {
                proof {
                    assert(false);
                }
                Action::Abandon
            },
        }
    }

    /// Takes the outcome of the live frame-size or pixel-format entry point and
    /// replies with the command's tag and 1 on success, 0 otherwise. The
    /// recorded setting changes on success only.
    pub fn on_hook(&mut self, outcome: HookOutcome) -> (r: Action)
        requires
            old(self)@.wf(),
            old(self)@.phase is AwaitFrameSize || old(self)@.phase is AwaitPixelFormat,
        ensures
            final(self)@.wf(),
            final(self)@.phase == Phase::Idle,
            final(self)@.held == old(self)@.held,
            final(self)@.camera.dvp_pins == old(self)@.camera.dvp_pins,
            final(self)@.camera.same_ledger(old(self)@.camera),
            old(self)@.phase matches Phase::AwaitFrameSize(f) ==> {
                &&& r matches Action::Reply(bytes)
                    && bytes@ == spec_ack(TAG_SET_FRAME_SIZE, outcome == HookOutcome::Status(0))
                &&& final(self)@.camera.frame_size == if outcome == HookOutcome::Status(0) {
                    f
                } else {
                    old(self)@.camera.frame_size
                }
                &&& final(self)@.camera.pixel_format == old(self)@.camera.pixel_format
            },
            old(self)@.phase matches Phase::AwaitPixelFormat(p) ==> {
                &&& r matches Action::Reply(bytes)
                    && bytes@ == spec_ack(TAG_SET_PIXEL_FORMAT, outcome == HookOutcome::Status(0))
                &&& final(self)@.camera.pixel_format == if outcome == HookOutcome::Status(0) {
                    p
                } else {
                    old(self)@.camera.pixel_format
                }
                &&& final(self)@.camera.frame_size == old(self)@.camera.frame_size
            },
    {
        let bytes = match self.phase {
            Phase::AwaitFrameSize(f) => {
                let ok = self.camera.set_frame_size(f, outcome).is_ok();
                OutgoingPacket::SetFrameSize(ok).encode()
            },
            Phase::AwaitPixelFormat(p) => {
                let ok = self.camera.set_pixel_format(p, outcome).is_ok();
                OutgoingPacket::SetPixelFormat(ok).encode()
            },
            _ => {
                proof {
                    assert(false);
                }
                Vec::new()
            },
        };
        self.phase = Phase::Idle;
        Action::Reply(bytes)
    }
}

/// Frame-buffer balance: whenever the dispatcher is ready for a request, every
/// frame taken from the driver has been handed back exactly once; while a frame
/// is leased the dispatcher only waits for its return, so no second capture
/// can start before the release.
pub proof fn lemma_frame_balance(s: SessionView)
    requires
        s.wf(),
    ensures
        s.phase == Phase::Idle ==> s.camera.acquired == s.camera.released && !s.camera.frame_held,
        s.camera.frame_held ==> s.phase == Phase::AwaitRelease
            && s.camera.acquired == s.camera.released + 1,
        s.phase == Phase::AwaitFrame ==> s.camera.acquired == s.camera.released,
{
}

} // verus!
