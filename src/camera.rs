use vstd::prelude::*;
use crate::boards::DvpPins;
use crate::frame_size::FrameSize;
use crate::pixel_format::PixelFormat;

verus! {

/// Master clock frequency handed to the driver at initialisation, in hertz.
pub const XCLK_FREQ_HZ: i32 = 20000000;

/// JPEG quality handed to the driver at initialisation (lower is finer).
pub const DEFAULT_JPEG_QUALITY: i32 = 12;

/// Number of frame-buffer slots the driver is asked for.
pub const FRAME_BUFFER_COUNT: usize = 1;

/// LED-controller channels that can drive the sensor's master clock.
#[derive(Debug, Clone, Copy, PartialEq, Eq, Structural)]
pub enum LedcChannel {
    Channel0,
    Channel1,
    Channel2,
    Channel3,
    Channel4,
    Channel5,
    Channel6,
    Channel7,
}

impl LedcChannel {
    /// The channel's number.
    pub open spec fn spec_code(self) -> u32 {
        match self {
            LedcChannel::Channel0 => 0,
            LedcChannel::Channel1 => 1,
            LedcChannel::Channel2 => 2,
            LedcChannel::Channel3 => 3,
            LedcChannel::Channel4 => 4,
            LedcChannel::Channel5 => 5,
            LedcChannel::Channel6 => 6,
            LedcChannel::Channel7 => 7,
        }
    }

    /// Encodes the channel as the driver's numeric code.
    pub fn code(&self) -> (r: u32)
        ensures
            r == self.spec_code(),
    {
        match self {
            LedcChannel::Channel0 => 0,
            LedcChannel::Channel1 => 1,
            LedcChannel::Channel2 => 2,
            LedcChannel::Channel3 => 3,
            LedcChannel::Channel4 => 4,
            LedcChannel::Channel5 => 5,
            LedcChannel::Channel6 => 6,
            LedcChannel::Channel7 => 7,
        }
    }
}

/// LED-controller timers that can drive the sensor's master clock.
#[derive(Debug, Clone, Copy, PartialEq, Eq, Structural)]
pub enum LedcTimer {
    Timer0,
    Timer1,
    Timer2,
    Timer3,
}

impl LedcTimer {
    /// The timer's number.
    pub open spec fn spec_code(self) -> u32 {
        match self {
            LedcTimer::Timer0 => 0,
            LedcTimer::Timer1 => 1,
            LedcTimer::Timer2 => 2,
            LedcTimer::Timer3 => 3,
        }
    }

    /// Encodes the timer as the driver's numeric code.
    pub fn code(&self) -> (r: u32)
        ensures
            r == self.spec_code(),
    {
        match self {
            LedcTimer::Timer0 => 0,
            LedcTimer::Timer1 => 1,
            LedcTimer::Timer2 => 2,
            LedcTimer::Timer3 => 3,
        }
    }
}

/// Everything the driver's initialisation call is given.
#[derive(Debug, Clone, Copy, PartialEq, Eq, Structural)]
pub struct DriverConfig {
    pub pins: DvpPins,
    pub pixel_format: PixelFormat,
    pub frame_size: FrameSize,
    pub xclk_freq_hz: i32,
    pub ledc_timer: LedcTimer,
    pub ledc_channel: LedcChannel,
    pub jpeg_quality: i32,
    pub fb_count: usize,
}

/// The initialisation request for a wiring, format and frame size: a 20 MHz
/// clock from timer 0 and channel 0, JPEG quality 12 and one frame-buffer slot.
pub open spec fn spec_driver_config(pins: DvpPins, pixel_format: PixelFormat, frame_size: FrameSize) -> DriverConfig {
    DriverConfig {
        pins,
        pixel_format,
        frame_size,
        xclk_freq_hz: XCLK_FREQ_HZ,
        ledc_timer: LedcTimer::Timer0,
        ledc_channel: LedcChannel::Channel0,
        jpeg_quality: DEFAULT_JPEG_QUALITY,
        fb_count: FRAME_BUFFER_COUNT,
    }
}

/// Builds the initialisation request; see [`spec_driver_config`].
pub fn driver_config(pins: DvpPins, pixel_format: PixelFormat, frame_size: FrameSize) -> (r: DriverConfig)
    ensures
        r == spec_driver_config(pins, pixel_format, frame_size),
{
    DriverConfig {
        pins,
        pixel_format,
        frame_size,
        xclk_freq_hz: XCLK_FREQ_HZ,
        ledc_timer: LedcTimer::Timer0,
        ledc_channel: LedcChannel::Channel0,
        jpeg_quality: DEFAULT_JPEG_QUALITY,
        fb_count: FRAME_BUFFER_COUNT,
    }
}

/// The driver refused to initialise; the status it reported is kept.
#[derive(Debug, Clone, Copy, PartialEq, Eq, Structural)]
pub enum InitError {
    DriverRejected(i32),
}

/// A live reconfiguration that did not take effect.
#[derive(Debug, Clone, Copy, PartialEq, Eq, Structural)]
pub enum ReconfigError {
    /// The active driver has no live entry point for this setting.
    Unsupported,
    /// The entry point ran and reported this nonzero status.
    Rejected(i32),
}

/// A capture that produced no frame.
#[derive(Debug, Clone, Copy, PartialEq, Eq, Structural)]
pub enum CaptureError {
    /// The driver had no frame buffer to hand out; a later retry may succeed.
    DriverEmpty,
}

/// What the driver's live-reconfiguration entry point reported.
#[derive(Debug, Clone, Copy, PartialEq, Eq, Structural)]
pub enum HookOutcome {
    /// The driver exposes no such entry point.
    Missing,
    /// The entry point ran and returned this status; zero is success.
    Status(i32),
}

/// The result a reconfiguration has for a hook outcome.
pub open spec fn spec_reconfig_result(outcome: HookOutcome) -> Result<(), ReconfigError> {
    match outcome {
        HookOutcome::Missing => Err(ReconfigError::Unsupported),
        HookOutcome::Status(s) => if s == 0 {
            Ok(())
        } else {
            Err(ReconfigError::Rejected(s))
        },
    }
}

fn reconfig_result(outcome: HookOutcome) -> (r: Result<(), ReconfigError>)
    ensures
        r == spec_reconfig_result(outcome),
{
    match outcome {
        HookOutcome::Missing => Err(ReconfigError::Unsupported),
        HookOutcome::Status(s) => if s == 0 {
            Ok(())
        } else {
            Err(ReconfigError::Rejected(s))
        },
    }
}

/// Identification of a sensor as its driver reports it.
#[derive(Debug, PartialEq, Eq)]
pub struct SensorInfo {
    pub pid: u16,
    pub name: String,
    pub max_frame_size: FrameSize,
}

/// A read-only copy of one frame taken from the driver's single buffer slot.
/// It is only made by [`CameraSensor::capture_image`] and only consumed by
/// [`CameraSensor::release_frame`], so each lease is released exactly once.
#[derive(Debug)]
pub struct FrameBuffer {
    data: Vec<u8>,
}

impl View for FrameBuffer {
    type V = Seq<u8>;

    closed spec fn view(&self) -> Seq<u8> {
        self.data@
    }
}

impl FrameBuffer {
    /// The image bytes of the frame.
    pub fn bytes(&self) -> (r: &Vec<u8>)
        ensures
            r@ == self@,
    {
        &self.data
    }

    /// The length of the frame in bytes.
    pub fn len(&self) -> (r: usize)
        ensures
            r == self@.len(),
    {
        self.data.len()
    }
}

/// The abstract state of the camera controller.
pub struct CameraView {
    pub pixel_format: PixelFormat,
    pub frame_size: FrameSize,
    pub dvp_pins: DvpPins,
    /// Whether a frame lease is outstanding.
    pub frame_held: bool,
    /// Frames taken from the driver so far.
    pub acquired: nat,
    /// Frames handed back to the driver so far.
    pub released: nat,
}

impl CameraView {
    /// Every frame taken has been handed back, except the one outstanding lease.
    pub open spec fn balanced(self) -> bool {
        self.acquired == self.released + if self.frame_held { 1nat } else { 0nat }
    }

    /// Same lease state and frame ledger.
    pub open spec fn same_ledger(self, other: CameraView) -> bool {
        &&& self.frame_held == other.frame_held
        &&& self.acquired == other.acquired
        &&& self.released == other.released
    }
}

/// The live camera session: the configuration applied to an initialised driver.
/// Only [`CameraSensor::new`] makes one, from a successful initialisation.
pub struct CameraSensor {
    pixel_format: PixelFormat,
    frame_size: FrameSize,
    dvp_pins: DvpPins,
    frame_held: bool,
    acquired: Ghost<nat>,
    released: Ghost<nat>,
}

impl View for CameraSensor {
    type V = CameraView;

    closed spec fn view(&self) -> CameraView {
        CameraView {
            pixel_format: self.pixel_format,
            frame_size: self.frame_size,
            dvp_pins: self.dvp_pins,
            frame_held: self.frame_held,
            acquired: self.acquired@,
            released: self.released@,
        }
    }
}

impl CameraSensor {
    /// The initialisation request for a wiring, with JPEG and SVGA where no
    /// format or frame size is given.
    pub fn config(pixel_format: Option<PixelFormat>, frame_size: Option<FrameSize>, dvp_pins: DvpPins) -> (r: DriverConfig)
        ensures
            r == spec_driver_config(
                dvp_pins,
                match pixel_format { Some(p) => p, None => PixelFormat::spec_default() },
                match frame_size { Some(f) => f, None => FrameSize::spec_default() },
            ),
    {
        let pixel_format = match pixel_format {
            Some(p) => p,
            None => PixelFormat::default(),
        };
        let frame_size = match frame_size {
            Some(f) => f,
            None => FrameSize::default(),
        };
        driver_config(dvp_pins, pixel_format, frame_size)
    }

    /// Opens the session once the driver has answered the initialisation
    /// request `config` with `init_status`; any nonzero status is fatal.
    pub fn new(config: &DriverConfig, init_status: i32) -> (r: Result<CameraSensor, InitError>)
        ensures
            init_status == 0 <==> r is Ok,
            init_status != 0 ==> r == Err::<CameraSensor, InitError>(InitError::DriverRejected(init_status)),
            r matches Ok(s) ==> {
                &&& s@.pixel_format == config.pixel_format
                &&& s@.frame_size == config.frame_size
                &&& s@.dvp_pins == config.pins
                &&& !s@.frame_held
                &&& s@.acquired == 0
                &&& s@.released == 0
                &&& s@.balanced()
            },
    {
        if init_status == 0 {
            Ok(CameraSensor {
                pixel_format: config.pixel_format,
                frame_size: config.frame_size,
                dvp_pins: config.pins,
                frame_held: false,
                acquired: Ghost(0),
                released: Ghost(0),
            })
        } else {
            Err(InitError::DriverRejected(init_status))
        }
    }

    pub fn pixel_format(&self) -> (r: PixelFormat)
        ensures
            r == self@.pixel_format,
    {
        self.pixel_format
    }

    pub fn frame_size(&self) -> (r: FrameSize)
        ensures
            r == self@.frame_size,
    {
        self.frame_size
    }

    pub fn dvp_pins(&self) -> (r: DvpPins)
        ensures
            r == self@.dvp_pins,
    {
        self.dvp_pins
    }

    /// Whether a frame lease is outstanding.
    pub fn frame_held(&self) -> (r: bool)
        ensures
            r == self@.frame_held,
    {
        self.frame_held
    }

    /// Records the outcome of the driver's live frame-size entry point, called
    /// with the code of `frame_size`. The recorded frame size changes on success only.
    pub fn set_frame_size(&mut self, frame_size: FrameSize, outcome: HookOutcome) -> (r: Result<(), ReconfigError>)
        ensures
            r == spec_reconfig_result(outcome),
            final(self)@.frame_size == if r is Ok { frame_size } else { old(self)@.frame_size },
            final(self)@.pixel_format == old(self)@.pixel_format,
            final(self)@.dvp_pins == old(self)@.dvp_pins,
            final(self)@.same_ledger(old(self)@),
    {
        let r = reconfig_result(outcome);
        if r.is_ok() {
            self.frame_size = frame_size;
        }
        r
    }

    /// Records the outcome of the driver's live pixel-format entry point, called
    /// with the code of `pixel_format`. Without such an entry point the result is
    /// `Unsupported`; re-initialising is then a separate step
    /// ([`CameraSensor::reinit_with_pixel_format`]).
    pub fn set_pixel_format(&mut self, pixel_format: PixelFormat, outcome: HookOutcome) -> (r: Result<(), ReconfigError>)
        ensures
            r == spec_reconfig_result(outcome),
            final(self)@.pixel_format == if r is Ok { pixel_format } else { old(self)@.pixel_format },
            final(self)@.frame_size == old(self)@.frame_size,
            final(self)@.dvp_pins == old(self)@.dvp_pins,
            final(self)@.same_ledger(old(self)@),
    {
        let r = reconfig_result(outcome);
        if r.is_ok() {
            self.pixel_format = pixel_format;
        }
        r
    }

    /// The initialisation request that re-creates the session with another
    /// pixel format, keeping its pins and frame size. No frame may be leased.
    pub fn reinit_config(&self, pixel_format: PixelFormat) -> (r: DriverConfig)
        requires
            !self@.frame_held,
        ensures
            r == spec_driver_config(self@.dvp_pins, pixel_format, self@.frame_size),
    {
        driver_config(self.dvp_pins, pixel_format, self.frame_size)
    }

    /// Records the driver's answer to [`CameraSensor::reinit_config`]. On
    /// success only the pixel format changes; on failure nothing does, and the
    /// driver's status is returned.
    pub fn reinit_with_pixel_format(&mut self, pixel_format: PixelFormat, init_status: i32) -> (r: Result<(), InitError>)
        requires
            !old(self)@.frame_held,
        ensures
            init_status == 0 <==> r is Ok,
            init_status != 0 ==> r == Err::<(), InitError>(InitError::DriverRejected(init_status)),
            final(self)@.pixel_format == if init_status == 0 { pixel_format } else { old(self)@.pixel_format },
            final(self)@.frame_size == old(self)@.frame_size,
            final(self)@.dvp_pins == old(self)@.dvp_pins,
            final(self)@.same_ledger(old(self)@),
    {
        if init_status == 0 {
            self.pixel_format = pixel_format;
            Ok(())
        } else {
            Err(InitError::DriverRejected(init_status))
        }
    }

    /// Takes the driver's single frame buffer, given as the bytes the driver
    /// returned, or `None` when it had none. Only permitted while no lease is out.
    pub fn capture_image(&mut self, fetched: Option<Vec<u8>>) -> (r: Result<FrameBuffer, CaptureError>)
        requires
            !old(self)@.frame_held,
        ensures
            fetched is None ==> r == Err::<FrameBuffer, CaptureError>(CaptureError::DriverEmpty)
                && final(self)@ == old(self)@,
            fetched matches Some(b) ==> r matches Ok(fb) && fb@ == b@ && {
                &&& final(self)@.frame_held
                &&& final(self)@.acquired == old(self)@.acquired + 1
                &&& final(self)@.released == old(self)@.released
            },
            final(self)@.pixel_format == old(self)@.pixel_format,
            final(self)@.frame_size == old(self)@.frame_size,
            final(self)@.dvp_pins == old(self)@.dvp_pins,
            old(self)@.balanced() ==> final(self)@.balanced(),
    {
        match fetched {
            Some(data) => {
                self.frame_held = true;
                self.acquired = Ghost(self.acquired@ + 1);
                Ok(FrameBuffer { data })
            },
            None => Err(CaptureError::DriverEmpty),
        }
    }

    /// Hands the outstanding lease back to the driver and keeps its bytes.
    pub fn release_frame(&mut self, frame: FrameBuffer) -> (r: Vec<u8>)
        requires
            old(self)@.frame_held,
        ensures
            r@ == frame@,
            !final(self)@.frame_held,
            final(self)@.acquired == old(self)@.acquired,
            final(self)@.released == old(self)@.released + 1,
            final(self)@.pixel_format == old(self)@.pixel_format,
            final(self)@.frame_size == old(self)@.frame_size,
            final(self)@.dvp_pins == old(self)@.dvp_pins,
            old(self)@.balanced() ==> final(self)@.balanced(),
    {
        self.frame_held = false;
        self.released = Ghost(self.released@ + 1);
        frame.data
    }
}

/// Exactly one release stands between two captures. A capture may start only
/// while no lease is out (the precondition of [`CameraSensor::capture_image`]);
/// when it leases a frame, then at the next state where a capture may start
/// again, with no lease out and no frame taken since, exactly one release has
/// happened after that capture.
pub proof fn lemma_one_release_between_captures(before: CameraView, captured: CameraView, next: CameraView)
    requires
        before.balanced(),
        !before.frame_held,
        captured.frame_held,
        captured.acquired == before.acquired + 1,
        captured.released == before.released,
        next.balanced(),
        !next.frame_held,
        next.acquired == captured.acquired,
    ensures
        next.released == captured.released + 1,
        next.acquired == next.released,
{
}

} // verus!
