use esp32cam::boards::{Board, DvpPins};
use esp32cam::camera::{
    CameraSensor, CaptureError, DriverConfig, HookOutcome, InitError, LedcChannel, LedcTimer,
    ReconfigError, DEFAULT_JPEG_QUALITY, XCLK_FREQ_HZ,
};
use esp32cam::frame_size::FrameSize;
use esp32cam::ov2460_config::{Board as KitBoard, OV2460Config};
use esp32cam::pixel_format::PixelFormat;
use esp32cam::report::frame_report;

fn freenove_pins() -> DvpPins {
    DvpPins {
        pwdn: -1, rst: -1, xclk: 21, pclk: 22, vsync: 25, href: 23, sda: 26, scl: 27,
        d7: 35, d6: 34, d5: 39, d4: 36, d3: 19, d2: 18, d1: 5, d0: 4,
    }
}

fn started(config: &DriverConfig) -> CameraSensor {
    CameraSensor::new(config, 0).expect("status 0 opens the session")
}

#[test]
fn board_pin_tables() {
    assert_eq!(Board::Freenove.dvp_pins(), freenove_pins());
    let ai = Board::AIThinker.dvp_pins();
    assert_eq!((ai.pwdn, ai.rst, ai.xclk), (32, -1, 0));
    assert_eq!((ai.d3, ai.d2, ai.d1, ai.d0), (21, 19, 18, 5));
    let custom = DvpPins { xclk: 15, ..freenove_pins() };
    assert_eq!(Board::Custom(custom).dvp_pins(), custom);
}

#[test]
fn config_applies_defaults_and_fixed_driver_settings() {
    let c = CameraSensor::config(None, None, freenove_pins());
    assert_eq!(c.pixel_format, PixelFormat::JPEG);
    assert_eq!(c.frame_size, FrameSize::SVGA);
    assert_eq!(c.pins, freenove_pins());
    assert_eq!(c.xclk_freq_hz, 20_000_000);
    assert_eq!(XCLK_FREQ_HZ, 20_000_000);
    assert_eq!(c.jpeg_quality, 12);
    assert_eq!(DEFAULT_JPEG_QUALITY, 12);
    assert_eq!(c.fb_count, 1);
    assert_eq!(c.ledc_timer, LedcTimer::Timer0);
    assert_eq!(c.ledc_channel, LedcChannel::Channel0);
    let c = CameraSensor::config(Some(PixelFormat::GRAYSCALE), Some(FrameSize::QVGA), freenove_pins());
    assert_eq!(c.pixel_format, PixelFormat::GRAYSCALE);
    assert_eq!(c.frame_size, FrameSize::QVGA);
}

#[test]
fn ledc_codes() {
    assert_eq!(LedcChannel::Channel0.code(), 0);
    assert_eq!(LedcChannel::Channel7.code(), 7);
    assert_eq!(LedcTimer::Timer0.code(), 0);
    assert_eq!(LedcTimer::Timer3.code(), 3);
}

#[test]
fn init_status_decides_the_session() {
    let c = CameraSensor::config(None, None, freenove_pins());
    let cam = started(&c);
    assert_eq!(cam.pixel_format(), PixelFormat::JPEG);
    assert_eq!(cam.frame_size(), FrameSize::SVGA);
    assert_eq!(cam.dvp_pins(), freenove_pins());
    assert!(!cam.frame_held());
    assert_eq!(CameraSensor::new(&c, -1).err(), Some(InitError::DriverRejected(-1)));
    assert_eq!(CameraSensor::new(&c, 0x105).err(), Some(InitError::DriverRejected(0x105)));
}

#[test]
fn live_frame_size_outcomes() {
    let mut cam = started(&CameraSensor::config(None, None, freenove_pins()));
    assert_eq!(cam.set_frame_size(FrameSize::VGA, HookOutcome::Missing), Err(ReconfigError::Unsupported));
    assert_eq!(cam.frame_size(), FrameSize::SVGA);
    assert_eq!(cam.set_frame_size(FrameSize::VGA, HookOutcome::Status(-2)), Err(ReconfigError::Rejected(-2)));
    assert_eq!(cam.frame_size(), FrameSize::SVGA);
    assert_eq!(cam.set_frame_size(FrameSize::VGA, HookOutcome::Status(0)), Ok(()));
    assert_eq!(cam.frame_size(), FrameSize::VGA);
    assert_eq!(cam.pixel_format(), PixelFormat::JPEG);
}

#[test]
fn live_pixel_format_outcomes() {
    let mut cam = started(&CameraSensor::config(None, Some(FrameSize::CIF), freenove_pins()));
    assert_eq!(cam.set_pixel_format(PixelFormat::RGB565, HookOutcome::Missing), Err(ReconfigError::Unsupported));
    assert_eq!(cam.pixel_format(), PixelFormat::JPEG);
    assert_eq!(cam.set_pixel_format(PixelFormat::RGB565, HookOutcome::Status(0)), Ok(()));
    assert_eq!(cam.pixel_format(), PixelFormat::RGB565);
    assert_eq!(cam.frame_size(), FrameSize::CIF);
}

#[test]
fn reinit_fallback_keeps_pins_and_frame_size() {
    let mut cam = started(&CameraSensor::config(None, Some(FrameSize::XGA), freenove_pins()));
    let req = cam.reinit_config(PixelFormat::YUV422);
    assert_eq!(req, CameraSensor::config(Some(PixelFormat::YUV422), Some(FrameSize::XGA), freenove_pins()));
    assert_eq!(cam.reinit_with_pixel_format(PixelFormat::YUV422, 3), Err(InitError::DriverRejected(3)));
    assert_eq!(cam.pixel_format(), PixelFormat::JPEG);
    assert_eq!(cam.reinit_with_pixel_format(PixelFormat::YUV422, 0), Ok(()));
    assert_eq!(cam.pixel_format(), PixelFormat::YUV422);
    assert_eq!(cam.frame_size(), FrameSize::XGA);
    assert_eq!(cam.dvp_pins(), freenove_pins());
}

#[test]
fn capture_leases_and_releases_the_buffer() {
    let mut cam = started(&CameraSensor::config(None, None, freenove_pins()));
    assert_eq!(cam.capture_image(None).err(), Some(CaptureError::DriverEmpty));
    assert!(!cam.frame_held());
    let fb = cam.capture_image(Some(vec![0xff, 0xd8, 0xff])).expect("a frame was handed out");
    assert!(cam.frame_held());
    assert_eq!(fb.len(), 3);
    assert_eq!(fb.bytes(), &vec![0xff, 0xd8, 0xff]);
    let bytes = cam.release_frame(fb);
    assert_eq!(bytes, vec![0xff, 0xd8, 0xff]);
    assert!(!cam.frame_held());
}

#[test]
fn kit_config_defaults_and_driver_request() {
    let mut cfg = OV2460Config::default();
    assert_eq!(cfg, OV2460Config::new(PixelFormat::JPEG, FrameSize::SVGA, KitBoard::WROVER));
    cfg.set_pixel_format(PixelFormat::GRAYSCALE);
    cfg.set_frame_size(FrameSize::QQVGA);
    assert_eq!(cfg.pixel_format, PixelFormat::GRAYSCALE);
    assert_eq!(cfg.frame_size, FrameSize::QQVGA);
    let pins = KitBoard::WROVER.pins();
    assert_eq!((pins.y9_gpio_num, pins.y2_gpio_num, pins.siod_gpio_num), (35, 4, 26));
    let req = cfg.driver_config();
    assert_eq!(req, CameraSensor::config(Some(PixelFormat::GRAYSCALE), Some(FrameSize::QQVGA), freenove_pins()));
}

#[test]
fn frame_report_sizes_and_encodes() {
    let r = frame_report(&b"hello".to_vec());
    assert_eq!(r.size_kib, 0);
    assert_eq!(r.base64, "aGVsbG8=");
    let r = frame_report(&vec![0u8; 3000]);
    assert_eq!(r.size_kib, 2);
    assert_eq!(r.base64.len(), 4000);
    assert!(r.base64.starts_with("AAAA"));
    assert_eq!(frame_report(&vec![]).base64, "");
}
