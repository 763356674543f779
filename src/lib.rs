//! Control core of a network camera module: the sensor register model, the
//! camera controller's configuration and frame-buffer discipline, and the
//! five-byte command framing with its session dispatcher.

pub mod driver_codes;
pub mod pixel_format;
pub mod frame_size;
pub mod packet;
pub mod boards;
pub mod camera;
pub mod session;
pub mod messages;
pub mod ov2460_config;
pub mod report;
