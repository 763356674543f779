use vstd::prelude::*;
use crate::boards::DvpPins;
use crate::camera::{driver_config, spec_driver_config, DriverConfig};
use crate::frame_size::FrameSize;
use crate::pixel_format::PixelFormat;

verus! {

/// Sensor pin numbers as the OV2640 module's schematic names them.
#[derive(Debug, Clone, Copy, PartialEq, Eq, Structural)]
pub struct PinAssignments {
    pub pwdn_gpio_num: i32,
    pub reset_gpio_num: i32,
    pub xclk_gpio_num: i32,
    pub siod_gpio_num: i32,
    pub sioc_gpio_num: i32,
    pub y9_gpio_num: i32,
    pub y8_gpio_num: i32,
    pub y7_gpio_num: i32,
    pub y6_gpio_num: i32,
    pub y5_gpio_num: i32,
    pub y4_gpio_num: i32,
    pub y3_gpio_num: i32,
    pub y2_gpio_num: i32,
    pub vsync_gpio_num: i32,
    pub href_gpio_num: i32,
    pub pclk_gpio_num: i32,
}

impl PinAssignments {
    /// The same wiring under the parallel-interface names: data lines Y9..Y2
    /// become D7..D0 and the control bus SIOD/SIOC becomes SDA/SCL.
    pub open spec fn spec_dvp_pins(self) -> DvpPins {
        DvpPins {
            pwdn: self.pwdn_gpio_num,
            rst: self.reset_gpio_num,
            xclk: self.xclk_gpio_num,
            pclk: self.pclk_gpio_num,
            vsync: self.vsync_gpio_num,
            href: self.href_gpio_num,
            sda: self.siod_gpio_num,
            scl: self.sioc_gpio_num,
            d7: self.y9_gpio_num,
            d6: self.y8_gpio_num,
            d5: self.y7_gpio_num,
            d4: self.y6_gpio_num,
            d3: self.y5_gpio_num,
            d2: self.y4_gpio_num,
            d1: self.y3_gpio_num,
            d0: self.y2_gpio_num,
        }
    }

    /// Renames the wiring; see [`PinAssignments::spec_dvp_pins`].
    pub fn dvp_pins(&self) -> (r: DvpPins)
        ensures
            r == self.spec_dvp_pins(),
    {
        DvpPins {
            pwdn: self.pwdn_gpio_num,
            rst: self.reset_gpio_num,
            xclk: self.xclk_gpio_num,
            pclk: self.pclk_gpio_num,
            vsync: self.vsync_gpio_num,
            href: self.href_gpio_num,
            sda: self.siod_gpio_num,
            scl: self.sioc_gpio_num,
            d7: self.y9_gpio_num,
            d6: self.y8_gpio_num,
            d5: self.y7_gpio_num,
            d4: self.y6_gpio_num,
            d3: self.y5_gpio_num,
            d2: self.y4_gpio_num,
            d1: self.y3_gpio_num,
            d0: self.y2_gpio_num,
        }
    }
}

/// The pins of the WROVER camera kit.
pub open spec fn spec_wrover_pins() -> PinAssignments {
    PinAssignments {
        pwdn_gpio_num: -1i32,
        reset_gpio_num: -1i32,
        xclk_gpio_num: 21,
        siod_gpio_num: 26,
        sioc_gpio_num: 27,
        y9_gpio_num: 35,
        y8_gpio_num: 34,
        y7_gpio_num: 39,
        y6_gpio_num: 36,
        y5_gpio_num: 19,
        y4_gpio_num: 18,
        y3_gpio_num: 5,
        y2_gpio_num: 4,
        vsync_gpio_num: 25,
        href_gpio_num: 23,
        pclk_gpio_num: 22,
    }
}

/// Boards this configuration knows the wiring of.
#[derive(Debug, Clone, Copy, PartialEq, Eq, Structural)]
pub enum Board {
    WROVER,
}

impl Board {
    pub open spec fn spec_pins(self) -> PinAssignments {
        match self {
            Board::WROVER => spec_wrover_pins(),
        }
    }

    /// The wiring of the board.
    pub fn pins(&self) -> (r: PinAssignments)
        ensures
            r == self.spec_pins(),
    {
        match self {
            Board::WROVER => PinAssignments {
                pwdn_gpio_num: -1,
                reset_gpio_num: -1,
                xclk_gpio_num: 21,
                siod_gpio_num: 26,
                sioc_gpio_num: 27,
                y9_gpio_num: 35,
                y8_gpio_num: 34,
                y7_gpio_num: 39,
                y6_gpio_num: 36,
                y5_gpio_num: 19,
                y4_gpio_num: 18,
                y3_gpio_num: 5,
                y2_gpio_num: 4,
                vsync_gpio_num: 25,
                href_gpio_num: 23,
                pclk_gpio_num: 22,
            },
        }
    }
}

/// Sensor settings for an OV2640 on a known board.
#[derive(Debug, Clone, Copy, PartialEq, Eq, Structural)]
pub struct OV2460Config {
    pub pixel_format: PixelFormat,
    pub frame_size: FrameSize,
    pub board: Board,
}

impl Default for OV2460Config {
    fn default() -> (r: OV2460Config)
        ensures
            r == (OV2460Config {
                pixel_format: PixelFormat::spec_default(),
                frame_size: FrameSize::spec_default(),
                board: Board::WROVER,
            }),
    {
        OV2460Config { pixel_format: PixelFormat::JPEG, frame_size: FrameSize::SVGA, board: Board::WROVER }
    }
}

impl OV2460Config {
    pub fn new(pixel_format: PixelFormat, frame_size: FrameSize, board: Board) -> (r: OV2460Config)
        ensures
            r == (OV2460Config { pixel_format, frame_size, board }),
    {
        OV2460Config { pixel_format, frame_size, board }
    }

    pub fn set_pixel_format(&mut self, pixel_format: PixelFormat)
        ensures
            *final(self) == (OV2460Config { pixel_format, ..*old(self) }),
    {
        self.pixel_format = pixel_format;
    }

    pub fn set_frame_size(&mut self, frame_size: FrameSize)
        ensures
            *final(self) == (OV2460Config { frame_size, ..*old(self) }),
    {
        self.frame_size = frame_size;
    }

    /// The driver initialisation request for these settings on the board's wiring.
    pub fn driver_config(&self) -> (r: DriverConfig)
        ensures
            r == spec_driver_config(self.board.spec_pins().spec_dvp_pins(), self.pixel_format, self.frame_size),
    {
        let pins = self.board.pins();
        driver_config(pins.dvp_pins(), self.pixel_format, self.frame_size)
    }
}

} // verus!
