use vstd::prelude::*;

verus! {

/// Pin assignment of a sensor on a MIPI interface.
#[derive(Debug, Clone, Copy, PartialEq, Eq, Structural)]
pub struct MipiPins {
    /// Power down.
    pub pwdn: i32,
    /// Reset.
    pub rst: i32,
    /// Master clock.
    pub xclk: i32,
    /// Data line of the two-wire control bus.
    pub sda: i32,
    /// Clock line of the two-wire control bus.
    pub scl: i32,
    pub d9: i32,
    pub d8: i32,
    pub d7: i32,
    pub d6: i32,
    pub d5: i32,
    pub d4: i32,
}

/// Pin assignment of a sensor on a parallel (DVP) interface; `-1` marks a pin
/// that the board does not wire.
#[derive(Debug, Clone, Copy, PartialEq, Eq, Structural)]
pub struct DvpPins {
    /// Power down.
    pub pwdn: i32,
    /// Sensor reset.
    pub rst: i32,
    /// Master clock.
    pub xclk: i32,
    /// Pixel clock.
    pub pclk: i32,
    /// Frame valid (active high while a frame is sent).
    pub vsync: i32,
    /// Pixels valid (active high while pixels are sent).
    pub href: i32,
    /// Data line of the two-wire control bus.
    pub sda: i32,
    /// Clock line of the two-wire control bus.
    pub scl: i32,
    pub d7: i32,
    pub d6: i32,
    pub d5: i32,
    pub d4: i32,
    pub d3: i32,
    pub d2: i32,
    pub d1: i32,
    pub d0: i32,
}

/// The pins of the Freenove camera board.
pub open spec fn spec_freenove_pins() -> DvpPins {
    DvpPins {
        pwdn: -1i32, rst: -1i32, xclk: 21, pclk: 22, vsync: 25, href: 23, sda: 26, scl: 27,
        d7: 35, d6: 34, d5: 39, d4: 36, d3: 19, d2: 18, d1: 5, d0: 4,
    }
}

/// The pins of the AI-Thinker camera board.
pub open spec fn spec_aithinker_pins() -> DvpPins {
    DvpPins {
        pwdn: 32, rst: -1i32, xclk: 0, pclk: 22, vsync: 25, href: 23, sda: 26, scl: 27,
        d7: 35, d6: 34, d5: 39, d4: 36, d3: 21, d2: 19, d1: 18, d0: 5,
    }
}

/// A supported board variant, or a custom wiring.
#[derive(Debug, Clone, Copy, PartialEq, Eq, Structural)]
pub enum Board {
    Freenove,
    AIThinker,
    Custom(DvpPins),
}

impl Board {
    /// The pin assignment a board variant implies.
    pub open spec fn spec_dvp_pins(self) -> DvpPins {
        match self {
            Board::Freenove => spec_freenove_pins(),
            Board::AIThinker => spec_aithinker_pins(),
            Board::Custom(pins) => pins,
        }
    }

    /// Selects the pin assignment of the board.
    pub fn dvp_pins(self) -> (r: DvpPins)
        ensures
            r == self.spec_dvp_pins(),
    {
        match self {
            Board::Freenove => DvpPins {
                pwdn: -1, rst: -1, xclk: 21, pclk: 22, vsync: 25, href: 23, sda: 26, scl: 27,
                d7: 35, d6: 34, d5: 39, d4: 36, d3: 19, d2: 18, d1: 5, d0: 4,
            },
            Board::AIThinker => DvpPins {
                pwdn: 32, rst: -1, xclk: 0, pclk: 22, vsync: 25, href: 23, sda: 26, scl: 27,
                d7: 35, d6: 34, d5: 39, d4: 36, d3: 21, d2: 19, d1: 18, d0: 5,
            },
            Board::Custom(pins) => pins,
        }
    }
}

} // verus!
