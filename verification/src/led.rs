//! Configuration of the _Aura LED_ ring.
use vstd::prelude::*;

use crate::types::CommandCode;

verus! {

/// Supported LED modes
///
/// Referred to as _Control Code_ in the datasheet.
#[derive(Debug, Clone, Copy, PartialEq, Eq, Structural)]
pub(crate) enum Mode {
    /// Breathing light
    Breathing,
    /// Flashing light
    Flashing,
    /// Light On
    On,
    /// Light Off
    Off,
    /// Transition to On state
    TransitionOn,
    /// Transition to Off state
    TransitionOff,
}

impl Mode {
    pub(crate) open spec fn spec_code(self) -> u8 {
        match self {
            Mode::Breathing => 0x01,
            Mode::Flashing => 0x02,
            Mode::On => 0x03,
            Mode::Off => 0x04,
            Mode::TransitionOn => 0x05,
            Mode::TransitionOff => 0x06,
        }
    }

    pub(crate) fn code(&self) -> (c: u8)
        ensures
            c == self.spec_code(),
    {
        match self {
            Mode::Breathing => 0x01,
            Mode::Flashing => 0x02,
            Mode::On => 0x03,
            Mode::Off => 0x04,
            Mode::TransitionOn => 0x05,
            Mode::TransitionOff => 0x06,
        }
    }
}

/// Possible LED colors
#[derive(Debug, Clone, Copy, PartialEq, Eq, Structural)]
pub enum Color {
    Red,
    Blue,
    Purple,
}

impl Color {
    /// The color index sent to the sensor.
    pub open spec fn spec_code(self) -> u8 {
        match self {
            Color::Red => 0x01,
            Color::Blue => 0x02,
            Color::Purple => 0x03,
        }
    }

    /// The color index sent to the sensor.
    pub fn code(&self) -> (c: u8)
        ensures
            c == self.spec_code(),
    {
        match self {
            Color::Red => 0x01,
            Color::Blue => 0x02,
            Color::Purple => 0x03,
        }
    }
}

/// The datasheet color indices: red 1, blue 2, purple 3.
pub proof fn lemma_color_bytes()
    ensures
        Color::Red.spec_code() == 0x01,
        Color::Blue.spec_code() == 0x02,
        Color::Purple.spec_code() == 0x03,
{
}

/// A LED configuration for the Aura LED
///
/// The default config is off.
#[derive(Debug, Clone, Copy, PartialEq, Eq, Structural)]
pub struct LedConfig {
    /// Ctrl
    pub(crate) mode: Mode,
    pub(crate) speed: u8,
    pub(crate) color: Color,
    pub(crate) count: u8,
}

impl LedConfig {
    /// The command payload that sets this configuration: the LED control
    /// instruction, then control code, speed, color index and cycle count.
    pub closed spec fn spec_payload(self) -> Seq<u8> {
        seq![
            CommandCode::LedCtrl.spec_code(),
            self.mode.spec_code(),
            self.speed,
            self.color.spec_code(),
            self.count,
        ]
    }

    /// The command payload that sets this configuration.
    pub fn as_bytes(&self) -> (r: Vec<u8>)
        ensures
            r@ == self.spec_payload(),
    {
        let r = vec![CommandCode::LedCtrl.code(), self.mode.code(), self.speed, self.color.code(), self.count];
        assert(r@ =~= self.spec_payload());
        r
    }

    /// The breathing configuration of `color`, `speed` and `count`.
    pub closed spec fn spec_breathing(color: Color, speed: u8, count: u8) -> LedConfig {
        LedConfig { mode: Mode::Breathing, color, speed, count }
    }

    /// The flashing configuration of `color`, `speed` and `count`.
    pub closed spec fn spec_flashing(color: Color, speed: u8, count: u8) -> LedConfig {
        LedConfig { mode: Mode::Flashing, color, speed, count }
    }

    /// The payloads of the breathing and flashing configurations.
    pub proof fn lemma_effect_payloads(color: Color, speed: u8, count: u8)
        ensures
            Self::spec_breathing(color, speed, count).spec_payload() == seq![
                0x35u8,
                0x01,
                speed,
                color.spec_code(),
                count,
            ],
            Self::spec_flashing(color, speed, count).spec_payload() == seq![
                0x35u8,
                0x02,
                speed,
                color.spec_code(),
                count,
            ],
    {
    }

    /// New config for breathing LED effect.
    ///
    /// Speed can be controlled from `0x00` (fastest) to `0xFF` (slowest).
    ///
    /// A cycle count of 255 the effect is effective until changed again.
    pub fn breathing(color: Color, speed: u8, count: u8) -> (r: LedConfig)
        ensures
            r == Self::spec_breathing(color, speed, count),
            r.spec_payload() == seq![0x35u8, 0x01, speed, color.spec_code(), count],
    {
        LedConfig { mode: Mode::Breathing, color, speed, count }
    }

    /// New config for flashing LED effect.
    ///
    /// Speed can be controlled from `0x00` (fastest) to `0xFF` (slowest).
    ///
    /// A cycle count of 255 the effect is effective until changed again.
    pub fn flashing(color: Color, speed: u8, count: u8) -> (r: LedConfig)
        ensures
            r == Self::spec_flashing(color, speed, count),
            r.spec_payload() == seq![0x35u8, 0x02, speed, color.spec_code(), count],
    {
        LedConfig { mode: Mode::Flashing, color, speed, count }
    }

    /// New config for turning the LED on.
    pub fn on(color: Color) -> (r: LedConfig)
        ensures
            r.spec_payload() == seq![0x35u8, 0x03, 0, color.spec_code(), 0],
    {
        LedConfig { mode: Mode::On, color, speed: 0, count: 0 }
    }

    /// New config for turning the LED off.
    pub fn off(color: Color) -> (r: LedConfig)
        ensures
            r.spec_payload() == seq![0x35u8, 0x04, 0, color.spec_code(), 0],
    {
        LedConfig { mode: Mode::Off, color, speed: 0, count: 0 }
    }

    /// New config for transitioning to on.
    ///
    /// Speed can be controlled from `0x00` (fastest) to `0xFF` (slowest).
    pub fn transition_on(color: Color, speed: u8) -> (r: LedConfig)
        ensures
            r.spec_payload() == seq![0x35u8, 0x05, speed, color.spec_code(), 0],
    {
        LedConfig { mode: Mode::TransitionOn, color, speed, count: 0 }
    }

    /// New config for transitioning to off.
    ///
    /// Speed can be controlled from `0x00` (fastest) to `0xFF` (slowest).
    pub fn transition_off(color: Color, speed: u8) -> (r: LedConfig)
        ensures
            r.spec_payload() == seq![0x35u8, 0x06, speed, color.spec_code(), 0],
    {
        LedConfig { mode: Mode::TransitionOff, color, speed, count: 0 }
    }
}

impl Default for LedConfig {
    /// The LED off, red, speed and count zero.
    fn default() -> (r: Self)
        ensures
            r.spec_payload() == seq![0x35u8, 0x04, 0, 0x01, 0],
    {
        LedConfig { mode: Mode::Off, color: Color::Red, speed: 0, count: 0 }
    }
}

} // verus!
