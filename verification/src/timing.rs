//! Bus modes and the timing configuration of an adapter.

use vstd::prelude::*;

verus! {

/// I2C standard mode max bus frequency in Hz.
pub const I2C_MAX_STANDARD_MODE_FREQ: u32 = 100000;

/// I2C fast mode max bus frequency in Hz.
pub const I2C_MAX_FAST_MODE_FREQ: u32 = 400000;

/// I2C fast plus mode max bus frequency in Hz.
pub const I2C_MAX_FAST_MODE_PLUS_FREQ: u32 = 1000000;

/// I2C turbo mode max bus frequency in Hz.
pub const I2C_MAX_TURBO_MODE_FREQ: u32 = 1400000;

/// I2C high speed mode max bus frequency in Hz.
pub const I2C_MAX_HIGH_SPEED_MODE_FREQ: u32 = 3400000;

/// I2C ultra fast mode max bus frequency in Hz.
pub const I2C_MAX_ULTRA_FAST_MODE_FREQ: u32 = 5000000;

/// I2C operation mode.
#[derive(Clone, Copy, Debug, PartialEq, Eq, Structural)]
pub enum I2cMode {
    /// A master in an I2C system and programmed only as a master.
    Master,
    /// A slave in an I2C system and programmed only as a slave.
    Slave,
}

/// I2C speed mode.
#[derive(Clone, Copy, Debug, PartialEq, Eq, Structural)]
pub enum I2cSpeedMode {
    /// Standard speed mode.
    StandMode,
    /// Fast speed mode.
    FastMode,
    /// Fast plus mode.
    FastPlusMode,
    /// Turbo mode.
    TurboMode,
    /// High speed mode.
    HighSpeedMode,
    /// Ultra fast mode.
    UltraFastMode,
}

impl I2cSpeedMode {
    /// The highest bus frequency of the mode, in Hz.
    pub open spec fn max_freq(self) -> u32 {
        match self {
            I2cSpeedMode::StandMode => I2C_MAX_STANDARD_MODE_FREQ,
            I2cSpeedMode::FastMode => I2C_MAX_FAST_MODE_FREQ,
            I2cSpeedMode::FastPlusMode => I2C_MAX_FAST_MODE_PLUS_FREQ,
            I2cSpeedMode::TurboMode => I2C_MAX_TURBO_MODE_FREQ,
            I2cSpeedMode::HighSpeedMode => I2C_MAX_HIGH_SPEED_MODE_FREQ,
            I2cSpeedMode::UltraFastMode => I2C_MAX_ULTRA_FAST_MODE_FREQ,
        }
    }

    /// The mode whose highest frequency is `bus_freq_hz`, and standard mode
    /// for a frequency that is the highest of no mode.
    pub open spec fn of_bus_freq(bus_freq_hz: u32) -> I2cSpeedMode {
        if bus_freq_hz == I2C_MAX_FAST_MODE_FREQ {
            I2cSpeedMode::FastMode
        } else if bus_freq_hz == I2C_MAX_FAST_MODE_PLUS_FREQ {
            I2cSpeedMode::FastPlusMode
        } else if bus_freq_hz == I2C_MAX_TURBO_MODE_FREQ {
            I2cSpeedMode::TurboMode
        } else if bus_freq_hz == I2C_MAX_HIGH_SPEED_MODE_FREQ {
            I2cSpeedMode::HighSpeedMode
        } else if bus_freq_hz == I2C_MAX_ULTRA_FAST_MODE_FREQ {
            I2cSpeedMode::UltraFastMode
        } else {
            I2cSpeedMode::StandMode
        }
    }

    /// The speed mode that goes with a bus frequency.
    pub fn from_bus_freq(bus_freq_hz: u32) -> (mode: I2cSpeedMode)
        ensures
            mode == Self::of_bus_freq(bus_freq_hz),
    {
        if bus_freq_hz == I2C_MAX_FAST_MODE_FREQ {
            I2cSpeedMode::FastMode
        } else if bus_freq_hz == I2C_MAX_FAST_MODE_PLUS_FREQ {
            I2cSpeedMode::FastPlusMode
        } else if bus_freq_hz == I2C_MAX_TURBO_MODE_FREQ {
            I2cSpeedMode::TurboMode
        } else if bus_freq_hz == I2C_MAX_HIGH_SPEED_MODE_FREQ {
            I2cSpeedMode::HighSpeedMode
        } else if bus_freq_hz == I2C_MAX_ULTRA_FAST_MODE_FREQ {
            I2cSpeedMode::UltraFastMode
        } else {
            I2cSpeedMode::StandMode
        }
    }
}

/// Every mode is the mode of its own highest frequency.
pub proof fn lemma_mode_of_max_freq(mode: I2cSpeedMode)
    ensures
        I2cSpeedMode::of_bus_freq(mode.max_freq()) == mode,
{
}

/// I2C timing configuration, the same for every adapter driver.
///
/// It holds the bus frequency in Hz, the time the SCL signal takes to rise
/// and to fall in ns, the time the core additionally needs to set up SCL in
/// ns, the time the SDA signal takes to fall in ns, the time the core
/// additionally needs to hold SDA in ns, the width in ns of the spikes that
/// the digital filter takes out, and the threshold frequency of the analog
/// low pass filter.
#[derive(Clone, Copy, Debug, PartialEq, Eq, Structural)]
pub struct I2cTiming {
    pub bus_freq_hz: u32,
    pub scl_rise_ns: u32,
    pub scl_fall_ns: u32,
    pub scl_int_delay_ns: u32,
    pub sda_fall_ns: u32,
    pub sda_hold_ns: u32,
    pub digital_filter_width_ns: u32,
    pub analog_filter_cutoff_freq_hz: u32,
}

impl I2cTiming {
    /// The timing with every field 0.
    pub open spec fn zero() -> I2cTiming {
        I2cTiming {
            bus_freq_hz: 0,
            scl_rise_ns: 0,
            scl_fall_ns: 0,
            scl_int_delay_ns: 0,
            sda_fall_ns: 0,
            sda_hold_ns: 0,
            digital_filter_width_ns: 0,
            analog_filter_cutoff_freq_hz: 0,
        }
    }
}

impl Default for I2cTiming {
    /// The timing with every field 0.
    fn default() -> (r: Self)
        ensures
            r == I2cTiming::zero(),
    {
        I2cTiming {
            bus_freq_hz: 0,
            scl_rise_ns: 0,
            scl_fall_ns: 0,
            scl_int_delay_ns: 0,
            sda_fall_ns: 0,
            sda_hold_ns: 0,
            digital_filter_width_ns: 0,
            analog_filter_cutoff_freq_hz: 0,
        }
    }
}

impl Default for I2cTimingBuilder {
    /// A builder with no field set.
    fn default() -> (b: Self)
        ensures
            b == I2cTimingBuilder::unset(),
    {
        I2cTimingBuilder::new()
    }
}

/// Collects the fields of an `I2cTiming`. A field that was never set is 0.
#[derive(Clone, Copy, Debug, PartialEq, Eq, Structural)]
pub struct I2cTimingBuilder {
    pub bus_freq_hz: Option<u32>,
    pub scl_rise_ns: Option<u32>,
    pub scl_fall_ns: Option<u32>,
    pub scl_int_delay_ns: Option<u32>,
    pub sda_fall_ns: Option<u32>,
    pub sda_hold_ns: Option<u32>,
    pub digital_filter_width_ns: Option<u32>,
    pub analog_filter_cutoff_freq_hz: Option<u32>,
}

/// The value of a builder's field: what was set, or 0.
pub open spec fn or_zero(field: Option<u32>) -> u32 {
    match field {
        Some(v) => v,
        None => 0,
    }
}

/// The time the SCL signal takes to rise in the given mode, in ns.
pub open spec fn default_scl_rise_ns(mode: I2cSpeedMode) -> u32 {
    match mode {
        I2cSpeedMode::StandMode => 1000,
        I2cSpeedMode::FastMode => 300,
        _ => 120,
    }
}

/// The time the SCL signal takes to fall in the given mode, in ns.
pub open spec fn default_scl_fall_ns(mode: I2cSpeedMode) -> u32 {
    match mode {
        I2cSpeedMode::StandMode => 300,
        I2cSpeedMode::FastMode => 300,
        _ => 120,
    }
}

impl I2cTimingBuilder {
    /// A builder with no field set.
    pub open spec fn unset() -> I2cTimingBuilder {
        I2cTimingBuilder {
            bus_freq_hz: None,
            scl_rise_ns: None,
            scl_fall_ns: None,
            scl_int_delay_ns: None,
            sda_fall_ns: None,
            sda_hold_ns: None,
            digital_filter_width_ns: None,
            analog_filter_cutoff_freq_hz: None,
        }
    }

    /// The timing that the builder stands for.
    pub open spec fn timing(self) -> I2cTiming {
        I2cTiming {
            bus_freq_hz: or_zero(self.bus_freq_hz),
            scl_rise_ns: or_zero(self.scl_rise_ns),
            scl_fall_ns: or_zero(self.scl_fall_ns),
            scl_int_delay_ns: or_zero(self.scl_int_delay_ns),
            sda_fall_ns: or_zero(self.sda_fall_ns),
            sda_hold_ns: or_zero(self.sda_hold_ns),
            digital_filter_width_ns: or_zero(self.digital_filter_width_ns),
            analog_filter_cutoff_freq_hz: or_zero(self.analog_filter_cutoff_freq_hz),
        }
    }

    /// A builder with no field set.
    pub fn new() -> (b: Self)
        ensures
            b == Self::unset(),
    {
        I2cTimingBuilder {
            bus_freq_hz: None,
            scl_rise_ns: None,
            scl_fall_ns: None,
            scl_int_delay_ns: None,
            sda_fall_ns: None,
            sda_hold_ns: None,
            digital_filter_width_ns: None,
            analog_filter_cutoff_freq_hz: None,
        }
    }

    pub fn bus_freq_hz(&mut self, value: u32) -> (r: &mut Self)
        ensures
            *r == (I2cTimingBuilder { bus_freq_hz: Some(value), ..*old(self) }),
            *final(self) == *final(r),
    {
        self.bus_freq_hz = Some(value);
        self
    }

    pub fn scl_rise_ns(&mut self, value: u32) -> (r: &mut Self)
        ensures
            *r == (I2cTimingBuilder { scl_rise_ns: Some(value), ..*old(self) }),
            *final(self) == *final(r),
    {
        self.scl_rise_ns = Some(value);
        self
    }

    pub fn scl_fall_ns(&mut self, value: u32) -> (r: &mut Self)
        ensures
            *r == (I2cTimingBuilder { scl_fall_ns: Some(value), ..*old(self) }),
            *final(self) == *final(r),
    {
        self.scl_fall_ns = Some(value);
        self
    }

    pub fn scl_int_delay_ns(&mut self, value: u32) -> (r: &mut Self)
        ensures
            *r == (I2cTimingBuilder { scl_int_delay_ns: Some(value), ..*old(self) }),
            *final(self) == *final(r),
    {
        self.scl_int_delay_ns = Some(value);
        self
    }

    pub fn sda_fall_ns(&mut self, value: u32) -> (r: &mut Self)
        ensures
            *r == (I2cTimingBuilder { sda_fall_ns: Some(value), ..*old(self) }),
            *final(self) == *final(r),
    {
        self.sda_fall_ns = Some(value);
        self
    }

    pub fn sda_hold_ns(&mut self, value: u32) -> (r: &mut Self)
        ensures
            *r == (I2cTimingBuilder { sda_hold_ns: Some(value), ..*old(self) }),
            *final(self) == *final(r),
    {
        self.sda_hold_ns = Some(value);
        self
    }

    pub fn digital_filter_width_ns(&mut self, value: u32) -> (r: &mut Self)
        ensures
            *r == (I2cTimingBuilder { digital_filter_width_ns: Some(value), ..*old(self) }),
            *final(self) == *final(r),
    {
        self.digital_filter_width_ns = Some(value);
        self
    }

    pub fn analog_filter_cutoff_freq_hz(&mut self, value: u32) -> (r: &mut Self)
        ensures
            *r == (I2cTimingBuilder { analog_filter_cutoff_freq_hz: Some(value), ..*old(self) }),
            *final(self) == *final(r),
    {
        self.analog_filter_cutoff_freq_hz = Some(value);
        self
    }

    /// The timing with the fields that were set, and 0 in the others.
    pub fn build(&self) -> (r: Result<I2cTiming, I2cTimingBuilderError>)
        ensures
            r == Ok::<I2cTiming, I2cTimingBuilderError>(self.timing()),
    {
        Ok(
            I2cTiming {
                bus_freq_hz: value_or_zero(self.bus_freq_hz),
                scl_rise_ns: value_or_zero(self.scl_rise_ns),
                scl_fall_ns: value_or_zero(self.scl_fall_ns),
                scl_int_delay_ns: value_or_zero(self.scl_int_delay_ns),
                sda_fall_ns: value_or_zero(self.sda_fall_ns),
                sda_hold_ns: value_or_zero(self.sda_hold_ns),
                digital_filter_width_ns: value_or_zero(self.digital_filter_width_ns),
                analog_filter_cutoff_freq_hz: value_or_zero(self.analog_filter_cutoff_freq_hz),
            },
        )
    }
}

/// Why a timing could not be built. Every field has a default, so no builder fails.
#[derive(Clone, Copy, Debug, PartialEq, Eq, Structural)]
pub enum I2cTimingBuilderError {
    /// A field without a default was never set.
    UninitializedField,
}

fn value_or_zero(field: Option<u32>) -> (v: u32)
    ensures
        v == or_zero(field),
{
    match field {
        Some(v) => v,
        None => 0,
    }
}

impl I2cTiming {
    /// A builder for the given speed mode. With `use_default` it starts from
    /// the mode's highest bus frequency and usual SCL rise and fall times;
    /// without, from nothing.
    pub fn new_builder(mode: I2cSpeedMode, use_default: bool) -> (builder: I2cTimingBuilder)
        ensures
            builder == (if use_default {
                I2cTimingBuilder {
                    bus_freq_hz: Some(mode.max_freq()),
                    scl_rise_ns: Some(default_scl_rise_ns(mode)),
                    scl_fall_ns: Some(default_scl_fall_ns(mode)),
                    ..I2cTimingBuilder::unset()
                }
            } else {
                I2cTimingBuilder::unset()
            }),
    {
        let mut builder = I2cTimingBuilder::new();
        if use_default {
            match mode {
                I2cSpeedMode::StandMode => {
                    builder.bus_freq_hz(I2C_MAX_STANDARD_MODE_FREQ).scl_rise_ns(1000).scl_fall_ns(
                        300,
                    );
                },
                I2cSpeedMode::FastMode => {
                    builder.bus_freq_hz(I2C_MAX_FAST_MODE_FREQ).scl_rise_ns(300).scl_fall_ns(300);
                },
                I2cSpeedMode::FastPlusMode => {
                    builder.bus_freq_hz(I2C_MAX_FAST_MODE_PLUS_FREQ).scl_rise_ns(120).scl_fall_ns(
                        120,
                    );
                },
                I2cSpeedMode::TurboMode => {
                    builder.bus_freq_hz(I2C_MAX_TURBO_MODE_FREQ).scl_rise_ns(120).scl_fall_ns(120);
                },
                I2cSpeedMode::HighSpeedMode => {
                    builder.bus_freq_hz(I2C_MAX_HIGH_SPEED_MODE_FREQ).scl_rise_ns(120).scl_fall_ns(
                        120,
                    );
                },
                I2cSpeedMode::UltraFastMode => {
                    builder.bus_freq_hz(I2C_MAX_ULTRA_FAST_MODE_FREQ).scl_rise_ns(120).scl_fall_ns(
                        120,
                    );
                },
            }
        }
        builder
    }

    /// The bus frequency in Hz.
    pub fn get_bus_freq_hz(&self) -> (r: u32)
        ensures
            r == self.bus_freq_hz,
    {
        self.bus_freq_hz
    }

    /// The time the SCL signal takes to rise, in ns.
    pub fn get_scl_rise_ns(&self) -> (r: u32)
        ensures
            r == self.scl_rise_ns,
    {
        self.scl_rise_ns
    }

    /// The time the SCL signal takes to fall, in ns.
    pub fn get_scl_fall_ns(&self) -> (r: u32)
        ensures
            r == self.scl_fall_ns,
    {
        self.scl_fall_ns
    }

    /// The time the SDA signal takes to fall, in ns.
    pub fn get_sda_fall_ns(&self) -> (r: u32)
        ensures
            r == self.sda_fall_ns,
    {
        self.sda_fall_ns
    }

    /// The time the core additionally needs to hold SDA, in ns; 0 leaves it to the hardware.
    pub fn get_sda_hold_ns(&self) -> (r: u32)
        ensures
            r == self.sda_hold_ns,
    {
        self.sda_hold_ns
    }
}

} // verus!
