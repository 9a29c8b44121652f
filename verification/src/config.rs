//! Bus parameters and their translation into device configuration steps.

use vstd::prelude::*;

verus! {

/// SPI clock mode: the pairing of clock polarity and clock phase.
#[derive(Clone, Copy, Debug, PartialEq, Eq, Structural)]
pub enum SpiMode {
    M0,
    M1,
    M2,
    M3,
}

/// Chip-select line behaviour for the transaction.
#[derive(Clone, Copy, Debug, PartialEq, Eq, Structural)]
pub enum ChipSelect {
    ActiveLow,
    ActiveHigh,
    Disabled,
}

/// The mode-register bits that select a clock mode: the clock-phase bit
/// for modes 1 and 3, the clock-polarity bit for modes 2 and 3.
pub open spec fn spec_mode_flags(m: SpiMode) -> u32 {
    match m {
        SpiMode::M0 => 0x00,
        SpiMode::M1 => 0x01,
        SpiMode::M2 => 0x02,
        SpiMode::M3 => 0x03,
    }
}

/// The number of a clock mode, as users write it.
pub open spec fn spec_mode_number(m: SpiMode) -> u8 {
    match m {
        SpiMode::M0 => 0,
        SpiMode::M1 => 1,
        SpiMode::M2 => 2,
        SpiMode::M3 => 3,
    }
}

/// The mode-register bits that select a chip-select behaviour: none for
/// active-low (the default), the active-high bit, or the no-chip-select bit.
pub open spec fn spec_select_flags(c: ChipSelect) -> u32 {
    match c {
        ChipSelect::ActiveLow => 0x00,
        ChipSelect::ActiveHigh => 0x04,
        ChipSelect::Disabled => 0x40,
    }
}

/// The name of a chip-select behaviour, as users write it.
pub open spec fn spec_select_label(c: ChipSelect) -> Seq<char> {
    match c {
        ChipSelect::ActiveLow => "active-low"@,
        ChipSelect::ActiveHigh => "active-high"@,
        ChipSelect::Disabled => "disabled"@,
    }
}

/// Relies on spidev::SpiModeFlags::SPI_MODE_0 being 0x00 (Linux SPI ABI).
#[verifier::external_body]
fn spi_mode_0_bits() -> (r: u32)
    ensures
        r == 0x00u32,
{
    spidev::SpiModeFlags::SPI_MODE_0.bits()
}

/// Relies on spidev::SpiModeFlags::SPI_MODE_1 being the clock-phase bit 0x01.
#[verifier::external_body]
fn spi_mode_1_bits() -> (r: u32)
    ensures
        r == 0x01u32,
{
    spidev::SpiModeFlags::SPI_MODE_1.bits()
}

/// Relies on spidev::SpiModeFlags::SPI_MODE_2 being the clock-polarity bit 0x02.
#[verifier::external_body]
fn spi_mode_2_bits() -> (r: u32)
    ensures
        r == 0x02u32,
{
    spidev::SpiModeFlags::SPI_MODE_2.bits()
}

/// Relies on spidev::SpiModeFlags::SPI_MODE_3 being phase and polarity, 0x03.
#[verifier::external_body]
fn spi_mode_3_bits() -> (r: u32)
    ensures
        r == 0x03u32,
{
    spidev::SpiModeFlags::SPI_MODE_3.bits()
}

/// Relies on spidev::SpiModeFlags::empty() having no bits set.
#[verifier::external_body]
fn spi_no_flag_bits() -> (r: u32)
    ensures
        r == 0x00u32,
{
    spidev::SpiModeFlags::empty().bits()
}

/// Relies on spidev::SpiModeFlags::SPI_CS_HIGH being 0x04 (Linux SPI ABI).
#[verifier::external_body]
fn spi_cs_high_bits() -> (r: u32)
    ensures
        r == 0x04u32,
{
    spidev::SpiModeFlags::SPI_CS_HIGH.bits()
}

/// Relies on spidev::SpiModeFlags::SPI_NO_CS being 0x40 (Linux SPI ABI).
#[verifier::external_body]
fn spi_no_cs_bits() -> (r: u32)
    ensures
        r == 0x40u32,
{
    spidev::SpiModeFlags::SPI_NO_CS.bits()
}

impl SpiMode {
    /// The mode-register bits that the bus driver expects for this clock mode.
    pub fn flags(&self) -> (r: u32)
        ensures
            r == spec_mode_flags(*self),
    {
        match *self {
            SpiMode::M0 => spi_mode_0_bits(),
            SpiMode::M1 => spi_mode_1_bits(),
            SpiMode::M2 => spi_mode_2_bits(),
            SpiMode::M3 => spi_mode_3_bits(),
        }
    }

    /// The mode's number, 0 through 3.
    pub fn number(&self) -> (r: u8)
        ensures
            r == spec_mode_number(*self),
    {
        match *self {
            SpiMode::M0 => 0,
            SpiMode::M1 => 1,
            SpiMode::M2 => 2,
            SpiMode::M3 => 3,
        }
    }
}

impl ChipSelect {
    /// The mode-register bits that the bus driver expects for this
    /// chip-select behaviour.
    pub fn flags(&self) -> (r: u32)
        ensures
            r == spec_select_flags(*self),
    {
        match *self {
            ChipSelect::ActiveLow => spi_no_flag_bits(),
            ChipSelect::ActiveHigh => spi_cs_high_bits(),
            ChipSelect::Disabled => spi_no_cs_bits(),
        }
    }

    /// The behaviour's name, as users write it on the command line.
    pub fn label(&self) -> (r: &'static str)
        ensures
            r@ == spec_select_label(*self),
    {
        match *self {
            ChipSelect::ActiveLow => "active-low",
            ChipSelect::ActiveHigh => "active-high",
            ChipSelect::Disabled => "disabled",
        }
    }
}

/// Everything the bus driver is told before the first transfer.
#[derive(Clone, Copy, Debug, PartialEq, Eq, Structural)]
pub struct BusConfiguration {
    pub speed_hz: u32,
    pub mode: SpiMode,
    pub chip_select: ChipSelect,
    pub bits_per_word: u8,
}

/// One setting applied to the bus device.
#[derive(Clone, Copy, Debug, PartialEq, Eq, Structural)]
pub enum ConfigStep {
    BitsPerWord(u8),
    MaxSpeedHz(u32),
    Mode(SpiMode),
    Select(ChipSelect),
}

/// The settings of a configuration, in the order they are applied to the
/// device: word width, clock speed, clock mode, then chip-select behaviour.
/// Each is a separate call to the driver, so a rejection leaves the device
/// partially configured; the caller surfaces the failing step.
pub fn configuration_steps(cfg: &BusConfiguration) -> (steps: Vec<ConfigStep>)
    ensures
        steps@.len() == 4,
        steps@[0] == ConfigStep::BitsPerWord(cfg.bits_per_word),
        steps@[1] == ConfigStep::MaxSpeedHz(cfg.speed_hz),
        steps@[2] == ConfigStep::Mode(cfg.mode),
        steps@[3] == ConfigStep::Select(cfg.chip_select),
{
    let mut steps: Vec<ConfigStep> = Vec::new();
    steps.push(ConfigStep::BitsPerWord(cfg.bits_per_word));
    steps.push(ConfigStep::MaxSpeedHz(cfg.speed_hz));
    steps.push(ConfigStep::Mode(cfg.mode));
    steps.push(ConfigStep::Select(cfg.chip_select));
    steps
}

} // verus!
