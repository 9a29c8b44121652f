use spicat::config::{configuration_steps, BusConfiguration, ChipSelect, ConfigStep, SpiMode};

#[test]
fn mode_flags_match_the_bus_driver_constants() {
    assert_eq!(SpiMode::M0.flags(), spidev::SpiModeFlags::SPI_MODE_0.bits());
    assert_eq!(SpiMode::M1.flags(), spidev::SpiModeFlags::SPI_MODE_1.bits());
    assert_eq!(SpiMode::M2.flags(), spidev::SpiModeFlags::SPI_MODE_2.bits());
    assert_eq!(SpiMode::M3.flags(), spidev::SpiModeFlags::SPI_MODE_3.bits());
}

#[test]
fn mode_flags_exact_values() {
    assert_eq!(SpiMode::M0.flags(), 0x00);
    assert_eq!(SpiMode::M1.flags(), 0x01);
    assert_eq!(SpiMode::M2.flags(), 0x02);
    assert_eq!(SpiMode::M3.flags(), 0x03);
}

#[test]
fn mode_numbers() {
    assert_eq!(SpiMode::M0.number(), 0);
    assert_eq!(SpiMode::M1.number(), 1);
    assert_eq!(SpiMode::M2.number(), 2);
    assert_eq!(SpiMode::M3.number(), 3);
}

#[test]
fn chip_select_flags_match_the_bus_driver_constants() {
    assert_eq!(ChipSelect::ActiveLow.flags(), spidev::SpiModeFlags::empty().bits());
    assert_eq!(ChipSelect::ActiveHigh.flags(), spidev::SpiModeFlags::SPI_CS_HIGH.bits());
    assert_eq!(ChipSelect::Disabled.flags(), spidev::SpiModeFlags::SPI_NO_CS.bits());
}

#[test]
fn chip_select_flags_exact_values() {
    assert_eq!(ChipSelect::ActiveLow.flags(), 0x00);
    assert_eq!(ChipSelect::ActiveHigh.flags(), 0x04);
    assert_eq!(ChipSelect::Disabled.flags(), 0x40);
}

#[test]
fn chip_select_labels() {
    assert_eq!(ChipSelect::ActiveLow.label(), "active-low");
    assert_eq!(ChipSelect::ActiveHigh.label(), "active-high");
    assert_eq!(ChipSelect::Disabled.label(), "disabled");
}

#[test]
fn configuration_steps_come_in_driver_order() {
    let cfg = BusConfiguration {
        speed_hz: 2_000_000,
        mode: SpiMode::M3,
        chip_select: ChipSelect::ActiveHigh,
        bits_per_word: 16,
    };
    let steps = configuration_steps(&cfg);
    assert_eq!(
        steps,
        vec![
            ConfigStep::BitsPerWord(16),
            ConfigStep::MaxSpeedHz(2_000_000),
            ConfigStep::Mode(SpiMode::M3),
            ConfigStep::Select(ChipSelect::ActiveHigh),
        ]
    );
}
