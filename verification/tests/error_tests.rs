use spicat::config::{ChipSelect, ConfigStep, SpiMode};
use spicat::errors::{OpenTarget, SpiError};

#[test]
fn rejected_bits_per_word_names_field_and_value() {
    let e = SpiError::Configuration { step: ConfigStep::BitsPerWord(9) };
    assert_eq!(e.describe(), "Failed to set 9 bits per word");
}

#[test]
fn rejected_speed_names_field_and_value() {
    let e = SpiError::Configuration { step: ConfigStep::MaxSpeedHz(1_000_000) };
    assert_eq!(e.describe(), "Failed to max speed to 1000000 Hz");
}

#[test]
fn rejected_mode_names_its_number() {
    let e = SpiError::Configuration { step: ConfigStep::Mode(SpiMode::M2) };
    assert_eq!(e.describe(), "Failed to set SPI mode to 2");
}

#[test]
fn rejected_chip_select_names_its_label() {
    let e = SpiError::Configuration { step: ConfigStep::Select(ChipSelect::Disabled) };
    assert_eq!(e.describe(), "Failed to set chip select mode to disabled");
}

#[test]
fn open_errors_name_target_and_path() {
    let device = SpiError::Open { target: OpenTarget::Device, path: String::from("/dev/spidev0.0") };
    assert_eq!(device.describe(), "Failed to open spidev /dev/spidev0.0");

    let input = SpiError::Open { target: OpenTarget::InputFile, path: String::from("payload.bin") };
    assert_eq!(input.describe(), "Failed to open input file payload.bin");

    let output = SpiError::Open { target: OpenTarget::OutputFile, path: String::from("out.bin") };
    assert_eq!(output.describe(), "Failed to create output file out.bin");
}

#[test]
fn remaining_errors_name_their_operation() {
    assert_eq!(SpiError::InputRead.describe(), "Failed to read input message");
    assert_eq!(SpiError::Transfer.describe(), "SPI transaction failed");
    assert_eq!(SpiError::OutputWrite.describe(), "Failed to write to output stream");
}

#[test]
fn decimal_rendering_covers_edge_values() {
    let zero = SpiError::Configuration { step: ConfigStep::BitsPerWord(0) };
    assert_eq!(zero.describe(), "Failed to set 0 bits per word");

    let max = SpiError::Configuration { step: ConfigStep::BitsPerWord(255) };
    assert_eq!(max.describe(), "Failed to set 255 bits per word");

    let max_speed = SpiError::Configuration { step: ConfigStep::MaxSpeedHz(u32::MAX) };
    assert_eq!(max_speed.describe(), "Failed to max speed to 4294967295 Hz");
}
