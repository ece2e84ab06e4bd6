use ariel_os_core::gpio::{DriveStrength, Input, IntEnabledInput, Level, Output, Pull, Speed};
use ariel_os_core::rp;
use ariel_os_core::sensors::{
    Category, Driver, Label, MeasurementUnit, ReadingChannel,
    accel_samples, accuracy, pressure_sample, temperature_sample, thermometer_ready, Accuracy,
    data_ready, div_trunc, i16_le, imu_samples, mag_samples, set_mode, trigger_measurement,
    trigger_when_enabled, wait_for_reading, wait_when_enabled, Mode, ReadingError, SetModeError,
    State, TriggerMeasurementError, IMU_DATA_READY_MASK, MAG_DATA_READY_MASK,
};
use ariel_os_core::sht3x::{
    check_crc, check_heater, h_accuracy, heater_is_on, read_measurement, read_status, t_accuracy,
    Command, Config, I2cAddress, SampleMetadata, HEATER_STATUS,
};
use ariel_os_core::spi::{BitOrder, Config as SpiConfig, Frequency, Kilohertz, Mode as SpiMode};

#[test]
fn gpio_handles_hold_the_settings_and_nothing_else() {
    assert_eq!(std::mem::size_of::<Input>(), std::mem::size_of::<rp::Input>());
    assert_eq!(std::mem::size_of::<IntEnabledInput>(), std::mem::size_of::<rp::Input>());
    assert_eq!(std::mem::size_of::<Output>(), std::mem::size_of::<rp::Output>());
}

#[test]
fn input_builder() {
    let i = Input::new(3, Pull::Up);
    assert_eq!(i.settings(), rp::Input { pin: 3, pull: rp::Pull::Up, schmitt: false });
    let i = Input::builder(4, Pull::Down).schmitt_trigger(true).build();
    assert_eq!(i.settings(), rp::Input { pin: 4, pull: rp::Pull::Down, schmitt: true });
    let i = Input::builder(5, Pull::Disabled).schmitt_trigger(true).opt_schmitt_trigger(false).build();
    assert_eq!(i.settings(), rp::Input { pin: 5, pull: rp::Pull::Disabled, schmitt: false });
    let i = Input::builder(6, Pull::Up).opt_schmitt_trigger(true).build_with_interrupt().unwrap();
    assert_eq!(i.settings(), rp::Input { pin: 6, pull: rp::Pull::Up, schmitt: true });
}

#[test]
fn output_builder_and_levels() {
    let mut o = Output::new(7, Level::High);
    assert_eq!(
        o.settings(),
        rp::Output { pin: 7, level: rp::Level::High, drive: rp::Drive::_4mA, slew_rate: rp::SlewRate::Slow }
    );
    o.toggle();
    assert_eq!(o.settings().level, rp::Level::Low);
    o.toggle();
    assert_eq!(o.settings().level, rp::Level::High);
    o.set_low();
    assert_eq!(o.settings().level, rp::Level::Low);
    o.set_level(Level::High);
    assert_eq!(o.settings().level, rp::Level::High);
    o.set_level(Level::Low);
    o.set_high();
    assert_eq!(o.settings().level, rp::Level::High);
    let o = Output::builder(8, Level::Low)
        .drive_strength(DriveStrength::Highest)
        .speed(Speed::VeryHigh)
        .build();
    assert_eq!(
        o.settings(),
        rp::Output { pin: 8, level: rp::Level::Low, drive: rp::Drive::_12mA, slew_rate: rp::SlewRate::Fast }
    );
    let o = Output::builder(9, Level::Low)
        .drive_strength(DriveStrength::Arch(rp::DriveStrength::_8mA))
        .speed(Speed::Arch(rp::Speed::High))
        .build();
    assert_eq!(o.settings().drive, rp::Drive::_8mA);
    assert_eq!(o.settings().slew_rate, rp::SlewRate::Fast);
}

#[test]
fn rp_conversions() {
    assert_eq!(rp::DriveStrength::from(DriveStrength::Lowest), rp::DriveStrength::_2mA);
    assert_eq!(rp::DriveStrength::from(DriveStrength::Standard), rp::DriveStrength::default());
    assert_eq!(rp::DriveStrength::default(), rp::DriveStrength::_4mA);
    assert_eq!(rp::DriveStrength::from(DriveStrength::Medium), rp::DriveStrength::_8mA);
    assert_eq!(rp::DriveStrength::from(DriveStrength::High), rp::DriveStrength::_12mA);
    assert_eq!(rp::Speed::from(Speed::Low), rp::Speed::Low);
    assert_eq!(rp::Speed::from(Speed::Medium), rp::Speed::Low);
    assert_eq!(rp::Speed::from(Speed::High), rp::Speed::High);
    assert_eq!(rp::Speed::default(), rp::Speed::Low);
    assert_eq!(rp::Drive::from(rp::DriveStrength::_2mA), rp::Drive::_2mA);
    assert_eq!(rp::SlewRate::from(rp::Speed::High), rp::SlewRate::Fast);
    assert_eq!(Level::from(rp::Level::High), Level::High);
    assert_eq!(rp::Level::from(Level::Low), rp::Level::Low);
    assert_eq!(rp::Pull::from(Pull::Disabled), rp::Pull::Disabled);
    assert_eq!(rp::from_mode(SpiMode::Mode0), (rp::Polarity::IdleLow, rp::Phase::CaptureOnFirstTransition));
    assert_eq!(rp::from_mode(SpiMode::Mode1), (rp::Polarity::IdleLow, rp::Phase::CaptureOnSecondTransition));
    assert_eq!(rp::from_mode(SpiMode::Mode2), (rp::Polarity::IdleHigh, rp::Phase::CaptureOnFirstTransition));
    assert_eq!(rp::from_mode(SpiMode::Mode3), (rp::Polarity::IdleHigh, rp::Phase::CaptureOnSecondTransition));
}

#[test]
fn spi_defaults() {
    let c = SpiConfig::default();
    assert_eq!(c.frequency, Frequency::F(Kilohertz(80_000)));
    assert_eq!(c.frequency.khz(), 80_000);
    assert_eq!(c.mode, SpiMode::Mode0);
    assert_eq!(c.bit_order, BitOrder::MsbFirst);
    assert_eq!(Kilohertz::MHz(4), Kilohertz::kHz(4000));
    assert_eq!(Kilohertz::kHz(125).raw(), 125);
}

#[test]
fn sht3x_checksum_of_the_datasheet() {
    // The datasheet gives 0x92 as the checksum of 0xBEEF.
    assert!(check_crc(&[0xBE, 0xEF], 0x92));
    assert!(!check_crc(&[0xBE, 0xEF], 0x93));
    assert!(!check_crc(&[0xEF, 0xBE], 0x92));
    assert!(check_crc(&[0x00, 0x00], 0x81));
}

#[test]
fn sht3x_status_and_heater() {
    assert_eq!(read_status(&[0xBE, 0xEF, 0x92]), Ok(0xBEEF));
    assert_eq!(read_status(&[0xBE, 0xEF, 0x00]), Err(()));
    assert!(heater_is_on(HEATER_STATUS));
    assert!(heater_is_on(0xBEEF));
    assert!(!heater_is_on(0x0000));
    assert_eq!(check_heater(&[0xBE, 0xEF, 0x92], true), Ok(()));
    assert_eq!(check_heater(&[0xBE, 0xEF, 0x92], false), Err(()));
    assert_eq!(check_heater(&[0x00, 0x00, 0x81], false), Ok(()));
    assert_eq!(check_heater(&[0x00, 0x00, 0x81], true), Err(()));
    assert_eq!(check_heater(&[0x00, 0x00, 0x80], false), Err(()));
}

#[test]
fn sht3x_measurement() {
    assert_eq!(read_measurement(&[0xBE, 0xEF, 0x92, 0x00, 0x00, 0x81]), Ok((0xBEEF, 0)));
    assert_eq!(read_measurement(&[0xBE, 0xEF, 0x91, 0x00, 0x00, 0x81]), Err(()));
    assert_eq!(read_measurement(&[0xBE, 0xEF, 0x92, 0x00, 0x00, 0x82]), Err(()));
}

#[test]
fn sht3x_accuracy_and_commands() {
    let sym = |deviation, scaling| SampleMetadata::SymmetricalError { deviation, bias: 0, scaling };
    assert_eq!(t_accuracy(2500), sym(40, -2));
    assert_eq!(t_accuracy(-3999), sym(40, -2));
    assert_eq!(t_accuracy(-4000), sym(75, -2));
    assert_eq!(t_accuracy(8999), sym(40, -2));
    assert_eq!(t_accuracy(9000), sym(75, -2));
    assert_eq!(h_accuracy(8999), sym(250, -2));
    assert_eq!(h_accuracy(9000), sym(35, -1));
    assert_eq!(h_accuracy(-1), sym(250, -2));
    assert_eq!(Command::SoftReset.code(), 0x30A2);
    assert_eq!(Command::ReadStatusReg.to_be_bytes(), [0xF3, 0x2D]);
    assert_eq!(Command::SingleShotDisabledMedium.to_be_bytes(), [0x24, 0x0B]);
    assert_eq!(Command::HeaterEnable.code(), 0x306D);
    assert_eq!(Command::HeaterDisable.code(), 0x3066);
    assert_eq!(I2cAddress::default().address(), 0x44);
    assert_eq!(I2cAddress::AddrLogicHigh.address(), 0x45);
    assert_eq!(Config::default().address, I2cAddress::AddrLogicLow);
}

#[test]
fn sensor_states() {
    let mut s = State::Uninitialized;
    assert_eq!(set_mode(&mut s, Mode::Enabled), Err(SetModeError::Uninitialized));
    assert_eq!(s, State::Uninitialized);
    assert_eq!(trigger_measurement(&mut s), Err(TriggerMeasurementError::NonEnabled));
    assert_eq!(wait_for_reading(&mut s), Err(ReadingError::NonEnabled));
    let mut s = State::Disabled;
    assert_eq!(set_mode(&mut s, Mode::Enabled), Ok(State::Enabled));
    assert_eq!(wait_for_reading(&mut s), Err(ReadingError::NotMeasuring));
    assert_eq!(trigger_measurement(&mut s), Ok(()));
    assert_eq!(s, State::Measuring);
    assert_eq!(trigger_measurement(&mut s), Ok(()));
    assert_eq!(wait_for_reading(&mut s), Ok(()));
    assert_eq!(s, State::Enabled);
    assert_eq!(set_mode(&mut s, Mode::Sleeping), Ok(State::Sleeping));
    assert_eq!(set_mode(&mut s, Mode::Disabled), Ok(State::Disabled));
    assert_eq!(trigger_when_enabled(State::Enabled), Ok(()));
    assert_eq!(trigger_when_enabled(State::Measuring), Err(TriggerMeasurementError::NonEnabled));
    assert_eq!(wait_when_enabled(State::Enabled), Ok(()));
    assert_eq!(wait_when_enabled(State::Sleeping), Err(ReadingError::NonEnabled));
}

#[test]
fn sensor_samples() {
    assert_eq!(i16_le(0x34, 0x12), 0x1234);
    assert_eq!(i16_le(0xFF, 0xFF), -1);
    assert_eq!(i16_le(0x00, 0x80), -32768);
    assert_eq!(div_trunc(-17, 16), -1);
    assert_eq!(div_trunc(-15, 16), 0);
    assert_eq!(div_trunc(33, 16), 2);
    assert_eq!(div_trunc(-3, 2), -1);
    assert_eq!(div_trunc(7, -2), -3);
    assert_eq!(div_trunc(-7, -2), 3);
    assert_eq!(div_trunc(0, -5), 0);
    assert_eq!(div_trunc(i32::MIN, 1), i32::MIN);
    assert_eq!(div_trunc(i32::MIN, 2), -1_073_741_824);
    assert_eq!(div_trunc(i32::MIN, i32::MIN), 1);
    assert_eq!(div_trunc(i32::MAX, -1), -i32::MAX);
    assert_eq!(div_trunc(i32::MAX, i32::MIN), 0);
    let buf = [0x7D, 0x00, 0x83, 0xFF, 0xFA, 0x00, 0x10, 0x00, 0xF0, 0xFF, 0xEF, 0xFF];
    assert_eq!(imu_samples(&buf), [1, -1, -1, 1, -1, 2]);
    assert_eq!(mag_samples(&[0x03, 0x00, 0xFF, 0xFF, 0x00, 0x80]), [4, -1, -49152]);
    assert!(data_ready(0x03, IMU_DATA_READY_MASK));
    assert!(!data_ready(0x01, IMU_DATA_READY_MASK));
    assert!(data_ready(0x0F, MAG_DATA_READY_MASK));
    assert!(!data_ready(0x07, MAG_DATA_READY_MASK));
}

#[test]
fn more_sensor_samples() {
    assert_eq!(accel_samples(&[0x20, 0x00, 0xE0, 0xFF, 0xFF, 0x7F]), [2, -2, 2047]);
    assert_eq!(pressure_sample(&[0x00, 0x50, 0x3F]), 1013);
    assert_eq!(pressure_sample(&[0xFF, 0xFF, 0xFF]), 4095);
    assert_eq!(temperature_sample(&[0xC4, 0x09]), 2500);
    assert_eq!(temperature_sample(&[0xFF, 0xFF]), 65535);
    let sym = |deviation| Accuracy::SymmetricalError { deviation, bias: 0, scaling: -2 };
    assert_eq!(accuracy(2500), sym(50));
    assert_eq!(accuracy(-500), sym(100));
    assert_eq!(accuracy(5500), sym(100));
    assert_eq!(accuracy(5499), sym(50));
    assert!(thermometer_ready(0xFE));
    assert!(!thermometer_ready(0x01));
}

#[test]
fn driver_descriptions() {
    let ch = |label, scaling, unit| ReadingChannel { label, scaling, unit };
    assert_eq!(Driver::Lsm6dsv16x.categories(), vec![Category::Accelerometer, Category::Gyroscope]);
    assert_eq!(
        Driver::Lsm6dsv16x.reading_channels(),
        vec![
            ch(Label::X, -3, MeasurementUnit::AccelG),
            ch(Label::Y, -3, MeasurementUnit::AccelG),
            ch(Label::Z, -3, MeasurementUnit::AccelG),
            ch(Label::X, 0, MeasurementUnit::Degree),
            ch(Label::Y, 0, MeasurementUnit::Degree),
            ch(Label::Z, 0, MeasurementUnit::Degree),
        ]
    );
    assert_eq!(Driver::Lis2mdl.reading_channels()[2], ch(Label::Z, -7, MeasurementUnit::Tesla));
    assert_eq!(Driver::Lis2du12.reading_channels().len(), 3);
    assert_eq!(Driver::Lps22df.reading_channels(), vec![ch(Label::Main, 2, MeasurementUnit::Pascal)]);
    assert_eq!(Driver::Stts22h.reading_channels(), vec![ch(Label::Main, -2, MeasurementUnit::Celsius)]);
    assert_eq!(
        Driver::Sht3x.reading_channels(),
        vec![
            ch(Label::Temperature, -2, MeasurementUnit::Celsius),
            ch(Label::RelativeHumidity, -2, MeasurementUnit::PercentageRelativeHumidity),
        ]
    );
    assert_eq!(Driver::Sht3x.categories(), vec![Category::RelativeHumidityTemperature]);
    assert_eq!(Driver::Sht3x.part_number(), None);
    assert_eq!(Driver::Lps22df.part_number(), Some("LPS22DF"));
    assert_eq!(Driver::Lps22df.display_name(), "pressure sensor");
    assert_eq!(Driver::Stts22h.i2c_address(), Some(0x7e >> 1));
    assert_eq!(Driver::Lsm6dsv16x.i2c_address(), Some(0b1101011));
    assert_eq!(Driver::Lis2mdl.version(), 0);
}
