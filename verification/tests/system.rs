use ariel_os_core::boards::{bbc_microbit_v2, nrf9151_dk, st_nucleo_wba65ri};
use ariel_os_core::debug::{self, DebugLogger, ExitCode, Level, Logging};
use ariel_os_core::hook::{HookAttributes, HookError, HookKind};
use ariel_os_core::matrix::{
    validate_input, BoardInfo, ChipInfo, Error, FunctionalityInfo, Matrix, SupportInfo,
    SupportKeyInfo,
};
use ariel_os_core::peripherals::{self, DefinePeripheralsError, OptionalPeripherals, Peripherals};
use ariel_os_core::rt::{self, Watchdogs};
use ariel_os_core::slipmux::{
    on_decoded, packet_sizes, Action, DecodeStatus, DoesNotFit, FrameType, RequestError,
    SingleFrameDecoder, MAX_FRAME,
};
use ariel_os_core::storage::{
    flash_range_from_linker, flash_range_from_partition, initial_content, needs_initializing,
    FileFlash, FileFlashError, NorFlashErrorKind, DEFAULT_LENGTH, OFFSET_RP,
};
use ariel_os_core::task::{Attributes, ParseError, TaskError, TaskFunction};
use ariel_os_core::usb::{slipmux_usb_config, usb_config, UsbConfig};

#[test]
fn exit_codes() {
    assert_eq!(ExitCode::SUCCESS.to_semihosting_code(), 0);
    assert_eq!(ExitCode::FAILURE.to_semihosting_code(), 1);
    assert_eq!(ExitCode::SUCCESS, ExitCode::Success);
}

#[test]
fn logger_lets_info_and_worse_through() {
    debug::init();
    let mut logging = Logging { installed: false, max_level: None };
    DebugLogger::init(&mut logging);
    assert_eq!(logging, Logging { installed: true, max_level: Some(Level::Info) });
    let logger = DebugLogger;
    assert!(logger.enabled(Level::Error));
    assert!(logger.enabled(Level::Warn));
    assert!(logger.enabled(Level::Info));
    assert!(!logger.enabled(Level::Debug));
    assert!(!logger.enabled(Level::Trace));
}

#[test]
fn hook_attributes() {
    assert_eq!(HookKind::UsbBuilder.as_name(), "usb_builder");
    assert_eq!(HookKind::all(), vec![HookKind::UsbBuilder]);
    let mut attrs = HookAttributes::default();
    attrs.check_only_one_kind("usb_builder");
    match attrs.parse("usb") {
        Err(HookError::UnsupportedParameter { supported }) => assert_eq!(supported, vec!["usb_builder"]),
        Ok(()) => panic!("an unknown parameter was taken"),
    }
    assert_eq!(attrs.kind, None);
    assert!(attrs.parse("usb_builder").is_ok());
    assert_eq!(attrs.kind, Some(HookKind::UsbBuilder));
}

#[test]
fn task_attributes() {
    let mut attrs = Attributes::default();
    assert_eq!(attrs.parse("autostart", None), Ok(()));
    assert_eq!(attrs.parse("peripherals", None), Ok(()));
    assert_eq!(attrs.parse("pool", None), Err(ParseError::UnsupportedParameter));
    assert_eq!(attrs.parse("pool_size", None), Err(ParseError::MissingValue));
    assert!(attrs.autostart && attrs.peripherals && attrs.pool_size.is_none());
    let f = |is_async, param_count| TaskFunction { is_async, param_count };
    assert_eq!(attrs.check(f(true, 1)), Ok(()));
    assert_eq!(attrs.check(f(false, 1)), Err(TaskError::NotAsync));
    assert_eq!(attrs.parse("pool_size", Some("4".to_string())), Ok(()));
    assert_eq!(attrs.pool_size.as_deref(), Some("4"));
    assert_eq!(attrs.check(f(true, 1)), Err(TaskError::PoolSizeOnAutostart));
    let plain = Attributes { autostart: true, peripherals: false, pool_size: None };
    assert_eq!(plain.check(f(true, 0)), Ok(()));
    assert_eq!(plain.check(f(true, 1)), Err(TaskError::ParametersWithoutPeripherals));
    let manual = Attributes { autostart: false, peripherals: true, pool_size: None };
    assert_eq!(manual.check(f(true, 0)), Err(TaskError::PeripheralsWithoutAutostart));
    let pooled = Attributes { autostart: false, peripherals: false, pool_size: Some("2".to_string()) };
    assert_eq!(pooled.check(f(true, 3)), Ok(()));
}

#[test]
fn peripherals_are_taken_once() {
    let mut p = peripherals::init(4);
    assert!(p.is_present(3) && !p.is_present(4));
    assert_eq!(p.take(2), Ok(2));
    assert_eq!(p.take(2), Err(DefinePeripheralsError::TakingPeripheral));
    assert_eq!(p.take(9), Err(DefinePeripheralsError::TakingPeripheral));
    assert_eq!(p.take_from(&vec![0, 3]), Ok(vec![0, 3]));
    assert!(!p.is_present(0) && p.is_present(1) && !p.is_present(3));
    let mut q = OptionalPeripherals::from_all(Peripherals::new(3));
    assert_eq!(q.take_from(&vec![1, 1, 2]), Err(DefinePeripheralsError::TakingPeripheral));
    assert!(q.is_present(0) && !q.is_present(1) && q.is_present(2));
}

#[test]
fn boards_need_no_setup() {
    let mut p = peripherals::init(64);
    bbc_microbit_v2::init(&mut p);
    nrf9151_dk::init(&mut p);
    st_nucleo_wba65ri::init(&mut p);
    assert!((0..64).all(|i| p.is_present(i)));
    assert_eq!(bbc_microbit_v2::pin_index(1, 8), 40);
    assert_eq!(bbc_microbit_v2::BUTTONS, [(0, 14), (0, 23)]);
    assert_eq!(nrf9151_dk::LEDS.len(), 4);
    assert_eq!(st_nucleo_wba65ri::BUTTONS[0], (2, 13));
}

#[test]
fn runtime_stops_the_watchdogs() {
    let mut w = Watchdogs { swd: true, rwdt: true, timg0: true, timg1: false };
    rt::init(&mut w);
    assert_eq!(w, Watchdogs { swd: false, rwdt: false, timg0: false, timg1: false });
}

#[test]
fn file_flash() {
    let mut f = FileFlash::new(vec![0x0F; 8]);
    assert_eq!(f.size(), 8);
    assert_eq!(f.capacity(), 8);
    assert_eq!(f.read(6, 2), Ok(vec![0x0F, 0x0F]));
    assert_eq!(f.read(8, 0), Ok(vec![]));
    assert_eq!(f.read(7, 2), Err(FileFlashError::OutOfBounds));
    assert_eq!(f.read(9, 0), Err(FileFlashError::OutOfBounds));
    // The second argument of erase is the address where erasing ends.
    assert_eq!(f.erase(2, 5), Ok(()));
    assert_eq!(f.content(), &vec![0x0F, 0x0F, 0xFF, 0xFF, 0xFF, 0x0F, 0x0F, 0x0F]);
    assert_eq!(f.erase(6, 9), Err(FileFlashError::OutOfBounds));
    assert_eq!(f.erase(5, 4), Err(FileFlashError::OutOfBounds));
    assert_eq!(f.erase(4, 4), Ok(()));
    assert_eq!(f.erase(8, 8), Ok(()));
    assert_eq!(f.content(), &vec![0x0F, 0x0F, 0xFF, 0xFF, 0xFF, 0x0F, 0x0F, 0x0F]);
    assert_eq!(f.write(1, &vec![0xF3, 0x3C]), Ok(()));
    assert_eq!(f.content(), &vec![0x0F, 0x03, 0x3C, 0xFF, 0xFF, 0x0F, 0x0F, 0x0F]);
    assert_eq!(f.write(7, &vec![0, 0]), Err(FileFlashError::OutOfBounds));
    assert_eq!(f.content()[7], 0x0F);
    assert_eq!(FileFlashError::OutOfBounds.kind(), NorFlashErrorKind::OutOfBounds);
}

#[test]
fn flash_ranges_and_first_content() {
    let c = initial_content(&vec![7, 8, 9]);
    assert_eq!(c.len() as u64, DEFAULT_LENGTH);
    assert_eq!(&c[..4], &[7, 8, 9, 0]);
    assert_eq!(initial_content(&vec![1u8; 20000]).len() as u64, DEFAULT_LENGTH);
    assert_eq!(flash_range_from_linker(0x1010_0000, 0x1010_8000, OFFSET_RP), (0x0010_0000, 0x0010_8000));
    assert_eq!(flash_range_from_partition(Some((0x9000, 0x6000))), (0x9000, 0xF000));
    assert_eq!(flash_range_from_partition(None), (0, 0));
    assert!(!needs_initializing::<()>(&Ok(Some(0))));
    assert!(needs_initializing::<()>(&Ok(Some(1))));
    assert!(needs_initializing::<()>(&Ok(None)));
    assert!(needs_initializing(&Err::<Option<u8>, u8>(3)));
}

#[test]
fn frame_decoder() {
    let mut d = SingleFrameDecoder::new();
    assert_eq!(d.data(), Ok(vec![]));
    assert_eq!(d.take_request(), Err(RequestError::TooShort));
    d.begin_frame(FrameType::Configuration);
    for b in [1u8, 2, 3, 4, 5] {
        d.write_byte(b);
    }
    d.end_frame(false);
    assert_eq!(d.data(), Ok(vec![1, 2, 3, 4, 5]));
    assert_eq!(d.take_request(), Ok(3));
    assert_eq!(d.len(), 3);
    let mut small = vec![9u8; 2];
    assert_eq!(d.receive(&mut small), Err(DoesNotFit));
    assert_eq!(small, vec![9, 9]);
    let mut out = vec![9u8; 5];
    assert_eq!(d.receive(&mut out), Ok(3));
    assert_eq!(out, vec![1, 2, 3, 9, 9]);
    assert_eq!(d.len(), 0);
    assert_eq!(d.send_to(&vec![7, 7]), Ok(()));
    assert_eq!(d.data(), Ok(vec![7, 7]));
    assert_eq!(d.send_to(&vec![0u8; MAX_FRAME + 1]), Err(DoesNotFit));
    assert_eq!(d.len(), 0);
}

#[test]
fn frame_decoder_overflow() {
    let mut d = SingleFrameDecoder::new();
    d.begin_frame(FrameType::Configuration);
    for i in 0..MAX_FRAME {
        d.write_byte(i as u8);
    }
    assert!(d.data().is_ok());
    d.write_byte(0xEE);
    let kept = d.data().unwrap_err();
    assert_eq!(kept.len(), MAX_FRAME);
    assert_eq!(kept[MAX_FRAME - 1], (MAX_FRAME - 1) as u8);
    assert_eq!(d.take_request(), Err(RequestError::TooLong));
    d.begin_frame(FrameType::Diagnostic);
    assert_eq!(d.data(), Ok(vec![]));
}

#[test]
fn slipmux_actions_and_packets() {
    assert_eq!(on_decoded(Err(())), Action::WarnDecodingError);
    assert_eq!(on_decoded(Ok(DecodeStatus::Incomplete)), Action::Continue);
    assert_eq!(on_decoded(Ok(DecodeStatus::FrameCompleteDiagnostic)), Action::WarnDiagnostic);
    assert_eq!(on_decoded(Ok(DecodeStatus::FrameCompleteIp)), Action::WarnNetworkData);
    assert_eq!(on_decoded(Ok(DecodeStatus::FrameCompleteConfiguration)), Action::ServeCoap);
    assert_eq!(packet_sizes(0, 64), Vec::<usize>::new());
    assert_eq!(packet_sizes(10, 64), vec![10]);
    assert_eq!(packet_sizes(64, 64), vec![64, 0]);
    assert_eq!(packet_sizes(130, 64), vec![64, 64, 2]);
    assert_eq!(packet_sizes(128, 64), vec![64, 64, 0]);
    assert_eq!(packet_sizes(64, 32), vec![32, 32]);
    assert_eq!(packet_sizes(64, 100), vec![64, 0]);
}

fn s(x: &str) -> String {
    x.to_string()
}

fn small_matrix() -> Matrix {
    Matrix {
        support_keys: vec![SupportKeyInfo { name: s("supported"), icon: s("y"), description: s("works") }],
        functionalities: vec![
            FunctionalityInfo { name: s("gpio"), title: s("GPIO"), description: s("pins") },
            FunctionalityInfo { name: s("i2c"), title: s("I2C"), description: s("bus") },
        ],
        chips: vec![(
            s("nrf52840"),
            ChipInfo {
                name: s("nRF52840"),
                description: None,
                support: vec![(s("gpio"), SupportInfo::StatusOnly(s("supported")))],
            },
        )],
        boards: vec![(
            s("nrf52840dk"),
            BoardInfo {
                name: s("nRF52840-DK"),
                description: None,
                url: s("https://example.org"),
                chip: s("nrf52840"),
                tier: s("1"),
                support: vec![(
                    s("i2c"),
                    SupportInfo::Details { status: s("supported"), comments: None, link: None },
                )],
            },
        )],
    }
}

#[test]
fn matrix_validation() {
    let mut m = small_matrix();
    assert!(validate_input(&m).is_ok());
    assert_eq!(m.boards[0].1.support[0].1.status(), "supported");
    assert_eq!(m.chips[0].1.support[0].1.status(), "supported");
    m.chips[0].1.support.push((s("spi"), SupportInfo::StatusOnly(s("supported"))));
    match validate_input(&m) {
        Err(Error::InvalidFunctionalityNameChip { found, chip }) => {
            assert_eq!((found.as_str(), chip.as_str()), ("spi", "nRF52840"));
        }
        other => panic!("unexpected result: {:?}", other),
    }
    m.boards[0].1.support.push((s("usb"), SupportInfo::StatusOnly(s("supported"))));
    match validate_input(&m) {
        Err(Error::InvalidFunctionalityNameBoard { found, board }) => {
            assert_eq!((found.as_str(), board.as_str()), ("usb", "nRF52840-DK"));
        }
        other => panic!("unexpected result: {:?}", other),
    }
}

#[test]
fn usb_descriptions() {
    let c = usb_config();
    assert_eq!((c.vid, c.pid), (0xc0de, 0xcafe));
    assert_eq!(c.manufacturer, Some("Embassy"));
    assert_eq!(c.product, Some("USB-Ethernet example"));
    assert_eq!(c.serial_number, Some("12345678"));
    assert_eq!((c.device_class, c.device_sub_class, c.device_protocol), (0xEF, 0x02, 0x01));
    assert!(c.composite_with_iads);
    let c = slipmux_usb_config("Ariel OS");
    assert_eq!((c.vid, c.pid), (0x1209, 0x0009));
    assert_eq!(c.manufacturer, Some("Ariel OS"));
    assert_eq!(c.product, Some("Generic Slipmux board"));
    assert_eq!(c.serial_number, None);
    assert_eq!((c.max_power, c.max_packet_size_0), (100, 64));
    assert_eq!(UsbConfig::new(1, 2).device_class, 0);
}
