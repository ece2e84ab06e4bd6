use ariel_os_core::matrix::{
    all_rows, board_row, board_rows, find_chip, find_support, find_support_key,
    functionality_support, names_functionality, unique_names, BoardInfo, ChipInfo, Error, FunctionalityInfo,
    Matrix, SupportInfo, SupportKeyInfo, SupportTier,
};

fn s(x: &str) -> String {
    x.to_string()
}

fn key(name: &str, icon: &str) -> SupportKeyInfo {
    SupportKeyInfo { name: s(name), icon: s(icon), description: format!("{name} it is") }
}

fn functionality(name: &str) -> FunctionalityInfo {
    FunctionalityInfo { name: s(name), title: name.to_uppercase(), description: s("") }
}

fn status(name: &str, status: &str) -> (String, SupportInfo) {
    (s(name), SupportInfo::StatusOnly(s(status)))
}

fn board(name: &str, chip: &str, tier: &str, support: Vec<(String, SupportInfo)>) -> (String, BoardInfo) {
    (
        name.to_lowercase().replace(' ', "-"),
        BoardInfo {
            name: s(name),
            description: None,
            url: format!("https://example.org/{name}"),
            chip: s(chip),
            tier: s(tier),
            support,
        },
    )
}

fn matrix() -> Matrix {
    Matrix {
        support_keys: vec![key("supported", "Y"), key("not_supported", "N"), key("wip", "W")],
        functionalities: vec![functionality("gpio"), functionality("i2c")],
        chips: vec![
            (
                s("rp2040"),
                ChipInfo {
                    name: s("RP2040"),
                    description: None,
                    support: vec![status("gpio", "supported"), status("i2c", "wip")],
                },
            ),
            (
                s("nrf52840"),
                ChipInfo { name: s("nRF52840"), description: None, support: vec![status("gpio", "supported")] },
            ),
        ],
        boards: vec![
            board("rpi Pico", "rp2040", "1", vec![]),
            board("Adafruit Feather", "nrf52840", "1", vec![status("i2c", "not_supported")]),
            board("Zebra", "rp2040", "2", vec![status("gpio", "wip")]),
            board("banana Pi", "rp2040", "1", vec![status("i2c", "supported")]),
        ],
    }
}

fn cells(row: &ariel_os_core::matrix::BoardSupport) -> Vec<&str> {
    row.functionalities.iter().map(|f| f.icon.as_str()).collect()
}

#[test]
fn support_tier_arguments() {
    assert_eq!(SupportTier::from_arg_value("tier-1"), Ok(SupportTier::Tier1));
    assert_eq!(SupportTier::from_arg_value("1"), Ok(SupportTier::Tier1));
    assert_eq!(SupportTier::from_arg_value("tier-2"), Ok(SupportTier::Tier2));
    assert_eq!(SupportTier::from_arg_value("3"), Ok(SupportTier::Tier3));
    assert_eq!(SupportTier::from_arg_value("tier-4"), Err(s("invalid board support tier")));
    assert_eq!(SupportTier::Tier1.to_string(), "1");
    assert_eq!(SupportTier::Tier2.to_string(), "2");
    assert_eq!(SupportTier::Tier3.to_string(), "3");
}

#[test]
fn matrix_lookups() {
    let m = matrix();
    assert!(names_functionality(&m.functionalities, &s("i2c")));
    assert!(!names_functionality(&m.functionalities, &s("I2C")));
    assert_eq!(find_chip(&m.chips, &s("nrf52840")), Some(1));
    assert_eq!(find_chip(&m.chips, &s("esp32")), None);
    assert_eq!(find_support(&m.chips[0].1.support, &s("i2c")), Some(1));
    assert_eq!(find_support(&m.chips[1].1.support, &s("i2c")), None);
    assert_eq!(find_support_key(&m.support_keys, "wip"), Some(2));
    assert_eq!(find_support_key(&m.support_keys, "broken"), None);
}

#[test]
fn rows_are_sorted_by_lower_case_name_and_filtered_by_tier() {
    let m = matrix();
    let rows = board_rows(&m, &SupportTier::Tier1).unwrap();
    let names: Vec<&str> = rows.iter().map(|r| r.name.as_str()).collect();
    assert_eq!(names, vec!["Adafruit Feather", "banana Pi", "rpi Pico"]);
    assert_eq!(cells(&rows[0]), vec!["Y", "N"]);
    assert_eq!(cells(&rows[1]), vec!["Y", "Y"]);
    assert_eq!(cells(&rows[2]), vec!["Y", "W"]);
    assert_eq!(rows[0].chip, "nRF52840");
    assert_eq!(rows[0].chip_technical_name, "nrf52840");
    assert_eq!(rows[0].technical_name, "adafruit-feather");
    assert_eq!(rows[0].url, "https://example.org/Adafruit Feather");
    assert_eq!(rows[0].tier, "1");
    assert_eq!(rows[0].functionalities[1].description, "not_supported it is");
    let rows = board_rows(&m, &SupportTier::Tier2).unwrap();
    assert_eq!(rows.len(), 1);
    assert_eq!(cells(&rows[0]), vec!["W", "W"]);
    assert!(board_rows(&m, &SupportTier::Tier3).unwrap().is_empty());
    assert_eq!(all_rows(&m).unwrap().len(), 4);
}

#[test]
fn board_overrides_its_chip() {
    let m = matrix();
    assert_eq!(functionality_support(&m, 0, 1).unwrap().icon, "W");
    assert_eq!(functionality_support(&m, 3, 1).unwrap().icon, "Y");
    assert_eq!(functionality_support(&m, 2, 0).unwrap().icon, "W");
    assert_eq!(board_row(&m, 1).unwrap().name, "Adafruit Feather");
}

#[test]
fn row_errors() {
    let mut m = matrix();
    m.boards[1].1.support.clear();
    match board_rows(&m, &SupportTier::Tier2) {
        Err(Error::MissingSupportInfo { board, chip, functionality }) => {
            assert_eq!((board.as_str(), chip.as_str(), functionality.as_str()), ("Adafruit Feather", "nrf52840", "I2C"));
        }
        other => panic!("unexpected result: {:?}", other.map(|r| r.len())),
    }
    let mut m = matrix();
    m.boards[2].1.support = vec![status("gpio", "maybe")];
    match board_rows(&m, &SupportTier::Tier1) {
        Err(Error::InvalidSupportKeyNameBoard { found, functionality, board }) => {
            assert_eq!((found.as_str(), functionality.as_str(), board.as_str()), ("maybe", "gpio", "Zebra"));
        }
        other => panic!("unexpected result: {:?}", other.map(|r| r.len())),
    }
    let mut m = matrix();
    m.chips[0].1.support[1] = status("i2c", "soon");
    match board_row(&m, 0) {
        Err(Error::InvalidSupportKeyNameChip { found, functionality, chip }) => {
            assert_eq!((found.as_str(), functionality.as_str(), chip.as_str()), ("soon", "i2c", "RP2040"));
        }
        other => panic!("unexpected result: {:?}", other.map(|r| r.name)),
    }
    let mut m = matrix();
    m.boards[0].1.chip = s("esp32");
    match board_row(&m, 0) {
        Err(Error::InvalidChipName { found, board }) => {
            assert_eq!((found.as_str(), board.as_str()), ("esp32", "rpi Pico"));
        }
        other => panic!("unexpected result: {:?}", other.map(|r| r.name)),
    }
    // A board that names every functionality itself still needs its chip.
    let mut m = matrix();
    m.boards[3].1.support = vec![status("gpio", "wip"), status("i2c", "wip")];
    m.boards[3].1.chip = s("esp32");
    assert!(matches!(board_row(&m, 3), Err(Error::InvalidChipName { .. })));
}

#[test]
fn names_occur_once_in_a_well_formed_matrix() {
    let m = matrix();
    assert!(m.is_wf());
    assert!(unique_names(&m.chips));
    assert!(unique_names(&m.boards[1].1.support));
    let mut twice = matrix();
    twice.chips.push((s("rp2040"), ChipInfo { name: s("other"), description: None, support: vec![] }));
    assert!(!unique_names(&twice.chips));
    assert!(!twice.is_wf());
    let mut twice = matrix();
    let again = board("Another", "rp2040", "3", vec![]);
    twice.boards.push((s("zebra"), again.1));
    assert!(!twice.is_wf());
    let mut twice = matrix();
    twice.boards[2].1.support.push(status("gpio", "supported"));
    assert!(!twice.is_wf());
    let mut twice = matrix();
    twice.chips[0].1.support.push(status("i2c", "supported"));
    assert!(!twice.is_wf());
    // The same name may stand with a chip and with a board.
    let mut shared = matrix();
    shared.boards[0].1.support.push(status("gpio", "wip"));
    assert!(shared.is_wf());
}
