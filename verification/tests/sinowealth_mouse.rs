use sensi_alternada::hid::Collection;
use sensi_alternada::sinowealth::{
    Config, Sensor, CONFIG_REPORT_SIZE, OFF_DISABLED_SLOTS, OFF_DPIS, OFF_DPI_COUNTS, OFF_SENSOR,
};
use sensi_alternada::sinowealth_mouse::{
    is_candidate, ProfileReader, ReadAction, ReadStep, SinowealthMouse,
};

fn config(active: u8, dpis: Vec<u32>) -> Config {
    Config { sensor: Sensor::Pmw3360, dpi_count: dpis.len() as u8, active_dpi: active, dpis }
}

fn mouse(profiles: Vec<Config>) -> SinowealthMouse {
    let mut m = SinowealthMouse::open(65, 0x0033);
    m.profiles = profiles;
    m
}

fn raw_config(disabled: u8) -> Vec<u8> {
    let mut raw = vec![0u8; CONFIG_REPORT_SIZE];
    raw[OFF_SENSOR] = 0x06;
    raw[OFF_DPI_COUNTS] = 0x12;
    raw[OFF_DISABLED_SLOTS] = disabled;
    raw[OFF_DPIS] = 3;
    raw[OFF_DPIS + 1] = 7;
    raw
}

#[test]
fn only_sinowealth_collections_with_feature_reports_are_candidates() {
    let mut c = Collection {
        path: String::from("x"),
        vendor_id: 0x258A,
        product_id: 0x33,
        usage_page: 1,
        usage: 2,
        input_len: 8,
        output_len: 0,
        feature_len: 65,
    };
    assert!(is_candidate(&c));
    c.feature_len = 0;
    assert!(!is_candidate(&c));
    c.feature_len = 65;
    c.vendor_id = 0x046D;
    assert!(!is_candidate(&c));
}

#[test]
fn the_profile_dpi_is_the_active_slot_counted_from_one() {
    let m = mouse(vec![config(2, vec![400, 800, 1600]), config(0, vec![400])]);
    assert_eq!(m.dpi_of_profile(0), Some(800));
    assert_eq!(m.dpi_of_profile(1), None, "slot 0 nao existe");
    assert_eq!(m.dpi_of_profile(2), None);
    let m = mouse(vec![config(4, vec![400, 800, 1600])]);
    assert_eq!(m.dpi_of_profile(0), None, "slot alem da lista");
}

#[test]
fn switching_needs_two_profiles() {
    assert!(!mouse(vec![config(1, vec![400])]).can_switch());
    assert!(mouse(vec![config(1, vec![400]), config(1, vec![800])]).can_switch());
}

#[test]
fn selecting_a_missing_profile_says_which() {
    let m = mouse(vec![config(1, vec![400])]);
    assert_eq!(m.select_profile(0), Ok([0x05, 0x02, 0x01, 0, 0, 0]));
    assert_eq!(m.select_profile(1), Err(String::from("perfil 2 nao existe neste mouse")));
}

#[test]
fn buffers_take_the_collection_length() {
    let m = mouse(vec![]);
    let buffer = m.feature_buffer(&[0x05, 0x02, 0x01, 0, 0, 0]);
    assert_eq!(buffer.len(), 65);
    assert_eq!(&buffer[..6], &[0x05, 0x02, 0x01, 0, 0, 0]);
    assert!(buffer[6..].iter().all(|b| *b == 0));
    let read = m.report_buffer(0x04, CONFIG_REPORT_SIZE);
    assert_eq!(read.len(), CONFIG_REPORT_SIZE);
    assert_eq!(read[0], 0x04);
    let tiny = SinowealthMouse::open(2, 1);
    assert_eq!(tiny.feature_buffer(&[1, 2, 3, 4, 5, 6]).len(), 6);
}

#[test]
fn the_description_names_the_model_and_the_profiles() {
    assert_eq!(mouse(vec![]).describe(), "SINOWEALTH 258a:0033 sem perfil legível");
    assert_eq!(
        mouse(vec![config(1, vec![400])]).describe(),
        "SINOWEALTH 258a:0033 com um perfil só — alternar exige dois"
    );
    let three = vec![config(1, vec![400]), config(1, vec![800]), config(1, vec![1600])];
    assert_eq!(mouse(three).describe(), "SINOWEALTH 258a:0033, 3 perfis");
    let mut m = mouse(vec![]);
    m.product_id = 0xbeef;
    assert_eq!(m.describe(), "SINOWEALTH 258a:beef sem perfil legível");
}

#[test]
fn profiles_are_read_in_order_until_one_fails() {
    let mut reader = ProfileReader::new();
    // Profile 1: the short report answers.
    assert!(matches!(reader.action(), ReadAction::SetFeature([0x05, 0x11, 0, 0, 0, 0])));
    reader.request_sent(true);
    assert!(matches!(reader.action(), ReadAction::GetFeature(0x04)));
    let raw = raw_config(0b1111_1100);
    reader.reply(Some(&raw));
    assert_eq!(reader.step, ReadStep::Ask(1));
    // Profile 2: the short report fails, the long one answers.
    assert!(matches!(reader.action(), ReadAction::SetFeature([0x05, 0x21, 0, 0, 0, 0])));
    reader.request_sent(true);
    reader.reply(None);
    assert!(matches!(reader.action(), ReadAction::GetFeature(0x06)));
    reader.reply(Some(&raw));
    assert_eq!(reader.step, ReadStep::Ask(2));
    // Profile 3: the device refuses the request.
    reader.request_sent(false);
    assert!(matches!(reader.action(), ReadAction::Done));
    let profiles = reader.into_profiles();
    assert_eq!(profiles.len(), 2);
    assert_eq!(profiles[0].dpis, vec![400, 800]);
    assert_eq!(profiles[0].active_dpi, 1);
}

#[test]
fn a_profile_without_dpi_slots_ends_the_reading() {
    let mut reader = ProfileReader::new();
    reader.request_sent(true);
    reader.reply(Some(&raw_config(0xFF)));
    assert_eq!(reader.step, ReadStep::Finished);
    assert!(reader.into_profiles().is_empty());
}

#[test]
fn the_reading_stops_after_three_profiles() {
    let mut reader = ProfileReader::new();
    let raw = raw_config(0);
    for _ in 0..3 {
        reader.request_sent(true);
        reader.reply(Some(&raw));
    }
    assert_eq!(reader.step, ReadStep::Ask(3));
    assert!(matches!(reader.action(), ReadAction::Done));
    assert_eq!(reader.into_profiles().len(), 3);
}

#[test]
fn unreadable_short_and_long_reports_end_the_reading() {
    let mut reader = ProfileReader::new();
    reader.request_sent(true);
    reader.reply(Some(&[0u8; 4]));
    assert_eq!(reader.step, ReadStep::ReadLong(0));
    reader.reply(None);
    assert_eq!(reader.step, ReadStep::Finished);
}
