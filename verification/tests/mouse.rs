use sensi_alternada::hidpp::{classify, parse_dpi, Answer};
use sensi_alternada::mouse::{
    contains, is_hidpp_long_collection, is_logitech_path, judge_answer, Mouse, Verdict,
    FEATURE_EXTENDED_DPI, FUNC_SET_SENSOR_DPI,
};

#[test]
fn the_logitech_vendor_id_is_found_in_any_case() {
    let path = r"\\?\HID#VID_046D&PID_C092&MI_01&Col02#8&1a2b3c4d&0&0001#{4d1e55b2-f16f-11cf-88cb-001111000030}";
    assert!(is_logitech_path(path));
    assert!(is_logitech_path(&path.to_lowercase()));
    assert!(!is_logitech_path(r"\\?\HID#VID_258A&PID_0033#7&abc#{guid}"));
}

#[test]
fn contains_finds_runs_anywhere_and_the_empty_one_everywhere() {
    assert!(contains("abcvid_046dxyz", "vid_046d"));
    assert!(contains("vid_046d", "vid_046d"));
    assert!(!contains("vid_046", "vid_046d"));
    assert!(contains("", ""));
    assert!(!contains("VID_046D", "vid_046d"));
}

#[test]
fn only_the_long_vendor_collection_answers() {
    assert!(is_hidpp_long_collection(0xFF00, 0x02));
    assert!(!is_hidpp_long_collection(0xFF00, 0x01));
    assert!(!is_hidpp_long_collection(0x0001, 0x02));
}

#[test]
fn a_device_without_adjustable_dpi_is_not_the_mouse() {
    assert!(Mouse::open(20, 20).with_features(0, Some(3)).is_none());
    let mouse = Mouse::open(20, 20).with_features(10, None).unwrap();
    assert_eq!(mouse.dpi_feature, 10);
    assert!(!mouse.per_axis);
    assert!(Mouse::open(20, 20).with_features(10, Some(11)).unwrap().per_axis);
    assert!(!Mouse::open(20, 20).with_features(10, Some(0)).unwrap().per_axis);
}

#[test]
fn requests_carry_the_feature_function_and_parameters() {
    let mouse = Mouse::open(20, 20).with_features(0x0A, None).unwrap();
    let root = mouse.root_feature_request(FEATURE_EXTENDED_DPI);
    assert_eq!(&root[..6], &[0x11, 0xFF, 0x00, 0x0A, 0x22, 0x02]);
    assert_eq!(root.len(), 20);
    let get = mouse.current_dpi_request();
    assert_eq!(&get[..5], &[0x11, 0xFF, 0x0A, 0x2A, 0x00]);
    let set = mouse.set_dpi_request(400);
    assert_eq!(&set[..7], &[0x11, 0xFF, 0x0A, 0x3A, 0x00, 0x01, 0x90]);
}

#[test]
fn a_set_request_read_as_an_answer_gives_the_dpi_back() {
    let mouse = Mouse::open(20, 20).with_features(0x0A, None).unwrap();
    let set = mouse.set_dpi_request(1600);
    assert_eq!(parse_dpi(&set), Some(1600));
    assert_eq!(classify(&set, 0x0A, FUNC_SET_SENSOR_DPI), Answer::Mine);
}

#[test]
fn the_feature_index_is_byte_four() {
    assert_eq!(Mouse::feature_index(&[0x11, 0xFF, 0x00, 0x0A, 0x0A, 0x00]), 0x0A);
}

#[test]
fn answers_are_judged_against_the_waiting_request() {
    let mine = [0x11, 0xFF, 0x0A, 0x3A, 0x00, 0x01, 0x90];
    assert!(matches!(judge_answer(&mine, 0x0A, 3), Verdict::Accept));
    assert!(matches!(judge_answer(&mine, 0x0A, 2), Verdict::Wait));
    let refusal = [0x11, 0xFF, 0xFF, 0x0A, 0x3A, 0xAB, 0x00];
    match judge_answer(&refusal, 0x0A, 3) {
        Verdict::Refused(message) => assert_eq!(message, "mouse recusou (0xAB)"),
        _ => panic!("a recusa nao foi reconhecida"),
    }
    let refusal = [0x11, 0xFF, 0xFF, 0x0A, 0x3A, 0x02, 0x00];
    match judge_answer(&refusal, 0x0A, 3) {
        Verdict::Refused(message) => assert_eq!(message, "mouse recusou (0x02)"),
        _ => panic!("a recusa nao foi reconhecida"),
    }
}
