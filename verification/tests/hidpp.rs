use sensi_alternada::hidpp::{build_request, classify, parse_dpi, Answer, REPORT_LONG, SW_ID};

/// Real bytes captured from a G203.
const GET_SENSOR_DPI: [u8; 10] = [0x11, 0xFF, 0x0A, 0x2A, 0x00, 0x06, 0x40, 0x03, 0x20, 0x00];

#[test]
fn function_and_software_id_share_one_byte() {
    let pedido = build_request(20, 0xFF, 0x0A, 3, &[0x00, 0x06, 0x40]);
    assert_eq!(pedido.len(), 20, "o relatório vai do tamanho exato");
    assert_eq!(pedido[3], 0x3A, "função no nibble alto, swId no baixo");
}

/// The bug that shifted the whole conversation: the swId is constant, so on its own it
/// pairs any response with any request.
#[test]
fn a_response_to_another_function_is_not_mine() {
    // A getFeature answer (function 0) arriving while getSensorDpi (function 2) waits.
    let get_feature = [0x11, 0xFF, 0x00, 0x0A, 0x0A, 0x00, 0x01];
    assert_eq!(classify(&get_feature, 0x0A, 2), Answer::NotMine);
    assert_eq!(classify(&GET_SENSOR_DPI, 0x0A, 2), Answer::Mine);
}

#[test]
fn a_refusal_is_recognised_by_the_function_it_echoes() {
    // feature 0xFF, byte 4 echoes the failed funcSw, byte 5 carries the code.
    let recusa = [0x11, 0xFF, 0xFF, 0x0A, 0x3A, 0x02, 0x00];
    assert_eq!(classify(&recusa, 0x0A, 3), Answer::Failed(0x02));
    // The same refusal does not belong to a request for another function.
    assert_eq!(classify(&recusa, 0x0A, 2), Answer::NotMine);
}

#[test]
fn dpi_comes_from_the_two_bytes_after_the_sensor_index() {
    assert_eq!(parse_dpi(&GET_SENSOR_DPI), Some(1600));
}

#[test]
fn a_request_is_framed_header_params_then_zeros() {
    let pedido = build_request(8, 0x01, 0x0A, 2, &[0x00]);
    assert_eq!(pedido, vec![REPORT_LONG, 0x01, 0x0A, 0x2A, 0x00, 0x00, 0x00, 0x00]);
}

#[test]
fn a_request_read_back_is_its_own_answer() {
    let pedido = build_request(20, 0xFF, 0x0A, 3, &[0x00, 0x06, 0x40]);
    assert_eq!(classify(&pedido, 0x0A, 3), Answer::Mine);
}

#[test]
fn a_high_function_number_keeps_only_its_low_nibble() {
    let pedido = build_request(7, 0xFF, 0x0A, 0x13, &[]);
    assert_eq!(pedido[3], 0x3A);
    assert_eq!(pedido[3] & 0x0F, SW_ID);
}

#[test]
fn a_short_or_foreign_response_is_not_mine() {
    assert_eq!(classify(&[0x11, 0xFF, 0x0A, 0x2A, 0x00], 0x0A, 2), Answer::NotMine);
    // Wrong software id in the low nibble.
    assert_eq!(classify(&[0x11, 0xFF, 0x0A, 0x2B, 0x00, 0x06], 0x0A, 2), Answer::NotMine);
    // Another feature index.
    assert_eq!(classify(&[0x11, 0xFF, 0x0B, 0x2A, 0x00, 0x06], 0x0A, 2), Answer::NotMine);
}

#[test]
fn a_response_too_short_for_the_dpi_gives_none() {
    assert_eq!(parse_dpi(&GET_SENSOR_DPI[..6]), None);
    assert_eq!(parse_dpi(&GET_SENSOR_DPI[..7]), Some(1600));
}
