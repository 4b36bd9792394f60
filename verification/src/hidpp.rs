//! HID++ 2.0, the protocol Logitech's own software uses to talk to the mouse.
//!
//! Opening the device and moving bytes needs hardware. Framing the messages does not,
//! and it is where the mistakes live: the function byte packs two fields into one, and
//! matching a response by the wrong criterion shifts the whole conversation by one
//! request, for good.

use vstd::prelude::*;

verus! {

/// Software id: any non-zero nibble. It travels in the function byte and comes back
/// untouched in the response.
pub const SW_ID: u8 = 0x0A;

/// The HID++ 2.0 "Adjustable DPI" feature.
pub const FEATURE_ADJUSTABLE_DPI: u16 = 0x2201;

/// Long report. On the G203 that was measured, the short collection accepts the write
/// and never answers.
pub const REPORT_LONG: u8 = 0x11;

/// Feature index a refusal carries in byte 2.
pub const FEATURE_ERROR: u8 = 0xFF;

/// What a response means for the request that waits for it.
#[derive(Debug, Clone, Copy, PartialEq, Eq, Structural)]
pub enum Answer {
    /// It answers this request.
    Mine,
    /// The device refused this request, with this code.
    Failed(u8),
    /// It belongs to another request: a leftover in the buffer, or a late answer.
    NotMine,
}

/// The function byte: the function in the high nibble, the software id in the low one.
pub open spec fn func_sw(func: u8) -> u8 {
    (func << 4u8) | SW_ID
}

/// The request `build_request` frames: header, parameters, then zeros up to the report
/// length.
pub open spec fn request_bytes(
    report_len: nat,
    device: u8,
    feature: u8,
    func: u8,
    params: Seq<u8>,
) -> Seq<u8> {
    seq![REPORT_LONG, device, feature, func_sw(func)] + params + Seq::new(
        (report_len - 4 - params.len()) as nat,
        |i: int| 0u8,
    )
}

/// How a response relates to the request for `feature` and `func`.
pub open spec fn classification(response: Seq<u8>, feature: u8, func: u8) -> Answer {
    if response.len() < 6 || (response[3] & 0x0Fu8) != SW_ID {
        Answer::NotMine
    } else if response[2] == FEATURE_ERROR {
        // A refusal echoes the function byte that failed in byte 4, its code in byte 5.
        if response[4] == func_sw(func) {
            Answer::Failed(response[5])
        } else {
            Answer::NotMine
        }
    } else if response[2] == feature && response[3] == func_sw(func) {
        Answer::Mine
    } else {
        Answer::NotMine
    }
}

/// The current DPI in a `getSensorDpi` response: bytes 5 and 6, big-endian.
pub open spec fn dpi_in(response: Seq<u8>) -> Option<u16> {
    if response.len() < 7 {
        None
    } else {
        Some((response[5] as int * 256 + response[6] as int) as u16)
    }
}

proof fn lemma_func_sw_bits(func: u8)
    ensures
        func_sw(func) & 0x0Fu8 == SW_ID,
        func_sw(func) == ((func % 16) * 16 + 10) as u8,
{
    assert(((func << 4u8) | 0x0Au8) & 0x0Fu8 == 0x0Au8) by (bit_vector);
    assert(((func << 4u8) | 0x0Au8) == ((func % 16) * 16 + 10) as u8) by (bit_vector);
}

/// Frames an HID++ request of exactly the output report's length.
pub fn build_request(
    report_len: usize,
    device: u8,
    feature: u8,
    func: u8,
    params: &[u8],
) -> (report: Vec<u8>)
    requires
        4 + params@.len() <= report_len,
    ensures
        report@ == request_bytes(report_len as nat, device, feature, func, params@),
        report@.len() == report_len,
{
    let mut report: Vec<u8> = Vec::new();
    report.push(REPORT_LONG);
    report.push(device);
    report.push(feature);
    report.push((func << 4u8) | SW_ID);
    let mut i: usize = 0;
    while i < params.len()
        invariant
            i <= params@.len(),
            4 + params@.len() <= report_len,
            report@ == seq![REPORT_LONG, device, feature, func_sw(func)] + params@.take(i as int),
        decreases params@.len() - i,
    {
        report.push(params[i]);
        i = i + 1;
        assert(params@.take(i as int) == params@.take(i - 1).push(params@[i - 1]));
    }
    assert(params@.take(i as int) == params@);
    let ghost prefix = report@;
    while report.len() < report_len
        invariant
            report@.len() <= report_len,
            prefix.len() == 4 + params@.len(),
            prefix.len() <= report@.len(),
            report@.subrange(0, prefix.len() as int) == prefix,
            forall|k: int| prefix.len() <= k < report@.len() ==> report@[k] == 0u8,
        decreases report_len - report@.len(),
    {
        report.push(0u8);
    }
    assert(report@ =~= request_bytes(report_len as nat, device, feature, func, params@));
    report
}

/// Classifies a response against the request that waits for it.
pub fn classify(response: &[u8], feature: u8, func: u8) -> (answer: Answer)
    ensures
        answer == classification(response@, feature, func),
{
    if response.len() < 6 || (response[3] & 0x0F) != SW_ID {
        return Answer::NotMine;
    }
    let func_sw_byte = (func << 4u8) | SW_ID;
    // A refusal: feature 0xFF, and byte 4 echoes the function that failed.
    if response[2] == FEATURE_ERROR {
        return if response[4] == func_sw_byte {
            Answer::Failed(response[5])
        } else {
            Answer::NotMine
        };
    }
    if response[2] == feature && response[3] == func_sw_byte {
        Answer::Mine
    } else {
        Answer::NotMine
    }
}

/// Current DPI, read from a `getSensorDpi` response.
pub fn parse_dpi(response: &[u8]) -> (dpi: Option<u16>)
    ensures
        dpi == dpi_in(response@),
        dpi is None <==> response@.len() < 7,
{
    // [4] sensor index, [5..6] current DPI big-endian, [7..8] the sensor's default.
    if response.len() < 7 {
        return None;
    }
    let hi = response[5] as u16;
    let lo = response[6] as u16;
    Some(hi * 256 + lo)
}

/// A request read back as a response is recognised as the answer to itself: the
/// function byte of `build_request` is the one `classify` looks for.
pub proof fn lemma_request_answers_itself(
    report_len: nat,
    device: u8,
    feature: u8,
    func: u8,
    params: Seq<u8>,
)
    requires
        6 <= report_len,
        4 + params.len() <= report_len,
        feature != FEATURE_ERROR,
    ensures
        classification(request_bytes(report_len, device, feature, func, params), feature, func)
            == Answer::Mine,
{
    lemma_func_sw_bits(func);
    let r = request_bytes(report_len, device, feature, func, params);
    assert(r[2] == feature);
    assert(r[3] == func_sw(func));
}

/// A response never answers two requests whose functions differ: the software id alone
/// is constant, so matching on it would pair any response with any request.
pub proof fn lemma_answer_belongs_to_one_function(
    response: Seq<u8>,
    feature: u8,
    func: u8,
    other_feature: u8,
    other_func: u8,
)
    requires
        func % 16 != other_func % 16,
        classification(response, feature, func) != Answer::NotMine,
    ensures
        classification(response, other_feature, other_func) == Answer::NotMine,
{
    lemma_func_sw_bits(func);
    lemma_func_sw_bits(other_func);
    assert(func_sw(func) != func_sw(other_func));
}

/// What is recognised as the answer to a request is long enough to carry its payload
/// byte 4, and repeats the request's feature and function.
pub proof fn lemma_mine_is_the_echo(response: Seq<u8>, feature: u8, func: u8)
    requires
        classification(response, feature, func) == Answer::Mine,
    ensures
        response.len() >= 6,
        response[2] == feature,
        response[3] == func_sw(func),
{
}

} // verus!
