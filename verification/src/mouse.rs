//! The Logitech mouse, over HID++. Framing lives in [`crate::hidpp`]; here are the
//! requests this engine sends, how their answers are read, and which HID collection is
//! the one that answers. Opening the device and moving bytes is the application's part.

use vstd::prelude::*;

use crate::hidpp::{Answer, build_request, classification, classify, dpi_in, request_bytes};
use crate::text::{hex2_upper, push_hex2_upper};

verus! {

/// HID++ is Logitech's protocol. Other brands have their own.
pub const VID_LOGITECH: &'static str = "vid_046d";

/// Vendor-defined usage page, where HID++ lives.
pub const VENDOR_USAGE_PAGE: u16 = 0xFF00;

/// Long collection. The short one accepts the write and never answers (measured on the
/// G203).
pub const LONG_COLLECTION_USAGE: u16 = 0x02;

pub const ROOT_FEATURE: u8 = 0x00;

/// Root feature function that maps a feature id to its index.
pub const FUNC_GET_FEATURE: u8 = 0;

/// Adjustable DPI functions: read and write the sensor DPI.
pub const FUNC_GET_SENSOR_DPI: u8 = 2;

pub const FUNC_SET_SENSOR_DPI: u8 = 3;

/// Per-axis DPI. Absent on the G203, and it decides whether X and Y may differ.
pub const FEATURE_EXTENDED_DPI: u16 = 0x2202;

/// A device plugged in directly, without a receiver.
pub const DIRECT_DEVICE: u8 = 0xFF;

/// A Logitech mouse that speaks HID++, as far as the requests need to know it.
pub struct Mouse {
    /// Length of the reports the device sends.
    pub input_len: usize,
    /// Length of the reports the device takes.
    pub output_len: usize,
    /// Index of the Adjustable DPI feature on this device.
    pub dpi_feature: u8,
    /// True only when the mouse has feature 0x2202.
    pub per_axis: bool,
}

/// What an answer read while a request waits means for it.
pub enum Verdict {
    /// The answer to the request.
    Accept,
    /// The device refused the request; the message says with which code.
    Refused(String),
    /// Someone else's answer: keep reading.
    Wait,
}

pub open spec fn refusal_text(code: u8) -> Seq<char> {
    "mouse recusou (0x"@ + hex2_upper(code) + ")"@
}

/// The HID++ long collection: vendor usage page, usage 2.
pub open spec fn is_hidpp_long(usage_page: u16, usage: u16) -> bool {
    usage_page == VENDOR_USAGE_PAGE && usage == LONG_COLLECTION_USAGE
}

/// The lower-case form `str::to_lowercase` gives a text (Unicode case mapping).
pub uninterp spec fn lowercase_of(s: Seq<char>) -> Seq<char>;

/// Whether `needle` occurs in `hay` as a contiguous run.
pub open spec fn contains_run(hay: Seq<char>, needle: Seq<char>) -> bool {
    exists|i: int|
        0 <= i && i + needle.len() <= hay.len() && #[trigger] hay.subrange(i, i + needle.len())
            == needle
}

/// `str::to_lowercase`: Unicode lower-case mapping of every character.
#[verifier::external_body]
fn to_lowercase(s: &str) -> (lower: String)
    ensures
        lower@ == lowercase_of(s@),
{
    s.to_lowercase()
}

/// Whether `needle` occurs at position `at` of `hay`.
fn occurs_at(hay: &str, needle: &str, at: usize) -> (found: bool)
    requires
        at + needle@.len() <= hay@.len(),
        hay@.len() <= usize::MAX,
    ensures
        found == (hay@.subrange(at as int, at + needle@.len()) == needle@),
{
    let n = needle.unicode_len();
    let mut k: usize = 0;
    while k < n
        invariant
            n == needle@.len(),
            at + n <= hay@.len(),
            hay@.len() <= usize::MAX,
            k <= n,
            forall|j: int| 0 <= j < k ==> hay@[at + j] == needle@[j],
        decreases n - k,
    {
        if hay.get_char(at + k) != needle.get_char(k) {
            assert(hay@.subrange(at as int, at + n)[k as int] != needle@[k as int]);
            return false;
        }
        k = k + 1;
    }
    assert(hay@.subrange(at as int, at + n) =~= needle@);
    true
}

/// Whether `needle` occurs anywhere in `hay`.
pub fn contains(hay: &str, needle: &str) -> (found: bool)
    ensures
        found == contains_run(hay@, needle@),
{
    let h = hay.unicode_len();
    let n = needle.unicode_len();
    if n > h {
        assert(!contains_run(hay@, needle@));
        return false;
    }
    if n == 0 {
        assert(hay@.subrange(0, 0int + needle@.len()) =~= needle@);
        return true;
    }
    let mut at: usize = 0;
    while at <= h - n
        invariant
            h == hay@.len(),
            n == needle@.len(),
            1 <= n <= h,
            at <= h - n + 1,
            forall|i: int| 0 <= i < at ==> #[trigger] hay@.subrange(i, i + n) != needle@,
        decreases h - n + 1 - at,
    {
        if occurs_at(hay, needle, at) {
            return true;
        }
        at = at + 1;
    }
    assert forall|i: int| 0 <= i && i + n <= h implies #[trigger] hay@.subrange(i, i + n)
        != needle@ by {}
    false
}

/// Whether a device path belongs to a Logitech device: its lower-case form names the
/// Logitech vendor id.
pub fn is_logitech_path(path: &str) -> (logitech: bool)
    ensures
        logitech == contains_run(lowercase_of(path@), VID_LOGITECH@),
{
    let lower = to_lowercase(path);
    contains(lower.as_str(), VID_LOGITECH)
}

/// Whether a collection is the HID++ long collection, the only one that answers.
pub fn is_hidpp_long_collection(usage_page: u16, usage: u16) -> (long: bool)
    ensures
        long == is_hidpp_long(usage_page, usage),
{
    usage_page == VENDOR_USAGE_PAGE && usage == LONG_COLLECTION_USAGE
}

/// Reads an answer against the request for `feature` and `func` that waits for it.
pub fn judge_answer(answer: &[u8], feature: u8, func: u8) -> (verdict: Verdict)
    ensures
        classification(answer@, feature, func) == Answer::Mine ==> verdict is Accept,
        classification(answer@, feature, func) == Answer::NotMine ==> verdict is Wait,
        classification(answer@, feature, func) matches Answer::Failed(code) ==> (
        verdict matches Verdict::Refused(message) && message@ == refusal_text(code)),
{
    match classify(answer, feature, func) {
        Answer::Mine => Verdict::Accept,
        Answer::Failed(code) => {
            let mut message = String::from_str("mouse recusou (0x");
            push_hex2_upper(&mut message, code);
            message.append(")");
            Verdict::Refused(message)
        },
        Answer::NotMine => Verdict::Wait,
    }
}

/// The two big-endian bytes of a DPI value.
pub open spec fn dpi_bytes(dpi: u16) -> Seq<u8> {
    seq![(dpi / 256) as u8, (dpi % 256) as u8]
}

impl Mouse {
    /// A freshly opened long collection, before its DPI feature is known.
    pub fn open(input_len: u16, output_len: u16) -> (mouse: Mouse)
        ensures
            mouse.input_len == input_len,
            mouse.output_len == output_len,
            mouse.dpi_feature == 0,
            !mouse.per_axis,
    {
        Mouse {
            input_len: input_len as usize,
            output_len: output_len as usize,
            dpi_feature: 0,
            per_axis: false,
        }
    }

    /// Asks the root feature for the index of `feature_id`.
    pub fn root_feature_request(&self, feature_id: u16) -> (report: Vec<u8>)
        requires
            self.output_len >= 6,
        ensures
            report@ == request_bytes(
                self.output_len as nat,
                DIRECT_DEVICE,
                ROOT_FEATURE,
                FUNC_GET_FEATURE,
                seq![(feature_id / 256) as u8, (feature_id % 256) as u8],
            ),
    {
        let hi = (feature_id / 256) as u8;
        let lo = (feature_id % 256) as u8;
        let params: [u8; 2] = [hi, lo];
        build_request(
            self.output_len,
            DIRECT_DEVICE,
            ROOT_FEATURE,
            FUNC_GET_FEATURE,
            params.as_slice(),
        )
    }

    /// The feature index a root-feature answer carries, in byte 4.
    pub fn feature_index(answer: &[u8]) -> (index: u8)
        requires
            answer@.len() >= 5,
        ensures
            index == answer@[4],
    {
        answer[4]
    }

    /// What the device turned out to be, given the index it reported for Adjustable DPI
    /// and, when the question was answered, the one for per-axis DPI. Index 0 means the
    /// device lacks Adjustable DPI: it is not the mouse.
    pub fn with_features(self, adjustable_dpi: u8, extended_dpi: Option<u8>) -> (found: Option<
        Mouse,
    >)
        ensures
            adjustable_dpi == 0 <==> found is None,
            found matches Some(m) ==> {
                &&& m.dpi_feature == adjustable_dpi
                &&& m.per_axis == (extended_dpi matches Some(i) && i != 0)
                &&& m.input_len == self.input_len
                &&& m.output_len == self.output_len
            },
    {
        if adjustable_dpi == 0 {
            return None;
        }
        let per_axis = match extended_dpi {
            Some(index) => index != 0,
            None => false,
        };
        Some(Mouse { dpi_feature: adjustable_dpi, per_axis, ..self })
    }

    /// `getSensorDpi` for sensor 0.
    pub fn current_dpi_request(&self) -> (report: Vec<u8>)
        requires
            self.output_len >= 5,
        ensures
            report@ == request_bytes(
                self.output_len as nat,
                DIRECT_DEVICE,
                self.dpi_feature,
                FUNC_GET_SENSOR_DPI,
                seq![0u8],
            ),
    {
        let params: [u8; 1] = [0];
        build_request(
            self.output_len,
            DIRECT_DEVICE,
            self.dpi_feature,
            FUNC_GET_SENSOR_DPI,
            params.as_slice(),
        )
    }

    /// `setSensorDpi` for sensor 0, the DPI big-endian.
    pub fn set_dpi_request(&self, dpi: u16) -> (report: Vec<u8>)
        requires
            self.output_len >= 7,
        ensures
            report@ == request_bytes(
                self.output_len as nat,
                DIRECT_DEVICE,
                self.dpi_feature,
                FUNC_SET_SENSOR_DPI,
                seq![0u8] + dpi_bytes(dpi),
            ),
    {
        let params: [u8; 3] = [0, (dpi / 256) as u8, (dpi % 256) as u8];
        let report = build_request(
            self.output_len,
            DIRECT_DEVICE,
            self.dpi_feature,
            FUNC_SET_SENSOR_DPI,
            params.as_slice(),
        );
        assert(params@ == seq![0u8] + dpi_bytes(dpi));
        report
    }
}

/// `setSensorDpi` puts the DPI exactly where `getSensorDpi` answers carry it: reading a
/// set request as a DPI answer gives the DPI that was set.
pub proof fn lemma_set_request_reads_back(output_len: nat, feature: u8, dpi: u16)
    requires
        output_len >= 7,
    ensures
        dpi_in(
            request_bytes(
                output_len,
                DIRECT_DEVICE,
                feature,
                FUNC_SET_SENSOR_DPI,
                seq![0u8] + dpi_bytes(dpi),
            ),
        ) == Some(dpi),
{
    let r = request_bytes(
        output_len,
        DIRECT_DEVICE,
        feature,
        FUNC_SET_SENSOR_DPI,
        seq![0u8] + dpi_bytes(dpi),
    );
    assert(r[5] == (dpi / 256) as u8);
    assert(r[6] == (dpi % 256) as u8);
}

} // verus!
