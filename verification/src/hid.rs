//! HID collections, as the enumeration of the machine reports them, and the UTF-16 form
//! of a device path that the Windows API takes.

use vstd::prelude::*;

verus! {

/// One HID collection: identification and report sizes.
#[derive(Debug, Clone)]
pub struct Collection {
    pub path: String,
    pub vendor_id: u16,
    pub product_id: u16,
    pub usage_page: u16,
    pub usage: u16,
    pub input_len: u16,
    pub output_len: u16,
    pub feature_len: u16,
}

/// UTF-16 code units of one character: one below U+10000, else a surrogate pair.
pub open spec fn utf16_of(c: char) -> Seq<u16> {
    let v = c as int;
    if v < 0x10000 {
        seq![v as u16]
    } else {
        let w = v - 0x10000;
        seq![(0xD800 + w / 1024) as u16, (0xDC00 + w % 1024) as u16]
    }
}

/// UTF-16 code units of a text.
pub open spec fn utf16(s: Seq<char>) -> Seq<u16>
    decreases s.len(),
{
    if s.len() == 0 {
        seq![]
    } else {
        utf16(s.drop_last()) + utf16_of(s.last())
    }
}

/// A text as the Windows API takes it: UTF-16, terminated by a zero unit.
pub fn wide(s: &str) -> (units: Vec<u16>)
    ensures
        units@ == utf16(s@).push(0u16),
{
    let n = s.unicode_len();
    let mut units: Vec<u16> = Vec::new();
    let mut i: usize = 0;
    while i < n
        invariant
            n == s@.len(),
            i <= n,
            units@ == utf16(s@.take(i as int)),
        decreases n - i,
    {
        let c = s.get_char(i);
        let v = c as u32;
        if v < 0x10000 {
            units.push(v as u16);
        } else {
            let w = v - 0x10000;
            units.push((0xD800 + w / 1024) as u16);
            units.push((0xDC00 + w % 1024) as u16);
        }
        assert(s@.take(i + 1).drop_last() == s@.take(i as int));
        i = i + 1;
    }
    assert(s@.take(n as int) == s@);
    units.push(0u16);
    units
}

} // verus!
