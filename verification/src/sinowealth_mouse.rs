//! SINOWEALTH-chipset mice, over feature reports: which collection to open, how the
//! profiles are read, which command switches them and what the panel says of the mouse.
//! The feature-report calls themselves are the application's part.
//!
//! The design avoids on purpose the path that would wear the mouse out: switching the
//! active DPI slot would rewrite 520 bytes of persistent memory on every shot. Instead
//! the **profile** is switched, with a 6-byte command. A mouse that exposes a single
//! profile is refused, with the reason said.

use vstd::prelude::*;

use crate::hid::Collection;
use crate::sinowealth::{
    CMD_GET_CONFIG, CMD_SIZE, Config, NUM_DPI_SLOTS, NUM_PROFILES_MAX, OFF_DISABLED_SLOTS,
    OFF_DPIS, OFF_DPI_COUNTS, OFF_SENSOR, REPORT_ID_CMD, REPORT_ID_CONFIG,
    REPORT_ID_CONFIG_LONG, build_config_request, build_profile_command, enabled_dpis,
    parse_config, profile_number, sensor_of, CMD_PROFILE,
};
use crate::text::{decimal, hex4, push_decimal, push_hex4};

verus! {

/// SINOWEALTH is the chip's maker, not the mouse's: it shows up under dozens of brands
/// and in mice with no brand at all.
pub const VID_SINOWEALTH: u16 = 0x258A;

/// A SINOWEALTH mouse, as far as the protocol needs to know it.
pub struct SinowealthMouse {
    /// Length of the feature reports the collection declares.
    pub feature_len: usize,
    /// Identifies the model, so the user can look it up or report it by name.
    pub product_id: u16,
    /// Profiles that answered with a valid configuration.
    pub profiles: Vec<Config>,
}

/// Where reading the profiles stands.
#[derive(Debug, Clone, Copy, PartialEq, Eq, Structural)]
pub enum ReadStep {
    /// Ask for the configuration of this profile next.
    Ask(usize),
    /// Read this profile's configuration from the short report.
    ReadShort(usize),
    /// The short report gave nothing: read it from the long one.
    ReadLong(usize),
    /// Nothing more to read.
    Finished,
}

/// What the application does next while the profiles are read.
pub enum ReadAction {
    /// Send this command as a feature report.
    SetFeature([u8; CMD_SIZE]),
    /// Read the configuration report with this id.
    GetFeature(u8),
    /// Stop: the profiles are read.
    Done,
}

/// Reads the profiles one by one, stopping at the first that does not answer.
pub struct ProfileReader {
    pub step: ReadStep,
    pub found: Vec<Config>,
}

/// `c` is what `parse_config` reads from `raw`.
pub open spec fn parses_to(raw: Seq<u8>, c: Config) -> bool {
    &&& raw.len() >= OFF_DPIS + NUM_DPI_SLOTS
    &&& c.sensor == sensor_of(raw[OFF_SENSOR as int])
    &&& c.dpi_count == raw[OFF_DPI_COUNTS as int] & 0x0Fu8
    &&& c.active_dpi == raw[OFF_DPI_COUNTS as int] >> 4u8
    &&& c.dpis@ == enabled_dpis(
        raw,
        c.sensor,
        raw[OFF_DISABLED_SLOTS as int],
        NUM_DPI_SLOTS as int,
    )
}

/// The DPI of the active slot of profile `index`; the slot counts from 1.
pub open spec fn profile_dpi(profiles: Seq<Config>, index: int) -> Option<u32> {
    if 0 <= index < profiles.len() && profiles[index].active_dpi >= 1
        && profiles[index].active_dpi - 1 < profiles[index].dpis@.len() {
        Some(profiles[index].dpis@[profiles[index].active_dpi - 1])
    } else {
        None
    }
}

pub open spec fn missing_profile_text(index: int) -> Seq<char> {
    "perfil "@ + decimal((index + 1) as nat) + " nao existe neste mouse"@
}

pub open spec fn description(product_id: u16, profiles: nat) -> Seq<char> {
    let id = "258a:"@ + hex4(product_id);
    if profiles == 0 {
        "SINOWEALTH "@ + id + " sem perfil legível"@
    } else if profiles == 1 {
        "SINOWEALTH "@ + id + " com um perfil só — alternar exige dois"@
    } else {
        "SINOWEALTH "@ + id + ", "@ + decimal(profiles) + " perfis"@
    }
}

pub open spec fn zeros(n: int) -> Seq<u8> {
    Seq::new(n as nat, |i: int| 0u8)
}

/// Whether a collection may be a SINOWEALTH mouse worth opening.
pub fn is_candidate(collection: &Collection) -> (candidate: bool)
    ensures
        candidate == (collection.vendor_id == VID_SINOWEALTH && collection.feature_len != 0),
{
    collection.vendor_id == VID_SINOWEALTH && collection.feature_len != 0
}

/// `n` zero bytes after `prefix`.
fn padded(prefix: &[u8], n: usize) -> (buffer: Vec<u8>)
    ensures
        buffer@ == prefix@ + zeros(n as int),
{
    let mut buffer: Vec<u8> = Vec::new();
    let mut i: usize = 0;
    while i < prefix.len()
        invariant
            i <= prefix@.len(),
            buffer@ == prefix@.take(i as int),
        decreases prefix@.len() - i,
    {
        buffer.push(prefix[i]);
        i = i + 1;
        assert(prefix@.take(i as int) == prefix@.take(i - 1).push(prefix@[i - 1]));
    }
    assert(prefix@.take(prefix@.len() as int) == prefix@);
    let mut k: usize = 0;
    while k < n
        invariant
            k <= n,
            buffer@ == prefix@ + zeros(k as int),
        decreases n - k,
    {
        buffer.push(0u8);
        k = k + 1;
        assert(prefix@ + zeros(k as int) =~= (prefix@ + zeros(k - 1)).push(0u8));
    }
    buffer
}

impl SinowealthMouse {
    /// A freshly opened collection, before its profiles are read.
    pub fn open(feature_len: u16, product_id: u16) -> (mouse: SinowealthMouse)
        ensures
            mouse.feature_len == feature_len,
            mouse.product_id == product_id,
            mouse.profiles@.len() == 0,
    {
        SinowealthMouse { feature_len: feature_len as usize, product_id, profiles: Vec::new() }
    }

    /// The DPI of profile `index`'s active slot.
    pub fn dpi_of_profile(&self, index: usize) -> (dpi: Option<u32>)
        ensures
            dpi == profile_dpi(self.profiles@, index as int),
    {
        if index >= self.profiles.len() {
            return None;
        }
        let config = &self.profiles[index];
        if config.active_dpi < 1 {
            return None;
        }
        let slot = (config.active_dpi - 1) as usize;
        if slot >= config.dpis.len() {
            return None;
        }
        Some(config.dpis[slot])
    }

    /// Switching needs two profiles: it is the only switch that does not write to the
    /// mouse's memory.
    pub fn can_switch(&self) -> (can: bool)
        ensures
            can == (self.profiles@.len() >= 2),
    {
        self.profiles.len() >= 2
    }

    /// The command that makes profile `index` active, or why there is none.
    pub fn select_profile(&self, index: usize) -> (command: Result<[u8; CMD_SIZE], String>)
        requires
            index < usize::MAX,
        ensures
            index >= self.profiles@.len() ==> (command matches Err(message) && message@
                == missing_profile_text(index as int)),
            index < self.profiles@.len() ==> (command matches Ok(c) && c@ == seq![
                REPORT_ID_CMD,
                CMD_PROFILE,
                profile_number(index),
                0u8,
                0u8,
                0u8,
            ]),
    {
        if index >= self.profiles.len() {
            let mut message = String::from_str("perfil ");
            push_decimal(&mut message, (index + 1) as u64);
            message.append(" nao existe neste mouse");
            return Err(message);
        }
        Ok(build_profile_command(index))
    }

    /// The buffer Windows takes for a command: the size the collection declares, the
    /// report id in the first byte, routed by that id.
    pub fn feature_buffer(&self, command: &[u8; CMD_SIZE]) -> (buffer: Vec<u8>)
        ensures
            buffer@ == command@ + zeros(
                if self.feature_len > CMD_SIZE {
                    self.feature_len - CMD_SIZE
                } else {
                    0
                },
            ),
    {
        let extra = if self.feature_len > CMD_SIZE {
            self.feature_len - CMD_SIZE
        } else {
            0
        };
        padded(command.as_slice(), extra)
    }

    /// The buffer a feature-report read fills: at least `expected` bytes, the id of the
    /// report asked for in the first one.
    pub fn report_buffer(&self, report_id: u8, expected: usize) -> (buffer: Vec<u8>)
        requires
            self.feature_len >= 1 || expected >= 1,
        ensures
            buffer@ == seq![report_id] + zeros(
                if self.feature_len > expected {
                    self.feature_len - 1
                } else {
                    expected - 1
                },
            ),
    {
        let len = if self.feature_len > expected {
            self.feature_len
        } else {
            expected
        };
        let id: [u8; 1] = [report_id];
        padded(id.as_slice(), len - 1)
    }

    pub fn describe(&self) -> (text: String)
        ensures
            text@ == description(self.product_id, self.profiles@.len()),
    {
        let mut text = String::from_str("SINOWEALTH ");
        text.append("258a:");
        push_hex4(&mut text, self.product_id);
        let n = self.profiles.len();
        if n == 0 {
            text.append(" sem perfil legível");
        } else if n == 1 {
            text.append(" com um perfil só — alternar exige dois");
        } else {
            text.append(", ");
            push_decimal(&mut text, n as u64);
            text.append(" perfis");
        }
        assert(text@ =~= description(self.product_id, self.profiles@.len()));
        text
    }
}

impl ProfileReader {
    /// Every profile read so far answered with at least one DPI slot, and asking goes in
    /// profile order from the first.
    pub open spec fn wf(&self) -> bool {
        &&& forall|k: int| 0 <= k < self.found@.len() ==> #[trigger] self.found@[k].dpis@.len() > 0
        &&& self.found@.len() <= NUM_PROFILES_MAX
        &&& match self.step {
            ReadStep::Ask(i) => self.found@.len() == i,
            ReadStep::ReadShort(i) => self.found@.len() == i && i < NUM_PROFILES_MAX,
            ReadStep::ReadLong(i) => self.found@.len() == i && i < NUM_PROFILES_MAX,
            ReadStep::Finished => true,
        }
    }

    /// The reader after accepting the configuration read from `raw` for profile `i`:
    /// a profile without any DPI slot does not really exist and ends the reading.
    pub open spec fn accepted(old: &Self, new: &Self, raw: Seq<u8>, i: usize) -> bool {
        if enabled_dpis(raw, sensor_of(raw[OFF_SENSOR as int]), raw[OFF_DISABLED_SLOTS as int], NUM_DPI_SLOTS as int).len() == 0 {
            new.step == ReadStep::Finished && new.found@ == old.found@
        } else {
            &&& new.step == ReadStep::Ask((i + 1) as usize)
            &&& new.found@.len() == old.found@.len() + 1
            &&& new.found@.take(old.found@.len() as int) == old.found@
            &&& parses_to(raw, new.found@.last())
        }
    }

    pub fn new() -> (reader: ProfileReader)
        ensures
            reader.step == ReadStep::Ask(0),
            reader.found@.len() == 0,
            reader.wf(),
    {
        ProfileReader { step: ReadStep::Ask(0), found: Vec::new() }
    }

    /// The next thing to do with the device.
    pub fn action(&self) -> (action: ReadAction)
        ensures
            match self.step {
                ReadStep::Ask(i) => if i < NUM_PROFILES_MAX {
                    action matches ReadAction::SetFeature(c) && c@ == seq![
                        REPORT_ID_CMD,
                        CMD_GET_CONFIG@[i as int],
                        0u8,
                        0u8,
                        0u8,
                        0u8,
                    ]
                } else {
                    action is Done
                },
                ReadStep::ReadShort(_) => action == ReadAction::GetFeature(REPORT_ID_CONFIG),
                ReadStep::ReadLong(_) => action == ReadAction::GetFeature(REPORT_ID_CONFIG_LONG),
                ReadStep::Finished => action is Done,
            },
    {
        match self.step {
            ReadStep::Ask(i) => match build_config_request(i) {
                Some(command) => ReadAction::SetFeature(command),
                None => ReadAction::Done,
            },
            // Short mice answer on report 0x04 and long ones on 0x06. Fixing one would
            // make half of the devices fail the read, with no error at all.
            ReadStep::ReadShort(_) => ReadAction::GetFeature(REPORT_ID_CONFIG),
            ReadStep::ReadLong(_) => ReadAction::GetFeature(REPORT_ID_CONFIG_LONG),
            ReadStep::Finished => ReadAction::Done,
        }
    }

    /// The device took (or refused) the configuration request.
    pub fn request_sent(&mut self, accepted: bool)
        requires
            old(self).wf(),
        ensures
            final(self).wf(),
            final(self).found@ == old(self).found@,
            match old(self).step {
                ReadStep::Ask(i) => if i < NUM_PROFILES_MAX && accepted {
                    final(self).step == ReadStep::ReadShort(i)
                } else {
                    final(self).step == ReadStep::Finished
                },
                _ => final(self).step == old(self).step,
            },
    {
        match self.step {
            ReadStep::Ask(i) => {
                if i < NUM_PROFILES_MAX && accepted {
                    self.step = ReadStep::ReadShort(i);
                } else {
                    self.step = ReadStep::Finished;
                }
            },
            _ => {},
        }
    }

    fn accept(&mut self, raw: &[u8], i: usize)
        requires
            old(self).wf(),
            old(self).found@.len() == i,
            i < NUM_PROFILES_MAX,
            raw@.len() >= OFF_DPIS + NUM_DPI_SLOTS,
        ensures
            final(self).wf(),
            Self::accepted(old(self), final(self), raw@, i),
    {
        let parsed = parse_config(raw);
        match parsed {
            Some(config) => {
                if config.dpis.len() == 0 {
                    self.step = ReadStep::Finished;
                } else {
                    let ghost before = self.found@;
                    assert(forall|k: int| 0 <= k < before.len() ==> #[trigger] before[k].dpis@.len() > 0);
                    let ghost pushed = config;
                    assert(pushed.dpis@.len() > 0);
                    self.found.push(config);
                    self.step = ReadStep::Ask(i + 1);
                    assert(self.found@.take(before.len() as int) =~= before);
                    assert forall|k: int| 0 <= k < self.found@.len() implies #[trigger] self.found@[k].dpis@.len() > 0 by {
                        if k < before.len() {
                            assert(before[k].dpis@.len() > 0);
                            assert(self.found@[k] == before[k]);
                        } else {
                            assert(self.found@[k] == pushed);
                        }
                    }
                }
            },
            None => {},
        }
    }

    /// What a configuration read gave: the report, or nothing when the read failed.
    pub fn reply(&mut self, raw: Option<&[u8]>)
        requires
            old(self).wf(),
        ensures
            final(self).wf(),
            match old(self).step {
                ReadStep::ReadShort(i) => if raw matches Some(r) && r@.len() >= OFF_DPIS
                    + NUM_DPI_SLOTS {
                    Self::accepted(old(self), final(self), raw.unwrap()@, i)
                } else {
                    final(self).step == ReadStep::ReadLong(i) && final(self).found@ == old(
                        self,
                    ).found@
                },
                ReadStep::ReadLong(i) => if raw matches Some(r) && r@.len() >= OFF_DPIS
                    + NUM_DPI_SLOTS {
                    Self::accepted(old(self), final(self), raw.unwrap()@, i)
                } else {
                    final(self).step == ReadStep::Finished && final(self).found@ == old(
                        self,
                    ).found@
                },
                _ => final(self).step == old(self).step && final(self).found@ == old(
                    self,
                ).found@,
            },
    {
        match self.step {
            ReadStep::ReadShort(i) => {
                match raw {
                    Some(r) => {
                        if r.len() >= OFF_DPIS + NUM_DPI_SLOTS {
                            self.accept(r, i);
                        } else {
                            self.step = ReadStep::ReadLong(i);
                        }
                    },
                    None => {
                        self.step = ReadStep::ReadLong(i);
                    },
                }
            },
            ReadStep::ReadLong(i) => {
                match raw {
                    Some(r) => {
                        if r.len() >= OFF_DPIS + NUM_DPI_SLOTS {
                            self.accept(r, i);
                        } else {
                            self.step = ReadStep::Finished;
                        }
                    },
                    None => {
                        self.step = ReadStep::Finished;
                    },
                }
            },
            _ => {},
        }
    }

    /// The profiles read.
    pub fn into_profiles(self) -> (profiles: Vec<Config>)
        ensures
            profiles@ == self.found@,
    {
        self.found
    }
}

} // verus!
