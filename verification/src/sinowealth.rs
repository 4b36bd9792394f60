//! The SINOWEALTH protocol: the chipset inside most unbranded gaming mice (VID `258a`).
//! Pure framing, checked without hardware; the conversation with the device lives in
//! [`crate::sinowealth_mouse`].
//!
//! # The decision that shapes the design
//!
//! Changing the active DPI slot lives inside the configuration, and writing it costs a
//! 520-byte feature report that lands in the mouse's persistent memory. Doing that on
//! every shot would wear the device out. So the switch is a **profile change**, a 6-byte
//! command: each profile carries its own DPI list and its own active slot.

use vstd::prelude::*;

verus! {

pub const REPORT_ID_CMD: u8 = 0x05;

pub const CMD_SIZE: usize = 6;

pub const CONFIG_REPORT_SIZE: usize = 520;

pub const CMD_PROFILE: u8 = 0x02;

/// Reads the configuration of profile 1, 2 and 3 respectively.
pub const CMD_GET_CONFIG: [u8; 3] = [0x11, 0x21, 0x31];

/// Id of the configuration report. "Long" mice use 0x06.
pub const REPORT_ID_CONFIG: u8 = 0x04;

pub const REPORT_ID_CONFIG_LONG: u8 = 0x06;

pub const NUM_DPI_SLOTS: usize = 8;

pub const NUM_PROFILES_MAX: usize = 3;

/// Offsets inside the configuration report: report_id(1) command_id(1) unknown1(1)
/// config_write(1) unknown2(5) come before the sensor byte.
pub const OFF_SENSOR: usize = 9;

pub const OFF_DPI_COUNTS: usize = 11;

pub const OFF_DISABLED_SLOTS: usize = 12;

pub const OFF_DPIS: usize = 13;

/// The sensor's step, in DPI.
pub const DPI_STEP: u32 = 100;

/// Known sensors. Two of them shift the DPI scale by one step.
#[derive(Debug, Clone, Copy, PartialEq, Eq, Structural)]
pub enum Sensor {
    Pmw3360,
    Pmw3212,
    Pmw3327,
    Pmw3389,
    Desconhecido(u8),
}

pub open spec fn sensor_of(b: u8) -> Sensor {
    if b == 0x06 {
        Sensor::Pmw3360
    } else if b == 0x08 {
        Sensor::Pmw3212
    } else if b == 0x0e {
        Sensor::Pmw3327
    } else if b == 0x0f {
        Sensor::Pmw3389
    } else {
        Sensor::Desconhecido(b)
    }
}

/// PMW3327 and PMW3360 count from 1, the others from 0.
pub open spec fn offset_of(sensor: Sensor) -> u32 {
    match sensor {
        Sensor::Pmw3360 | Sensor::Pmw3327 => 1,
        _ => 0,
    }
}

pub open spec fn dpi_of_raw(raw: u8, sensor: Sensor) -> u32 {
    ((raw + offset_of(sensor)) * DPI_STEP) as u32
}

/// Slot `slot` is disabled when its bit is set.
pub open spec fn slot_disabled(disabled: u8, slot: int) -> bool {
    disabled & (1u8 << (slot as u8)) != 0
}

/// DPI of every enabled slot among the first `n`, in slot order.
pub open spec fn enabled_dpis(raw: Seq<u8>, sensor: Sensor, disabled: u8, n: int) -> Seq<u32>
    decreases n,
{
    if n <= 0 {
        seq![]
    } else {
        let before = enabled_dpis(raw, sensor, disabled, n - 1);
        if slot_disabled(disabled, n - 1) {
            before
        } else {
            before.push(dpi_of_raw(raw[OFF_DPIS + n - 1], sensor))
        }
    }
}

/// Number of enabled slots among the first `n`.
pub open spec fn enabled_count(disabled: u8, n: int) -> nat
    decreases n,
{
    if n <= 0 {
        0
    } else if slot_disabled(disabled, n - 1) {
        enabled_count(disabled, n - 1)
    } else {
        enabled_count(disabled, n - 1) + 1
    }
}

/// What matters in a profile's configuration.
#[derive(Debug, Clone, PartialEq, Eq)]
pub struct Config {
    pub sensor: Sensor,
    /// How many DPI slots the profile declares.
    pub dpi_count: u8,
    /// Active slot, counted from 1 and only among the enabled ones.
    pub active_dpi: u8,
    /// DPI of each enabled slot, in order.
    pub dpis: Vec<u32>,
}

/// The profile number the device sees for a zero-based index: the index taken as a byte,
/// plus one, stopping at 255.
pub open spec fn profile_number(index: usize) -> u8 {
    let b = index as u8;
    if b == 255 {
        255
    } else {
        (b + 1) as u8
    }
}

impl Sensor {
    pub fn from_byte(b: u8) -> (sensor: Sensor)
        ensures
            sensor == sensor_of(b),
    {
        match b {
            0x06 => Sensor::Pmw3360,
            0x08 => Sensor::Pmw3212,
            0x0e => Sensor::Pmw3327,
            0x0f => Sensor::Pmw3389,
            other => Sensor::Desconhecido(other),
        }
    }

    /// PMW3327 and PMW3360 count from 1, the others from 0.
    pub fn offset(self) -> (offset: u32)
        ensures
            offset == offset_of(self),
    {
        match self {
            Sensor::Pmw3360 | Sensor::Pmw3327 => 1,
            _ => 0,
        }
    }
}

pub fn raw_to_dpi(raw: u8, sensor: Sensor) -> (dpi: u32)
    ensures
        dpi == dpi_of_raw(raw, sensor),
        dpi == (raw + offset_of(sensor)) * 100,
{
    (raw as u32 + sensor.offset()) * DPI_STEP
}

/// Reads a profile's raw configuration. `None` when the buffer is shorter than the
/// fields it must hold.
pub fn parse_config(raw: &[u8]) -> (config: Option<Config>)
    ensures
        config is None <==> raw@.len() < OFF_DPIS + NUM_DPI_SLOTS,
        config matches Some(c) ==> {
            &&& c.sensor == sensor_of(raw@[OFF_SENSOR as int])
            &&& c.dpi_count == raw@[OFF_DPI_COUNTS as int] & 0x0Fu8
            &&& c.active_dpi == raw@[OFF_DPI_COUNTS as int] >> 4u8
            &&& c.dpis@ == enabled_dpis(
                raw@,
                c.sensor,
                raw@[OFF_DISABLED_SLOTS as int],
                NUM_DPI_SLOTS as int,
            )
        },
{
    if raw.len() < OFF_DPIS + NUM_DPI_SLOTS {
        return None;
    }
    let sensor = Sensor::from_byte(raw[OFF_SENSOR]);
    // One-byte bitfield: the field declared first takes the least significant bits.
    let dpi_count = raw[OFF_DPI_COUNTS] & 0x0F;
    let active_dpi = raw[OFF_DPI_COUNTS] >> 4u8;
    let disabled = raw[OFF_DISABLED_SLOTS];

    let mut dpis: Vec<u32> = Vec::new();
    let mut slot: usize = 0;
    while slot < NUM_DPI_SLOTS
        invariant
            slot <= NUM_DPI_SLOTS,
            raw@.len() >= OFF_DPIS + NUM_DPI_SLOTS,
            dpis@ == enabled_dpis(raw@, sensor, disabled, slot as int),
        decreases NUM_DPI_SLOTS - slot,
    {
        // A set bit means the slot is disabled.
        let bit: u8 = 1u8 << (slot as u8);
        if disabled & bit == 0 {
            dpis.push(raw_to_dpi(raw[OFF_DPIS + slot], sensor));
        }
        slot = slot + 1;
    }

    Some(Config { sensor, dpi_count, active_dpi, dpis })
}

/// The 6-byte command that makes profile `index` active, counted from zero.
pub fn build_profile_command(index: usize) -> (command: [u8; CMD_SIZE])
    ensures
        command@ == seq![REPORT_ID_CMD, CMD_PROFILE, profile_number(index), 0u8, 0u8, 0u8],
{
    let number = (index as u8).saturating_add(1);
    [REPORT_ID_CMD, CMD_PROFILE, number, 0, 0, 0]
}

/// The command that asks for the configuration of profile `index`, counted from zero.
pub fn build_config_request(index: usize) -> (command: Option<[u8; CMD_SIZE]>)
    ensures
        command is Some <==> index < NUM_PROFILES_MAX,
        command matches Some(c) ==> c@ == seq![
            REPORT_ID_CMD,
            CMD_GET_CONFIG@[index as int],
            0u8,
            0u8,
            0u8,
            0u8,
        ],
{
    if index >= NUM_PROFILES_MAX {
        return None;
    }
    let cmd = CMD_GET_CONFIG[index];
    Some([REPORT_ID_CMD, cmd, 0, 0, 0, 0])
}

/// The DPI list holds one entry per enabled slot, never more than the eight slots.
pub proof fn lemma_dpis_count_enabled_slots(raw: Seq<u8>, sensor: Sensor, disabled: u8, n: int)
    requires
        0 <= n,
    ensures
        enabled_dpis(raw, sensor, disabled, n).len() == enabled_count(disabled, n),
        enabled_count(disabled, n) <= n,
    decreases n,
{
    if n > 0 {
        lemma_dpis_count_enabled_slots(raw, sensor, disabled, n - 1);
    }
}

/// Slot `s` is disabled exactly when bit `s` of the disabled byte is set.
pub proof fn lemma_slot_disabled_is_bit(disabled: u8, slot: int)
    requires
        0 <= slot < 8,
    ensures
        slot_disabled(disabled, slot) <==> (disabled >> (slot as u8)) & 1u8 == 1u8,
{
    let t = slot as u8;
    assert((disabled & (1u8 << t) != 0) <==> ((disabled >> t) & 1u8 == 1u8)) by (bit_vector)
        requires
            t < 8,
    ;
}

proof fn lemma_count_grows(disabled: u8, a: int, b: int)
    requires
        0 <= a <= b,
    ensures
        enabled_count(disabled, a) <= enabled_count(disabled, b),
    decreases b - a,
{
    if a < b {
        lemma_count_grows(disabled, a, b - 1);
    }
}

proof fn lemma_listed_in_prefix(raw: Seq<u8>, sensor: Sensor, disabled: u8, slot: int, n: int)
    requires
        0 <= slot < n,
        !slot_disabled(disabled, slot),
    ensures
        enabled_count(disabled, slot) < enabled_dpis(raw, sensor, disabled, n).len(),
        enabled_dpis(raw, sensor, disabled, n)[enabled_count(disabled, slot) as int] == dpi_of_raw(
            raw[OFF_DPIS + slot],
            sensor,
        ),
    decreases n,
{
    lemma_dpis_count_enabled_slots(raw, sensor, disabled, n);
    lemma_dpis_count_enabled_slots(raw, sensor, disabled, n - 1);
    if n - 1 == slot {
    } else {
        lemma_listed_in_prefix(raw, sensor, disabled, slot, n - 1);
    }
}

/// Every enabled slot's DPI is in the list, at the position given by the number of
/// enabled slots before it, and nothing else is: the list is the enabled slots' DPIs in
/// slot order.
pub proof fn lemma_enabled_slot_listed(raw: Seq<u8>, sensor: Sensor, disabled: u8, slot: int)
    requires
        0 <= slot < NUM_DPI_SLOTS,
        (disabled >> (slot as u8)) & 1u8 == 0u8,
    ensures
        enabled_dpis(raw, sensor, disabled, NUM_DPI_SLOTS as int)[enabled_count(disabled, slot) as int]
            == (raw[OFF_DPIS + slot] + offset_of(sensor)) * 100,
        enabled_count(disabled, slot) < enabled_dpis(raw, sensor, disabled, NUM_DPI_SLOTS as int).len(),
{
    lemma_slot_disabled_is_bit(disabled, slot);
    lemma_listed_in_prefix(raw, sensor, disabled, slot, NUM_DPI_SLOTS as int);
}

/// With no slot disabled the list has all eight DPIs, slot by slot.
pub proof fn lemma_no_slot_disabled(raw: Seq<u8>, sensor: Sensor, n: int)
    requires
        0 <= n <= NUM_DPI_SLOTS,
    ensures
        enabled_dpis(raw, sensor, 0u8, n).len() == n,
        forall|s: int| 0 <= s < n ==> #[trigger] enabled_dpis(raw, sensor, 0u8, n)[s] == (raw[OFF_DPIS
            + s] + offset_of(sensor)) * 100,
    decreases n,
{
    if n > 0 {
        lemma_no_slot_disabled(raw, sensor, n - 1);
        lemma_slot_disabled_is_bit(0u8, n - 1);
        let t = (n - 1) as u8;
        assert((0u8 >> t) & 1u8 == 0u8) by (bit_vector);
        assert(!slot_disabled(0u8, n - 1));
        let before = enabled_dpis(raw, sensor, 0u8, n - 1);
        assert(enabled_dpis(raw, sensor, 0u8, n) == before.push(dpi_of_raw(raw[OFF_DPIS + n - 1], sensor)));
    }
}

/// With every slot disabled the list is empty.
pub proof fn lemma_all_slots_disabled(raw: Seq<u8>, sensor: Sensor, n: int)
    requires
        0 <= n <= NUM_DPI_SLOTS,
    ensures
        enabled_dpis(raw, sensor, 0xFFu8, n).len() == 0,
    decreases n,
{
    if n > 0 {
        lemma_all_slots_disabled(raw, sensor, n - 1);
        lemma_slot_disabled_is_bit(0xFFu8, n - 1);
        let t = (n - 1) as u8;
        assert((0xFFu8 >> t) & 1u8 == 1u8) by (bit_vector)
            requires
                t < 8,
        ;
    }
}

/// PMW3360 and PMW3327 count from 1: the same DPI is one raw step lower than on the
/// sensors that count from 0.
pub proof fn lemma_sensor_offset_shifts_one_step(raw: u8, counts_from_one: Sensor, counts_from_zero: Sensor)
    requires
        raw < 255,
        counts_from_one == Sensor::Pmw3360 || counts_from_one == Sensor::Pmw3327,
        !(counts_from_zero == Sensor::Pmw3360 || counts_from_zero == Sensor::Pmw3327),
    ensures
        dpi_of_raw(raw, counts_from_one) == dpi_of_raw((raw + 1) as u8, counts_from_zero),
{
}

/// The device counts profiles from 1: index `i` selects profile `i + 1`.
pub proof fn lemma_profile_counts_from_one(index: usize)
    requires
        index < 255,
    ensures
        profile_number(index) == index + 1,
{
    assert((index as u8) == index);
}

} // verus!
