//! Chooses the DPI engine by brand. Adding a brand means adding an arm here.
//!
//! The engine is not told "DPI 400": it is told **which level to apply**. The difference
//! matters because not every brand takes an arbitrary DPI: SINOWEALTH only switches
//! profiles, and each profile carries the DPI it already has. Knowing what "shooting"
//! means is the engine's business, not the trigger's.

use vstd::prelude::*;

use crate::brand::{Brand, label_of};
use crate::mouse::{DIRECT_DEVICE, FUNC_SET_SENSOR_DPI, Mouse, dpi_bytes};
use crate::hidpp::request_bytes;
use crate::rawaccel::{RawAccel, described, refusal};
use crate::sinowealth::{CMD_PROFILE, CMD_SIZE, REPORT_ID_CMD, profile_number};
use crate::sinowealth_mouse::{SinowealthMouse, description, missing_profile_text, profile_dpi};
use crate::text::{decimal, push_decimal};

verus! {

#[derive(Debug, Clone, Copy, PartialEq, Eq, Structural)]
pub enum Level {
    Base,
    Atirando,
}

pub enum Engine {
    /// HID++, straight to the mouse. Measured: 3.74 ms per switch.
    Logitech(Mouse),
    /// Profile switch by feature report. Not checked on hardware.
    Sinowealth(SinowealthMouse),
    /// Filter driver, for any brand, with the one-second delay caveat.
    SemMarca(RawAccel),
    /// The chosen brand found no device that serves it.
    Ausente(Brand),
}

/// What the application sends to the device to apply a level.
pub enum Command {
    /// An HID++ output report, written to the Logitech long collection.
    Hidpp(Vec<u8>),
    /// A SINOWEALTH feature report.
    Feature([u8; CMD_SIZE]),
}

/// Profile 1 is the base, profile 2 the shooting one.
pub open spec fn profile_index(level: Level) -> usize {
    match level {
        Level::Base => 0,
        Level::Atirando => 1,
    }
}

pub open spec fn absent_text(brand: Brand) -> Seq<char> {
    "nenhum mouse "@ + label_of(brand) + " encontrado"@
}

pub open spec fn is_usable(engine: &Engine) -> bool {
    match engine {
        Engine::Logitech(_) => true,
        Engine::Sinowealth(mouse) => mouse.profiles@.len() >= 2,
        Engine::SemMarca(_) => false,
        Engine::Ausente(_) => false,
    }
}

/// Whether applying `level` yields a command to send.
pub open spec fn can_apply(engine: &Engine, level: Level) -> bool {
    match engine {
        Engine::Logitech(_) => true,
        Engine::Sinowealth(mouse) => profile_index(level) < mouse.profiles@.len(),
        _ => false,
    }
}

pub open spec fn engine_description(engine: &Engine, logitech_dpi: Option<u16>) -> Seq<char> {
    match engine {
        Engine::Logitech(_) => match logitech_dpi {
            Some(dpi) => "Logitech encontrado · DPI atual "@ + decimal(dpi as nat),
            None => "Logitech encontrado, mas nao respondeu a leitura de DPI"@,
        },
        Engine::Sinowealth(mouse) => {
            let base = profile_dpi(mouse.profiles@, 0);
            let tiro = profile_dpi(mouse.profiles@, 1);
            let own = description(mouse.product_id, mouse.profiles@.len());
            if base is Some && tiro is Some {
                own + " · perfis "@ + decimal(base.unwrap() as nat) + " e "@ + decimal(
                    tiro.unwrap() as nat,
                ) + " DPI"@
            } else {
                own
            }
        },
        Engine::SemMarca(raw) => described(raw.installed),
        Engine::Ausente(brand) => absent_text(*brand),
    }
}

/// "nenhum mouse {label} encontrado".
fn absent_message(brand: Brand) -> (text: String)
    ensures
        text@ == absent_text(brand),
{
    let mut text = String::from_str("nenhum mouse ");
    text.append(brand.label());
    text.append(" encontrado");
    text
}

impl Engine {
    /// The engine for `brand`, given what probing that brand's devices found. Only the
    /// chosen brand's probe matters; the others are not looked at.
    pub fn for_brand(
        brand: Brand,
        logitech: Option<Mouse>,
        sinowealth: Option<SinowealthMouse>,
        rawaccel_present: bool,
    ) -> (engine: Engine)
        ensures
            brand == Brand::Logitech ==> match logitech {
                Some(m) => (engine matches Engine::Logitech(e) && e == m),
                None => engine == Engine::Ausente(brand),
            },
            brand == Brand::Sinowealth ==> match sinowealth {
                Some(m) => (engine matches Engine::Sinowealth(e) && e.profiles@ == m.profiles@
                    && e.product_id == m.product_id && e.feature_len == m.feature_len),
                None => engine == Engine::Ausente(brand),
            },
            brand == Brand::SemMarca ==> (engine matches Engine::SemMarca(raw) && raw.installed
                == rawaccel_present),
    {
        match brand {
            Brand::Logitech => match logitech {
                Some(mouse) => Engine::Logitech(mouse),
                None => Engine::Ausente(brand),
            },
            Brand::Sinowealth => match sinowealth {
                Some(mouse) => Engine::Sinowealth(mouse),
                None => Engine::Ausente(brand),
            },
            Brand::SemMarca => Engine::SemMarca(RawAccel::detect(rawaccel_present)),
        }
    }

    /// Whether the engine can really switch. The panel enables its button by this.
    pub fn usable(&self) -> (usable: bool)
        ensures
            usable == is_usable(self),
    {
        match self {
            Engine::Logitech(_) => true,
            // A single profile would mean rewriting 520 bytes of the mouse's memory on
            // every shot. Refusing beats wearing the device out.
            Engine::Sinowealth(mouse) => mouse.can_switch(),
            // Installed or not, the one-second delay makes it useless on the trigger.
            Engine::SemMarca(_) => false,
            Engine::Ausente(_) => false,
        }
    }

    pub fn per_axis(&self) -> (per_axis: bool)
        ensures
            per_axis == (self matches Engine::Logitech(m) && m.per_axis),
    {
        match self {
            Engine::Logitech(mouse) => mouse.per_axis,
            _ => false,
        }
    }

    /// What to send to the device for `level`, or why nothing can be sent. The Logitech
    /// engine sets `dpi_base` or `dpi_shooting`; the SINOWEALTH one switches to profile 1
    /// or 2, whose DPI comes from the mouse itself.
    pub fn apply(&self, level: Level, dpi_base: u16, dpi_shooting: u16) -> (command: Result<
        Command,
        String,
    >)
        requires
            self matches Engine::Logitech(m) ==> m.output_len >= 7,
        ensures
            command is Ok <==> can_apply(self, level),
            self matches Engine::Logitech(m) ==> (command matches Ok(Command::Hidpp(report))
                && report@ == request_bytes(
                m.output_len as nat,
                DIRECT_DEVICE,
                m.dpi_feature,
                FUNC_SET_SENSOR_DPI,
                seq![0u8] + dpi_bytes(
                    match level {
                        Level::Base => dpi_base,
                        Level::Atirando => dpi_shooting,
                    },
                ),
            )),
            self matches Engine::Sinowealth(m) ==> if can_apply(self, level) {
                (command matches Ok(Command::Feature(c)) && c@ == seq![
                    REPORT_ID_CMD,
                    CMD_PROFILE,
                    profile_number(profile_index(level)),
                    0u8,
                    0u8,
                    0u8,
                ])
            } else {
                (command matches Err(message) && message@ == missing_profile_text(
                    profile_index(level) as int,
                ))
            },
            self matches Engine::SemMarca(raw) ==> (command matches Err(message) && message@
                == refusal(raw.installed)),
            self matches Engine::Ausente(brand) ==> (command matches Err(message) && message@
                == absent_text(*brand)),
    {
        match self {
            Engine::Logitech(mouse) => {
                let dpi = match level {
                    Level::Base => dpi_base,
                    Level::Atirando => dpi_shooting,
                };
                Ok(Command::Hidpp(mouse.set_dpi_request(dpi)))
            },
            Engine::Sinowealth(mouse) => {
                // Profile 1 is the base, profile 2 the shooting one.
                let index: usize = match level {
                    Level::Base => 0,
                    Level::Atirando => 1,
                };
                match mouse.select_profile(index) {
                    Ok(c) => Ok(Command::Feature(c)),
                    Err(message) => Err(message),
                }
            },
            Engine::SemMarca(raw) => match raw.set_dpi(0) {
                Err(message) => Err(message),
                Ok(()) => Err(String::new()),
            },
            Engine::Ausente(brand) => Err(absent_message(*brand)),
        }
    }

    /// What the panel shows about the engine. `logitech_dpi` is what reading the
    /// Logitech mouse's current DPI gave; the other engines do not read it.
    pub fn describe(&self, logitech_dpi: Option<u16>) -> (text: String)
        ensures
            text@ == engine_description(self, logitech_dpi),
    {
        match self {
            Engine::Logitech(_) => match logitech_dpi {
                Some(dpi) => {
                    let mut text = String::from_str("Logitech encontrado · DPI atual ");
                    push_decimal(&mut text, dpi as u64);
                    text
                },
                None => String::from_str("Logitech encontrado, mas nao respondeu a leitura de DPI"),
            },
            Engine::Sinowealth(mouse) => {
                let base = mouse.dpi_of_profile(0);
                let tiro = mouse.dpi_of_profile(1);
                match (base, tiro) {
                    (Some(b), Some(t)) => {
                        let mut text = mouse.describe();
                        text.append(" · perfis ");
                        push_decimal(&mut text, b as u64);
                        text.append(" e ");
                        push_decimal(&mut text, t as u64);
                        text.append(" DPI");
                        text
                    },
                    _ => mouse.describe(),
                }
            },
            Engine::SemMarca(raw) => raw.describe(),
            Engine::Ausente(brand) => absent_message(*brand),
        }
    }

    /// Whether the DPIs are editable in the panel. On SINOWEALTH they come from the
    /// mouse's profiles.
    pub fn dpi_editable(&self) -> (editable: bool)
        ensures
            editable == !(self is Sinowealth),
    {
        !matches!(self, Engine::Sinowealth(_))
    }
}

/// An engine the panel lets the user turn on always has a command for both levels: the
/// trigger never hits a refusal of its own making.
pub proof fn lemma_usable_applies_both_levels(engine: &Engine, level: Level)
    requires
        is_usable(engine),
    ensures
        can_apply(engine, level),
{
}

/// An engine the panel does not let the user turn on refuses the shooting level: the
/// trigger never switches through an engine that cannot switch back and forth.
pub proof fn lemma_unusable_refuses_shooting(engine: &Engine)
    requires
        !is_usable(engine),
    ensures
        !can_apply(engine, Level::Atirando),
{
}

} // verus!
