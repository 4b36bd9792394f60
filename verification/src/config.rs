//! Panel settings. Reading and writing the JSON file is the application's part; what a
//! parsed (or unparsable) file turns into is decided here.

use vstd::prelude::*;

use crate::fire_button::FireButton;

verus! {

#[derive(Debug, Clone, Copy, PartialEq, Eq)]
pub struct Settings {
    pub base_dpi: u32,
    /// Zero means "follow `base_dpi`": that is what a file written before this field
    /// existed reads as.
    pub base_dpi_y: u32,
    pub shooting_dpi_x: u32,
    pub shooting_dpi_y: u32,
    pub split_axes: bool,
    pub fire_button: FireButton,
    pub enabled: bool,
    /// A file written before the colours existed must not read them as black.
    pub accent: [u8; 3],
    pub background: [u8; 3],
}

pub open spec fn is_default_accent(c: [u8; 3]) -> bool {
    c@ == seq![96u8, 205u8, 255u8]
}

pub open spec fn is_default_background(c: [u8; 3]) -> bool {
    c@ == seq![22u8, 24u8, 28u8]
}

/// The settings a first start, or an unreadable file, gets.
pub open spec fn is_default_settings(s: Settings) -> bool {
    &&& s.base_dpi == 800
    &&& s.base_dpi_y == 800
    &&& s.shooting_dpi_x == 400
    &&& s.shooting_dpi_y == 400
    &&& !s.split_axes
    &&& s.fire_button == FireButton::Left
    &&& !s.enabled
    &&& is_default_accent(s.accent)
    &&& is_default_background(s.background)
}

/// A parsed file as the panel uses it: the Y base follows the X base when it is zero.
pub open spec fn normalized(s: Settings) -> Settings {
    Settings { base_dpi_y: if s.base_dpi_y == 0 { s.base_dpi } else { s.base_dpi_y }, ..s }
}

pub fn default_accent() -> (c: [u8; 3])
    ensures
        is_default_accent(c),
{
    [96, 205, 255]
}

pub fn default_background() -> (c: [u8; 3])
    ensures
        is_default_background(c),
{
    [22, 24, 28]
}

impl Default for Settings {
    fn default() -> (s: Self)
        ensures
            is_default_settings(s),
    {
        Settings {
            base_dpi: 800,
            base_dpi_y: 800,
            shooting_dpi_x: 400,
            shooting_dpi_y: 400,
            split_axes: false,
            fire_button: FireButton::Left,
            enabled: false,
            accent: default_accent(),
            background: default_background(),
        }
    }
}

impl Settings {
    /// Never fails: a missing, truncated or hand-edited file (`None`) must not stop the
    /// panel from opening, and gets the defaults.
    pub fn from_parsed(parsed: Option<Settings>) -> (settings: Self)
        ensures
            parsed is None ==> is_default_settings(settings),
            parsed matches Some(s) ==> settings == normalized(s),
            parsed matches Some(s) ==> {
                &&& settings.base_dpi == s.base_dpi
                &&& settings.base_dpi_y == (if s.base_dpi_y == 0 {
                    s.base_dpi
                } else {
                    s.base_dpi_y
                })
                &&& settings.shooting_dpi_x == s.shooting_dpi_x
                &&& settings.shooting_dpi_y == s.shooting_dpi_y
                &&& settings.split_axes == s.split_axes
                &&& settings.fire_button == s.fire_button
                &&& settings.enabled == s.enabled
                &&& settings.accent == s.accent
                &&& settings.background == s.background
            },
            settings.base_dpi_y != 0 || settings.base_dpi == 0,
    {
        match parsed {
            None => Settings::default(),
            Some(s) => {
                let mut settings = s;
                if settings.base_dpi_y == 0 {
                    settings.base_dpi_y = settings.base_dpi;
                }
                settings
            },
        }
    }
}

impl Settings {
    /// Without per-axis DPI on the mouse, the axes cannot be split.
    pub fn restrict_split(&mut self, per_axis_ok: bool)
        ensures
            *final(self) == (if per_axis_ok {
                *old(self)
            } else {
                Settings { split_axes: false, ..*old(self) }
            }),
    {
        if !per_axis_ok {
            self.split_axes = false;
        }
    }

    /// With the axes joined, both Y values follow the X ones.
    pub fn join_axes(&mut self)
        ensures
            *final(self) == (if old(self).split_axes {
                *old(self)
            } else {
                Settings {
                    base_dpi_y: old(self).base_dpi,
                    shooting_dpi_y: old(self).shooting_dpi_x,
                    ..*old(self)
                }
            }),
    {
        if !self.split_axes {
            self.base_dpi_y = self.base_dpi;
            self.shooting_dpi_y = self.shooting_dpi_x;
        }
    }
}

/// The DPI the panel hands to the engine: held to 50..=32000, which also fits a `u16`.
pub open spec fn panel_dpi_of(value: u32) -> u16 {
    if value < 50 {
        50
    } else if value > 32_000 {
        32_000
    } else {
        value as u16
    }
}

/// Holds an edited DPI to the range the panel accepts, 50..=32000.
pub fn panel_dpi(value: u32) -> (dpi: u16)
    ensures
        dpi == panel_dpi_of(value),
        50 <= dpi <= 32_000,
{
    if value < 50 {
        50
    } else if value > 32_000 {
        32_000
    } else {
        value as u16
    }
}

/// A parsed file keeps every value the user chose; only a missing Y base (zero) takes
/// the X base.
pub proof fn lemma_normalized_keeps_the_file(s: Settings)
    ensures
        normalized(s).base_dpi == s.base_dpi,
        s.base_dpi_y != 0 ==> normalized(s).base_dpi_y == s.base_dpi_y,
        s.base_dpi_y == 0 ==> normalized(s).base_dpi_y == s.base_dpi,
        normalized(s).shooting_dpi_x == s.shooting_dpi_x,
        normalized(s).shooting_dpi_y == s.shooting_dpi_y,
        normalized(s).split_axes == s.split_axes,
        normalized(s).fire_button == s.fire_button,
        normalized(s).enabled == s.enabled,
        normalized(s).accent == s.accent,
        normalized(s).background == s.background,
        s.base_dpi_y != 0 ==> normalized(s) == s,
{
}

/// Normalising a parsed file twice changes nothing more than once: a file saved after
/// loading keeps its values.
pub proof fn lemma_normalized_is_stable(s: Settings)
    ensures
        normalized(normalized(s)) == normalized(s),
{
}

} // verus!
