//! State the panel writes and the hook reads. The hook runs on every mouse event, so
//! everything here is lock-free.

use vstd::prelude::*;

use std::sync::atomic::{AtomicBool, AtomicU16, AtomicU32, AtomicU8, Ordering};

use crate::brand::Brand;
use crate::fire_button::FireButton;

verus! {

/// Factors are carried as parts per million so they fit an atomic.
pub const PPM: u32 = 1_000_000;

pub struct Shared {
    pub enabled: AtomicBool,
    pub target_focused: AtomicBool,
    pub holding_fire: AtomicBool,
    factor_x_ppm: AtomicU32,
    factor_y_ppm: AtomicU32,
    fire_button: AtomicU8,
    dpi_base: AtomicU16,
    dpi_shooting: AtomicU16,
    brand: AtomicU8,
    /// Thread id of the message loop that owns the hook, published once it starts.
    pub hook_thread: AtomicU32,
}

impl Shared {
    /// Everything off, both factors 1, the left button as trigger, 800 DPI at the base
    /// and 400 shooting, the Logitech engine.
    pub fn new() -> (shared: Shared) {
        Shared {
            enabled: AtomicBool::new(false),
            target_focused: AtomicBool::new(false),
            holding_fire: AtomicBool::new(false),
            factor_x_ppm: AtomicU32::new(PPM),
            factor_y_ppm: AtomicU32::new(PPM),
            fire_button: AtomicU8::new(0),
            dpi_base: AtomicU16::new(800),
            dpi_shooting: AtomicU16::new(400),
            brand: AtomicU8::new(0),
            hook_thread: AtomicU32::new(0),
        }
    }

    /// Publishes both factors, in parts per million.
    pub fn set_factors_ppm(&self, x_ppm: u32, y_ppm: u32) {
        self.factor_x_ppm.store(x_ppm, Ordering::Relaxed);
        self.factor_y_ppm.store(y_ppm, Ordering::Relaxed);
    }

    /// Both factors, in parts per million, as some writer last published them.
    pub fn factors_ppm(&self) -> (u32, u32) {
        (self.factor_x_ppm.load(Ordering::Relaxed), self.factor_y_ppm.load(Ordering::Relaxed))
    }

    /// Publishes the trigger as its position in `FireButton::ALL`.
    pub fn set_fire_button(&self, button: FireButton) {
        self.fire_button.store(button.index(), Ordering::Relaxed);
    }

    /// The trigger some writer last published, read back through
    /// `FireButton::from_index`. The stored byte only ever comes from `set_fire_button`;
    /// a byte past the end would read as the last button.
    pub fn fire_button(&self) -> FireButton {
        let stored = self.fire_button.load(Ordering::Relaxed);
        FireButton::from_index(stored)
    }
}

impl Shared {
    /// Publishes the two DPI levels the engine applies.
    pub fn set_dpi(&self, base: u16, shooting: u16) {
        self.dpi_base.store(base, Ordering::Relaxed);
        self.dpi_shooting.store(shooting, Ordering::Relaxed);
    }

    /// The base DPI some writer last published.
    pub fn dpi_base(&self) -> u16 {
        self.dpi_base.load(Ordering::Relaxed)
    }

    /// The shooting DPI some writer last published.
    pub fn dpi_shooting(&self) -> u16 {
        self.dpi_shooting.load(Ordering::Relaxed)
    }

    /// Publishes the chosen brand as its position in `Brand::ALL`.
    pub fn set_brand(&self, brand: Brand) {
        self.brand.store(brand.index(), Ordering::Relaxed);
    }

    /// The brand some writer last published, read back through `Brand::from_index`.
    pub fn brand(&self) -> Brand {
        let stored = self.brand.load(Ordering::Relaxed);
        Brand::from_index(stored)
    }
}

} // verus!
