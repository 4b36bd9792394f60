//! The "Sem marca" engine, on top of the RawAccel driver.
//!
//! RawAccel is a filter driver that transforms the mouse counts before the system sees
//! them, for any brand. Its source has three IOCTLs and nothing more (`READ`, `WRITE`,
//! `GET_VERSION`), and its `WRITE` handler sleeps one second in the kernel before reading
//! the buffer, unconditionally and on purpose. Holding the trigger would change the
//! sensitivity a second later, when the burst is over. So this engine **detects** the
//! driver and says what it found, instead of pretending to serve.

use vstd::prelude::*;

use crate::text::{decimal, push_decimal};

verus! {

/// Name of the device the driver exposes, the same as in `rawaccel-io.hpp`.
pub const DEVICE: &'static str = "\\\\.\\rawaccel";

/// Delay the driver applies to every configuration write, in milliseconds.
pub const WRITE_DELAY_MS: u32 = 1000;

pub struct RawAccel {
    pub installed: bool,
}

pub open spec fn described(installed: bool) -> Seq<char> {
    if installed {
        "RawAccel instalado, mas ele atrasa "@ + decimal(WRITE_DELAY_MS as nat)
            + " ms toda escrita, por design"@
    } else {
        "driver RawAccel nao instalado"@
    }
}

pub open spec fn refusal(installed: bool) -> Seq<char> {
    if installed {
        "RawAccel atrasa "@ + decimal(WRITE_DELAY_MS as nat)
            + " ms por escrita — chegaria depois da rajada"@
    } else {
        "driver RawAccel nao instalado"@
    }
}

impl RawAccel {
    /// The engine, given whether opening the driver's device succeeded.
    pub fn detect(device_present: bool) -> (raw: RawAccel)
        ensures
            raw.installed == device_present,
    {
        RawAccel { installed: device_present }
    }

    pub fn describe(&self) -> (text: String)
        ensures
            text@ == described(self.installed),
    {
        if self.installed {
            let mut text = String::from_str("RawAccel instalado, mas ele atrasa ");
            push_decimal(&mut text, WRITE_DELAY_MS as u64);
            text.append(" ms toda escrita, por design");
            text
        } else {
            String::from_str("driver RawAccel nao instalado")
        }
    }

    /// Changes nothing, and says why. Performing the real write would block the message
    /// loop for a second on every click.
    pub fn set_dpi(&self, _dpi: u16) -> (result: Result<(), String>)
        ensures
            result matches Err(message) && message@ == refusal(self.installed),
    {
        if !self.installed {
            return Err(String::from_str("driver RawAccel nao instalado"));
        }
        let mut message = String::from_str("RawAccel atrasa ");
        push_decimal(&mut message, WRITE_DELAY_MS as u64);
        message.append(" ms por escrita — chegaria depois da rajada");
        Err(message)
    }
}

} // verus!
