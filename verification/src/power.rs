//! The power control register: low-power-mode-select field and the
//! backup-domain write-enable bit.

use vstd::prelude::*;

verus! {

/// Values of the low-power-mode-select field. `Shutdown` is the deepest:
/// the core and most peripherals lose power, and the only way out is a
/// full reset triggered by a wake source.
#[derive(Clone, Copy, Debug, PartialEq, Eq, Structural)]
pub enum LowPowerMode {
    Stop0,
    Stop1,
    Stop2,
    Standby,
    Shutdown,
}

/// The power controller's registers.
#[derive(Clone, Copy, Debug, PartialEq, Eq, Structural)]
pub struct PowerRegs {
    /// Backup-domain write-enable bit; RTC register writes need it set.
    pub backup_access: bool,
    /// Low-power-mode-select field: which state the next deep-sleep entry
    /// reaches.
    pub low_power_mode: LowPowerMode,
}

impl PowerRegs {
    /// The controller as it stands after a reset: backup domain protected,
    /// mode select at its shallow reset value.
    pub fn power_on() -> (r: PowerRegs)
        ensures
            r == (PowerRegs { backup_access: false, low_power_mode: LowPowerMode::Stop0 }),
    {
        PowerRegs { backup_access: false, low_power_mode: LowPowerMode::Stop0 }
    }

    /// Sets the backup-domain write-enable bit.
    pub fn enable_backup_access(&mut self)
        ensures
            *final(self) == (PowerRegs { backup_access: true, ..*old(self) }),
    {
        self.backup_access = true;
    }

    /// Writes the deepest ("shutdown") value into the mode-select field.
    pub fn select_shutdown(&mut self)
        ensures
            *final(self) == (PowerRegs { low_power_mode: LowPowerMode::Shutdown, ..*old(self) }),
    {
        self.low_power_mode = LowPowerMode::Shutdown;
    }
}

} // verus!
