//! Power management: power states, battery, and thermal policy.
//!
//! Regulator and PLL programming belongs to the platform layer; here
//! lives the power state machine and the thermal throttling decision.

use vstd::prelude::*;

verus! {

/// System power states.
#[derive(Clone, Copy, Debug, PartialEq, Eq, Structural)]
pub enum PowerState {
    /// Full performance
    Active,
    /// Balanced
    Interactive,
    /// Power saving
    Idle,
    /// Deep sleep
    Sleep,
    /// Suspend to RAM
    Suspend,
}

/// One operating point of the CPU.
#[derive(Clone, Copy, Debug, PartialEq, Eq, Structural)]
pub struct CpuFrequency {
    /// Frequency in MHz
    pub freq: u32,
    /// Voltage in mV
    pub voltage: u32,
}

/// Battery charge state.
#[derive(Clone, Copy, Debug, PartialEq, Eq, Structural)]
pub enum BatteryStatus {
    /// Charging
    Charging,
    /// Discharging
    Discharging,
    /// Full
    Full,
    /// No battery present
    NotPresent,
}

/// The frequency level a power state selects: an index into the
/// operating point table.
pub open spec fn freq_level_of(state: PowerState) -> int {
    match state {
        PowerState::Active => 5,
        PowerState::Interactive => 3,
        PowerState::Idle => 1,
        PowerState::Sleep => 0,
        PowerState::Suspend => 0,
    }
}

/// The power manager.
pub struct PowerManager {
    /// Current power state
    state: PowerState,
    /// Current frequency level: an index into the operating point table
    freq_level: usize,
}

impl PowerManager {
    /// Spec view of the power state.
    pub closed spec fn spec_state(&self) -> PowerState {
        self.state
    }

    /// Spec view of the frequency level.
    pub closed spec fn spec_freq_level(&self) -> usize {
        self.freq_level
    }

    /// A manager starting balanced.
    pub fn new() -> (r: Self)
        ensures
            r.spec_state() == PowerState::Interactive,
            r.spec_freq_level() == freq_level_of(PowerState::Interactive),
    {
        PowerManager { state: PowerState::Interactive, freq_level: 3 }
    }

    /// Whether power management is ready; an existing manager always is.
    pub fn is_initialized(&self) -> (r: bool)
        ensures
            r,
    {
        true
    }

    /// Move to a power state: the frequency level follows the state.
    /// Regulator programming, GPU gating and backlight control belong to
    /// the platform layer.
    pub fn set_power_state(&mut self, state: PowerState)
        ensures
            final(self).spec_state() == state,
            final(self).spec_freq_level() == freq_level_of(state),
    {
        self.state = state;
        self.freq_level = match state {
            PowerState::Active => 5,
            PowerState::Interactive => 3,
            PowerState::Idle => 1,
            PowerState::Sleep => 0,
            PowerState::Suspend => 0,
        };
    }

    /// The current power state.
    pub fn get_power_state(&self) -> (r: PowerState)
        ensures
            r == self.spec_state(),
    {
        self.state
    }

    /// Battery charge percentage. The fuel gauge belongs to the platform
    /// layer; this core reports a full battery.
    pub fn get_battery_level(&self) -> (r: u8)
        ensures
            r == 100,
    {
        100
    }

    /// Battery charge state. The fuel gauge belongs to the platform
    /// layer; this core reports discharging.
    pub fn get_battery_status(&self) -> (r: BatteryStatus)
        ensures
            r == BatteryStatus::Discharging,
    {
        BatteryStatus::Discharging
    }

    /// CPU temperature in degrees Celsius. The sensor belongs to the
    /// platform layer; this core reports a cool 45.
    pub fn get_cpu_temperature(&self) -> (r: i32)
        ensures
            r == 45,
    {
        45
    }

    /// Throttle against the measured temperature: above 85 degrees the
    /// frequency drops to level 1, above 75 to level 2, else nothing
    /// changes.
    pub fn thermal_check(&mut self)
        ensures
            final(self).spec_state() == old(self).spec_state(),
            ({
                let temp = 45int;
                final(self).spec_freq_level() == (if temp > 85 {
                    1int
                } else if temp > 75 {
                    2int
                } else {
                    old(self).spec_freq_level() as int
                })
            }),
    {
        let temp = self.get_cpu_temperature();
        if temp > 85 {
            self.freq_level = 1;
        } else if temp > 75 {
            self.freq_level = 2;
        }
    }
}

} // verus!
