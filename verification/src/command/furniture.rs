//! Appliance state machines: a binary light and a multi-speed ceiling
//! fan. Each holds a single discrete state value and exposes total,
//! always-succeeding transitions. The human-readable notification the
//! transitions emit is an observability concern and is produced by the
//! caller from the state these methods establish.

use vstd::prelude::*;

verus! {

/// A light that is either on or off.
#[derive(Clone, Copy, PartialEq, Eq, Structural, Debug)]
pub struct Light {
    pub on: bool,
}

impl Light {
    /// A new light starts out switched off.
    pub fn new() -> (r: Light)
        ensures
            r.on == false,
    {
        Light { on: false }
    }

    /// Switch the light on. Idempotent: repeating it in the same state
    /// is observably a no-op.
    pub fn on(&mut self)
        ensures
            final(self).on == true,
    {
        self.on = true;
    }

    /// Switch the light off.
    pub fn off(&mut self)
        ensures
            final(self).on == false,
    {
        self.on = false;
    }
}

/// The speed of a ceiling fan, totally ordered Off < Low < Medium < High.
/// The order is informational (`CeilingFan::get_speed`); any speed is
/// reachable from any other directly.
#[derive(Clone, Copy, PartialEq, Eq, Structural, Debug)]
pub enum Speed {
    Off,
    Low,
    Medium,
    High,
}

impl Speed {
    /// The numeric level of this speed within the order
    /// Off < Low < Medium < High.
    pub open spec fn spec_level(self) -> int {
        match self {
            Speed::Off => 0,
            Speed::Low => 1,
            Speed::Medium => 2,
            Speed::High => 3,
        }
    }
}

/// A ceiling fan running at one of four speeds.
#[derive(Clone, Copy, PartialEq, Eq, Structural, Debug)]
pub struct CeilingFan {
    pub speed: Speed,
}

impl CeilingFan {
    /// A new ceiling fan starts out off.
    pub fn new() -> (r: CeilingFan)
        ensures
            r.speed == Speed::Off,
    {
        CeilingFan { speed: Speed::Off }
    }

    /// Run the fan at high speed.
    pub fn high(&mut self)
        ensures
            final(self).speed == Speed::High,
    {
        self.speed = Speed::High;
    }

    /// Run the fan at medium speed.
    pub fn medium(&mut self)
        ensures
            final(self).speed == Speed::Medium,
    {
        self.speed = Speed::Medium;
    }

    /// Run the fan at low speed.
    pub fn low(&mut self)
        ensures
            final(self).speed == Speed::Low,
    {
        self.speed = Speed::Low;
    }

    /// Stop the fan.
    pub fn off(&mut self)
        ensures
            final(self).speed == Speed::Off,
    {
        self.speed = Speed::Off;
    }

    /// The numeric level of the current speed, 0 for off up to 3 for
    /// high.
    pub fn get_speed(&self) -> (r: usize)
        ensures
            r == self.speed.spec_level(),
    {
        match self.speed {
            Speed::Off => 0,
            Speed::Low => 1,
            Speed::Medium => 2,
            Speed::High => 3,
        }
    }

    /// Set the fan directly to `speed`. Used by undo to restore a
    /// previously captured speed exactly.
    pub fn set_speed(&mut self, speed: &Speed)
        ensures
            final(self).speed == *speed,
    {
        match speed {
            Speed::Off => self.off(),
            Speed::Low => self.low(),
            Speed::Medium => self.medium(),
            Speed::High => self.high(),
        }
    }
}

/// An appliance held in the dispatcher's arena: either a light or a
/// ceiling fan. Actions address an appliance through its arena index
/// and never hold a direct reference.
#[derive(Clone, Copy, PartialEq, Eq, Structural, Debug)]
pub enum Appliance {
    Light(Light),
    CeilingFan(CeilingFan),
}

impl Appliance {
    /// Whether this appliance is a light.
    pub open spec fn is_light(self) -> bool {
        self is Light
    }

    /// Whether this appliance is a ceiling fan.
    pub open spec fn is_ceiling_fan(self) -> bool {
        self is CeilingFan
    }
}

} // verus!
