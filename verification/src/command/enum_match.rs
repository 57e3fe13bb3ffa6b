//! The command pattern closed over a tagged enum instead of an action
//! abstraction: one variant per command, one dispatch function.

use vstd::prelude::*;

use crate::command::furniture::Light;

verus! {

/// A light command as a plain variant. The command is applied to the
/// light it should mutate at `execute` time; it holds no reference of
/// its own.
#[derive(Clone, Copy, PartialEq, Eq, Structural, Debug)]
pub enum Command {
    LightOn,
    LightOff,
}

impl Command {
    /// Apply the command: `LightOn` leaves the light on, `LightOff`
    /// leaves it off.
    pub fn execute(self, light: &mut Light)
        ensures
            final(light).on == (self is LightOn),
    {
        match self {
            Command::LightOn => light.on(),
            Command::LightOff => light.off(),
        }
    }
}

/// Drive a fresh light through an on command and then an off command;
/// the light comes back off.
pub fn run_enum_match_pattern() -> (light: Light)
    ensures
        light.on == false,
{
    let mut light = Light { on: false };
    let cmd1 = Command::LightOn;
    cmd1.execute(&mut light);
    let cmd2 = Command::LightOff;
    cmd2.execute(&mut light);
    light
}

} // verus!
