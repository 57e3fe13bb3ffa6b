//! Client wiring: constructs the appliances, binds matching action
//! pairs into dispatcher slots, and drives a press/undo sequence on a
//! light and a ceiling fan.

use vstd::prelude::*;

use crate::command::command::{
    Action, CeilingFanHighCommand, CeilingFanOffCommand, LightOffCommand, LightOnCommand,
};
use crate::command::furniture::{Appliance, CeilingFan, Light, Speed};
use crate::command::remote_control::RemoteControl;

verus! {

/// Wire up a remote with a light on slot 0 and a ceiling fan on slot
/// 1, then press each slot's activate and deactivate buttons and undo
/// the most recent press of each.
///
/// The remote comes back with the light on (its off-press was undone),
/// the fan on high (its off-press was undone, restoring the snapshot
/// taken when the off-press executed), and both activate presses still
/// in history.
pub fn run_client() -> (r: RemoteControl)
    ensures
        r.wf(),
        r.appliances@.len() == 2,
        r.appliances@[0] == Appliance::Light(Light { on: true }),
        r.appliances@[1] == Appliance::CeilingFan(CeilingFan { speed: Speed::High }),
        r.history@.len() == 2,
        r.history@[0] == Action::LightOn(LightOnCommand { light: 0 }),
        r.history@[1] == Action::CeilingFanHigh(
            CeilingFanHighCommand { ceiling_fan: 1, prev_speed: Speed::Off },
        ),
{
    let mut remote_control = RemoteControl::new();

    let light = remote_control.add_light(Light::new());
    let light_on_command = LightOnCommand::new(light);
    let light_off_command = LightOffCommand::new(light);

    let ceiling_fan = remote_control.add_ceiling_fan(CeilingFan::new());
    let ceiling_on_high_command = CeilingFanHighCommand::new(ceiling_fan);
    let ceiling_off_command = CeilingFanOffCommand::new(ceiling_fan);

    let _ = remote_control.set_commands(
        0,
        Action::LightOn(light_on_command),
        Action::LightOff(light_off_command),
    );
    let _ = remote_control.set_commands(
        1,
        Action::CeilingFanHigh(ceiling_on_high_command),
        Action::CeilingFanOff(ceiling_off_command),
    );

    let _ = remote_control.on_pressing_on_button(0);
    let _ = remote_control.on_pressing_off_button(0);
    let _ = remote_control.on_pressing_undo_button();

    let _ = remote_control.on_pressing_on_button(1);
    let _ = remote_control.on_pressing_off_button(1);
    let _ = remote_control.on_pressing_undo_button();

    proof {
        assert(remote_control.appliances@ =~= seq![
            Appliance::Light(Light { on: true }),
            Appliance::CeilingFan(CeilingFan { speed: Speed::High }),
        ]);
        assert(remote_control.history@ =~= seq![
            Action::LightOn(LightOnCommand { light: 0 }),
            Action::CeilingFanHigh(
                CeilingFanHighCommand { ceiling_fan: 1, prev_speed: Speed::Off },
            ),
        ]);
    }
    remote_control
}

} // verus!
