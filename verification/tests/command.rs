use oop_design::command::client::run_client;
use oop_design::command::command::{
    Action, CeilingFanHighCommand, CeilingFanOffCommand, Command, LightOffCommand, LightOnCommand,
    NoCommand,
};
use oop_design::command::enum_match;
use oop_design::command::furniture::{Appliance, CeilingFan, Light, Speed};
use oop_design::command::remote_control::{RemoteControl, RemoteError, NUM_SLOTS};

fn light_remote() -> (RemoteControl, usize) {
    let mut remote = RemoteControl::new();
    let light = remote.add_light(Light::new());
    remote
        .set_commands(
            0,
            Action::LightOn(LightOnCommand::new(light)),
            Action::LightOff(LightOffCommand::new(light)),
        )
        .unwrap();
    (remote, light)
}

fn fan_remote() -> (RemoteControl, usize) {
    let mut remote = RemoteControl::new();
    let fan = remote.add_ceiling_fan(CeilingFan::new());
    remote
        .set_commands(
            1,
            Action::CeilingFanHigh(CeilingFanHighCommand::new(fan)),
            Action::CeilingFanOff(CeilingFanOffCommand::new(fan)),
        )
        .unwrap();
    (remote, fan)
}

fn light_state(remote: &RemoteControl, handle: usize) -> bool {
    match remote.get_appliance(handle) {
        Some(Appliance::Light(l)) => l.on,
        other => panic!("expected a light, got {:?}", other),
    }
}

fn fan_speed(remote: &RemoteControl, handle: usize) -> Speed {
    match remote.get_appliance(handle) {
        Some(Appliance::CeilingFan(f)) => f.speed,
        other => panic!("expected a ceiling fan, got {:?}", other),
    }
}

#[test]
fn light_scenario_press_press_undo_undo() {
    let (mut remote, light) = light_remote();
    assert_eq!(light_state(&remote, light), false);

    remote.on_pressing_on_button(0).unwrap();
    assert_eq!(light_state(&remote, light), true);
    assert_eq!(remote.history_len(), 1);
    assert_eq!(
        remote.history_action(0),
        Some(Action::LightOn(LightOnCommand::new(light)))
    );

    remote.on_pressing_off_button(0).unwrap();
    assert_eq!(light_state(&remote, light), false);
    assert_eq!(remote.history_len(), 2);
    assert_eq!(
        remote.history_action(1),
        Some(Action::LightOff(LightOffCommand::new(light)))
    );

    remote.on_pressing_undo_button().unwrap();
    assert_eq!(light_state(&remote, light), true);
    assert_eq!(remote.history_len(), 1);

    remote.on_pressing_undo_button().unwrap();
    assert_eq!(light_state(&remote, light), false);
    assert_eq!(remote.history_len(), 0);
}

#[test]
fn fan_scenario_snapshots_restore_in_order() {
    let (mut remote, fan) = fan_remote();
    assert_eq!(fan_speed(&remote, fan), Speed::Off);

    remote.on_pressing_on_button(1).unwrap();
    assert_eq!(fan_speed(&remote, fan), Speed::High);

    remote.on_pressing_off_button(1).unwrap();
    assert_eq!(fan_speed(&remote, fan), Speed::Off);

    remote.on_pressing_undo_button().unwrap();
    assert_eq!(fan_speed(&remote, fan), Speed::High);

    remote.on_pressing_undo_button().unwrap();
    assert_eq!(fan_speed(&remote, fan), Speed::Off);
}

#[test]
fn press_then_undo_restores_every_prior_fan_speed() {
    for prior in [Speed::Off, Speed::Low, Speed::Medium, Speed::High] {
        let mut remote = RemoteControl::new();
        let fan = remote.add_ceiling_fan(CeilingFan { speed: prior });
        remote
            .set_commands(
                1,
                Action::CeilingFanHigh(CeilingFanHighCommand::new(fan)),
                Action::CeilingFanOff(CeilingFanOffCommand::new(fan)),
            )
            .unwrap();

        remote.on_pressing_on_button(1).unwrap();
        assert_eq!(fan_speed(&remote, fan), Speed::High);
        remote.on_pressing_undo_button().unwrap();
        assert_eq!(fan_speed(&remote, fan), prior);

        remote.on_pressing_off_button(1).unwrap();
        assert_eq!(fan_speed(&remote, fan), Speed::Off);
        remote.on_pressing_undo_button().unwrap();
        assert_eq!(fan_speed(&remote, fan), prior);
    }
}

#[test]
fn press_then_undo_restores_light_from_opposite_state() {
    let (mut remote, light) = light_remote();
    // Off light, activate press: undo restores Off.
    remote.on_pressing_on_button(0).unwrap();
    remote.on_pressing_undo_button().unwrap();
    assert_eq!(light_state(&remote, light), false);

    // On light, deactivate press: undo restores On.
    remote.on_pressing_on_button(0).unwrap();
    remote.on_pressing_off_button(0).unwrap();
    remote.on_pressing_undo_button().unwrap();
    assert_eq!(light_state(&remote, light), true);
}

#[test]
fn undo_is_strictly_lifo_across_slots() {
    let mut remote = RemoteControl::new();
    let light = remote.add_light(Light::new());
    let fan = remote.add_ceiling_fan(CeilingFan::new());
    remote
        .set_commands(
            0,
            Action::LightOn(LightOnCommand::new(light)),
            Action::LightOff(LightOffCommand::new(light)),
        )
        .unwrap();
    remote
        .set_commands(
            1,
            Action::CeilingFanHigh(CeilingFanHighCommand::new(fan)),
            Action::CeilingFanOff(CeilingFanOffCommand::new(fan)),
        )
        .unwrap();

    remote.on_pressing_on_button(0).unwrap(); // A: light on
    remote.on_pressing_on_button(1).unwrap(); // B: fan high

    remote.on_pressing_undo_button().unwrap(); // reverses B first
    assert_eq!(fan_speed(&remote, fan), Speed::Off);
    assert_eq!(light_state(&remote, light), true);

    remote.on_pressing_undo_button().unwrap(); // then A
    assert_eq!(light_state(&remote, light), false);
    assert_eq!(fan_speed(&remote, fan), Speed::Off);
}

#[test]
fn undo_on_empty_history_reports_and_preserves() {
    let (mut remote, light) = light_remote();
    assert_eq!(remote.on_pressing_undo_button(), Err(RemoteError::EmptyHistory));
    assert_eq!(light_state(&remote, light), false);
    assert_eq!(remote.history_len(), 0);

    // Still empty after a press was undone.
    remote.on_pressing_on_button(0).unwrap();
    remote.on_pressing_undo_button().unwrap();
    assert_eq!(remote.on_pressing_undo_button(), Err(RemoteError::EmptyHistory));
    assert_eq!(light_state(&remote, light), false);
}

#[test]
fn out_of_range_slot_reports_invalid_slot_and_mutates_nothing() {
    let (mut remote, light) = light_remote();
    assert_eq!(
        remote.on_pressing_on_button(NUM_SLOTS),
        Err(RemoteError::InvalidSlot(NUM_SLOTS))
    );
    assert_eq!(remote.on_pressing_off_button(99), Err(RemoteError::InvalidSlot(99)));
    assert_eq!(
        remote.set_commands(
            7,
            Action::LightOn(LightOnCommand::new(light)),
            Action::LightOff(LightOffCommand::new(light)),
        ),
        Err(RemoteError::InvalidSlot(7))
    );
    assert_eq!(light_state(&remote, light), false);
    assert_eq!(remote.history_len(), 0);
    let listing = remote.describe();
    assert_eq!(listing[0], ("LightOnCommand", "LightOffCommand"));
}

#[test]
fn unbound_slot_press_is_a_noop_but_recorded() {
    let (mut remote, light) = light_remote();
    remote.on_pressing_on_button(3).unwrap();
    assert_eq!(light_state(&remote, light), false);
    assert_eq!(remote.history_len(), 1);
    assert_eq!(remote.history_action(0), Some(Action::NoOp(NoCommand::new())));

    remote.on_pressing_undo_button().unwrap();
    assert_eq!(light_state(&remote, light), false);
    assert_eq!(remote.history_len(), 0);
}

#[test]
fn describe_lists_slot_names_in_order() {
    let (remote, _) = light_remote();
    let listing = remote.describe();
    assert_eq!(listing.len(), NUM_SLOTS);
    assert_eq!(listing[0], ("LightOnCommand", "LightOffCommand"));
    for slot in 1..NUM_SLOTS {
        assert_eq!(listing[slot], ("NoCommand", "NoCommand"));
    }
}

#[test]
fn command_names() {
    assert_eq!(NoCommand::new().name(), "NoCommand");
    assert_eq!(Action::LightOn(LightOnCommand::new(0)).name(), "LightOnCommand");
    assert_eq!(Action::LightOff(LightOffCommand::new(0)).name(), "LightOffCommand");
    assert_eq!(
        Action::CeilingFanHigh(CeilingFanHighCommand::new(0)).name(),
        "CeilingFanHighCommand"
    );
    assert_eq!(
        Action::CeilingFanOff(CeilingFanOffCommand::new(0)).name(),
        "CeilingFanOffCommand"
    );
}

#[test]
fn committed_action_snapshot_is_independent_of_the_slot_template() {
    let (mut remote, fan) = fan_remote();
    remote.on_pressing_on_button(1).unwrap(); // snapshot Off
    remote.on_pressing_off_button(1).unwrap(); // snapshot High
    assert_eq!(
        remote.history_action(0),
        Some(Action::CeilingFanHigh(CeilingFanHighCommand {
            ceiling_fan: fan,
            prev_speed: Speed::Off,
        }))
    );
    assert_eq!(
        remote.history_action(1),
        Some(Action::CeilingFanOff(CeilingFanOffCommand {
            ceiling_fan: fan,
            prev_speed: Speed::High,
        }))
    );
}

#[test]
fn run_client_ends_with_light_on_and_fan_high() {
    let remote = run_client();
    assert_eq!(light_state(&remote, 0), true);
    assert_eq!(fan_speed(&remote, 1), Speed::High);
    assert_eq!(remote.history_len(), 2);
}

#[test]
fn run_enum_match_pattern_leaves_light_off() {
    let light = enum_match::run_enum_match_pattern();
    assert_eq!(light.on, false);
}

#[test]
fn enum_match_commands_drive_a_light() {
    let mut light = Light::new();
    enum_match::Command::LightOn.execute(&mut light);
    assert!(light.on);
    enum_match::Command::LightOff.execute(&mut light);
    assert!(!light.on);
}

#[test]
fn furniture_transitions() {
    let mut light = Light::new();
    assert!(!light.on);
    light.on();
    assert!(light.on);
    light.on();
    assert!(light.on);
    light.off();
    assert!(!light.on);

    let mut fan = CeilingFan::new();
    assert_eq!(fan.get_speed(), 0);
    fan.low();
    assert_eq!(fan.get_speed(), 1);
    fan.medium();
    assert_eq!(fan.get_speed(), 2);
    fan.high();
    assert_eq!(fan.get_speed(), 3);
    fan.off();
    assert_eq!(fan.get_speed(), 0);
    fan.set_speed(&Speed::Medium);
    assert_eq!(fan.speed, Speed::Medium);
}

#[test]
fn actions_execute_and_undo_directly_on_an_arena() {
    let mut arena = vec![Appliance::CeilingFan(CeilingFan { speed: Speed::Low })];
    let mut cmd = CeilingFanOffCommand::new(0);
    cmd.execute(&mut arena);
    assert_eq!(arena[0], Appliance::CeilingFan(CeilingFan { speed: Speed::Off }));
    assert_eq!(cmd.prev_speed, Speed::Low);
    cmd.undo(&mut arena);
    assert_eq!(arena[0], Appliance::CeilingFan(CeilingFan { speed: Speed::Low }));
}
