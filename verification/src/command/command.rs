//! The action abstraction: a unit of work with a forward effect
//! (`execute`), an inverse effect (`undo`) and a name. Every concrete
//! action addresses its appliance through a handle into the
//! dispatcher's arena, and a stateful action captures the state it
//! needs to reverse itself *before* mutating anything.

use vstd::prelude::*;

use crate::command::furniture::{Appliance, CeilingFan, Light, Speed};

verus! {

/// A unit of work over a dispatcher's appliance arena.
///
/// `spec_execute` and `spec_undo` pin both effects down exactly, so
/// that a caller holding a committed action knows precisely which
/// arena `undo` will produce.
pub trait Command: Sized {
    /// The action's handle points into `appliances`, at an appliance
    /// of the kind the action mutates.
    spec fn valid(self, appliances: Seq<Appliance>) -> bool;

    /// The committed action and the arena after the forward effect.
    /// The committed action is the one that must go into history: for
    /// a stateful action it carries the snapshot taken at the start of
    /// `execute`, before the mutation.
    spec fn spec_execute(self, appliances: Seq<Appliance>) -> (Self, Seq<Appliance>);

    /// The arena after the inverse effect.
    spec fn spec_undo(self, appliances: Seq<Appliance>) -> Seq<Appliance>;

    /// The action's name.
    spec fn spec_name(self) -> Seq<char>;

    /// Perform the forward effect on the arena, leaving `self` as the
    /// committed action.
    fn execute(&mut self, appliances: &mut Vec<Appliance>)
        requires
            old(self).valid(old(appliances)@),
        ensures
            *final(self) == old(self).spec_execute(old(appliances)@).0,
            final(appliances)@ == old(self).spec_execute(old(appliances)@).1,
    ;

    /// Perform the inverse effect on the arena.
    fn undo(&mut self, appliances: &mut Vec<Appliance>)
        requires
            old(self).valid(old(appliances)@),
        ensures
            *final(self) == *old(self),
            final(appliances)@ == old(self).spec_undo(old(appliances)@),
    ;

    /// The action's name.
    fn name(&self) -> (r: &'static str)
        ensures
            r@ == self.spec_name(),
    ;
}

/// The do-nothing action. Unbound dispatcher slots hold it, so that
/// pressing any in-range slot is total: it executes and undoes to
/// nothing.
#[derive(Clone, Copy, PartialEq, Eq, Structural, Debug)]
pub struct NoCommand;

impl NoCommand {
    pub fn new() -> (r: Self)
        ensures
            r == NoCommand,
    {
        Self {}
    }
}

impl Command for NoCommand {
    open spec fn valid(self, appliances: Seq<Appliance>) -> bool {
        true
    }

    open spec fn spec_execute(self, appliances: Seq<Appliance>) -> (Self, Seq<Appliance>) {
        (self, appliances)
    }

    open spec fn spec_undo(self, appliances: Seq<Appliance>) -> Seq<Appliance> {
        appliances
    }

    open spec fn spec_name(self) -> Seq<char> {
        "NoCommand"@
    }

    fn execute(&mut self, _appliances: &mut Vec<Appliance>) {
    }

    fn undo(&mut self, _appliances: &mut Vec<Appliance>) {
    }

    fn name(&self) -> (r: &'static str) {
        "NoCommand"
    }
}

/// Switches a light on; its inverse is the complementary fixed
/// transition, switching the light off.
#[derive(Clone, Copy, PartialEq, Eq, Structural, Debug)]
pub struct LightOnCommand {
    /// Arena handle of the light this action mutates.
    pub light: usize,
}

impl LightOnCommand {
    /// Bind the action to the light at arena handle `light`.
    pub fn new(light: usize) -> (r: Self)
        ensures
            r.light == light,
    {
        Self { light }
    }
}

impl Command for LightOnCommand {
    open spec fn valid(self, appliances: Seq<Appliance>) -> bool {
        self.light < appliances.len() && appliances[self.light as int] is Light
    }

    open spec fn spec_execute(self, appliances: Seq<Appliance>) -> (Self, Seq<Appliance>) {
        (self, appliances.update(self.light as int, Appliance::Light(Light { on: true })))
    }

    open spec fn spec_undo(self, appliances: Seq<Appliance>) -> Seq<Appliance> {
        appliances.update(self.light as int, Appliance::Light(Light { on: false }))
    }

    open spec fn spec_name(self) -> Seq<char> {
        "LightOnCommand"@
    }

    fn execute(&mut self, appliances: &mut Vec<Appliance>) {
        match &mut appliances[self.light] {
            Appliance::Light(l) => l.on(),
            Appliance::CeilingFan(_) => {},
        }
        assert(appliances@ =~= self.spec_execute(old(appliances)@).1);
    }

    fn undo(&mut self, appliances: &mut Vec<Appliance>) {
        match &mut appliances[self.light] {
            Appliance::Light(l) => l.off(),
            Appliance::CeilingFan(_) => {},
        }
        assert(appliances@ =~= old(self).spec_undo(old(appliances)@));
    }

    fn name(&self) -> (r: &'static str) {
        "LightOnCommand"
    }
}

/// Switches a light off; its inverse switches it back on.
#[derive(Clone, Copy, PartialEq, Eq, Structural, Debug)]
pub struct LightOffCommand {
    /// Arena handle of the light this action mutates.
    pub light: usize,
}

impl LightOffCommand {
    /// Bind the action to the light at arena handle `light`.
    pub fn new(light: usize) -> (r: Self)
        ensures
            r.light == light,
    {
        Self { light }
    }
}

impl Command for LightOffCommand {
    open spec fn valid(self, appliances: Seq<Appliance>) -> bool {
        self.light < appliances.len() && appliances[self.light as int] is Light
    }

    open spec fn spec_execute(self, appliances: Seq<Appliance>) -> (Self, Seq<Appliance>) {
        (self, appliances.update(self.light as int, Appliance::Light(Light { on: false })))
    }

    open spec fn spec_undo(self, appliances: Seq<Appliance>) -> Seq<Appliance> {
        appliances.update(self.light as int, Appliance::Light(Light { on: true }))
    }

    open spec fn spec_name(self) -> Seq<char> {
        "LightOffCommand"@
    }

    fn execute(&mut self, appliances: &mut Vec<Appliance>) {
        match &mut appliances[self.light] {
            Appliance::Light(l) => l.off(),
            Appliance::CeilingFan(_) => {},
        }
        assert(appliances@ =~= self.spec_execute(old(appliances)@).1);
    }

    fn undo(&mut self, appliances: &mut Vec<Appliance>) {
        match &mut appliances[self.light] {
            Appliance::Light(l) => l.on(),
            Appliance::CeilingFan(_) => {},
        }
        assert(appliances@ =~= old(self).spec_undo(old(appliances)@));
    }

    fn name(&self) -> (r: &'static str) {
        "LightOffCommand"
    }
}

/// Runs a ceiling fan at high speed. A stateful action: `execute`
/// first snapshots the fan's current speed, and `undo` restores that
/// snapshot exactly rather than applying a fixed transition.
#[derive(Clone, Copy, PartialEq, Eq, Structural, Debug)]
pub struct CeilingFanHighCommand {
    /// Arena handle of the fan this action mutates.
    pub ceiling_fan: usize,
    /// The speed captured at the start of the latest `execute`.
    pub prev_speed: Speed,
}

impl CeilingFanHighCommand {
    /// Bind the action to the fan at arena handle `ceiling_fan`.
    pub fn new(ceiling_fan: usize) -> (r: Self)
        ensures
            r.ceiling_fan == ceiling_fan,
            r.prev_speed == Speed::Off,
    {
        Self { ceiling_fan, prev_speed: Speed::Off }
    }
}

impl Command for CeilingFanHighCommand {
    open spec fn valid(self, appliances: Seq<Appliance>) -> bool {
        self.ceiling_fan < appliances.len() && appliances[self.ceiling_fan as int] is CeilingFan
    }

    open spec fn spec_execute(self, appliances: Seq<Appliance>) -> (Self, Seq<Appliance>) {
        (
            Self {
                ceiling_fan: self.ceiling_fan,
                prev_speed: appliances[self.ceiling_fan as int]->CeilingFan_0.speed,
            },
            appliances.update(
                self.ceiling_fan as int,
                Appliance::CeilingFan(CeilingFan { speed: Speed::High }),
            ),
        )
    }

    open spec fn spec_undo(self, appliances: Seq<Appliance>) -> Seq<Appliance> {
        appliances.update(
            self.ceiling_fan as int,
            Appliance::CeilingFan(CeilingFan { speed: self.prev_speed }),
        )
    }

    open spec fn spec_name(self) -> Seq<char> {
        "CeilingFanHighCommand"@
    }

    fn execute(&mut self, appliances: &mut Vec<Appliance>) {
        match &mut appliances[self.ceiling_fan] {
            Appliance::CeilingFan(f) => {
                self.prev_speed = f.speed;
                f.high();
            },
            Appliance::Light(_) => {},
        }
        assert(appliances@ =~= old(self).spec_execute(old(appliances)@).1);
    }

    fn undo(&mut self, appliances: &mut Vec<Appliance>) {
        let prev = self.prev_speed;
        match &mut appliances[self.ceiling_fan] {
            Appliance::CeilingFan(f) => f.set_speed(&prev),
            Appliance::Light(_) => {},
        }
        assert(appliances@ =~= old(self).spec_undo(old(appliances)@));
    }

    fn name(&self) -> (r: &'static str) {
        "CeilingFanHighCommand"
    }
}

/// Stops a ceiling fan. A stateful action like
/// [`CeilingFanHighCommand`]: `undo` restores the snapshotted speed.
#[derive(Clone, Copy, PartialEq, Eq, Structural, Debug)]
pub struct CeilingFanOffCommand {
    /// Arena handle of the fan this action mutates.
    pub ceiling_fan: usize,
    /// The speed captured at the start of the latest `execute`.
    pub prev_speed: Speed,
}

impl CeilingFanOffCommand {
    /// Bind the action to the fan at arena handle `ceiling_fan`.
    pub fn new(ceiling_fan: usize) -> (r: Self)
        ensures
            r.ceiling_fan == ceiling_fan,
            r.prev_speed == Speed::Off,
    {
        Self { ceiling_fan, prev_speed: Speed::Off }
    }
}

impl Command for CeilingFanOffCommand {
    open spec fn valid(self, appliances: Seq<Appliance>) -> bool {
        self.ceiling_fan < appliances.len() && appliances[self.ceiling_fan as int] is CeilingFan
    }

    open spec fn spec_execute(self, appliances: Seq<Appliance>) -> (Self, Seq<Appliance>) {
        (
            Self {
                ceiling_fan: self.ceiling_fan,
                prev_speed: appliances[self.ceiling_fan as int]->CeilingFan_0.speed,
            },
            appliances.update(
                self.ceiling_fan as int,
                Appliance::CeilingFan(CeilingFan { speed: Speed::Off }),
            ),
        )
    }

    open spec fn spec_undo(self, appliances: Seq<Appliance>) -> Seq<Appliance> {
        appliances.update(
            self.ceiling_fan as int,
            Appliance::CeilingFan(CeilingFan { speed: self.prev_speed }),
        )
    }

    open spec fn spec_name(self) -> Seq<char> {
        "CeilingFanOffCommand"@
    }

    fn execute(&mut self, appliances: &mut Vec<Appliance>) {
        match &mut appliances[self.ceiling_fan] {
            Appliance::CeilingFan(f) => {
                self.prev_speed = f.speed;
                f.off();
            },
            Appliance::Light(_) => {},
        }
        assert(appliances@ =~= old(self).spec_execute(old(appliances)@).1);
    }

    fn undo(&mut self, appliances: &mut Vec<Appliance>) {
        let prev = self.prev_speed;
        match &mut appliances[self.ceiling_fan] {
            Appliance::CeilingFan(f) => f.set_speed(&prev),
            Appliance::Light(_) => {},
        }
        assert(appliances@ =~= old(self).spec_undo(old(appliances)@));
    }

    fn name(&self) -> (r: &'static str) {
        "CeilingFanOffCommand"
    }
}

/// The closed set of actions a dispatcher can hold: one variant per
/// concrete action. Slot tables and the history store `Action` values;
/// committing an executed action to history copies the value, so the
/// history entry's snapshot is independent of the slot's template.
#[derive(Clone, Copy, PartialEq, Eq, Structural, Debug)]
pub enum Action {
    NoOp(NoCommand),
    LightOn(LightOnCommand),
    LightOff(LightOffCommand),
    CeilingFanHigh(CeilingFanHighCommand),
    CeilingFanOff(CeilingFanOffCommand),
}

impl Command for Action {
    open spec fn valid(self, appliances: Seq<Appliance>) -> bool {
        match self {
            Action::NoOp(c) => c.valid(appliances),
            Action::LightOn(c) => c.valid(appliances),
            Action::LightOff(c) => c.valid(appliances),
            Action::CeilingFanHigh(c) => c.valid(appliances),
            Action::CeilingFanOff(c) => c.valid(appliances),
        }
    }

    open spec fn spec_execute(self, appliances: Seq<Appliance>) -> (Self, Seq<Appliance>) {
        match self {
            Action::NoOp(c) => (Action::NoOp(c.spec_execute(appliances).0), c.spec_execute(appliances).1),
            Action::LightOn(c) => (Action::LightOn(c.spec_execute(appliances).0), c.spec_execute(appliances).1),
            Action::LightOff(c) => (Action::LightOff(c.spec_execute(appliances).0), c.spec_execute(appliances).1),
            Action::CeilingFanHigh(c) => (Action::CeilingFanHigh(c.spec_execute(appliances).0), c.spec_execute(appliances).1),
            Action::CeilingFanOff(c) => (Action::CeilingFanOff(c.spec_execute(appliances).0), c.spec_execute(appliances).1),
        }
    }

    open spec fn spec_undo(self, appliances: Seq<Appliance>) -> Seq<Appliance> {
        match self {
            Action::NoOp(c) => c.spec_undo(appliances),
            Action::LightOn(c) => c.spec_undo(appliances),
            Action::LightOff(c) => c.spec_undo(appliances),
            Action::CeilingFanHigh(c) => c.spec_undo(appliances),
            Action::CeilingFanOff(c) => c.spec_undo(appliances),
        }
    }

    open spec fn spec_name(self) -> Seq<char> {
        match self {
            Action::NoOp(c) => c.spec_name(),
            Action::LightOn(c) => c.spec_name(),
            Action::LightOff(c) => c.spec_name(),
            Action::CeilingFanHigh(c) => c.spec_name(),
            Action::CeilingFanOff(c) => c.spec_name(),
        }
    }

    fn execute(&mut self, appliances: &mut Vec<Appliance>) {
        match self {
            Action::NoOp(c) => c.execute(appliances),
            Action::LightOn(c) => c.execute(appliances),
            Action::LightOff(c) => c.execute(appliances),
            Action::CeilingFanHigh(c) => c.execute(appliances),
            Action::CeilingFanOff(c) => c.execute(appliances),
        }
    }

    fn undo(&mut self, appliances: &mut Vec<Appliance>) {
        match self {
            Action::NoOp(c) => c.undo(appliances),
            Action::LightOn(c) => c.undo(appliances),
            Action::LightOff(c) => c.undo(appliances),
            Action::CeilingFanHigh(c) => c.undo(appliances),
            Action::CeilingFanOff(c) => c.undo(appliances),
        }
    }

    fn name(&self) -> (r: &'static str) {
        match self {
            Action::NoOp(c) => c.name(),
            Action::LightOn(c) => c.name(),
            Action::LightOff(c) => c.name(),
            Action::CeilingFanHigh(c) => c.name(),
            Action::CeilingFanOff(c) => c.name(),
        }
    }
}

/// Executing a valid action only rewrites the state inside one arena
/// entry: the arena keeps its length and every entry keeps its kind,
/// so every action that was valid stays valid.
pub proof fn lemma_execute_preserves_valid(c: Action, d: Action, appliances: Seq<Appliance>)
    requires
        c.valid(appliances),
        d.valid(appliances),
    ensures
        d.valid(c.spec_execute(appliances).1),
{
    let after = c.spec_execute(appliances).1;
    assert(after.len() == appliances.len());
    assert(forall|i: int|
        0 <= i < appliances.len() ==> ((#[trigger] after[i]) is Light == appliances[i] is Light));
}

/// The action committed to history by an `execute` targets the same
/// arena entry as the template it was copied from, so it is valid on
/// the arena that `execute` leaves behind.
pub proof fn lemma_committed_valid(c: Action, appliances: Seq<Appliance>)
    requires
        c.valid(appliances),
    ensures
        c.spec_execute(appliances).0.valid(c.spec_execute(appliances).1),
{
    lemma_execute_preserves_valid(c, c, appliances);
}

/// Undoing a valid action likewise keeps the arena's length and every
/// entry's kind, so every action that was valid stays valid.
pub proof fn lemma_undo_preserves_valid(c: Action, d: Action, appliances: Seq<Appliance>)
    requires
        c.valid(appliances),
        d.valid(appliances),
    ensures
        d.valid(c.spec_undo(appliances)),
{
    let after = c.spec_undo(appliances);
    assert(after.len() == appliances.len());
    assert(forall|i: int|
        0 <= i < appliances.len() ==> ((#[trigger] after[i]) is Light == appliances[i] is Light));
}

/// Growing the arena never invalidates an action: the entries it could
/// address are unchanged.
pub proof fn lemma_valid_after_push(d: Action, appliances: Seq<Appliance>, a: Appliance)
    requires
        d.valid(appliances),
    ensures
        d.valid(appliances.push(a)),
{
}

/// Whether undoing `c` right after executing it restores the arena
/// exactly. It always does, except for a binary light action executed
/// while the light is already in the action's target state: its
/// inverse is the complementary fixed transition, which then
/// overshoots instead of reproducing the pre-press state.
pub open spec fn undo_restores(c: Action, appliances: Seq<Appliance>) -> bool {
    match c {
        Action::LightOn(l) => appliances[l.light as int]->Light_0.on == false,
        Action::LightOff(l) => appliances[l.light as int]->Light_0.on == true,
        _ => true,
    }
}

/// Pressing then undoing restores every appliance to its exact
/// pre-press state: undoing the action that `execute` committed, on
/// the arena that `execute` produced, yields the original arena. For
/// the stateful fan actions and the no-op this holds from every
/// reachable prior state; for the binary light actions it holds
/// whenever the light was not already in the target state
/// (`undo_restores`).
pub proof fn lemma_execute_then_undo_restores(c: Action, appliances: Seq<Appliance>)
    requires
        c.valid(appliances),
        undo_restores(c, appliances),
    ensures
        c.spec_execute(appliances).0.spec_undo(c.spec_execute(appliances).1) == appliances,
{
    let committed = c.spec_execute(appliances).0;
    let after = c.spec_execute(appliances).1;
    assert(committed.spec_undo(after) =~= appliances);
}

/// Undo is strictly LIFO: after pressing action `a` and then action
/// `b`, the first undo reverses `b`, yielding exactly the arena that
/// stood after `a` ran, and the second undo reverses `a`, yielding the
/// original arena — never the other order.
pub proof fn lemma_undo_is_lifo(a: Action, b: Action, appliances: Seq<Appliance>)
    requires
        a.valid(appliances),
        undo_restores(a, appliances),
        b.valid(a.spec_execute(appliances).1),
        undo_restores(b, a.spec_execute(appliances).1),
    ensures
        b.spec_execute(a.spec_execute(appliances).1).0.spec_undo(
            b.spec_execute(a.spec_execute(appliances).1).1,
        ) == a.spec_execute(appliances).1,
        a.spec_execute(appliances).0.spec_undo(a.spec_execute(appliances).1) == appliances,
{
    lemma_execute_then_undo_restores(b, a.spec_execute(appliances).1);
    lemma_execute_then_undo_restores(a, appliances);
}

/// The no-op action held by unbound slots executes and undoes to
/// nothing: it changes no appliance state and commits itself unchanged
/// to history.
pub proof fn lemma_noop_action(appliances: Seq<Appliance>)
    ensures
        Action::NoOp(NoCommand).spec_execute(appliances) == (Action::NoOp(NoCommand), appliances),
        Action::NoOp(NoCommand).spec_undo(appliances) == appliances,
{
}

} // verus!
