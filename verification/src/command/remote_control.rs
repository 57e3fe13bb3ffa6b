//! The dispatcher: a remote control owning the appliance arena, a
//! fixed-size slot table pairing an activate action with a deactivate
//! action per slot, and the LIFO history of executed actions.
//!
//! Every operation either succeeds completely or reports a condition
//! (`RemoteError`) and leaves the whole remote exactly as it was.

use vstd::prelude::*;

use crate::command::command::{
    lemma_committed_valid, lemma_execute_preserves_valid, lemma_undo_preserves_valid,
    lemma_valid_after_push, Action, Command, NoCommand,
};
use crate::command::furniture::{Appliance, CeilingFan, Light};

verus! {

/// Number of control slots on a remote. Every index in `[0, NUM_SLOTS)`
/// always holds a valid action pair.
pub const NUM_SLOTS: usize = 7;

/// A reported, recoverable condition. Neither variant corrupts the
/// remote: the operation that reports it leaves every appliance, every
/// slot and the history unchanged.
#[derive(Clone, Copy, PartialEq, Eq, Structural, Debug)]
pub enum RemoteError {
    /// The slot index handed to `set_commands` or a press was outside
    /// `[0, NUM_SLOTS)`. Carries the offending index.
    InvalidSlot(usize),
    /// `on_pressing_undo_button` found nothing to reverse.
    EmptyHistory,
}

/// The remote control. Actions address appliances only through their
/// handle into `appliances`, so the remote is the single writer of all
/// appliance state.
pub struct RemoteControl {
    /// The appliance arena; a handle is an index into it. It only ever
    /// grows.
    pub appliances: Vec<Appliance>,
    /// One activate action per slot; `NoCommand` where unbound.
    pub on_commands: Vec<Action>,
    /// One deactivate action per slot; `NoCommand` where unbound.
    pub off_commands: Vec<Action>,
    /// Executed actions whose undo has not run, most recent last.
    pub history: Vec<Action>,
}

impl RemoteControl {
    /// Well-formedness: both slot tables span exactly the declared slot
    /// range, and every action the remote holds addresses an arena
    /// entry of the kind it mutates. Constructors establish it and
    /// every operation preserves it.
    pub open spec fn wf(self) -> bool {
        &&& self.on_commands@.len() == NUM_SLOTS
        &&& self.off_commands@.len() == NUM_SLOTS
        &&& forall|i: int|
            0 <= i < NUM_SLOTS ==> (#[trigger] self.on_commands@[i]).valid(self.appliances@)
        &&& forall|i: int|
            0 <= i < NUM_SLOTS ==> (#[trigger] self.off_commands@[i]).valid(self.appliances@)
        &&& forall|i: int|
            0 <= i < self.history@.len() ==> (#[trigger] self.history@[i]).valid(self.appliances@)
    }

    /// A fresh remote: no appliances, every slot holding the no-op
    /// action pair, empty history.
    pub fn new() -> (r: RemoteControl)
        ensures
            r.wf(),
            r.appliances@ =~= Seq::<Appliance>::empty(),
            r.history@ =~= Seq::<Action>::empty(),
            r.on_commands@.len() == NUM_SLOTS,
            r.off_commands@.len() == NUM_SLOTS,
            forall|i: int| 0 <= i < NUM_SLOTS ==> r.on_commands@[i] == Action::NoOp(NoCommand),
            forall|i: int| 0 <= i < NUM_SLOTS ==> r.off_commands@[i] == Action::NoOp(NoCommand),
    {
        let mut on_commands: Vec<Action> = Vec::new();
        let mut off_commands: Vec<Action> = Vec::new();
        let mut i: usize = 0;
        while i < NUM_SLOTS
            invariant
                i <= NUM_SLOTS,
                on_commands@.len() == i,
                off_commands@.len() == i,
                forall|j: int| 0 <= j < i ==> on_commands@[j] == Action::NoOp(NoCommand),
                forall|j: int| 0 <= j < i ==> off_commands@[j] == Action::NoOp(NoCommand),
            decreases NUM_SLOTS - i,
        {
            on_commands.push(Action::NoOp(NoCommand::new()));
            off_commands.push(Action::NoOp(NoCommand::new()));
            i = i + 1;
        }
        RemoteControl { appliances: Vec::new(), on_commands, off_commands, history: Vec::new() }
    }

    /// Put `light` into the arena and hand back its stable handle.
    pub fn add_light(&mut self, light: Light) -> (h: usize)
        requires
            old(self).wf(),
        ensures
            final(self).wf(),
            h == old(self).appliances@.len(),
            final(self).appliances@ == old(self).appliances@.push(Appliance::Light(light)),
            final(self).on_commands@ == old(self).on_commands@,
            final(self).off_commands@ == old(self).off_commands@,
            final(self).history@ == old(self).history@,
    {
        let h = self.appliances.len();
        self.appliances.push(Appliance::Light(light));
        proof {
            assert forall|i: int| 0 <= i < NUM_SLOTS implies (#[trigger] self.on_commands@[i])
                .valid(self.appliances@) by {
                lemma_valid_after_push(
                    self.on_commands@[i],
                    old(self).appliances@,
                    Appliance::Light(light),
                );
            }
            assert forall|i: int| 0 <= i < NUM_SLOTS implies (#[trigger] self.off_commands@[i])
                .valid(self.appliances@) by {
                lemma_valid_after_push(
                    self.off_commands@[i],
                    old(self).appliances@,
                    Appliance::Light(light),
                );
            }
            assert forall|i: int| 0 <= i < self.history@.len() implies (
            #[trigger] self.history@[i]).valid(self.appliances@) by {
                lemma_valid_after_push(
                    self.history@[i],
                    old(self).appliances@,
                    Appliance::Light(light),
                );
            }
        }
        h
    }

    /// Put `fan` into the arena and hand back its stable handle.
    pub fn add_ceiling_fan(&mut self, fan: CeilingFan) -> (h: usize)
        requires
            old(self).wf(),
        ensures
            final(self).wf(),
            h == old(self).appliances@.len(),
            final(self).appliances@ == old(self).appliances@.push(Appliance::CeilingFan(fan)),
            final(self).on_commands@ == old(self).on_commands@,
            final(self).off_commands@ == old(self).off_commands@,
            final(self).history@ == old(self).history@,
    {
        let h = self.appliances.len();
        self.appliances.push(Appliance::CeilingFan(fan));
        proof {
            assert forall|i: int| 0 <= i < NUM_SLOTS implies (#[trigger] self.on_commands@[i])
                .valid(self.appliances@) by {
                lemma_valid_after_push(
                    self.on_commands@[i],
                    old(self).appliances@,
                    Appliance::CeilingFan(fan),
                );
            }
            assert forall|i: int| 0 <= i < NUM_SLOTS implies (#[trigger] self.off_commands@[i])
                .valid(self.appliances@) by {
                lemma_valid_after_push(
                    self.off_commands@[i],
                    old(self).appliances@,
                    Appliance::CeilingFan(fan),
                );
            }
            assert forall|i: int| 0 <= i < self.history@.len() implies (
            #[trigger] self.history@[i]).valid(self.appliances@) by {
                lemma_valid_after_push(
                    self.history@[i],
                    old(self).appliances@,
                    Appliance::CeilingFan(fan),
                );
            }
        }
        h
    }

    /// Replace the action pair at `slot`. Reports `InvalidSlot` — and
    /// changes nothing — when `slot` is outside `[0, NUM_SLOTS)`.
    pub fn set_commands(&mut self, slot: usize, on_command: Action, off_command: Action) -> (r:
        Result<(), RemoteError>)
        requires
            old(self).wf(),
            on_command.valid(old(self).appliances@),
            off_command.valid(old(self).appliances@),
        ensures
            final(self).wf(),
            slot < NUM_SLOTS ==> ({
                &&& r is Ok
                &&& final(self).on_commands@ == old(self).on_commands@.update(slot as int, on_command)
                &&& final(self).off_commands@ == old(self).off_commands@.update(slot as int, off_command)
                &&& final(self).appliances@ == old(self).appliances@
                &&& final(self).history@ == old(self).history@
            }),
            slot >= NUM_SLOTS ==> r == Err::<(), RemoteError>(RemoteError::InvalidSlot(slot))
                && *final(self) == *old(self),
    {
        if slot >= NUM_SLOTS {
            return Err(RemoteError::InvalidSlot(slot));
        }
        self.on_commands[slot] = on_command;
        self.off_commands[slot] = off_command;
        Ok(())
    }

    /// Press the activate button of `slot`: copy the bound activate
    /// action, run its forward effect, and append the committed copy to
    /// history. Reports `InvalidSlot` — and changes nothing — when
    /// `slot` is outside `[0, NUM_SLOTS)`.
    pub fn on_pressing_on_button(&mut self, slot: usize) -> (r: Result<(), RemoteError>)
        requires
            old(self).wf(),
        ensures
            final(self).wf(),
            slot < NUM_SLOTS ==> ({
                let cmd = old(self).on_commands@[slot as int];
                &&& r is Ok
                &&& final(self).appliances@ == cmd.spec_execute(old(self).appliances@).1
                &&& final(self).history@ == old(self).history@.push(
                    cmd.spec_execute(old(self).appliances@).0,
                )
                &&& final(self).on_commands@ == old(self).on_commands@
                &&& final(self).off_commands@ == old(self).off_commands@
            }),
            slot >= NUM_SLOTS ==> r == Err::<(), RemoteError>(RemoteError::InvalidSlot(slot))
                && *final(self) == *old(self),
    {
        if slot >= NUM_SLOTS {
            return Err(RemoteError::InvalidSlot(slot));
        }
        let mut command = self.on_commands[slot];
        command.execute(&mut self.appliances);
        proof {
            self.lemma_press_preserves_wf(*old(self), old(self).on_commands@[slot as int]);
        }
        self.history.push(command);
        Ok(())
    }

    /// Press the deactivate button of `slot`: as the activate press,
    /// with the bound deactivate action.
    pub fn on_pressing_off_button(&mut self, slot: usize) -> (r: Result<(), RemoteError>)
        requires
            old(self).wf(),
        ensures
            final(self).wf(),
            slot < NUM_SLOTS ==> ({
                let cmd = old(self).off_commands@[slot as int];
                &&& r is Ok
                &&& final(self).appliances@ == cmd.spec_execute(old(self).appliances@).1
                &&& final(self).history@ == old(self).history@.push(
                    cmd.spec_execute(old(self).appliances@).0,
                )
                &&& final(self).on_commands@ == old(self).on_commands@
                &&& final(self).off_commands@ == old(self).off_commands@
            }),
            slot >= NUM_SLOTS ==> r == Err::<(), RemoteError>(RemoteError::InvalidSlot(slot))
                && *final(self) == *old(self),
    {
        if slot >= NUM_SLOTS {
            return Err(RemoteError::InvalidSlot(slot));
        }
        let mut command = self.off_commands[slot];
        command.execute(&mut self.appliances);
        proof {
            self.lemma_press_preserves_wf(*old(self), old(self).off_commands@[slot as int]);
        }
        self.history.push(command);
        Ok(())
    }

    /// Pop the most recently executed action whose undo has not run and
    /// apply its inverse effect. Reports `EmptyHistory` — and changes
    /// nothing — when the history is empty.
    pub fn on_pressing_undo_button(&mut self) -> (r: Result<(), RemoteError>)
        requires
            old(self).wf(),
        ensures
            final(self).wf(),
            old(self).history@.len() > 0 ==> ({
                &&& r is Ok
                &&& final(self).appliances@ == old(self).history@.last().spec_undo(
                    old(self).appliances@,
                )
                &&& final(self).history@ == old(self).history@.drop_last()
                &&& final(self).on_commands@ == old(self).on_commands@
                &&& final(self).off_commands@ == old(self).off_commands@
            }),
            old(self).history@.len() == 0 ==> r == Err::<(), RemoteError>(RemoteError::EmptyHistory)
                && *final(self) == *old(self),
    {
        if self.history.len() == 0 {
            return Err(RemoteError::EmptyHistory);
        }
        let mut command = self.history.pop().unwrap();
        command.undo(&mut self.appliances);
        proof {
            let pre = *old(self);
            let c = pre.history@.last();
            assert forall|i: int| 0 <= i < NUM_SLOTS implies (
            #[trigger] self.on_commands@[i]).valid(self.appliances@) by {
                lemma_undo_preserves_valid(c, pre.on_commands@[i], pre.appliances@);
            }
            assert forall|i: int| 0 <= i < NUM_SLOTS implies (
            #[trigger] self.off_commands@[i]).valid(self.appliances@) by {
                lemma_undo_preserves_valid(c, pre.off_commands@[i], pre.appliances@);
            }
            assert forall|i: int| 0 <= i < self.history@.len() implies (
            #[trigger] self.history@[i]).valid(self.appliances@) by {
                assert(pre.history@[i].valid(pre.appliances@));
                lemma_undo_preserves_valid(c, pre.history@[i], pre.appliances@);
            }
        }
        Ok(())
    }

    /// After a press ran action `c` (a slot entry of `pre`, which was
    /// well-formed) over the arena, every action the remote holds is
    /// still valid: `execute` preserves the arena's length and every
    /// entry's kind.
    proof fn lemma_press_preserves_wf(self, pre: RemoteControl, c: Action)
        requires
            pre.wf(),
            c.valid(pre.appliances@),
            self.on_commands@ == pre.on_commands@,
            self.off_commands@ == pre.off_commands@,
            self.history@ == pre.history@,
            self.appliances@ == c.spec_execute(pre.appliances@).1,
        ensures
            self.wf(),
            c.spec_execute(pre.appliances@).0.valid(self.appliances@),
    {
        assert forall|i: int| 0 <= i < NUM_SLOTS implies (#[trigger] self.on_commands@[i]).valid(
            self.appliances@,
        ) by {
            lemma_execute_preserves_valid(c, pre.on_commands@[i], pre.appliances@);
        }
        assert forall|i: int| 0 <= i < NUM_SLOTS implies (#[trigger] self.off_commands@[i]).valid(
            self.appliances@,
        ) by {
            lemma_execute_preserves_valid(c, pre.off_commands@[i], pre.appliances@);
        }
        assert forall|i: int| 0 <= i < self.history@.len() implies (
        #[trigger] self.history@[i]).valid(self.appliances@) by {
            lemma_execute_preserves_valid(c, pre.history@[i], pre.appliances@);
        }
        lemma_committed_valid(c, pre.appliances@);
    }

    /// The ordered slot listing: for each slot in order, the activate
    /// and deactivate action names. Read-only.
    pub fn describe(&self) -> (v: Vec<(&'static str, &'static str)>)
        requires
            self.wf(),
        ensures
            v@.len() == NUM_SLOTS,
            forall|i: int|
                0 <= i < NUM_SLOTS ==> (#[trigger] v@[i]).0@ == self.on_commands@[i].spec_name()
                    && v@[i].1@ == self.off_commands@[i].spec_name(),
    {
        let mut v: Vec<(&'static str, &'static str)> = Vec::new();
        let mut i: usize = 0;
        while i < NUM_SLOTS
            invariant
                self.wf(),
                i <= NUM_SLOTS,
                v@.len() == i,
                forall|j: int|
                    0 <= j < i ==> (#[trigger] v@[j]).0@ == self.on_commands@[j].spec_name()
                        && v@[j].1@ == self.off_commands@[j].spec_name(),
            decreases NUM_SLOTS - i,
        {
            let on_name = self.on_commands[i].name();
            let off_name = self.off_commands[i].name();
            v.push((on_name, off_name));
            i = i + 1;
        }
        v
    }

    /// How many appliances the arena holds.
    pub fn appliance_count(&self) -> (n: usize)
        ensures
            n == self.appliances@.len(),
    {
        self.appliances.len()
    }

    /// The current state of the appliance at `handle`, or `None` for a
    /// handle no `add_light`/`add_ceiling_fan` call handed out.
    pub fn get_appliance(&self, handle: usize) -> (r: Option<Appliance>)
        ensures
            handle < self.appliances@.len() ==> r == Some(self.appliances@[handle as int]),
            handle >= self.appliances@.len() ==> r is None,
    {
        if handle < self.appliances.len() {
            Some(self.appliances[handle])
        } else {
            None
        }
    }

    /// How many executed actions await a possible undo.
    pub fn history_len(&self) -> (n: usize)
        ensures
            n == self.history@.len(),
    {
        self.history.len()
    }

    /// The history entry at `i` (oldest first), or `None` past the end.
    pub fn history_action(&self, i: usize) -> (r: Option<Action>)
        ensures
            i < self.history@.len() ==> r == Some(self.history@[i as int]),
            i >= self.history@.len() ==> r is None,
    {
        if i < self.history.len() {
            Some(self.history[i])
        } else {
            None
        }
    }
}

} // verus!
