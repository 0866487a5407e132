//! The actuator state: sole owner of the six output lines.
//!
//! `MotorPins` records the level to which each line was last driven. An
//! operation is carried out by the caller, which performs the writes of the
//! command's plan in order and stops at the first write that the hardware
//! refuses; the operation is then given the line of that write, or `None`.

use vstd::prelude::*;
use crate::drive::{ActuatorLineSet, DriveCommand, HardwareFault, Line, LineWrite};
use crate::drive::{lemma_completed_plan_gives_pattern, lemma_drive_keeps_sides_enabled};
use crate::drive::{lemma_operation_keeps_exclusion, lemma_pattern_is_safe, lemma_plan_covers_every_line};
use crate::drive::{levels_after, writes_to};

verus! {

/// The six output lines of the motor driver.
pub struct MotorPins {
    lines: ActuatorLineSet,
}

impl View for MotorPins {
    type V = ActuatorLineSet;

    closed spec fn view(&self) -> ActuatorLineSet {
        self.lines
    }
}

/// Performs the writes of `plan` on `lines` in order, up to the write to the
/// line `failed`.
pub fn perform(lines: &mut ActuatorLineSet, plan: &Vec<LineWrite>, failed: Option<Line>) -> (result:
    Result<(), HardwareFault>)
    ensures
        *final(lines) == levels_after(*old(lines), plan@, failed),
        match failed {
            Some(line) if writes_to(plan@, line) => result == Err::<(), HardwareFault>(
                HardwareFault { line },
            ),
            _ => result is Ok,
        },
{
    let mut i: usize = 0;
    assert(plan@.skip(0) =~= plan@);
    while i < plan.len()
        invariant
            i <= plan.len(),
            levels_after(*old(lines), plan@, failed) == levels_after(*lines, plan@.skip(i as int), failed),
            forall|j: int| 0 <= j < i ==> Some((#[trigger] plan@[j]).line) != failed,
        decreases plan.len() - i,
    {
        let write = plan[i];
        proof {
            let rest = plan@.skip(i as int);
            assert(rest.len() > 0);
            assert(rest[0] == plan@[i as int]);
            assert(rest.skip(1) =~= plan@.skip(i + 1));
        }
        match failed {
            Some(line) => {
                if write.line == line {
                    return Err(HardwareFault { line });
                }
            },
            None => {},
        }
        lines.set(write.line, write.high);
        i = i + 1;
    }
    assert(plan@.skip(i as int).len() == 0);
    Ok(())
}

impl MotorPins {
    /// The six lines, all low.
    pub fn new() -> (pins: MotorPins)
        ensures
            pins@ == ActuatorLineSet::all_low(),
            pins@ == DriveCommand::Stop.pattern(),
    {
        MotorPins {
            lines: ActuatorLineSet {
                left_forward: false,
                right_forward: false,
                left_backward: false,
                right_backward: false,
                left_enable: false,
                right_enable: false,
            },
        }
    }

    /// The level of each line.
    pub fn lines(&self) -> (lines: ActuatorLineSet)
        ensures
            lines == self@,
    {
        self.lines
    }

    /// Sets all six lines for `command`, writing them in the order of its
    /// plan. `failed` is the line whose write did not succeed, if any: the
    /// lines written before it have their new level, it and the lines after
    /// it keep their old one, and the fault names it. Wherever the operation
    /// fails, it leaves no side with its forward and its backward line high
    /// together that did not have them so before.
    pub fn apply(&mut self, command: DriveCommand, failed: Option<Line>) -> (result: Result<
        (),
        HardwareFault,
    >)
        ensures
            final(self)@ == levels_after(old(self)@, command.write_plan(), failed),
            match failed {
                None => result is Ok && final(self)@ == command.pattern(),
                Some(line) => result == Err::<(), HardwareFault>(HardwareFault { line }),
            },
            failed is None ==> final(self)@.exclusive() && final(self)@.enabled_where_driven(),
            old(self)@.exclusive() ==> final(self)@.exclusive(),
            command != DriveCommand::Stop && old(self)@.enabled_where_driven()
                ==> final(self)@.enabled_where_driven(),
    {
        let plan = command.line_writes();
        proof {
            lemma_pattern_is_safe(command);
            lemma_completed_plan_gives_pattern(self.lines, command);
            if self.lines.exclusive() {
                lemma_operation_keeps_exclusion(self.lines, command, failed);
            }
            if command != DriveCommand::Stop && self.lines.enabled_where_driven() {
                lemma_drive_keeps_sides_enabled(self.lines, command, failed);
            }
            match failed {
                Some(line) => {
                    lemma_plan_covers_every_line(command, line);
                },
                None => {},
            }
        }
        perform(&mut self.lines, &plan, failed)
    }

    /// Both motors forward.
    pub fn forward(&mut self, failed: Option<Line>) -> (result: Result<(), HardwareFault>)
        ensures
            final(self)@ == levels_after(old(self)@, DriveCommand::Forward.write_plan(), failed),
            match failed {
                None => result is Ok && final(self)@ == DriveCommand::Forward.pattern(),
                Some(line) => result == Err::<(), HardwareFault>(HardwareFault { line }),
            },
            old(self)@.exclusive() ==> final(self)@.exclusive(),
            old(self)@.enabled_where_driven() ==> final(self)@.enabled_where_driven(),
    {
        self.apply(DriveCommand::Forward, failed)
    }

    /// Both motors backward.
    pub fn backward(&mut self, failed: Option<Line>) -> (result: Result<(), HardwareFault>)
        ensures
            final(self)@ == levels_after(old(self)@, DriveCommand::Backward.write_plan(), failed),
            match failed {
                None => result is Ok && final(self)@ == DriveCommand::Backward.pattern(),
                Some(line) => result == Err::<(), HardwareFault>(HardwareFault { line }),
            },
            old(self)@.exclusive() ==> final(self)@.exclusive(),
            old(self)@.enabled_where_driven() ==> final(self)@.enabled_where_driven(),
    {
        self.apply(DriveCommand::Backward, failed)
    }

    /// Left motor backward, right motor forward.
    pub fn turn_left(&mut self, failed: Option<Line>) -> (result: Result<(), HardwareFault>)
        ensures
            final(self)@ == levels_after(old(self)@, DriveCommand::TurnLeft.write_plan(), failed),
            match failed {
                None => result is Ok && final(self)@ == DriveCommand::TurnLeft.pattern(),
                Some(line) => result == Err::<(), HardwareFault>(HardwareFault { line }),
            },
            old(self)@.exclusive() ==> final(self)@.exclusive(),
            old(self)@.enabled_where_driven() ==> final(self)@.enabled_where_driven(),
    {
        self.apply(DriveCommand::TurnLeft, failed)
    }

    /// Left motor forward, right motor backward.
    pub fn turn_right(&mut self, failed: Option<Line>) -> (result: Result<(), HardwareFault>)
        ensures
            final(self)@ == levels_after(old(self)@, DriveCommand::TurnRight.write_plan(), failed),
            match failed {
                None => result is Ok && final(self)@ == DriveCommand::TurnRight.pattern(),
                Some(line) => result == Err::<(), HardwareFault>(HardwareFault { line }),
            },
            old(self)@.exclusive() ==> final(self)@.exclusive(),
            old(self)@.enabled_where_driven() ==> final(self)@.enabled_where_driven(),
    {
        self.apply(DriveCommand::TurnRight, failed)
    }

    /// All six lines low.
    pub fn stop(&mut self, failed: Option<Line>) -> (result: Result<(), HardwareFault>)
        ensures
            final(self)@ == levels_after(old(self)@, DriveCommand::Stop.write_plan(), failed),
            match failed {
                None => result is Ok && final(self)@ == DriveCommand::Stop.pattern(),
                Some(line) => result == Err::<(), HardwareFault>(HardwareFault { line }),
            },
            old(self)@.exclusive() ==> final(self)@.exclusive(),
    {
        self.apply(DriveCommand::Stop, failed)
    }
}

} // verus!
