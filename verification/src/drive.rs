//! Drive commands and the six output lines of the motor driver.

use vstd::prelude::*;

verus! {

/// One of the six digital output lines.
#[derive(Clone, Copy, Debug, PartialEq, Eq, Structural)]
pub enum Line {
    LeftForward,
    RightForward,
    LeftBackward,
    RightBackward,
    LeftEnable,
    RightEnable,
}

/// The closed set of drive commands.
#[derive(Clone, Copy, Debug, PartialEq, Eq, Structural)]
pub enum DriveCommand {
    Forward,
    Backward,
    TurnLeft,
    TurnRight,
    Stop,
}

/// The level of each of the six lines; `true` is high.
#[derive(Clone, Copy, Debug, PartialEq, Eq, Structural)]
pub struct ActuatorLineSet {
    pub left_forward: bool,
    pub right_forward: bool,
    pub left_backward: bool,
    pub right_backward: bool,
    pub left_enable: bool,
    pub right_enable: bool,
}

/// One write to one line.
#[derive(Clone, Copy, Debug, PartialEq, Eq, Structural)]
pub struct LineWrite {
    pub line: Line,
    pub high: bool,
}

/// A write to a line failed; `line` is the line that could not be driven.
#[derive(Clone, Copy, Debug, PartialEq, Eq, Structural)]
pub struct HardwareFault {
    pub line: Line,
}

impl ActuatorLineSet {
    /// The level of `line`.
    pub open spec fn level(self, line: Line) -> bool {
        match line {
            Line::LeftForward => self.left_forward,
            Line::RightForward => self.right_forward,
            Line::LeftBackward => self.left_backward,
            Line::RightBackward => self.right_backward,
            Line::LeftEnable => self.left_enable,
            Line::RightEnable => self.right_enable,
        }
    }

    /// These levels with `line` driven to `high` and every other line unchanged.
    pub open spec fn with(self, line: Line, high: bool) -> ActuatorLineSet {
        match line {
            Line::LeftForward => ActuatorLineSet { left_forward: high, ..self },
            Line::RightForward => ActuatorLineSet { right_forward: high, ..self },
            Line::LeftBackward => ActuatorLineSet { left_backward: high, ..self },
            Line::RightBackward => ActuatorLineSet { right_backward: high, ..self },
            Line::LeftEnable => ActuatorLineSet { left_enable: high, ..self },
            Line::RightEnable => ActuatorLineSet { right_enable: high, ..self },
        }
    }

    /// All six lines low.
    pub open spec fn all_low() -> ActuatorLineSet {
        ActuatorLineSet {
            left_forward: false,
            right_forward: false,
            left_backward: false,
            right_backward: false,
            left_enable: false,
            right_enable: false,
        }
    }

    /// No side has its forward and its backward line high together.
    pub open spec fn exclusive(self) -> bool {
        &&& !(self.left_forward && self.left_backward)
        &&& !(self.right_forward && self.right_backward)
    }

    /// A side whose forward or backward line is high has its enable line high.
    pub open spec fn enabled_where_driven(self) -> bool {
        &&& (self.left_forward || self.left_backward) ==> self.left_enable
        &&& (self.right_forward || self.right_backward) ==> self.right_enable
    }

    /// The command whose pattern these levels are, if they are the pattern
    /// of one. The patterns of two commands differ, so there is at most one.
    pub fn command(&self) -> (command: Option<DriveCommand>)
        ensures
            match command {
                Some(active) => *self == active.pattern(),
                None => forall|other: DriveCommand| *self != #[trigger] other.pattern(),
            },
    {
        let both_enabled = self.left_enable && self.right_enable;
        let none_enabled = !self.left_enable && !self.right_enable;
        if both_enabled && self.left_forward && self.right_forward && !self.left_backward
            && !self.right_backward {
            Some(DriveCommand::Forward)
        } else if both_enabled && !self.left_forward && !self.right_forward && self.left_backward
            && self.right_backward {
            Some(DriveCommand::Backward)
        } else if both_enabled && !self.left_forward && self.right_forward && self.left_backward
            && !self.right_backward {
            Some(DriveCommand::TurnLeft)
        } else if both_enabled && self.left_forward && !self.right_forward && !self.left_backward
            && self.right_backward {
            Some(DriveCommand::TurnRight)
        } else if none_enabled && !self.left_forward && !self.right_forward && !self.left_backward
            && !self.right_backward {
            Some(DriveCommand::Stop)
        } else {
            None
        }
    }

    /// Reads the level of `line`.
    pub fn get(&self, line: Line) -> (high: bool)
        ensures
            high == self.level(line),
    {
        match line {
            Line::LeftForward => self.left_forward,
            Line::RightForward => self.right_forward,
            Line::LeftBackward => self.left_backward,
            Line::RightBackward => self.right_backward,
            Line::LeftEnable => self.left_enable,
            Line::RightEnable => self.right_enable,
        }
    }

    /// Drives `line` to `high` and leaves the other five lines as they are.
    pub fn set(&mut self, line: Line, high: bool)
        ensures
            *final(self) == old(self).with(line, high),
    {
        match line {
            Line::LeftForward => { self.left_forward = high; },
            Line::RightForward => { self.right_forward = high; },
            Line::LeftBackward => { self.left_backward = high; },
            Line::RightBackward => { self.right_backward = high; },
            Line::LeftEnable => { self.left_enable = high; },
            Line::RightEnable => { self.right_enable = high; },
        }
    }
}

impl DriveCommand {
    /// The levels of the six lines while this command is active.
    pub open spec fn pattern(self) -> ActuatorLineSet {
        match self {
            DriveCommand::Forward => ActuatorLineSet {
                left_forward: true,
                right_forward: true,
                left_backward: false,
                right_backward: false,
                left_enable: true,
                right_enable: true,
            },
            DriveCommand::Backward => ActuatorLineSet {
                left_forward: false,
                right_forward: false,
                left_backward: true,
                right_backward: true,
                left_enable: true,
                right_enable: true,
            },
            DriveCommand::TurnLeft => ActuatorLineSet {
                left_forward: false,
                right_forward: true,
                left_backward: true,
                right_backward: false,
                left_enable: true,
                right_enable: true,
            },
            DriveCommand::TurnRight => ActuatorLineSet {
                left_forward: true,
                right_forward: false,
                left_backward: false,
                right_backward: true,
                left_enable: true,
                right_enable: true,
            },
            DriveCommand::Stop => ActuatorLineSet::all_low(),
        }
    }

    /// The six writes that establish this command, in the order in which they
    /// are performed. Every line is written exactly once. A command that
    /// drives the motors raises the enable lines, then lowers the direction
    /// lines that it wants low, then raises those that it wants high: no
    /// line goes high while the other line of its side may still be high.
    /// `Stop` only lowers, the enable lines first.
    pub open spec fn write_plan(self) -> Seq<LineWrite> {
        match self {
            DriveCommand::Forward => seq![
                LineWrite { line: Line::LeftEnable, high: true },
                LineWrite { line: Line::RightEnable, high: true },
                LineWrite { line: Line::LeftBackward, high: false },
                LineWrite { line: Line::RightBackward, high: false },
                LineWrite { line: Line::LeftForward, high: true },
                LineWrite { line: Line::RightForward, high: true },
            ],
            DriveCommand::Backward => seq![
                LineWrite { line: Line::LeftEnable, high: true },
                LineWrite { line: Line::RightEnable, high: true },
                LineWrite { line: Line::LeftForward, high: false },
                LineWrite { line: Line::RightForward, high: false },
                LineWrite { line: Line::LeftBackward, high: true },
                LineWrite { line: Line::RightBackward, high: true },
            ],
            DriveCommand::TurnLeft => seq![
                LineWrite { line: Line::LeftEnable, high: true },
                LineWrite { line: Line::RightEnable, high: true },
                LineWrite { line: Line::LeftForward, high: false },
                LineWrite { line: Line::RightBackward, high: false },
                LineWrite { line: Line::RightForward, high: true },
                LineWrite { line: Line::LeftBackward, high: true },
            ],
            DriveCommand::TurnRight => seq![
                LineWrite { line: Line::LeftEnable, high: true },
                LineWrite { line: Line::RightEnable, high: true },
                LineWrite { line: Line::RightForward, high: false },
                LineWrite { line: Line::LeftBackward, high: false },
                LineWrite { line: Line::LeftForward, high: true },
                LineWrite { line: Line::RightBackward, high: true },
            ],
            DriveCommand::Stop => seq![
                LineWrite { line: Line::LeftEnable, high: false },
                LineWrite { line: Line::RightEnable, high: false },
                LineWrite { line: Line::LeftForward, high: false },
                LineWrite { line: Line::LeftBackward, high: false },
                LineWrite { line: Line::RightForward, high: false },
                LineWrite { line: Line::RightBackward, high: false },
            ],
        }
    }

    /// The writes that establish this command, in the order in which the
    /// caller performs them on the hardware.
    pub fn line_writes(self) -> (writes: Vec<LineWrite>)
        ensures
            writes@ == self.write_plan(),
    {
        let writes = match self {
            DriveCommand::Forward => vec![
                LineWrite { line: Line::LeftEnable, high: true },
                LineWrite { line: Line::RightEnable, high: true },
                LineWrite { line: Line::LeftBackward, high: false },
                LineWrite { line: Line::RightBackward, high: false },
                LineWrite { line: Line::LeftForward, high: true },
                LineWrite { line: Line::RightForward, high: true },
            ],
            DriveCommand::Backward => vec![
                LineWrite { line: Line::LeftEnable, high: true },
                LineWrite { line: Line::RightEnable, high: true },
                LineWrite { line: Line::LeftForward, high: false },
                LineWrite { line: Line::RightForward, high: false },
                LineWrite { line: Line::LeftBackward, high: true },
                LineWrite { line: Line::RightBackward, high: true },
            ],
            DriveCommand::TurnLeft => vec![
                LineWrite { line: Line::LeftEnable, high: true },
                LineWrite { line: Line::RightEnable, high: true },
                LineWrite { line: Line::LeftForward, high: false },
                LineWrite { line: Line::RightBackward, high: false },
                LineWrite { line: Line::RightForward, high: true },
                LineWrite { line: Line::LeftBackward, high: true },
            ],
            DriveCommand::TurnRight => vec![
                LineWrite { line: Line::LeftEnable, high: true },
                LineWrite { line: Line::RightEnable, high: true },
                LineWrite { line: Line::RightForward, high: false },
                LineWrite { line: Line::LeftBackward, high: false },
                LineWrite { line: Line::LeftForward, high: true },
                LineWrite { line: Line::RightBackward, high: true },
            ],
            DriveCommand::Stop => vec![
                LineWrite { line: Line::LeftEnable, high: false },
                LineWrite { line: Line::RightEnable, high: false },
                LineWrite { line: Line::LeftForward, high: false },
                LineWrite { line: Line::LeftBackward, high: false },
                LineWrite { line: Line::RightForward, high: false },
                LineWrite { line: Line::RightBackward, high: false },
            ],
        };
        assert(writes@ =~= self.write_plan());
        writes
    }

    /// The line levels of this command.
    pub fn line_pattern(self) -> (lines: ActuatorLineSet)
        ensures
            lines == self.pattern(),
    {
        match self {
            DriveCommand::Forward => ActuatorLineSet {
                left_forward: true,
                right_forward: true,
                left_backward: false,
                right_backward: false,
                left_enable: true,
                right_enable: true,
            },
            DriveCommand::Backward => ActuatorLineSet {
                left_forward: false,
                right_forward: false,
                left_backward: true,
                right_backward: true,
                left_enable: true,
                right_enable: true,
            },
            DriveCommand::TurnLeft => ActuatorLineSet {
                left_forward: false,
                right_forward: true,
                left_backward: true,
                right_backward: false,
                left_enable: true,
                right_enable: true,
            },
            DriveCommand::TurnRight => ActuatorLineSet {
                left_forward: true,
                right_forward: false,
                left_backward: false,
                right_backward: true,
                left_enable: true,
                right_enable: true,
            },
            DriveCommand::Stop => ActuatorLineSet {
                left_forward: false,
                right_forward: false,
                left_backward: false,
                right_backward: false,
                left_enable: false,
                right_enable: false,
            },
        }
    }
}

/// The levels after the writes of `plan` are performed in order on `lines`,
/// where the write to the line `failed`, if there is one, does not succeed:
/// the writes before it take effect, that write and those after it do not.
pub open spec fn levels_after(lines: ActuatorLineSet, plan: Seq<LineWrite>, failed: Option<Line>)
    -> ActuatorLineSet
    decreases plan.len(),
{
    if plan.len() == 0 {
        lines
    } else if failed == Some(plan[0].line) {
        lines
    } else {
        levels_after(lines.with(plan[0].line, plan[0].high), plan.skip(1), failed)
    }
}

/// Whether some write of `plan` goes to `line`.
pub open spec fn writes_to(plan: Seq<LineWrite>, line: Line) -> bool {
    exists|i: int| 0 <= i < plan.len() && (#[trigger] plan[i]).line == line
}

/// The plan of every command writes each of the six lines.
pub proof fn lemma_plan_covers_every_line(command: DriveCommand, line: Line)
    ensures
        command.write_plan().len() == 6,
        writes_to(command.write_plan(), line),
{
    let plan = command.write_plan();
    assert(plan.len() == 6);
    let i: int = match command {
        DriveCommand::Forward => match line {
            Line::LeftEnable => 0,
            Line::RightEnable => 1,
            Line::LeftBackward => 2,
            Line::RightBackward => 3,
            Line::LeftForward => 4,
            Line::RightForward => 5,
        },
        DriveCommand::Backward => match line {
            Line::LeftEnable => 0,
            Line::RightEnable => 1,
            Line::LeftForward => 2,
            Line::RightForward => 3,
            Line::LeftBackward => 4,
            Line::RightBackward => 5,
        },
        DriveCommand::TurnLeft => match line {
            Line::LeftEnable => 0,
            Line::RightEnable => 1,
            Line::LeftForward => 2,
            Line::RightBackward => 3,
            Line::RightForward => 4,
            Line::LeftBackward => 5,
        },
        DriveCommand::TurnRight => match line {
            Line::LeftEnable => 0,
            Line::RightEnable => 1,
            Line::RightForward => 2,
            Line::LeftBackward => 3,
            Line::LeftForward => 4,
            Line::RightBackward => 5,
        },
        DriveCommand::Stop => match line {
            Line::LeftEnable => 0,
            Line::RightEnable => 1,
            Line::LeftForward => 2,
            Line::LeftBackward => 3,
            Line::RightForward => 4,
            Line::RightBackward => 5,
        },
    };
    assert(plan[i].line == line);
}

/// The levels after the first `count` writes of `plan` on `lines`.
pub open spec fn levels_written(lines: ActuatorLineSet, plan: Seq<LineWrite>, count: int)
    -> ActuatorLineSet
    decreases count,
{
    if 0 < count <= plan.len() {
        levels_written(lines, plan, count - 1).with(plan[count - 1].line, plan[count - 1].high)
    } else {
        lines
    }
}

/// The writes of a plan of six take effect up to the first write to the line
/// that failed: the levels afterwards are those after that many writes, and
/// after all six where no write of the plan goes to that line.
pub proof fn lemma_six_writes(lines: ActuatorLineSet, plan: Seq<LineWrite>, failed: Option<Line>)
    requires
        plan.len() == 6,
    ensures
        levels_after(lines, plan, failed) == if failed == Some(plan[0].line) {
            levels_written(lines, plan, 0)
        } else if failed == Some(plan[1].line) {
            levels_written(lines, plan, 1)
        } else if failed == Some(plan[2].line) {
            levels_written(lines, plan, 2)
        } else if failed == Some(plan[3].line) {
            levels_written(lines, plan, 3)
        } else if failed == Some(plan[4].line) {
            levels_written(lines, plan, 4)
        } else if failed == Some(plan[5].line) {
            levels_written(lines, plan, 5)
        } else {
            levels_written(lines, plan, 6)
        },
{
    let rest_a = plan.skip(1);
    let rest_b = rest_a.skip(1);
    let rest_c = rest_b.skip(1);
    let rest_d = rest_c.skip(1);
    let rest_e = rest_d.skip(1);
    let rest_f = rest_e.skip(1);
    assert(rest_a[0] == plan[1] && rest_b[0] == plan[2] && rest_c[0] == plan[3]);
    assert(rest_d[0] == plan[4] && rest_e[0] == plan[5] && rest_f.len() == 0);
    reveal_with_fuel(levels_written, 7);
    let after_a = levels_written(lines, plan, 1);
    let after_b = levels_written(lines, plan, 2);
    let after_c = levels_written(lines, plan, 3);
    let after_d = levels_written(lines, plan, 4);
    let after_e = levels_written(lines, plan, 5);
    let after_f = levels_written(lines, plan, 6);
    assert(levels_after(after_f, rest_f, failed) == after_f);
    assert(levels_after(after_e, rest_e, failed) == if failed == Some(plan[5].line) {
        after_e
    } else {
        after_f
    });
    assert(levels_after(after_d, rest_d, failed) == if failed == Some(plan[4].line) {
        after_d
    } else {
        levels_after(after_e, rest_e, failed)
    });
    assert(levels_after(after_c, rest_c, failed) == if failed == Some(plan[3].line) {
        after_c
    } else {
        levels_after(after_d, rest_d, failed)
    });
    assert(levels_after(after_b, rest_b, failed) == if failed == Some(plan[2].line) {
        after_b
    } else {
        levels_after(after_c, rest_c, failed)
    });
    assert(levels_after(after_a, rest_a, failed) == if failed == Some(plan[1].line) {
        after_a
    } else {
        levels_after(after_b, rest_b, failed)
    });
}

/// Performed to the end, the plan of a command leaves the six lines at the
/// pattern of that command, whatever their levels were before.
pub proof fn lemma_completed_plan_gives_pattern(lines: ActuatorLineSet, command: DriveCommand)
    ensures
        levels_after(lines, command.write_plan(), None) == command.pattern(),
{
    lemma_six_writes(lines, command.write_plan(), None);
    reveal_with_fuel(levels_written, 7);
}

/// No operation drives a side both ways, wherever it fails: where no side
/// had its forward and its backward line high together before, none has
/// after, whatever the command and whichever write failed.
pub proof fn lemma_operation_keeps_exclusion(
    lines: ActuatorLineSet,
    command: DriveCommand,
    failed: Option<Line>,
)
    requires
        lines.exclusive(),
    ensures
        levels_after(lines, command.write_plan(), failed).exclusive(),
{
    lemma_six_writes(lines, command.write_plan(), failed);
    reveal_with_fuel(levels_written, 7);
}

/// A command that drives the motors keeps a driven side enabled, wherever it
/// fails: where each side with a direction line high had its enable line
/// high before, it has after. `Stop` lowers the enable lines first and so
/// may leave a direction line high on a side that it has switched off.
pub proof fn lemma_drive_keeps_sides_enabled(
    lines: ActuatorLineSet,
    command: DriveCommand,
    failed: Option<Line>,
)
    requires
        lines.enabled_where_driven(),
        command != DriveCommand::Stop,
    ensures
        levels_after(lines, command.write_plan(), failed).enabled_where_driven(),
{
    lemma_six_writes(lines, command.write_plan(), failed);
    reveal_with_fuel(levels_written, 7);
}

/// The pattern of every command keeps the two lines of a side from being high
/// together and has the enable line of a driven side high; both enable lines
/// are low for `Stop` and high for every other command.
pub proof fn lemma_pattern_is_safe(command: DriveCommand)
    ensures
        command.pattern().exclusive(),
        command.pattern().enabled_where_driven(),
        command == DriveCommand::Stop ==> !command.pattern().left_enable
            && !command.pattern().right_enable,
        command != DriveCommand::Stop ==> command.pattern().left_enable
            && command.pattern().right_enable,
{
}

/// No two commands have the same pattern: the levels of the lines tell which
/// command is active.
pub proof fn lemma_patterns_differ(first: DriveCommand, second: DriveCommand)
    requires
        first.pattern() == second.pattern(),
    ensures
        first == second,
{
}

/// A command performed twice in a row leaves the lines as performing it once
/// does. In particular a second `Stop` changes nothing.
pub proof fn lemma_repeated_command_changes_nothing(lines: ActuatorLineSet, command: DriveCommand)
    ensures
        levels_after(levels_after(lines, command.write_plan(), None), command.write_plan(), None)
            == levels_after(lines, command.write_plan(), None),
{
    lemma_completed_plan_gives_pattern(lines, command);
    lemma_completed_plan_gives_pattern(command.pattern(), command);
}

} // verus!
