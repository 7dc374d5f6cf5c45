//! The four clock actions and the fixed table from action to the visible-text
//! label of its button on the page.

use vstd::prelude::*;

verus! {

/// One of the four clock actions the service offers.
#[derive(Clone, Copy, PartialEq, Eq, Structural, Debug)]
pub enum Command {
    BreakStart,
    BreakEnd,
    ClockIn,
    ClockOut,
}

/// The visible-text label that identifies each action's button.
pub open spec fn label_spec(cmd: Command) -> Seq<char> {
    match cmd {
        Command::BreakStart => "休憩開始"@,
        Command::BreakEnd => "休憩終了"@,
        Command::ClockIn => "出勤"@,
        Command::ClockOut => "退勤"@,
    }
}

/// Maps an action to the visible-text label of its button: the fixed table the
/// dispatcher searches with. The table is exhaustive by construction.
pub fn label(cmd: Command) -> (r: &'static str)
    ensures
        r@ == label_spec(cmd),
{
    match cmd {
        Command::BreakStart => "休憩開始",
        Command::BreakEnd => "休憩終了",
        Command::ClockIn => "出勤",
        Command::ClockOut => "退勤",
    }
}

} // verus!
