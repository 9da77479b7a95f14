//! Mapping keyboard shortcuts to editor commands.

use vstd::prelude::*;

verus! {

/// The four file commands the editor offers.
#[derive(Clone, Copy, Debug, PartialEq, Eq, Structural)]
pub enum Command {
    New,
    Open,
    Save,
    SaveAs,
}

/// Which command a key chord stands for: the platform command modifier
/// (Ctrl, or Cmd on mac) with `n`, `o` or `s`, and additionally Shift with
/// `s` for save-as. Any other chord means nothing.
pub open spec fn spec_shortcut_command(command: bool, shift: bool, key: char) -> Option<Command> {
    if command && !shift && key == 'n' {
        Option::Some(Command::New)
    } else if command && !shift && key == 'o' {
        Option::Some(Command::Open)
    } else if command && !shift && key == 's' {
        Option::Some(Command::Save)
    } else if command && shift && key == 's' {
        Option::Some(Command::SaveAs)
    } else {
        Option::None
    }
}

/// Translate one key chord into a command, if it is one of the four
/// shortcuts. `command` says whether the platform command modifier was held,
/// `shift` whether Shift was held, and `key` is the pressed letter in lower
/// case.
pub fn shortcut_command(command: bool, shift: bool, key: char) -> (r: Option<Command>)
    ensures
        r == spec_shortcut_command(command, shift, key),
{
    if command && !shift && key == 'n' {
        Some(Command::New)
    } else if command && !shift && key == 'o' {
        Some(Command::Open)
    } else if command && !shift && key == 's' {
        Some(Command::Save)
    } else if command && shift && key == 's' {
        Some(Command::SaveAs)
    } else {
        None
    }
}

} // verus!
