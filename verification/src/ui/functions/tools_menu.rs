use vstd::prelude::*;

use crate::editor::CommandQueue;
use crate::ui::Command;

verus! {

/// Asks to open or close the tools panel.
pub fn tools_menu(sender: &mut CommandQueue<Command>)
    ensures
        final(sender).pending() == old(sender).pending().push(Command::ToggleTools),
{
    sender.send(Command::ToggleTools);
}

} // verus!
