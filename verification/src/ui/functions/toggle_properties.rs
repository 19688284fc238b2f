use vstd::prelude::*;

use crate::editor::CommandQueue;
use crate::editor::Command;

verus! {

/// Asks to open or close the properties panel.
pub fn toggle_properties(sender: &mut CommandQueue<Command>)
    ensures
        final(sender).pending() == old(sender).pending().push(Command::ToggleProperties),
{
    sender.send(Command::ToggleProperties);
}

} // verus!
