use vstd::prelude::*;

use crate::editor::CommandQueue;
use crate::editor::Command;

verus! {

/// Asks to open or close the assets panel.
pub fn toggle_assets(sender: &mut CommandQueue<Command>)
    ensures
        final(sender).pending() == old(sender).pending().push(Command::ToggleAssets),
{
    sender.send(Command::ToggleAssets);
}

} // verus!
