use vstd::prelude::*;

use crate::editor::CommandQueue;
use crate::editor::Command;

verus! {

/// Asks for a new 3D viewport.
pub fn open_3d_view(sender: &mut CommandQueue<Command>)
    ensures
        final(sender).pending() == old(sender).pending().push(Command::AddViewport),
{
    sender.send(Command::AddViewport);
}

} // verus!
