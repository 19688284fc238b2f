use vstd::prelude::*;

use crate::editor::CommandQueue;
use crate::editor::Command;

verus! {

/// Asks to open or close the scene graph panel.
pub fn toggle_scene_graph(sender: &mut CommandQueue<Command>)
    ensures
        final(sender).pending() == old(sender).pending().push(Command::ToggleSceneGraph),
{
    sender.send(Command::ToggleSceneGraph);
}

} // verus!
