use vstd::prelude::*;

use crate::editor::CommandQueue;
use crate::ui::Command;

verus! {

/// Asks for a new project.
pub fn new_project(sender: &mut CommandQueue<Command>)
    ensures
        final(sender).pending() == old(sender).pending().push(Command::NewProject),
{
    sender.send(Command::NewProject);
}

} // verus!
