//! The commands raised in the current frame.

use crate::commands::cmd::CommandType;
use vstd::prelude::*;

verus! {

/// What the command manager holds.
pub struct CommandsView<R> {
    /// The kinds of the commands raised, in the order in which they were
    /// raised; a kind raised twice stands twice.
    pub commands: Seq<CommandType>,
    /// The render commands raised, in the order in which they were raised.
    pub render_commands: Seq<R>,
}

/// Collects the commands of one frame. `R` is the type of a render command;
/// the manager keeps render commands in order and never looks inside one.
pub struct ChaosCmdManager<R> {
    commands: Vec<CommandType>,
    render_commands: Vec<R>,
}

impl<R> View for ChaosCmdManager<R> {
    type V = CommandsView<R>;

    closed spec fn view(&self) -> CommandsView<R> {
        CommandsView { commands: self.commands@, render_commands: self.render_commands@ }
    }
}

impl<R> ChaosCmdManager<R> {
    /// A manager without commands.
    pub fn new() -> (manager: ChaosCmdManager<R>)
        ensures
            manager@.commands == Seq::<CommandType>::empty(),
            manager@.render_commands == Seq::<R>::empty(),
    {
        ChaosCmdManager { commands: Vec::new(), render_commands: Vec::new() }
    }

    /// Raises a command of kind `command_type`.
    pub fn add_command(&mut self, command_type: CommandType)
        ensures
            final(self)@.commands == old(self)@.commands.push(command_type),
            final(self)@.render_commands == old(self)@.render_commands,
    {
        self.add_command_raw(command_type);
    }

    /// Raises a command of kind `command_type`.
    pub fn add_command_raw(&mut self, command_type: CommandType)
        ensures
            final(self)@.commands == old(self)@.commands.push(command_type),
            final(self)@.render_commands == old(self)@.render_commands,
    {
        self.commands.push(command_type);
    }

    /// Whether a command of kind `command_type` was raised since the
    /// commands were last cleared.
    pub fn has_command(&self, command_type: CommandType) -> (raised: bool)
        ensures
            raised == self@.commands.contains(command_type),
    {
        let mut i: usize = 0;
        while i < self.commands.len()
            invariant
                i <= self.commands@.len(),
                forall|j: int| 0 <= j < i ==> self.commands@[j] != command_type,
            decreases self.commands@.len() - i,
        {
            if self.commands[i] == command_type {
                return true;
            }
            i += 1;
        }
        false
    }

    /// Raises a render command.
    pub fn add_render_command(&mut self, render_cmd: R)
        ensures
            final(self)@.render_commands == old(self)@.render_commands.push(render_cmd),
            final(self)@.commands == old(self)@.commands,
    {
        self.render_commands.push(render_cmd);
    }

    /// Forgets the render commands.
    pub fn clear_render_commands(&mut self)
        ensures
            final(self)@.render_commands == Seq::<R>::empty(),
            final(self)@.commands == old(self)@.commands,
    {
        self.render_commands.clear();
    }

    /// The render commands, for running each of them. Whatever the caller
    /// leaves in the list is what the manager holds afterwards.
    pub fn get_render_commands(&mut self) -> (render_commands: &mut Vec<R>)
        ensures
            render_commands@ == old(self)@.render_commands,
            final(self)@.render_commands == final(render_commands)@,
            final(self)@.commands == old(self)@.commands,
    {
        &mut self.render_commands
    }

    /// Forgets the commands.
    pub fn clear_commands(&mut self)
        ensures
            final(self)@.commands == Seq::<CommandType>::empty(),
            final(self)@.render_commands == old(self)@.render_commands,
    {
        self.commands.clear();
    }
}

} // verus!
