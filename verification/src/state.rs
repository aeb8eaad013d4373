//! What the driver has bound and switched on, as far as commands change it.
//!
//! The driver's state is shared by everything that draws. The core never
//! reads it; it keeps to a discipline instead: whatever a draw binds or
//! switches on, it unbinds or switches off before it ends. This module
//! says what the commands do to that state, so that the discipline can be
//! stated and proved.

use crate::gl::Capability;
use crate::gl::CommandView;
use crate::gl::ProgramId;
use crate::gl::VertexArrayId;
use vstd::prelude::*;

verus! {

/// The part of the driver's state that drawing changes.
pub struct DriverState {
    /// The current program.
    pub program: Option<ProgramId>,
    /// The bound vertex array object.
    pub vertex_array: Option<VertexArrayId>,
    /// The attribute arrays that are switched on.
    pub attribute_arrays: Set<u32>,
    /// The active texture unit.
    pub active_unit: u32,
    /// The texture units that have a texture bound.
    pub textured_units: Set<u32>,
    /// The capabilities that are switched on.
    pub capabilities: Set<Capability>,
}

impl DriverState {
    /// The state after one command.
    pub open spec fn after(self, command: CommandView) -> DriverState {
        match command {
            CommandView::UseProgram { program } => DriverState { program, ..self },
            CommandView::BindVertexArray { vertex_array } => DriverState { vertex_array, ..self },
            CommandView::EnableVertexAttribArray { location } => DriverState {
                attribute_arrays: self.attribute_arrays.insert(location),
                ..self
            },
            CommandView::DisableVertexAttribArray { location } => DriverState {
                attribute_arrays: self.attribute_arrays.remove(location),
                ..self
            },
            CommandView::ActiveTexture { unit } => DriverState { active_unit: unit, ..self },
            CommandView::BindTexture { texture } => DriverState {
                textured_units: if texture.is_some() {
                    self.textured_units.insert(self.active_unit)
                } else {
                    self.textured_units.remove(self.active_unit)
                },
                ..self
            },
            CommandView::Enable { capability } => DriverState {
                capabilities: self.capabilities.insert(capability),
                ..self
            },
            CommandView::Disable { capability } => DriverState {
                capabilities: self.capabilities.remove(capability),
                ..self
            },
            _ => self,
        }
    }

    /// The state after a list of commands, carried out in order.
    pub open spec fn after_all(self, commands: Seq<CommandView>) -> DriverState
        decreases commands.len(),
    {
        if commands.len() == 0 {
            self
        } else {
            self.after_all(commands.drop_last()).after(commands.last())
        }
    }

    /// The state after the first `n` commands of a list.
    pub open spec fn after_first(self, commands: Seq<CommandView>, n: nat) -> DriverState
        decreases n,
    {
        if n == 0 {
            self
        } else {
            self.after_first(commands, (n - 1) as nat).after(commands[n - 1])
        }
    }

    /// Nothing is bound: there is no current program and no vertex array,
    /// no attribute array is switched on and no unit has a texture.
    pub open spec fn idle(self) -> bool {
        &&& self.program.is_none()
        &&& self.vertex_array.is_none()
        &&& self.attribute_arrays =~= Set::<u32>::empty()
        &&& self.textured_units =~= Set::<u32>::empty()
    }
}

/// Commands that are carried out one after the other take the state where
/// the first list takes it and the second list goes on from there.
pub proof fn lemma_after_all_concat(
    state: DriverState,
    first: Seq<CommandView>,
    second: Seq<CommandView>,
)
    ensures
        state.after_all(first + second) == state.after_all(first).after_all(second),
    decreases second.len(),
{
    if second.len() == 0 {
        assert(first + second =~= first);
    } else {
        lemma_after_all_concat(state, first, second.drop_last());
        assert((first + second).drop_last() =~= first + second.drop_last());
        assert((first + second).last() == second.last());
    }
}

proof fn lemma_after_first_of_prefix(
    state: DriverState,
    commands: Seq<CommandView>,
    prefix: Seq<CommandView>,
    n: nat,
)
    requires
        n <= prefix.len() <= commands.len(),
        forall|i: int| 0 <= i < prefix.len() ==> prefix[i] == commands[i],
    ensures
        state.after_first(prefix, n) == state.after_first(commands, n),
    decreases n,
{
    if n > 0 {
        lemma_after_first_of_prefix(state, commands, prefix, (n - 1) as nat);
    }
}

/// The state after a list of commands is reached command by command, from
/// the first to the last.
pub proof fn lemma_after_all_in_order(state: DriverState, commands: Seq<CommandView>)
    ensures
        state.after_all(commands) == state.after_first(commands, commands.len()),
    decreases commands.len(),
{
    if commands.len() > 0 {
        lemma_after_all_in_order(state, commands.drop_last());
        lemma_after_first_of_prefix(
            state,
            commands,
            commands.drop_last(),
            commands.drop_last().len(),
        );
    }
}

/// One more command at the end is carried out last.
pub proof fn lemma_after_all_push(
    state: DriverState,
    commands: Seq<CommandView>,
    command: CommandView,
)
    ensures
        state.after_all(commands.push(command)) == state.after_all(commands).after(command),
{
    assert(commands.push(command).drop_last() =~= commands);
}

} // verus!
