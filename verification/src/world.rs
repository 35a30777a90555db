//! A model of the machine on which the commands run: its files, the programs
//! it runs and what its user reads.
//!
//! A [`World`] answers each action of a session with an event. What a
//! command does is proved against it.

use crate::session::{ActionView, EventView, InvocationView, LineView};
use vstd::prelude::*;

verus! {

/// A machine, as far as the sessions deal with it.
pub struct World {
    /// The files: from the path to the text.
    pub files: Map<Seq<char>, Seq<char>>,
    /// The paths that cannot be written.
    pub read_only: Set<Seq<char>>,
    /// The reason that the machine gives where a file cannot be read.
    pub unreadable: Seq<char>,
    /// The reason that the machine gives where a file cannot be written.
    pub unwritable: Seq<char>,
    /// What comes of running a program.
    pub programs: spec_fn(InvocationView) -> EventView,
    /// The programs that were run, the first one first.
    pub commands: Seq<InvocationView>,
    /// The lines that were printed, the first one first.
    pub printed: Seq<LineView>,
}

/// The world after the lines were printed.
pub open spec fn after_print(world: World, lines: Seq<LineView>) -> World {
    World { printed: world.printed + lines, ..world }
}

/// The world after the text was written to the path.
pub open spec fn after_write(world: World, path: Seq<char>, content: Seq<char>) -> World {
    World { files: world.files.insert(path, content), ..world }
}

/// The world after an action, and the event that answers the action.
///
/// A file is there if the world holds a text for its path. It can be read if
/// it is there, and written unless its path is read-only. A program that is
/// run is noted, and ends as the world says.
pub open spec fn perform(world: World, action: ActionView) -> (World, EventView) {
    match action {
        ActionView::Probe { path } => (
            world,
            EventView::Probed { exists: world.files.dom().contains(path) },
        ),
        ActionView::Read { path } => if world.files.dom().contains(path) {
            (world, EventView::Content { text: world.files[path] })
        } else {
            (world, EventView::Failed { reason: world.unreadable })
        },
        ActionView::Write { path, content } => if world.read_only.contains(path) {
            (world, EventView::Failed { reason: world.unwritable })
        } else {
            (after_write(world, path, content), EventView::Done)
        },
        ActionView::Run { invocation, mode } => (
            World { commands: world.commands.push(invocation), ..world },
            (world.programs)(invocation),
        ),
        ActionView::Exit { code } => (world, EventView::Done),
    }
}

/// To print no line leaves the world as it is.
pub proof fn lemma_print_nothing(world: World)
    ensures
        after_print(world, Seq::empty()) == world,
{
    assert(world.printed + Seq::<LineView>::empty() =~= world.printed);
}

} // verus!
