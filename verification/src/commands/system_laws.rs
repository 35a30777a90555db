//! What the sessions on the system configuration do to the files of a
//! machine, to the programs it runs and to what the user reads.
//!
//! The machine is a model: a [`World`] answers each action of a session. The
//! laws hold for every world, document and request.

use crate::commands::system::{
    change_failure, changed, confirmation, is_permanent, next, opening, option_path,
    option_value, rebuild_command, target_path, ChangeRequestView, ConfigPathsView,
    OperationView, Stage, SystemSessionView, STAGING_SKELETON,
};
use crate::session::{err_line, out_line, ActionView, EventView, StepView};
use crate::world::{after_print, after_write, lemma_print_nothing, perform, World};
use vstd::prelude::*;

verus! {

/// The world after a session has run from `step` on, and its exit code. No
/// more than `limit` actions are performed; where the session has not ended
/// by then, there is no exit code.
pub open spec fn run(session: SystemSessionView, step: StepView, world: World, limit: nat) -> (
    World,
    Option<i32>,
)
    decreases limit,
{
    let told = after_print(world, step.output);
    match step.action {
        ActionView::Exit { code } => (told, Some(code)),
        action => if limit == 0 {
            (told, None)
        } else {
            let (after, event) = perform(told, action);
            let (waiting, following) = next(session, event);
            run(waiting, following, after, (limit - 1) as nat)
        },
    }
}

/// The world after the whole operation, and its exit code.
pub open spec fn carried_out(operation: OperationView, paths: ConfigPathsView, world: World) -> (
    World,
    Option<i32>,
) {
    let (session, step) = opening(operation, paths);
    run(session, step, world, 4)
}

/// The world in which the staging document exists: the world itself where it
/// does, else the world with the skeleton at the path of the staging
/// document.
pub open spec fn staging_ensured(world: World, paths: ConfigPathsView) -> World {
    if world.files.dom().contains(paths.staging) {
        world
    } else {
        after_write(world, paths.staging, STAGING_SKELETON@)
    }
}

/// To ensure twice that the staging document exists is to ensure it once.
pub proof fn law_ensure_exists_idempotent(world: World, paths: ConfigPathsView)
    ensures
        staging_ensured(staging_ensured(world, paths), paths) == staging_ensured(world, paths),
        staging_ensured(world, paths).files.dom().contains(paths.staging),
        world.files.dom().contains(paths.staging) ==> staging_ensured(world, paths) == world,
{
}

/// A temporary change first ensures that the staging document exists, and
/// then changes it: the staging document holds the skeleton with the change
/// where there was none, and its former text with the change where there was
/// one. No other file is touched and no program is run. The user reads that
/// the change waits to be applied, and the exit code is 0.
pub proof fn law_temporary_change(
    request: ChangeRequestView,
    paths: ConfigPathsView,
    world: World,
)
    requires
        !world.read_only.contains(paths.staging),
    ensures
        ({
            let operation = OperationView::Change { request, permanent: false };
            let (after, code) = carried_out(operation, paths, world);
            let ensured = staging_ensured(world, paths);
            &&& code == Some(0i32)
            &&& after == after_print(
                after_write(ensured, paths.staging, changed(ensured.files[paths.staging], request)),
                seq![out_line(confirmation(request, false))],
            )
            &&& carried_out(operation, paths, ensured) == (after, code)
        }),
{
    let operation = OperationView::Change { request, permanent: false };
    let ensured = staging_ensured(world, paths);
    reveal_with_fuel(run, 5);
    lemma_print_nothing(world);
    lemma_print_nothing(ensured);
    let document = ensured.files[paths.staging];
    let patched = after_write(ensured, paths.staging, changed(document, request));
    lemma_print_nothing(patched);
    assert(after_write(ensured, paths.staging, changed(document, request)).printed + seq![
        out_line(confirmation(request, false)),
    ] =~= world.printed.push(out_line(confirmation(request, false))));
    if !world.files.dom().contains(paths.staging) {
        assert(after_write(ensured, paths.staging, changed(document, request)).files =~= after_write(
            world,
            paths.staging,
            changed(document, request),
        ).files.insert(paths.staging, changed(document, request)));
    }
}

/// A temporary change that cannot write the staging document leaves every
/// file as it is, runs no program and ends with exit code 1.
pub proof fn law_temporary_change_refused(
    request: ChangeRequestView,
    paths: ConfigPathsView,
    world: World,
)
    requires
        world.read_only.contains(paths.staging),
    ensures
        ({
            let operation = OperationView::Change { request, permanent: false };
            let (after, code) = carried_out(operation, paths, world);
            &&& code == Some(1i32)
            &&& after.files == world.files
            &&& after.commands == world.commands
            &&& after.printed == world.printed.push(
                err_line(
                    if world.files.dom().contains(paths.staging) {
                        change_failure(false, world.unwritable)
                    } else {
                        "Failed to create temporary config: "@ + world.unwritable
                    },
                ),
            )
        }),
{
    reveal_with_fuel(run, 5);
    lemma_print_nothing(world);
}

/// A permanent change puts the changed text in the place of the permanent
/// document. No other file is touched, the staging document among them, and
/// no program is run. The user reads that the rebuild of the system applies
/// the change, and the exit code is 0.
pub proof fn law_permanent_change(
    request: ChangeRequestView,
    paths: ConfigPathsView,
    world: World,
)
    requires
        world.files.dom().contains(paths.permanent),
        !world.read_only.contains(paths.permanent),
    ensures
        ({
            let operation = OperationView::Change { request, permanent: true };
            let (after, code) = carried_out(operation, paths, world);
            &&& code == Some(0i32)
            &&& after == after_print(
                after_write(world, paths.permanent, changed(world.files[paths.permanent], request)),
                seq![out_line(confirmation(request, true))],
            )
        }),
{
    reveal_with_fuel(run, 5);
    lemma_print_nothing(world);
    lemma_print_nothing(
        after_write(world, paths.permanent, changed(world.files[paths.permanent], request)),
    );
}

/// A permanent change does not create the permanent document, and writes
/// nothing where the document cannot be read or cannot be written: every
/// file stays as it is, no program is run, and the exit code is 1.
pub proof fn law_permanent_change_refused(
    request: ChangeRequestView,
    paths: ConfigPathsView,
    world: World,
)
    requires
        !world.files.dom().contains(paths.permanent) || world.read_only.contains(paths.permanent),
    ensures
        ({
            let operation = OperationView::Change { request, permanent: true };
            let (after, code) = carried_out(operation, paths, world);
            &&& code == Some(1i32)
            &&& after.files == world.files
            &&& after.commands == world.commands
            &&& after.printed == world.printed.push(
                err_line(
                    change_failure(
                        true,
                        if world.files.dom().contains(paths.permanent) {
                            world.unwritable
                        } else {
                            world.unreadable
                        },
                    ),
                ),
            )
        }),
{
    reveal_with_fuel(run, 5);
    lemma_print_nothing(world);
}

/// "Apply" without a staging document runs no program and touches no file.
/// The user reads that there is nothing to apply, and the exit code is 0.
pub proof fn law_apply_without_staging(paths: ConfigPathsView, world: World)
    requires
        !world.files.dom().contains(paths.staging),
    ensures
        carried_out(OperationView::Apply, paths, world) == (
            after_print(world, seq![out_line("No temporary changes to apply."@)]),
            Some(0i32),
        ),
        carried_out(OperationView::Apply, paths, world).0.commands == world.commands,
        carried_out(OperationView::Apply, paths, world).0.files == world.files,
{
    reveal_with_fuel(run, 5);
    lemma_print_nothing(world);
}

/// "Apply" with a staging document runs one program: the rebuild of the
/// system, with the path of the staging document as the configuration to
/// build. It touches no file, so the staging document stays. The exit code is
/// 0 where the rebuild ended with success, else 1.
pub proof fn law_apply_with_staging(paths: ConfigPathsView, world: World)
    requires
        world.files.dom().contains(paths.staging),
    ensures
        ({
            let (after, code) = carried_out(OperationView::Apply, paths, world);
            let rebuild = rebuild_command(Some(paths.staging));
            let ended = (world.programs)(rebuild);
            let success = ended matches EventView::Exited { success, .. } && success;
            &&& after.commands == world.commands.push(rebuild)
            &&& after.files == world.files
            &&& code == Some(
                if success {
                    0i32
                } else {
                    1i32
                },
            )
            &&& after.printed.len() == world.printed.len() + 1
            &&& after.printed.last().error == !success
            &&& success ==> after.printed == world.printed.push(
                out_line("Successfully applied temporary changes."@),
            )
        }),
{
    reveal_with_fuel(run, 5);
    lemma_print_nothing(world);
    let rebuild = rebuild_command(Some(paths.staging));
    lemma_print_nothing(World { commands: world.commands.push(rebuild), ..world });
}

/// "Show" prints the staging document as it is, behind a heading; without a
/// staging document it prints that no changes are pending. It touches no
/// file and runs no program, and the exit code is 0.
pub proof fn law_show(paths: ConfigPathsView, world: World)
    ensures
        carried_out(OperationView::Show, paths, world) == (
            after_print(
                world,
                if world.files.dom().contains(paths.staging) {
                    seq![
                        out_line("Pending changes in temporary configuration:"@),
                        out_line(world.files[paths.staging]),
                    ]
                } else {
                    seq![out_line("No pending changes."@)]
                },
            ),
            Some(0i32),
        ),
{
    reveal_with_fuel(run, 5);
    lemma_print_nothing(world);
}

/// No operation removes a file: what was there before is there behind it.
/// So a staging document, once it is created, stays until someone else
/// removes it. Every operation ends, and with exit code 0 or 1.
pub proof fn law_no_file_is_removed(
    operation: OperationView,
    paths: ConfigPathsView,
    world: World,
    path: Seq<char>,
)
    requires
        world.files.dom().contains(path),
    ensures
        carried_out(operation, paths, world).0.files.dom().contains(path),
        carried_out(operation, paths, world).1 == Some(0i32) || carried_out(
            operation,
            paths,
            world,
        ).1 == Some(1i32),
{
    reveal_with_fuel(run, 5);
}

/// What the user is told after a permanent change is not what the user is
/// told after the same change made temporarily: the first names the rebuild
/// of the system, the second the command that applies staged changes.
pub proof fn law_confirmations_differ(request: ChangeRequestView)
    ensures
        confirmation(request, true) != confirmation(request, false),
{
    reveal_strlit("Added ");
    reveal_strlit(" to system packages. Run 'sudo nixos-rebuild switch' to apply.");
    reveal_strlit(" to temporary configuration. Run 'nx sys apply' to apply changes.");
    reveal_strlit("Set ");
    reveal_strlit(" = ");
    reveal_strlit(". Run 'sudo nixos-rebuild switch' to apply.");
    reveal_strlit(" in temporary configuration. Run 'nx sys apply' to apply changes.");
    let permanent = confirmation(request, true);
    let temporary = confirmation(request, false);
    match request {
        ChangeRequestView::AddPackage { name } => {
            let at = (6 + name.len() + 4) as int;
            assert(permanent[at] == 's');
            assert(temporary[at] == 't');
        },
        _ => {
            let at = (4 + option_path(request).len() + 3 + option_value(request).len()) as int;
            assert(permanent[at] == '.');
            assert(temporary[at] == ' ');
        },
    }
}

/// How many actions a session at a stage can still ask for.
pub open spec fn actions_left(stage: Stage) -> nat {
    match stage {
        Stage::StagingProbe => 4,
        Stage::StagingCreation => 3,
        Stage::DocumentRead => 2,
        Stage::DocumentWrite => 1,
        Stage::Rebuild => 1,
        Stage::Finished => 0,
    }
}

/// Whether a session is at a stage that its operation comes to: only a
/// temporary change creates the staging document, only a change writes a
/// document, only "apply" rebuilds, and a permanent change does not ask for
/// the staging document.
pub open spec fn in_order(session: SystemSessionView) -> bool {
    match session.stage {
        Stage::StagingProbe => !is_permanent(session.operation),
        Stage::StagingCreation => session.operation is Change && !is_permanent(session.operation),
        Stage::DocumentRead => session.operation is Change || session.operation is Show,
        Stage::DocumentWrite => session.operation is Change,
        Stage::Rebuild => session.operation is Apply,
        Stage::Finished => true,
    }
}

/// Whatever the answers, a session stays in order and comes closer to its
/// end with every event: it asks for four actions at most. It asks for the
/// exit exactly when it is finished, and it keeps its operation and its
/// paths.
pub proof fn law_session_ends(session: SystemSessionView, event: EventView)
    ensures
        ({
            let (waiting, step) = next(session, event);
            &&& session.stage != Stage::Finished ==> actions_left(waiting.stage) < actions_left(
                session.stage,
            )
            &&& waiting.stage == Stage::Finished <==> step.action is Exit
            &&& waiting.operation == session.operation
            &&& waiting.paths == session.paths
            &&& in_order(session) ==> in_order(waiting)
        }),
        ({
            let (first, step) = opening(session.operation, session.paths);
            &&& in_order(first)
            &&& first.stage != Stage::Finished
            &&& !(step.action is Exit)
            &&& step.output.len() == 0
        }),
{
}

/// A session in order writes to no path but that of the document it is to
/// change: the permanent document for a permanent change, the staging
/// document for a temporary one. "Apply" and "show" write nothing. It runs no
/// program but the rebuild, and only for "apply".
pub proof fn law_writes_go_to_the_target(session: SystemSessionView, event: EventView)
    requires
        in_order(session),
    ensures
        next(session, event).1.action matches ActionView::Write { path, .. } ==> session.operation
            is Change && path == target_path(session.operation, session.paths),
        next(session, event).1.action is Run ==> session.operation is Apply,
{
}

} // verus!
