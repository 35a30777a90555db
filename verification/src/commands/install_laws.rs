//! What holds of every installation, whatever the answers to its actions,
//! and what an installation does to the files of a machine and to the
//! programs it runs.

use crate::commands::install::{
    install_next, install_opening, package_id_in, profile_install_command, profile_list_command,
    profile_remove_command, InstallSessionView, InstallStage,
};
use crate::commands::system::rebuild_command;
use crate::config::Config;
use crate::package::{license_query_command, says_unfree};
use crate::patcher::package_inserted;
use crate::session::{ActionView, EventView, InvocationView, StepView};
use crate::words::lines_of;
use crate::world::{after_print, after_write, perform, World};
use vstd::prelude::*;

verus! {

/// How many actions an installation at a stage can still ask for.
pub open spec fn install_actions_left(stage: InstallStage) -> nat {
    match stage {
        InstallStage::LicenseCheck => 7,
        InstallStage::ProfileInstall => 6,
        InstallStage::DocumentRead => 5,
        InstallStage::DocumentWrite => 4,
        InstallStage::Rebuild => 3,
        InstallStage::ProfileList => 2,
        InstallStage::ProfileRemove => 1,
        InstallStage::Finished => 0,
    }
}

/// An installation comes closer to its end with every event: it asks for
/// seven actions at most. It asks for the exit exactly when it is finished,
/// and it keeps its package, its settings and the path of its document.
pub proof fn law_install_ends(session: InstallSessionView, event: EventView)
    ensures
        ({
            let (waiting, step) = install_next(session, event);
            &&& session.stage != InstallStage::Finished ==> install_actions_left(waiting.stage)
                < install_actions_left(session.stage)
            &&& waiting.stage == InstallStage::Finished <==> step.action is Exit
            &&& waiting.package == session.package
            &&& waiting.passthrough_args == session.passthrough_args
            &&& waiting.config == session.config
            &&& waiting.document == session.document
        }),
{
}

/// An unfree package is refused before anything is installed or written,
/// unless the settings allow unfree packages.
pub proof fn law_install_refuses_unfree(
    package: Seq<char>,
    passthrough_args: Seq<Seq<char>>,
    config: Config,
    document: Seq<char>,
    answer: EventView,
)
    requires
        says_unfree(answer),
        !config.allow_unfree,
    ensures
        ({
            let (session, query) = install_opening(package, passthrough_args, config, document);
            let (refused, step) = install_next(session, answer);
            &&& query.action is Run
            &&& step.action == (ActionView::Exit { code: 1 })
            &&& refused.stage == InstallStage::Finished
        }),
{
}

/// An installation writes one thing only: the text that it has read from its
/// document, with the package put in, to the path of that document.
pub proof fn law_install_changes_one_document(session: InstallSessionView, event: EventView)
    ensures
        install_next(session, event).1.action matches ActionView::Write { path, content } ==> {
            &&& session.stage == InstallStage::DocumentRead
            &&& path == session.document
            &&& (event matches EventView::Content { text } && content == package_inserted(
                text,
                session.package,
            ))
        },
        install_next(session, event).1.action matches ActionView::Read { path } ==> path
            == session.document,
{
}

/// An installation ends with exit code 0 only behind a rebuild that ended
/// with success: where it was refused or has failed before, the code is 1.
pub proof fn law_install_succeeds_behind_rebuild(session: InstallSessionView, event: EventView)
    ensures
        install_next(session, event).1.action == (ActionView::Exit { code: 0 }) ==> session.stage
            == InstallStage::ProfileList || session.stage == InstallStage::ProfileRemove,
        install_next(session, event).0.stage == InstallStage::ProfileList ==> session.stage
            == InstallStage::Rebuild && (event matches EventView::Exited { success, .. }
            && success),
        install_next(session, event).0.stage == InstallStage::ProfileRemove ==> session.stage
            == InstallStage::ProfileList,
        install_next(session, event).1.action matches ActionView::Exit { code } ==> code == 0
            || code == 1,
{
}

/// The world after an installation has run from `step` on, and its exit
/// code. No more than `limit` actions are performed; where the installation
/// has not ended by then, there is no exit code.
pub open spec fn install_run(
    session: InstallSessionView,
    step: StepView,
    world: World,
    limit: nat,
) -> (World, Option<i32>)
    decreases limit,
{
    let told = after_print(world, step.output);
    match step.action {
        ActionView::Exit { code } => (told, Some(code)),
        action => if limit == 0 {
            (told, None)
        } else {
            let (after, event) = perform(told, action);
            let (waiting, following) = install_next(session, event);
            install_run(waiting, following, after, (limit - 1) as nat)
        },
    }
}

/// The world after the whole installation of a package, and its exit code.
pub open spec fn installed_in(session: InstallSessionView, world: World) -> (World, Option<i32>) {
    let (first, step) = install_opening(
        session.package,
        session.passthrough_args,
        session.config,
        session.document,
    );
    install_run(first, step, world, 7)
}

/// Whether the machine lets the package into the profile: its license is
/// free or unfree packages are allowed, and the installation into the
/// profile can be started.
pub open spec fn reaches_document(session: InstallSessionView, world: World) -> bool {
    &&& !(says_unfree((world.programs)(license_query_command(session.package)))
        && !session.config.allow_unfree)
    &&& (world.programs)(profile_install_command(session)) is Exited
}

/// An unfree package that the settings do not allow leaves the machine as it
/// is: nothing runs but the license query, no file is touched, and the exit
/// code is 1.
pub proof fn law_unfree_package_touches_nothing(session: InstallSessionView, world: World)
    requires
        says_unfree((world.programs)(license_query_command(session.package))),
        !session.config.allow_unfree,
    ensures
        ({
            let (after, code) = installed_in(session, world);
            &&& code == Some(1i32)
            &&& after.files == world.files
            &&& after.commands == world.commands.push(license_query_command(session.package))
        }),
{
    reveal_with_fuel(install_run, 3);
}

/// An installation that cannot read or write the permanent document leaves
/// every file as it is and does not rebuild the system: it ends with exit
/// code 1 behind the installation into the profile.
pub proof fn law_install_without_document(session: InstallSessionView, world: World)
    requires
        reaches_document(session, world),
        !world.files.dom().contains(session.document) || world.read_only.contains(
            session.document,
        ),
    ensures
        ({
            let (after, code) = installed_in(session, world);
            &&& code == Some(1i32)
            &&& after.files == world.files
            &&& after.commands == world.commands.push(
                license_query_command(session.package),
            ).push(profile_install_command(session))
        }),
{
    reveal_with_fuel(install_run, 5);
}

/// The programs that an installation runs up to the rebuild.
pub open spec fn commands_to_rebuild(session: InstallSessionView) -> Seq<InvocationView> {
    seq![
        license_query_command(session.package),
        profile_install_command(session),
        rebuild_command(None),
    ]
}

/// An installation that reaches the permanent document puts the package into
/// it and rebuilds the system. Where the rebuild does not end with success,
/// the installation ends there with exit code 1, and the document stays
/// changed. Where it does, the profile is listed, the package is taken out of
/// the profile if the list holds it, and the exit code is 0. No other file
/// is touched and no other program is run.
pub proof fn law_install_changes_document_and_rebuilds(
    session: InstallSessionView,
    world: World,
)
    requires
        reaches_document(session, world),
        world.files.dom().contains(session.document),
        !world.read_only.contains(session.document),
    ensures
        ({
            let (after, code) = installed_in(session, world);
            let rebuilt = (world.programs)(rebuild_command(None));
            let listed = (world.programs)(profile_list_command());
            let start = world.commands + commands_to_rebuild(session);
            &&& after.files == world.files.insert(
                session.document,
                package_inserted(world.files[session.document], session.package),
            )
            &&& if rebuilt matches EventView::Exited { success, .. } && success {
                &&& code == Some(0i32)
                &&& after.commands == if listed matches EventView::Exited { output, .. }
                    && package_id_in(lines_of(output), session.package) is Some {
                    start.push(profile_list_command()).push(
                        profile_remove_command(
                            session,
                            package_id_in(lines_of(listed->output), session.package)->0,
                        ),
                    )
                } else {
                    start.push(profile_list_command())
                }
            } else {
                &&& code == Some(1i32)
                &&& after.commands == start
            }
        }),
{
    reveal_with_fuel(install_run, 8);
    let start = world.commands + commands_to_rebuild(session);
    assert(start =~= world.commands.push(license_query_command(session.package)).push(
        profile_install_command(session),
    ).push(rebuild_command(None)));
}

} // verus!
