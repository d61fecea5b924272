//! What the start of the server asks for, does and ends with, said of answers and their values.
use vstd::prelude::*;

use crate::command::{execution_env, EnvView, ReportView, ResultView};
use crate::dotnet::{search_action, search_start, search_turn, SearchTurnView};
use crate::events::{answers, ActionView, EffectView, EventView, InstallationStatus};
use crate::json::Json;
use crate::razor::{
    razor_accepts, razor_command, razor_turn, HostView, RazorOutcomeView,
};
use crate::runs::{launch_answered, launch_run};
use crate::server::{
    launch_accepts, launch_action, launch_start, launch_turn, LaunchOutcomeView, LaunchView,
};
use crate::settings::{razor_root, wants_worktree_env};

verus! {

/// A start first reads the worktree's environment if the settings ask for that, and else searches
/// for dotnet in its own. It keeps the root of Razor's sources that they name.
pub proof fn law_launch_start(settings: Option<Json>, path: Option<Seq<char>>)
    ensures
        wants_worktree_env(settings) ==> launch_start(settings, path) == (
        LaunchView::ReadingEnvironment { razor_root: razor_root(settings), inherited_path: path }),
        !wants_worktree_env(settings) ==> launch_start(settings, path) == (LaunchView::Searching {
            search: search_start(None),
            razor_root: razor_root(settings),
            inherited_path: path,
        }),
{
}

/// What is asked for in each state of the start.
pub proof fn law_launch_asks(launch: LaunchView)
    ensures
        match launch {
            LaunchView::ReadingEnvironment { .. } => launch_action(launch)
                == ActionView::ReadShellEnvironment,
            LaunchView::Searching { search, .. } => launch_action(launch) == search_action(search),
            LaunchView::PreparingRazor(setup) => launch_action(launch) == ActionView::Run(
                razor_command(setup),
            ),
            LaunchView::Locating { .. } => launch_action(launch) == ActionView::Locate(
                "roslyn-language-server"@,
            ),
            LaunchView::LocatingAgain { .. } => launch_action(launch) == ActionView::Locate(
                "roslyn-language-server"@,
            ),
            LaunchView::Updating { host, .. } => launch_action(launch) == ActionView::Run(
                host.call(
                    seq![
                        "tool"@,
                        "update"@,
                        "roslyn-language-server"@,
                        "--global"@,
                        "--prerelease"@,
                        "--source"@,
                        "https://pkgs.dev.azure.com/azure-public/vside/_packaging/vs-impl/nuget/v3/index.json"@,
                    ],
                ),
            ),
            LaunchView::Downloading { host, .. } => launch_action(launch) == ActionView::Run(
                host.call(
                    seq![
                        "tool"@,
                        "install"@,
                        "--global"@,
                        "roslyn-language-server"@,
                        "--prerelease"@,
                        "--source"@,
                        "https://pkgs.dev.azure.com/azure-public/vside/_packaging/vs-impl/nuget/v3/index.json"@,
                    ],
                ),
            ),
        },
{
}

/// The start can go on from every event, but for those that the setup of Razor cannot go on from.
pub proof fn law_launch_accepts(launch: LaunchView, event: EventView)
    ensures
        launch_accepts(launch, event) <==> (launch is PreparingRazor && event is Process
            ==> razor_accepts(launch->PreparingRazor_0, event->Process_0)),
{
}

/// The environment that is read is the one that dotnet is searched in.
pub proof fn law_read_environment_is_used(
    root: Option<Seq<char>>,
    path: Option<Seq<char>>,
    env: EnvView,
)
    ensures
        ({
            let turn = launch_turn(
                LaunchView::ReadingEnvironment { razor_root: root, inherited_path: path },
                EventView::ShellEnvironment(env),
            );
            &&& turn.effects.len() == 0
            &&& turn.outcome == LaunchOutcomeView::Wait(
                LaunchView::Searching {
                    search: search_start(Some(env)),
                    razor_root: root,
                    inherited_path: path,
                },
            )
        }),
{
}

/// A start searches for as long as the search does. The host that is found is used with the
/// environment of the search and the search path that was given, first for Razor if there is a
/// root for it; without one the server gets no more than the arguments that it always gets.
pub proof fn law_found_host_is_used(launch: LaunchView, event: EventView)
    requires
        launch is Searching,
    ensures
        ({
            let turn = launch_turn(launch, event);
            let root = launch->Searching_razor_root;
            let path = launch->Searching_inherited_path;
            &&& turn.effects.len() == 0
            &&& turn.outcome is Wait
            &&& match search_turn(launch->search, event) {
                SearchTurnView::Wait(next) => turn.outcome->Wait_0 == (LaunchView::Searching {
                    search: next,
                    razor_root: root,
                    inherited_path: path,
                }),
                SearchTurnView::Found { host, env } => {
                    let used = HostView { command: host, env, inherited_path: path };
                    &&& root is Some ==> {
                        &&& turn.outcome->Wait_0 is PreparingRazor
                        &&& turn.outcome->Wait_0->PreparingRazor_0.root == root->0
                        &&& turn.outcome->Wait_0->PreparingRazor_0.host == used
                        &&& turn.outcome->Wait_0->PreparingRazor_0.step is ListingSdks
                    }
                    &&& root is None ==> turn.outcome->Wait_0 == (LaunchView::Locating {
                        host: used,
                        args: seq!["--stdio"@, "--autoLoadProjects"@],
                    })
                },
            }
        }),
{
}

/// The setup of Razor does what it does and goes on for as long as it does. Once it is ready, the
/// arguments that it gives come after those that the server always gets; where it fails, the start
/// fails for the same reason.
pub proof fn law_razor_within_the_start(launch: LaunchView, result: ResultView)
    requires
        launch is PreparingRazor,
    ensures
        ({
            let turn = launch_turn(launch, EventView::Process(result));
            let razor = razor_turn(launch->PreparingRazor_0, result);
            &&& turn.effects == razor.effects
            &&& match razor.outcome {
                RazorOutcomeView::Wait(next) => turn.outcome == LaunchOutcomeView::Wait(
                    LaunchView::PreparingRazor(next),
                ),
                RazorOutcomeView::Ready { host, args } => turn.outcome == LaunchOutcomeView::Wait(
                    LaunchView::Locating {
                        host,
                        args: seq!["--stdio"@, "--autoLoadProjects"@] + args,
                    },
                ),
                RazorOutcomeView::Failed(problem) => turn.outcome == LaunchOutcomeView::Failed(
                    problem,
                ),
            }
        }),
{
}

/// A server that is there is brought up to date at the place that was told; one that is not is
/// installed. The status says which.
pub proof fn law_after_the_server_was_looked_for(
    host: HostView,
    args: Seq<Seq<char>>,
    place: Option<Seq<char>>,
)
    ensures
        ({
            let turn = launch_turn(LaunchView::Locating { host, args }, EventView::Located(place));
            &&& place is Some ==> turn.outcome == LaunchOutcomeView::Wait(
                LaunchView::Updating { host, args, path: place->0 },
            )
            &&& place is Some ==> turn.effects == seq![
                EffectView::SetStatus(InstallationStatus::CheckingForUpdate),
            ]
            &&& place is None ==> turn.outcome == LaunchOutcomeView::Wait(
                LaunchView::Downloading { host, args },
            )
            &&& place is None ==> turn.effects == seq![
                EffectView::SetStatus(InstallationStatus::Downloading),
            ]
        }),
{
}

/// However an update ends, the server is started: the program at the very place that it was found
/// at, with all its arguments, and with the variables that tie it to the dotnet host. The status is
/// cleared, after a failure was printed with its reason.
pub proof fn law_after_the_update(
    host: HostView,
    args: Seq<Seq<char>>,
    path: Seq<char>,
    result: ResultView,
)
    ensures
        ({
            let turn = launch_turn(
                LaunchView::Updating { host, args, path },
                EventView::Process(result),
            );
            let idle = EffectView::SetStatus(InstallationStatus::Idle);
            &&& turn.outcome is Ready
            &&& turn.outcome->Ready_0.command == path
            &&& turn.outcome->Ready_0.args == args
            &&& turn.outcome->Ready_0.env == execution_env(
                host.command,
                host.env,
                host.inherited_path,
            )
            &&& result is Ok && result->Ok_0.status == Some(0i32) ==> turn.effects == seq![idle]
            &&& result is Ok && result->Ok_0.status != Some(0i32) ==> turn.effects == seq![
                EffectView::Print(
                    "Unable to update roslyn-language-server: "@ + (
                    "Unable to update roslyn-language-server."@ + "\nstdout: "@
                        + result->Ok_0.stdout + "\nstderr: "@ + result->Ok_0.stderr),
                ),
                idle,
            ]
            &&& result is Err ==> turn.effects == seq![
                EffectView::Print(
                    "Unable to update roslyn-language-server: "@ + result->Err_0,
                ),
                idle,
            ]
        }),
{
}

/// An installation that ends with the exit code 0, and no other, leads on to a second look for the
/// server. Else the start ends, and the reason holds all that there is to say of it.
pub proof fn law_after_the_install(host: HostView, args: Seq<Seq<char>>, result: ResultView)
    ensures
        ({
            let turn = launch_turn(
                LaunchView::Downloading { host, args },
                EventView::Process(result),
            );
            &&& turn.effects.len() == 0
            &&& result is Ok && result->Ok_0.status == Some(0i32) ==> turn.outcome
                == LaunchOutcomeView::Wait(LaunchView::LocatingAgain { host, args })
            &&& result is Ok && result->Ok_0.status != Some(0i32) ==> turn.outcome
                == LaunchOutcomeView::Failed(
                "Unable to install roslyn-language-server."@ + "\nstdout: "@ + result->Ok_0.stdout
                    + "\nstderr: "@ + result->Ok_0.stderr,
            )
            &&& result is Err ==> turn.outcome == LaunchOutcomeView::Failed(result->Err_0)
        }),
{
}

/// After an installation the server is started at the very place that it is found at, with all its
/// arguments, and with the variables that tie it to the dotnet host. Where it is not found even
/// then, the start ends with advice.
pub proof fn law_after_the_second_look(
    host: HostView,
    args: Seq<Seq<char>>,
    place: Option<Seq<char>>,
)
    ensures
        ({
            let turn = launch_turn(
                LaunchView::LocatingAgain { host, args },
                EventView::Located(place),
            );
            &&& place is Some ==> {
                &&& turn.outcome is Ready
                &&& turn.outcome->Ready_0.command == place->0
                &&& turn.outcome->Ready_0.args == args
                &&& turn.outcome->Ready_0.env == execution_env(
                    host.command,
                    host.env,
                    host.inherited_path,
                )
                &&& turn.effects == seq![EffectView::SetStatus(InstallationStatus::Idle)]
            }
            &&& place is None ==> {
                &&& turn.effects.len() == 0
                &&& turn.outcome == LaunchOutcomeView::Failed(
                    "roslyn-language-server not found or unable to install. Please try installing it manually using: 'dotnet tool install --global roslyn-language-server --prerelease'"@,
                )
            }
        }),
{
}

/// An event of another kind than the one that is waited for changes nothing. While dotnet is being
/// searched for, the search decides on that.
pub proof fn law_launch_ignores_other_events(launch: LaunchView, event: EventView)
    requires
        match launch {
            LaunchView::ReadingEnvironment { .. } => !(event is ShellEnvironment),
            LaunchView::Searching { .. } => false,
            LaunchView::PreparingRazor(_) => !(event is Process),
            LaunchView::Locating { .. } => !(event is Located),
            LaunchView::Updating { .. } => !(event is Process),
            LaunchView::Downloading { .. } => !(event is Process),
            LaunchView::LocatingAgain { .. } => !(event is Located),
        },
    ensures
        launch_turn(launch, event).effects.len() == 0,
        launch_turn(launch, event).outcome == LaunchOutcomeView::Wait(launch),
{
}

/// Each kind of question is answered by one kind of event.
pub proof fn law_answers(action: ActionView, event: EventView)
    ensures
        event is ShellEnvironment ==> (answers(action, event) <==> action is ReadShellEnvironment),
        event is Process ==> (answers(action, event) <==> action is Run),
        event is Canonical ==> (answers(action, event) <==> action is Canonicalize),
        event is Installs ==> (answers(action, event) <==> action is ListInstalls),
        event is Located ==> (answers(action, event) <==> action is Locate),
{
}

proof fn lemma_run_ends_with_a_located_path(launch: LaunchView, events: Seq<EventView>)
    requires
        !(launch is Updating),
        launch_run(launch, events).outcome is Ready,
    ensures
        exists|i: int|
            0 <= i < events.len() && (#[trigger] events[i]) == EventView::Located(
                Some(launch_run(launch, events).outcome->Ready_0.command),
            ),
    decreases events.len(),
{
    let call = launch_run(launch, events).outcome->Ready_0;
    match launch_turn(launch, events[0]).outcome {
        LaunchOutcomeView::Wait(next) => {
            if next is Updating {
                let path = next->path;
                assert(events[0] == EventView::Located(Some(path)));
                lemma_update_keeps_its_path(next, events.skip(1));
            } else {
                lemma_run_ends_with_a_located_path(next, events.skip(1));
                let i = choose|i: int|
                    0 <= i < events.skip(1).len() && (#[trigger] events.skip(1)[i])
                        == EventView::Located(Some(call.command));
                assert(events[i + 1] == events.skip(1)[i]);
            }
        },
        _ => {
            assert(events[0] == EventView::Located(Some(call.command)));
        },
    }
}

proof fn lemma_update_keeps_its_path(launch: LaunchView, events: Seq<EventView>)
    requires
        launch is Updating,
    ensures
        match launch_run(launch, events).outcome {
            LaunchOutcomeView::Wait(next) => next == launch,
            LaunchOutcomeView::Ready(call) => call.command == launch->path,
            LaunchOutcomeView::Failed(_) => false,
        },
    decreases events.len(),
{
    if events.len() > 0 {
        match launch_turn(launch, events[0]).outcome {
            LaunchOutcomeView::Wait(next) => {
                lemma_update_keeps_its_path(next, events.skip(1));
            },
            _ => {},
        }
    }
}

/// However the events come, a start never runs a program at a place that it was not told: the
/// program of a call that starts the server is the whole path of an event of the run that told
/// where the server is.
pub proof fn law_started_program_was_located(
    settings: Option<Json>,
    inherited_path: Option<Seq<char>>,
    events: Seq<EventView>,
)
    requires
        launch_run(launch_start(settings, inherited_path), events).outcome is Ready,
    ensures
        exists|i: int|
            0 <= i < events.len() && (#[trigger] events[i]) == EventView::Located(
                Some(
                    launch_run(
                        launch_start(settings, inherited_path),
                        events,
                    ).outcome->Ready_0.command,
                ),
            ),
{
    lemma_run_ends_with_a_located_path(launch_start(settings, inherited_path), events);
}

proof fn lemma_last_located_path(
    launch: LaunchView,
    events: Seq<EventView>,
    place: int,
    path: Seq<char>,
)
    requires
        !(launch is Updating),
        launch_answered(launch, events),
        launch_run(launch, events).outcome is Ready,
        launch_run(launch, events.drop_last()).outcome is Wait,
        0 <= place < events.len(),
        events[place] == EventView::Located(Some(path)),
        forall|i: int|
            place < i < events.len() ==> !((#[trigger] events[i]) is Located
                && events[i]->Located_0 is Some),
    ensures
        launch_run(launch, events).outcome->Ready_0.command == path,
    decreases events.len(),
{
    let fewer = events.drop_last();
    match launch_turn(launch, events[0]).outcome {
        LaunchOutcomeView::Wait(next) => {
            let rest = events.skip(1);
            if events.len() == 1 {
                assert(rest.len() == 0);
            } else {
                assert(fewer[0] == events[0]);
                assert(fewer.skip(1) =~= rest.drop_last());
                if next is Updating {
                    lemma_update_keeps_its_path(next, rest);
                    assert(events[0] == EventView::Located(Some(next->path)));
                    if place > 0 {
                        lemma_updating_hears_no_places(next, rest, place - 1);
                    }
                } else {
                    if place == 0 {
                        lemma_run_ends_with_a_located_path(next, rest);
                        let i = choose|i: int|
                            0 <= i < rest.len() && (#[trigger] rest[i]) == EventView::Located(
                                Some(launch_run(next, rest).outcome->Ready_0.command),
                            );
                        assert(events[i + 1] == rest[i]);
                    } else {
                        assert(rest[place - 1] == events[place]);
                        assert forall|i: int| place - 1 < i < rest.len() implies !((
                        #[trigger] rest[i]) is Located && rest[i]->Located_0 is Some) by {
                            assert(rest[i] == events[i + 1]);
                        }
                        lemma_last_located_path(next, rest, place - 1, path);
                    }
                }
            }
        },
        _ => {
            if events.len() > 1 {
                assert(fewer[0] == events[0]);
                assert(launch_run(launch, fewer).outcome is Ready);
            }
        },
    }
}

proof fn lemma_updating_hears_no_places(launch: LaunchView, events: Seq<EventView>, place: int)
    requires
        launch is Updating,
        launch_answered(launch, events),
        launch_run(launch, events).outcome is Ready,
        events.len() > 0,
        launch_run(launch, events.drop_last()).outcome is Wait,
        0 <= place < events.len(),
    ensures
        !(events[place] is Located),
{
    assert(events[0] is Process);
    assert(launch_turn(launch, events[0]).outcome is Ready);
    if events.len() > 1 {
        assert(events.drop_last()[0] == events[0]);
        assert(launch_run(launch, events.drop_last()).outcome is Ready);
    }
}

/// In a run in which every event answers what was asked for, the last event that tells a place of
/// the server decides: where the run ends with the call that starts the server, its program is
/// that path and no other.
pub proof fn law_last_located_path_is_started(
    settings: Option<Json>,
    inherited_path: Option<Seq<char>>,
    events: Seq<EventView>,
    place: int,
    path: Seq<char>,
)
    requires
        launch_answered(launch_start(settings, inherited_path), events),
        launch_run(launch_start(settings, inherited_path), events).outcome is Ready,
        launch_run(launch_start(settings, inherited_path), events.drop_last()).outcome is Wait,
        0 <= place < events.len(),
        events[place] == EventView::Located(Some(path)),
        forall|i: int|
            place < i < events.len() ==> !((#[trigger] events[i]) is Located
                && events[i]->Located_0 is Some),
    ensures
        launch_run(launch_start(settings, inherited_path), events).outcome->Ready_0.command
            == path,
{
    lemma_last_located_path(launch_start(settings, inherited_path), events, place, path);
}

/// A server that is found at a place is started at that place, with the same arguments and tied to
/// the same host, whether it had to be installed first or not.
pub proof fn law_both_ways_start_the_same_server(
    host: HostView,
    args: Seq<Seq<char>>,
    path: Seq<char>,
    update: ResultView,
    install: ReportView,
)
    requires
        install.status == Some(0i32),
    ensures
        ({
            let present = launch_run(
                LaunchView::Locating { host, args },
                seq![EventView::Located(Some(path)), EventView::Process(update)],
            );
            let missing = launch_run(
                LaunchView::Locating { host, args },
                seq![
                    EventView::Located(None),
                    EventView::Process(Ok(install)),
                    EventView::Located(Some(path)),
                ],
            );
            &&& present.outcome is Ready
            &&& present.outcome == missing.outcome
            &&& present.outcome->Ready_0.command == path
            &&& present.outcome->Ready_0.args == args
            &&& present.outcome->Ready_0.env == execution_env(
                host.command,
                host.env,
                host.inherited_path,
            )
        }),
{
    let two = seq![EventView::Located(Some(path)), EventView::Process(update)];
    let three = seq![
        EventView::Located(None),
        EventView::Process(Ok(install)),
        EventView::Located(Some(path)),
    ];
    reveal_with_fuel(launch_run, 4);
    assert(two.skip(1)[0] == EventView::Process(update));
    assert(three.skip(1)[0] == EventView::Process(Ok(install)));
    assert(three.skip(1).skip(1)[0] == EventView::Located(Some(path)));
}

} // verus!
