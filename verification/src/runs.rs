//! Whole runs: what holds of the start of the server however the answers come.
use vstd::prelude::*;

use crate::command::{
    current_path, execution_env, law_dotnet_call_forces_its_host,
    law_execution_env_names_its_host, setting, CommandView, EnvView, ResultView,
};
use crate::dotnet::{
    keeps_named_host, law_search_advances, lemma_turn_keeps_named_host, search_rank,
};
use crate::events::{answers, EffectView, EventView, InstallationStatus};
use crate::json::Json;
use crate::paths::parent_path;
use crate::razor::{
    razor_args, razor_turn, HostView, RazorOutcomeView, RazorStepView, RazorTurnView, RazorView,
};
use crate::sdk::{sdk_found, SdkView};
use crate::server::{
    after_update, base_args, failure, launch_accepts, launch_action, launch_start, launch_turn,
    quietly, server_call, LaunchOutcomeView, LaunchTurnView, LaunchView,
};
use crate::settings::{razor_root, wants_worktree_env};

verus! {

/// How the setup of Razor stands after the processes, and what was done on the way.
pub open spec fn razor_run(setup: RazorView, results: Seq<ResultView>) -> RazorTurnView
    decreases results.len(),
{
    if results.len() == 0 {
        RazorTurnView { effects: Seq::empty(), outcome: RazorOutcomeView::Wait(setup) }
    } else {
        let turn = razor_turn(setup, results[0]);
        match turn.outcome {
            RazorOutcomeView::Wait(next) => {
                let rest = razor_run(next, results.skip(1));
                RazorTurnView { effects: turn.effects + rest.effects, outcome: rest.outcome }
            },
            _ => turn,
        }
    }
}

/// How many processes the setup of Razor may still run.
pub open spec fn razor_rank(setup: RazorView) -> nat {
    match setup.step {
        RazorStepView::ListingSdks => 5,
        RazorStepView::CheckingRepository(_) => 4,
        RazorStepView::Resetting(_) => 3,
        RazorStepView::Pulling(_) => 2,
        RazorStepView::Cloning(_) => 2,
        RazorStepView::Building(_) => 1,
    }
}

/// Every process brings the setup of Razor nearer to its end.
pub proof fn law_razor_advances(setup: RazorView, result: ResultView)
    ensures
        match razor_turn(setup, result).outcome {
            RazorOutcomeView::Wait(next) => razor_rank(next) < razor_rank(setup),
            _ => true,
        },
{
}

/// The setup of Razor ends, after five processes at most.
pub proof fn law_razor_ends(setup: RazorView, results: Seq<ResultView>)
    requires
        results.len() >= razor_rank(setup),
    ensures
        razor_rank(setup) <= 5,
        !(razor_run(setup, results).outcome is Wait),
    decreases results.len(),
{
    law_razor_advances(setup, results[0]);
    match razor_turn(setup, results[0]).outcome {
        RazorOutcomeView::Wait(next) => {
            law_razor_ends(next, results.skip(1));
        },
        _ => {},
    }
}

/// Sources that are there are reset and brought up to date, and the extension is built from them.
/// That they could not be brought up to date is printed and changes nothing else.
pub proof fn law_present_sources_are_updated(
    root: Seq<char>,
    host: HostView,
    listing: ResultView,
    check: ResultView,
    reset: ResultView,
    pull: ResultView,
    build: ResultView,
)
    requires
        sdk_found(listing) is Ok,
        check is Ok && check->Ok_0.succeeded(),
        reset is Ok && reset->Ok_0.succeeded(),
        pull is Ok,
        build is Ok && build->Ok_0.succeeded(),
    ensures
        ({
            let run = razor_run(
                RazorView { root, host, step: RazorStepView::ListingSdks },
                seq![listing, check, reset, pull, build],
            );
            &&& run.outcome == (RazorOutcomeView::Ready {
                host,
                args: razor_args(root, sdk_found(listing)->Ok_0),
            })
            &&& run.effects == seq![
                EffectView::SetStatus(InstallationStatus::CheckingForUpdate),
                EffectView::SetStatus(InstallationStatus::Idle),
            ] + (if pull->Ok_0.succeeded() {
                Seq::empty()
            } else {
                seq![
                    EffectView::Print(
                        "Unable to pull latest changes in razor repository. Offline?"@,
                    ),
                ]
            })
        }),
{
    let results = seq![listing, check, reset, pull, build];
    let setup = RazorView { root, host, step: RazorStepView::ListingSdks };
    reveal_with_fuel(razor_run, 6);
    assert(results.skip(1)[0] == check);
    assert(results.skip(1).skip(1)[0] == reset);
    assert(results.skip(1).skip(1).skip(1)[0] == pull);
    assert(results.skip(1).skip(1).skip(1).skip(1)[0] == build);
    assert(razor_run(setup, results).effects =~= seq![
        EffectView::SetStatus(InstallationStatus::CheckingForUpdate),
        EffectView::SetStatus(InstallationStatus::Idle),
    ] + (if pull->Ok_0.succeeded() {
        Seq::empty()
    } else {
        seq![EffectView::Print("Unable to pull latest changes in razor repository. Offline?"@)]
    }));
}

/// Sources that are not there are cloned, and the extension is built from them.
pub proof fn law_missing_sources_are_cloned(
    root: Seq<char>,
    host: HostView,
    listing: ResultView,
    check: ResultView,
    clone: ResultView,
    build: ResultView,
)
    requires
        sdk_found(listing) is Ok,
        check is Ok && !check->Ok_0.succeeded(),
        clone is Ok && clone->Ok_0.succeeded(),
        build is Ok && build->Ok_0.succeeded(),
    ensures
        ({
            let run = razor_run(
                RazorView { root, host, step: RazorStepView::ListingSdks },
                seq![listing, check, clone, build],
            );
            &&& run.outcome == (RazorOutcomeView::Ready {
                host,
                args: razor_args(root, sdk_found(listing)->Ok_0),
            })
            &&& run.effects == seq![
                EffectView::SetStatus(InstallationStatus::Downloading),
                EffectView::SetStatus(InstallationStatus::Idle),
            ]
        }),
{
    let results = seq![listing, check, clone, build];
    let setup = RazorView { root, host, step: RazorStepView::ListingSdks };
    reveal_with_fuel(razor_run, 5);
    assert(results.skip(1)[0] == check);
    assert(results.skip(1).skip(1)[0] == clone);
    assert(results.skip(1).skip(1).skip(1)[0] == build);
    assert(razor_run(setup, results).effects =~= seq![
        EffectView::SetStatus(InstallationStatus::Downloading),
        EffectView::SetStatus(InstallationStatus::Idle),
    ]);
}

/// How the start of the server stands after the events, and what was done on the way.
pub open spec fn launch_run(launch: LaunchView, events: Seq<EventView>) -> LaunchTurnView
    decreases events.len(),
{
    if events.len() == 0 {
        quietly(LaunchOutcomeView::Wait(launch))
    } else {
        let turn = launch_turn(launch, events[0]);
        match turn.outcome {
            LaunchOutcomeView::Wait(next) => {
                let rest = launch_run(next, events.skip(1));
                LaunchTurnView { effects: turn.effects + rest.effects, outcome: rest.outcome }
            },
            _ => turn,
        }
    }
}

/// Whether each of the events answers what the start asks for when it comes, and is one that it
/// can go on from.
pub open spec fn launch_answered(launch: LaunchView, events: Seq<EventView>) -> bool
    decreases events.len(),
{
    events.len() > 0 ==> answers(launch_action(launch), events[0]) && launch_accepts(
        launch,
        events[0],
    ) && match launch_turn(launch, events[0]).outcome {
        LaunchOutcomeView::Wait(next) => launch_answered(next, events.skip(1)),
        _ => true,
    }
}

/// How many answers the start of the server may still take.
pub open spec fn launch_rank(launch: LaunchView) -> nat {
    match launch {
        LaunchView::ReadingEnvironment { .. } => 10,
        LaunchView::Searching { search, .. } => 8 + search_rank(search),
        LaunchView::PreparingRazor(setup) => 3 + razor_rank(setup),
        LaunchView::Locating { .. } => 3,
        LaunchView::Downloading { .. } => 2,
        LaunchView::Updating { .. } => 1,
        LaunchView::LocatingAgain { .. } => 1,
    }
}

/// Every answer brings the start of the server nearer to its end.
pub proof fn law_launch_advances(launch: LaunchView, event: EventView)
    requires
        answers(launch_action(launch), event),
    ensures
        match launch_turn(launch, event).outcome {
            LaunchOutcomeView::Wait(next) => launch_rank(next) < launch_rank(launch),
            _ => true,
        },
{
    match launch {
        LaunchView::Searching { search, .. } => {
            law_search_advances(search, event);
        },
        LaunchView::PreparingRazor(setup) => {
            if let EventView::Process(result) = event {
                law_razor_advances(setup, result);
            }
        },
        _ => {},
    }
}

/// The start of the server ends, after twelve answers at most: with the call that starts the
/// server, or with a failure.
pub proof fn law_launch_ends(launch: LaunchView, events: Seq<EventView>)
    requires
        launch_answered(launch, events),
        events.len() >= launch_rank(launch),
    ensures
        launch_rank(launch) <= 12,
        !(launch_run(launch, events).outcome is Wait),
    decreases events.len(),
{
    law_launch_advances(launch, events[0]);
    match launch_turn(launch, events[0]).outcome {
        LaunchOutcomeView::Wait(next) => {
            law_launch_ends(next, events.skip(1));
        },
        _ => {},
    }
}

/// What the installation status was last set to.
pub open spec fn last_status(effects: Seq<EffectView>) -> Option<InstallationStatus>
    decreases effects.len(),
{
    if effects.len() == 0 {
        None
    } else {
        match effects.last() {
            EffectView::SetStatus(status) => Some(status),
            EffectView::Print(_) => last_status(effects.drop_last()),
        }
    }
}

proof fn lemma_last_status_of_concat(first: Seq<EffectView>, second: Seq<EffectView>)
    requires
        last_status(second) is Some,
    ensures
        last_status(first + second) == last_status(second),
    decreases second.len(),
{
    assert((first + second).last() == second.last());
    assert((first + second).drop_last() =~= first + second.drop_last());
    if second.last() is Print {
        lemma_last_status_of_concat(first, second.drop_last());
    }
}

/// Where the server can be started, the installation status is left as it is when nothing is
/// being installed.
pub proof fn law_ready_leaves_idle(launch: LaunchView, events: Seq<EventView>)
    requires
        launch_run(launch, events).outcome is Ready,
    ensures
        last_status(launch_run(launch, events).effects) == Some(InstallationStatus::Idle),
    decreases events.len(),
{
    let turn = launch_turn(launch, events[0]);
    match turn.outcome {
        LaunchOutcomeView::Wait(next) => {
            law_ready_leaves_idle(next, events.skip(1));
            lemma_last_status_of_concat(
                turn.effects,
                launch_run(next, events.skip(1)).effects,
            );
        },
        _ => {},
    }
}

/// Whether a host is one that the start may have found: it is not empty, and it has the
/// environment and the search path that the start was given.
spec fn found_host(
    host: HostView,
    env: Option<EnvView>,
    inherited_path: Option<Seq<char>>,
) -> bool {
    host.command.len() > 0 && host.env == env && host.inherited_path == inherited_path
}

/// Whether the arguments are those for a server with or without Razor support.
pub open spec fn server_args(args: Seq<Seq<char>>, root: Option<Seq<char>>) -> bool {
    match root {
        None => args == base_args(),
        Some(path) => exists|sdk: SdkView| args == base_args() + #[trigger] razor_args(path, sdk),
    }
}

/// What the start of the server keeps to, once the environment is known.
spec fn keeps_to(
    launch: LaunchView,
    root: Option<Seq<char>>,
    env: Option<EnvView>,
    path: Option<Seq<char>>,
) -> bool {
    match launch {
        LaunchView::ReadingEnvironment { .. } => false,
        LaunchView::Searching { search, razor_root, inherited_path } => {
            &&& keeps_named_host(search)
            &&& search.env == env
            &&& razor_root == root
            &&& inherited_path == path
        },
        LaunchView::PreparingRazor(setup) => root == Some(setup.root) && found_host(
            setup.host,
            env,
            path,
        ),
        LaunchView::Locating { host, args } => found_host(host, env, path) && server_args(
            args,
            root,
        ),
        LaunchView::Updating { host, args, .. } => found_host(host, env, path) && server_args(
            args,
            root,
        ),
        LaunchView::Downloading { host, args } => found_host(host, env, path) && server_args(
            args,
            root,
        ),
        LaunchView::LocatingAgain { host, args } => found_host(host, env, path) && server_args(
            args,
            root,
        ),
    }
}

/// Whether a call starts the server as the settings ask for.
pub open spec fn proper_call(
    call: CommandView,
    root: Option<Seq<char>>,
    env: Option<EnvView>,
    path: Option<Seq<char>>,
) -> bool {
    &&& server_args(call.args, root)
    &&& exists|host: Seq<char>|
        host.len() > 0 && call.env == #[trigger] execution_env(host, env, path)
}

proof fn lemma_run_keeps(
    launch: LaunchView,
    events: Seq<EventView>,
    root: Option<Seq<char>>,
    env: Option<EnvView>,
    path: Option<Seq<char>>,
)
    requires
        keeps_to(launch, root, env, path),
    ensures
        match launch_run(launch, events).outcome {
            LaunchOutcomeView::Wait(next) => keeps_to(next, root, env, path),
            LaunchOutcomeView::Ready(call) => proper_call(call, root, env, path),
            LaunchOutcomeView::Failed(_) => true,
        },
    decreases events.len(),
{
    if events.len() > 0 {
        let event = events[0];
        if let LaunchView::Searching { search, .. } = launch {
            lemma_turn_keeps_named_host(search, event);
        }
        if let (LaunchView::PreparingRazor(setup), EventView::Process(result)) = (launch, event) {
            if let (RazorStepView::Building(sdk), Ok(report)) = (setup.step, result) {
                let args = base_args() + razor_args(setup.root, sdk);
                assert(root == Some(setup.root));
                assert(args == base_args() + razor_args(root->0, sdk));
                assert(server_args(args, root));
            }
        }
        match launch_turn(launch, event).outcome {
            LaunchOutcomeView::Wait(next) => {
                lemma_run_keeps(next, events.skip(1), root, env, path);
            },
            LaunchOutcomeView::Ready(call) => {
                match launch {
                    LaunchView::Updating { host, args, .. } => {
                        assert(call.env == execution_env(host.command, env, path));
                    },
                    LaunchView::LocatingAgain { host, args } => {
                        assert(call.env == execution_env(host.command, env, path));
                    },
                    _ => {},
                }
            },
            _ => {},
        }
    }
}

/// However the answers come: a call that starts the server has the arguments that it always has,
/// and after them those that load Razor from the directory that the settings name, if they name
/// one. Its variables tie it to a dotnet host, in the worktree's environment if the settings ask
/// for that.
pub proof fn law_ready_call_is_proper(
    settings: Option<Json>,
    inherited_path: Option<Seq<char>>,
    events: Seq<EventView>,
)
    requires
        launch_answered(launch_start(settings, inherited_path), events),
        launch_run(launch_start(settings, inherited_path), events).outcome is Ready,
    ensures
        ({
            let call = launch_run(launch_start(settings, inherited_path), events).outcome->Ready_0;
            if wants_worktree_env(settings) {
                &&& events[0] is ShellEnvironment
                &&& proper_call(
                    call,
                    razor_root(settings),
                    Some(events[0]->ShellEnvironment_0),
                    inherited_path,
                )
            } else {
                proper_call(call, razor_root(settings), None, inherited_path)
            }
        }),
{
    let start = launch_start(settings, inherited_path);
    if wants_worktree_env(settings) {
        match launch_turn(start, events[0]).outcome {
            LaunchOutcomeView::Wait(next) => {
                lemma_run_keeps(
                    next,
                    events.skip(1),
                    razor_root(settings),
                    Some(events[0]->ShellEnvironment_0),
                    inherited_path,
                );
            },
            _ => {},
        }
    } else {
        lemma_run_keeps(start, events, razor_root(settings), None, inherited_path);
    }
}

/// Settings that name no directory for Razor's sources are fine: no start of the server ever
/// comes to the setup of Razor then.
pub proof fn law_no_razor_without_a_root(
    settings: Option<Json>,
    inherited_path: Option<Seq<char>>,
    events: Seq<EventView>,
)
    requires
        razor_root(settings) is None,
    ensures
        match launch_run(launch_start(settings, inherited_path), events).outcome {
            LaunchOutcomeView::Wait(next) => !(next is PreparingRazor),
            _ => true,
        },
{
    lemma_no_razor(launch_start(settings, inherited_path), events);
}

/// Whether the setup of Razor is neither there nor to come.
spec fn free_of_razor(launch: LaunchView) -> bool {
    match launch {
        LaunchView::ReadingEnvironment { razor_root, .. } => razor_root is None,
        LaunchView::Searching { razor_root, .. } => razor_root is None,
        LaunchView::PreparingRazor(_) => false,
        _ => true,
    }
}

proof fn lemma_no_razor(launch: LaunchView, events: Seq<EventView>)
    requires
        free_of_razor(launch),
    ensures
        match launch_run(launch, events).outcome {
            LaunchOutcomeView::Wait(next) => free_of_razor(next),
            _ => true,
        },
    decreases events.len(),
{
    if events.len() > 0 {
        match launch_turn(launch, events[0]).outcome {
            LaunchOutcomeView::Wait(next) => {
                lemma_no_razor(next, events.skip(1));
            },
            _ => {},
        }
    }
}

/// A server that is there is started at its place, whether it could be brought up to date or not.
pub proof fn law_present_server_is_started(
    host: HostView,
    args: Seq<Seq<char>>,
    path: Seq<char>,
    update: ResultView,
)
    ensures
        launch_run(
            LaunchView::Locating { host, args },
            seq![EventView::Located(Some(path)), EventView::Process(update)],
        ) == (LaunchTurnView {
            effects: seq![EffectView::SetStatus(InstallationStatus::CheckingForUpdate)]
                + after_update(update),
            outcome: LaunchOutcomeView::Ready(server_call(path, args, host)),
        }),
{
    let events = seq![EventView::Located(Some(path)), EventView::Process(update)];
    reveal_with_fuel(launch_run, 3);
    assert(events.skip(1)[0] == EventView::Process(update));
}

/// A server that is not there is installed, and started where it is found then.
pub proof fn law_missing_server_is_installed(
    host: HostView,
    args: Seq<Seq<char>>,
    install: ResultView,
    path: Seq<char>,
)
    requires
        failure(install, "Unable to install roslyn-language-server."@) is None,
    ensures
        launch_run(
            LaunchView::Locating { host, args },
            seq![
                EventView::Located(None),
                EventView::Process(install),
                EventView::Located(Some(path)),
            ],
        ) == (LaunchTurnView {
            effects: seq![
                EffectView::SetStatus(InstallationStatus::Downloading),
                EffectView::SetStatus(InstallationStatus::Idle),
            ],
            outcome: LaunchOutcomeView::Ready(server_call(path, args, host)),
        }),
{
    let events = seq![
        EventView::Located(None),
        EventView::Process(install),
        EventView::Located(Some(path)),
    ];
    reveal_with_fuel(launch_run, 4);
    assert(events.skip(1)[0] == EventView::Process(install));
    assert(events.skip(1).skip(1)[0] == EventView::Located(Some(path)));
    assert(launch_run(LaunchView::Locating { host, args }, events).effects =~= seq![
        EffectView::SetStatus(InstallationStatus::Downloading),
        EffectView::SetStatus(InstallationStatus::Idle),
    ]);
}

/// A server that is started with a dotnet host which lies in a directory has that directory for
/// its root, the host itself for its host, and, if there is a search path at all, one that starts
/// with that directory.
pub proof fn law_server_uses_its_host(path: Seq<char>, args: Seq<Seq<char>>, host: HostView)
    requires
        parent_path(host.command) is Some,
    ensures
        ({
            let root = parent_path(host.command)->0;
            let call = server_call(path, args, host);
            &&& setting(call.env, "DOTNET_ROOT"@) == Some(root)
            &&& setting(call.env, "DOTNET_HOST_PATH"@) == Some(host.command)
            &&& match current_path(host.env, host.inherited_path) {
                Some(old_path) => setting(call.env, "PATH"@) == Some(root + ":"@ + old_path),
                None => setting(call.env, "PATH"@) is None,
            }
        }),
{
    law_execution_env_names_its_host(host.command, host.env, host.inherited_path);
}

/// A server that cannot be installed ends the start with the reason, and so does one that is not
/// found even though it was installed.
pub proof fn law_failed_install_ends_the_start(
    host: HostView,
    args: Seq<Seq<char>>,
    install: ResultView,
)
    ensures
        match failure(install, "Unable to install roslyn-language-server."@) {
            Some(problem) => launch_run(
                LaunchView::Locating { host, args },
                seq![EventView::Located(None), EventView::Process(install)],
            ).outcome == LaunchOutcomeView::Failed(problem),
            None => launch_run(
                LaunchView::Locating { host, args },
                seq![
                    EventView::Located(None),
                    EventView::Process(install),
                    EventView::Located(None),
                ],
            ).outcome == LaunchOutcomeView::Failed(
                "roslyn-language-server not found or unable to install. Please try installing it manually using: 'dotnet tool install --global roslyn-language-server --prerelease'"@,
            ),
        },
{
    let two = seq![EventView::Located(None), EventView::Process(install)];
    let three = seq![
        EventView::Located(None),
        EventView::Process(install),
        EventView::Located(None),
    ];
    reveal_with_fuel(launch_run, 4);
    assert(two.skip(1)[0] == EventView::Process(install));
    assert(three.skip(1)[0] == EventView::Process(install));
    assert(three.skip(1).skip(1)[0] == EventView::Located(None));
}

/// Where the setup of Razor fails, the start of the server fails for the same reason.
pub proof fn law_failed_razor_ends_the_start(setup: RazorView, result: ResultView)
    requires
        razor_turn(setup, result).outcome is Failed,
    ensures
        launch_turn(LaunchView::PreparingRazor(setup), EventView::Process(result)).outcome
            == LaunchOutcomeView::Failed(razor_turn(setup, result).outcome->Failed_0),
{
}

/// An event that is no answer to what was asked for does nothing and changes nothing.
pub proof fn law_other_events_are_ignored(launch: LaunchView, event: EventView)
    requires
        !answers(launch_action(launch), event),
    ensures
        launch_turn(launch, event) == quietly(LaunchOutcomeView::Wait(launch)),
{
}

/// The dotnet host that the start of the server runs next, if that is what it does.
pub open spec fn host_to_run(launch: LaunchView) -> Option<HostView> {
    match launch {
        LaunchView::PreparingRazor(setup) => match setup.step {
            RazorStepView::ListingSdks => Some(setup.host),
            RazorStepView::Building(_) => Some(setup.host),
            _ => None,
        },
        LaunchView::Updating { host, .. } => Some(host),
        LaunchView::Downloading { host, .. } => Some(host),
        _ => None,
    }
}

/// Wherever the start of the server runs the dotnet host, it runs it tied to itself: for a host
/// that lies in a directory, that directory is the root of the process, the host its host, and
/// the directory comes first in the search path.
pub proof fn law_dotnet_processes_use_their_host(launch: LaunchView)
    requires
        host_to_run(launch) is Some,
        parent_path(host_to_run(launch)->0.command) is Some,
    ensures
        ({
            let host = host_to_run(launch)->0;
            let root = parent_path(host.command)->0;
            &&& launch_action(launch) is Run
            &&& launch_action(launch)->Run_0.command == host.command
            &&& setting(launch_action(launch)->Run_0.env, "DOTNET_ROOT"@) == Some(root)
            &&& setting(launch_action(launch)->Run_0.env, "DOTNET_HOST_PATH"@) == Some(
                host.command,
            )
            &&& match current_path(host.env, host.inherited_path) {
                Some(path) => setting(launch_action(launch)->Run_0.env, "PATH"@) == Some(
                    root + ":"@ + path,
                ),
                None => setting(launch_action(launch)->Run_0.env, "PATH"@) is None,
            }
        }),
{
    let host = host_to_run(launch)->0;
    law_dotnet_call_forces_its_host(
        host.command,
        host.env,
        host.inherited_path,
        launch_action(launch)->Run_0.args,
    );
}

} // verus!
