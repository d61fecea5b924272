//! The texts that contracts speak of show all that the values hold.
use vstd::prelude::*;

use crate::command::result_view;
use crate::dotnet::{DotnetSearch, SearchStep, SearchStepView, SearchTurn, SearchTurnView};
use crate::events::{
    Action, ActionView, DotnetInstall, Effect, EffectView, Event, EventView,
};
use crate::razor::{
    DotnetHost, RazorOutcome, RazorOutcomeView, RazorSetup, RazorStep, RazorStepView, RazorTurn,
};
use crate::server::{Launch, LaunchOutcome, LaunchOutcomeView, LaunchTurn, LaunchView};

verus! {

/// The text of an installation shows its path, whether it is a directory, and whether a host is in
/// it.
pub proof fn law_install_text(install: DotnetInstall)
    ensures
        install.deep_view().path == install.path@,
        install.deep_view().is_dir == install.is_dir,
        install.deep_view().has_dotnet == install.has_dotnet,
{
}

/// The text of what is done on the way shows the status that is set, or what is printed.
pub proof fn law_effect_text(effect: Effect)
    ensures
        effect matches Effect::SetStatus(status) ==> effect.deep_view() == EffectView::SetStatus(
            status,
        ),
        effect matches Effect::Print(text) ==> effect.deep_view() == EffectView::Print(text@),
{
}

/// The text of what is asked for shows the question and what it is about.
pub proof fn law_action_text(action: Action)
    ensures
        action is ReadShellEnvironment ==> action@ is ReadShellEnvironment,
        action matches Action::Run(line) ==> action@ == ActionView::Run(line@),
        action matches Action::Canonicalize(path) ==> action@ == ActionView::Canonicalize(path@),
        action matches Action::ListInstalls(path) ==> action@ == ActionView::ListInstalls(path@),
        action matches Action::Locate(name) ==> action@ == ActionView::Locate(name@),
{
}

/// The text of an answer shows what kind it is of and what it tells.
pub proof fn law_event_text(event: Event)
    ensures
        event matches Event::ShellEnvironment(env) ==> event@ == EventView::ShellEnvironment(
            env.deep_view(),
        ),
        event matches Event::Process(result) ==> event@ == EventView::Process(result_view(result)),
        event matches Event::Canonical(Some(path)) ==> event@ == EventView::Canonical(Some(path@)),
        event matches Event::Canonical(None) ==> event@ == EventView::Canonical(None),
        event matches Event::Installs(Some(installs)) ==> event@ == EventView::Installs(
            Some(installs.deep_view()),
        ),
        event matches Event::Installs(None) ==> event@ == EventView::Installs(None),
        event matches Event::Located(Some(path)) ==> event@ == EventView::Located(Some(path@)),
        event matches Event::Located(None) ==> event@ == EventView::Located(None),
{
}

/// The text of a search shows its environment, if it has one, and what it waits for.
pub proof fn law_search_text(search: DotnetSearch, step: SearchStep, turn: SearchTurn)
    ensures
        search.env is None ==> search@.env is None,
        search.env matches Some(env) ==> search@.env == Some(env.deep_view()),
        search@.step == search.step@,
        step is AskingForActive ==> step@ is AskingForActive,
        step is AskingForSideBySide ==> step@ is AskingForSideBySide,
        step matches SearchStep::Resolving { active } ==> step@ == (SearchStepView::Resolving {
            active: active@,
        }),
        step matches SearchStep::Listing { host, version, root } ==> step@ == (
        SearchStepView::Listing { host: host@, version: version@, root: root@ }),
        turn matches SearchTurn::Wait(next) ==> turn@ == SearchTurnView::Wait(next@),
        turn matches SearchTurn::Found { host, env: None } ==> turn@ == (SearchTurnView::Found {
            host: host@,
            env: None,
        }),
        turn matches SearchTurn::Found { host, env: Some(env) } ==> turn@ == (
        SearchTurnView::Found { host: host@, env: Some(env.deep_view()) }),
{
}

/// The text of a host shows the host, its environment and its search path, if it has them.
pub proof fn law_host_text(host: DotnetHost)
    ensures
        host@.command == host.command@,
        host.env is None ==> host@.env is None,
        host.env matches Some(env) ==> host@.env == Some(env.deep_view()),
        host.inherited_path is None ==> host@.inherited_path is None,
        host.inherited_path matches Some(path) ==> host@.inherited_path == Some(path@),
{
}

/// The text of the setup of Razor shows its root, its host, what it waits for, and how it goes on.
pub proof fn law_razor_text(
    setup: RazorSetup,
    step: RazorStep,
    outcome: RazorOutcome,
    turn: RazorTurn,
)
    ensures
        setup@.root == setup.root@,
        setup@.host == setup.host@,
        setup@.step == setup.step@,
        step is ListingSdks ==> step@ is ListingSdks,
        step matches RazorStep::CheckingRepository(sdk) ==> step@
            == RazorStepView::CheckingRepository(sdk@),
        step matches RazorStep::Resetting(sdk) ==> step@ == RazorStepView::Resetting(sdk@),
        step matches RazorStep::Pulling(sdk) ==> step@ == RazorStepView::Pulling(sdk@),
        step matches RazorStep::Cloning(sdk) ==> step@ == RazorStepView::Cloning(sdk@),
        step matches RazorStep::Building(sdk) ==> step@ == RazorStepView::Building(sdk@),
        outcome matches RazorOutcome::Wait(next) ==> outcome@ == RazorOutcomeView::Wait(next@),
        outcome matches RazorOutcome::Ready { host, args } ==> outcome@ == (
        RazorOutcomeView::Ready { host: host@, args: args.deep_view() }),
        outcome matches RazorOutcome::Failed(problem) ==> outcome@ == RazorOutcomeView::Failed(
            problem@,
        ),
        turn@.effects == turn.effects.deep_view(),
        turn@.outcome == turn.outcome@,
{
}

/// The text of the start of the server shows what it waits for and all that it knows by then.
pub proof fn law_launch_text(launch: Launch)
    ensures
        launch matches Launch::ReadingEnvironment { razor_root, inherited_path } ==> launch@ == (
        LaunchView::ReadingEnvironment {
            razor_root: if razor_root is Some {
                Some(razor_root->0@)
            } else {
                None
            },
            inherited_path: if inherited_path is Some {
                Some(inherited_path->0@)
            } else {
                None
            },
        }),
        launch matches Launch::Searching { search, razor_root, inherited_path } ==> launch@ == (
        LaunchView::Searching {
            search: search@,
            razor_root: if razor_root is Some {
                Some(razor_root->0@)
            } else {
                None
            },
            inherited_path: if inherited_path is Some {
                Some(inherited_path->0@)
            } else {
                None
            },
        }),
        launch matches Launch::PreparingRazor(setup) ==> launch@ == LaunchView::PreparingRazor(
            setup@,
        ),
        launch matches Launch::Locating { host, args } ==> launch@ == (LaunchView::Locating {
            host: host@,
            args: args.deep_view(),
        }),
        launch matches Launch::Updating { host, args, path } ==> launch@ == (
        LaunchView::Updating { host: host@, args: args.deep_view(), path: path@ }),
        launch matches Launch::Downloading { host, args } ==> launch@ == (
        LaunchView::Downloading { host: host@, args: args.deep_view() }),
        launch matches Launch::LocatingAgain { host, args } ==> launch@ == (
        LaunchView::LocatingAgain { host: host@, args: args.deep_view() }),
{
}

/// The text of how the start goes on shows what is done at once and what comes of it.
pub proof fn law_launch_outcome_text(outcome: LaunchOutcome, turn: LaunchTurn)
    ensures
        outcome matches LaunchOutcome::Wait(next) ==> outcome@ == LaunchOutcomeView::Wait(next@),
        outcome matches LaunchOutcome::Ready(line) ==> outcome@ == LaunchOutcomeView::Ready(line@),
        outcome matches LaunchOutcome::Failed(problem) ==> outcome@ == LaunchOutcomeView::Failed(
            problem@,
        ),
        turn@.effects == turn.effects.deep_view(),
        turn@.outcome == turn.outcome@,
{
}

} // verus!
