//! The start of the language server: finding dotnet, preparing Razor support, and installing the
//! server or bringing it up to date.
use vstd::prelude::*;

use crate::command::{result_view, CommandLine, CommandView, ProcessResult, ResultView};
use crate::dotnet::{
    search_action, search_start, search_turn, DotnetSearch, SearchTurn, SearchTurnView, SearchView,
};
use crate::events::{
    Action, ActionView, Effect, EffectView, Event, EventView, InstallationStatus,
};
use crate::json::Json;
use crate::razor::{
    no_effects, razor_accepts, razor_command, razor_turn, set_status, DotnetHost, HostView,
    RazorOutcome, RazorOutcomeView, RazorSetup, RazorStepView, RazorView,
};
use crate::roslyn::RoslynOfficial;
use crate::settings::{razor_root, wants_worktree_env, LspSettings};

verus! {

/// The arguments that the server always gets.
pub open spec fn base_args() -> Seq<Seq<char>> {
    seq!["--stdio"@, "--autoLoadProjects"@]
}

/// The call that installs the server.
pub open spec fn install_call(host: HostView) -> CommandView {
    host.call(
        seq![
            "tool"@,
            "install"@,
            "--global"@,
            "roslyn-language-server"@,
            "--prerelease"@,
            "--source"@,
            "https://pkgs.dev.azure.com/azure-public/vside/_packaging/vs-impl/nuget/v3/index.json"@,
        ],
    )
}

/// The call that brings the server up to date.
pub open spec fn update_call(host: HostView) -> CommandView {
    host.call(
        seq![
            "tool"@,
            "update"@,
            "roslyn-language-server"@,
            "--global"@,
            "--prerelease"@,
            "--source"@,
            "https://pkgs.dev.azure.com/azure-public/vside/_packaging/vs-impl/nuget/v3/index.json"@,
        ],
    )
}

/// Why a process did not do what it was run for: it could not be run, or it failed. Nothing if it
/// succeeded.
pub open spec fn failure(result: ResultView, problem: Seq<char>) -> Option<Seq<char>> {
    match result {
        Err(cause) => Some(cause),
        Ok(report) => if report.succeeded() {
            None
        } else {
            Some(report.complaint(problem))
        },
    }
}

/// The start of the server, by what it waits for.
#[derive(Debug)]
pub enum Launch {
    ReadingEnvironment { razor_root: Option<String>, inherited_path: Option<String> },
    Searching {
        search: DotnetSearch,
        razor_root: Option<String>,
        inherited_path: Option<String>,
    },
    PreparingRazor(RazorSetup),
    /// The server's place. The host and the arguments for the server are known from here on.
    Locating { host: DotnetHost, args: Vec<String> },
    Updating { host: DotnetHost, args: Vec<String>, path: String },
    Downloading { host: DotnetHost, args: Vec<String> },
    /// The server's place once more, after it was installed.
    LocatingAgain { host: DotnetHost, args: Vec<String> },
}

/// The text of the start of the server.
#[verifier::ext_equal]
pub enum LaunchView {
    ReadingEnvironment { razor_root: Option<Seq<char>>, inherited_path: Option<Seq<char>> },
    Searching {
        search: SearchView,
        razor_root: Option<Seq<char>>,
        inherited_path: Option<Seq<char>>,
    },
    PreparingRazor(RazorView),
    Locating { host: HostView, args: Seq<Seq<char>> },
    Updating { host: HostView, args: Seq<Seq<char>>, path: Seq<char> },
    Downloading { host: HostView, args: Seq<Seq<char>> },
    LocatingAgain { host: HostView, args: Seq<Seq<char>> },
}

impl View for Launch {
    type V = LaunchView;

    open spec fn view(&self) -> LaunchView {
        match self {
            Launch::ReadingEnvironment {
                razor_root,
                inherited_path,
            } => LaunchView::ReadingEnvironment {
                razor_root: razor_root.deep_view(),
                inherited_path: inherited_path.deep_view(),
            },
            Launch::Searching { search, razor_root, inherited_path } => LaunchView::Searching {
                search: search@,
                razor_root: razor_root.deep_view(),
                inherited_path: inherited_path.deep_view(),
            },
            Launch::PreparingRazor(setup) => LaunchView::PreparingRazor(setup@),
            Launch::Locating { host, args } => LaunchView::Locating {
                host: host@,
                args: args.deep_view(),
            },
            Launch::Updating { host, args, path } => LaunchView::Updating {
                host: host@,
                args: args.deep_view(),
                path: path@,
            },
            Launch::Downloading { host, args } => LaunchView::Downloading {
                host: host@,
                args: args.deep_view(),
            },
            Launch::LocatingAgain { host, args } => LaunchView::LocatingAgain {
                host: host@,
                args: args.deep_view(),
            },
        }
    }
}

/// How the start goes on.
#[derive(Debug)]
pub enum LaunchOutcome {
    Wait(Launch),
    /// The call that starts the server.
    Ready(CommandLine),
    Failed(String),
}

/// The text of how the start goes on.
#[verifier::ext_equal]
pub enum LaunchOutcomeView {
    Wait(LaunchView),
    Ready(CommandView),
    Failed(Seq<char>),
}

impl View for LaunchOutcome {
    type V = LaunchOutcomeView;

    open spec fn view(&self) -> LaunchOutcomeView {
        match self {
            LaunchOutcome::Wait(launch) => LaunchOutcomeView::Wait(launch@),
            LaunchOutcome::Ready(line) => LaunchOutcomeView::Ready(line@),
            LaunchOutcome::Failed(problem) => LaunchOutcomeView::Failed(problem@),
        }
    }
}

/// A turn of the start: what is done at once, and then how it goes on.
#[derive(Debug)]
pub struct LaunchTurn {
    pub effects: Vec<Effect>,
    pub outcome: LaunchOutcome,
}

/// The text of a turn of the start.
#[verifier::ext_equal]
pub struct LaunchTurnView {
    pub effects: Seq<EffectView>,
    pub outcome: LaunchOutcomeView,
}

impl View for LaunchTurn {
    type V = LaunchTurnView;

    open spec fn view(&self) -> LaunchTurnView {
        LaunchTurnView { effects: self.effects.deep_view(), outcome: self.outcome@ }
    }
}

/// The start, given the user's settings.
pub open spec fn launch_start(
    settings: Option<Json>,
    inherited_path: Option<Seq<char>>,
) -> LaunchView {
    if wants_worktree_env(settings) {
        LaunchView::ReadingEnvironment { razor_root: razor_root(settings), inherited_path }
    } else {
        LaunchView::Searching {
            search: search_start(None),
            razor_root: razor_root(settings),
            inherited_path,
        }
    }
}

/// What the start asks for.
pub open spec fn launch_action(launch: LaunchView) -> ActionView {
    match launch {
        LaunchView::ReadingEnvironment { .. } => ActionView::ReadShellEnvironment,
        LaunchView::Searching { search, .. } => search_action(search),
        LaunchView::PreparingRazor(setup) => ActionView::Run(razor_command(setup)),
        LaunchView::Locating { .. } => ActionView::Locate("roslyn-language-server"@),
        LaunchView::Updating { host, .. } => ActionView::Run(update_call(host)),
        LaunchView::Downloading { host, .. } => ActionView::Run(install_call(host)),
        LaunchView::LocatingAgain { .. } => ActionView::Locate("roslyn-language-server"@),
    }
}

/// Whether an event is one that the start can go on from, be it to fail.
pub open spec fn launch_accepts(launch: LaunchView, event: EventView) -> bool {
    match (launch, event) {
        (LaunchView::PreparingRazor(setup), EventView::Process(result)) => razor_accepts(
            setup,
            result,
        ),
        _ => true,
    }
}

/// The call that starts the server at `path`. The variables tie it to the dotnet host.
pub open spec fn server_call(
    path: Seq<char>,
    args: Seq<Seq<char>>,
    host: HostView,
) -> CommandView {
    CommandView { command: path, args: args, env: host.execution_env() }
}

/// What comes once the dotnet host is known: the setup of Razor, if it is wanted.
pub open spec fn with_host(razor_root: Option<Seq<char>>, host: HostView) -> LaunchView {
    match razor_root {
        Some(root) => LaunchView::PreparingRazor(
            RazorView { root: root, host: host, step: RazorStepView::ListingSdks },
        ),
        None => LaunchView::Locating { host: host, args: base_args() },
    }
}

/// What is done once an update has ended: its failure is printed, and no more.
pub open spec fn after_update(result: ResultView) -> Seq<EffectView> {
    let idle = EffectView::SetStatus(InstallationStatus::Idle);
    match failure(result, "Unable to update roslyn-language-server."@) {
        Some(problem) => seq![
            EffectView::Print("Unable to update roslyn-language-server: "@ + problem),
            idle,
        ],
        None => seq![idle],
    }
}

/// Nothing is done, and the start goes on so.
pub open spec fn quietly(outcome: LaunchOutcomeView) -> LaunchTurnView {
    LaunchTurnView { effects: Seq::empty(), outcome: outcome }
}

/// How the start goes on after an event. A server that is there is brought up to date, and
/// started whether that worked or not; one that is not there is installed first, which has to
/// work. An event that is no answer changes nothing.
pub open spec fn launch_turn(launch: LaunchView, event: EventView) -> LaunchTurnView {
    match (launch, event) {
        (
            LaunchView::ReadingEnvironment { razor_root, inherited_path },
            EventView::ShellEnvironment(env),
        ) => quietly(
            LaunchOutcomeView::Wait(
                LaunchView::Searching {
                    search: search_start(Some(env)),
                    razor_root,
                    inherited_path,
                },
            ),
        ),
        (LaunchView::Searching { search, razor_root, inherited_path }, _) => quietly(
            LaunchOutcomeView::Wait(
                match search_turn(search, event) {
                    SearchTurnView::Wait(next) => LaunchView::Searching {
                        search: next,
                        razor_root,
                        inherited_path,
                    },
                    SearchTurnView::Found { host, env } => with_host(
                        razor_root,
                        HostView { command: host, env, inherited_path },
                    ),
                },
            ),
        ),
        (LaunchView::PreparingRazor(setup), EventView::Process(result)) => {
            let turn = razor_turn(setup, result);
            LaunchTurnView {
                effects: turn.effects,
                outcome: match turn.outcome {
                    RazorOutcomeView::Wait(next) => LaunchOutcomeView::Wait(
                        LaunchView::PreparingRazor(next),
                    ),
                    RazorOutcomeView::Ready { host, args } => LaunchOutcomeView::Wait(
                        LaunchView::Locating { host, args: base_args() + args },
                    ),
                    RazorOutcomeView::Failed(problem) => LaunchOutcomeView::Failed(problem),
                },
            }
        },
        (LaunchView::Locating { host, args }, EventView::Located(place)) => match place {
            Some(path) => LaunchTurnView {
                effects: seq![EffectView::SetStatus(InstallationStatus::CheckingForUpdate)],
                outcome: LaunchOutcomeView::Wait(LaunchView::Updating { host, args, path }),
            },
            None => LaunchTurnView {
                effects: seq![EffectView::SetStatus(InstallationStatus::Downloading)],
                outcome: LaunchOutcomeView::Wait(LaunchView::Downloading { host, args }),
            },
        },
        (LaunchView::Updating { host, args, path }, EventView::Process(result)) => LaunchTurnView {
            effects: after_update(result),
            outcome: LaunchOutcomeView::Ready(server_call(path, args, host)),
        },
        (LaunchView::Downloading { host, args }, EventView::Process(result)) => quietly(
            match failure(result, "Unable to install roslyn-language-server."@) {
                Some(problem) => LaunchOutcomeView::Failed(problem),
                None => LaunchOutcomeView::Wait(LaunchView::LocatingAgain { host, args }),
            },
        ),
        (LaunchView::LocatingAgain { host, args }, EventView::Located(place)) => match place {
            Some(path) => LaunchTurnView {
                effects: seq![EffectView::SetStatus(InstallationStatus::Idle)],
                outcome: LaunchOutcomeView::Ready(server_call(path, args, host)),
            },
            None => quietly(
                LaunchOutcomeView::Failed(
                    "roslyn-language-server not found or unable to install. Please try installing it manually using: 'dotnet tool install --global roslyn-language-server --prerelease'"@,
                ),
            ),
        },
        _ => quietly(LaunchOutcomeView::Wait(launch)),
    }
}

/// Why a process did not do what it was run for.
fn find_failure(result: &ProcessResult, problem: &str) -> (cause: Option<String>)
    ensures
        cause.deep_view() == failure(result_view(*result), problem@),
{
    match result {
        Err(cause) => Some(cause.clone()),
        Ok(report) => if report.succeeded() {
            None
        } else {
            Some(report.complaint(problem))
        },
    }
}

/// Whether the server was installed, or why not.
pub fn download_roslyn_server(result: &ProcessResult) -> (done: Result<(), String>)
    ensures
        done is Err <==> failure(
            result_view(*result),
            "Unable to install roslyn-language-server."@,
        ) is Some,
        done is Err ==> failure(
            result_view(*result),
            "Unable to install roslyn-language-server."@,
        ) == Some(done->Err_0@),
{
    match find_failure(result, "Unable to install roslyn-language-server.") {
        Some(problem) => Err(problem),
        None => Ok(()),
    }
}

/// Whether the server was brought up to date, or why not.
pub fn update_roslyn_server(result: &ProcessResult) -> (done: Result<(), String>)
    ensures
        done is Err <==> failure(
            result_view(*result),
            "Unable to update roslyn-language-server."@,
        ) is Some,
        done is Err ==> failure(
            result_view(*result),
            "Unable to update roslyn-language-server."@,
        ) == Some(done->Err_0@),
{
    match find_failure(result, "Unable to update roslyn-language-server.") {
        Some(problem) => Err(problem),
        None => Ok(()),
    }
}

/// The arguments that the server always gets.
pub fn make_base_args() -> (args: Vec<String>)
    ensures
        args.deep_view() == base_args(),
{
    let mut args: Vec<String> = Vec::new();
    args.push("--stdio".to_string());
    args.push("--autoLoadProjects".to_string());
    assert(args.deep_view() =~= base_args());
    args
}

/// The start goes on so, and nothing is done.
fn quiet_turn(outcome: LaunchOutcome) -> (turn: LaunchTurn)
    ensures
        turn@ == quietly(outcome@),
{
    LaunchTurn { effects: no_effects(), outcome }
}

/// What comes once the dotnet host is known.
fn launch_with_host(razor_root: Option<String>, host: DotnetHost) -> (launch: Launch)
    ensures
        launch@ == with_host(razor_root.deep_view(), host@),
{
    match RoslynOfficial::install_or_update_razor(razor_root, host) {
        Ok(setup) => Launch::PreparingRazor(setup),
        Err(host) => Launch::Locating { host, args: make_base_args() },
    }
}

/// What is done once an update has ended.
fn effects_after_update(result: &ProcessResult) -> (effects: Vec<Effect>)
    ensures
        effects.deep_view() == after_update(result_view(*result)),
{
    let mut effects: Vec<Effect> = Vec::new();
    if let Err(problem) = update_roslyn_server(result) {
        effects.push(
            Effect::Print(
                "Unable to update roslyn-language-server: ".to_string().concat(problem.as_str()),
            ),
        );
    }
    effects.push(Effect::SetStatus(InstallationStatus::Idle));
    assert(effects.deep_view() =~= after_update(result_view(*result)));
    effects
}

impl RoslynOfficial {
    /// Begins the start of the server, given the user's settings, if they could be loaded, and the
    /// search path of this process.
    pub fn language_server_cmd(
        &mut self,
        lsp_settings: Option<&LspSettings>,
        inherited_path: Option<String>,
    ) -> (launch: Result<Launch, String>)
        ensures
            *final(self) == *old(self),
            launch is Ok <==> lsp_settings is Some,
            launch is Ok ==> launch->Ok_0@ == launch_start(
                lsp_settings->0@,
                inherited_path.deep_view(),
            ),
            launch is Err ==> launch->Err_0@ == "Unable to load settings"@,
    {
        let loaded = match lsp_settings {
            Some(loaded) => loaded,
            None => {
                return Err("Unable to load settings".to_string());
            },
        };
        let razor_root = Self::razor_source_repository_root(loaded);
        if Self::use_worktree_dotnet_env(loaded) {
            Ok(Launch::ReadingEnvironment { razor_root, inherited_path })
        } else {
            let search = Self::resolve_dotnet_command(None);
            Ok(Launch::Searching { search, razor_root, inherited_path })
        }
    }
}

impl Launch {
    /// What the start asks for.
    pub fn action(&self) -> (action: Action)
        ensures
            action@ == launch_action(self@),
    {
        match self {
            Launch::ReadingEnvironment { .. } => Action::ReadShellEnvironment,
            Launch::Searching { search, .. } => search.action(),
            Launch::PreparingRazor(setup) => Action::Run(setup.command()),
            Launch::Locating { .. } => Action::Locate("roslyn-language-server".to_string()),
            Launch::Updating { host, .. } => {
                let line = host.new_command().arg("tool").arg("update").arg(
                    "roslyn-language-server",
                ).arg("--global").arg("--prerelease").arg("--source").arg(
                    "https://pkgs.dev.azure.com/azure-public/vside/_packaging/vs-impl/nuget/v3/index.json",
                );
                assert(line@.args =~= update_call(host@).args);
                Action::Run(line)
            },
            Launch::Downloading { host, .. } => {
                let line = host.new_command().arg("tool").arg("install").arg("--global").arg(
                    "roslyn-language-server",
                ).arg("--prerelease").arg("--source").arg(
                    "https://pkgs.dev.azure.com/azure-public/vside/_packaging/vs-impl/nuget/v3/index.json",
                );
                assert(line@.args =~= install_call(host@).args);
                Action::Run(line)
            },
            Launch::LocatingAgain { .. } => Action::Locate("roslyn-language-server".to_string()),
        }
    }

    /// Whether the start can go on from an event.
    pub fn accepts(&self, event: &Event) -> (accepted: bool)
        ensures
            accepted == launch_accepts(self@, event@),
    {
        match (self, event) {
            (Launch::PreparingRazor(setup), Event::Process(result)) => setup.accepts(result),
            _ => true,
        }
    }

    /// How the start goes on after an event.
    pub fn advance(self, event: Event) -> (turn: LaunchTurn)
        requires
            launch_accepts(self@, event@),
        ensures
            turn@ == launch_turn(self@, event@),
    {
        match (self, event) {
            (
                Launch::ReadingEnvironment { razor_root, inherited_path },
                Event::ShellEnvironment(env),
            ) => {
                let search = RoslynOfficial::resolve_dotnet_command(Some(env));
                quiet_turn(
                    LaunchOutcome::Wait(Launch::Searching { search, razor_root, inherited_path }),
                )
            },
            (Launch::Searching { search, razor_root, inherited_path }, event) => {
                let launch = match search.advance(event) {
                    SearchTurn::Wait(search) => Launch::Searching {
                        search,
                        razor_root,
                        inherited_path,
                    },
                    SearchTurn::Found { host, env } => launch_with_host(
                        razor_root,
                        DotnetHost { command: host, env, inherited_path },
                    ),
                };
                quiet_turn(LaunchOutcome::Wait(launch))
            },
            (Launch::PreparingRazor(setup), Event::Process(result)) => {
                let turn = setup.advance(result);
                let outcome = match turn.outcome {
                    RazorOutcome::Wait(setup) => LaunchOutcome::Wait(Launch::PreparingRazor(setup)),
                    RazorOutcome::Ready { host, args } => {
                        let ghost razor_args = args.deep_view();
                        let mut more = args;
                        let mut args = make_base_args();
                        args.append(&mut more);
                        assert(args.deep_view() =~= base_args() + razor_args);
                        LaunchOutcome::Wait(Launch::Locating { host, args })
                    },
                    RazorOutcome::Failed(problem) => LaunchOutcome::Failed(problem),
                };
                LaunchTurn { effects: turn.effects, outcome }
            },
            (Launch::Locating { host, args }, Event::Located(place)) => match place {
                Some(path) => LaunchTurn {
                    effects: set_status(InstallationStatus::CheckingForUpdate),
                    outcome: LaunchOutcome::Wait(Launch::Updating { host, args, path }),
                },
                None => LaunchTurn {
                    effects: set_status(InstallationStatus::Downloading),
                    outcome: LaunchOutcome::Wait(Launch::Downloading { host, args }),
                },
            },
            (Launch::Updating { host, args, path }, Event::Process(result)) => LaunchTurn {
                effects: effects_after_update(&result),
                outcome: LaunchOutcome::Ready(
                    CommandLine { command: path, args, env: host.execution_env() },
                ),
            },
            (Launch::Downloading { host, args }, Event::Process(result)) => {
                let outcome = match download_roslyn_server(&result) {
                    Ok(_) => LaunchOutcome::Wait(Launch::LocatingAgain { host, args }),
                    Err(problem) => LaunchOutcome::Failed(problem),
                };
                quiet_turn(outcome)
            },
            (Launch::LocatingAgain { host, args }, Event::Located(place)) => match place {
                Some(path) => LaunchTurn {
                    effects: set_status(InstallationStatus::Idle),
                    outcome: LaunchOutcome::Ready(
                        CommandLine { command: path, args, env: host.execution_env() },
                    ),
                },
                None => quiet_turn(
                    LaunchOutcome::Failed(
                        "roslyn-language-server not found or unable to install. Please try installing it manually using: 'dotnet tool install --global roslyn-language-server --prerelease'".to_string(),
                    ),
                ),
            },
            (launch, _) => quiet_turn(LaunchOutcome::Wait(launch)),
        }
    }
}

} // verus!
