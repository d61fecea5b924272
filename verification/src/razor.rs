//! The Razor extension: fetching its sources, building it, and the arguments that load it.
use vstd::prelude::*;

use crate::command::{
    dotnet_call, dotnet_execution_env, execution_env, new_dotnet_command, result_view,
    CommandLine, CommandView, EnvVars, EnvView, ProcessResult, ResultView,
};
use crate::events::{Effect, EffectView, InstallationStatus};
use crate::roslyn::RoslynOfficial;
use crate::sdk::{is_readable, listing_readable, sdk_found, DotnetSdk, SdkView};
use crate::version::{first_two_parts, major_and_minor};

verus! {

/// A dotnet host and the environment to run it in.
#[derive(Debug)]
pub struct DotnetHost {
    pub command: String,
    /// The worktree's environment, where that is to be used.
    pub env: Option<EnvVars>,
    /// The search path of this process.
    pub inherited_path: Option<String>,
}

/// The text of a dotnet host and its environment.
#[verifier::ext_equal]
pub struct HostView {
    pub command: Seq<char>,
    pub env: Option<EnvView>,
    pub inherited_path: Option<Seq<char>>,
}

impl View for DotnetHost {
    type V = HostView;

    open spec fn view(&self) -> HostView {
        HostView {
            command: self.command@,
            env: self.env.deep_view(),
            inherited_path: self.inherited_path.deep_view(),
        }
    }
}

impl HostView {
    /// A call of the host.
    pub open spec fn call(self, args: Seq<Seq<char>>) -> CommandView {
        dotnet_call(self.command, self.env, self.inherited_path, args)
    }

    /// The variables that tie a process to the host.
    pub open spec fn execution_env(self) -> EnvView {
        execution_env(self.command, self.env, self.inherited_path)
    }
}

impl DotnetHost {
    /// A call of the host, as yet without arguments.
    pub fn new_command(&self) -> (line: CommandLine)
        ensures
            line@ == self@.call(Seq::empty()),
    {
        new_dotnet_command(self.command.as_str(), self.env.as_ref(), self.inherited_path.as_ref())
    }

    /// The variables that tie a process to the host.
    pub fn execution_env(&self) -> (env: EnvVars)
        ensures
            env.deep_view() == self@.execution_env(),
    {
        dotnet_execution_env(
            self.command.as_str(),
            self.env.as_ref(),
            self.inherited_path.as_ref(),
        )
    }
}

/// The place of the Razor compiler in an SDK.
pub open spec fn compiler_dll(sdk_path: Seq<char>) -> Seq<char> {
    sdk_path
        + "/Sdks/Microsoft.NET.Sdk.Razor/source-generators/Microsoft.CodeAnalysis.Razor.Compiler.dll"@
}

/// The place of Razor's design-time targets in an SDK.
pub open spec fn design_time_targets(sdk_path: Seq<char>) -> Seq<char> {
    sdk_path
        + "/Sdks/Microsoft.NET.Sdk.Razor/targets/Microsoft.NET.Sdk.Razor.DesignTime.targets"@
}

/// The project file of the Razor extension in its sources.
pub open spec fn extension_project(root: Seq<char>) -> Seq<char> {
    root
        + "/src/Razor/src/Microsoft.VisualStudioCode.RazorExtension/Microsoft.VisualStudioCode.RazorExtension.csproj"@
}

/// The place of the Razor extension once it was built with an SDK of the given version. The
/// directory is called by the first two parts of the version.
pub open spec fn extension_dll(root: Seq<char>, sdk_version: Seq<char>) -> Seq<char> {
    root + "/artifacts/bin/Microsoft.VisualStudioCode.RazorExtension/Release/net"@
        + first_two_parts(sdk_version) + "/Microsoft.VisualStudioCode.RazorExtension.dll"@
}

/// The arguments that make the server load the Razor extension.
pub open spec fn razor_args(root: Seq<char>, sdk: SdkView) -> Seq<Seq<char>> {
    seq![
        "--extension"@,
        extension_dll(root, sdk.version),
        "--razorSourceGenerator"@,
        compiler_dll(sdk.path),
        "--razorDesignTimePath"@,
        design_time_targets(sdk.path),
    ]
}

/// What the setup waits for: the end of a process.
#[derive(Debug)]
pub enum RazorStep {
    ListingSdks,
    CheckingRepository(DotnetSdk),
    Resetting(DotnetSdk),
    Pulling(DotnetSdk),
    Cloning(DotnetSdk),
    Building(DotnetSdk),
}

/// The text of what the setup waits for.
#[verifier::ext_equal]
pub enum RazorStepView {
    ListingSdks,
    CheckingRepository(SdkView),
    Resetting(SdkView),
    Pulling(SdkView),
    Cloning(SdkView),
    Building(SdkView),
}

impl View for RazorStep {
    type V = RazorStepView;

    open spec fn view(&self) -> RazorStepView {
        match self {
            RazorStep::ListingSdks => RazorStepView::ListingSdks,
            RazorStep::CheckingRepository(sdk) => RazorStepView::CheckingRepository(sdk@),
            RazorStep::Resetting(sdk) => RazorStepView::Resetting(sdk@),
            RazorStep::Pulling(sdk) => RazorStepView::Pulling(sdk@),
            RazorStep::Cloning(sdk) => RazorStepView::Cloning(sdk@),
            RazorStep::Building(sdk) => RazorStepView::Building(sdk@),
        }
    }
}

/// The setup of the Razor extension from the sources in the directory `root`.
#[derive(Debug)]
pub struct RazorSetup {
    pub root: String,
    pub host: DotnetHost,
    pub step: RazorStep,
}

/// The text of the setup.
#[verifier::ext_equal]
pub struct RazorView {
    pub root: Seq<char>,
    pub host: HostView,
    pub step: RazorStepView,
}

impl View for RazorSetup {
    type V = RazorView;

    open spec fn view(&self) -> RazorView {
        RazorView { root: self.root@, host: self.host@, step: self.step@ }
    }
}

/// How the setup goes on.
#[derive(Debug)]
pub enum RazorOutcome {
    Wait(RazorSetup),
    /// The arguments for the server. The host is handed back.
    Ready { host: DotnetHost, args: Vec<String> },
    Failed(String),
}

/// The text of how the setup goes on.
#[verifier::ext_equal]
pub enum RazorOutcomeView {
    Wait(RazorView),
    Ready { host: HostView, args: Seq<Seq<char>> },
    Failed(Seq<char>),
}

impl View for RazorOutcome {
    type V = RazorOutcomeView;

    open spec fn view(&self) -> RazorOutcomeView {
        match self {
            RazorOutcome::Wait(setup) => RazorOutcomeView::Wait(setup@),
            RazorOutcome::Ready { host, args } => RazorOutcomeView::Ready {
                host: host@,
                args: args.deep_view(),
            },
            RazorOutcome::Failed(problem) => RazorOutcomeView::Failed(problem@),
        }
    }
}

/// A turn of the setup: what is done at once, and then how it goes on.
#[derive(Debug)]
pub struct RazorTurn {
    pub effects: Vec<Effect>,
    pub outcome: RazorOutcome,
}

/// The text of a turn of the setup.
#[verifier::ext_equal]
pub struct RazorTurnView {
    pub effects: Seq<EffectView>,
    pub outcome: RazorOutcomeView,
}

impl View for RazorTurn {
    type V = RazorTurnView;

    open spec fn view(&self) -> RazorTurnView {
        RazorTurnView { effects: self.effects.deep_view(), outcome: self.outcome@ }
    }
}

/// A call of a program that gets no variables of its own.
pub open spec fn plain_call(program: Seq<char>, args: Seq<Seq<char>>) -> CommandView {
    CommandView { command: program, args: args, env: Seq::empty() }
}

/// The process that the setup waits for.
pub open spec fn razor_command(setup: RazorView) -> CommandView {
    match setup.step {
        RazorStepView::ListingSdks => setup.host.call(seq!["--list-sdks"@]),
        RazorStepView::CheckingRepository(_) => plain_call("test"@, seq!["-d"@, setup.root]),
        RazorStepView::Resetting(_) => plain_call(
            "git"@,
            seq!["-C"@, setup.root, "reset"@, "--hard"@],
        ),
        RazorStepView::Pulling(_) => plain_call("git"@, seq!["-C"@, setup.root, "pull"@]),
        RazorStepView::Cloning(_) => plain_call(
            "git"@,
            seq!["clone"@, "https://github.com/dotnet/razor"@, setup.root],
        ),
        RazorStepView::Building(_) => setup.host.call(
            seq!["build"@, extension_project(setup.root), "--configuration"@, "Release"@],
        ),
    }
}

/// Whether a process's end is one that the setup can go on from, be it to fail: a listing of SDKs
/// can be read, and the check of the repository was not stopped by a signal.
pub open spec fn razor_accepts(setup: RazorView, result: ResultView) -> bool {
    match setup.step {
        RazorStepView::ListingSdks => listing_readable(result),
        RazorStepView::CheckingRepository(_) => result is Ok ==> result->Ok_0.status is Some,
        _ => true,
    }
}

/// The same setup, waiting for something else.
pub open spec fn razor_at(setup: RazorView, step: RazorStepView) -> RazorOutcomeView {
    RazorOutcomeView::Wait(RazorView { step: step, ..setup })
}

/// How the setup goes on once a process has ended. A process that could not be run ends it.
/// Sources that are there are reset and brought up to date, which may fail; others are cloned,
/// which may not. Then the extension is built.
pub open spec fn razor_turn(setup: RazorView, result: ResultView) -> RazorTurnView {
    match result {
        Err(problem) => RazorTurnView {
            effects: Seq::empty(),
            outcome: RazorOutcomeView::Failed(problem),
        },
        Ok(report) => match setup.step {
            RazorStepView::ListingSdks => RazorTurnView {
                effects: Seq::empty(),
                outcome: match sdk_found(result) {
                    Ok(sdk) => razor_at(setup, RazorStepView::CheckingRepository(sdk)),
                    Err(problem) => RazorOutcomeView::Failed(problem),
                },
            },
            RazorStepView::CheckingRepository(sdk) => if report.succeeded() {
                RazorTurnView {
                    effects: seq![EffectView::SetStatus(InstallationStatus::CheckingForUpdate)],
                    outcome: razor_at(setup, RazorStepView::Resetting(sdk)),
                }
            } else {
                RazorTurnView {
                    effects: seq![EffectView::SetStatus(InstallationStatus::Downloading)],
                    outcome: razor_at(setup, RazorStepView::Cloning(sdk)),
                }
            },
            RazorStepView::Resetting(sdk) => RazorTurnView {
                effects: Seq::empty(),
                outcome: if report.succeeded() {
                    razor_at(setup, RazorStepView::Pulling(sdk))
                } else {
                    RazorOutcomeView::Failed(
                        "Unable to reset razor git repository. Git installed?"@,
                    )
                },
            },
            RazorStepView::Pulling(sdk) => RazorTurnView {
                effects: if report.succeeded() {
                    seq![EffectView::SetStatus(InstallationStatus::Idle)]
                } else {
                    seq![
                        EffectView::SetStatus(InstallationStatus::Idle),
                        EffectView::Print(
                            "Unable to pull latest changes in razor repository. Offline?"@,
                        ),
                    ]
                },
                outcome: razor_at(setup, RazorStepView::Building(sdk)),
            },
            RazorStepView::Cloning(sdk) => RazorTurnView {
                effects: seq![EffectView::SetStatus(InstallationStatus::Idle)],
                outcome: if report.succeeded() {
                    razor_at(setup, RazorStepView::Building(sdk))
                } else {
                    RazorOutcomeView::Failed(
                        "Unable to clone razor git repository. For this initial setup step, an internet connection is required."@,
                    )
                },
            },
            RazorStepView::Building(sdk) => RazorTurnView {
                effects: Seq::empty(),
                outcome: if report.succeeded() {
                    RazorOutcomeView::Ready {
                        host: setup.host,
                        args: razor_args(setup.root, sdk),
                    }
                } else {
                    RazorOutcomeView::Failed(
                        report.complaint("Unable to build razor extension."@),
                    )
                },
            },
        },
    }
}

/// No effects.
pub fn no_effects() -> (effects: Vec<Effect>)
    ensures
        effects.deep_view() == Seq::<EffectView>::empty(),
{
    let effects: Vec<Effect> = Vec::new();
    assert(effects.deep_view() =~= Seq::empty());
    effects
}

/// A change of the installation status.
pub fn set_status(status: InstallationStatus) -> (effects: Vec<Effect>)
    ensures
        effects.deep_view() == seq![EffectView::SetStatus(status)],
{
    let mut effects: Vec<Effect> = Vec::new();
    effects.push(Effect::SetStatus(status));
    assert(effects.deep_view() =~= seq![EffectView::SetStatus(status)]);
    effects
}

impl RoslynOfficial {
    /// The place of the Razor compiler in the SDK at `sdk_path`.
    pub fn find_razor_compiler_dll(sdk_path: &str) -> (path: String)
        ensures
            path@ == compiler_dll(sdk_path@),
    {
        sdk_path.to_string().concat(
            "/Sdks/Microsoft.NET.Sdk.Razor/source-generators/Microsoft.CodeAnalysis.Razor.Compiler.dll",
        )
    }

    /// The place of Razor's design-time targets in the SDK at `sdk_path`.
    pub fn find_razor_design_time_targets(sdk_path: &str) -> (path: String)
        ensures
            path@ == design_time_targets(sdk_path@),
    {
        sdk_path.to_string().concat(
            "/Sdks/Microsoft.NET.Sdk.Razor/targets/Microsoft.NET.Sdk.Razor.DesignTime.targets",
        )
    }

    /// Starts the setup of the Razor extension, if the settings name a directory for its sources.
    /// Else the host is handed back: there is no Razor support then, which is no failure.
    pub fn install_or_update_razor(
        razor_root: Option<String>,
        host: DotnetHost,
    ) -> (setup: Result<RazorSetup, DotnetHost>)
        ensures
            setup is Ok <==> razor_root is Some,
            setup is Ok ==> setup->Ok_0@ == (RazorView {
                root: razor_root->0@,
                host: host@,
                step: RazorStepView::ListingSdks,
            }),
            setup is Err ==> setup->Err_0 == host,
    {
        match razor_root {
            Some(root) => Ok(RazorSetup { root, host, step: RazorStep::ListingSdks }),
            None => Err(host),
        }
    }
}

/// The arguments that make the server load the Razor extension.
pub fn make_razor_args(root: &str, sdk: &DotnetSdk) -> (args: Vec<String>)
    ensures
        args.deep_view() == razor_args(root@, sdk@),
{
    let extension = root.to_string().concat(
        "/artifacts/bin/Microsoft.VisualStudioCode.RazorExtension/Release/net",
    ).concat(major_and_minor(sdk.version.as_str()).as_str()).concat(
        "/Microsoft.VisualStudioCode.RazorExtension.dll",
    );
    let mut args: Vec<String> = Vec::new();
    args.push("--extension".to_string());
    args.push(extension);
    args.push("--razorSourceGenerator".to_string());
    args.push(RoslynOfficial::find_razor_compiler_dll(sdk.path.as_str()));
    args.push("--razorDesignTimePath".to_string());
    args.push(RoslynOfficial::find_razor_design_time_targets(sdk.path.as_str()));
    assert(args.deep_view() =~= razor_args(root@, sdk@));
    args
}

impl RazorSetup {
    /// The process that the setup waits for.
    pub fn command(&self) -> (line: CommandLine)
        ensures
            line@ == razor_command(self@),
    {
        let root = self.root.as_str();
        let line = match &self.step {
            RazorStep::ListingSdks => self.host.new_command().arg("--list-sdks"),
            RazorStep::CheckingRepository(_) => CommandLine::new("test").arg("-d").arg(root),
            RazorStep::Resetting(_) => CommandLine::new("git").arg("-C").arg(root).arg("reset").arg(
                "--hard",
            ),
            RazorStep::Pulling(_) => CommandLine::new("git").arg("-C").arg(root).arg("pull"),
            RazorStep::Cloning(_) => CommandLine::new("git").arg("clone").arg(
                "https://github.com/dotnet/razor",
            ).arg(root),
            RazorStep::Building(_) => {
                let project = root.to_string().concat(
                    "/src/Razor/src/Microsoft.VisualStudioCode.RazorExtension/Microsoft.VisualStudioCode.RazorExtension.csproj",
                );
                self.host.new_command().arg("build").arg(project.as_str()).arg(
                    "--configuration",
                ).arg("Release")
            },
        };
        assert(line@.args =~= razor_command(self@).args);
        line
    }

    /// Whether the setup can go on from a process's end.
    pub fn accepts(&self, result: &ProcessResult) -> (accepted: bool)
        ensures
            accepted == razor_accepts(self@, result_view(*result)),
    {
        match (&self.step, result) {
            (RazorStep::ListingSdks, Ok(report)) => !report.succeeded() || is_readable(
                report.stdout.as_str(),
            ),
            (RazorStep::CheckingRepository(_), Ok(report)) => report.status.is_some(),
            _ => true,
        }
    }

    /// How the setup goes on once the process has ended.
    pub fn advance(self, result: ProcessResult) -> (turn: RazorTurn)
        requires
            razor_accepts(self@, result_view(result)),
        ensures
            turn@ == razor_turn(self@, result_view(result)),
    {
        let root = self.root;
        let host = self.host;
        let report = match &result {
            Ok(report) => report,
            Err(problem) => {
                return RazorTurn {
                    effects: no_effects(),
                    outcome: RazorOutcome::Failed(problem.clone()),
                };
            },
        };
        match self.step {
            RazorStep::ListingSdks => {
                let outcome = match RoslynOfficial::find_dotnet_sdk_path(&result) {
                    Ok(sdk) => RazorOutcome::Wait(
                        RazorSetup { root, host, step: RazorStep::CheckingRepository(sdk) },
                    ),
                    Err(problem) => RazorOutcome::Failed(problem),
                };
                RazorTurn { effects: no_effects(), outcome }
            },
            RazorStep::CheckingRepository(sdk) => {
                if report.succeeded() {
                    RazorTurn {
                        effects: set_status(InstallationStatus::CheckingForUpdate),
                        outcome: RazorOutcome::Wait(
                            RazorSetup { root, host, step: RazorStep::Resetting(sdk) },
                        ),
                    }
                } else {
                    RazorTurn {
                        effects: set_status(InstallationStatus::Downloading),
                        outcome: RazorOutcome::Wait(
                            RazorSetup { root, host, step: RazorStep::Cloning(sdk) },
                        ),
                    }
                }
            },
            RazorStep::Resetting(sdk) => {
                let outcome = if report.succeeded() {
                    RazorOutcome::Wait(RazorSetup { root, host, step: RazorStep::Pulling(sdk) })
                } else {
                    RazorOutcome::Failed(
                        "Unable to reset razor git repository. Git installed?".to_string(),
                    )
                };
                RazorTurn { effects: no_effects(), outcome }
            },
            RazorStep::Pulling(sdk) => {
                let mut effects = set_status(InstallationStatus::Idle);
                if !report.succeeded() {
                    let ghost before = effects.deep_view();
                    effects.push(
                        Effect::Print(
                            "Unable to pull latest changes in razor repository. Offline?".to_string(),
                        ),
                    );
                    assert(effects.deep_view() =~= before.push(
                        EffectView::Print(
                            "Unable to pull latest changes in razor repository. Offline?"@,
                        ),
                    ));
                }
                RazorTurn {
                    effects,
                    outcome: RazorOutcome::Wait(
                        RazorSetup { root, host, step: RazorStep::Building(sdk) },
                    ),
                }
            },
            RazorStep::Cloning(sdk) => {
                let outcome = if report.succeeded() {
                    RazorOutcome::Wait(RazorSetup { root, host, step: RazorStep::Building(sdk) })
                } else {
                    RazorOutcome::Failed(
                        "Unable to clone razor git repository. For this initial setup step, an internet connection is required.".to_string(),
                    )
                };
                RazorTurn { effects: set_status(InstallationStatus::Idle), outcome }
            },
            RazorStep::Building(sdk) => {
                let outcome = if report.succeeded() {
                    RazorOutcome::Ready { host, args: make_razor_args(root.as_str(), &sdk) }
                } else {
                    RazorOutcome::Failed(report.complaint("Unable to build razor extension."))
                };
                RazorTurn { effects: no_effects(), outcome }
            },
        }
    }
}

} // verus!
