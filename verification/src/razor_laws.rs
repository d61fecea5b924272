//! What the setup of Razor runs, does and ends with, said of roots, versions and exit codes.
use vstd::prelude::*;

use crate::command::{execution_env, CommandView, ReportView, ResultView};
use crate::command_laws::law_dotnet_call;
use crate::events::{EffectView, InstallationStatus};
use crate::razor::{
    razor_accepts, razor_args, razor_command, razor_turn, HostView, RazorOutcomeView,
    RazorStepView, RazorView,
};
use crate::sdk::{listing_readable, sdk_found, SdkView};
use crate::text::split;
use crate::version::law_first_two_parts;
use crate::version_laws::law_short_version;

verus! {

/// A call of the host runs it with exactly the given arguments, in the given environment and then
/// the variables that tie it to the host.
pub proof fn law_host_call(host: HostView, args: Seq<Seq<char>>)
    ensures
        ({
            let own = execution_env(host.command, host.env, host.inherited_path);
            &&& host.execution_env() == own
            &&& host.call(args).command == host.command
            &&& host.call(args).args == args
            &&& host.env is Some ==> host.call(args).env == host.env->0 + own
            &&& host.env is None ==> host.call(args).env == own
        }),
{
    law_dotnet_call(host.command, host.env, host.inherited_path, args);
}

/// The arguments that load Razor: three switches, and after each the place that it is about. The
/// extension lies under the root in a directory that is called `net` and then by the first two of
/// the parts of the SDK's version, whole and with their dot, or by its only part; the others lie
/// in the SDK's directory.
pub proof fn law_razor_args(root: Seq<char>, sdk: SdkView)
    ensures
        ({
            let parts = split(sdk.version, '.');
            let args = razor_args(root, sdk);
            &&& args.len() == 6
            &&& args[0] == "--extension"@
            &&& args[1] == root
                + "/artifacts/bin/Microsoft.VisualStudioCode.RazorExtension/Release/net"@ + (
            if parts.len() == 1 {
                parts[0]
            } else {
                parts[0] + seq!['.'] + parts[1]
            }) + "/Microsoft.VisualStudioCode.RazorExtension.dll"@
            &&& args[2] == "--razorSourceGenerator"@
            &&& args[3] == sdk.path
                + "/Sdks/Microsoft.NET.Sdk.Razor/source-generators/Microsoft.CodeAnalysis.Razor.Compiler.dll"@
            &&& args[4] == "--razorDesignTimePath"@
            &&& args[5] == sdk.path
                + "/Sdks/Microsoft.NET.Sdk.Razor/targets/Microsoft.NET.Sdk.Razor.DesignTime.targets"@
        }),
{
    law_first_two_parts(sdk.version);
}

/// What follows the second dot of the SDK's version makes no difference to where the extension
/// lies, and everything before it stands in the place.
pub proof fn law_extension_place(
    root: Seq<char>,
    sdk_path: Seq<char>,
    major: Seq<char>,
    minor: Seq<char>,
    rest: Seq<char>,
)
    requires
        !major.contains('.'),
        !minor.contains('.'),
        rest.len() > 0 ==> rest[0] == '.',
    ensures
        razor_args(
            root,
            SdkView { path: sdk_path, version: major + seq!['.'] + minor + rest },
        )[1] == root + "/artifacts/bin/Microsoft.VisualStudioCode.RazorExtension/Release/net"@ + (
        major + seq!['.'] + minor) + "/Microsoft.VisualStudioCode.RazorExtension.dll"@,
        razor_args(root, SdkView { path: sdk_path, version: major })[1] == root
            + "/artifacts/bin/Microsoft.VisualStudioCode.RazorExtension/Release/net"@ + major
            + "/Microsoft.VisualStudioCode.RazorExtension.dll"@,
{
    law_short_version(major, minor, rest);
}

/// What is run in each state of the setup: dotnet to list the SDKs and to build, with the chosen
/// host and its environment; the rest without variables of its own, on the root that was given.
pub proof fn law_razor_commands(setup: RazorView)
    ensures
        match setup.step {
            RazorStepView::ListingSdks => razor_command(setup) == setup.host.call(
                seq!["--list-sdks"@],
            ),
            RazorStepView::CheckingRepository(_) => razor_command(setup) == (CommandView {
                command: "test"@,
                args: seq!["-d"@, setup.root],
                env: Seq::empty(),
            }),
            RazorStepView::Resetting(_) => razor_command(setup) == (CommandView {
                command: "git"@,
                args: seq!["-C"@, setup.root, "reset"@, "--hard"@],
                env: Seq::empty(),
            }),
            RazorStepView::Pulling(_) => razor_command(setup) == (CommandView {
                command: "git"@,
                args: seq!["-C"@, setup.root, "pull"@],
                env: Seq::empty(),
            }),
            RazorStepView::Cloning(_) => razor_command(setup) == (CommandView {
                command: "git"@,
                args: seq!["clone"@, "https://github.com/dotnet/razor"@, setup.root],
                env: Seq::empty(),
            }),
            RazorStepView::Building(_) => razor_command(setup) == setup.host.call(
                seq![
                    "build"@,
                    setup.root
                        + "/src/Razor/src/Microsoft.VisualStudioCode.RazorExtension/Microsoft.VisualStudioCode.RazorExtension.csproj"@,
                    "--configuration"@,
                    "Release"@,
                ],
            ),
        },
{
}

/// The setup can go on from every end of a process but two: a successful listing of SDKs that
/// cannot be read, and a check of the repository that was stopped by a signal.
pub proof fn law_razor_accepts(setup: RazorView, result: ResultView)
    ensures
        razor_accepts(setup, result) <==> !(result is Ok && ((setup.step is ListingSdks
            && !listing_readable(result)) || (setup.step is CheckingRepository
            && result->Ok_0.status is None))),
{
}

/// A process that could not be run ends the setup for the reason that was given, and nothing else
/// is done.
pub proof fn law_unrun_process_ends_the_setup(setup: RazorView, problem: Seq<char>)
    ensures
        razor_turn(setup, Err(problem)).outcome == RazorOutcomeView::Failed(problem),
        razor_turn(setup, Err(problem)).effects.len() == 0,
{
}

/// Whatever a process did, a setup that goes on keeps its root and its host, and, once it is
/// known, its SDK.
pub proof fn law_razor_keeps_what_it_was_given(setup: RazorView, result: ResultView)
    ensures
        match razor_turn(setup, result).outcome {
            RazorOutcomeView::Wait(next) => {
                &&& next.root == setup.root
                &&& next.host == setup.host
                &&& match (setup.step, next.step) {
                    (
                        RazorStepView::ListingSdks,
                        RazorStepView::CheckingRepository(sdk),
                    ) => sdk_found(result) == Ok::<SdkView, Seq<char>>(sdk),
                    (
                        RazorStepView::CheckingRepository(sdk),
                        RazorStepView::Resetting(kept),
                    ) => kept == sdk,
                    (
                        RazorStepView::CheckingRepository(sdk),
                        RazorStepView::Cloning(kept),
                    ) => kept == sdk,
                    (RazorStepView::Resetting(sdk), RazorStepView::Pulling(kept)) => kept == sdk,
                    (RazorStepView::Pulling(sdk), RazorStepView::Building(kept)) => kept == sdk,
                    (RazorStepView::Cloning(sdk), RazorStepView::Building(kept)) => kept == sdk,
                    _ => false,
                }
            },
            RazorOutcomeView::Ready { host, args } => {
                &&& host == setup.host
                &&& setup.step matches RazorStepView::Building(sdk) && args == razor_args(
                    setup.root,
                    sdk,
                )
            },
            RazorOutcomeView::Failed(_) => true,
        },
{
}

/// A listing of SDKs leads on exactly if it gives an SDK, and else ends the setup for the reason
/// why it gives none.
pub proof fn law_after_the_listing(setup: RazorView, report: ReportView)
    requires
        setup.step is ListingSdks,
    ensures
        ({
            let turn = razor_turn(setup, Ok(report));
            &&& turn.effects.len() == 0
            &&& sdk_found(Ok(report)) is Ok ==> turn.outcome is Wait
            &&& sdk_found(Ok(report)) is Err ==> turn.outcome == RazorOutcomeView::Failed(
                sdk_found(Ok(report))->Err_0,
            )
        }),
{
}

/// The exit code 0 of the check, and no other, says that the sources are there. Then they are
/// reset; else they are cloned. The status says which.
pub proof fn law_after_the_check(setup: RazorView, report: ReportView)
    requires
        setup.step is CheckingRepository,
    ensures
        ({
            let turn = razor_turn(setup, Ok(report));
            &&& turn.outcome is Wait
            &&& report.status == Some(0i32) ==> turn.outcome->Wait_0.step is Resetting
                && turn.effects == seq![
                EffectView::SetStatus(InstallationStatus::CheckingForUpdate),
            ]
            &&& report.status != Some(0i32) ==> turn.outcome->Wait_0.step is Cloning && turn.effects
                == seq![EffectView::SetStatus(InstallationStatus::Downloading)]
        }),
{
}

/// A reset that ends with anything but the exit code 0 ends the setup.
pub proof fn law_after_the_reset(setup: RazorView, report: ReportView)
    requires
        setup.step is Resetting,
    ensures
        ({
            let turn = razor_turn(setup, Ok(report));
            &&& turn.effects.len() == 0
            &&& report.status == Some(0i32) ==> turn.outcome is Wait && turn.outcome->Wait_0.step
                is Pulling
            &&& report.status != Some(0i32) ==> turn.outcome == RazorOutcomeView::Failed(
                "Unable to reset razor git repository. Git installed?"@,
            )
        }),
{
}

/// However a pull ends, the build comes next and the status is cleared. That it failed is printed.
pub proof fn law_after_the_pull(setup: RazorView, report: ReportView)
    requires
        setup.step is Pulling,
    ensures
        ({
            let turn = razor_turn(setup, Ok(report));
            &&& turn.outcome is Wait
            &&& turn.outcome->Wait_0.step is Building
            &&& turn.effects.len() == (if report.status == Some(0i32) {
                1nat
            } else {
                2nat
            })
            &&& turn.effects[0] == EffectView::SetStatus(InstallationStatus::Idle)
            &&& report.status != Some(0i32) ==> turn.effects[1] == EffectView::Print(
                "Unable to pull latest changes in razor repository. Offline?"@,
            )
        }),
{
}

/// However a clone ends, the status is cleared. One that ends with anything but the exit code 0
/// ends the setup.
pub proof fn law_after_the_clone(setup: RazorView, report: ReportView)
    requires
        setup.step is Cloning,
    ensures
        ({
            let turn = razor_turn(setup, Ok(report));
            &&& turn.effects == seq![EffectView::SetStatus(InstallationStatus::Idle)]
            &&& report.status == Some(0i32) ==> turn.outcome is Wait && turn.outcome->Wait_0.step
                is Building
            &&& report.status != Some(0i32) ==> turn.outcome == RazorOutcomeView::Failed(
                "Unable to clone razor git repository. For this initial setup step, an internet connection is required."@,
            )
        }),
{
}

/// A build that ends with the exit code 0, and no other, makes Razor ready. Else the reason holds
/// all that the build wrote.
pub proof fn law_after_the_build(setup: RazorView, report: ReportView)
    requires
        setup.step is Building,
    ensures
        ({
            let turn = razor_turn(setup, Ok(report));
            &&& turn.effects.len() == 0
            &&& report.status == Some(0i32) ==> turn.outcome is Ready
            &&& report.status != Some(0i32) ==> turn.outcome == RazorOutcomeView::Failed(
                "Unable to build razor extension."@ + "\nstdout: "@ + report.stdout
                    + "\nstderr: "@ + report.stderr,
            )
        }),
{
}

} // verus!
