//! What processes are run with and how their end is read, said of names and values.
use vstd::prelude::*;

use crate::command::{
    dotnet_call, execution_env, or_none, result_view, variable, CommandLine, EnvView,
    ProcessReport, ProcessResult, ReportView,
};
use crate::paths::parent_path;

verus! {

/// A process succeeded exactly if it ended by itself with the exit code 0.
pub proof fn law_only_zero_is_success(report: ReportView)
    ensures
        report.succeeded() <==> (report.status is Some && report.status->0 == 0),
{
}

/// A complaint holds the problem and, whole and in this order, what the process wrote.
pub proof fn law_complaint(report: ReportView, problem: Seq<char>)
    ensures
        report.complaint(problem) == problem + "\nstdout: "@ + report.stdout + "\nstderr: "@
            + report.stderr,
{
}

proof fn lemma_first_variable(env: EnvView, name: Seq<char>, place: int)
    requires
        0 <= place < env.len(),
        env[place].0 == name,
        forall|i: int| 0 <= i < place ==> (#[trigger] env[i]).0 != name,
    ensures
        variable(env, name) == Some(env[place].1),
    decreases place,
{
    if place > 0 {
        assert(env[0].0 != name);
        let rest = env.skip(1);
        assert forall|i: int| 0 <= i < place - 1 implies (#[trigger] rest[i]).0 != name by {
            assert(rest[i] == env[i + 1]);
        }
        assert(rest[place - 1] == env[place]);
        lemma_first_variable(rest, name, place - 1);
    }
}

proof fn lemma_no_variable(env: EnvView, name: Seq<char>)
    requires
        forall|i: int| 0 <= i < env.len() ==> (#[trigger] env[i]).0 != name,
    ensures
        variable(env, name) is None,
    decreases env.len(),
{
    if env.len() > 0 {
        assert(env[0].0 != name);
        let rest = env.skip(1);
        assert forall|i: int| 0 <= i < rest.len() implies (#[trigger] rest[i]).0 != name by {
            assert(rest[i] == env[i + 1]);
        }
        lemma_no_variable(rest, name);
    }
}

/// The value of a variable is that of the first entry that is called so, whole; there is none
/// where no entry is.
pub proof fn law_variable(env: EnvView, name: Seq<char>, place: int)
    ensures
        0 <= place < env.len() && env[place].0 == name && (forall|i: int|
            0 <= i < place ==> (#[trigger] env[i]).0 != name) ==> variable(env, name) == Some(
            env[place].1,
        ),
        (forall|i: int| 0 <= i < env.len() ==> (#[trigger] env[i]).0 != name) ==> variable(
            env,
            name,
        ) is None,
{
    if 0 <= place < env.len() && env[place].0 == name && (forall|i: int|
        0 <= i < place ==> (#[trigger] env[i]).0 != name) {
        lemma_first_variable(env, name, place);
    }
    if forall|i: int| 0 <= i < env.len() ==> (#[trigger] env[i]).0 != name {
        lemma_no_variable(env, name);
    }
}

/// Where the given environment has an entry called `PATH`, the search path of a tied process is
/// the host's directory and then, after a colon, the whole value of the first such entry; the
/// inherited search path plays no part.
pub proof fn law_given_search_path_is_kept_whole(
    dotnet_command: Seq<char>,
    root: Seq<char>,
    env: EnvView,
    place: int,
    inherited_path: Option<Seq<char>>,
)
    requires
        parent_path(dotnet_command) == Some(root),
        0 <= place < env.len(),
        env[place].0 == "PATH"@,
        forall|i: int| 0 <= i < place ==> (#[trigger] env[i]).0 != "PATH"@,
    ensures
        execution_env(dotnet_command, Some(env), inherited_path) == seq![
            ("DOTNET_ROOT"@, root),
            ("DOTNET_HOST_PATH"@, dotnet_command),
            ("PATH"@, root + ":"@ + env[place].1),
        ],
{
    lemma_first_variable(env, "PATH"@, place);
    assert(execution_env(dotnet_command, Some(env), inherited_path) =~= seq![
        ("DOTNET_ROOT"@, root),
        ("DOTNET_HOST_PATH"@, dotnet_command),
        ("PATH"@, root + ":"@ + env[place].1),
    ]);
}

/// Where no environment is given, or one without an entry called `PATH`, the search path of a
/// tied process is the host's directory and then, after a colon, the whole inherited search path.
/// Where there is none of either, none is set.
pub proof fn law_inherited_search_path_is_kept_whole(
    dotnet_command: Seq<char>,
    root: Seq<char>,
    env: Option<EnvView>,
    inherited_path: Option<Seq<char>>,
)
    requires
        parent_path(dotnet_command) == Some(root),
        env is Some ==> forall|i: int|
            0 <= i < env->0.len() ==> (#[trigger] env->0[i]).0 != "PATH"@,
    ensures
        inherited_path is Some ==> execution_env(dotnet_command, env, inherited_path) == seq![
            ("DOTNET_ROOT"@, root),
            ("DOTNET_HOST_PATH"@, dotnet_command),
            ("PATH"@, root + ":"@ + inherited_path->0),
        ],
        inherited_path is None ==> execution_env(dotnet_command, env, inherited_path) == seq![
            ("DOTNET_ROOT"@, root),
            ("DOTNET_HOST_PATH"@, dotnet_command),
        ],
{
    if env is Some {
        lemma_no_variable(env->0, "PATH"@);
    }
    let own = execution_env(dotnet_command, env, inherited_path);
    if inherited_path is Some {
        assert(own =~= seq![
            ("DOTNET_ROOT"@, root),
            ("DOTNET_HOST_PATH"@, dotnet_command),
            ("PATH"@, root + ":"@ + inherited_path->0),
        ]);
    } else {
        assert(own =~= seq![("DOTNET_ROOT"@, root), ("DOTNET_HOST_PATH"@, dotnet_command)]);
    }
}

/// A host that lies in nothing ties a process to nothing.
pub proof fn law_no_root_no_tie(
    dotnet_command: Seq<char>,
    env: Option<EnvView>,
    inherited_path: Option<Seq<char>>,
)
    requires
        parent_path(dotnet_command) is None,
    ensures
        execution_env(dotnet_command, env, inherited_path).len() == 0,
{
}

/// A call of the host runs the host itself with exactly the given arguments. It gets every given
/// variable, and after those the ones that tie it to the host.
pub proof fn law_dotnet_call(
    dotnet_command: Seq<char>,
    env: Option<EnvView>,
    inherited_path: Option<Seq<char>>,
    args: Seq<Seq<char>>,
)
    ensures
        ({
            let call = dotnet_call(dotnet_command, env, inherited_path, args);
            let own = execution_env(dotnet_command, env, inherited_path);
            &&& call.command == dotnet_command
            &&& call.args == args
            &&& env is Some ==> call.env == env->0 + own
            &&& env is None ==> call.env == own
        }),
{
    assert(Seq::<(Seq<char>, Seq<char>)>::empty() + execution_env(
        dotnet_command,
        env,
        inherited_path,
    ) =~= execution_env(dotnet_command, env, inherited_path));
}

/// The given variables are taken as they are.
pub proof fn law_given_variables(env: Option<EnvView>)
    ensures
        env is Some ==> or_none(env) == env->0,
        env is None ==> or_none(env).len() == 0,
{
}

/// The text of a command line shows its program, each argument and each variable.
pub proof fn law_command_line_text(line: CommandLine)
    ensures
        line@.command == line.command@,
        line@.args.len() == line.args@.len(),
        forall|i: int| 0 <= i < line.args@.len() ==> #[trigger] line@.args[i] == line.args@[i]@,
        line@.env.len() == line.env@.len(),
        forall|i: int|
            0 <= i < line.env@.len() ==> #[trigger] line@.env[i] == (
                line.env@[i].0@,
                line.env@[i].1@,
            ),
{
}

/// The text of a process's report shows its exit code and all that it wrote, and that of an
/// attempt to run a process whether it was run, or else why not.
pub proof fn law_report_text(report: ProcessReport, result: ProcessResult)
    ensures
        report@.status == report.status,
        report@.stdout == report.stdout@,
        report@.stderr == report.stderr@,
        result is Ok ==> result_view(result) == Ok::<ReportView, Seq<char>>(result->Ok_0@),
        result is Err ==> result_view(result) == Err::<ReportView, Seq<char>>(result->Err_0@),
{
}

} // verus!
