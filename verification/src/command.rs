//! Command lines, their environment, and what comes back from a process.
use vstd::prelude::*;
use vstd::utf8::{decode_utf8, valid_utf8};

use crate::paths::{parent, parent_path};

verus! {

/// Environment variables: names and values, in the order in which they are set.
pub type EnvVars = Vec<(String, String)>;

/// The text of environment variables.
pub type EnvView = Seq<(Seq<char>, Seq<char>)>;

/// A program to run.
#[derive(Debug)]
pub struct CommandLine {
    pub command: String,
    pub args: Vec<String>,
    pub env: EnvVars,
}

/// The text of a command line.
#[verifier::ext_equal]
pub struct CommandView {
    pub command: Seq<char>,
    pub args: Seq<Seq<char>>,
    pub env: EnvView,
}

impl View for CommandLine {
    type V = CommandView;

    open spec fn view(&self) -> CommandView {
        CommandView {
            command: self.command@,
            args: self.args.deep_view(),
            env: self.env.deep_view(),
        }
    }
}

/// What a process left behind: its exit code, if it was not stopped by a signal, and what it
/// wrote.
#[derive(Debug)]
pub struct ProcessReport {
    pub status: Option<i32>,
    pub stdout: String,
    pub stderr: String,
}

/// The text of a process's report.
#[verifier::ext_equal]
pub struct ReportView {
    pub status: Option<i32>,
    pub stdout: Seq<char>,
    pub stderr: Seq<char>,
}

impl View for ProcessReport {
    type V = ReportView;

    open spec fn view(&self) -> ReportView {
        ReportView { status: self.status, stdout: self.stdout@, stderr: self.stderr@ }
    }
}

impl ReportView {
    /// Whether the process ended by itself and without an error.
    pub open spec fn succeeded(self) -> bool {
        self.status == Some(0i32)
    }

    /// `problem`, and below it what the process wrote.
    pub open spec fn complaint(self, problem: Seq<char>) -> Seq<char> {
        problem + "\nstdout: "@ + self.stdout + "\nstderr: "@ + self.stderr
    }
}

/// The outcome of an attempt to run a process: its report, or why it could not be run.
pub type ProcessResult = Result<ProcessReport, String>;

/// The text of the outcome of an attempt to run a process.
pub type ResultView = Result<ReportView, Seq<char>>;

pub open spec fn result_view(result: ProcessResult) -> ResultView {
    match result {
        Ok(report) => Ok(report@),
        Err(problem) => Err(problem@),
    }
}

/// The text that bytes stand for, with replacement characters for what is no UTF-8.
pub uninterp spec fn utf8_lossy(bytes: Seq<u8>) -> Seq<char>;

/// Calls `String::from_utf8_lossy`. Claims that the text depends on the bytes alone, that bytes
/// which are UTF-8 are decoded as such, and that in any others a replacement character stands in
/// for something. How many of them stand where is not said.
#[verifier::external_body]
fn decode_lossy(bytes: &Vec<u8>) -> (text: String)
    ensures
        text@ == utf8_lossy(bytes@),
        valid_utf8(bytes@) ==> text@ == decode_utf8(bytes@),
        !valid_utf8(bytes@) ==> text@.contains('\u{fffd}'),
{
    String::from_utf8_lossy(bytes).into_owned()
}

/// The value of the first of the variables that is called `name`.
pub open spec fn variable(env: EnvView, name: Seq<char>) -> Option<Seq<char>>
    decreases env.len(),
{
    if env.len() == 0 {
        None
    } else if env[0].0 == name {
        Some(env[0].1)
    } else {
        variable(env.skip(1), name)
    }
}

/// The search path that a dotnet process starts from: that of the given environment where it has
/// one, else the inherited one.
pub open spec fn current_path(
    env: Option<EnvView>,
    inherited_path: Option<Seq<char>>,
) -> Option<Seq<char>> {
    match env {
        Some(vars) if variable(vars, "PATH"@) is Some => variable(vars, "PATH"@),
        _ => inherited_path,
    }
}

/// The variables that make a child process use the dotnet host `dotnet_command` and no other:
/// its directory is the root and comes first in the search path.
pub open spec fn execution_env(
    dotnet_command: Seq<char>,
    env: Option<EnvView>,
    inherited_path: Option<Seq<char>>,
) -> EnvView {
    match parent_path(dotnet_command) {
        None => Seq::empty(),
        Some(root) => {
            let host = seq![("DOTNET_ROOT"@, root), ("DOTNET_HOST_PATH"@, dotnet_command)];
            match current_path(env, inherited_path) {
                Some(path) => host.push(("PATH"@, root + ":"@ + path)),
                None => host,
            }
        },
    }
}

/// The given variables, or none.
pub open spec fn or_none(env: Option<EnvView>) -> EnvView {
    match env {
        Some(vars) => vars,
        None => Seq::empty(),
    }
}

/// A call of the dotnet host: the given environment, and then the variables that tie it to the
/// host.
pub open spec fn dotnet_call(
    dotnet_command: Seq<char>,
    env: Option<EnvView>,
    inherited_path: Option<Seq<char>>,
    args: Seq<Seq<char>>,
) -> CommandView {
    CommandView {
        command: dotnet_command,
        args: args,
        env: or_none(env) + execution_env(dotnet_command, env, inherited_path),
    }
}

impl ProcessReport {
    /// The report of a process that ended with `status` and wrote the given bytes.
    pub fn new(status: Option<i32>, stdout: &Vec<u8>, stderr: &Vec<u8>) -> (report: Self)
        ensures
            report.status == status,
            report.stdout@ == utf8_lossy(stdout@),
            report.stderr@ == utf8_lossy(stderr@),
            valid_utf8(stdout@) ==> report.stdout@ == decode_utf8(stdout@),
            valid_utf8(stderr@) ==> report.stderr@ == decode_utf8(stderr@),
            !valid_utf8(stdout@) ==> report.stdout@.contains('\u{fffd}'),
            !valid_utf8(stderr@) ==> report.stderr@.contains('\u{fffd}'),
    {
        ProcessReport { status, stdout: decode_lossy(stdout), stderr: decode_lossy(stderr) }
    }

    /// Whether the process ended by itself and without an error.
    pub fn succeeded(&self) -> (success: bool)
        ensures
            success == self@.succeeded(),
    {
        match self.status {
            Some(code) => code == 0,
            None => false,
        }
    }

    /// `problem`, and below it what the process wrote.
    pub fn complaint(&self, problem: &str) -> (text: String)
        ensures
            text@ == self@.complaint(problem@),
    {
        problem.to_string().concat("\nstdout: ").concat(self.stdout.as_str()).concat(
            "\nstderr: ",
        ).concat(self.stderr.as_str())
    }
}

/// A copy of the variables.
pub fn copy_env(env: &EnvVars) -> (copy: EnvVars)
    ensures
        copy.deep_view() == env.deep_view(),
{
    let mut copy: EnvVars = Vec::new();
    let mut i: usize = 0;
    while i < env.len()
        invariant
            i <= env.len(),
            copy.deep_view() == env.deep_view().take(i as int),
        decreases env.len() - i,
    {
        let ghost before = copy.deep_view();
        copy.push((env[i].0.clone(), env[i].1.clone()));
        assert(copy.deep_view() =~= before.push(env.deep_view()[i as int]));
        i += 1;
    }
    assert(env.deep_view().take(i as int) =~= env.deep_view());
    copy
}

/// The value of the first of the variables that is called `name`.
pub fn find_variable(env: &EnvVars, name: &str) -> (value: Option<String>)
    ensures
        value.deep_view() == variable(env.deep_view(), name@),
{
    let wanted = name.to_string();
    let mut i: usize = 0;
    assert(env.deep_view().skip(0) =~= env.deep_view());
    while i < env.len()
        invariant
            i <= env.len(),
            wanted@ == name@,
            variable(env.deep_view(), name@) == variable(env.deep_view().skip(i as int), name@),
        decreases env.len() - i,
    {
        assert(env.deep_view().skip(i as int)[0] == env@[i as int].deep_view());
        if env[i].0 == wanted {
            return Some(env[i].1.clone());
        }
        assert(env.deep_view().skip(i as int).skip(1) =~= env.deep_view().skip(i + 1));
        i += 1;
    }
    None
}

impl CommandLine {
    /// A call of `program` with no arguments and no variables.
    pub fn new(program: &str) -> (line: Self)
        ensures
            line@ == (CommandView {
                command: program@,
                args: Seq::empty(),
                env: Seq::empty(),
            }),
    {
        let line = CommandLine { command: program.to_string(), args: Vec::new(), env: Vec::new() };
        assert(line@.args =~= Seq::empty());
        assert(line@.env =~= Seq::empty());
        line
    }

    /// The same call with one more argument.
    pub fn arg(self, arg: &str) -> (line: Self)
        ensures
            line@ == (CommandView { args: self@.args.push(arg@), ..self@ }),
    {
        let mut line = self;
        line.args.push(arg.to_string());
        assert(line@.args =~= self@.args.push(arg@));
        line
    }

    /// The same call with more variables.
    pub fn envs(self, env: EnvVars) -> (line: Self)
        ensures
            line@ == (CommandView { env: self@.env + env.deep_view(), ..self@ }),
    {
        let mut line = self;
        let mut more = env;
        line.env.append(&mut more);
        assert(line@.env =~= self@.env + env.deep_view());
        line
    }
}

/// The command with the given variables, if any are given.
pub fn with_optional_env(command: CommandLine, dotnet_env: Option<&EnvVars>) -> (line: CommandLine)
    ensures
        line@ == (CommandView { env: command@.env + or_none(dotnet_env.deep_view()), ..command@ }),
{
    match dotnet_env {
        Some(vars) => command.envs(copy_env(vars)),
        None => {
            assert(command@.env + Seq::<(Seq<char>, Seq<char>)>::empty() =~= command@.env);
            command
        },
    }
}

/// The variables that make a child process use the dotnet host `dotnet_command` and no other.
pub fn dotnet_execution_env(
    dotnet_command: &str,
    dotnet_env: Option<&EnvVars>,
    inherited_path: Option<&String>,
) -> (env: EnvVars)
    ensures
        env.deep_view() == execution_env(
            dotnet_command@,
            dotnet_env.deep_view(),
            inherited_path.deep_view(),
        ),
{
    let root = match parent(dotnet_command) {
        Some(root) => root,
        None => {
            let env: EnvVars = Vec::new();
            assert(env.deep_view() =~= Seq::empty());
            return env;
        },
    };
    let own_path = match dotnet_env {
        Some(vars) => find_variable(vars, "PATH"),
        None => None,
    };
    let path = match own_path {
        Some(value) => Some(value),
        None => match inherited_path {
            Some(value) => Some(value.clone()),
            None => None,
        },
    };
    assert(path.deep_view() == current_path(dotnet_env.deep_view(), inherited_path.deep_view()));
    let ghost host = seq![("DOTNET_ROOT"@, root@), ("DOTNET_HOST_PATH"@, dotnet_command@)];
    let mut env: EnvVars = Vec::new();
    env.push(("DOTNET_ROOT".to_string(), root.clone()));
    env.push(("DOTNET_HOST_PATH".to_string(), dotnet_command.to_string()));
    assert(env.deep_view() =~= host);
    if let Some(value) = path {
        env.push(("PATH".to_string(), root.concat(":").concat(value.as_str())));
        assert(env.deep_view() =~= host.push(("PATH"@, root@ + ":"@ + value@)));
    }
    env
}

/// A call of the dotnet host, as yet without arguments.
pub fn new_dotnet_command(
    dotnet_command: &str,
    dotnet_env: Option<&EnvVars>,
    inherited_path: Option<&String>,
) -> (line: CommandLine)
    ensures
        line@ == dotnet_call(
            dotnet_command@,
            dotnet_env.deep_view(),
            inherited_path.deep_view(),
            Seq::empty(),
        ),
{
    let line = with_optional_env(CommandLine::new(dotnet_command), dotnet_env).envs(
        dotnet_execution_env(dotnet_command, dotnet_env, inherited_path),
    );
    assert(Seq::empty() + or_none(dotnet_env.deep_view()) =~= or_none(dotnet_env.deep_view()));
    line
}

/// The value that `name` has once all the variables are set in their order.
pub open spec fn setting(env: EnvView, name: Seq<char>) -> Option<Seq<char>>
    decreases env.len(),
{
    if env.len() == 0 {
        None
    } else if env.last().0 == name {
        Some(env.last().1)
    } else {
        setting(env.drop_last(), name)
    }
}

/// What is set last is what counts.
proof fn lemma_setting_of_concat(first: EnvView, second: EnvView, name: Seq<char>)
    ensures
        setting(first + second, name) == (match setting(second, name) {
            Some(value) => Some(value),
            None => setting(first, name),
        }),
    decreases second.len(),
{
    if second.len() == 0 {
        assert(first + second =~= first);
    } else {
        assert((first + second).drop_last() =~= first + second.drop_last());
        lemma_setting_of_concat(first, second.drop_last(), name);
    }
}

/// The variables that tie a process to a dotnet host which lies in a directory set that directory
/// as the root, the host itself as the host, and, if there is a search path at all, one that
/// starts with that directory.
pub proof fn law_execution_env_names_its_host(
    dotnet_command: Seq<char>,
    env: Option<EnvView>,
    inherited_path: Option<Seq<char>>,
)
    requires
        parent_path(dotnet_command) is Some,
    ensures
        ({
            let root = parent_path(dotnet_command)->0;
            let own = execution_env(dotnet_command, env, inherited_path);
            &&& setting(own, "DOTNET_ROOT"@) == Some(root)
            &&& setting(own, "DOTNET_HOST_PATH"@) == Some(dotnet_command)
            &&& match current_path(env, inherited_path) {
                Some(path) => setting(own, "PATH"@) == Some(root + ":"@ + path),
                None => setting(own, "PATH"@) is None,
            }
        }),
{
    reveal_strlit("DOTNET_ROOT");
    reveal_strlit("DOTNET_HOST_PATH");
    reveal_strlit("PATH");
    let root = parent_path(dotnet_command)->0;
    let own = execution_env(dotnet_command, env, inherited_path);
    let host = seq![("DOTNET_ROOT"@, root), ("DOTNET_HOST_PATH"@, dotnet_command)];
    let first = seq![("DOTNET_ROOT"@, root)];
    assert(host.drop_last() =~= first);
    assert(first.drop_last() =~= Seq::empty());
    assert("DOTNET_ROOT"@.len() == 11 && "DOTNET_HOST_PATH"@.len() == 16 && "PATH"@.len() == 4);
    assert(setting(first, "DOTNET_ROOT"@) == Some(root));
    assert(setting(Seq::empty(), "PATH"@) is None);
    assert(setting(first, "PATH"@) is None);
    assert(setting(host, "PATH"@) is None);
    assert(setting(host, "DOTNET_ROOT"@) == Some(root));
    assert(setting(host, "DOTNET_HOST_PATH"@) == Some(dotnet_command));
    match current_path(env, inherited_path) {
        Some(path) => {
            assert(own == host.push(("PATH"@, root + ":"@ + path)));
            assert(own.drop_last() =~= host);
            assert(own.last() == ("PATH"@, root + ":"@ + path));
        },
        None => {
            assert(own == host);
        },
    }
}

/// Whatever the given environment sets, a call of a dotnet host that lies in a directory has that
/// directory for its root, the host itself for its host, and, if it has a search path at all, one
/// that starts with that directory.
pub proof fn law_dotnet_call_forces_its_host(
    dotnet_command: Seq<char>,
    env: Option<EnvView>,
    inherited_path: Option<Seq<char>>,
    args: Seq<Seq<char>>,
)
    requires
        parent_path(dotnet_command) is Some,
    ensures
        ({
            let root = parent_path(dotnet_command)->0;
            let call = dotnet_call(dotnet_command, env, inherited_path, args);
            &&& setting(call.env, "DOTNET_ROOT"@) == Some(root)
            &&& setting(call.env, "DOTNET_HOST_PATH"@) == Some(dotnet_command)
            &&& match current_path(env, inherited_path) {
                Some(path) => setting(call.env, "PATH"@) == Some(root + ":"@ + path),
                None => setting(call.env, "PATH"@) is None,
            }
        }),
{
    let own = execution_env(dotnet_command, env, inherited_path);
    law_execution_env_names_its_host(dotnet_command, env, inherited_path);
    if let Some(vars) = env {
        if variable(vars, "PATH"@) is None {
            lemma_unset(vars, "PATH"@);
        }
    }
    lemma_setting_of_concat(or_none(env), own, "DOTNET_ROOT"@);
    lemma_setting_of_concat(or_none(env), own, "DOTNET_HOST_PATH"@);
    lemma_setting_of_concat(or_none(env), own, "PATH"@);
}

/// A variable that no entry names is not set.
proof fn lemma_unset(env: EnvView, name: Seq<char>)
    requires
        variable(env, name) is None,
    ensures
        setting(env, name) is None,
    decreases env.len(),
{
    lemma_unnamed(env, name);
    if env.len() > 0 {
        lemma_named_nowhere(env.drop_last(), name);
        lemma_unset(env.drop_last(), name);
    }
}

/// Where no first entry of a name is found, no entry has it.
proof fn lemma_unnamed(env: EnvView, name: Seq<char>)
    requires
        variable(env, name) is None,
    ensures
        forall|i: int| 0 <= i < env.len() ==> (#[trigger] env[i]).0 != name,
    decreases env.len(),
{
    if env.len() > 0 {
        lemma_unnamed(env.skip(1), name);
        assert forall|i: int| 0 <= i < env.len() implies (#[trigger] env[i]).0 != name by {
            if i > 0 {
                assert(env[i] == env.skip(1)[i - 1]);
            }
        }
    }
}

/// Where no entry has a name, none is found first.
proof fn lemma_named_nowhere(env: EnvView, name: Seq<char>)
    requires
        forall|i: int| 0 <= i < env.len() ==> (#[trigger] env[i]).0 != name,
    ensures
        variable(env, name) is None,
    decreases env.len(),
{
    if env.len() > 0 {
        assert forall|i: int| 0 <= i < env.skip(1).len() implies (#[trigger] env.skip(1)[i]).0
            != name by {
            assert(env.skip(1)[i] == env[i + 1]);
        }
        lemma_named_nowhere(env.skip(1), name);
    }
}

} // verus!
