use roslyn_official::command::{
    dotnet_execution_env, new_dotnet_command, with_optional_env, CommandLine, EnvVars,
    ProcessReport, ProcessResult,
};
use roslyn_official::dotnet::{read_installation, DotnetSearch, SearchTurn};
use roslyn_official::events::{Action, DotnetInstall, Effect, Event, InstallationStatus};
use roslyn_official::razor::{DotnetHost, RazorOutcome, RazorSetup};
use roslyn_official::roslyn::RoslynOfficial;
use roslyn_official::sdk::is_readable;
use roslyn_official::server::{
    download_roslyn_server, update_roslyn_server, Launch, LaunchOutcome,
};
use roslyn_official::settings::LspSettings;
use zed_extension_api::serde_json::from_str;

const SOURCE: &str =
    "https://pkgs.dev.azure.com/azure-public/vside/_packaging/vs-impl/nuget/v3/index.json";

fn pairs(env: &[(&str, &str)]) -> EnvVars {
    env.iter().map(|(key, value)| (key.to_string(), value.to_string())).collect()
}

fn ended(status: Option<i32>, stdout: &str, stderr: &str) -> ProcessResult {
    Ok(ProcessReport::new(
        status,
        &stdout.as_bytes().to_vec(),
        &stderr.as_bytes().to_vec(),
    ))
}

fn ok(stdout: &str) -> ProcessResult {
    ended(Some(0), stdout, "")
}

fn bad() -> ProcessResult {
    ended(Some(1), "out", "err")
}

fn unrun() -> ProcessResult {
    Err("no such program".to_string())
}

fn host(env: Option<EnvVars>) -> DotnetHost {
    DotnetHost {
        command: "/opt/dotnet/dotnet".to_string(),
        env,
        inherited_path: Some("/bin".to_string()),
    }
}

fn tied() -> EnvVars {
    pairs(&[
        ("DOTNET_ROOT", "/opt/dotnet"),
        ("DOTNET_HOST_PATH", "/opt/dotnet/dotnet"),
        ("PATH", "/opt/dotnet:/bin"),
    ])
}

/// The command line of an action that runs a process: the program and its arguments.
fn call(line: &CommandLine) -> Vec<String> {
    let mut words = vec![line.command.clone()];
    words.extend(line.args.iter().cloned());
    words
}

fn status(effect: &Effect) -> Option<InstallationStatus> {
    match effect {
        Effect::SetStatus(status) => Some(*status),
        Effect::Print(_) => None,
    }
}

#[test]
fn output_is_decoded() {
    let report = ProcessReport::new(Some(3), &vec![0x61, 0xff, 0x62], &vec![0xc3, 0xa9]);
    assert_eq!(report.status, Some(3));
    assert_eq!(report.stdout, "a\u{fffd}b");
    assert_eq!(report.stderr, "\u{e9}");
    assert!(!report.succeeded());
    assert_eq!(report.complaint("No."), "No.\nstdout: a\u{fffd}b\nstderr: \u{e9}");
    assert!(ok("").unwrap().succeeded());
    assert!(!ended(None, "", "").unwrap().succeeded());
}

#[test]
fn commands_are_built() {
    let line = CommandLine::new("git").arg("-C").arg("/src");
    assert_eq!(call(&line), vec!["git", "-C", "/src"]);
    assert!(line.env.is_empty());
    let env = pairs(&[("A", "1")]);
    let line = with_optional_env(line.envs(pairs(&[("B", "2")])), Some(&env));
    assert_eq!(line.env, pairs(&[("B", "2"), ("A", "1")]));
    let line = with_optional_env(line, None);
    assert_eq!(line.env.len(), 2);
}

#[test]
fn the_search_path_of_the_environment_comes_first() {
    let inherited = "/bin".to_string();
    let own = pairs(&[("X", "1"), ("PATH", "/own"), ("PATH", "/late")]);
    let command = "/opt/dotnet/dotnet";
    assert_eq!(dotnet_execution_env(command, None, Some(&inherited)), tied());
    assert_eq!(
        dotnet_execution_env(command, Some(&own), Some(&inherited))[2],
        ("PATH".to_string(), "/opt/dotnet:/own".to_string())
    );
    let without = pairs(&[("X", "1")]);
    assert_eq!(dotnet_execution_env(command, Some(&without), Some(&inherited)), tied());
    assert_eq!(dotnet_execution_env(command, None, None).len(), 2);
    assert!(dotnet_execution_env("/", None, Some(&inherited)).is_empty());
    assert_eq!(
        dotnet_execution_env("dotnet", None, Some(&inherited)),
        pairs(&[("DOTNET_ROOT", ""), ("DOTNET_HOST_PATH", "dotnet"), ("PATH", ":/bin")])
    );
}

#[test]
fn dotnet_calls_are_tied_to_their_host() {
    let inherited = "/bin".to_string();
    let own = pairs(&[("DOTNET_ROOT", "/elsewhere"), ("PATH", "/own")]);
    let line = new_dotnet_command("/opt/dotnet/dotnet", Some(&own), Some(&inherited));
    assert_eq!(line.command, "/opt/dotnet/dotnet");
    assert_eq!(
        line.env,
        pairs(&[
            ("DOTNET_ROOT", "/elsewhere"),
            ("PATH", "/own"),
            ("DOTNET_ROOT", "/opt/dotnet"),
            ("DOTNET_HOST_PATH", "/opt/dotnet/dotnet"),
            ("PATH", "/opt/dotnet:/own"),
        ])
    );
}

#[test]
fn the_last_sdk_counts() {
    let listing = ok("8.0.404 [/usr/share/dotnet/sdk]\r\n9.0.100 [/opt/dotnet/sdk]\n\nhint\n");
    let sdk = RoslynOfficial::find_dotnet_sdk_path(&listing).unwrap();
    assert_eq!(sdk.path, "/opt/dotnet/sdk/9.0.100");
    assert_eq!(sdk.version, "9.0.100");
    let sdk = RoslynOfficial::find_dotnet_sdk_path(&ok("9 [a[b]c] d")).unwrap();
    assert_eq!(sdk.path, "a[b]c/9");
    let sdk = RoslynOfficial::find_dotnet_sdk_path(&ok("9 []")).unwrap();
    assert_eq!(sdk.path, "9");
}

#[test]
fn missing_sdks_are_reported() {
    let problem = |result: ProcessResult| RoslynOfficial::find_dotnet_sdk_path(&result).unwrap_err();
    assert_eq!(problem(unrun()), "no such program");
    assert_eq!(
        problem(bad()),
        "Unable to list installed dotnet SDKs.\nstdout: out\nstderr: err"
    );
    assert_eq!(
        problem(ended(None, "x", "")),
        "Unable to list installed dotnet SDKs.\nstdout: x\nstderr: "
    );
    assert_eq!(
        problem(ok("none\n")),
        "Unable to parse installed dotnet SDKs from output: none\n"
    );
    assert_eq!(problem(ok("")), "Unable to parse installed dotnet SDKs from output: ");
}

#[test]
fn reversed_brackets_cannot_be_read() {
    assert!(is_readable("9.0.100 [/opt]\n"));
    assert!(is_readable("] only\n[ only\n"));
    assert!(!is_readable("9.0.100 [/opt]\n9 ] [ x\n"));
}

#[test]
fn the_active_host_is_read() {
    let active = |result: ProcessResult| RoslynOfficial::find_active_dotnet_command(&result);
    assert_eq!(active(ok("/usr/bin/dotnet\n")), Some("/usr/bin/dotnet".to_string()));
    assert_eq!(active(ok(" \n")), None);
    assert_eq!(active(bad()), None);
    assert_eq!(active(ended(None, "/usr/bin/dotnet", "")), None);
    assert_eq!(active(unrun()), None);
}

#[test]
fn installations_are_read() {
    assert_eq!(
        read_installation("/opt/dotnets/9.0.100/dotnet"),
        Some((vec![9, 0, 100], "/opt/dotnets".to_string()))
    );
    assert_eq!(read_installation("/usr/share/dotnet/dotnet"), None);
    assert_eq!(read_installation("dotnet"), None);
    assert_eq!(read_installation("/9.0.1/dotnet"), Some((vec![9, 0, 1], "/".to_string())));
    assert_eq!(read_installation("9.0.1/dotnet"), Some((vec![9, 0, 1], String::new())));
}

fn install(path: &str, is_dir: bool, has_dotnet: bool) -> Option<DotnetInstall> {
    Some(DotnetInstall { path: path.to_string(), is_dir, has_dotnet })
}

fn latest(installs: Option<Vec<Option<DotnetInstall>>>) -> Option<String> {
    RoslynOfficial::find_latest_side_by_side_dotnet_command(
        vec![8, 0, 1],
        "/d/8.0.1/dotnet".to_string(),
        installs,
    )
}

#[test]
fn the_newest_installation_is_chosen() {
    let found = latest(Some(vec![
        install("/d/7.0.9", true, true),
        install("/d/9.0.1", true, true),
        install("/d/10.0", true, false),
        install("/d/11.0", false, true),
        install("/d/latest", true, true),
        install("/d/8.0.1", true, true),
        install("/d/+9.0.1", true, true),
    ]));
    assert_eq!(found, Some("/d/9.0.1/dotnet".to_string()));
}

#[test]
fn the_active_installation_stays_unless_one_is_newer() {
    let kept = Some("/d/8.0.1/dotnet".to_string());
    assert_eq!(latest(Some(vec![])), kept);
    assert_eq!(latest(Some(vec![install("/d/+8.0.1", true, true)])), kept);
    assert_eq!(latest(Some(vec![install("/d/8.0", true, true)])), kept);
    assert_eq!(
        latest(Some(vec![install("/d/8.0.1.0/", true, true)])),
        Some("/d/8.0.1.0/dotnet".to_string())
    );
}

#[test]
fn unreadable_installations_leave_it_open() {
    assert_eq!(latest(None), None);
    assert_eq!(latest(Some(vec![install("/d/9.0", true, true), None])), None);
}

fn which(env: EnvVars, search: &DotnetSearch) {
    match search.action() {
        Action::Run(line) => {
            assert_eq!(call(&line), vec!["which", "dotnet"]);
            assert_eq!(line.env, env);
        }
        other => panic!("{:?}", other),
    }
}

fn waiting(turn: SearchTurn) -> DotnetSearch {
    match turn {
        SearchTurn::Wait(search) => search,
        other => panic!("{:?}", other),
    }
}

fn found(turn: SearchTurn) -> String {
    match turn {
        SearchTurn::Found { host, .. } => host,
        other => panic!("{:?}", other),
    }
}

#[test]
fn a_given_environment_decides_on_the_host() {
    let env = pairs(&[("PATH", "/own")]);
    let search = RoslynOfficial::resolve_dotnet_command(Some(pairs(&[("PATH", "/own")])));
    which(env, &search);
    assert_eq!(found(search.advance(Event::Process(ok("/own/dotnet\n")))), "/own/dotnet");
    let search = RoslynOfficial::resolve_dotnet_command(Some(vec![]));
    assert_eq!(found(search.advance(Event::Process(bad()))), "dotnet");
}

#[test]
fn the_newest_host_side_by_side_is_found() {
    let search = RoslynOfficial::resolve_dotnet_command(None);
    which(vec![], &search);
    let search = waiting(search.advance(Event::Process(ok("/usr/bin/dotnet\n"))));
    match search.action() {
        Action::Canonicalize(path) => assert_eq!(path, "/usr/bin/dotnet"),
        other => panic!("{:?}", other),
    }
    let search =
        waiting(search.advance(Event::Canonical(Some("/d/8.0.1/dotnet".to_string()))));
    match search.action() {
        Action::ListInstalls(root) => assert_eq!(root, "/d"),
        other => panic!("{:?}", other),
    }
    let installs = vec![install("/d/9.0.1", true, true)];
    assert_eq!(found(search.advance(Event::Installs(Some(installs)))), "/d/9.0.1/dotnet");
}

#[test]
fn the_search_falls_back_on_the_active_host() {
    let search = RoslynOfficial::resolve_dotnet_command(None);
    let search = waiting(search.advance(Event::Process(unrun())));
    which(vec![], &search);
    assert_eq!(found(search.advance(Event::Process(ok("/late/dotnet")))), "/late/dotnet");

    let search = RoslynOfficial::resolve_dotnet_command(None);
    let search = waiting(search.advance(Event::Process(ok("/usr/bin/dotnet"))));
    let search = waiting(search.advance(Event::Canonical(None)));
    which(vec![], &search);
    assert_eq!(found(search.advance(Event::Process(unrun()))), "dotnet");

    let search = RoslynOfficial::resolve_dotnet_command(None);
    let search = waiting(search.advance(Event::Process(ok("/d/8.0.1/dotnet"))));
    let search = waiting(search.advance(Event::Canonical(None)));
    let search = waiting(search.advance(Event::Installs(None)));
    which(vec![], &search);
}

#[test]
fn a_search_ignores_what_it_did_not_ask_for() {
    let search = RoslynOfficial::resolve_dotnet_command(None);
    let search = waiting(search.advance(Event::Located(None)));
    let search = waiting(search.advance(Event::Canonical(None)));
    which(vec![], &search);
}

fn razor() -> RazorSetup {
    RoslynOfficial::install_or_update_razor(Some("/src/razor".to_string()), host(None)).unwrap()
}

fn going_on(setup: RazorSetup, result: ProcessResult) -> (Vec<Effect>, RazorSetup) {
    assert!(setup.accepts(&result));
    let turn = setup.advance(result);
    match turn.outcome {
        RazorOutcome::Wait(next) => (turn.effects, next),
        other => panic!("{:?}", other),
    }
}

fn failed(setup: RazorSetup, result: ProcessResult) -> (Vec<Effect>, String) {
    assert!(setup.accepts(&result));
    let turn = setup.advance(result);
    match turn.outcome {
        RazorOutcome::Failed(problem) => (turn.effects, problem),
        other => panic!("{:?}", other),
    }
}

fn checking() -> RazorSetup {
    going_on(razor(), ok("9.0.100 [/opt/dotnet/sdk]\n")).1
}

fn building() -> RazorSetup {
    let (_, setup) = going_on(checking(), bad());
    going_on(setup, ok("")).1
}

#[test]
fn razor_needs_a_root() {
    let back = RoslynOfficial::install_or_update_razor(None, host(None)).unwrap_err();
    assert_eq!(back.command, "/opt/dotnet/dotnet");
}

#[test]
fn razor_files_have_their_places() {
    assert_eq!(
        RoslynOfficial::find_razor_compiler_dll("/sdk"),
        "/sdk/Sdks/Microsoft.NET.Sdk.Razor/source-generators/Microsoft.CodeAnalysis.Razor.Compiler.dll"
    );
    assert_eq!(
        RoslynOfficial::find_razor_design_time_targets("/sdk"),
        "/sdk/Sdks/Microsoft.NET.Sdk.Razor/targets/Microsoft.NET.Sdk.Razor.DesignTime.targets"
    );
}

#[test]
fn present_razor_sources_are_updated() {
    let setup = razor();
    let line = setup.command();
    assert_eq!(call(&line), vec!["/opt/dotnet/dotnet", "--list-sdks"]);
    assert_eq!(line.env, tied());
    let (effects, setup) = going_on(setup, ok("9.0.100 [/opt/dotnet/sdk]\n"));
    assert!(effects.is_empty());
    assert_eq!(call(&setup.command()), vec!["test", "-d", "/src/razor"]);
    assert!(setup.command().env.is_empty());
    let (effects, setup) = going_on(setup, ok(""));
    assert_eq!(effects.len(), 1);
    assert_eq!(status(&effects[0]), Some(InstallationStatus::CheckingForUpdate));
    assert_eq!(
        call(&setup.command()),
        vec!["git", "-C", "/src/razor", "reset", "--hard"]
    );
    let (effects, setup) = going_on(setup, ok(""));
    assert!(effects.is_empty());
    assert_eq!(call(&setup.command()), vec!["git", "-C", "/src/razor", "pull"]);
    let (effects, setup) = going_on(setup, bad());
    assert_eq!(effects.len(), 2);
    assert_eq!(status(&effects[0]), Some(InstallationStatus::Idle));
    match &effects[1] {
        Effect::Print(text) => assert_eq!(
            text,
            "Unable to pull latest changes in razor repository. Offline?"
        ),
        other => panic!("{:?}", other),
    }
    let line = setup.command();
    assert_eq!(
        call(&line),
        vec![
            "/opt/dotnet/dotnet",
            "build",
            "/src/razor/src/Razor/src/Microsoft.VisualStudioCode.RazorExtension/Microsoft.VisualStudioCode.RazorExtension.csproj",
            "--configuration",
            "Release",
        ]
    );
    assert_eq!(line.env, tied());
    let turn = setup.advance(ok(""));
    assert!(turn.effects.is_empty());
    match turn.outcome {
        RazorOutcome::Ready { args, .. } => assert_eq!(
            args,
            vec![
                "--extension",
                "/src/razor/artifacts/bin/Microsoft.VisualStudioCode.RazorExtension/Release/net9.0/Microsoft.VisualStudioCode.RazorExtension.dll",
                "--razorSourceGenerator",
                "/opt/dotnet/sdk/9.0.100/Sdks/Microsoft.NET.Sdk.Razor/source-generators/Microsoft.CodeAnalysis.Razor.Compiler.dll",
                "--razorDesignTimePath",
                "/opt/dotnet/sdk/9.0.100/Sdks/Microsoft.NET.Sdk.Razor/targets/Microsoft.NET.Sdk.Razor.DesignTime.targets",
            ]
        ),
        other => panic!("{:?}", other),
    }
}

#[test]
fn missing_razor_sources_are_cloned() {
    let (effects, setup) = going_on(checking(), bad());
    assert_eq!(effects.len(), 1);
    assert_eq!(status(&effects[0]), Some(InstallationStatus::Downloading));
    assert_eq!(
        call(&setup.command()),
        vec!["git", "clone", "https://github.com/dotnet/razor", "/src/razor"]
    );
    let (effects, setup) = going_on(setup, ok(""));
    assert_eq!(effects.len(), 1);
    assert_eq!(status(&effects[0]), Some(InstallationStatus::Idle));
    assert_eq!(setup.command().args[0], "build");
}

#[test]
fn razor_failures_are_reported() {
    assert_eq!(failed(razor(), unrun()).1, "no such program");
    assert_eq!(
        failed(razor(), bad()).1,
        "Unable to list installed dotnet SDKs.\nstdout: out\nstderr: err"
    );
    assert_eq!(failed(checking(), unrun()).1, "no such program");
    let (_, resetting) = going_on(checking(), ok(""));
    assert_eq!(
        failed(resetting, ended(None, "", "")).1,
        "Unable to reset razor git repository. Git installed?"
    );
    let (_, resetting) = going_on(checking(), ok(""));
    let (_, pulling) = going_on(resetting, ok(""));
    let (effects, problem) = failed(pulling, unrun());
    assert!(effects.is_empty());
    assert_eq!(problem, "no such program");
    let (_, cloning) = going_on(checking(), bad());
    let (effects, problem) = failed(cloning, bad());
    assert_eq!(status(&effects[0]), Some(InstallationStatus::Idle));
    assert_eq!(
        problem,
        "Unable to clone razor git repository. For this initial setup step, an internet connection is required."
    );
    assert_eq!(
        failed(building(), bad()).1,
        "Unable to build razor extension.\nstdout: out\nstderr: err"
    );
}

#[test]
fn razor_cannot_go_on_from_every_end() {
    assert!(!checking().accepts(&ended(None, "", "")));
    assert!(checking().accepts(&unrun()));
    assert!(!razor().accepts(&ok("9 ] [")));
    assert!(razor().accepts(&ended(Some(1), "9 ] [", "")));
    assert!(building().accepts(&ended(None, "9 ] [", "")));
}

fn launch(text: &str) -> Launch {
    let settings = LspSettings { settings: Some(from_str(text).unwrap()) };
    RoslynOfficial::new()
        .language_server_cmd(Some(&settings), Some("/bin".to_string()))
        .unwrap()
}

fn next(launch: Launch, event: Event) -> (Vec<Effect>, Launch) {
    assert!(launch.accepts(&event));
    let turn = launch.advance(event);
    match turn.outcome {
        LaunchOutcome::Wait(launch) => (turn.effects, launch),
        other => panic!("{:?}", other),
    }
}

fn ready(launch: Launch, event: Event) -> (Vec<Effect>, CommandLine) {
    let turn = launch.advance(event);
    match turn.outcome {
        LaunchOutcome::Ready(line) => (turn.effects, line),
        other => panic!("{:?}", other),
    }
}

fn fails(launch: Launch, event: Event) -> String {
    match launch.advance(event).outcome {
        LaunchOutcome::Failed(problem) => problem,
        other => panic!("{:?}", other),
    }
}

/// A start that has its host and waits for the server's place.
fn locating() -> Launch {
    let start = launch(r#"{"use_worktree_dotnet_env": true}"#);
    let (_, start) = next(start, Event::ShellEnvironment(vec![]));
    next(start, Event::Process(ok("/opt/dotnet/dotnet\n"))).1
}

fn located(path: Option<&str>) -> Event {
    Event::Located(path.map(|p| p.to_string()))
}

#[test]
fn settings_have_to_load() {
    let problem = RoslynOfficial::new().language_server_cmd(None, None).unwrap_err();
    assert_eq!(problem, "Unable to load settings");
}

#[test]
fn a_present_server_is_updated_and_started() {
    let start = locating();
    match start.action() {
        Action::Locate(name) => assert_eq!(name, "roslyn-language-server"),
        other => panic!("{:?}", other),
    }
    let (effects, start) = next(start, located(Some("/bin/roslyn")));
    assert_eq!(effects.len(), 1);
    assert_eq!(status(&effects[0]), Some(InstallationStatus::CheckingForUpdate));
    match start.action() {
        Action::Run(line) => {
            assert_eq!(
                call(&line),
                vec![
                    "/opt/dotnet/dotnet",
                    "tool",
                    "update",
                    "roslyn-language-server",
                    "--global",
                    "--prerelease",
                    "--source",
                    SOURCE,
                ]
            );
            assert_eq!(line.env, tied());
        }
        other => panic!("{:?}", other),
    }
    let (effects, line) = ready(start, Event::Process(ok("")));
    assert_eq!(effects.len(), 1);
    assert_eq!(status(&effects[0]), Some(InstallationStatus::Idle));
    assert_eq!(call(&line), vec!["/bin/roslyn", "--stdio", "--autoLoadProjects"]);
    assert_eq!(line.env, tied());
}

#[test]
fn a_failed_update_is_printed_only() {
    for (result, text) in [
        (
            bad(),
            "Unable to update roslyn-language-server: Unable to update roslyn-language-server.\nstdout: out\nstderr: err",
        ),
        (unrun(), "Unable to update roslyn-language-server: no such program"),
    ] {
        let (_, start) = next(locating(), located(Some("/bin/roslyn")));
        let (effects, line) = ready(start, Event::Process(result));
        match &effects[0] {
            Effect::Print(printed) => assert_eq!(printed, text),
            other => panic!("{:?}", other),
        }
        assert_eq!(status(&effects[1]), Some(InstallationStatus::Idle));
        assert_eq!(effects.len(), 2);
        assert_eq!(line.command, "/bin/roslyn");
    }
}

#[test]
fn a_missing_server_is_installed() {
    let (effects, start) = next(locating(), located(None));
    assert_eq!(status(&effects[0]), Some(InstallationStatus::Downloading));
    match start.action() {
        Action::Run(line) => assert_eq!(
            call(&line),
            vec![
                "/opt/dotnet/dotnet",
                "tool",
                "install",
                "--global",
                "roslyn-language-server",
                "--prerelease",
                "--source",
                SOURCE,
            ]
        ),
        other => panic!("{:?}", other),
    }
    let (effects, start) = next(start, Event::Process(ok("")));
    assert!(effects.is_empty());
    match start.action() {
        Action::Locate(name) => assert_eq!(name, "roslyn-language-server"),
        other => panic!("{:?}", other),
    }
    let (effects, line) = ready(start, located(Some("/home/roslyn")));
    assert_eq!(effects.len(), 1);
    assert_eq!(status(&effects[0]), Some(InstallationStatus::Idle));
    assert_eq!(line.command, "/home/roslyn");
}

#[test]
fn a_failed_install_ends_the_start() {
    let (_, start) = next(locating(), located(None));
    assert_eq!(
        fails(start, Event::Process(bad())),
        "Unable to install roslyn-language-server.\nstdout: out\nstderr: err"
    );
    let (_, start) = next(locating(), located(None));
    assert_eq!(fails(start, Event::Process(unrun())), "no such program");
    let (_, start) = next(locating(), located(None));
    let (_, start) = next(start, Event::Process(ok("")));
    assert_eq!(
        fails(start, located(None)),
        "roslyn-language-server not found or unable to install. Please try installing it manually using: 'dotnet tool install --global roslyn-language-server --prerelease'"
    );
    assert_eq!(download_roslyn_server(&ok("")), Ok(()));
    assert_eq!(update_roslyn_server(&ok("")), Ok(()));
    assert_eq!(download_roslyn_server(&unrun()), Err("no such program".to_string()));
    assert_eq!(
        update_roslyn_server(&bad()),
        Err("Unable to update roslyn-language-server.\nstdout: out\nstderr: err".to_string())
    );
}

#[test]
fn the_longest_start_takes_twelve_answers() {
    let start = launch(r#"{"razor_source_repository_root": "/src/razor"}"#);
    let events = vec![
        Event::Process(ok("/d/8.0.1/dotnet\n")),
        Event::Canonical(None),
        Event::Installs(None),
        Event::Process(ok("/opt/dotnet/dotnet\n")),
        Event::Process(ok("9.0.100 [/opt/dotnet/sdk]\n")),
        Event::Process(ok("")),
        Event::Process(ok("")),
        Event::Process(ok("")),
        Event::Process(ok("")),
        Event::Located(None),
        Event::Process(ok("")),
    ];
    let mut start = start;
    for event in events {
        start = next(start, event).1;
    }
    let (_, line) = ready(start, located(Some("/home/roslyn")));
    assert_eq!(line.args.len(), 8);
    assert_eq!(line.args[0], "--stdio");
    assert_eq!(line.args[1], "--autoLoadProjects");
    assert_eq!(line.args[2], "--extension");
    assert_eq!(line.env, tied());
}

#[test]
fn a_failed_razor_setup_ends_the_start() {
    let start = launch(
        r#"{"razor_source_repository_root": "/src/razor", "use_worktree_dotnet_env": true}"#,
    );
    match start.action() {
        Action::ReadShellEnvironment => {}
        other => panic!("{:?}", other),
    }
    let (_, start) = next(start, Event::ShellEnvironment(pairs(&[("PATH", "/own")])));
    match start.action() {
        Action::Run(line) => assert_eq!(line.env, pairs(&[("PATH", "/own")])),
        other => panic!("{:?}", other),
    }
    let (_, start) = next(start, Event::Process(ok("/opt/dotnet/dotnet\n")));
    assert!(!start.accepts(&Event::Process(ok("9 ] ["))));
    assert_eq!(fails(start, Event::Process(unrun())), "no such program");
}

#[test]
fn a_start_ignores_what_it_did_not_ask_for() {
    let (effects, start) = next(locating(), Event::Process(bad()));
    assert!(effects.is_empty());
    match start.action() {
        Action::Locate(name) => assert_eq!(name, "roslyn-language-server"),
        other => panic!("{:?}", other),
    }
}
