//! Which dotnet host is found, said of the answers that the search gets.
use vstd::prelude::*;

use crate::command::{EnvView, ReportView, ResultView};
use crate::dotnet::{
    active_command, all_read, first_newer, host_of, installation_of, latest_host,
    law_newest_is_there, newest, search_action, search_run, search_start, search_turn,
    usable_version, SearchStepView, SearchTurnView, SearchView,
};
use crate::events::{ActionView, EventView, InstallView};
use crate::path_laws::{law_joined, law_parent_and_name};
use crate::paths::{last_component, parent_path};
use crate::text::is_white;
use crate::text_laws::law_trimmed;
use crate::version::{version_before, version_of};

verus! {

/// The active host is all that a successful `which` wrote between the white space on both sides.
pub proof fn law_active_host(report: ReportView, start: int, end: int)
    requires
        report.status == Some(0i32),
        0 <= start < end <= report.stdout.len(),
        forall|i: int| 0 <= i < start ==> is_white(#[trigger] report.stdout[i]),
        forall|i: int| end <= i < report.stdout.len() ==> is_white(#[trigger] report.stdout[i]),
        !is_white(report.stdout[start]) && !is_white(report.stdout[end - 1]),
    ensures
        active_command(Ok(report)) == Some(report.stdout.subrange(start, end)),
{
    law_trimmed(report.stdout, start, end);
}

/// There is no active host where `which` could not be run, did not end with the exit code 0, or
/// wrote nothing but white space.
pub proof fn law_no_active_host(result: ResultView)
    requires
        result is Err || result->Ok_0.status != Some(0i32) || forall|i: int|
            0 <= i < result->Ok_0.stdout.len() ==> is_white(#[trigger] result->Ok_0.stdout[i]),
    ensures
        active_command(result) is None,
{
    if result is Ok && result->Ok_0.status == Some(0i32) {
        let text = result->Ok_0.stdout;
        law_trimmed(text, 0, 0);
        assert(text.subrange(0, 0).len() == 0);
    }
}

/// A host has an installation exactly if it lies in a directory that is called by a version and
/// itself lies in a directory. The version is that of the name, and the directory the outer one.
pub proof fn law_installation(path: Seq<char>, directory: Seq<char>)
    ensures
        parent_path(path) is None ==> installation_of(path) is None,
        parent_path(path) == Some(directory) ==> {
            &&& installation_of(path) is Some <==> (parent_path(directory) is Some
                && last_component(directory) is Some && version_of(
                last_component(directory)->0,
            ) is Some)
            &&& installation_of(path) is Some ==> installation_of(path) == Some(
                (version_of(last_component(directory)->0)->0, parent_path(directory)->0),
            )
        },
{
}

/// The host `root/name/file` has an installation exactly if the name is a version: that version,
/// in `root`.
pub proof fn law_installation_by_place(root: Seq<char>, name: Seq<char>, file: Seq<char>)
    requires
        root.len() > 0,
        root.last() != '/',
        !(root.len() > 1 && root.last() == '.' && root[root.len() - 2] == '/'),
        name.len() > 0 && !name.contains('/') && name != seq!['.'] && name != seq!['.', '.'],
        file.len() > 0 && !file.contains('/') && file != seq!['.'],
    ensures
        installation_of(root + seq!['/'] + name + seq!['/'] + file) == (match version_of(name) {
            Some(version) => Some((version, root)),
            None => None,
        }),
{
    let directory = root + seq!['/'] + name;
    let path = directory + seq!['/'] + file;
    let start = root.len() as int + 1;
    assert forall|i: int| start <= i < directory.len() implies #[trigger] directory[i] != '/' by {
        assert(directory[i] == name[i - start]);
        assert(name.contains(name[i - start]));
    }
    if name.len() == 1 {
        assert(name =~= seq![name[0]]);
        assert(directory[start] == name[0]);
    }
    assert(directory[root.len() - 1] == root.last());
    if root.len() > 1 {
        assert(directory[root.len() - 2] == root[root.len() - 2]);
    }
    law_parent_and_name(directory, root.len() as int, start, directory.len() as int);
    assert(directory.take(root.len() as int) =~= root);
    assert(directory.subrange(start, directory.len() as int) =~= name);

    let place = directory.len() as int + 1;
    assert forall|i: int| place <= i < path.len() implies #[trigger] path[i] != '/' by {
        assert(path[i] == file[i - place]);
        assert(file.contains(file[i - place]));
    }
    if file.len() == 1 {
        assert(file =~= seq![file[0]]);
        assert(path[place] == file[0]);
    }
    assert(path[directory.len() - 1] == directory.last());
    assert(directory[directory.len() - 1] != '/');
    assert(path[directory.len() - 2] == directory[directory.len() - 2]);
    if directory.last() == '.' && directory[directory.len() - 2] == '/' {
        if name.len() > 1 {
            assert(directory[directory.len() - 2] != '/');
        }
    }
    law_parent_and_name(path, directory.len() as int, place, path.len() as int);
    assert(path.take(directory.len() as int) =~= directory);
}

/// An installation may be used exactly if it is a directory, has a host in it, and is called by a
/// version, which is then its version.
pub proof fn law_usable_version(install: InstallView)
    ensures
        usable_version(install) is Some <==> (install.is_dir && install.has_dotnet
            && last_component(install.path) is Some && version_of(
            last_component(install.path)->0,
        ) is Some),
        usable_version(install) is Some ==> usable_version(install) == version_of(
            last_component(install.path)->0,
        ),
{
}

/// The host of an installation is the file `dotnet` in its directory.
pub proof fn law_host_of(install: InstallView)
    ensures
        install.path.len() == 0 ==> host_of(install) == "dotnet"@,
        install.path.len() > 0 && install.path.last() == '/' ==> host_of(install) == install.path
            + "dotnet"@,
        install.path.len() > 0 && install.path.last() != '/' ==> host_of(install) == install.path
            + seq!['/'] + "dotnet"@,
{
    reveal_strlit("dotnet");
    assert("dotnet"@[0] == 'd');
    law_joined(install.path, "dotnet"@);
}

/// Among hosts that lie side by side there is one to choose exactly if all that lies there could
/// be read, and then it is the newest.
pub proof fn law_latest_host(
    version: Seq<u32>,
    host: Seq<char>,
    installs: Option<Seq<Option<InstallView>>>,
)
    ensures
        latest_host(version, host, installs) is Some <==> (installs is Some && forall|i: int|
            0 <= i < installs->0.len() ==> (#[trigger] installs->0[i]) is Some),
        latest_host(version, host, installs) is Some ==> latest_host(version, host, installs)
            == Some(newest(version, host, installs->0).1),
{
}

/// An installation that may be used is the one to choose where its version is newer than the
/// active one, newer than that of every installation before it that may be used, and no older
/// than that of any after it.
pub proof fn law_newest_host(
    version: Seq<u32>,
    host: Seq<char>,
    installs: Seq<Option<InstallView>>,
    place: int,
)
    requires
        0 <= place < installs.len(),
        installs[place] is Some,
        usable_version(installs[place]->0) is Some,
        version_before(version, usable_version(installs[place]->0)->0),
        forall|i: int|
            0 <= i < place && (#[trigger] installs[i]) is Some && usable_version(
                installs[i]->0,
            ) is Some ==> version_before(
                usable_version(installs[i]->0)->0,
                usable_version(installs[place]->0)->0,
            ),
        forall|i: int|
            place < i < installs.len() && (#[trigger] installs[i]) is Some && usable_version(
                installs[i]->0,
            ) is Some ==> !version_before(
                usable_version(installs[place]->0)->0,
                usable_version(installs[i]->0)->0,
            ),
    ensures
        newest(version, host, installs) == (
            usable_version(installs[place]->0)->0,
            host_of(installs[place]->0),
        ),
    decreases installs.len(),
{
    let fewer = installs.drop_last();
    if place < installs.len() - 1 {
        assert(fewer[place] == installs[place]);
        assert forall|i: int|
            0 <= i < place && (#[trigger] fewer[i]) is Some && usable_version(
                fewer[i]->0,
            ) is Some implies version_before(
            usable_version(fewer[i]->0)->0,
            usable_version(fewer[place]->0)->0,
        ) by {
            assert(fewer[i] == installs[i]);
        }
        assert forall|i: int|
            place < i < fewer.len() && (#[trigger] fewer[i]) is Some && usable_version(
                fewer[i]->0,
            ) is Some implies !version_before(
            usable_version(fewer[place]->0)->0,
            usable_version(fewer[i]->0)->0,
        ) by {
            assert(fewer[i] == installs[i]);
        }
        law_newest_host(version, host, fewer, place);
        assert(installs[installs.len() - 1] == installs.last());
    } else {
        law_newest_is_there(version, host, fewer);
        let below = newest(version, host, fewer);
        if below != (version, host) {
            let i = choose|i: int|
                first_newer(version, fewer, i) && below == (
                    usable_version(fewer[i]->0)->0,
                    host_of(fewer[i]->0),
                );
            assert(fewer[i] == installs[i]);
        }
    }
}

/// What a search asks for in each of its states.
pub proof fn law_search_asks(search: SearchView)
    ensures
        search.step is AskingForActive || search.step is AskingForSideBySide ==> {
            &&& search_action(search) is Run
            &&& search_action(search)->Run_0.command == "which"@
            &&& search_action(search)->Run_0.args == seq!["dotnet"@]
            &&& search.env is Some ==> search_action(search)->Run_0.env == search.env->0
            &&& search.env is None ==> search_action(search)->Run_0.env.len() == 0
        },
        search.step matches SearchStepView::Resolving { active } ==> search_action(search)
            == ActionView::Canonicalize(active),
        search.step matches SearchStepView::Listing { host, version, root } ==> search_action(
            search,
        ) == ActionView::ListInstalls(root),
{
}

/// A search starts with `which`, in the given environment, and looks beside the active host only
/// if none is given.
pub proof fn law_search_start(env: Option<EnvView>)
    ensures
        search_start(env).env == env,
        env is Some ==> search_start(env).step is AskingForActive,
        env is None ==> search_start(env).step is AskingForSideBySide,
{
}

/// An answer of `which` ends a search that takes the active host: with the host that it names, or
/// with `dotnet` if it names none. A search that looks beside the active host goes on from it.
pub proof fn law_after_which(search: SearchView, result: ResultView)
    ensures
        search.step is AskingForActive ==> search_turn(search, EventView::Process(result)) == (
        SearchTurnView::Found {
            host: match active_command(result) {
                Some(host) => host,
                None => "dotnet"@,
            },
            env: search.env,
        }),
        search.step is AskingForSideBySide ==> search_turn(search, EventView::Process(result))
            == SearchTurnView::Wait(
            SearchView {
                env: search.env,
                step: match active_command(result) {
                    Some(active) => SearchStepView::Resolving { active },
                    None => SearchStepView::AskingForActive,
                },
            },
        ),
{
}

/// The place of the active host is the one with all links followed, or the one that was told where
/// they could not be. What lies beside its installation is asked for; where it has none, the active
/// host is.
pub proof fn law_after_the_place(search: SearchView, path: Option<Seq<char>>)
    requires
        search.step is Resolving,
    ensures
        ({
            let host = if path is Some {
                path->0
            } else {
                search.step->active
            };
            let turn = search_turn(search, EventView::Canonical(path));
            &&& turn is Wait
            &&& turn->Wait_0.env == search.env
            &&& installation_of(host) is None ==> turn->Wait_0.step is AskingForActive
            &&& installation_of(host) matches Some((version, root)) ==> turn->Wait_0.step == (
            SearchStepView::Listing { host, version, root })
        }),
{
}

/// What lies beside the active host ends a search if all of it could be read: with the newest of
/// the active host and what lies beside it. Else the active host is asked for.
pub proof fn law_after_the_siblings(
    search: SearchView,
    installs: Option<Seq<Option<InstallView>>>,
)
    requires
        search.step is Listing,
    ensures
        ({
            let turn = search_turn(search, EventView::Installs(installs));
            let known = installs is Some && forall|i: int|
                0 <= i < installs->0.len() ==> (#[trigger] installs->0[i]) is Some;
            &&& known ==> turn == (SearchTurnView::Found {
                host: newest(
                    search.step->Listing_version,
                    search.step->Listing_host,
                    installs->0,
                ).1,
                env: search.env,
            })
            &&& !known ==> turn == SearchTurnView::Wait(
                SearchView { env: search.env, step: SearchStepView::AskingForActive },
            )
        }),
{
}

/// Where the first `which` names no host, a search without an environment asks once more, and the
/// second answer decides: it is the host that this names, or `dotnet` if it names none.
pub proof fn law_second_answer_decides(first: ResultView, again: ResultView)
    requires
        active_command(first) is None,
    ensures
        search_run(search_start(None), seq![EventView::Process(first)]) == SearchTurnView::Wait(
            SearchView { env: None, step: SearchStepView::AskingForActive },
        ),
        search_run(
            search_start(None),
            seq![EventView::Process(first), EventView::Process(again)],
        ) == (SearchTurnView::Found {
            host: match active_command(again) {
                Some(host) => host,
                None => "dotnet"@,
            },
            env: None,
        }),
{
    let one = seq![EventView::Process(first)];
    let two = seq![EventView::Process(first), EventView::Process(again)];
    reveal_with_fuel(search_run, 3);
    assert(one[0] == EventView::Process(first));
    assert(two[0] == EventView::Process(first));
    assert(two.skip(1)[0] == EventView::Process(again));
}

/// Where the active host has no installation that is called by a version, a search without an
/// environment asks for the active host again and takes the one that it is told then. The name
/// `dotnet` is left only if it is told none.
pub proof fn law_active_host_without_version(
    first: ResultView,
    path: Option<Seq<char>>,
    again: ResultView,
)
    requires
        active_command(first) is Some,
        path is Some ==> installation_of(path->0) is None,
        path is None ==> installation_of(active_command(first)->0) is None,
    ensures
        search_run(
            search_start(None),
            seq![EventView::Process(first), EventView::Canonical(path)],
        ) == SearchTurnView::Wait(
            SearchView { env: None, step: SearchStepView::AskingForActive },
        ),
        search_run(
            search_start(None),
            seq![
                EventView::Process(first),
                EventView::Canonical(path),
                EventView::Process(again),
            ],
        ) == (SearchTurnView::Found {
            host: match active_command(again) {
                Some(host) => host,
                None => "dotnet"@,
            },
            env: None,
        }),
{
    let two = seq![EventView::Process(first), EventView::Canonical(path)];
    let three = seq![
        EventView::Process(first),
        EventView::Canonical(path),
        EventView::Process(again),
    ];
    reveal_with_fuel(search_run, 4);
    assert(two[0] == EventView::Process(first));
    assert(two.skip(1)[0] == EventView::Canonical(path));
    assert(three[0] == EventView::Process(first));
    assert(three.skip(1)[0] == EventView::Canonical(path));
    assert(three.skip(1).skip(1)[0] == EventView::Process(again));
}

/// Where it could not be read what lies beside the active host, a search without an environment
/// asks for the active host again and takes the one that it is told then. The name `dotnet` is
/// left only if it is told none.
pub proof fn law_unreadable_siblings(
    first: ResultView,
    path: Option<Seq<char>>,
    installs: Option<Seq<Option<InstallView>>>,
    again: ResultView,
)
    requires
        active_command(first) is Some,
        path is Some ==> installation_of(path->0) is Some,
        path is None ==> installation_of(active_command(first)->0) is Some,
        installs is None || exists|i: int|
            0 <= i < installs->0.len() && (#[trigger] installs->0[i]) is None,
    ensures
        search_run(
            search_start(None),
            seq![
                EventView::Process(first),
                EventView::Canonical(path),
                EventView::Installs(installs),
            ],
        ) == SearchTurnView::Wait(
            SearchView { env: None, step: SearchStepView::AskingForActive },
        ),
        search_run(
            search_start(None),
            seq![
                EventView::Process(first),
                EventView::Canonical(path),
                EventView::Installs(installs),
                EventView::Process(again),
            ],
        ) == (SearchTurnView::Found {
            host: match active_command(again) {
                Some(host) => host,
                None => "dotnet"@,
            },
            env: None,
        }),
{
    let three = seq![
        EventView::Process(first),
        EventView::Canonical(path),
        EventView::Installs(installs),
    ];
    let four = seq![
        EventView::Process(first),
        EventView::Canonical(path),
        EventView::Installs(installs),
        EventView::Process(again),
    ];
    reveal_with_fuel(search_run, 5);
    assert(three[0] == EventView::Process(first));
    assert(three.skip(1)[0] == EventView::Canonical(path));
    assert(three.skip(1).skip(1)[0] == EventView::Installs(installs));
    assert(four[0] == EventView::Process(first));
    assert(four.skip(1)[0] == EventView::Canonical(path));
    assert(four.skip(1).skip(1)[0] == EventView::Installs(installs));
    assert(four.skip(1).skip(1).skip(1)[0] == EventView::Process(again));
    if installs is Some {
        assert(!all_read(installs->0));
    }
}

/// While a search waits, it asks for the place of the active host that it was told, and then for
/// what lies in the directory of that host's installation.
pub proof fn law_search_looks_beside_the_active_host(first: ResultView, path: Option<Seq<char>>)
    requires
        active_command(first) is Some,
    ensures
        ({
            let place = match path {
                Some(canonical) => canonical,
                None => active_command(first)->0,
            };
            let one = search_run(search_start(None), seq![EventView::Process(first)]);
            let two = search_run(
                search_start(None),
                seq![EventView::Process(first), EventView::Canonical(path)],
            );
            &&& one is Wait
            &&& search_action(one->Wait_0) == ActionView::Canonicalize(active_command(first)->0)
            &&& installation_of(place) matches Some((version, root)) ==> {
                &&& two is Wait
                &&& search_action(two->Wait_0) == ActionView::ListInstalls(root)
            }
        }),
{
    let one = seq![EventView::Process(first)];
    let two = seq![EventView::Process(first), EventView::Canonical(path)];
    reveal_with_fuel(search_run, 3);
    assert(one[0] == EventView::Process(first));
    assert(two[0] == EventView::Process(first));
    assert(two.skip(1)[0] == EventView::Canonical(path));
}

/// What every state of a search that was started keeps to.
spec fn search_kept(search: SearchView, env: Option<EnvView>) -> bool {
    &&& search.env == env
    &&& env is Some ==> search.step is AskingForActive
    &&& search.step matches SearchStepView::Listing { host, version, root } ==> installation_of(
        host,
    ) == Some((version, root))
}

proof fn lemma_last_turn(
    search: SearchView,
    env: Option<EnvView>,
    events: Seq<EventView>,
) -> (before: SearchView)
    requires
        search_kept(search, env),
        events.len() > 0,
        search_run(search, events.drop_last()) is Wait,
    ensures
        search_kept(before, env),
        search_run(search, events.drop_last()) == SearchTurnView::Wait(before),
        search_run(search, events) == search_turn(before, events.last()),
    decreases events.len(),
{
    if events.len() == 1 {
        reveal_with_fuel(search_run, 2);
        assert(events.drop_last().len() == 0);
        assert(events[0] == events.last());
        assert(events.skip(1).len() == 0);
        search
    } else {
        let fewer = events.drop_last();
        assert(fewer[0] == events[0]);
        match search_turn(search, events[0]) {
            SearchTurnView::Wait(next) => {
                assert(events.skip(1).drop_last() =~= fewer.skip(1));
                assert(events.skip(1).last() == events.last());
                lemma_last_turn(next, env, events.skip(1))
            },
            SearchTurnView::Found { .. } => search,
        }
    }
}

/// The answer on which a search ends decides on the host: an answer of `which` by the host that it
/// names, or, only if it names none, as `dotnet`; a list of installations, which only a search
/// without an environment asks for, by the newest of them and an active host that has an
/// installation. No other answer ends a search.
pub proof fn law_last_answer_decides(env: Option<EnvView>, events: Seq<EventView>)
    requires
        events.len() > 0,
        search_run(search_start(env), events.drop_last()) is Wait,
        search_run(search_start(env), events) is Found,
    ensures
        ({
            let found = search_run(search_start(env), events);
            &&& found->env == env
            &&& match events.last() {
                EventView::Process(result) => found->host == (match active_command(result) {
                    Some(host) => host,
                    None => "dotnet"@,
                }),
                EventView::Installs(Some(installs)) => {
                    &&& env is None
                    &&& all_read(installs)
                    &&& exists|active: Seq<char>|
                        (#[trigger] installation_of(active)) is Some && {
                            let (version, root) = installation_of(active)->0;
                            found->host == newest(version, active, installs).1
                        }
                },
                _ => false,
            }
        }),
{
    let before = lemma_last_turn(search_start(env), env, events);
    if let (
        SearchStepView::Listing { host, version, root },
        EventView::Installs(Some(installs)),
    ) = (before.step, events.last()) {
        assert(installation_of(host) is Some);
    }
}

/// An event that a search did not ask for changes nothing.
pub proof fn law_search_ignores_other_events(search: SearchView, event: EventView)
    requires
        match search_action(search) {
            ActionView::Run(_) => !(event is Process),
            ActionView::Canonicalize(_) => !(event is Canonical),
            ActionView::ListInstalls(_) => !(event is Installs),
            _ => true,
        },
    ensures
        search_turn(search, event) == SearchTurnView::Wait(search),
{
}

} // verus!
