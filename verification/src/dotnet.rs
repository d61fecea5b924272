//! The search for the dotnet host.
use vstd::prelude::*;

use crate::command::{
    or_none, result_view, with_optional_env, CommandLine, CommandView, EnvVars, EnvView,
    ProcessResult, ResultView,
};
use crate::events::{answers, Action, ActionView, DotnetInstall, Event, EventView, InstallView};
use crate::paths::{file_name, join, joined, last_component, law_parent_of_joined, parent, parent_path, without_trailing};
use crate::roslyn::RoslynOfficial;
use crate::text::{trim, trimmed};
use crate::version::{
    is_before, law_version_order_irreflexive, law_version_order_total,
    law_version_order_transitive, version_before, version_of,
};

verus! {

/// The call that asks which dotnet host the search path leads to.
pub open spec fn which_dotnet(env: Option<EnvView>) -> CommandView {
    CommandView { command: "which"@, args: seq!["dotnet"@], env: or_none(env) }
}

/// The dotnet host that `which` found, if it found one.
pub open spec fn active_command(result: ResultView) -> Option<Seq<char>> {
    match result {
        Ok(report) if report.succeeded() && trimmed(report.stdout).len() > 0 => Some(
            trimmed(report.stdout),
        ),
        _ => None,
    }
}

/// The version that the directory of the host `path` is called by, and the directory that it
/// lies in with its siblings.
pub open spec fn installation_of(path: Seq<char>) -> Option<(Seq<u32>, Seq<char>)> {
    match parent_path(path) {
        Some(directory) => match (parent_path(directory), last_component(directory)) {
            (Some(root), Some(name)) => match version_of(name) {
                Some(version) => Some((version, root)),
                None => None,
            },
            _ => None,
        },
        None => None,
    }
}

/// The version of an installation that may be used: a directory that is called by a version and
/// has a dotnet host in it.
pub open spec fn usable_version(install: InstallView) -> Option<Seq<u32>> {
    if install.is_dir && install.has_dotnet {
        match last_component(install.path) {
            Some(name) => version_of(name),
            None => None,
        }
    } else {
        None
    }
}

/// The host of an installation.
pub open spec fn host_of(install: InstallView) -> Seq<char> {
    joined(install.path, "dotnet"@)
}

/// The version and the host to use: the active one, unless an installation is newer. Of
/// installations that are equally new the first counts.
pub open spec fn newest(
    version: Seq<u32>,
    host: Seq<char>,
    installs: Seq<Option<InstallView>>,
) -> (Seq<u32>, Seq<char>)
    decreases installs.len(),
{
    if installs.len() == 0 {
        (version, host)
    } else {
        let best = newest(version, host, installs.drop_last());
        match installs.last() {
            Some(install) => match usable_version(install) {
                Some(other) if version_before(best.0, other) => (other, host_of(install)),
                _ => best,
            },
            None => best,
        }
    }
}

/// Whether every entry could be read.
pub open spec fn all_read(installs: Seq<Option<InstallView>>) -> bool {
    forall|i: int| 0 <= i < installs.len() ==> (#[trigger] installs[i]) is Some
}

/// The host to use, given what lies beside the active installation. There is none if that could
/// not be read.
pub open spec fn latest_host(
    version: Seq<u32>,
    host: Seq<char>,
    installs: Option<Seq<Option<InstallView>>>,
) -> Option<Seq<char>> {
    match installs {
        Some(found) if all_read(found) => Some(newest(version, host, found).1),
        _ => None,
    }
}

/// What the search waits for.
#[derive(Debug)]
pub enum SearchStep {
    /// The active host, which is then the one to use.
    AskingForActive,
    /// The active host, beside which a newer one may lie.
    AskingForSideBySide,
    /// The place of the active host with all links followed.
    Resolving { active: String },
    /// What lies beside the installation of the active host.
    Listing { host: String, version: Vec<u32>, root: String },
}

/// The text of what the search waits for.
#[verifier::ext_equal]
pub enum SearchStepView {
    AskingForActive,
    AskingForSideBySide,
    Resolving { active: Seq<char> },
    Listing { host: Seq<char>, version: Seq<u32>, root: Seq<char> },
}

impl View for SearchStep {
    type V = SearchStepView;

    open spec fn view(&self) -> SearchStepView {
        match self {
            SearchStep::AskingForActive => SearchStepView::AskingForActive,
            SearchStep::AskingForSideBySide => SearchStepView::AskingForSideBySide,
            SearchStep::Resolving { active } => SearchStepView::Resolving { active: active@ },
            SearchStep::Listing { host, version, root } => SearchStepView::Listing {
                host: host@,
                version: version@,
                root: root@,
            },
        }
    }
}

/// The search for the dotnet host, in the given environment or the inherited one.
#[derive(Debug)]
pub struct DotnetSearch {
    pub env: Option<EnvVars>,
    pub step: SearchStep,
}

/// The text of the search.
#[verifier::ext_equal]
pub struct SearchView {
    pub env: Option<EnvView>,
    pub step: SearchStepView,
}

impl View for DotnetSearch {
    type V = SearchView;

    open spec fn view(&self) -> SearchView {
        SearchView { env: self.env.deep_view(), step: self.step@ }
    }
}

/// How the search goes on.
#[derive(Debug)]
pub enum SearchTurn {
    Wait(DotnetSearch),
    /// The host to use. The environment is handed back.
    Found { host: String, env: Option<EnvVars> },
}

/// The text of how the search goes on.
#[verifier::ext_equal]
pub enum SearchTurnView {
    Wait(SearchView),
    Found { host: Seq<char>, env: Option<EnvView> },
}

impl View for SearchTurn {
    type V = SearchTurnView;

    open spec fn view(&self) -> SearchTurnView {
        match self {
            SearchTurn::Wait(search) => SearchTurnView::Wait(search@),
            SearchTurn::Found { host, env } => SearchTurnView::Found {
                host: host@,
                env: env.deep_view(),
            },
        }
    }
}

/// The start of a search. With an environment of its own it takes the active host of that
/// environment; without one it looks for the newest of the hosts that lie side by side.
pub open spec fn search_start(env: Option<EnvView>) -> SearchView {
    SearchView {
        env: env,
        step: match env {
            Some(_) => SearchStepView::AskingForActive,
            None => SearchStepView::AskingForSideBySide,
        },
    }
}

/// What a search asks for.
pub open spec fn search_action(search: SearchView) -> ActionView {
    match search.step {
        SearchStepView::AskingForActive => ActionView::Run(which_dotnet(search.env)),
        SearchStepView::AskingForSideBySide => ActionView::Run(which_dotnet(search.env)),
        SearchStepView::Resolving { active } => ActionView::Canonicalize(active),
        SearchStepView::Listing { host, version, root } => ActionView::ListInstalls(root),
    }
}

/// How a search goes on after an event. Where the newest host cannot be told, the active one is
/// asked for once more, and where there is none, the name `dotnet` has to do. An event that is no
/// answer changes nothing.
pub open spec fn search_turn(search: SearchView, event: EventView) -> SearchTurnView {
    let fall_back = SearchTurnView::Wait(
        SearchView { step: SearchStepView::AskingForActive, ..search },
    );
    match (search.step, event) {
        (SearchStepView::AskingForActive, EventView::Process(result)) => match active_command(
            result,
        ) {
            Some(host) => SearchTurnView::Found { host, env: search.env },
            None => SearchTurnView::Found { host: "dotnet"@, env: search.env },
        },
        (SearchStepView::AskingForSideBySide, EventView::Process(result)) => match active_command(
            result,
        ) {
            Some(active) => SearchTurnView::Wait(
                SearchView { step: SearchStepView::Resolving { active }, ..search },
            ),
            None => fall_back,
        },
        (SearchStepView::Resolving { active }, EventView::Canonical(path)) => {
            let host = match path {
                Some(canonical) => canonical,
                None => active,
            };
            match installation_of(host) {
                Some((version, root)) => SearchTurnView::Wait(
                    SearchView {
                        step: SearchStepView::Listing { host, version, root },
                        ..search
                    },
                ),
                None => fall_back,
            }
        },
        (
            SearchStepView::Listing { host, version, root },
            EventView::Installs(installs),
        ) => match latest_host(version, host, installs) {
            Some(latest) => SearchTurnView::Found { host: latest, env: search.env },
            None => fall_back,
        },
        _ => SearchTurnView::Wait(search),
    }
}

/// The version of an installation that may be used.
pub fn read_usable_version(install: &DotnetInstall) -> (version: Option<Vec<u32>>)
    ensures
        version.deep_view() == usable_version(install.deep_view()),
{
    if !install.is_dir || !install.has_dotnet {
        return None;
    }
    match file_name(install.path.as_str()) {
        Some(name) => RoslynOfficial::parse_dotnet_version(name.as_str()),
        None => None,
    }
}

impl RoslynOfficial {
    /// Starts the search for the dotnet host.
    pub fn resolve_dotnet_command(dotnet_env: Option<EnvVars>) -> (search: DotnetSearch)
        ensures
            search@ == search_start(dotnet_env.deep_view()),
    {
        let step = match dotnet_env {
            Some(_) => SearchStep::AskingForActive,
            None => SearchStep::AskingForSideBySide,
        };
        DotnetSearch { env: dotnet_env, step }
    }

    /// The dotnet host that `which` found, if it found one.
    pub fn find_active_dotnet_command(result: &ProcessResult) -> (host: Option<String>)
        ensures
            host.deep_view() == active_command(result_view(*result)),
    {
        match result {
            Ok(report) => {
                if !report.succeeded() {
                    return None;
                }
                let host = trim(report.stdout.as_str());
                if host.as_str().is_empty() {
                    None
                } else {
                    Some(host)
                }
            },
            Err(_) => None,
        }
    }

    /// The newest of the host `host` of the given version and the hosts that lie beside its
    /// installation, or nothing if it could not be read what does.
    pub fn find_latest_side_by_side_dotnet_command(
        version: Vec<u32>,
        host: String,
        installs: Option<Vec<Option<DotnetInstall>>>,
    ) -> (latest: Option<String>)
        ensures
            latest.deep_view() == latest_host(version@, host@, installs.deep_view()),
    {
        let found = match installs {
            Some(found) => found,
            None => {
                return None;
            },
        };
        let ghost all = found.deep_view();
        let ghost first_version = version@;
        let ghost first_host = host@;
        let mut best_version = version;
        let mut best_host = host;
        let mut i: usize = 0;
        while i < found.len()
            invariant
                i <= found.len(),
                all == found.deep_view(),
                installs.deep_view() == Some(all),
                first_version == version@,
                first_host == host@,
                forall|j: int| 0 <= j < i ==> (#[trigger] all[j]) is Some,
                (best_version@, best_host@) == newest(
                    first_version,
                    first_host,
                    all.take(i as int),
                ),
            decreases found.len() - i,
        {
            assert(all.take(i + 1).drop_last() =~= all.take(i as int));
            assert(all[i as int] == found@[i as int].deep_view());
            match &found[i] {
                Some(install) => {
                    match read_usable_version(install) {
                        Some(other) => {
                            assert(other.deep_view() =~= other@);
                            if is_before(&best_version, &other) {
                                best_version = other;
                                best_host = join(install.path.as_str(), "dotnet");
                            }
                        },
                        None => {},
                    }
                },
                None => {
                    return None;
                },
            }
            i += 1;
        }
        assert(all.take(i as int) =~= all);
        Some(best_host)
    }
}

/// The version that the directory of the host `path` is called by, and the directory that it
/// lies in.
pub fn read_installation(path: &str) -> (found: Option<(Vec<u32>, String)>)
    ensures
        found.deep_view() == installation_of(path@),
{
    let directory = match parent(path) {
        Some(directory) => directory,
        None => {
            return None;
        },
    };
    let root = match parent(directory.as_str()) {
        Some(root) => root,
        None => {
            return None;
        },
    };
    let name = match file_name(directory.as_str()) {
        Some(name) => name,
        None => {
            return None;
        },
    };
    match RoslynOfficial::parse_dotnet_version(name.as_str()) {
        Some(version) => Some((version, root)),
        None => None,
    }
}

impl DotnetSearch {
    /// What the search asks for.
    pub fn action(&self) -> (action: Action)
        ensures
            action@ == search_action(self@),
    {
        match &self.step {
            SearchStep::AskingForActive | SearchStep::AskingForSideBySide => {
                let which = with_optional_env(
                    CommandLine::new("which").arg("dotnet"),
                    self.env.as_ref(),
                );
                assert(Seq::empty().push("dotnet"@) =~= seq!["dotnet"@]);
                assert(Seq::empty() + or_none(self.env.deep_view()) =~= or_none(
                    self.env.deep_view(),
                ));
                Action::Run(which)
            },
            SearchStep::Resolving { active } => Action::Canonicalize(active.clone()),
            SearchStep::Listing { host, version, root } => Action::ListInstalls(root.clone()),
        }
    }

    /// How the search goes on after an event.
    pub fn advance(self, event: Event) -> (turn: SearchTurn)
        ensures
            turn@ == search_turn(self@, event@),
    {
        let env = self.env;
        match (self.step, event) {
            (SearchStep::AskingForActive, Event::Process(result)) => {
                match RoslynOfficial::find_active_dotnet_command(&result) {
                    Some(host) => SearchTurn::Found { host, env },
                    None => SearchTurn::Found { host: "dotnet".to_string(), env },
                }
            },
            (SearchStep::AskingForSideBySide, Event::Process(result)) => {
                match RoslynOfficial::find_active_dotnet_command(&result) {
                    Some(active) => SearchTurn::Wait(
                        DotnetSearch { env, step: SearchStep::Resolving { active } },
                    ),
                    None => SearchTurn::Wait(
                        DotnetSearch { env, step: SearchStep::AskingForActive },
                    ),
                }
            },
            (SearchStep::Resolving { active }, Event::Canonical(path)) => {
                let host = match path {
                    Some(canonical) => canonical,
                    None => active,
                };
                match read_installation(host.as_str()) {
                    Some((version, root)) => {
                        assert(version.deep_view() =~= version@);
                        SearchTurn::Wait(
                            DotnetSearch { env, step: SearchStep::Listing { host, version, root } },
                        )
                    },
                    None => SearchTurn::Wait(
                        DotnetSearch { env, step: SearchStep::AskingForActive },
                    ),
                }
            },
            (SearchStep::Listing { host, version, root }, Event::Installs(installs)) => {
                match RoslynOfficial::find_latest_side_by_side_dotnet_command(
                    version,
                    host,
                    installs,
                ) {
                    Some(latest) => SearchTurn::Found { host: latest, env },
                    None => SearchTurn::Wait(
                        DotnetSearch { env, step: SearchStep::AskingForActive },
                    ),
                }
            },
            (step, _) => SearchTurn::Wait(DotnetSearch { env, step }),
        }
    }
}

/// The host that is chosen is as new as any there is: neither the active version nor that of an
/// installation that may be used is newer.
pub proof fn law_newest_is_newest(
    version: Seq<u32>,
    host: Seq<char>,
    installs: Seq<Option<InstallView>>,
)
    ensures
        !version_before(newest(version, host, installs).0, version),
        forall|i: int|
            0 <= i < installs.len() && (#[trigger] installs[i]) is Some && usable_version(
                installs[i]->0,
            ) is Some ==> !version_before(
                newest(version, host, installs).0,
                usable_version(installs[i]->0)->0,
            ),
    decreases installs.len(),
{
    if installs.len() == 0 {
        law_version_order_irreflexive(version);
    } else {
        let fewer = installs.drop_last();
        law_newest_is_newest(version, host, fewer);
        let below = newest(version, host, fewer).0;
        let best = newest(version, host, installs).0;
        if version_before(best, version) {
            if best != below {
                law_version_order_transitive(below, best, version);
            }
        }
        assert forall|i: int|
            0 <= i < installs.len() && (#[trigger] installs[i]) is Some && usable_version(
                installs[i]->0,
            ) is Some implies !version_before(best, usable_version(installs[i]->0)->0) by {
            let other = usable_version(installs[i]->0)->0;
            if i < installs.len() - 1 {
                assert(fewer[i] == installs[i]);
                if version_before(best, other) && best != below {
                    law_version_order_transitive(below, best, other);
                }
            } else {
                if best == other {
                    law_version_order_irreflexive(best);
                }
            }
        }
    }
}

/// The host that is chosen is the active one, or that of an installation which is newer than the
/// active one and than every installation before it.
pub proof fn law_newest_is_there(
    version: Seq<u32>,
    host: Seq<char>,
    installs: Seq<Option<InstallView>>,
)
    ensures
        newest(version, host, installs) == (version, host) || exists|i: int|
            first_newer(version, installs, i) && newest(version, host, installs) == (
                usable_version(installs[i]->0)->0,
                host_of(installs[i]->0),
            ),
    decreases installs.len(),
{
    if installs.len() > 0 {
        let fewer = installs.drop_last();
        law_newest_is_there(version, host, fewer);
        let below = newest(version, host, fewer);
        let best = newest(version, host, installs);
        if best == below {
            if below != (version, host) {
                let i = choose|i: int|
                    first_newer(version, fewer, i) && below == (
                        usable_version(fewer[i]->0)->0,
                        host_of(fewer[i]->0),
                    );
                assert forall|j: int|
                    0 <= j < i && (#[trigger] installs[j]) is Some && usable_version(
                        installs[j]->0,
                    ) is Some implies version_before(
                    usable_version(installs[j]->0)->0,
                    usable_version(installs[i]->0)->0,
                ) by {
                    assert(fewer[j] == installs[j]);
                }
                assert(first_newer(version, installs, i));
            }
        } else {
            let i = installs.len() - 1;
            let other = usable_version(installs[i]->0)->0;
            law_newest_is_newest(version, host, fewer);
            if version != below.0 {
                law_version_order_total(version, below.0);
                law_version_order_transitive(version, below.0, other);
            }
            assert forall|j: int|
                0 <= j < i && (#[trigger] installs[j]) is Some && usable_version(
                    installs[j]->0,
                ) is Some implies version_before(usable_version(installs[j]->0)->0, other) by {
                assert(fewer[j] == installs[j]);
                let earlier = usable_version(installs[j]->0)->0;
                if earlier != below.0 {
                    law_version_order_total(earlier, below.0);
                    law_version_order_transitive(earlier, below.0, other);
                }
            }
            assert(first_newer(version, installs, i));
        }
    }
}

/// Whether the installation at that place may be used and is newer than the given version and
/// than every installation before it that may be used.
pub open spec fn first_newer(
    version: Seq<u32>,
    installs: Seq<Option<InstallView>>,
    place: int,
) -> bool {
    &&& 0 <= place < installs.len()
    &&& installs[place] is Some
    &&& usable_version(installs[place]->0) is Some
    &&& version_before(version, usable_version(installs[place]->0)->0)
    &&& forall|j: int|
        0 <= j < place && (#[trigger] installs[j]) is Some && usable_version(installs[j]->0) is Some
            ==> version_before(
            usable_version(installs[j]->0)->0,
            usable_version(installs[place]->0)->0,
        )
}

/// Where no installation that may be used is newer, the active host stays.
pub proof fn law_active_host_stays(
    version: Seq<u32>,
    host: Seq<char>,
    installs: Seq<Option<InstallView>>,
)
    requires
        forall|i: int|
            0 <= i < installs.len() && (#[trigger] installs[i]) is Some && usable_version(
                installs[i]->0,
            ) is Some ==> !version_before(version, usable_version(installs[i]->0)->0),
    ensures
        newest(version, host, installs) == (version, host),
{
    law_newest_is_there(version, host, installs);
}

/// The root of an installation's host is the installation's own directory.
pub proof fn law_host_lies_in_its_installation(install: InstallView)
    ensures
        parent_path(host_of(install)) == Some(without_trailing(install.path)),
        last_component(host_of(install)) == Some("dotnet"@),
{
    reveal_strlit("dotnet");
    assert("dotnet"@ =~= seq!['d', 'o', 't', 'n', 'e', 't']);
    assert(!"dotnet"@.contains('/'));
    assert("dotnet"@ != seq!['.'] && "dotnet"@ != seq!['.', '.']) by {
        assert("dotnet"@.len() == 6);
    }
    law_parent_of_joined(install.path, "dotnet"@);
}

/// How a search stands after the events, one after the other.
pub open spec fn search_run(search: SearchView, events: Seq<EventView>) -> SearchTurnView
    decreases events.len(),
{
    if events.len() == 0 {
        SearchTurnView::Wait(search)
    } else {
        match search_turn(search, events[0]) {
            SearchTurnView::Wait(next) => search_run(next, events.skip(1)),
            found => found,
        }
    }
}

/// Whether each of the events answers what the search asks for when it comes.
pub open spec fn search_answered(search: SearchView, events: Seq<EventView>) -> bool
    decreases events.len(),
{
    events.len() > 0 ==> answers(search_action(search), events[0]) && match search_turn(
        search,
        events[0],
    ) {
        SearchTurnView::Wait(next) => search_answered(next, events.skip(1)),
        _ => true,
    }
}

/// How many answers a search may still take.
pub open spec fn search_rank(search: SearchView) -> nat {
    match search.step {
        SearchStepView::AskingForSideBySide => 4,
        SearchStepView::Resolving { .. } => 3,
        SearchStepView::Listing { .. } => 2,
        SearchStepView::AskingForActive => 1,
    }
}

/// Every answer brings a search nearer to its end.
pub proof fn law_search_advances(search: SearchView, event: EventView)
    requires
        answers(search_action(search), event),
    ensures
        match search_turn(search, event) {
            SearchTurnView::Wait(next) => search_rank(next) < search_rank(search),
            SearchTurnView::Found { .. } => true,
        },
{
}

/// A search ends: once it has had as many answers as it may take, the host is found.
pub proof fn law_search_ends(search: SearchView, events: Seq<EventView>)
    requires
        search_answered(search, events),
        events.len() >= search_rank(search),
    ensures
        search_run(search, events) is Found,
    decreases events.len(),
{
    law_search_advances(search, events[0]);
    match search_turn(search, events[0]) {
        SearchTurnView::Wait(next) => {
            law_search_ends(next, events.skip(1));
        },
        _ => {},
    }
}

/// Whether what a search keeps as the host is not empty.
pub open spec fn keeps_named_host(search: SearchView) -> bool {
    match search.step {
        SearchStepView::Listing { host, version, root } => host.len() > 0,
        _ => true,
    }
}

/// A turn of a search keeps the host from being empty, and the environment as it is.
pub proof fn lemma_turn_keeps_named_host(search: SearchView, event: EventView)
    requires
        keeps_named_host(search),
    ensures
        match search_turn(search, event) {
            SearchTurnView::Found { host, env } => host.len() > 0 && env == search.env,
            SearchTurnView::Wait(next) => keeps_named_host(next) && next.env == search.env,
        },
{
    reveal_strlit("dotnet");
    if let (
        SearchStepView::Listing { host, version, root },
        EventView::Installs(Some(installs)),
    ) = (search.step, event) {
        law_newest_is_there(version, host, installs);
        assert(forall|install: InstallView| (#[trigger] host_of(install)).len() > 0);
    }
}

proof fn lemma_run_keeps_named_host(search: SearchView, events: Seq<EventView>)
    requires
        keeps_named_host(search),
    ensures
        match search_run(search, events) {
            SearchTurnView::Found { host, env } => host.len() > 0 && env == search.env,
            SearchTurnView::Wait(_) => true,
        },
    decreases events.len(),
{
    if events.len() > 0 {
        lemma_turn_keeps_named_host(search, events[0]);
        match search_turn(search, events[0]) {
            SearchTurnView::Wait(next) => {
                lemma_run_keeps_named_host(next, events.skip(1));
            },
            _ => {},
        }
    }
}

/// A search never finds an empty host, and it hands back the environment that it was started
/// with.
pub proof fn law_found_host_is_named(env: Option<EnvView>, events: Seq<EventView>)
    ensures
        match search_run(search_start(env), events) {
            SearchTurnView::Found { host, env: kept } => host.len() > 0 && kept == env,
            SearchTurnView::Wait(_) => true,
        },
{
    lemma_run_keeps_named_host(search_start(env), events);
}

/// In an environment of its own a search runs `which` once and takes what it found, or else the
/// name `dotnet`. It does not look for newer hosts.
pub proof fn law_given_environment_decides(env: EnvView, result: ResultView)
    ensures
        search_run(search_start(Some(env)), seq![EventView::Process(result)])
            == (SearchTurnView::Found {
            host: match active_command(result) {
                Some(host) => host,
                None => "dotnet"@,
            },
            env: Some(env),
        }),
{
    let events = seq![EventView::Process(result)];
    assert(events[0] == EventView::Process(result));
}

/// Without an environment of its own a search takes the newest of the hosts that lie side by
/// side, once it could be read where the active one lies and what lies beside it.
pub proof fn law_newest_side_by_side_is_found(
    result: ResultView,
    path: Option<Seq<char>>,
    installs: Seq<Option<InstallView>>,
)
    requires
        active_command(result) is Some,
        installation_of(
            match path {
                Some(canonical) => canonical,
                None => active_command(result)->0,
            },
        ) is Some,
        all_read(installs),
    ensures
        ({
            let host = match path {
                Some(canonical) => canonical,
                None => active_command(result)->0,
            };
            let (version, root) = installation_of(host)->0;
            search_run(
                search_start(None),
                seq![
                    EventView::Process(result),
                    EventView::Canonical(path),
                    EventView::Installs(Some(installs)),
                ],
            ) == (SearchTurnView::Found {
                host: newest(version, host, installs).1,
                env: None,
            })
        }),
{
    let events = seq![
        EventView::Process(result),
        EventView::Canonical(path),
        EventView::Installs(Some(installs)),
    ];
    reveal_with_fuel(search_run, 4);
    assert(events[0] == EventView::Process(result));
    assert(events.skip(1)[0] == EventView::Canonical(path));
    assert(events.skip(1).skip(1)[0] == EventView::Installs(Some(installs)));
}

} // verus!
