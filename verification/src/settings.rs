//! The user's settings: what the start of the server reads in them, and the configuration that
//! the server gets from them.
use vstd::prelude::*;
use zed_extension_api::serde_json::Value;

use crate::json::{
    are_members, bool_value, get_member, into_entries, into_members, json, member, members,
    object_value, Json,
};
use crate::roslyn::RoslynOfficial;

verus! {

/// The user's settings for the language server.
pub struct LspSettings {
    /// What is meant for the server itself.
    pub settings: Option<Value>,
}

impl View for LspSettings {
    type V = Option<Json>;

    open spec fn view(&self) -> Option<Json> {
        match self.settings {
            Some(value) => Some(json(value)),
            None => None,
        }
    }
}

/// The setting of that name, if it is there.
pub open spec fn user_setting(settings: Option<Json>, name: Seq<char>) -> Option<Json> {
    match settings {
        Some(value) => member(value, name),
        None => None,
    }
}

/// Whether dotnet is to run in the worktree's environment: only if the settings say so.
pub open spec fn wants_worktree_env(settings: Option<Json>) -> bool {
    user_setting(settings, "use_worktree_dotnet_env"@) == Some(Json::Bool(true))
}

/// The directory for the sources of the Razor extension, if the settings name one.
pub open spec fn razor_root(settings: Option<Json>) -> Option<Seq<char>> {
    match user_setting(settings, "razor_source_repository_root"@) {
        Some(Json::Text(path)) => Some(path),
        _ => None,
    }
}

/// The options that the server gets where the user says nothing. Razor is served along with C#.
/// Code lenses, on which a click would do nothing, are off; inlay hints, which the editor shows
/// only if asked to, are on.
pub open spec fn default_options() -> Seq<(Seq<char>, bool)> {
    seq![
        ("razor|language_server.cohosting_enabled"@, true),
        ("csharp|code_lens.dotnet_enable_references_code_lens"@, false),
        ("csharp|code_lens.dotnet_enable_tests_code_lens"@, false),
        ("razor|code_lens.dotnet_enable_references_code_lens"@, false),
        ("razor|code_lens.dotnet_enable_tests_code_lens"@, false),
        ("csharp|inlay_hints.dotnet_enable_inlay_hints_for_parameters"@, true),
        ("csharp|inlay_hints.dotnet_enable_inlay_hints_for_literal_parameters"@, true),
        ("csharp|inlay_hints.dotnet_enable_inlay_hints_for_indexer_parameters"@, true),
        ("csharp|inlay_hints.dotnet_enable_inlay_hints_for_object_creation_parameters"@, true),
        ("csharp|inlay_hints.dotnet_enable_inlay_hints_for_other_parameters"@, true),
        ("csharp|inlay_hints.csharp_enable_inlay_hints_for_types"@, true),
        ("csharp|inlay_hints.csharp_enable_inlay_hints_for_implicit_variable_types"@, true),
        ("csharp|inlay_hints.csharp_enable_inlay_hints_for_lambda_parameter_types"@, true),
        ("csharp|inlay_hints.csharp_enable_inlay_hints_for_implicit_object_creation"@, true),
        ("csharp|inlay_hints.csharp_enable_inlay_hints_for_collection_expressions"@, true),
    ]
}

/// The object that has the options for members.
pub open spec fn options_object(options: Seq<(Seq<char>, bool)>) -> Map<Seq<char>, Json>
    decreases options.len(),
{
    if options.len() == 0 {
        Map::empty()
    } else {
        options_object(options.drop_last()).insert(
            options.last().0,
            Json::Bool(options.last().1),
        )
    }
}

/// The members of the configuration that the server gets: the default options, over which go the
/// user's settings, if they are an object.
pub open spec fn roslyn_config(settings: Json) -> Map<Seq<char>, Json> {
    let defaults = options_object(default_options());
    match settings {
        Json::Object(user) => defaults.union_prefer_right(user),
        _ => defaults,
    }
}

/// `base` with the entries set one after the other.
spec fn overlay(base: Map<Seq<char>, Json>, entries: Seq<(String, Value)>) -> Map<Seq<char>, Json>
    decreases entries.len(),
{
    if entries.len() == 0 {
        base
    } else {
        overlay(base, entries.drop_last()).insert(entries.last().0@, json(entries.last().1))
    }
}

/// What an overlay of entries with names of their own holds.
proof fn lemma_overlay(base: Map<Seq<char>, Json>, entries: Seq<(String, Value)>)
    requires
        forall|i: int, j: int|
            0 <= i < j < entries.len() ==> (#[trigger] entries[i]).0@ != (#[trigger] entries[j]).0@,
    ensures
        forall|i: int|
            0 <= i < entries.len() ==> overlay(base, entries).contains_key(
                (#[trigger] entries[i]).0@,
            ) && overlay(base, entries)[entries[i].0@] == json(entries[i].1),
        forall|key: Seq<char>|
            (forall|i: int| 0 <= i < entries.len() ==> (#[trigger] entries[i]).0@ != key) ==> (
            #[trigger] overlay(base, entries).contains_key(key) <==> base.contains_key(key)) && (
            base.contains_key(key) ==> overlay(base, entries)[key] == base[key]),
    decreases entries.len(),
{
    if entries.len() > 0 {
        let fewer = entries.drop_last();
        lemma_overlay(base, fewer);
        let below = overlay(base, fewer);
        let whole = overlay(base, entries);
        assert forall|i: int| 0 <= i < entries.len() implies whole.contains_key(
            (#[trigger] entries[i]).0@,
        ) && whole[entries[i].0@] == json(entries[i].1) by {
            if i < entries.len() - 1 {
                assert(fewer[i] == entries[i]);
                assert(entries[i].0@ != entries[entries.len() - 1].0@);
            }
        }
        assert forall|key: Seq<char>|
            (forall|i: int| 0 <= i < entries.len() ==> (#[trigger] entries[i]).0@
                != key) implies (#[trigger] whole.contains_key(key) <==> base.contains_key(key)) && (
        base.contains_key(key) ==> whole[key] == base[key]) by {
            assert(entries[entries.len() - 1].0@ != key);
            assert forall|i: int| 0 <= i < fewer.len() implies (#[trigger] fewer[i]).0@ != key by {
                assert(fewer[i] == entries[i]);
            }
            assert(below.contains_key(key) <==> base.contains_key(key));
        }
    }
}

/// An overlay of all the members of an object gives each of them precedence.
proof fn lemma_overlay_of_members(
    base: Map<Seq<char>, Json>,
    entries: Seq<(String, Value)>,
    user: Map<Seq<char>, Json>,
)
    requires
        are_members(entries, user),
    ensures
        overlay(base, entries) == base.union_prefer_right(user),
{
    lemma_overlay(base, entries);
    let whole = overlay(base, entries);
    let union = base.union_prefer_right(user);
    assert forall|key: Seq<char>| #[trigger] whole.contains_key(key) <==> union.contains_key(
        key,
    ) by {
        if user.contains_key(key) {
            let i = choose|i: int| 0 <= i < entries.len() && (#[trigger] entries[i]).0@ == key;
            assert(whole.contains_key(entries[i].0@));
        }
    }
    assert forall|key: Seq<char>| #[trigger] whole.contains_key(key) implies whole[key]
        == union[key] by {
        if user.contains_key(key) {
            let i = choose|i: int| 0 <= i < entries.len() && (#[trigger] entries[i]).0@ == key;
            assert(whole[entries[i].0@] == json(entries[i].1));
        }
    }
    assert(whole =~= union);
}

/// The options that the server gets where the user says nothing.
fn default_option_list() -> (options: Vec<(&'static str, bool)>)
    ensures
        options.deep_view() == default_options(),
{
    let options: Vec<(&'static str, bool)> = vec![
        ("razor|language_server.cohosting_enabled", true),
        ("csharp|code_lens.dotnet_enable_references_code_lens", false),
        ("csharp|code_lens.dotnet_enable_tests_code_lens", false),
        ("razor|code_lens.dotnet_enable_references_code_lens", false),
        ("razor|code_lens.dotnet_enable_tests_code_lens", false),
        ("csharp|inlay_hints.dotnet_enable_inlay_hints_for_parameters", true),
        ("csharp|inlay_hints.dotnet_enable_inlay_hints_for_literal_parameters", true),
        ("csharp|inlay_hints.dotnet_enable_inlay_hints_for_indexer_parameters", true),
        ("csharp|inlay_hints.dotnet_enable_inlay_hints_for_object_creation_parameters", true),
        ("csharp|inlay_hints.dotnet_enable_inlay_hints_for_other_parameters", true),
        ("csharp|inlay_hints.csharp_enable_inlay_hints_for_types", true),
        ("csharp|inlay_hints.csharp_enable_inlay_hints_for_implicit_variable_types", true),
        ("csharp|inlay_hints.csharp_enable_inlay_hints_for_lambda_parameter_types", true),
        ("csharp|inlay_hints.csharp_enable_inlay_hints_for_implicit_object_creation", true),
        ("csharp|inlay_hints.csharp_enable_inlay_hints_for_collection_expressions", true),
    ];
    assert(options.deep_view() =~= default_options());
    options
}

impl RoslynOfficial {
    /// Whether dotnet is to run in the worktree's environment.
    pub fn use_worktree_dotnet_env(lsp_settings: &LspSettings) -> (wanted: bool)
        ensures
            wanted == wants_worktree_env(lsp_settings@),
    {
        match &lsp_settings.settings {
            Some(settings) => match get_member(settings, "use_worktree_dotnet_env") {
                Some(value) => match value.as_bool() {
                    Some(flag) => flag,
                    None => false,
                },
                None => false,
            },
            None => false,
        }
    }

    /// The directory for the sources of the Razor extension, if the settings name one.
    pub fn razor_source_repository_root(lsp_settings: &LspSettings) -> (root: Option<String>)
        ensures
            root.deep_view() == razor_root(lsp_settings@),
    {
        match &lsp_settings.settings {
            Some(settings) => match get_member(settings, "razor_source_repository_root") {
                Some(value) => match value.as_str() {
                    Some(path) => Some(path.to_string()),
                    None => None,
                },
                None => None,
            },
            None => None,
        }
    }

    /// The configuration that the server gets from the user's settings.
    pub fn transform_settings_for_roslyn(settings: Value) -> (config: Value)
        ensures
            json(config) == Json::Object(roslyn_config(json(settings))),
    {
        let options = default_option_list();
        let ghost defaults = options_object(default_options());
        let mut config = zed_extension_api::serde_json::Map::new();
        let mut i: usize = 0;
        while i < options.len()
            invariant
                i <= options.len(),
                options.deep_view() == default_options(),
                members(config) == options_object(default_options().take(i as int)),
            decreases options.len() - i,
        {
            assert(default_options().take(i + 1).drop_last() =~= default_options().take(i as int));
            assert(default_options()[i as int] == options@[i as int].deep_view());
            config.insert(options[i].0.to_string(), bool_value(options[i].1));
            i += 1;
        }
        assert(default_options().take(i as int) =~= default_options());
        if let Some(user) = into_members(settings) {
            let entries = into_entries(user);
            let ghost all = entries@;
            for entry in iter: entries
                invariant
                    iter.seq() == all,
                    members(config) == overlay(defaults, all.take(iter.index() as int)),
            {
                assert(all.take(iter.index() + 1).drop_last() =~= all.take(iter.index() as int));
                config.insert(entry.0, entry.1);
            }
            assert(all.take(all.len() as int) =~= all);
            proof {
                lemma_overlay_of_members(defaults, all, members(user));
            }
        }
        object_value(config)
    }

    /// The configuration that the server gets, given the user's settings, if they could be
    /// loaded. Where there are none, the server gets none.
    pub fn configuration_options(
        lsp_settings: Option<LspSettings>,
    ) -> (options: Result<Option<Value>, String>)
        ensures
            options is Ok,
            options->Ok_0 is Some <==> (lsp_settings is Some && lsp_settings->0@ is Some),
            options->Ok_0 is Some ==> json(options->Ok_0->0) == Json::Object(
                roslyn_config(lsp_settings->0@->0),
            ),
    {
        match lsp_settings {
            Some(loaded) => match loaded.settings {
                Some(settings) => Ok(Some(Self::transform_settings_for_roslyn(settings))),
                None => Ok(None),
            },
            None => Ok(None),
        }
    }
}

/// No two of the default options have the same name.
proof fn lemma_option_names_differ()
    ensures
        forall|i: int, j: int|
            0 <= i < j < default_options().len() ==> (#[trigger] default_options()[i]).0 != (
            #[trigger] default_options()[j]).0,
{
    reveal_strlit("razor|language_server.cohosting_enabled");
    reveal_strlit("csharp|code_lens.dotnet_enable_references_code_lens");
    reveal_strlit("csharp|code_lens.dotnet_enable_tests_code_lens");
    reveal_strlit("razor|code_lens.dotnet_enable_references_code_lens");
    reveal_strlit("razor|code_lens.dotnet_enable_tests_code_lens");
    reveal_strlit("csharp|inlay_hints.dotnet_enable_inlay_hints_for_parameters");
    reveal_strlit("csharp|inlay_hints.dotnet_enable_inlay_hints_for_literal_parameters");
    reveal_strlit("csharp|inlay_hints.dotnet_enable_inlay_hints_for_indexer_parameters");
    reveal_strlit("csharp|inlay_hints.dotnet_enable_inlay_hints_for_object_creation_parameters");
    reveal_strlit("csharp|inlay_hints.dotnet_enable_inlay_hints_for_other_parameters");
    reveal_strlit("csharp|inlay_hints.csharp_enable_inlay_hints_for_types");
    reveal_strlit("csharp|inlay_hints.csharp_enable_inlay_hints_for_implicit_variable_types");
    reveal_strlit("csharp|inlay_hints.csharp_enable_inlay_hints_for_lambda_parameter_types");
    reveal_strlit("csharp|inlay_hints.csharp_enable_inlay_hints_for_implicit_object_creation");
    reveal_strlit("csharp|inlay_hints.csharp_enable_inlay_hints_for_collection_expressions");
    assert("razor|language_server.cohosting_enabled"@.len() == 39);
    assert("csharp|code_lens.dotnet_enable_references_code_lens"@.len() == 51);
    assert("csharp|code_lens.dotnet_enable_tests_code_lens"@.len() == 46);
    assert("razor|code_lens.dotnet_enable_references_code_lens"@.len() == 50);
    assert("razor|code_lens.dotnet_enable_tests_code_lens"@.len() == 45);
    assert("csharp|inlay_hints.dotnet_enable_inlay_hints_for_parameters"@.len() == 59);
    assert("csharp|inlay_hints.dotnet_enable_inlay_hints_for_literal_parameters"@.len() == 67);
    assert("csharp|inlay_hints.dotnet_enable_inlay_hints_for_indexer_parameters"@.len() == 67);
    assert("csharp|inlay_hints.dotnet_enable_inlay_hints_for_object_creation_parameters"@.len() == 75);
    assert("csharp|inlay_hints.dotnet_enable_inlay_hints_for_other_parameters"@.len() == 65);
    assert("csharp|inlay_hints.csharp_enable_inlay_hints_for_types"@.len() == 54);
    assert("csharp|inlay_hints.csharp_enable_inlay_hints_for_implicit_variable_types"@.len() == 72);
    assert("csharp|inlay_hints.csharp_enable_inlay_hints_for_lambda_parameter_types"@.len() == 71);
    assert("csharp|inlay_hints.csharp_enable_inlay_hints_for_implicit_object_creation"@.len() == 73);
    assert("csharp|inlay_hints.csharp_enable_inlay_hints_for_collection_expressions"@.len() == 71);
    assert("csharp|inlay_hints.dotnet_enable_inlay_hints_for_literal_parameters"@[49] == 'l');
    assert("csharp|inlay_hints.dotnet_enable_inlay_hints_for_indexer_parameters"@[49] == 'i');
    assert("csharp|inlay_hints.csharp_enable_inlay_hints_for_lambda_parameter_types"@[49] == 'l');
    assert("csharp|inlay_hints.csharp_enable_inlay_hints_for_collection_expressions"@[49] == 'c');
}

/// Each of the options is a member of the object, if they have names of their own, and the object
/// has no other members.
proof fn lemma_options_object(options: Seq<(Seq<char>, bool)>)
    requires
        forall|i: int, j: int|
            0 <= i < j < options.len() ==> (#[trigger] options[i]).0 != (#[trigger] options[j]).0,
    ensures
        forall|i: int|
            0 <= i < options.len() ==> options_object(options).contains_key(
                (#[trigger] options[i]).0,
            ) && options_object(options)[options[i].0] == Json::Bool(options[i].1),
        forall|key: Seq<char>| #[trigger]
            options_object(options).contains_key(key) ==> exists|i: int|
                0 <= i < options.len() && (#[trigger] options[i]).0 == key,
    decreases options.len(),
{
    if options.len() > 0 {
        let fewer = options.drop_last();
        assert forall|i: int, j: int| 0 <= i < j < fewer.len() implies (#[trigger] fewer[i]).0 != (
        #[trigger] fewer[j]).0 by {
            assert(fewer[i] == options[i] && fewer[j] == options[j]);
        }
        lemma_options_object(fewer);
        let whole = options_object(options);
        assert forall|i: int| 0 <= i < options.len() implies whole.contains_key(
            (#[trigger] options[i]).0,
        ) && whole[options[i].0] == Json::Bool(options[i].1) by {
            if i < options.len() - 1 {
                assert(fewer[i] == options[i]);
                assert(options[i].0 != options[options.len() - 1].0);
            }
        }
        assert forall|key: Seq<char>| #[trigger] whole.contains_key(key) implies exists|i: int|
            0 <= i < options.len() && (#[trigger] options[i]).0 == key by {
            if key == options.last().0 {
                assert(options[options.len() - 1].0 == key);
            } else {
                assert(options_object(fewer).contains_key(key));
                let i = choose|i: int| 0 <= i < fewer.len() && (#[trigger] fewer[i]).0 == key;
                assert(options[i].0 == key);
            }
        }
    }
}

/// Whatever the settings are, each default option that they do not set has its default value.
pub proof fn law_defaults_apply(settings: Json, place: int)
    requires
        0 <= place < default_options().len(),
        member(settings, default_options()[place].0) is None,
    ensures
        member(Json::Object(roslyn_config(settings)), default_options()[place].0) == Some(
            Json::Bool(default_options()[place].1),
        ),
{
    lemma_option_names_differ();
    lemma_options_object(default_options());
    let name = default_options()[place].0;
    assert(options_object(default_options()).contains_key(name));
}

/// What the user sets reaches the server as it was set.
pub proof fn law_user_settings_win(settings: Json, name: Seq<char>)
    requires
        member(settings, name) is Some,
    ensures
        member(Json::Object(roslyn_config(settings)), name) == member(settings, name),
{
}

/// The server gets nothing but what the user sets and the default options.
pub proof fn law_nothing_else_is_configured(settings: Json, name: Seq<char>)
    requires
        member(settings, name) is None,
        forall|i: int|
            0 <= i < default_options().len() ==> (#[trigger] default_options()[i]).0 != name,
    ensures
        member(Json::Object(roslyn_config(settings)), name) is None,
{
    lemma_option_names_differ();
    lemma_options_object(default_options());
    if options_object(default_options()).contains_key(name) {
        let i = choose|i: int|
            0 <= i < default_options().len() && (#[trigger] default_options()[i]).0 == name;
        assert(default_options()[i].0 != name);
    }
}

/// A configuration, taken for settings, gives the same configuration again.
pub proof fn law_configuration_is_stable(settings: Json)
    ensures
        roslyn_config(Json::Object(roslyn_config(settings))) == roslyn_config(settings),
{
    let config = roslyn_config(settings);
    assert(options_object(default_options()).union_prefer_right(config) =~= config);
}

} // verus!
