//! What is read in the settings, said of their members.
use vstd::prelude::*;

use crate::json::{json, Json};
use crate::settings::{
    default_options, law_defaults_apply, law_nothing_else_is_configured, razor_root,
    roslyn_config, wants_worktree_env, LspSettings,
};

verus! {

/// The worktree's environment is wanted exactly if the settings are an object with the member
/// `use_worktree_dotnet_env` that is true.
pub proof fn law_worktree_env_is_asked_for(settings: Option<Json>)
    ensures
        wants_worktree_env(settings) <==> (settings is Some && settings->0 is Object
            && settings->0->Object_0.contains_key("use_worktree_dotnet_env"@)
            && settings->0->Object_0["use_worktree_dotnet_env"@] == Json::Bool(true)),
{
}

/// The root of Razor's sources is known exactly if the settings are an object with the member
/// `razor_source_repository_root` that is text. It is that text, whole.
pub proof fn law_razor_root(settings: Option<Json>, path: Seq<char>)
    ensures
        razor_root(settings) == Some(path) <==> (settings is Some && settings->0 is Object
            && settings->0->Object_0.contains_key("razor_source_repository_root"@)
            && settings->0->Object_0["razor_source_repository_root"@] == Json::Text(path)),
{
}

/// Each member of the configuration is the user's where the settings have one of that name, and
/// else the default; a name that has neither is not there.
pub proof fn law_each_member_of_the_configuration(user: Map<Seq<char>, Json>, name: Seq<char>)
    ensures
        user.contains_key(name) ==> roslyn_config(Json::Object(user)).contains_key(name)
            && roslyn_config(Json::Object(user))[name] == user[name],
        !user.contains_key(name) ==> (roslyn_config(Json::Object(user)).contains_key(name)
            <==> exists|i: int|
            0 <= i < default_options().len() && (#[trigger] default_options()[i]).0 == name),
        !user.contains_key(name) ==> forall|i: int|
            0 <= i < default_options().len() && (#[trigger] default_options()[i]).0 == name
                ==> roslyn_config(Json::Object(user))[name] == Json::Bool(default_options()[i].1),
{
    if !user.contains_key(name) {
        assert forall|i: int|
            0 <= i < default_options().len() && (#[trigger] default_options()[i]).0
                == name implies roslyn_config(Json::Object(user)).contains_key(name)
            && roslyn_config(Json::Object(user))[name] == Json::Bool(default_options()[i].1) by {
            law_defaults_apply(Json::Object(user), i);
        }
        if !(exists|i: int|
            0 <= i < default_options().len() && (#[trigger] default_options()[i]).0 == name) {
            law_nothing_else_is_configured(Json::Object(user), name);
        }
    }
}

/// Whatever the user does not set themselves, Razor is served along with C# and every inlay hint is
/// on, every code lens is off, and there is nothing else.
pub proof fn law_default_options(user: Map<Seq<char>, Json>, name: Seq<char>)
    requires
        !user.contains_key(name),
    ensures
        ({
            let config = roslyn_config(Json::Object(user));
            let on = {
                ||| name == "razor|language_server.cohosting_enabled"@
                ||| name == "csharp|inlay_hints.dotnet_enable_inlay_hints_for_parameters"@
                ||| name == "csharp|inlay_hints.dotnet_enable_inlay_hints_for_literal_parameters"@
                ||| name == "csharp|inlay_hints.dotnet_enable_inlay_hints_for_indexer_parameters"@
                ||| name == "csharp|inlay_hints.dotnet_enable_inlay_hints_for_object_creation_parameters"@
                ||| name == "csharp|inlay_hints.dotnet_enable_inlay_hints_for_other_parameters"@
                ||| name == "csharp|inlay_hints.csharp_enable_inlay_hints_for_types"@
                ||| name == "csharp|inlay_hints.csharp_enable_inlay_hints_for_implicit_variable_types"@
                ||| name == "csharp|inlay_hints.csharp_enable_inlay_hints_for_lambda_parameter_types"@
                ||| name == "csharp|inlay_hints.csharp_enable_inlay_hints_for_implicit_object_creation"@
                ||| name == "csharp|inlay_hints.csharp_enable_inlay_hints_for_collection_expressions"@
            };
            let off = {
                ||| name == "csharp|code_lens.dotnet_enable_references_code_lens"@
                ||| name == "csharp|code_lens.dotnet_enable_tests_code_lens"@
                ||| name == "razor|code_lens.dotnet_enable_references_code_lens"@
                ||| name == "razor|code_lens.dotnet_enable_tests_code_lens"@
            };
            &&& config.contains_key(name) <==> on || off
            &&& on ==> config[name] == Json::Bool(true)
            &&& off ==> config[name] == Json::Bool(false)
        }),
{
    law_each_member_of_the_configuration(user, name);
    let options = default_options();
    assert(options[0] == ("razor|language_server.cohosting_enabled"@, true));
    assert(options[1] == ("csharp|code_lens.dotnet_enable_references_code_lens"@, false));
    assert(options[2] == ("csharp|code_lens.dotnet_enable_tests_code_lens"@, false));
    assert(options[3] == ("razor|code_lens.dotnet_enable_references_code_lens"@, false));
    assert(options[4] == ("razor|code_lens.dotnet_enable_tests_code_lens"@, false));
    assert(options[5] == ("csharp|inlay_hints.dotnet_enable_inlay_hints_for_parameters"@, true));
    assert(options[6] == ("csharp|inlay_hints.dotnet_enable_inlay_hints_for_literal_parameters"@, true));
    assert(options[7] == ("csharp|inlay_hints.dotnet_enable_inlay_hints_for_indexer_parameters"@, true));
    assert(options[8] == ("csharp|inlay_hints.dotnet_enable_inlay_hints_for_object_creation_parameters"@, true));
    assert(options[9] == ("csharp|inlay_hints.dotnet_enable_inlay_hints_for_other_parameters"@, true));
    assert(options[10] == ("csharp|inlay_hints.csharp_enable_inlay_hints_for_types"@, true));
    assert(options[11] == ("csharp|inlay_hints.csharp_enable_inlay_hints_for_implicit_variable_types"@, true));
    assert(options[12] == ("csharp|inlay_hints.csharp_enable_inlay_hints_for_lambda_parameter_types"@, true));
    assert(options[13] == ("csharp|inlay_hints.csharp_enable_inlay_hints_for_implicit_object_creation"@, true));
    assert(options[14] == ("csharp|inlay_hints.csharp_enable_inlay_hints_for_collection_expressions"@, true));
    assert(options.len() == 15);
}

/// Settings that are no object count for no more than an empty one.
pub proof fn law_other_settings_are_ignored(settings: Json)
    requires
        !(settings is Object),
    ensures
        roslyn_config(settings) == roslyn_config(Json::Object(Map::empty())),
{
    assert(roslyn_config(settings) =~= roslyn_config(Json::Object(Map::empty())));
}

/// The text of the settings shows what they hold for the server, if anything.
pub proof fn law_settings_text(settings: LspSettings)
    ensures
        settings.settings is Some ==> settings@ == Some(json(settings.settings->0)),
        settings.settings is None ==> settings@ is None,
{
}

} // verus!
