use roslyn_official::roslyn::RoslynOfficial;
use roslyn_official::settings::LspSettings;
use zed_extension_api::serde_json::{from_str, Value};

fn value(text: &str) -> Value {
    from_str(text).unwrap()
}

fn settings(text: &str) -> LspSettings {
    LspSettings {
        settings: Some(value(text)),
    }
}

const DEFAULTS: &str = r#"{
    "razor|language_server.cohosting_enabled": true,
    "csharp|code_lens.dotnet_enable_references_code_lens": false,
    "csharp|code_lens.dotnet_enable_tests_code_lens": false,
    "razor|code_lens.dotnet_enable_references_code_lens": false,
    "razor|code_lens.dotnet_enable_tests_code_lens": false,
    "csharp|inlay_hints.dotnet_enable_inlay_hints_for_parameters": true,
    "csharp|inlay_hints.dotnet_enable_inlay_hints_for_literal_parameters": true,
    "csharp|inlay_hints.dotnet_enable_inlay_hints_for_indexer_parameters": true,
    "csharp|inlay_hints.dotnet_enable_inlay_hints_for_object_creation_parameters": true,
    "csharp|inlay_hints.dotnet_enable_inlay_hints_for_other_parameters": true,
    "csharp|inlay_hints.csharp_enable_inlay_hints_for_types": true,
    "csharp|inlay_hints.csharp_enable_inlay_hints_for_implicit_variable_types": true,
    "csharp|inlay_hints.csharp_enable_inlay_hints_for_lambda_parameter_types": true,
    "csharp|inlay_hints.csharp_enable_inlay_hints_for_implicit_object_creation": true,
    "csharp|inlay_hints.csharp_enable_inlay_hints_for_collection_expressions": true
}"#;

#[test]
fn the_server_has_its_name() {
    assert_eq!(RoslynOfficial::LANGUAGE_SERVER_ID, "roslyn-official");
}

#[test]
fn the_worktree_environment_has_to_be_asked_for() {
    let wanted = |text: &str| RoslynOfficial::use_worktree_dotnet_env(&settings(text));
    assert!(wanted(r#"{"use_worktree_dotnet_env": true}"#));
    assert!(!wanted(r#"{"use_worktree_dotnet_env": false}"#));
    assert!(!wanted(r#"{"use_worktree_dotnet_env": "true"}"#));
    assert!(!wanted(r#"{"use_worktree_dotnet_env": 1}"#));
    assert!(!wanted(r#"{"other": true}"#));
    assert!(!wanted("[true]"));
    assert!(!wanted("null"));
    assert!(!RoslynOfficial::use_worktree_dotnet_env(&LspSettings { settings: None }));
}

#[test]
fn the_razor_root_is_read() {
    let root = |text: &str| RoslynOfficial::razor_source_repository_root(&settings(text));
    assert_eq!(
        root(r#"{"razor_source_repository_root": "/src/razor"}"#),
        Some("/src/razor".to_string())
    );
    assert_eq!(root(r#"{"razor_source_repository_root": ""}"#), Some(String::new()));
    assert_eq!(root(r#"{"razor_source_repository_root": 3}"#), None);
    assert_eq!(root(r#"{"razor_source_repository_root": null}"#), None);
    assert_eq!(root("{}"), None);
    assert_eq!(root(r#""razor_source_repository_root""#), None);
    let none = LspSettings { settings: None };
    assert_eq!(RoslynOfficial::razor_source_repository_root(&none), None);
}

#[test]
fn the_defaults_stand_where_nothing_is_set() {
    for text in ["{}", "null", "[1, 2]", "\"text\"", "true", "1.5"] {
        let config = RoslynOfficial::transform_settings_for_roslyn(value(text));
        assert_eq!(config, value(DEFAULTS));
    }
    assert_eq!(value(DEFAULTS).as_object().unwrap().len(), 15);
}

#[test]
fn user_settings_win() {
    let user = r#"{
        "razor|language_server.cohosting_enabled": "later",
        "csharp|code_lens.dotnet_enable_tests_code_lens": true,
        "own": {"deep": [1, 2.5, null]}
    }"#;
    let config = RoslynOfficial::transform_settings_for_roslyn(value(user));
    let mut expected = value(DEFAULTS);
    for (key, set) in value(user).as_object().unwrap() {
        expected.as_object_mut().unwrap().insert(key.clone(), set.clone());
    }
    assert_eq!(config, expected);
    assert_eq!(config["own"]["deep"][1], value("2.5"));
    assert_eq!(config.as_object().unwrap().len(), 16);
    let again = RoslynOfficial::transform_settings_for_roslyn(config.clone());
    assert_eq!(again, config);
}

#[test]
fn the_configuration_needs_settings() {
    assert_eq!(RoslynOfficial::configuration_options(None), Ok(None));
    let none = LspSettings { settings: None };
    assert_eq!(RoslynOfficial::configuration_options(Some(none)), Ok(None));
    assert_eq!(
        RoslynOfficial::configuration_options(Some(settings("{}"))),
        Ok(Some(value(DEFAULTS)))
    );
}
