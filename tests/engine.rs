use vikey::engine::Engine;
use vikey::plugin::{LanguagePlugin, VietnamesePlugin};
use vikey::registry::{PluginRegistry, RegistryError};
use vikey::traits::{DefaultLanguageRules, LanguageRules};
use vikey::types::{Action, Config};

#[test]
fn test_engine_new() {
    let engine = Engine::new();
    assert!(engine.languages().is_empty());
    assert!(engine.current_language().is_none());
}

#[test]
fn test_engine_process_without_plugin() {
    let mut engine = Engine::new();
    let action = engine.process('a');
    assert_eq!(action, Action::DoNothing);
}

#[test]
fn test_engine() {
    let engine = Engine::new();
    assert!(engine.buffer_content().is_empty());
}

#[test]
fn test_engine_creation() {
    let engine = Engine::new();
    assert!(engine.buffer_content().is_empty());
}

#[test]
fn test_registry_new() {
    let registry = PluginRegistry::new();
    assert!(registry.languages().is_empty());
    assert!(registry.current_plugin().is_none());
}

#[test]
fn test_action() {
    let action = Action::Commit("test".to_string());
    assert!(matches!(action, Action::Commit(_)));
}

#[test]
fn test_action_types() {
    let action1 = Action::DoNothing;
    assert!(matches!(action1, Action::DoNothing));

    let action2 = Action::Commit("test".to_string());
    assert!(matches!(action2, Action::Commit(_)));

    let action3 = Action::Replace {
        backspace_count: 1,
        text: "new".to_string(),
    };
    assert!(matches!(action3, Action::Replace { .. }));
}

#[test]
fn test_config_default() {
    let config = Config::default();
    assert!(config.enabled);
    assert!(config.auto_commit);
}

#[test]
fn test_default_rules() {
    let rules = DefaultLanguageRules;
    assert!(rules.is_valid_word("anything"));
    assert!(rules.suggest("test").is_empty());
}

#[test]
fn register_twice_is_a_duplicate() {
    let mut engine = Engine::new();
    assert!(engine.register(LanguagePlugin::Vietnamese(VietnamesePlugin::new())).is_ok());
    let err = engine.register(LanguagePlugin::Vietnamese(VietnamesePlugin::new())).unwrap_err();
    assert_eq!(err, RegistryError::DuplicateId("vietnamese".to_string()));
    assert_eq!(err.to_string(), "Plugin with ID 'vietnamese' already exists");
    assert_eq!(engine.languages(), vec!["vietnamese"]);
}

#[test]
fn unknown_language_and_method_are_errors() {
    let mut engine = Engine::new();
    assert_eq!(engine.set_language("nom"), Err(RegistryError::LanguageNotFound("nom".to_string())));
    assert_eq!(
        engine.set_input_method("telex"),
        Err(RegistryError::InputMethodNotFound("telex".to_string()))
    );
    engine.register(LanguagePlugin::Vietnamese(VietnamesePlugin::new())).unwrap();
    engine.set_language("vietnamese").unwrap();
    assert_eq!(
        engine.set_input_method("dvorak"),
        Err(RegistryError::InputMethodNotFound("dvorak".to_string()))
    );
    assert_eq!(
        RegistryError::LanguageNotFound("x".to_string()).to_string(),
        "Language 'x' not found"
    );
    assert_eq!(
        RegistryError::InputMethodNotFound("y".to_string()).to_string(),
        "Input method 'y' not found"
    );
}

#[test]
fn setting_language_selects_first_method() {
    let mut engine = Engine::new();
    engine.register(LanguagePlugin::Vietnamese(VietnamesePlugin::new())).unwrap();
    engine.set_language("vietnamese").unwrap();
    assert_eq!(engine.current_language(), Some("vietnamese"));
    assert_eq!(engine.current_input_method(), Some("telex"));
    assert_eq!(engine.input_methods(), vec!["telex", "telex_v2", "vni", "viqr"]);
    assert_eq!(engine.process('a'), Action::Replace { backspace_count: 0, text: "a".to_string() });
    assert_eq!(engine.buffer_content(), "a");
}

#[test]
fn vni_method_commits_keys_and_backspaces() {
    let mut engine = Engine::new();
    engine.register(LanguagePlugin::Vietnamese(VietnamesePlugin::new())).unwrap();
    engine.set_language("vietnamese").unwrap();
    engine.set_input_method("vni").unwrap();
    assert_eq!(engine.current_input_method(), Some("vni"));
    assert_eq!(engine.process('a'), Action::Commit("a".to_string()));
    assert_eq!(engine.buffer_content(), "a");
    assert_eq!(
        engine.process_backspace(),
        Action::Replace { backspace_count: 1, text: String::new() }
    );
    assert_eq!(engine.process_backspace(), Action::DoNothing);
}

#[test]
fn registry_unregister_and_get() {
    let mut registry = PluginRegistry::new();
    registry.register(LanguagePlugin::Vietnamese(VietnamesePlugin::new())).unwrap();
    assert!(registry.get("vietnamese").is_some());
    assert!(registry.get("nom").is_none());
    registry.set_language("vietnamese").unwrap();
    assert_eq!(registry.current_language_id(), Some("vietnamese"));
    assert_eq!(registry.current_input_method_id(), Some("telex"));
    registry.set_input_method("viqr").unwrap();
    assert_eq!(registry.current_input_method_id(), Some("viqr"));
    assert!(registry.current_plugin().is_some());
    let engine = Engine::with_registry(registry);
    assert_eq!(engine.languages(), vec!["vietnamese"]);
    let mut registry = PluginRegistry::new();
    registry.register(LanguagePlugin::Vietnamese(VietnamesePlugin::new())).unwrap();
    assert!(registry.unregister("vietnamese").is_some());
    assert!(registry.unregister("vietnamese").is_none());
    assert!(registry.languages().is_empty());
}
