use vikey::buffer::InputBuffer;
use vikey::engine::Engine;
use vikey::nom::{NomDictionary, NomLookup, TelexNomMethod, UnicodeBlock};
use vikey::plugin::{InputMethodTrait, LanguagePlugin, NomPlugin, VietnamesePlugin};
use vikey::traits::LookupProvider;
use vikey::types::Action;

#[test]
fn dictionary_test_lookup() {
    let dict = NomDictionary::new();

    let results = dict.lookup("nguoi");
    assert!(!results.is_empty());
    assert_eq!(results[0].character, '𡦂');
}

#[test]
fn test_contains() {
    let dict = NomDictionary::new();

    assert!(dict.contains("nguoi"));
    assert!(dict.contains("viet"));
    assert!(!dict.contains("xyz123"));
}

#[test]
fn test_is_cjk() {
    assert!(NomLookup::is_cjk('𡨸'));
    assert!(NomLookup::is_cjk('喃'));
    assert!(!NomLookup::is_cjk('a'));
}

#[test]
fn lookup_test_lookup() {
    let lookup = NomLookup::new();

    assert!(lookup.is_vowel('a'));
    assert!(!lookup.is_consonant('a'));

    assert!(!lookup.is_vowel('b'));
    assert!(lookup.is_consonant('b'));
}

#[test]
fn test_telex_nom_info() {
    let method = TelexNomMethod::new();
    assert_eq!(method.id(), "telex-nom");
    assert!(method.name().contains("Nôm"));
}

#[test]
fn test_candidates_lookup() {
    let mut method = TelexNomMethod::new();

    method.syllable_buffer = "nguoi".to_string();
    method.update_candidates();

    assert!(!method.candidates().is_empty());
}

#[test]
fn test_plugin_info() {
    let plugin = NomPlugin::new();
    assert_eq!(plugin.id(), "nom");
    assert!(plugin.name().contains("Nôm"));
}

#[test]
fn test_input_methods() {
    let plugin = NomPlugin::new();
    let methods = plugin.input_methods();
    assert!(methods.contains(&"telex-nom"));
}

#[test]
fn test_unicode_block() {
    assert_eq!(UnicodeBlock::from_code_point(0x21A38), UnicodeBlock::ExtensionB);
    assert_eq!(UnicodeBlock::from_code_point(0x5583), UnicodeBlock::CjkUnified);
}

#[test]
fn nom_reading_is_picked_by_space_or_digit() {
    let mut method = TelexNomMethod::new();
    let mut buffer = InputBuffer::new();
    let lookup = NomLookup::new();
    for c in "Viet".chars() {
        method.process(c, &mut buffer, &lookup);
    }
    assert_eq!(method.syllable_buffer, "viet");
    assert_eq!(buffer.to_string(), "Viet");
    assert_eq!(method.select(0), Some('越'));
    assert_eq!(method.select(1), None);
    let action = method.process(' ', &mut buffer, &lookup);
    assert_eq!(action, Action::Replace { backspace_count: 4, text: "越".to_string() });
    assert!(buffer.is_empty());
    for c in "nom".chars() {
        method.process(c, &mut buffer, &lookup);
    }
    assert_eq!(method.process('2', &mut buffer, &lookup), Action::DoNothing);
    assert_eq!(method.process('1', &mut buffer, &lookup), Action::Replace { backspace_count: 3, text: "喃".to_string() });
    for c in "xy".chars() {
        method.process(c, &mut buffer, &lookup);
    }
    assert_eq!(method.process_backspace(&mut buffer), Action::Replace { backspace_count: 1, text: String::new() });
    assert_eq!(method.process('\n', &mut buffer, &lookup), Action::Commit("x".to_string()));
    assert_eq!(method.process(' ', &mut buffer, &lookup), Action::DoNothing);
    assert_eq!(method.process_backspace(&mut buffer), Action::DoNothing);
}

#[test]
fn engine_switches_between_languages() {
    let mut engine = Engine::new();
    engine.register(LanguagePlugin::Vietnamese(VietnamesePlugin::new())).unwrap();
    engine.register(LanguagePlugin::Nom(NomPlugin::new())).unwrap();
    assert_eq!(engine.languages(), vec!["vietnamese", "nom"]);
    engine.set_language("nom").unwrap();
    assert_eq!(engine.current_input_method(), Some("telex-nom"));
    engine.process('n');
    engine.process('o');
    engine.process('m');
    assert_eq!(engine.process(' '), Action::Replace { backspace_count: 3, text: "喃".to_string() });
    assert!(engine.set_input_method("pinyin-nom").is_ok());
    assert_eq!(engine.process('a'), Action::DoNothing);
    assert!(NomDictionary::load("any").is_ok());
}

#[test]
fn nom_lookup_separators_use_white_space() {
    let lookup = NomLookup::new();
    assert!(lookup.lookup(' ').is_separator);
    assert!(lookup.lookup('\u{3000}').is_separator);
    assert!(!lookup.lookup('a').is_separator);
    assert!(lookup.is_separator(','));
    assert!(lookup.is_valid_char('喃'));
    assert!(!lookup.is_valid_char('1'));
    let info = lookup.lookup_nom('喃');
    assert!(info.is_nom);
    assert_eq!(info.code_point, 0x5583);
    assert_eq!(info.unicode_block, UnicodeBlock::CjkUnified);
}

#[test]
fn white_space_list_matches_std() {
    let lookup = NomLookup::new();
    for cp in 0u32..=0x10FFFF {
        if let Some(c) = char::from_u32(cp) {
            assert_eq!(lookup.lookup(c).is_separator, c.is_whitespace(), "U+{:04X}", cp);
        }
    }
}
