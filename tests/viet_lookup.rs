use vikey::plugin::VietnamesePlugin;
use vikey::traits::LookupProvider;
use vikey::unicode::{normalize_nfc, normalize_nfd};
use vikey::viet_lookup::VietnameseLookup;

#[test]
fn test_telex_vowels() {
    let lookup = VietnameseLookup::new_telex();
    assert!(lookup.is_vowel('a'));
    assert!(lookup.is_vowel('e'));
    assert!(!lookup.is_vowel('b'));
}

#[test]
fn test_telex_tones() {
    let lookup = VietnameseLookup::new_telex();
    let info_s = lookup.get_char_info('s');
    assert_eq!(info_s.tone_index, 1);
}

#[test]
fn test_vni_numbers() {
    let lookup = VietnameseLookup::new_vni();
    let info_1 = lookup.get_char_info('1');
    assert_eq!(info_1.tone_index, 1);

    let info_6 = lookup.get_char_info('6');
    assert_eq!(info_6.vni_double_index, 1);
}

#[test]
fn vni_clears_letter_tones_and_non_ascii_is_blank() {
    let vni = VietnameseLookup::new_vni();
    assert_eq!(vni.get_char_info('s').tone_index, 0);
    assert_eq!(vni.get_char_info('9').vni_double_index, 4);
    let telex = VietnameseLookup::new_telex();
    assert!(telex.get_char_info('W').is_breve);
    assert!(telex.get_char_info('b').is_consonant);
    assert!(telex.get_char_info(' ').is_separator);
    assert!(telex.get_char_info('-').is_soft_separator);
    assert!(telex.is_separator(','));
    let blank = telex.get_char_info('ă');
    assert!(!blank.is_vowel && !blank.is_consonant && blank.vowel_index == 0);
    assert_eq!(telex.lookup('o').vowel_index, 4);
}

#[test]
fn plugin_test_plugin_info() {
    let plugin = VietnamesePlugin::new();
    assert_eq!(plugin.id(), "vietnamese");
    assert_eq!(plugin.name(), "Tiếng Việt");
}

#[test]
fn plugin_test_input_methods() {
    let plugin = VietnamesePlugin::new();
    let methods = plugin.input_methods();
    assert!(methods.contains(&"telex"));
    assert!(methods.contains(&"vni"));
    assert!(methods.contains(&"viqr"));
}

#[test]
fn test_create_telex() {
    let plugin = VietnamesePlugin::new();
    let method = plugin.create_input_method("telex");
    assert!(method.is_some());
    assert!(plugin.create_input_method("unknown").is_none());
}

#[test]
fn test_normalize() {
    let text = "tiếng việt";
    let nfc = normalize_nfc(text);
    let nfd = normalize_nfd(text);

    assert_eq!(normalize_nfc(&nfd), nfc);
    assert_ne!(nfd, nfc);
    assert_eq!(normalize_nfc("a\u{0306}"), "ă");
}
