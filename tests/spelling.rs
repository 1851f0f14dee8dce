use vikey::spelling::SpellChecker;

#[test]
fn test_valid_vowel_sequences() {
    let checker = SpellChecker::new();

    assert!(checker.is_valid_vowel_seq("a"));
    assert!(checker.is_valid_vowel_seq("ă"));
    assert!(checker.is_valid_vowel_seq("â"));
    assert!(checker.is_valid_vowel_seq("oa"));
    assert!(checker.is_valid_vowel_seq("ươ"));
    assert!(checker.is_valid_vowel_seq("iêu"));
}

#[test]
fn test_invalid_vowel_sequences() {
    let checker = SpellChecker::new();

    assert!(!checker.is_valid_vowel_seq("ơơ"));
    assert!(!checker.is_valid_vowel_seq("ưư"));
    assert!(!checker.is_valid_vowel_seq("aaa"));
}

#[test]
fn test_valid_consonant_starts() {
    let checker = SpellChecker::new();

    assert!(checker.is_valid_consonant_start("b"));
    assert!(checker.is_valid_consonant_start("ch"));
    assert!(checker.is_valid_consonant_start("tr"));
    assert!(checker.is_valid_consonant_start("qu"));
    assert!(checker.is_valid_consonant_start("ngh"));
}

#[test]
fn test_invalid_consonant_starts() {
    let checker = SpellChecker::new();

    assert!(!checker.is_valid_consonant_start("zz"));
    assert!(!checker.is_valid_consonant_start("qq"));
}

#[test]
fn test_valid_consonant_ends() {
    let checker = SpellChecker::new();

    assert!(checker.is_valid_consonant_end("n"));
    assert!(checker.is_valid_consonant_end("ng"));
    assert!(checker.is_valid_consonant_end("ch"));
    assert!(checker.is_valid_consonant_end("nh"));
}

#[test]
fn test_remove_tones() {
    let checker = SpellChecker::new();

    assert_eq!(checker.remove_tones("hóa"), "hoa");
    assert_eq!(checker.remove_tones("hoá"), "hoa");
    assert_eq!(checker.remove_tones("thủy"), "thuy");
}

#[test]
fn toned_vowel_sequences_are_checked_without_tones() {
    let checker = SpellChecker::new();
    assert!(checker.is_valid_vowel_seq("ướ"));
    assert!(checker.is_valid_vowel_seq("uyễ"));
    assert!(!checker.is_valid_consonant_end("k"));
}
