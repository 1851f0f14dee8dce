use vikey::validation::{is_permissible_syllable, is_valid_prefix, is_valid_syllable};

#[test]
fn test_valid_syllables() {
    assert!(is_valid_syllable("t", "oa", "n"));
    assert!(is_valid_syllable("ng", "uyê", "n"));
    assert!(is_valid_syllable("", "a", ""));
    assert!(is_valid_syllable("b", "a", ""));
}

#[test]
fn test_invalid_syllables() {
    assert!(!is_valid_syllable("b", "z", ""));
    assert!(!is_valid_syllable("w", "a", ""));
}

#[test]
fn test_permissible_syllables() {
    assert!(is_permissible_syllable("q", "", ""));
    assert!(is_permissible_syllable("ng", "", ""));
    assert!(is_permissible_syllable("ngh", "", ""));
    assert!(!is_permissible_syllable("ngk", "", ""));
    assert!(is_permissible_syllable("", "a", "ng"));
    assert!(!is_permissible_syllable("", "a", "ngk"));
    assert!(is_permissible_syllable("d", "ươ", "ng"));
}

#[test]
fn validator_folds_case_and_checks_matrices() {
    assert!(is_valid_syllable("NG", "UYÊ", "N"));
    assert!(is_permissible_syllable("Đ", "Ươ", "NG"));
    assert!(is_valid_syllable("", "ă", ""));
    assert!(is_valid_syllable("", "ă", "c"));
    assert!(!is_valid_syllable("z", "a", ""));
    assert!(!is_valid_syllable("b", "a", "k"));
}

#[test]
fn prefix_check_composes_first() {
    let entries = vec![vec!['ă', 'n'], vec!['o', 'a']];
    assert!(is_valid_prefix(&entries, "a\u{0306}"));
    assert!(is_valid_prefix(&entries, ""));
    assert!(!is_valid_prefix(&entries, "x"));
}
