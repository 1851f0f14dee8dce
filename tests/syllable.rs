use vikey::syllable::{apply_tone_to_char, Modification, Syllable, Tone};

#[test]
fn test_syllable_creation() {
    let syllable = Syllable::new();
    assert!(syllable.is_empty());
}

#[test]
fn test_syllable_push() {
    let mut syllable = Syllable::new();
    syllable.push('h');
    syllable.push('o');
    syllable.push('a');

    assert_eq!(syllable.initial, "h");
    assert_eq!(syllable.vowel, "oa");
}

#[test]
fn test_tone_application() {
    let mut syllable = Syllable::new();
    syllable.vowel = "a".to_string();
    syllable.tone = Some(Tone::Acute);

    assert_eq!(syllable.to_string(), "á");
}

#[test]
fn tone_grid_respects_case() {
    assert_eq!(apply_tone_to_char('a', Tone::Acute), 'á');
    assert_eq!(apply_tone_to_char('Ư', Tone::Underdot), 'Ự');
    assert_eq!(apply_tone_to_char('ê', Tone::Tilde), 'ễ');
    assert_eq!(apply_tone_to_char('Y', Tone::Grave), 'Ỳ');
    assert_eq!(apply_tone_to_char('b', Tone::Acute), 'b');
}

#[test]
fn syllable_renders_modifications_and_length() {
    let mut syllable = Syllable::new();
    syllable.push('t');
    syllable.push('u');
    syllable.push('o');
    syllable.push('n');
    syllable.push('g');
    syllable.modifications.push(Modification::Horn);
    syllable.tone = Some(Tone::Acute);
    assert_eq!(syllable.final_consonant, "ng");
    assert_eq!(syllable.len(), 5);
    assert_eq!(syllable.raw_text(), "tuong");
    assert_eq!(syllable.to_string(), "tướng");
    syllable.clear();
    assert!(syllable.is_empty());
    assert_eq!(syllable.to_string(), "");
}
