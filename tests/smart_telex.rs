use vikey::rules::{place_tone, ToneStyle};
use vikey::syllable::Tone;

#[test]
fn test_smart_tone_placement_oa() {
    assert_eq!(place_tone("oa", Tone::Acute, ToneStyle::New), "oá");
    assert_eq!(place_tone("oa", Tone::Acute, ToneStyle::Old), "hóa".chars().skip(1).collect::<String>());
}

#[test]
fn test_smart_tone_placement_oe() {
    assert_eq!(place_tone("oe", Tone::Acute, ToneStyle::New), "oé");
}

#[test]
fn test_smart_tone_placement_uy() {
    assert_eq!(place_tone("uy", Tone::Acute, ToneStyle::New), "uý");
    assert_eq!(place_tone("uy", Tone::Acute, ToneStyle::Old), "úy");
}

#[test]
fn test_smart_tone_placement_ie() {
    assert_eq!(place_tone("iêu", Tone::Acute, ToneStyle::New), "iếu");
}

#[test]
fn test_smart_tone_placement_uo() {
    assert_eq!(place_tone("uôi", Tone::Acute, ToneStyle::New), "uối");
}

#[test]
fn test_smart_tone_placement_ai() {
    assert_eq!(place_tone("ai", Tone::Acute, ToneStyle::New), "ái");
}

#[test]
fn tone_on_final_circumflex_of_three() {
    assert_eq!(place_tone("uyê", Tone::HookAbove, ToneStyle::New), "uyể");
    assert_eq!(place_tone("ươi", Tone::Grave, ToneStyle::New), "ười");
}

#[test]
fn tone_on_second_dominant_vowel() {
    assert_eq!(place_tone("uô", Tone::Acute, ToneStyle::Old), "uố");
    assert_eq!(place_tone("a", Tone::Underdot, ToneStyle::New), "ạ");
    assert_eq!(place_tone("", Tone::Underdot, ToneStyle::New), "");
}
