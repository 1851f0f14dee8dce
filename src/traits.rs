use vstd::prelude::*;
use crate::types::CharInfo;

verus! {

/// Character classification for a language.
pub trait LookupProvider {
    /// Character information.
    fn lookup(&self, c: char) -> CharInfo;

    /// Whether the character belongs to this language.
    fn is_valid_char(&self, c: char) -> bool;

    /// Whether the character is a vowel.
    fn is_vowel(&self, c: char) -> bool;

    /// Whether the character is a consonant.
    fn is_consonant(&self, c: char) -> bool;

    /// Whether the character is a separator (space, enter...).
    fn is_separator(&self, c: char) -> bool;
}

/// Spelling rules of a language.
pub trait LanguageRules {
    /// Whether a word is valid.
    fn is_valid_word(&self, word: &str) -> bool;

    /// Whether a syllable is valid.
    fn is_valid_syllable(&self, syllable: &str) -> bool;

    /// Spelling suggestions.
    fn suggest(&self, word: &str) -> Vec<String>;

    /// Where a tone goes in a syllable, for languages with tones.
    fn find_tone_position(&self, syllable: &str) -> Option<usize>;
}

/// Rules that accept every word and suggest nothing.
pub struct DefaultLanguageRules;

impl LanguageRules for DefaultLanguageRules {
    fn is_valid_word(&self, word: &str) -> bool {
        true
    }

    fn is_valid_syllable(&self, syllable: &str) -> bool {
        true
    }

    fn suggest(&self, word: &str) -> Vec<String> {
        Vec::new()
    }

    fn find_tone_position(&self, syllable: &str) -> Option<usize> {
        None
    }
}

} // verus!
