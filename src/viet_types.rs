use vstd::prelude::*;

verus! {

/// Vietnamese tone types.
#[derive(Debug, Clone, Copy, PartialEq, Eq, Structural)]
pub enum ToneType {
    /// No tone
    NoTone,
    /// Sắc (á)
    Acute,
    /// Huyền (à)
    Grave,
    /// Hỏi (ả)
    Hook,
    /// Ngã (ã)
    Tilde,
    /// Nặng (ạ)
    Dot,
}

/// Vietnamese mark types.
#[derive(Debug, Clone, Copy, PartialEq, Eq, Structural)]
pub enum MarkType {
    /// No mark
    NoMark,
    /// ơ, ư
    Horn,
    /// ă
    Breve,
    /// â, ê, ô
    Circumflex,
    /// đ
    DStroke,
}

/// Word form classification.
#[derive(Debug, Clone, Copy, PartialEq, Eq, Structural)]
pub enum WordForm {
    /// Not Vietnamese
    NonVn,
    /// Empty
    Empty,
    /// Consonant only (b, c, d)
    C,
    /// Vowel only (a, e, i)
    V,
    /// Consonant + Vowel (ba, ca)
    CV,
    /// Vowel + Consonant (an, am)
    VC,
    /// Consonant + Vowel + Consonant (ban, cam)
    CVC,
}

/// Transformation effect type.
#[derive(Debug, Clone, Copy, PartialEq, Eq, Structural)]
pub enum TransformEffect {
    /// Append a character
    Append,
    /// Add tone mark
    Tone,
    /// Add mark (â, ê, ô, ơ, ư, ă, đ)
    Mark,
}

/// Transformation record.
#[derive(Debug, Clone, Copy, PartialEq, Eq, Structural)]
pub struct Transformation {
    /// The key that triggered this transformation
    pub key: char,
    /// Effect type
    pub effect: TransformEffect,
    /// Tone type (if effect is Tone)
    pub tone: ToneType,
    /// Mark type (if effect is Mark)
    pub mark: MarkType,
    /// Target position in buffer (for Tone/Mark effects)
    pub target_pos: Option<usize>,
}

impl Transformation {
    /// A key appended as it is.
    pub fn new_append(key: char) -> (r: Self)
        ensures
            r == (Transformation {
                key,
                effect: TransformEffect::Append,
                tone: ToneType::NoTone,
                mark: MarkType::NoMark,
                target_pos: None,
            }),
    {
        Transformation {
            key,
            effect: TransformEffect::Append,
            tone: ToneType::NoTone,
            mark: MarkType::NoMark,
            target_pos: None,
        }
    }

    /// A tone put on the character at `target_pos`.
    pub fn new_tone(key: char, tone: ToneType, target_pos: usize) -> (r: Self)
        ensures
            r == (Transformation {
                key,
                effect: TransformEffect::Tone,
                tone,
                mark: MarkType::NoMark,
                target_pos: Some(target_pos),
            }),
    {
        Transformation {
            key,
            effect: TransformEffect::Tone,
            tone,
            mark: MarkType::NoMark,
            target_pos: Some(target_pos),
        }
    }

    /// A mark put on the character at `target_pos`.
    pub fn new_mark(key: char, mark: MarkType, target_pos: usize) -> (r: Self)
        ensures
            r == (Transformation {
                key,
                effect: TransformEffect::Mark,
                tone: ToneType::NoTone,
                mark,
                target_pos: Some(target_pos),
            }),
    {
        Transformation {
            key,
            effect: TransformEffect::Mark,
            tone: ToneType::NoTone,
            mark,
            target_pos: Some(target_pos),
        }
    }
}

} // verus!
