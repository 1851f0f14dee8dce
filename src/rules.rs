use vstd::prelude::*;
use crate::syllable::{Tone, toned, apply_tone_to_char};
use crate::text::{fold_char, lower_char, chars_of, string_of};

verus! {

/// Tone placement style.
#[derive(Debug, Clone, Copy, PartialEq, Eq, Structural)]
pub enum ToneStyle {
    /// Modern orthography: hoà, thuý
    New,
    /// Classical orthography: hòa, thúy
    Old,
}

impl Default for ToneStyle {
    fn default() -> (r: Self)
        ensures
            r == ToneStyle::New,
    {
        ToneStyle::New
    }
}

/// Whether a two-letter cluster is one of `oa`, `oe`, `oă`, `uy`, whose tone
/// position depends on the orthography.
pub open spec fn style_pair(a: char, b: char) -> bool {
    (a == 'o' && (b == 'a' || b == 'e' || b == 'ă')) || (a == 'u' && b == 'y')
}

/// The modified vowels that take the tone wherever they stand.
pub open spec fn dominant(c: char) -> bool {
    c == 'ê' || c == 'ô' || c == 'ơ'
}

/// Position of the tone in a non-empty vowel cluster.
pub open spec fn tone_position(v: Seq<char>, style: ToneStyle) -> int {
    if v.len() == 1 {
        0
    } else if v.len() == 2 {
        let a = fold_char(v[0]);
        let b = fold_char(v[1]);
        if style_pair(a, b) {
            if style == ToneStyle::New { 1 } else { 0 }
        } else if b == 'ê' || b == 'ô' || b == 'ơ' {
            1
        } else {
            0
        }
    } else if dominant(fold_char(v[2])) {
        2
    } else {
        1
    }
}

/// The vowel cluster with the tone placed on one of its characters.
pub open spec fn placed(v: Seq<char>, tone: Tone, style: ToneStyle) -> Seq<char> {
    if v.len() == 0 {
        v
    } else {
        let i = tone_position(v, style);
        v.update(i, toned(v[i], tone))
    }
}

/// Tone placement on a vowel cluster given as characters.
pub fn place_tone_chars(chars: &[char], tone: Tone, style: ToneStyle) -> (r: Vec<char>)
    ensures
        r@ == placed(chars@, tone, style),
{
    let mut r: Vec<char> = Vec::new();
    let mut k: usize = 0;
    while k < chars.len()
        invariant
            k <= chars@.len(),
            r@ == chars@.subrange(0, k as int),
        decreases chars@.len() - k,
    {
        r.push(chars[k]);
        k = k + 1;
        assert(r@ =~= chars@.subrange(0, k as int));
    }
    assert(r@ =~= chars@);
    if chars.len() == 0 {
        return r;
    }
    let pos: usize = if chars.len() == 1 {
        0
    } else if chars.len() == 2 {
        let a = lower_char(chars[0]);
        let b = lower_char(chars[1]);
        if (a == 'o' && (b == 'a' || b == 'e' || b == 'ă')) || (a == 'u' && b == 'y') {
            match style {
                ToneStyle::New => 1,
                ToneStyle::Old => 0,
            }
        } else if b == 'ê' || b == 'ô' || b == 'ơ' {
            1
        } else {
            0
        }
    } else {
        let c = lower_char(chars[2]);
        if c == 'ê' || c == 'ô' || c == 'ơ' {
            2
        } else {
            1
        }
    };
    let c = apply_tone_to_char(chars[pos], tone);
    r.set(pos, c);
    r
}

/// Place tone mark on vowel according to Vietnamese rules: on the only
/// letter of a single vowel; in a pair, on the second of `oa`, `oe`, `oă`,
/// `uy` in modern style and on the first in classical style, on a second
/// `ê`, `ô`, `ơ`, and otherwise on the first; of three or more, on a third
/// `ê`, `ô`, `ơ` (as in `uyê`), and otherwise on the middle one.
pub fn place_tone(vowel: &str, tone: Tone, style: ToneStyle) -> (r: String)
    ensures
        r@ == placed(vowel@, tone, style),
{
    let chars = chars_of(vowel);
    let r = place_tone_chars(chars.as_slice(), tone, style);
    string_of(r.as_slice())
}

} // verus!
