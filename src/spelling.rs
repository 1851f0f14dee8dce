use vstd::prelude::*;
use crate::text::chars_of;
use crate::validation::{entry_views, holds_entry};

verus! {

/// Vowel sequences of Vietnamese, without tones.
pub open spec fn vowel_sequences() -> Seq<Seq<char>> {
    seq![
        seq!['a'], seq!['ă'], seq!['â'], seq!['e'], seq!['ê'], seq!['i'], seq!['o'], seq!['ô'],
        seq!['ơ'], seq!['u'], seq!['ư'], seq!['y'], seq!['a', 'i'], seq!['a', 'o'],
        seq!['a', 'u'], seq!['a', 'y'], seq!['â', 'y'], seq!['e', 'o'], seq!['ê', 'u'],
        seq!['i', 'a'], seq!['i', 'ê'], seq!['i', 'u'], seq!['o', 'a'], seq!['o', 'ă'],
        seq!['o', 'e'], seq!['o', 'i'], seq!['ô', 'i'], seq!['ơ', 'i'], seq!['u', 'a'],
        seq!['u', 'ă'], seq!['u', 'â'], seq!['u', 'ê'], seq!['u', 'i'], seq!['u', 'ô'],
        seq!['ư', 'ơ'], seq!['u', 'y'], seq!['ư', 'a'], seq!['ư', 'i'], seq!['ư', 'u'],
        seq!['y', 'ê'], seq!['i', 'ê', 'u'], seq!['o', 'a', 'i'], seq!['o', 'a', 'o'],
        seq!['o', 'a', 'y'], seq!['o', 'e', 'o'], seq!['u', 'a', 'o'], seq!['u', 'â', 'y'],
        seq!['u', 'ô', 'i'], seq!['ư', 'ơ', 'i'], seq!['ư', 'ơ', 'u'], seq!['u', 'y', 'ê'],
    ]
}

/// Consonants a word may start with.
pub open spec fn consonant_starts() -> Seq<Seq<char>> {
    seq![
        seq!['b'], seq!['c'], seq!['c', 'h'], seq!['d'], seq!['đ'], seq!['g'], seq!['g', 'h'],
        seq!['g', 'i'], seq!['h'], seq!['k'], seq!['k', 'h'], seq!['l'], seq!['m'], seq!['n'],
        seq!['n', 'g'], seq!['n', 'g', 'h'], seq!['n', 'h'], seq!['p'], seq!['p', 'h'],
        seq!['q', 'u'], seq!['r'], seq!['s'], seq!['t'], seq!['t', 'h'], seq!['t', 'r'],
        seq!['v'], seq!['x'],
    ]
}

/// Consonants a word may end with.
pub open spec fn consonant_ends() -> Seq<Seq<char>> {
    seq![
        seq!['c'], seq!['c', 'h'], seq!['m'], seq!['n'], seq!['n', 'g'], seq!['n', 'h'],
        seq!['p'], seq!['t'],
    ]
}

/// The lower-case vowel without its tone; other characters are kept.
pub open spec fn untoned(c: char) -> char {
    match c {
        'á' | 'à' | 'ả' | 'ã' | 'ạ' => 'a',
        'ắ' | 'ằ' | 'ẳ' | 'ẵ' | 'ặ' => 'ă',
        'ấ' | 'ầ' | 'ẩ' | 'ẫ' | 'ậ' => 'â',
        'é' | 'è' | 'ẻ' | 'ẽ' | 'ẹ' => 'e',
        'ế' | 'ề' | 'ể' | 'ễ' | 'ệ' => 'ê',
        'í' | 'ì' | 'ỉ' | 'ĩ' | 'ị' => 'i',
        'ó' | 'ò' | 'ỏ' | 'õ' | 'ọ' => 'o',
        'ố' | 'ồ' | 'ổ' | 'ỗ' | 'ộ' => 'ô',
        'ớ' | 'ờ' | 'ở' | 'ỡ' | 'ợ' => 'ơ',
        'ú' | 'ù' | 'ủ' | 'ũ' | 'ụ' => 'u',
        'ứ' | 'ừ' | 'ử' | 'ữ' | 'ự' => 'ư',
        'ý' | 'ỳ' | 'ỷ' | 'ỹ' | 'ỵ' => 'y',
        _ => c,
    }
}

/// Every character without its tone.
pub open spec fn untoned_seq(s: Seq<char>) -> Seq<char> {
    s.map_values(|c: char| untoned(c))
}

fn untone_char(c: char) -> (r: char)
    ensures
        r == untoned(c),
{
    match c {
        'á' | 'à' | 'ả' | 'ã' | 'ạ' => 'a',
        'ắ' | 'ằ' | 'ẳ' | 'ẵ' | 'ặ' => 'ă',
        'ấ' | 'ầ' | 'ẩ' | 'ẫ' | 'ậ' => 'â',
        'é' | 'è' | 'ẻ' | 'ẽ' | 'ẹ' => 'e',
        'ế' | 'ề' | 'ể' | 'ễ' | 'ệ' => 'ê',
        'í' | 'ì' | 'ỉ' | 'ĩ' | 'ị' => 'i',
        'ó' | 'ò' | 'ỏ' | 'õ' | 'ọ' => 'o',
        'ố' | 'ồ' | 'ổ' | 'ỗ' | 'ộ' => 'ô',
        'ớ' | 'ờ' | 'ở' | 'ỡ' | 'ợ' => 'ơ',
        'ú' | 'ù' | 'ủ' | 'ũ' | 'ụ' => 'u',
        'ứ' | 'ừ' | 'ử' | 'ữ' | 'ự' => 'ư',
        'ý' | 'ỳ' | 'ỷ' | 'ỹ' | 'ỵ' => 'y',
        _ => c,
    }
}

/// Spell checker for Vietnamese words.
pub struct SpellChecker {
    valid_vowel_seqs: Vec<Vec<char>>,
    valid_consonant_starts: Vec<Vec<char>>,
    valid_consonant_ends: Vec<Vec<char>>,
}

impl SpellChecker {
    /// The tables hold the sequences above.
    pub closed spec fn wf(&self) -> bool {
        &&& entry_views(self.valid_vowel_seqs@) == vowel_sequences()
        &&& entry_views(self.valid_consonant_starts@) == consonant_starts()
        &&& entry_views(self.valid_consonant_ends@) == consonant_ends()
    }

    pub fn new() -> (r: Self)
        ensures
            r.wf(),
    {
        let valid_vowel_seqs = vec![
            vec!['a'], vec!['ă'], vec!['â'], vec!['e'], vec!['ê'], vec!['i'], vec!['o'],
            vec!['ô'], vec!['ơ'], vec!['u'], vec!['ư'], vec!['y'], vec!['a', 'i'],
            vec!['a', 'o'], vec!['a', 'u'], vec!['a', 'y'], vec!['â', 'y'], vec!['e', 'o'],
            vec!['ê', 'u'], vec!['i', 'a'], vec!['i', 'ê'], vec!['i', 'u'], vec!['o', 'a'],
            vec!['o', 'ă'], vec!['o', 'e'], vec!['o', 'i'], vec!['ô', 'i'], vec!['ơ', 'i'],
            vec!['u', 'a'], vec!['u', 'ă'], vec!['u', 'â'], vec!['u', 'ê'], vec!['u', 'i'],
            vec!['u', 'ô'], vec!['ư', 'ơ'], vec!['u', 'y'], vec!['ư', 'a'], vec!['ư', 'i'],
            vec!['ư', 'u'], vec!['y', 'ê'], vec!['i', 'ê', 'u'], vec!['o', 'a', 'i'],
            vec!['o', 'a', 'o'], vec!['o', 'a', 'y'], vec!['o', 'e', 'o'], vec!['u', 'a', 'o'],
            vec!['u', 'â', 'y'], vec!['u', 'ô', 'i'], vec!['ư', 'ơ', 'i'], vec!['ư', 'ơ', 'u'],
            vec!['u', 'y', 'ê'],
        ];
        let valid_consonant_starts = vec![
            vec!['b'], vec!['c'], vec!['c', 'h'], vec!['d'], vec!['đ'], vec!['g'],
            vec!['g', 'h'], vec!['g', 'i'], vec!['h'], vec!['k'], vec!['k', 'h'], vec!['l'],
            vec!['m'], vec!['n'], vec!['n', 'g'], vec!['n', 'g', 'h'], vec!['n', 'h'], vec!['p'],
            vec!['p', 'h'], vec!['q', 'u'], vec!['r'], vec!['s'], vec!['t'], vec!['t', 'h'],
            vec!['t', 'r'], vec!['v'], vec!['x'],
        ];
        let valid_consonant_ends = vec![
            vec!['c'], vec!['c', 'h'], vec!['m'], vec!['n'], vec!['n', 'g'], vec!['n', 'h'],
            vec!['p'], vec!['t'],
        ];
        assert(entry_views(valid_vowel_seqs@) =~~= vowel_sequences());
        assert(entry_views(valid_consonant_starts@) =~~= consonant_starts());
        assert(entry_views(valid_consonant_ends@) =~~= consonant_ends());
        SpellChecker { valid_vowel_seqs, valid_consonant_starts, valid_consonant_ends }
    }

    /// Whether the sequence, with tones removed, is a vowel sequence.
    pub fn is_valid_vowel_seq(&self, seq: &str) -> (r: bool)
        requires
            self.wf(),
        ensures
            r == vowel_sequences().contains(untoned_seq(seq@)),
    {
        let normalized = self.remove_tones(seq);
        holds_entry(&self.valid_vowel_seqs, chars_of(normalized.as_str()).as_slice())
    }

    /// Whether a word may start with the consonant.
    pub fn is_valid_consonant_start(&self, consonant: &str) -> (r: bool)
        requires
            self.wf(),
        ensures
            r == consonant_starts().contains(consonant@),
    {
        holds_entry(&self.valid_consonant_starts, chars_of(consonant).as_slice())
    }

    /// Whether a word may end with the consonant.
    pub fn is_valid_consonant_end(&self, consonant: &str) -> (r: bool)
        requires
            self.wf(),
        ensures
            r == consonant_ends().contains(consonant@),
    {
        holds_entry(&self.valid_consonant_ends, chars_of(consonant).as_slice())
    }

    /// Remove tone marks from the lower-case vowels of a string.
    pub fn remove_tones(&self, s: &str) -> (r: String)
        ensures
            r@ == untoned_seq(s@),
    {
        let cs = chars_of(s);
        let mut out: Vec<char> = Vec::new();
        let mut i: usize = 0;
        while i < cs.len()
            invariant
                i <= cs@.len(),
                out@ == untoned_seq(cs@.subrange(0, i as int)),
            decreases cs@.len() - i,
        {
            out.push(untone_char(cs[i]));
            i = i + 1;
            assert(out@ =~= untoned_seq(cs@.subrange(0, i as int)));
        }
        assert(cs@.subrange(0, cs@.len() as int) =~= cs@);
        crate::text::string_of(out.as_slice())
    }
}

impl Default for SpellChecker {
    fn default() -> (r: Self)
        ensures
            r.wf(),
    {
        SpellChecker::new()
    }
}

} // verus!
