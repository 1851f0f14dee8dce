use vstd::prelude::*;
use crate::traits::LookupProvider;
use crate::types::{CharInfo, WordForm};

verus! {

/// Vietnamese character information.
#[derive(Debug, Clone, Copy, PartialEq, Eq, Structural)]
pub struct VietCharInfo {
    pub is_vowel: bool,
    pub is_consonant: bool,
    pub is_separator: bool,
    pub is_soft_separator: bool,
    /// 0 = none, 1 = a, 2 = e, 3 = i, 4 = o, 5 = u, 6 = y
    pub vowel_index: u8,
    /// 0 = none, 1..5 = tones
    pub tone_index: u8,
    /// w in Telex
    pub is_breve: bool,
    /// VNI: 1 = ă, 2 = â, 3 = ơ, 4 = đ
    pub vni_double_index: u8,
}

/// Information with every field zero or false.
pub open spec fn blank() -> VietCharInfo {
    VietCharInfo {
        is_vowel: false,
        is_consonant: false,
        is_separator: false,
        is_soft_separator: false,
        vowel_index: 0,
        tone_index: 0,
        is_breve: false,
        vni_double_index: 0,
    }
}

impl Default for VietCharInfo {
    fn default() -> (r: Self)
        ensures
            r == blank(),
    {
        VietCharInfo {
            is_vowel: false,
            is_consonant: false,
            is_separator: false,
            is_soft_separator: false,
            vowel_index: 0,
            tone_index: 0,
            is_breve: false,
            vni_double_index: 0,
        }
    }
}

/// Vowel index of a letter: 1..6 for a, e, i, o, u, y in either case.
pub open spec fn vowel_index_of(c: char) -> u8 {
    match c {
        'a' | 'A' => 1,
        'e' | 'E' => 2,
        'i' | 'I' => 3,
        'o' | 'O' => 4,
        'u' | 'U' => 5,
        'y' | 'Y' => 6,
        _ => 0,
    }
}

/// Telex tone index of a key: 1..5 for s, f, r, x, j in either case.
pub open spec fn telex_tone_index(c: char) -> u8 {
    match c {
        's' | 'S' => 1,
        'f' | 'F' => 2,
        'r' | 'R' => 3,
        'x' | 'X' => 4,
        'j' | 'J' => 5,
        _ => 0,
    }
}

/// VNI tone index of a key: 1..5 for the digits 1..5.
pub open spec fn vni_tone_index(c: char) -> u8 {
    match c {
        '1' => 1,
        '2' => 2,
        '3' => 3,
        '4' => 4,
        '5' => 5,
        _ => 0,
    }
}

/// VNI compound mark of a key: 1..4 for the digits 6..9.
pub open spec fn vni_mark_index(c: char) -> u8 {
    match c {
        '6' => 1,
        '7' => 2,
        '8' => 3,
        '9' => 4,
        _ => 0,
    }
}

/// Whitespace that separates words.
pub open spec fn hard_separator(c: char) -> bool {
    c == ' ' || c == '\n' || c == '\t' || c == '\r'
}

/// Punctuation that ends a word.
pub open spec fn soft_separator(c: char) -> bool {
    c == ',' || c == '.' || c == ';' || c == ':' || c == '!' || c == '?' || c == '-' || c == '_'
        || c == '(' || c == ')' || c == '[' || c == ']' || c == '{' || c == '}' || c == '"'
        || c == '\''
}

/// Whether `c` is an ASCII letter.
pub open spec fn ascii_letter(c: char) -> bool {
    ('a' <= c && c <= 'z') || ('A' <= c && c <= 'Z')
}

/// Classification of a key for Telex.
pub open spec fn telex_info(c: char) -> VietCharInfo {
    VietCharInfo {
        is_vowel: vowel_index_of(c) != 0,
        is_consonant: ascii_letter(c) && vowel_index_of(c) == 0,
        is_separator: hard_separator(c),
        is_soft_separator: soft_separator(c),
        vowel_index: vowel_index_of(c),
        tone_index: telex_tone_index(c),
        is_breve: c == 'w' || c == 'W',
        vni_double_index: 0,
    }
}

/// Classification of a key for VNI: as Telex, with tones and marks on
/// digits instead of letters.
pub open spec fn vni_info(c: char) -> VietCharInfo {
    VietCharInfo {
        tone_index: vni_tone_index(c),
        vni_double_index: vni_mark_index(c),
        ..telex_info(c)
    }
}

/// Classification of a key by one of the two conventions.
pub open spec fn info_for(vni: bool, c: char) -> VietCharInfo {
    if vni { vni_info(c) } else { telex_info(c) }
}

fn classify(vni: bool, c: char) -> (r: VietCharInfo)
    ensures
        r == info_for(vni, c),
{
    let vowel_index: u8 = match c {
        'a' | 'A' => 1,
        'e' | 'E' => 2,
        'i' | 'I' => 3,
        'o' | 'O' => 4,
        'u' | 'U' => 5,
        'y' | 'Y' => 6,
        _ => 0,
    };
    let tone_index: u8 = if vni {
        match c {
            '1' => 1,
            '2' => 2,
            '3' => 3,
            '4' => 4,
            '5' => 5,
            _ => 0,
        }
    } else {
        match c {
            's' | 'S' => 1,
            'f' | 'F' => 2,
            'r' | 'R' => 3,
            'x' | 'X' => 4,
            'j' | 'J' => 5,
            _ => 0,
        }
    };
    let vni_double_index: u8 = if vni {
        match c {
            '6' => 1,
            '7' => 2,
            '8' => 3,
            '9' => 4,
            _ => 0,
        }
    } else {
        0
    };
    let letter = ('a' <= c && c <= 'z') || ('A' <= c && c <= 'Z');
    VietCharInfo {
        is_vowel: vowel_index != 0,
        is_consonant: letter && vowel_index == 0,
        is_separator: c == ' ' || c == '\n' || c == '\t' || c == '\r',
        is_soft_separator: c == ',' || c == '.' || c == ';' || c == ':' || c == '!' || c == '?'
            || c == '-' || c == '_' || c == '(' || c == ')' || c == '[' || c == ']' || c == '{'
            || c == '}' || c == '"' || c == '\'',
        vowel_index,
        tone_index,
        is_breve: c == 'w' || c == 'W',
        vni_double_index,
    }
}

/// Vietnamese lookup provider: a table over the ASCII characters, built
/// once for Telex or VNI; other characters get blank information.
pub struct VietnameseLookup {
    /// Whether digits carry the tones and marks (VNI)
    vni: bool,
    /// Information for each ASCII character, by code
    ascii_table: Vec<VietCharInfo>,
}

impl VietnameseLookup {
    /// The table holds the information of each ASCII character.
    pub closed spec fn wf(&self) -> bool {
        &&& self.ascii_table@.len() == 128
        &&& forall|i: int| 0 <= i < 128 ==> #[trigger] self.ascii_table@[i] == info_for(self.vni, i as char)
    }

    /// Whether the table follows VNI.
    pub closed spec fn is_vni(&self) -> bool {
        self.vni
    }

    fn build(vni: bool) -> (r: Self)
        ensures
            r.wf(),
            r.is_vni() == vni,
    {
        let mut table: Vec<VietCharInfo> = Vec::new();
        let mut i: u8 = 0;
        while i < 128
            invariant
                i <= 128,
                table@.len() == i,
                forall|j: int| 0 <= j < i ==> #[trigger] table@[j] == info_for(vni, j as char),
            decreases 128 - i,
        {
            let info = classify(vni, i as char);
            table.push(info);
            i = i + 1;
        }
        VietnameseLookup { vni, ascii_table: table }
    }

    /// Table for Telex.
    pub fn new_telex() -> (r: Self)
        ensures
            r.wf(),
            !r.is_vni(),
    {
        Self::build(false)
    }

    /// Table for VNI.
    pub fn new_vni() -> (r: Self)
        ensures
            r.wf(),
            r.is_vni(),
    {
        Self::build(true)
    }

    /// Information about a character: from the table for ASCII, blank for
    /// any other.
    pub fn get_char_info(&self, c: char) -> (r: VietCharInfo)
        requires
            self.wf(),
        ensures
            (c as u32) < 128 ==> r == info_for(self.is_vni(), c),
            (c as u32) >= 128 ==> r == blank(),
    {
        let code = c as u32;
        if code < 128 {
            let r = self.ascii_table[code as usize];
            assert(self.ascii_table@[code as int] == info_for(self.vni, (code as int) as char));
            r
        } else {
            VietCharInfo::default()
        }
    }
}

impl LookupProvider for VietnameseLookup {
    fn lookup(&self, c: char) -> CharInfo {
        let code = c as u32;
        let v = if code < 128 && self.ascii_table.len() == 128 {
            self.ascii_table[code as usize]
        } else {
            VietCharInfo::default()
        };
        CharInfo {
            vowel_index: v.vowel_index,
            macro_index: 0,
            double_char_index: 0,
            tone_index: v.tone_index,
            current_tone: 0,
            is_breve: v.is_breve,
            is_separator: v.is_separator,
            is_soft_separator: v.is_soft_separator,
            vni_double_index: v.vni_double_index,
            word_form: WordForm::Empty,
            c1_offset: None,
            v_offset: None,
            c2_offset: None,
        }
    }

    fn is_valid_char(&self, c: char) -> bool {
        let i = classify(self.vni, c);
        i.is_vowel || i.is_consonant
    }

    fn is_vowel(&self, c: char) -> bool {
        classify(self.vni, c).is_vowel
    }

    fn is_consonant(&self, c: char) -> bool {
        classify(self.vni, c).is_consonant
    }

    fn is_separator(&self, c: char) -> bool {
        let i = classify(self.vni, c);
        i.is_separator || i.is_soft_separator
    }
}

} // verus!
