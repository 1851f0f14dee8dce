use vstd::prelude::*;
use crate::buffer::{InputBuffer, pushed};
use crate::text::{fold_char, fold_seq, lower_char, lower_chars, chars_of, chars_eq, string_of, string_of_char, push_char, is_lowercase, has_lowercase_property};
use crate::traits::{LookupProvider, LanguageRules};
use crate::types::{Action, ActionModel, CharInfo};

verus! {

/// A Nôm character offered for a Quốc ngữ syllable.
#[derive(Debug, Clone)]
pub struct NomCandidate {
    /// The Nôm character
    pub character: char,
    /// Its Quốc ngữ reading
    pub quoc_ngu: String,
    /// Pinyin, for Sino-Vietnamese characters
    pub pinyin: Option<String>,
    /// Meaning
    pub meaning: Option<String>,
    /// Frequency of use, 0..100
    pub frequency: u8,
    /// Category
    pub category: NomCategory,
}

/// Category of a Nôm character.
#[derive(Debug, Clone, Copy, PartialEq, Eq, Structural)]
pub enum NomCategory {
    /// Native Nôm character
    Native,
    /// Sino-Vietnamese
    SinoVietnamese,
    /// Pure Chinese
    PureHan,
}

/// Unicode block of a CJK character.
#[derive(Debug, Clone, Copy, PartialEq, Eq, Structural)]
pub enum UnicodeBlock {
    CjkUnified,
    ExtensionA,
    ExtensionB,
    ExtensionC,
    ExtensionD,
    Other,
}

impl Default for UnicodeBlock {
    fn default() -> (r: Self)
        ensures
            r == UnicodeBlock::CjkUnified,
    {
        UnicodeBlock::CjkUnified
    }
}

/// The block of a code point.
pub open spec fn block_of(cp: u32) -> UnicodeBlock {
    if 0x4E00 <= cp <= 0x9FFF {
        UnicodeBlock::CjkUnified
    } else if 0x3400 <= cp <= 0x4DBF {
        UnicodeBlock::ExtensionA
    } else if 0x20000 <= cp <= 0x2A6DF {
        UnicodeBlock::ExtensionB
    } else if 0x2A700 <= cp <= 0x2B73F {
        UnicodeBlock::ExtensionC
    } else if 0x2B740 <= cp <= 0x2B81F {
        UnicodeBlock::ExtensionD
    } else {
        UnicodeBlock::Other
    }
}

impl UnicodeBlock {
    /// The block of a code point.
    pub fn from_code_point(cp: u32) -> (r: Self)
        ensures
            r == block_of(cp),
    {
        if 0x4E00 <= cp && cp <= 0x9FFF {
            UnicodeBlock::CjkUnified
        } else if 0x3400 <= cp && cp <= 0x4DBF {
            UnicodeBlock::ExtensionA
        } else if 0x20000 <= cp && cp <= 0x2A6DF {
            UnicodeBlock::ExtensionB
        } else if 0x2A700 <= cp && cp <= 0x2B73F {
            UnicodeBlock::ExtensionC
        } else if 0x2B740 <= cp && cp <= 0x2B81F {
            UnicodeBlock::ExtensionD
        } else {
            UnicodeBlock::Other
        }
    }
}

/// Information about a character for Nôm input.
#[derive(Debug, Clone, Copy)]
pub struct NomCharInfo {
    /// Whether it is a CJK ideograph
    pub is_nom: bool,
    /// Its code point
    pub code_point: u32,
    /// Its block
    pub unicode_block: UnicodeBlock,
}

/// Whether a code point is a CJK unified ideograph (base block or
/// extensions A to G).
pub open spec fn cjk_code(cp: u32) -> bool {
    (0x4E00 <= cp <= 0x9FFF) || (0x3400 <= cp <= 0x4DBF) || (0x20000 <= cp <= 0x2A6DF) || (0x2A700
        <= cp <= 0x2B73F) || (0x2B740 <= cp <= 0x2B81F) || (0x2B820 <= cp <= 0x2CEAF) || (0x2CEB0
        <= cp <= 0x2EBEF) || (0x30000 <= cp <= 0x3134F)
}

/// Whether a character is an ASCII letter.
pub open spec fn ascii_alpha(c: char) -> bool {
    ('a' <= c && c <= 'z') || ('A' <= c && c <= 'Z')
}

/// Whether a character has the Unicode White_Space property: tab through
/// carriage return, space, next line, no-break space, ogham space mark, the
/// spaces U+2000 to U+200A, line and paragraph separators, narrow no-break
/// space, medium mathematical space and ideographic space.
pub open spec fn whitespace_property(c: char) -> bool {
    let cp = c as u32;
    (0x9 <= cp <= 0xD) || cp == 0x20 || cp == 0x85 || cp == 0xA0 || cp == 0x1680 || (0x2000 <= cp
        <= 0x200A) || cp == 0x2028 || cp == 0x2029 || cp == 0x202F || cp == 0x205F || cp == 0x3000
}

fn is_whitespace(c: char) -> (r: bool)
    ensures
        r == whitespace_property(c),
{
    let cp = c as u32;
    (0x9 <= cp && cp <= 0xD) || cp == 0x20 || cp == 0x85 || cp == 0xA0 || cp == 0x1680 || (0x2000
        <= cp && cp <= 0x200A) || cp == 0x2028 || cp == 0x2029 || cp == 0x202F || cp == 0x205F
        || cp == 0x3000
}

fn is_ascii_letter(c: char) -> (r: bool)
    ensures
        r == ascii_alpha(c),
{
    ('a' <= c && c <= 'z') || ('A' <= c && c <= 'Z')
}

/// Lookup provider for Nôm input.
pub struct NomLookup {}

impl NomLookup {
    pub fn new() -> (r: Self) {
        NomLookup {}
    }

    /// Whether a character is a CJK ideograph.
    pub fn is_cjk(c: char) -> (r: bool)
        ensures
            r == cjk_code(c as u32),
    {
        let cp = c as u32;
        (0x4E00 <= cp && cp <= 0x9FFF) || (0x3400 <= cp && cp <= 0x4DBF) || (0x20000 <= cp && cp
            <= 0x2A6DF) || (0x2A700 <= cp && cp <= 0x2B73F) || (0x2B740 <= cp && cp <= 0x2B81F)
            || (0x2B820 <= cp && cp <= 0x2CEAF) || (0x2CEB0 <= cp && cp <= 0x2EBEF) || (0x30000
            <= cp && cp <= 0x3134F)
    }

    /// Nôm information about a character.
    pub fn lookup_nom(&self, c: char) -> (r: NomCharInfo)
        ensures
            r.is_nom == cjk_code(c as u32),
            r.code_point == c as u32,
            r.unicode_block == block_of(c as u32),
    {
        let cp = c as u32;
        NomCharInfo { is_nom: Self::is_cjk(c), code_point: cp, unicode_block: UnicodeBlock::from_code_point(cp) }
    }
}

impl Default for NomLookup {
    fn default() -> (r: Self) {
        NomLookup::new()
    }
}

impl LookupProvider for NomLookup {
    fn lookup(&self, c: char) -> CharInfo {
        let mut info = CharInfo::default();
        info.is_separator = is_whitespace(c);
        info
    }

    fn is_valid_char(&self, c: char) -> bool {
        is_ascii_letter(c) || Self::is_cjk(c)
    }

    fn is_vowel(&self, c: char) -> bool {
        let l = lower_char(c);
        is_ascii_letter(c) && (l == 'a' || l == 'e' || l == 'i' || l == 'o' || l == 'u' || l == 'y')
    }

    fn is_consonant(&self, c: char) -> bool {
        let l = lower_char(c);
        is_ascii_letter(c) && !(l == 'a' || l == 'e' || l == 'i' || l == 'o' || l == 'u' || l == 'y')
    }

    fn is_separator(&self, c: char) -> bool {
        is_whitespace(c) || c == ',' || c == '.' || c == ';' || c == ':' || c == '!' || c == '?'
    }
}

/// `nguoi`
pub open spec fn key_nguoi() -> Seq<char> {
    seq!['n', 'g', 'u', 'o', 'i']
}

/// `viet`
pub open spec fn key_viet() -> Seq<char> {
    seq!['v', 'i', 'e', 't']
}

/// `nom`
pub open spec fn key_nom() -> Seq<char> {
    seq!['n', 'o', 'm']
}

/// The Nôm character that the dictionary holds for a lower-case reading
/// without tone marks.
pub open spec fn nom_entry(key: Seq<char>) -> Option<char> {
    if key == key_nguoi() {
        Some('𡦂')
    } else if key == key_viet() {
        Some('越')
    } else if key == key_nom() {
        Some('喃')
    } else {
        None
    }
}

/// Errors of loading a dictionary.
#[derive(Debug, Clone, PartialEq, Eq)]
pub enum DictionaryError {
    /// No file at this path
    FileNotFound(String),
    /// Reading failed, with the reason
    IoError(String),
    /// The file is not a dictionary
    InvalidFormat,
}

/// Dictionary from Quốc ngữ readings to Nôm characters.
pub struct NomDictionary {}

impl NomDictionary {
    pub fn new() -> (r: Self) {
        NomDictionary {}
    }

    /// Load a dictionary; the built-in entries are used whatever the path.
    pub fn load(path: &str) -> (r: Result<Self, DictionaryError>)
        ensures
            r is Ok,
    {
        Ok(NomDictionary::new())
    }

    /// The candidates for a reading, compared in lower case.
    pub fn lookup(&self, quoc_ngu: &str) -> (r: Vec<NomCandidate>)
        ensures
            match nom_entry(fold_seq(quoc_ngu@)) {
                Some(c) => r@.len() == 1 && r@[0].character == c,
                None => r@.len() == 0,
            },
    {
        let key = lower_chars(chars_of(quoc_ngu).as_slice());
        let mut r: Vec<NomCandidate> = Vec::new();
        if chars_eq(key.as_slice(), &['n', 'g', 'u', 'o', 'i']) {
            r.push(NomCandidate {
                character: '𡦂',
                quoc_ngu: "người".to_owned(),
                pinyin: None,
                meaning: Some("người, con người".to_owned()),
                frequency: 95,
                category: NomCategory::Native,
            });
        } else if chars_eq(key.as_slice(), &['v', 'i', 'e', 't']) {
            r.push(NomCandidate {
                character: '越',
                quoc_ngu: "Việt".to_owned(),
                pinyin: Some("yuè".to_owned()),
                meaning: Some("Việt Nam".to_owned()),
                frequency: 90,
                category: NomCategory::SinoVietnamese,
            });
        } else if chars_eq(key.as_slice(), &['n', 'o', 'm']) {
            r.push(NomCandidate {
                character: '喃',
                quoc_ngu: "Nôm".to_owned(),
                pinyin: Some("nán".to_owned()),
                meaning: Some("chữ Nôm".to_owned()),
                frequency: 85,
                category: NomCategory::SinoVietnamese,
            });
        }
        r
    }

    /// Whether the dictionary has a candidate for the reading.
    pub fn contains(&self, quoc_ngu: &str) -> (r: bool)
        ensures
            r == nom_entry(fold_seq(quoc_ngu@)) is Some,
    {
        self.lookup(quoc_ngu).len() > 0
    }
}

impl Default for NomDictionary {
    fn default() -> (r: Self) {
        NomDictionary::new()
    }
}

/// What a Telex-Nôm key does to the typed reading `s`: space or newline
/// picks the candidate (or commits the reading when there is none); a digit
/// picks a candidate by number; a letter is added in lower case and shown;
/// other keys pass through.
pub open spec fn nom_process(s: Seq<char>, key: char) -> (Seq<char>, ActionModel) {
    let entry = nom_entry(fold_seq(s));
    if key == ' ' || key == '\n' {
        match entry {
            Some(c) => (Seq::empty(), ActionModel::Replace { delete: s.len(), insert: seq![c] }),
            None => if s.len() > 0 {
                (Seq::empty(), ActionModel::Commit(s))
            } else {
                (s, ActionModel::DoNothing)
            },
        }
    } else if '1' <= key && key <= '9' {
        if key == '1' && entry is Some {
            (Seq::empty(), ActionModel::Replace { delete: s.len(), insert: seq![entry->0] })
        } else {
            (s, ActionModel::DoNothing)
        }
    } else if ascii_alpha(key) {
        (s.push(fold_char(key)), ActionModel::Replace { delete: 0, insert: seq![key] })
    } else {
        (s, ActionModel::DoNothing)
    }
}

/// Telex input for Nôm: a Quốc ngữ reading is typed, then a candidate is
/// picked.
pub struct TelexNomMethod {
    dictionary: NomDictionary,
    /// The reading typed so far
    pub syllable_buffer: String,
    candidates: Vec<NomCandidate>,
    selected_index: usize,
}

impl TelexNomMethod {
    /// The reading typed so far.
    pub closed spec fn reading(&self) -> Seq<char> {
        self.syllable_buffer@
    }

    /// The candidates are those of the typed reading, and the first is
    /// selected.
    pub closed spec fn wf(&self) -> bool {
        &&& self.selected_index == 0
        &&& match nom_entry(fold_seq(self.reading())) {
            Some(c) => self.candidates@.len() == 1 && self.candidates@[0].character == c,
            None => self.candidates@.len() == 0,
        }
    }

    pub fn new() -> (r: Self)
        ensures
            r.wf(),
            r.reading() == Seq::<char>::empty(),
    {
        let r = TelexNomMethod {
            dictionary: NomDictionary::new(),
            syllable_buffer: String::new(),
            candidates: Vec::new(),
            selected_index: 0,
        };
        assert(fold_seq(r.reading()) =~= Seq::<char>::empty());
        r
    }

    /// The candidates for the typed reading.
    pub fn candidates(&self) -> (r: &[NomCandidate])
        requires
            self.wf(),
        ensures
            match nom_entry(fold_seq(self.reading())) {
                Some(c) => r@.len() == 1 && r@[0].character == c,
                None => r@.len() == 0,
            },
    {
        self.candidates.as_slice()
    }

    /// The character of the candidate at this index.
    pub fn select(&mut self, index: usize) -> (r: Option<char>)
        requires
            old(self).wf(),
        ensures
            final(self).wf(),
            final(self).reading() == old(self).reading(),
            match nom_entry(fold_seq(old(self).reading())) {
                Some(c) => r == (if index == 0 { Some(c) } else { None }),
                None => r is None,
            },
    {
        if index < self.candidates.len() {
            Some(self.candidates[index].character)
        } else {
            None
        }
    }

    /// Look the typed reading up again.
    pub fn update_candidates(&mut self)
        ensures
            final(self).wf(),
            final(self).reading() == old(self).reading(),
    {
        self.candidates = self.dictionary.lookup(self.syllable_buffer.as_str());
        self.selected_index = 0;
    }

    fn clear_reading(&mut self)
        ensures
            final(self).wf(),
            final(self).reading() == Seq::<char>::empty(),
    {
        self.syllable_buffer = String::new();
        self.candidates = Vec::new();
        self.selected_index = 0;
        assert(fold_seq(self.reading()) =~= Seq::<char>::empty());
    }

    /// Process one key as `nom_process` says; the buffer is cleared when a
    /// reading is replaced or committed, and holds each typed letter.
    pub fn process<L: LookupProvider>(&mut self, key: char, buffer: &mut InputBuffer, lookup: &L) -> (r: Action)
        requires
            old(self).wf(),
        ensures
            final(self).wf(),
            final(self).reading() == nom_process(old(self).reading(), key).0,
            r@ == nom_process(old(self).reading(), key).1,
            ascii_alpha(key) ==> final(buffer)@ == pushed(old(buffer)@, (key, has_lowercase_property(key))),
    {
        let n = chars_of(self.syllable_buffer.as_str()).len();
        if key == ' ' || key == '\n' {
            if self.candidates.len() > 0 {
                let nom_char = self.candidates[0].character;
                self.clear_reading();
                buffer.clear();
                return Action::Replace { backspace_count: n, text: string_of_char(nom_char) };
            }
            if n > 0 {
                let text = string_of(chars_of(self.syllable_buffer.as_str()).as_slice());
                self.clear_reading();
                buffer.clear();
                return Action::Commit(text);
            }
            return Action::DoNothing;
        }
        if '1' <= key && key <= '9' {
            let index = (key as u32 - '1' as u32) as usize;
            if index < self.candidates.len() {
                let nom_char = self.candidates[index].character;
                self.clear_reading();
                buffer.clear();
                return Action::Replace { backspace_count: n, text: string_of_char(nom_char) };
            }
            return Action::DoNothing;
        }
        if is_ascii_letter(key) {
            push_char(&mut self.syllable_buffer, lower_char(key));
            let lc = is_lowercase(key);
            buffer.push(key, lc);
            self.update_candidates();
            return Action::Replace { backspace_count: 0, text: string_of_char(key) };
        }
        Action::DoNothing
    }

    /// Remove the last letter of the reading.
    pub fn process_backspace(&mut self, buffer: &mut InputBuffer) -> (r: Action)
        requires
            old(self).wf(),
        ensures
            final(self).wf(),
            old(self).reading().len() == 0 ==> r@ == ActionModel::DoNothing
                && final(self).reading() == old(self).reading(),
            old(self).reading().len() > 0 ==> r@ == (ActionModel::Replace { delete: 1, insert: Seq::empty() })
                && final(self).reading() == old(self).reading().drop_last(),
    {
        let mut s = chars_of(self.syllable_buffer.as_str());
        if s.len() == 0 {
            return Action::DoNothing;
        }
        s.pop();
        self.syllable_buffer = string_of(s.as_slice());
        buffer.pop();
        self.update_candidates();
        let r = Action::Replace { backspace_count: 1, text: String::new() };
        assert(r@ == (ActionModel::Replace { delete: 1, insert: Seq::<char>::empty() }));
        r
    }

    /// Forget the reading.
    pub fn reset(&mut self)
        ensures
            final(self).wf(),
            final(self).reading() == Seq::<char>::empty(),
    {
        self.clear_reading();
    }
}

impl Default for TelexNomMethod {
    fn default() -> (r: Self) {
        TelexNomMethod::new()
    }
}

/// Spelling rules for Nôm: every word is accepted.
pub struct NomRules;

impl NomRules {
    pub fn new() -> (r: Self) {
        NomRules
    }
}

impl Default for NomRules {
    fn default() -> (r: Self) {
        NomRules::new()
    }
}

impl LanguageRules for NomRules {
    fn is_valid_word(&self, word: &str) -> bool {
        true
    }

    fn is_valid_syllable(&self, syllable: &str) -> bool {
        true
    }

    fn suggest(&self, word: &str) -> Vec<String> {
        Vec::new()
    }

    fn find_tone_position(&self, syllable: &str) -> Option<usize> {
        None
    }
}

} // verus!
