use vstd::prelude::*;
use crate::text::{fold_char, chars_of, string_of, push_char, push_chars};
use crate::rules::{placed, place_tone_chars, ToneStyle};

verus! {

/// Vietnamese tone marks.
#[derive(Debug, Clone, Copy, PartialEq, Eq, Structural)]
pub enum Tone {
    /// Rising tone (sắc).
    Acute,
    /// Falling tone (huyền).
    Grave,
    /// Dipping tone (hỏi).
    HookAbove,
    /// Creaky rising tone (ngã).
    Tilde,
    /// Creaky falling tone (nặng).
    Underdot,
}

/// Letter modifications.
#[derive(Debug, Clone, Copy, PartialEq, Eq, Structural)]
pub enum Modification {
    /// a→â, e→ê, o→ô
    Circumflex,
    /// a→ă
    Breve,
    /// o→ơ, u→ư
    Horn,
    /// d→đ
    DStroke,
}

/// One of five characters, chosen by the tone.
pub open spec fn by_tone(t: Tone, c1: char, c2: char, c3: char, c4: char, c5: char) -> char {
    match t {
        Tone::Acute => c1,
        Tone::Grave => c2,
        Tone::HookAbove => c3,
        Tone::Tilde => c4,
        Tone::Underdot => c5,
    }
}

fn pick(t: Tone, c1: char, c2: char, c3: char, c4: char, c5: char) -> (r: char)
    ensures
        r == by_tone(t, c1, c2, c3, c4, c5),
{
    match t {
        Tone::Acute => c1,
        Tone::Grave => c2,
        Tone::HookAbove => c3,
        Tone::Tilde => c4,
        Tone::Underdot => c5,
    }
}

/// The character `c` carrying tone `t`: defined for the twelve base vowels in
/// both cases; any other character is returned unchanged.
pub open spec fn toned(c: char, t: Tone) -> char {
    match c {
        'a' => by_tone(t, 'á', 'à', 'ả', 'ã', 'ạ'),
        'A' => by_tone(t, 'Á', 'À', 'Ả', 'Ã', 'Ạ'),
        'ă' => by_tone(t, 'ắ', 'ằ', 'ẳ', 'ẵ', 'ặ'),
        'Ă' => by_tone(t, 'Ắ', 'Ằ', 'Ẳ', 'Ẵ', 'Ặ'),
        'â' => by_tone(t, 'ấ', 'ầ', 'ẩ', 'ẫ', 'ậ'),
        'Â' => by_tone(t, 'Ấ', 'Ầ', 'Ẩ', 'Ẫ', 'Ậ'),
        'e' => by_tone(t, 'é', 'è', 'ẻ', 'ẽ', 'ẹ'),
        'E' => by_tone(t, 'É', 'È', 'Ẻ', 'Ẽ', 'Ẹ'),
        'ê' => by_tone(t, 'ế', 'ề', 'ể', 'ễ', 'ệ'),
        'Ê' => by_tone(t, 'Ế', 'Ề', 'Ể', 'Ễ', 'Ệ'),
        'i' => by_tone(t, 'í', 'ì', 'ỉ', 'ĩ', 'ị'),
        'I' => by_tone(t, 'Í', 'Ì', 'Ỉ', 'Ĩ', 'Ị'),
        'o' => by_tone(t, 'ó', 'ò', 'ỏ', 'õ', 'ọ'),
        'O' => by_tone(t, 'Ó', 'Ò', 'Ỏ', 'Õ', 'Ọ'),
        'ô' => by_tone(t, 'ố', 'ồ', 'ổ', 'ỗ', 'ộ'),
        'Ô' => by_tone(t, 'Ố', 'Ồ', 'Ổ', 'Ỗ', 'Ộ'),
        'ơ' => by_tone(t, 'ớ', 'ờ', 'ở', 'ỡ', 'ợ'),
        'Ơ' => by_tone(t, 'Ớ', 'Ờ', 'Ở', 'Ỡ', 'Ợ'),
        'u' => by_tone(t, 'ú', 'ù', 'ủ', 'ũ', 'ụ'),
        'U' => by_tone(t, 'Ú', 'Ù', 'Ủ', 'Ũ', 'Ụ'),
        'ư' => by_tone(t, 'ứ', 'ừ', 'ử', 'ữ', 'ự'),
        'Ư' => by_tone(t, 'Ứ', 'Ừ', 'Ử', 'Ữ', 'Ự'),
        'y' => by_tone(t, 'ý', 'ỳ', 'ỷ', 'ỹ', 'ỵ'),
        'Y' => by_tone(t, 'Ý', 'Ỳ', 'Ỷ', 'Ỹ', 'Ỵ'),
        _ => c,
    }
}

/// Apply a tone to a single character.
pub fn apply_tone_to_char(ch: char, tone: Tone) -> (r: char)
    ensures
        r == toned(ch, tone),
{
    match ch {
        'a' => pick(tone, 'á', 'à', 'ả', 'ã', 'ạ'),
        'A' => pick(tone, 'Á', 'À', 'Ả', 'Ã', 'Ạ'),
        'ă' => pick(tone, 'ắ', 'ằ', 'ẳ', 'ẵ', 'ặ'),
        'Ă' => pick(tone, 'Ắ', 'Ằ', 'Ẳ', 'Ẵ', 'Ặ'),
        'â' => pick(tone, 'ấ', 'ầ', 'ẩ', 'ẫ', 'ậ'),
        'Â' => pick(tone, 'Ấ', 'Ầ', 'Ẩ', 'Ẫ', 'Ậ'),
        'e' => pick(tone, 'é', 'è', 'ẻ', 'ẽ', 'ẹ'),
        'E' => pick(tone, 'É', 'È', 'Ẻ', 'Ẽ', 'Ẹ'),
        'ê' => pick(tone, 'ế', 'ề', 'ể', 'ễ', 'ệ'),
        'Ê' => pick(tone, 'Ế', 'Ề', 'Ể', 'Ễ', 'Ệ'),
        'i' => pick(tone, 'í', 'ì', 'ỉ', 'ĩ', 'ị'),
        'I' => pick(tone, 'Í', 'Ì', 'Ỉ', 'Ĩ', 'Ị'),
        'o' => pick(tone, 'ó', 'ò', 'ỏ', 'õ', 'ọ'),
        'O' => pick(tone, 'Ó', 'Ò', 'Ỏ', 'Õ', 'Ọ'),
        'ô' => pick(tone, 'ố', 'ồ', 'ổ', 'ỗ', 'ộ'),
        'Ô' => pick(tone, 'Ố', 'Ồ', 'Ổ', 'Ỗ', 'Ộ'),
        'ơ' => pick(tone, 'ớ', 'ờ', 'ở', 'ỡ', 'ợ'),
        'Ơ' => pick(tone, 'Ớ', 'Ờ', 'Ở', 'Ỡ', 'Ợ'),
        'u' => pick(tone, 'ú', 'ù', 'ủ', 'ũ', 'ụ'),
        'U' => pick(tone, 'Ú', 'Ù', 'Ủ', 'Ũ', 'Ụ'),
        'ư' => pick(tone, 'ứ', 'ừ', 'ử', 'ữ', 'ự'),
        'Ư' => pick(tone, 'Ứ', 'Ừ', 'Ử', 'Ữ', 'Ự'),
        'y' => pick(tone, 'ý', 'ỳ', 'ỷ', 'ỹ', 'ỵ'),
        'Y' => pick(tone, 'Ý', 'Ỳ', 'Ỷ', 'Ỹ', 'Ỵ'),
        _ => ch,
    }
}

/// Whether `c` is one of the twelve vowel letters, in either case.
pub open spec fn vowel_letter(c: char) -> bool {
    let l = fold_char(c);
    l == 'a' || l == 'ă' || l == 'â' || l == 'e' || l == 'ê' || l == 'i' || l == 'o' || l == 'ô'
        || l == 'ơ' || l == 'u' || l == 'ư' || l == 'y'
}

/// Check if character is a vowel.
pub fn is_vowel(ch: char) -> (r: bool)
    ensures
        r == vowel_letter(ch),
{
    let l = crate::text::lower_char(ch);
    l == 'a' || l == 'ă' || l == 'â' || l == 'e' || l == 'ê' || l == 'i' || l == 'o' || l == 'ô'
        || l == 'ơ' || l == 'u' || l == 'ư' || l == 'y'
}

/// What a modification turns one character into.
pub open spec fn mod_char(c: char, m: Modification) -> char {
    match m {
        Modification::Circumflex => match c {
            'a' => 'â', 'A' => 'Â', 'e' => 'ê', 'E' => 'Ê', 'o' => 'ô', 'O' => 'Ô',
            _ => c,
        },
        Modification::Breve => match c {
            'a' => 'ă', 'A' => 'Ă',
            _ => c,
        },
        Modification::Horn => match c {
            'o' => 'ơ', 'O' => 'Ơ', 'u' => 'ư', 'U' => 'Ư',
            _ => c,
        },
        Modification::DStroke => match c {
            'd' => 'đ', 'D' => 'Đ',
            _ => c,
        },
    }
}

/// A modification applied to every character of `v`.
pub open spec fn modify_all(v: Seq<char>, m: Modification) -> Seq<char> {
    v.map_values(|c: char| mod_char(c, m))
}

/// The modifications applied to `v`, first to last.
pub open spec fn apply_mods(v: Seq<char>, mods: Seq<Modification>) -> Seq<char>
    decreases mods.len(),
{
    if mods.len() == 0 {
        v
    } else {
        modify_all(apply_mods(v, mods.drop_last()), mods.last())
    }
}

proof fn lemma_apply_mods_len(v: Seq<char>, mods: Seq<Modification>)
    ensures
        apply_mods(v, mods).len() == v.len(),
    decreases mods.len(),
{
    if mods.len() > 0 {
        lemma_apply_mods_len(v, mods.drop_last());
    }
}

fn modify_char(c: char, m: Modification) -> (r: char)
    ensures
        r == mod_char(c, m),
{
    match m {
        Modification::Circumflex => match c {
            'a' => 'â', 'A' => 'Â', 'e' => 'ê', 'E' => 'Ê', 'o' => 'ô', 'O' => 'Ô',
            _ => c,
        },
        Modification::Breve => match c {
            'a' => 'ă', 'A' => 'Ă',
            _ => c,
        },
        Modification::Horn => match c {
            'o' => 'ơ', 'O' => 'Ơ', 'u' => 'ư', 'U' => 'Ư',
            _ => c,
        },
        Modification::DStroke => match c {
            'd' => 'đ', 'D' => 'Đ',
            _ => c,
        },
    }
}

/// Apply letter modifications to a vowel, in the order they were recorded.
pub fn apply_modifications(vowel: &[char], mods: &[Modification]) -> (r: Vec<char>)
    ensures
        r@ == apply_mods(vowel@, mods@),
{
    let mut result: Vec<char> = Vec::new();
    let mut k: usize = 0;
    while k < vowel.len()
        invariant
            k <= vowel@.len(),
            result@ == vowel@.subrange(0, k as int),
        decreases vowel@.len() - k,
    {
        result.push(vowel[k]);
        k = k + 1;
        assert(result@ =~= vowel@.subrange(0, k as int));
    }
    assert(result@ =~= apply_mods(vowel@, mods@.subrange(0, 0)));
    let mut i: usize = 0;
    while i < mods.len()
        invariant
            i <= mods@.len(),
            result@ == apply_mods(vowel@, mods@.subrange(0, i as int)),
        decreases mods@.len() - i,
    {
        let m = mods[i];
        let ghost before = result@;
        let mut j: usize = 0;
        while j < result.len()
            invariant
                result@.len() == before.len(),
                j <= result@.len(),
                forall|p: int| 0 <= p < j ==> result@[p] == mod_char(before[p], m),
                forall|p: int| j <= p < result@.len() ==> result@[p] == before[p],
            decreases result@.len() - j,
        {
            let c = modify_char(result[j], m);
            result.set(j, c);
            j = j + 1;
        }
        assert(mods@.subrange(0, i + 1).drop_last() =~= mods@.subrange(0, i as int));
        i = i + 1;
        assert(result@ =~= apply_mods(vowel@, mods@.subrange(0, i as int)));
    }
    assert(mods@.subrange(0, mods@.len() as int) =~= mods@);
    result
}

/// What a syllable holds, as sequences of characters.
pub struct SyllableModel {
    pub initial: Seq<char>,
    pub vowel: Seq<char>,
    pub final_consonant: Seq<char>,
    pub tone: Option<Tone>,
    pub modifications: Seq<Modification>,
}

/// The syllable with nothing in it.
pub open spec fn empty_model() -> SyllableModel {
    SyllableModel {
        initial: Seq::empty(),
        vowel: Seq::empty(),
        final_consonant: Seq::empty(),
        tone: None,
        modifications: Seq::empty(),
    }
}

/// The vowel with its modifications and, when there is one, its tone placed
/// by modern orthography.
pub open spec fn rendered_vowel(s: SyllableModel) -> Seq<char> {
    let v = apply_mods(s.vowel, s.modifications);
    match s.tone {
        None => v,
        Some(t) => placed(v, t, ToneStyle::New),
    }
}

/// The text of a syllable: initial, vowel with modifications and tone, final.
pub open spec fn render(s: SyllableModel) -> Seq<char> {
    s.initial + rendered_vowel(s) + s.final_consonant
}

/// Whether initial, vowel and final are all empty.
pub open spec fn model_is_empty(s: SyllableModel) -> bool {
    s.initial.len() == 0 && s.vowel.len() == 0 && s.final_consonant.len() == 0
}

/// A character appended to the syllable: vowels go to the vowel; consonants
/// go to the initial while the vowel is empty, and to the final after it.
pub open spec fn push_model(s: SyllableModel, ch: char) -> SyllableModel {
    if vowel_letter(ch) {
        SyllableModel { vowel: s.vowel.push(ch), ..s }
    } else if s.vowel.len() == 0 {
        SyllableModel { initial: s.initial.push(ch), ..s }
    } else {
        SyllableModel { final_consonant: s.final_consonant.push(ch), ..s }
    }
}

pub proof fn lemma_render_len(s: SyllableModel)
    ensures
        render(s).len() == s.initial.len() + s.vowel.len() + s.final_consonant.len(),
{
    lemma_apply_mods_len(s.vowel, s.modifications);
}

/// Vietnamese syllable: initial consonant, vowel cluster, final consonant, an
/// optional tone and the letter modifications applied while it was typed.
#[derive(Debug, Clone)]
pub struct Syllable {
    /// Initial consonant (e.g., "ch", "tr", "ng")
    pub initial: String,
    /// Vowel cluster (e.g., "a", "uo", "ie")
    pub vowel: String,
    /// Final consonant (e.g., "ng", "nh", "t")
    pub final_consonant: String,
    /// Tone mark
    pub tone: Option<Tone>,
    /// Letter modifications applied
    pub modifications: Vec<Modification>,
}

impl View for Syllable {
    type V = SyllableModel;

    open spec fn view(&self) -> SyllableModel {
        SyllableModel {
            initial: self.initial@,
            vowel: self.vowel@,
            final_consonant: self.final_consonant@,
            tone: self.tone,
            modifications: self.modifications@,
        }
    }
}

impl Default for Syllable {
    fn default() -> (r: Self)
        ensures
            r@ == empty_model(),
    {
        Syllable::new()
    }
}

impl Syllable {
    /// Create a new empty syllable.
    pub fn new() -> (r: Self)
        ensures
            r@ == empty_model(),
    {
        Syllable {
            initial: String::new(),
            vowel: String::new(),
            final_consonant: String::new(),
            tone: None,
            modifications: Vec::new(),
        }
    }

    /// Check if syllable is empty.
    pub fn is_empty(&self) -> (r: bool)
        ensures
            r == model_is_empty(self@),
    {
        self.initial.as_str().is_empty() && self.vowel.as_str().is_empty()
            && self.final_consonant.as_str().is_empty()
    }

    /// Number of characters in initial, vowel and final.
    pub fn len(&self) -> (r: usize)
        requires
            self@.initial.len() + self@.vowel.len() + self@.final_consonant.len() <= usize::MAX,
        ensures
            r == self@.initial.len() + self@.vowel.len() + self@.final_consonant.len(),
    {
        let a = chars_of(self.initial.as_str()).len();
        let b = chars_of(self.vowel.as_str()).len();
        let c = chars_of(self.final_consonant.as_str()).len();
        a + b + c
    }

    /// Push a character to the syllable.
    pub fn push(&mut self, ch: char)
        ensures
            final(self)@ == push_model(old(self)@, ch),
    {
        if is_vowel(ch) {
            push_char(&mut self.vowel, ch);
        } else if self.vowel.as_str().is_empty() {
            push_char(&mut self.initial, ch);
        } else {
            push_char(&mut self.final_consonant, ch);
        }
    }

    /// Clear the syllable.
    pub fn clear(&mut self)
        ensures
            final(self)@ == empty_model(),
    {
        self.initial = String::new();
        self.vowel = String::new();
        self.final_consonant = String::new();
        self.tone = None;
        self.modifications = Vec::new();
    }

    /// The initial, vowel and final as typed, without modifications or tone.
    pub fn raw_text(&self) -> (r: String)
        ensures
            r@ == self@.initial + self@.vowel + self@.final_consonant,
    {
        let mut r = String::new();
        push_chars(&mut r, chars_of(self.initial.as_str()).as_slice());
        push_chars(&mut r, chars_of(self.vowel.as_str()).as_slice());
        push_chars(&mut r, chars_of(self.final_consonant.as_str()).as_slice());
        assert(r@ =~= self@.initial + self@.vowel + self@.final_consonant);
        r
    }

    /// The rendered syllable, as a sequence of characters.
    pub fn render_chars(&self) -> (r: Vec<char>)
        ensures
            r@ == render(self@),
    {
        let vowel = chars_of(self.vowel.as_str());
        let modified = apply_modifications(vowel.as_slice(), self.modifications.as_slice());
        let toned = match self.tone {
            None => modified,
            Some(t) => place_tone_chars(modified.as_slice(), t, ToneStyle::New),
        };
        let mut r = chars_of(self.initial.as_str());
        let mut i: usize = 0;
        let ghost start = r@;
        while i < toned.len()
            invariant
                i <= toned@.len(),
                r@ == start + toned@.subrange(0, i as int),
            decreases toned@.len() - i,
        {
            r.push(toned[i]);
            i = i + 1;
            assert(r@ =~= start + toned@.subrange(0, i as int));
        }
        assert(toned@.subrange(0, toned@.len() as int) =~= toned@);
        let fin = chars_of(self.final_consonant.as_str());
        let ghost mid = r@;
        let mut j: usize = 0;
        while j < fin.len()
            invariant
                j <= fin@.len(),
                r@ == mid + fin@.subrange(0, j as int),
            decreases fin@.len() - j,
        {
            r.push(fin[j]);
            j = j + 1;
            assert(r@ =~= mid + fin@.subrange(0, j as int));
        }
        assert(fin@.subrange(0, fin@.len() as int) =~= fin@);
        r
    }

    /// The rendered syllable: initial, vowel with modifications and tone, final.
    pub fn to_string(&self) -> (r: String)
        ensures
            r@ == render(self@),
    {
        let cs = self.render_chars();
        string_of(cs.as_slice())
    }
}

} // verus!
