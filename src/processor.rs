use vstd::prelude::*;
use crate::buffer::{InputBuffer, pushed, chars_of_entries};
use crate::lookup_table::{InputMethod, LookupTable, fields};
use crate::methods::base_vowel;
use crate::syllable::{Tone, toned, vowel_letter, apply_tone_to_char, is_vowel};
use crate::text::{fold_char, lower_char, is_lowercase, has_lowercase_property, string_of, string_of_char};
use crate::types::{Action, ActionModel, Config};
use crate::viet_types::{MarkType, ToneType, Transformation};

verus! {

/// The vowel without its tone, in the same case; other characters are kept.
pub open spec fn strip_tone(c: char) -> char {
    match c {
        'á' | 'à' | 'ả' | 'ã' | 'ạ' => 'a',
        'Á' | 'À' | 'Ả' | 'Ã' | 'Ạ' => 'A',
        'ắ' | 'ằ' | 'ẳ' | 'ẵ' | 'ặ' => 'ă',
        'Ắ' | 'Ằ' | 'Ẳ' | 'Ẵ' | 'Ặ' => 'Ă',
        'ấ' | 'ầ' | 'ẩ' | 'ẫ' | 'ậ' => 'â',
        'Ấ' | 'Ầ' | 'Ẩ' | 'Ẫ' | 'Ậ' => 'Â',
        'é' | 'è' | 'ẻ' | 'ẽ' | 'ẹ' => 'e',
        'É' | 'È' | 'Ẻ' | 'Ẽ' | 'Ẹ' => 'E',
        'ế' | 'ề' | 'ể' | 'ễ' | 'ệ' => 'ê',
        'Ế' | 'Ề' | 'Ể' | 'Ễ' | 'Ệ' => 'Ê',
        'í' | 'ì' | 'ỉ' | 'ĩ' | 'ị' => 'i',
        'Í' | 'Ì' | 'Ỉ' | 'Ĩ' | 'Ị' => 'I',
        'ó' | 'ò' | 'ỏ' | 'õ' | 'ọ' => 'o',
        'Ó' | 'Ò' | 'Ỏ' | 'Õ' | 'Ọ' => 'O',
        'ố' | 'ồ' | 'ổ' | 'ỗ' | 'ộ' => 'ô',
        'Ố' | 'Ồ' | 'Ổ' | 'Ỗ' | 'Ộ' => 'Ô',
        'ớ' | 'ờ' | 'ở' | 'ỡ' | 'ợ' => 'ơ',
        'Ớ' | 'Ờ' | 'Ở' | 'Ỡ' | 'Ợ' => 'Ơ',
        'ú' | 'ù' | 'ủ' | 'ũ' | 'ụ' => 'u',
        'Ú' | 'Ù' | 'Ủ' | 'Ũ' | 'Ụ' => 'U',
        'ứ' | 'ừ' | 'ử' | 'ữ' | 'ự' => 'ư',
        'Ứ' | 'Ừ' | 'Ử' | 'Ữ' | 'Ự' => 'Ư',
        'ý' | 'ỳ' | 'ỷ' | 'ỹ' | 'ỵ' => 'y',
        'Ý' | 'Ỳ' | 'Ỷ' | 'Ỹ' | 'Ỵ' => 'Y',
        _ => c,
    }
}

fn remove_tone(c: char) -> (r: char)
    ensures
        r == strip_tone(c),
{
    match c {
        'á' | 'à' | 'ả' | 'ã' | 'ạ' => 'a',
        'Á' | 'À' | 'Ả' | 'Ã' | 'Ạ' => 'A',
        'ắ' | 'ằ' | 'ẳ' | 'ẵ' | 'ặ' => 'ă',
        'Ắ' | 'Ằ' | 'Ẳ' | 'Ẵ' | 'Ặ' => 'Ă',
        'ấ' | 'ầ' | 'ẩ' | 'ẫ' | 'ậ' => 'â',
        'Ấ' | 'Ầ' | 'Ẩ' | 'Ẫ' | 'Ậ' => 'Â',
        'é' | 'è' | 'ẻ' | 'ẽ' | 'ẹ' => 'e',
        'É' | 'È' | 'Ẻ' | 'Ẽ' | 'Ẹ' => 'E',
        'ế' | 'ề' | 'ể' | 'ễ' | 'ệ' => 'ê',
        'Ế' | 'Ề' | 'Ể' | 'Ễ' | 'Ệ' => 'Ê',
        'í' | 'ì' | 'ỉ' | 'ĩ' | 'ị' => 'i',
        'Í' | 'Ì' | 'Ỉ' | 'Ĩ' | 'Ị' => 'I',
        'ó' | 'ò' | 'ỏ' | 'õ' | 'ọ' => 'o',
        'Ó' | 'Ò' | 'Ỏ' | 'Õ' | 'Ọ' => 'O',
        'ố' | 'ồ' | 'ổ' | 'ỗ' | 'ộ' => 'ô',
        'Ố' | 'Ồ' | 'Ổ' | 'Ỗ' | 'Ộ' => 'Ô',
        'ớ' | 'ờ' | 'ở' | 'ỡ' | 'ợ' => 'ơ',
        'Ớ' | 'Ờ' | 'Ở' | 'Ỡ' | 'Ợ' => 'Ơ',
        'ú' | 'ù' | 'ủ' | 'ũ' | 'ụ' => 'u',
        'Ú' | 'Ù' | 'Ủ' | 'Ũ' | 'Ụ' => 'U',
        'ứ' | 'ừ' | 'ử' | 'ữ' | 'ự' => 'ư',
        'Ứ' | 'Ừ' | 'Ử' | 'Ữ' | 'Ự' => 'Ư',
        'ý' | 'ỳ' | 'ỷ' | 'ỹ' | 'ỵ' => 'y',
        'Ý' | 'Ỳ' | 'Ỷ' | 'Ỹ' | 'Ỵ' => 'Y',
        _ => c,
    }
}

/// The tone of a tone type; `NoTone` has none.
pub open spec fn tone_of_type(t: ToneType) -> Option<Tone> {
    match t {
        ToneType::NoTone => None,
        ToneType::Acute => Some(Tone::Acute),
        ToneType::Grave => Some(Tone::Grave),
        ToneType::Hook => Some(Tone::HookAbove),
        ToneType::Tilde => Some(Tone::Tilde),
        ToneType::Dot => Some(Tone::Underdot),
    }
}

/// The tone type of a tone index 1..5.
pub open spec fn tone_type_of_index(i: u32) -> Option<ToneType> {
    if i == 1 {
        Some(ToneType::Acute)
    } else if i == 2 {
        Some(ToneType::Grave)
    } else if i == 3 {
        Some(ToneType::Hook)
    } else if i == 4 {
        Some(ToneType::Tilde)
    } else if i == 5 {
        Some(ToneType::Dot)
    } else {
        None
    }
}

/// A vowel carrying a new tone in place of any old one, in the same case.
pub open spec fn retoned(c: char, t: ToneType) -> Option<char> {
    let base = strip_tone(c);
    if base_vowel(base) {
        match tone_of_type(t) {
            Some(tone) => Some(toned(base, tone)),
            None => Some(base),
        }
    } else {
        None
    }
}

/// What a doubled key makes of the previous letter: `aa ee oo` give the
/// circumflex and `dd` gives `đ`, in the case of the previous letter.
pub open spec fn doubled(last: char, ch: char) -> Option<(char, MarkType)> {
    let l = fold_char(last);
    if fold_char(ch) != l {
        None
    } else if l == 'a' {
        Some((if last == 'A' { 'Â' } else { 'â' }, MarkType::Circumflex))
    } else if l == 'e' {
        Some((if last == 'E' { 'Ê' } else { 'ê' }, MarkType::Circumflex))
    } else if l == 'o' {
        Some((if last == 'O' { 'Ô' } else { 'ô' }, MarkType::Circumflex))
    } else if l == 'd' {
        Some((if last == 'D' { 'Đ' } else { 'đ' }, MarkType::DStroke))
    } else {
        None
    }
}

/// What `w` makes of the previous letter: `a` takes the breve, `o` and `u`
/// the horn, in the case of the previous letter.
pub open spec fn breved(last: char) -> Option<(char, MarkType)> {
    let l = fold_char(last);
    if l == 'a' {
        Some((if last == 'A' { 'Ă' } else { 'ă' }, MarkType::Breve))
    } else if l == 'o' {
        Some((if last == 'O' { 'Ơ' } else { 'ơ' }, MarkType::Horn))
    } else if l == 'u' {
        Some((if last == 'U' { 'Ư' } else { 'ư' }, MarkType::Horn))
    } else {
        None
    }
}

/// Positions of the characters that are vowels once their tone is removed.
pub open spec fn toneable_positions(s: Seq<char>) -> Seq<int>
    decreases s.len(),
{
    if s.len() == 0 {
        Seq::empty()
    } else {
        let p = toneable_positions(s.drop_last());
        if vowel_letter(strip_tone(s.last())) { p.push(s.len() - 1) } else { p }
    }
}

/// Where the processor puts a tone: on a single vowel; of two, on the second
/// of `oa`, `oe`, `uy` in modern orthography and otherwise on the first; of
/// three or more, on the second.
pub open spec fn processor_target(s: Seq<char>, modern: bool) -> Option<int> {
    let p = toneable_positions(s);
    if p.len() == 0 {
        None
    } else if p.len() == 1 || p.len() >= 3 {
        Some(if p.len() == 1 { p[0] } else { p[1] })
    } else {
        let a = fold_char(strip_tone(s[p[0]]));
        let b = fold_char(strip_tone(s[p[1]]));
        if ((a == 'o' && b == 'a') || (a == 'o' && b == 'e') || (a == 'u' && b == 'y')) && modern {
            Some(p[1])
        } else {
            Some(p[0])
        }
    }
}

proof fn lemma_toneable_bounded(s: Seq<char>)
    ensures
        forall|j: int| 0 <= j < toneable_positions(s).len() ==> 0 <= #[trigger] toneable_positions(s)[j] < s.len(),
    decreases s.len(),
{
    if s.len() > 0 {
        let p = toneable_positions(s.drop_last());
        lemma_toneable_bounded(s.drop_last());
        assert forall|j: int| 0 <= j < toneable_positions(s).len() implies 0 <= #[trigger] toneable_positions(s)[j] < s.len() by {
            if j < p.len() {
                assert(toneable_positions(s)[j] == p[j]);
            }
        }
    }
}

/// Where the rewritten text starts after a tone: at the first vowel.
pub open spec fn rewrite_start(s: Seq<char>) -> int {
    toneable_positions(s)[0]
}

/// Whether a tone key with this index puts a tone on the text.
pub open spec fn tone_applies(s: Seq<char>, tone_index: u32, modern: bool) -> bool {
    &&& s.len() > 0
    &&& tone_type_of_index(tone_index) is Some
    &&& processor_target(s, modern) is Some
    &&& retoned(s[processor_target(s, modern)->0], tone_type_of_index(tone_index)->0) is Some
}

proof fn lemma_toneable_increasing(s: Seq<char>)
    ensures
        forall|i: int, j: int| 0 <= i < j < toneable_positions(s).len() ==> toneable_positions(s)[i] < toneable_positions(s)[j],
    decreases s.len(),
{
    if s.len() > 0 {
        let p = toneable_positions(s.drop_last());
        lemma_toneable_increasing(s.drop_last());
        lemma_toneable_bounded(s.drop_last());
        assert forall|i: int, j: int| 0 <= i < j < toneable_positions(s).len() implies toneable_positions(s)[i] < toneable_positions(s)[j] by {
            if j < p.len() {
                assert(toneable_positions(s)[i] == p[i]);
                assert(toneable_positions(s)[j] == p[j]);
            } else {
                assert(toneable_positions(s)[i] == p[i]);
                assert(p[i] < s.drop_last().len());
            }
        }
    }
}

/// Main processor for Vietnamese input, editing the buffer in place.
pub struct Processor {
    buffer: InputBuffer,
    lookup: LookupTable,
    method: InputMethod,
    transformations: Vec<Transformation>,
}

impl Processor {
    /// The buffer's entries.
    pub closed spec fn entries(&self) -> Seq<(char, bool)> {
        self.buffer@
    }

    /// The transformations recorded since the last commit.
    pub closed spec fn history(&self) -> Seq<Transformation> {
        self.transformations@
    }

    /// The convention of the lookup table.
    pub closed spec fn table_method(&self) -> InputMethod {
        self.method
    }

    /// The lookup table is built for the processor's convention.
    pub closed spec fn wf(&self) -> bool {
        self.lookup.wf() && self.lookup.method() == self.method
    }

    /// Create a new processor.
    pub fn new(method: InputMethod) -> (r: Self)
        ensures
            r.wf(),
            r.table_method() == method,
            r.entries().len() == 0,
            r.history().len() == 0,
    {
        Processor {
            buffer: InputBuffer::new(),
            lookup: LookupTable::new(method),
            method,
            transformations: Vec::new(),
        }
    }

    /// Process a single key: a separator commits the buffer; a doubled
    /// `a e o d` or, in Telex, a `w` after `a o u` marks the previous
    /// letter; a tone key puts its tone on the vowel chosen by
    /// `processor_target`; any other ASCII key is appended.
    pub fn process(&mut self, ch: char, config: &Config) -> (r: Action)
        requires
            old(self).wf(),
        ensures
            final(self).wf(),
            final(self).table_method() == old(self).table_method(),
            (ch as u32) >= 128 ==> r@ == ActionModel::DoNothing && final(self).entries() == old(self).entries()
                && final(self).history() == old(self).history(),
            (ch as u32) < 128 && fields(old(self).table_method(), ch as u32 as u8).4 ==> {
                &&& final(self).entries().len() == 0
                &&& final(self).history().len() == 0
                &&& r@ == (if old(self).entries().len() > 0 {
                    ActionModel::Commit(chars_of_entries(old(self).entries()))
                } else {
                    ActionModel::DoNothing
                })
            },
            (ch as u32) < 128 && !fields(old(self).table_method(), ch as u32 as u8).4 && old(self).entries().len() > 0
                && doubled(old(self).entries().last().0, ch) is Some ==> {
                let d = doubled(old(self).entries().last().0, ch)->0;
                &&& final(self).entries() == pushed(old(self).entries().drop_last(), (d.0, has_lowercase_property(d.0)))
                &&& r@ == (ActionModel::Replace { delete: 1, insert: seq![d.0] })
            },
            (ch as u32) < 128 && !fields(old(self).table_method(), ch as u32 as u8).4 && !(old(self).entries().len() > 0
                && doubled(old(self).entries().last().0, ch) is Some) && config.input_method == InputMethod::Telex
                && fields(old(self).table_method(), ch as u32 as u8).2 && old(self).entries().len() > 0
                && breved(old(self).entries().last().0) is Some ==> {
                let d = breved(old(self).entries().last().0)->0;
                &&& final(self).entries() == pushed(old(self).entries().drop_last(), (d.0, has_lowercase_property(d.0)))
                &&& r@ == (ActionModel::Replace { delete: 1, insert: seq![d.0] })
            },
            (ch as u32) < 128 && !fields(old(self).table_method(), ch as u32 as u8).4 && !(old(self).entries().len() > 0
                && doubled(old(self).entries().last().0, ch) is Some) && !(config.input_method == InputMethod::Telex
                && fields(old(self).table_method(), ch as u32 as u8).2 && old(self).entries().len() > 0
                && breved(old(self).entries().last().0) is Some) ==> {
                let s = chars_of_entries(old(self).entries());
                let ti = fields(old(self).table_method(), ch as u32 as u8).1;
                if ti > 0 && tone_applies(s, ti, config.modern_orthography) {
                    let p = processor_target(s, config.modern_orthography)->0;
                    let t = retoned(s[p], tone_type_of_index(ti)->0)->0;
                    let q = rewrite_start(s);
                    &&& final(self).entries() == old(self).entries().update(p, (t, old(self).entries()[p].1))
                    &&& r@ == (ActionModel::Replace {
                        delete: (s.len() - q) as nat,
                        insert: chars_of_entries(final(self).entries()).subrange(q, s.len() as int),
                    })
                } else {
                    &&& final(self).entries() == pushed(old(self).entries(), (ch, has_lowercase_property(ch)))
                    &&& r@ == ActionModel::DoNothing
                }
            },
    {
        if (ch as u32) >= 128 {
            return Action::DoNothing;
        }
        let info = self.lookup.get_info(ch as u32 as u8);
        if info.is_separator {
            let text = self.buffer.to_string();
            let nonempty = self.buffer.len() > 0;
            self.buffer.clear();
            self.transformations = Vec::new();
            return if nonempty {
                Action::Commit(text)
            } else {
                Action::DoNothing
            };
        }
        if let Some(action) = self.try_double_char(ch) {
            return action;
        }
        if config.input_method == InputMethod::Telex && info.is_breve {
            if let Some(action) = self.try_breve_mark() {
                return action;
            }
        }
        if info.tone_index > 0 {
            if let Some(action) = self.try_tone_mark(ch, info.tone_index, config) {
                return action;
            }
        }
        let lc = is_lowercase(ch);
        self.buffer.push(ch, lc);
        self.transformations.push(Transformation::new_append(ch));
        Action::DoNothing
    }

    /// Replace the last letter by a marked one.
    fn replace_last(&mut self, key: char, result: char, mark: MarkType) -> (r: Action)
        requires
            old(self).buffer@.len() > 0,
        ensures
            final(self).buffer@ == pushed(old(self).buffer@.drop_last(), (result, has_lowercase_property(result))),
            final(self).lookup == old(self).lookup,
            final(self).method == old(self).method,
            r@ == (ActionModel::Replace { delete: 1, insert: seq![result] }),
    {
        self.buffer.pop();
        let lc = is_lowercase(result);
        self.buffer.push(result, lc);
        let pos = self.buffer.len() - 1;
        self.transformations.push(Transformation::new_mark(key, mark, pos));
        Action::Replace { backspace_count: 1, text: string_of_char(result) }
    }

    /// Handle a doubled key (aa→â, ee→ê, oo→ô, dd→đ).
    fn try_double_char(&mut self, ch: char) -> (r: Option<Action>)
        ensures
            final(self).lookup == old(self).lookup,
            final(self).method == old(self).method,
            old(self).buffer@.len() > 0 && doubled(old(self).buffer@.last().0, ch) is Some ==> {
                let d = doubled(old(self).buffer@.last().0, ch)->0;
                &&& final(self).buffer@ == pushed(old(self).buffer@.drop_last(), (d.0, has_lowercase_property(d.0)))
                &&& r matches Some(a) && a@ == (ActionModel::Replace { delete: 1, insert: seq![d.0] })
            },
            !(old(self).buffer@.len() > 0 && doubled(old(self).buffer@.last().0, ch) is Some) ==> r is None
                && final(self).buffer@ == old(self).buffer@ && final(self).transformations@ == old(self).transformations@,
    {
        let last = match self.buffer.last() {
            Some(c) => *c,
            None => return None,
        };
        let l = lower_char(last);
        if lower_char(ch) != l {
            return None;
        }
        let (result, mark) = if l == 'a' {
            (if last == 'A' { 'Â' } else { 'â' }, MarkType::Circumflex)
        } else if l == 'e' {
            (if last == 'E' { 'Ê' } else { 'ê' }, MarkType::Circumflex)
        } else if l == 'o' {
            (if last == 'O' { 'Ô' } else { 'ô' }, MarkType::Circumflex)
        } else if l == 'd' {
            (if last == 'D' { 'Đ' } else { 'đ' }, MarkType::DStroke)
        } else {
            return None;
        };
        Some(self.replace_last(ch, result, mark))
    }

    /// Handle `w` after a, o, u (aw→ă, ow→ơ, uw→ư).
    fn try_breve_mark(&mut self) -> (r: Option<Action>)
        ensures
            final(self).lookup == old(self).lookup,
            final(self).method == old(self).method,
            old(self).buffer@.len() > 0 && breved(old(self).buffer@.last().0) is Some ==> {
                let d = breved(old(self).buffer@.last().0)->0;
                &&& final(self).buffer@ == pushed(old(self).buffer@.drop_last(), (d.0, has_lowercase_property(d.0)))
                &&& r matches Some(a) && a@ == (ActionModel::Replace { delete: 1, insert: seq![d.0] })
            },
            !(old(self).buffer@.len() > 0 && breved(old(self).buffer@.last().0) is Some) ==> r is None
                && final(self).buffer@ == old(self).buffer@ && final(self).transformations@ == old(self).transformations@,
    {
        let last = match self.buffer.last() {
            Some(c) => *c,
            None => return None,
        };
        let l = lower_char(last);
        let (result, mark) = if l == 'a' {
            (if last == 'A' { 'Ă' } else { 'ă' }, MarkType::Breve)
        } else if l == 'o' {
            (if last == 'O' { 'Ơ' } else { 'ơ' }, MarkType::Horn)
        } else if l == 'u' {
            (if last == 'U' { 'Ư' } else { 'ư' }, MarkType::Horn)
        } else {
            return None;
        };
        Some(self.replace_last('w', result, mark))
    }

    /// Handle a tone key: the tone goes on the chosen vowel, and the text
    /// from there on is rewritten.
    fn try_tone_mark(&mut self, ch: char, tone_index: u8, config: &Config) -> (r: Option<Action>)
        ensures
            final(self).lookup == old(self).lookup,
            final(self).method == old(self).method,
            r is Some <==> tone_applies(chars_of_entries(old(self).buffer@), tone_index as u32, config.modern_orthography),
            r is None ==> final(self).buffer@ == old(self).buffer@
                && final(self).transformations@ == old(self).transformations@,
            r matches Some(a) ==> {
                let s = chars_of_entries(old(self).buffer@);
                let p = processor_target(s, config.modern_orthography)->0;
                let t = retoned(s[p], tone_type_of_index(tone_index as u32)->0)->0;
                let q = rewrite_start(s);
                &&& processor_target(s, config.modern_orthography) is Some
                &&& final(self).buffer@ == old(self).buffer@.update(p, (t, old(self).buffer@[p].1))
                &&& a@ == (ActionModel::Replace {
                    delete: (s.len() - q) as nat,
                    insert: chars_of_entries(final(self).buffer@).subrange(q, s.len() as int),
                })
            },
    {
        if self.buffer.len() == 0 {
            return None;
        }
        let tone_type = if tone_index == 1 {
            ToneType::Acute
        } else if tone_index == 2 {
            ToneType::Grave
        } else if tone_index == 3 {
            ToneType::Hook
        } else if tone_index == 4 {
            ToneType::Tilde
        } else if tone_index == 5 {
            ToneType::Dot
        } else {
            return None;
        };
        let content = self.buffer.chars_from(0);
        proof {
            assert(chars_of_entries(self.buffer@).subrange(0, self.buffer@.len() as int) =~= chars_of_entries(self.buffer@));
        }
        let (pos, start) = match Self::find_tone_position(&content, config.modern_orthography) {
            Some(p) => p,
            None => return None,
        };
        let target = content[pos];
        let toned_char = match Self::apply_tone(target, tone_type) {
            Some(t) => t,
            None => return None,
        };
        self.buffer.set(pos, toned_char);
        self.transformations.push(Transformation::new_tone(ch, tone_type, pos));
        let backspace_count = self.buffer.len() - start;
        let text = string_of(self.buffer.chars_from(start).as_slice());
        Some(Action::Replace { backspace_count, text })
    }

    /// Find the position where the tone goes, and the first vowel.
    fn find_tone_position(chars: &Vec<char>, modern: bool) -> (r: Option<(usize, usize)>)
        ensures
            match r {
                Some((p, q)) => processor_target(chars@, modern) == Some(p as int) && p < chars@.len()
                    && q == rewrite_start(chars@) && q <= p,
                None => processor_target(chars@, modern) is None,
            },
    {
        let mut vowels: Vec<usize> = Vec::new();
        let mut i: usize = 0;
        while i < chars.len()
            invariant
                i <= chars@.len(),
                vowels@.len() == toneable_positions(chars@.subrange(0, i as int)).len(),
                forall|j: int| 0 <= j < vowels@.len() ==> vowels@[j] as int == #[trigger] toneable_positions(chars@.subrange(0, i as int))[j],
            decreases chars@.len() - i,
        {
            let ghost before = chars@.subrange(0, i as int);
            assert(chars@.subrange(0, i + 1).drop_last() =~= before);
            if is_vowel(remove_tone(chars[i])) {
                vowels.push(i);
            }
            i = i + 1;
        }
        assert(chars@.subrange(0, chars@.len() as int) =~= chars@);
        proof {
            lemma_toneable_bounded(chars@);
        }
        if vowels.len() == 0 {
            return None;
        }
        let first_vowel = vowels[0];
        assert(toneable_positions(chars@)[0] < toneable_positions(chars@)[1] || vowels.len() == 1) by {
            if vowels.len() > 1 {
                lemma_toneable_increasing(chars@);
            }
        }
        if vowels.len() == 1 {
            return Some((vowels[0], first_vowel));
        }
        if vowels.len() >= 3 {
            return Some((vowels[1], first_vowel));
        }
        let first = lower_char(remove_tone(chars[vowels[0]]));
        let second = lower_char(remove_tone(chars[vowels[1]]));
        let special = (first == 'o' && second == 'a') || (first == 'o' && second == 'e') || (first == 'u' && second == 'y');
        if special && modern {
            Some((vowels[1], first_vowel))
        } else {
            Some((vowels[0], first_vowel))
        }
    }

    /// A vowel carrying a new tone in place of any old one.
    fn apply_tone(ch: char, tone: ToneType) -> (r: Option<char>)
        ensures
            r == retoned(ch, tone),
    {
        let base = remove_tone(ch);
        if apply_tone_to_char(base, Tone::Acute) == base {
            return None;
        }
        match tone {
            ToneType::NoTone => Some(base),
            ToneType::Acute => Some(apply_tone_to_char(base, Tone::Acute)),
            ToneType::Grave => Some(apply_tone_to_char(base, Tone::Grave)),
            ToneType::Hook => Some(apply_tone_to_char(base, Tone::HookAbove)),
            ToneType::Tilde => Some(apply_tone_to_char(base, Tone::Tilde)),
            ToneType::Dot => Some(apply_tone_to_char(base, Tone::Underdot)),
        }
    }

    /// Remove the last character and its transformation.
    pub fn process_backspace(&mut self) -> (r: Action)
        requires
            old(self).wf(),
        ensures
            final(self).wf(),
            final(self).table_method() == old(self).table_method(),
            old(self).entries().len() == 0 ==> r@ == ActionModel::DoNothing && final(self).entries() == old(self).entries()
                && final(self).history() == old(self).history(),
            old(self).entries().len() > 0 ==> r@ == (ActionModel::Replace { delete: 1, insert: Seq::empty() })
                && final(self).entries() == old(self).entries().drop_last()
                && final(self).history() == (if old(self).history().len() > 0 {
                    old(self).history().drop_last()
                } else {
                    old(self).history()
                }),
    {
        match self.buffer.pop() {
            Some(_) => {
                self.transformations.pop();
                let r = Action::Replace { backspace_count: 1, text: String::new() };
                assert(r@ == (ActionModel::Replace { delete: 1, insert: Seq::<char>::empty() }));
                r
            },
            None => Action::DoNothing,
        }
    }

    /// Clear the buffer and the transformations.
    pub fn reset(&mut self)
        requires
            old(self).wf(),
        ensures
            final(self).wf(),
            final(self).table_method() == old(self).table_method(),
            final(self).entries().len() == 0,
            final(self).history().len() == 0,
    {
        self.buffer.clear();
        self.transformations = Vec::new();
    }

    /// The buffer's characters.
    pub fn buffer_content(&self) -> (r: String)
        ensures
            r@ == chars_of_entries(self.entries()),
    {
        self.buffer.to_string()
    }

    /// The transformations recorded since the last commit.
    pub fn transformations(&self) -> (r: &[Transformation])
        ensures
            r@ == self.history(),
    {
        self.transformations.as_slice()
    }
}

} // verus!
