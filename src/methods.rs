use vstd::prelude::*;
use crate::buffer::{InputBuffer, pushed, chars_of_entries};
use crate::syllable::{Tone, toned, apply_tone_to_char, vowel_letter};
use crate::telex::{key_tone, get_tone_from_key};
use crate::text::{is_lowercase, has_lowercase_property, string_of_char, string_of, fold_char, lower_char};
use crate::traits::LookupProvider;
use crate::types::{Action, ActionModel};

verus! {

/// The action of a method that emits each key as it is: the key is stored
/// in the buffer and committed.
pub open spec fn commit_key_spec(before: Seq<(char, bool)>, after: Seq<(char, bool)>, key: char, r: ActionModel) -> bool {
    &&& after == pushed(before, (key, has_lowercase_property(key)))
    &&& r == ActionModel::Commit(seq![key])
}

/// Backspace for a method that emits keys as they are: one character is
/// removed from the buffer and from the text, when there is one.
pub open spec fn drop_key_spec(before: Seq<(char, bool)>, after: Seq<(char, bool)>, r: ActionModel) -> bool {
    if before.len() == 0 {
        after == before && r == ActionModel::DoNothing
    } else {
        after == before.drop_last() && r == (ActionModel::Replace { delete: 1, insert: Seq::empty() })
    }
}

fn commit_key(key: char, buffer: &mut InputBuffer) -> (r: Action)
    ensures
        commit_key_spec(old(buffer)@, final(buffer)@, key, r@),
{
    let lc = is_lowercase(key);
    buffer.push(key, lc);
    Action::Commit(string_of_char(key))
}

fn drop_key(buffer: &mut InputBuffer) -> (r: Action)
    ensures
        drop_key_spec(old(buffer)@, final(buffer)@, r@),
{
    match buffer.pop() {
        Some(_) => {
            let r = Action::Replace { backspace_count: 1, text: String::new() };
            assert(r@ == (ActionModel::Replace { delete: 1, insert: Seq::<char>::empty() }));
            r
        },
        None => Action::DoNothing,
    }
}

/// VNI input method: keys are emitted as typed.
pub struct VNIMethod {}

impl VNIMethod {
    pub fn new() -> (r: Self) {
        VNIMethod {}
    }

    /// Store the key and commit it as it is.
    pub fn process<L: LookupProvider>(&mut self, key: char, buffer: &mut InputBuffer, lookup: &L) -> (r: Action)
        ensures
            commit_key_spec(old(buffer)@, final(buffer)@, key, r@),
    {
        commit_key(key, buffer)
    }

    /// Remove one character.
    pub fn process_backspace(&mut self, buffer: &mut InputBuffer) -> (r: Action)
        ensures
            drop_key_spec(old(buffer)@, final(buffer)@, r@),
    {
        drop_key(buffer)
    }
}

impl Default for VNIMethod {
    fn default() -> (r: Self) {
        VNIMethod::new()
    }
}

/// VIQR input method: keys are emitted as typed.
pub struct VIQRMethod {}

impl VIQRMethod {
    pub fn new() -> (r: Self) {
        VIQRMethod {}
    }

    /// Store the key and commit it as it is.
    pub fn process<L: LookupProvider>(&mut self, key: char, buffer: &mut InputBuffer, lookup: &L) -> (r: Action)
        ensures
            commit_key_spec(old(buffer)@, final(buffer)@, key, r@),
    {
        commit_key(key, buffer)
    }

    /// Remove one character.
    pub fn process_backspace(&mut self, buffer: &mut InputBuffer) -> (r: Action)
        ensures
            drop_key_spec(old(buffer)@, final(buffer)@, r@),
    {
        drop_key(buffer)
    }
}

impl Default for VIQRMethod {
    fn default() -> (r: Self) {
        VIQRMethod::new()
    }
}

} // verus!

verus! {

/// The letter that a Telex key pair turns into: doubled `a e o d` and `w`
/// after `a o u`, in lower case, upper case, or capitalised.
pub open spec fn mark_pair(c1: char, c2: char) -> Option<char> {
    match (c1, c2) {
        ('a', 'a') => Some('â'), ('A', 'A') => Some('Â'), ('A', 'a') => Some('Â'),
        ('e', 'e') => Some('ê'), ('E', 'E') => Some('Ê'), ('E', 'e') => Some('Ê'),
        ('o', 'o') => Some('ô'), ('O', 'O') => Some('Ô'), ('O', 'o') => Some('Ô'),
        ('a', 'w') => Some('ă'), ('A', 'W') => Some('Ă'), ('A', 'w') => Some('Ă'),
        ('o', 'w') => Some('ơ'), ('O', 'W') => Some('Ơ'), ('O', 'w') => Some('Ơ'),
        ('u', 'w') => Some('ư'), ('U', 'W') => Some('Ư'), ('U', 'w') => Some('Ư'),
        ('d', 'd') => Some('đ'), ('D', 'D') => Some('Đ'), ('D', 'd') => Some('Đ'),
        _ => None,
    }
}

fn mark_for(c1: char, c2: char) -> (r: Option<char>)
    ensures
        r == mark_pair(c1, c2),
{
    match (c1, c2) {
        ('a', 'a') => Some('â'), ('A', 'A') => Some('Â'), ('A', 'a') => Some('Â'),
        ('e', 'e') => Some('ê'), ('E', 'E') => Some('Ê'), ('E', 'e') => Some('Ê'),
        ('o', 'o') => Some('ô'), ('O', 'O') => Some('Ô'), ('O', 'o') => Some('Ô'),
        ('a', 'w') => Some('ă'), ('A', 'W') => Some('Ă'), ('A', 'w') => Some('Ă'),
        ('o', 'w') => Some('ơ'), ('O', 'W') => Some('Ơ'), ('O', 'w') => Some('Ơ'),
        ('u', 'w') => Some('ư'), ('U', 'W') => Some('Ư'), ('U', 'w') => Some('Ư'),
        ('d', 'd') => Some('đ'), ('D', 'D') => Some('Đ'), ('D', 'd') => Some('Đ'),
        _ => None,
    }
}

/// Whether `c` is one of the twelve base vowels, in either case, that take
/// a tone.
pub open spec fn base_vowel(c: char) -> bool {
    crate::syllable::toned(c, Tone::Acute) != c
}

/// Positions of the vowels of `s`, in order.
pub open spec fn vowel_positions(s: Seq<char>) -> Seq<int>
    decreases s.len(),
{
    if s.len() == 0 {
        Seq::empty()
    } else {
        let p = vowel_positions(s.drop_last());
        if vowel_letter(s.last()) { p.push(s.len() - 1) } else { p }
    }
}

/// Where a tone goes in the typed text: on its only vowel; of two vowels,
/// on the second in `oa`, `oe`, `uy` and on the first otherwise; of three
/// or more, on the second.
pub open spec fn tone_target(s: Seq<char>) -> Option<int> {
    let p = vowel_positions(s);
    if p.len() == 0 {
        None
    } else if p.len() == 1 {
        Some(p[0])
    } else if p.len() == 2 {
        let a = fold_char(s[p[0]]);
        let b = fold_char(s[p[1]]);
        if (a == 'o' && b == 'a') || (a == 'o' && b == 'e') || (a == 'u' && b == 'y') {
            Some(p[1])
        } else {
            Some(p[0])
        }
    } else {
        Some(p[1])
    }
}

proof fn lemma_vowel_positions_bounded(s: Seq<char>)
    ensures
        forall|j: int| 0 <= j < vowel_positions(s).len() ==> 0 <= #[trigger] vowel_positions(s)[j] < s.len(),
    decreases s.len(),
{
    if s.len() > 0 {
        let p = vowel_positions(s.drop_last());
        lemma_vowel_positions_bounded(s.drop_last());
        assert forall|j: int| 0 <= j < vowel_positions(s).len() implies 0 <= #[trigger] vowel_positions(s)[j] < s.len() by {
            if j < p.len() {
                assert(vowel_positions(s)[j] == p[j]);
            }
        }
    }
}

/// What the direct Telex method does with a key on the buffer `b`: a tone
/// key with a toneable vowel in place rewrites the typed text with the tone
/// and leaves the buffer; otherwise the key is stored, and a pair of keys
/// that makes a marked letter is replaced by it.
pub open spec fn direct_process(b: Seq<(char, bool)>, key: char) -> (Seq<(char, bool)>, ActionModel) {
    let s = chars_of_entries(b);
    let t = tone_target(s);
    if key_tone(key) is Some && t is Some && base_vowel(s[t->0]) {
        (b, ActionModel::Replace { delete: s.len(), insert: s.update(t->0, toned(s[t->0], key_tone(key)->0)) })
    } else {
        let b1 = pushed(b, (key, has_lowercase_property(key)));
        let c = chars_of_entries(b1);
        if c.len() >= 2 && mark_pair(c[c.len() - 2], c[c.len() - 1]) is Some {
            let m = mark_pair(c[c.len() - 2], c[c.len() - 1])->0;
            (pushed(b1.drop_last().drop_last(), (m, has_lowercase_property(m))), ActionModel::Replace { delete: 2, insert: seq![m] })
        } else {
            (b1, ActionModel::Commit(seq![key]))
        }
    }
}

/// Telex input method that edits the typed text in place, key by key.
pub struct TelexMethod {}

impl TelexMethod {
    pub fn new() -> (r: Self) {
        TelexMethod {}
    }

    /// Check if a character is a vowel.
    pub fn is_vowel(c: char) -> (r: bool)
        ensures
            r == vowel_letter(c),
    {
        crate::syllable::is_vowel(c)
    }

    /// The character with a tone, for the twelve base vowels.
    pub fn apply_tone(base: char, tone: Tone) -> (r: Option<char>)
        ensures
            base_vowel(base) ==> r == Some(toned(base, tone)),
            !base_vowel(base) ==> r is None,
    {
        let marked = apply_tone_to_char(base, Tone::Acute);
        if marked == base {
            None
        } else {
            Some(apply_tone_to_char(base, tone))
        }
    }

    /// Find vowel position for tone placement.
    pub fn find_tone_position(chars: &Vec<char>) -> (r: Option<usize>)
        ensures
            match r {
                Some(p) => tone_target(chars@) == Some(p as int),
                None => tone_target(chars@) is None,
            },
    {
        let mut positions: Vec<usize> = Vec::new();
        let mut i: usize = 0;
        while i < chars.len()
            invariant
                i <= chars@.len(),
                positions@.len() == vowel_positions(chars@.subrange(0, i as int)).len(),
                forall|j: int| 0 <= j < positions@.len() ==> positions@[j] as int == #[trigger] vowel_positions(chars@.subrange(0, i as int))[j],
            decreases chars@.len() - i,
        {
            let ghost before = chars@.subrange(0, i as int);
            assert(chars@.subrange(0, i + 1).drop_last() =~= before);
            if Self::is_vowel(chars[i]) {
                positions.push(i);
            }
            i = i + 1;
        }
        assert(chars@.subrange(0, chars@.len() as int) =~= chars@);
        proof {
            lemma_vowel_positions_bounded(chars@);
        }
        if positions.len() == 0 {
            return None;
        }
        if positions.len() == 1 {
            return Some(positions[0]);
        }
        if positions.len() == 2 {
            let v1 = lower_char(chars[positions[0]]);
            let v2 = lower_char(chars[positions[1]]);
            if (v1 == 'o' && v2 == 'a') || (v1 == 'o' && v2 == 'e') || (v1 == 'u' && v2 == 'y') {
                return Some(positions[1]);
            }
            return Some(positions[0]);
        }
        Some(positions[1])
    }

    /// Process one key as `direct_process` says.
    pub fn process<L: LookupProvider>(&mut self, key: char, buffer: &mut InputBuffer, lookup: &L) -> (r: Action)
        ensures
            final(buffer)@ == direct_process(old(buffer)@, key).0,
            r@ == direct_process(old(buffer)@, key).1,
    {
        if let Some(tone) = get_tone_from_key(key) {
            let content = buffer.chars_from(0);
            proof {
                assert(chars_of_entries(buffer@).subrange(0, buffer@.len() as int) =~= chars_of_entries(buffer@));
                lemma_vowel_positions_bounded(content@);
            }
            if let Some(pos) = Self::find_tone_position(&content) {
                if let Some(toned_char) = Self::apply_tone(content[pos], tone) {
                    let mut chars = content;
                    let n = chars.len();
                    chars.set(pos, toned_char);
                    return Action::Replace { backspace_count: n, text: string_of(chars.as_slice()) };
                }
            }
        }
        let lc = is_lowercase(key);
        buffer.push(key, lc);
        let content = buffer.chars_from(0);
        proof {
            assert(chars_of_entries(buffer@).subrange(0, buffer@.len() as int) =~= chars_of_entries(buffer@));
        }
        let n = content.len();
        if n >= 2 {
            if let Some(replacement) = mark_for(content[n - 2], content[n - 1]) {
                buffer.pop();
                buffer.pop();
                let rl = is_lowercase(replacement);
                buffer.push(replacement, rl);
                return Action::Replace { backspace_count: 2, text: string_of_char(replacement) };
            }
        }
        Action::Commit(string_of_char(key))
    }

    /// Remove one character.
    pub fn process_backspace(&mut self, buffer: &mut InputBuffer) -> (r: Action)
        ensures
            drop_key_spec(old(buffer)@, final(buffer)@, r@),
    {
        drop_key(buffer)
    }
}

impl Default for TelexMethod {
    fn default() -> (r: Self) {
        TelexMethod::new()
    }
}

} // verus!
