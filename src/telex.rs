use vstd::prelude::*;
use crate::buffer::{InputBuffer, pushed_all};
use crate::syllable::{
    Modification, Syllable, SyllableModel, Tone, empty_model, model_is_empty, push_model, render,
    lemma_render_len,
};
use crate::text::{chars_of, string_of, push_chars, is_lowercase, has_lowercase_property};
use crate::traits::LookupProvider;
use crate::types::{Action, ActionModel};
use crate::validation::{permissible, is_permissible_parts};

verus! {

/// The tone a Telex key stands for: `s f r x j`, in either case.
pub open spec fn key_tone(k: char) -> Option<Tone> {
    match k {
        's' | 'S' => Some(Tone::Acute),
        'f' | 'F' => Some(Tone::Grave),
        'r' | 'R' => Some(Tone::HookAbove),
        'x' | 'X' => Some(Tone::Tilde),
        'j' | 'J' => Some(Tone::Underdot),
        _ => None,
    }
}

/// Whether a key ends the word: whitespace or punctuation.
pub open spec fn separator_key(k: char) -> bool {
    k == ' ' || k == '\n' || k == '\t' || k == '\r' || k == '.' || k == ',' || k == '!' || k == '?'
        || k == ';' || k == ':' || k == '-' || k == '_' || k == '(' || k == ')' || k == '['
        || k == ']' || k == '{' || k == '}' || k == '"' || k == '\''
}

/// Whether `s` ends with one of two letters.
pub open spec fn ends_with_letter(s: Seq<char>, lower: char, upper: char) -> bool {
    s.len() > 0 && (s.last() == lower || s.last() == upper)
}

/// Whether `s` holds one of two letters.
pub open spec fn has_letter(s: Seq<char>, lower: char, upper: char) -> bool {
    s.contains(lower) || s.contains(upper)
}

/// `s` with its last character replaced by `c`.
pub open spec fn with_last(s: Seq<char>, c: char) -> Seq<char> {
    s.drop_last().push(c)
}

/// The horn on `u` (when `u` holds) and on `o` (when `o` holds).
pub open spec fn horn_char(c: char, u: bool, o: bool) -> char {
    if u && c == 'u' {
        'ư'
    } else if u && c == 'U' {
        'Ư'
    } else if o && c == 'o' {
        'ơ'
    } else if o && c == 'O' {
        'Ơ'
    } else {
        c
    }
}

/// The horn applied to every `u` and/or `o` of `s`.
pub open spec fn horn_all(s: Seq<char>, u: bool, o: bool) -> Seq<char> {
    s.map_values(|c: char| horn_char(c, u, o))
}

/// For a vowel key that doubles into a circumflex: the vowel, in lower and
/// upper case, that it doubles, and what the pair becomes.
pub open spec fn circumflexed(k: char) -> Option<(char, char, char)> {
    match k {
        'a' => Some(('a', 'A', 'â')),
        'A' => Some(('a', 'A', 'Â')),
        'e' => Some(('e', 'E', 'ê')),
        'E' => Some(('e', 'E', 'Ê')),
        'o' => Some(('o', 'O', 'ô')),
        'O' => Some(('o', 'O', 'Ô')),
        _ => None,
    }
}

/// Whether `k` doubles the last vowel of `v` into a circumflex.
pub open spec fn doubles(k: char, v: Seq<char>) -> bool {
    match circumflexed(k) {
        Some((lower, upper, marked)) => ends_with_letter(v, lower, upper),
        None => false,
    }
}

/// The circumflexed vowel that `k` makes.
pub open spec fn doubled_result(k: char) -> char {
    match circumflexed(k) {
        Some((lower, upper, marked)) => marked,
        None => k,
    }
}

/// One Telex key applied to the syllable being built: a tone key sets the
/// tone once there is a vowel; `aa ee oo` give the circumflex, `dd` gives
/// `đ`, `w` gives the horn to `uo`, else `u`, else `o`, else the breve to a
/// final `a`; `z` removes the tone; any other key is appended.
pub open spec fn step(s: SyllableModel, k: char) -> SyllableModel {
    let w = k == 'w' || k == 'W';
    if key_tone(k) is Some && s.vowel.len() > 0 {
        SyllableModel { tone: key_tone(k), ..s }
    } else if doubles(k, s.vowel) {
        SyllableModel {
            vowel: with_last(s.vowel, doubled_result(k)),
            modifications: s.modifications.push(Modification::Circumflex),
            ..s
        }
    } else if (k == 'd' || k == 'D') && ends_with_letter(s.initial, 'd', 'D') {
        SyllableModel {
            initial: with_last(s.initial, if k == 'D' { 'Đ' } else { 'đ' }),
            modifications: s.modifications.push(Modification::DStroke),
            ..s
        }
    } else if w && has_letter(s.vowel, 'u', 'U') && has_letter(s.vowel, 'o', 'O') {
        SyllableModel {
            vowel: horn_all(s.vowel, true, true),
            modifications: s.modifications.push(Modification::Horn),
            ..s
        }
    } else if w && has_letter(s.vowel, 'u', 'U') {
        SyllableModel {
            vowel: horn_all(s.vowel, true, false),
            modifications: s.modifications.push(Modification::Horn),
            ..s
        }
    } else if w && has_letter(s.vowel, 'o', 'O') {
        SyllableModel {
            vowel: horn_all(s.vowel, false, true),
            modifications: s.modifications.push(Modification::Horn),
            ..s
        }
    } else if w && ends_with_letter(s.vowel, 'a', 'A') {
        SyllableModel {
            vowel: with_last(s.vowel, if k == 'W' { 'Ă' } else { 'ă' }),
            modifications: s.modifications.push(Modification::Breve),
            ..s
        }
    } else if k == 'z' || k == 'Z' {
        SyllableModel { tone: None, ..s }
    } else {
        push_model(s, k)
    }
}

/// The syllable that a history of keys builds, key by key from the empty one.
pub open spec fn parse(keys: Seq<char>) -> SyllableModel
    decreases keys.len(),
{
    if keys.len() == 0 {
        empty_model()
    } else {
        step(parse(keys.drop_last()), keys.last())
    }
}

/// Whether the syllable's initial, tone-free vowel and final can still grow
/// into a real syllable.
pub open spec fn permissible_model(s: SyllableModel) -> bool {
    permissible(s.initial, s.vowel, s.final_consonant)
}

/// What the Telex method holds: the keys of the current word and the number
/// of characters already shown for it.
pub struct TelexModel {
    pub history: Seq<char>,
    pub output_len: nat,
}

/// A state in which the count of shown characters is that of the rendering
/// of the history.
pub open spec fn telex_wf(m: TelexModel) -> bool {
    m.output_len == render(parse(m.history)).len()
}

/// The state with no active word.
pub open spec fn idle() -> TelexModel {
    TelexModel { history: Seq::empty(), output_len: 0 }
}

/// The state whose history is `h`, with its rendering shown.
pub open spec fn showing(h: Seq<char>) -> TelexModel {
    TelexModel { history: h, output_len: render(parse(h)).len() }
}

/// One key typed: a separator commits the word; another key joins the
/// history when the syllable stays permissible; otherwise a non-empty word
/// is closed and the key starts a new one (dropped when even alone it is not
/// permissible), and with no word the key passes through.
pub open spec fn telex_process(m: TelexModel, key: char) -> (TelexModel, ActionModel) {
    if separator_key(key) {
        (idle(), ActionModel::Replace { delete: m.output_len, insert: render(parse(m.history)) })
    } else {
        let h2 = m.history.push(key);
        if permissible_model(parse(h2)) {
            (showing(h2), ActionModel::Replace { delete: m.output_len, insert: render(parse(h2)) })
        } else if model_is_empty(parse(m.history)) {
            (m, ActionModel::DoNothing)
        } else if permissible_model(parse(seq![key])) {
            (
                showing(seq![key]),
                ActionModel::Replace {
                    delete: m.output_len,
                    insert: render(parse(m.history)) + render(parse(seq![key])),
                },
            )
        } else {
            (idle(), ActionModel::DoNothing)
        }
    }
}

/// Backspace: the last key leaves the history and the word is shown again.
pub open spec fn telex_backspace(m: TelexModel) -> (TelexModel, ActionModel) {
    if m.history.len() == 0 {
        (m, ActionModel::DoNothing)
    } else {
        let h = m.history.drop_last();
        (showing(h), ActionModel::Replace { delete: m.output_len, insert: render(parse(h)) })
    }
}

/// The characters with their lowercase flags, as the buffer stores them.
pub open spec fn flagged(s: Seq<char>) -> Seq<(char, bool)> {
    s.map_values(|c: char| (c, has_lowercase_property(c)))
}

/// Whether every key of `h` is taken into the word as it is typed: none is
/// a separator and every prefix parses into a permissible syllable.
pub open spec fn accepted_all(h: Seq<char>) -> bool {
    forall|k: int|
        1 <= k <= h.len() ==> !separator_key(#[trigger] h[k - 1]) && permissible_model(
            parse(h.subrange(0, k)),
        )
}

/// The state and the document after typing `keys` one by one into a fresh
/// method, each action applied to the document as a shim applies it.
pub open spec fn run(keys: Seq<char>) -> (TelexModel, Seq<char>)
    decreases keys.len(),
{
    if keys.len() == 0 {
        (idle(), Seq::empty())
    } else {
        let prev = run(keys.drop_last());
        let k = keys.last();
        let next = telex_process(prev.0, k);
        (next.0, crate::types::apply_action(prev.1, next.1, k, separator_key(k)))
    }
}

/// Typing a history key by key yields the rendering of its parse: when
/// every key is taken into the word, the document after the emitted
/// actions is `render(parse(h))` and the method shows exactly that.
pub proof fn lemma_replay_matches_parse(h: Seq<char>)
    requires
        accepted_all(h),
    ensures
        run(h).0 == showing(h),
        run(h).1 == render(parse(h)),
    decreases h.len(),
{
    if h.len() == 0 {
        lemma_render_len(empty_model());
        assert(h =~= Seq::<char>::empty());
        assert(render(empty_model()) =~= Seq::<char>::empty());
    } else {
        let prev = h.drop_last();
        assert forall|k: int| 1 <= k <= prev.len() implies !separator_key(#[trigger] prev[k - 1])
            && permissible_model(parse(prev.subrange(0, k))) by {
            assert(prev.subrange(0, k) =~= h.subrange(0, k));
            assert(prev[k - 1] == h[k - 1]);
        }
        lemma_replay_matches_parse(prev);
        let k = h.last();
        assert(prev.push(k) =~= h);
        assert(h.subrange(0, h.len() as int) =~= h);
        assert(!separator_key(h[h.len() - 1]));
        let doc = render(parse(prev));
        assert(doc.subrange(0, 0) =~= Seq::<char>::empty());
        assert(Seq::<char>::empty() + render(parse(h)) =~= render(parse(h)));
    }
}

/// A separator after a history of taken keys commits the word: the
/// document holds the rendering followed by the separator, and no word is
/// active.
pub proof fn lemma_separator_commits(h: Seq<char>, sep: char)
    requires
        accepted_all(h),
        h.len() > 0,
        separator_key(sep),
    ensures
        run(h.push(sep)).1 == render(parse(h)).push(sep),
        run(h.push(sep)).0 == idle(),
{
    lemma_replay_matches_parse(h);
    assert(h.push(sep).drop_last() =~= h);
    let doc = render(parse(h));
    assert(doc.subrange(0, 0) =~= Seq::<char>::empty());
    assert(Seq::<char>::empty() + doc + seq![sep] =~= doc.push(sep));
}

/// Backspace takes back a key that was taken into the word: the state
/// after typing `k` and then backspace is the state before `k`.
pub proof fn lemma_backspace_inverts_type(m: TelexModel, k: char)
    requires
        telex_wf(m),
        !separator_key(k),
        permissible_model(parse(m.history.push(k))),
    ensures
        telex_backspace(telex_process(m, k).0).0 == m,
{
    assert(m.history.push(k).drop_last() =~= m.history);
}

/// The latest tone wins: with a vowel in the word, two tone keys render as
/// the second one alone.
pub proof fn lemma_latest_tone_wins(h: Seq<char>, k1: char, k2: char)
    requires
        parse(h).vowel.len() > 0,
        key_tone(k1) is Some,
        key_tone(k2) is Some,
    ensures
        parse(h.push(k1).push(k2)) == parse(h.push(k2)),
        render(parse(h.push(k1).push(k2))) == render(parse(h.push(k2))),
{
    assert(h.push(k1).push(k2).drop_last() =~= h.push(k1));
    assert(h.push(k1).drop_last() =~= h);
    assert(h.push(k2).drop_last() =~= h);
    let s = parse(h);
    assert(parse(h.push(k1)) == step(s, k1));
    assert(parse(h.push(k2)) == step(s, k2));
    assert(parse(h.push(k1).push(k2)) == step(step(s, k1), k2));
    assert(step(step(s, k1), k2) == step(s, k2));
}

/// The buffer after a key: empty after a separator; unchanged when the key
/// passes through and the state stays; otherwise the text now shown for
/// the word.
pub open spec fn telex_buffer_after(before: Seq<(char, bool)>, after: Seq<(char, bool)>, m: TelexModel, key: char) -> bool {
    let next = telex_process(m, key);
    if separator_key(key) {
        after == Seq::<(char, bool)>::empty()
    } else if next.1 is DoNothing && next.0 == m {
        after == before
    } else {
        after == pushed_all(flagged(render(parse(next.0.history))))
    }
}

/// Get tone from key character.
pub fn get_tone_from_key(ch: char) -> (r: Option<Tone>)
    ensures
        r == key_tone(ch),
{
    match ch {
        's' | 'S' => Some(Tone::Acute),
        'f' | 'F' => Some(Tone::Grave),
        'r' | 'R' => Some(Tone::HookAbove),
        'x' | 'X' => Some(Tone::Tilde),
        'j' | 'J' => Some(Tone::Underdot),
        _ => None,
    }
}

fn last_is(s: &Vec<char>, lower: char, upper: char) -> (r: bool)
    ensures
        r == ends_with_letter(s@, lower, upper),
{
    s.len() > 0 && (s[s.len() - 1] == lower || s[s.len() - 1] == upper)
}

fn holds_letter(s: &Vec<char>, lower: char, upper: char) -> (r: bool)
    ensures
        r == has_letter(s@, lower, upper),
{
    let mut i: usize = 0;
    while i < s.len()
        invariant
            i <= s@.len(),
            forall|j: int| 0 <= j < i ==> s@[j] != lower && s@[j] != upper,
        decreases s@.len() - i,
    {
        if s[i] == lower || s[i] == upper {
            assert(s@[i as int] == lower ==> s@.contains(lower));
            assert(s@[i as int] == upper ==> s@.contains(upper));
            return true;
        }
        i = i + 1;
    }
    false
}

fn replace_last(s: &mut Vec<char>, c: char)
    requires
        old(s)@.len() > 0,
    ensures
        final(s)@ == with_last(old(s)@, c),
{
    let n = s.len() - 1;
    s.set(n, c);
    assert(s@ =~= with_last(old(s)@, c));
}

fn horn_in_place(s: &mut Vec<char>, u: bool, o: bool)
    ensures
        final(s)@ == horn_all(old(s)@, u, o),
{
    let mut i: usize = 0;
    while i < s.len()
        invariant
            s@.len() == old(s)@.len(),
            i <= s@.len(),
            forall|j: int| 0 <= j < i ==> s@[j] == horn_char(old(s)@[j], u, o),
            forall|j: int| i <= j < s@.len() ==> s@[j] == old(s)@[j],
        decreases s@.len() - i,
    {
        let c = s[i];
        let h = if u && c == 'u' {
            'ư'
        } else if u && c == 'U' {
            'Ư'
        } else if o && c == 'o' {
            'ơ'
        } else if o && c == 'O' {
            'Ơ'
        } else {
            c
        };
        s.set(i, h);
        i = i + 1;
    }
    assert(s@ =~= horn_all(old(s)@, u, o));
}

/// Apply one key to the syllable being built.
pub fn apply_key(syllable: &mut Syllable, key: char)
    ensures
        final(syllable)@ == step(old(syllable)@, key),
{
    let w = key == 'w' || key == 'W';
    if let Some(t) = get_tone_from_key(key) {
        if !syllable.vowel.as_str().is_empty() {
            syllable.tone = Some(t);
            return;
        }
    }
    let mut vowel = chars_of(syllable.vowel.as_str());
    let doubled: Option<(char, char, char)> = match key {
        'a' => Some(('a', 'A', 'â')),
        'A' => Some(('a', 'A', 'Â')),
        'e' => Some(('e', 'E', 'ê')),
        'E' => Some(('e', 'E', 'Ê')),
        'o' => Some(('o', 'O', 'ô')),
        'O' => Some(('o', 'O', 'Ô')),
        _ => None,
    };
    if let Some((lower, upper, marked)) = doubled {
        if last_is(&vowel, lower, upper) {
            replace_last(&mut vowel, marked);
            syllable.vowel = string_of(vowel.as_slice());
            syllable.modifications.push(Modification::Circumflex);
            return;
        }
    }
    if key == 'd' || key == 'D' {
        let mut initial = chars_of(syllable.initial.as_str());
        if last_is(&initial, 'd', 'D') {
            replace_last(&mut initial, if key == 'D' { 'Đ' } else { 'đ' });
            syllable.initial = string_of(initial.as_slice());
            syllable.modifications.push(Modification::DStroke);
            return;
        }
    }
    if w {
        let has_u = holds_letter(&vowel, 'u', 'U');
        let has_o = holds_letter(&vowel, 'o', 'O');
        if has_u || has_o {
            horn_in_place(&mut vowel, has_u, has_o);
            syllable.vowel = string_of(vowel.as_slice());
            syllable.modifications.push(Modification::Horn);
            return;
        }
        if last_is(&vowel, 'a', 'A') {
            replace_last(&mut vowel, if key == 'W' { 'Ă' } else { 'ă' });
            syllable.vowel = string_of(vowel.as_slice());
            syllable.modifications.push(Modification::Breve);
            return;
        }
    }
    if key == 'z' || key == 'Z' {
        syllable.tone = None;
        return;
    }
    syllable.push(key);
}

/// Rebuild the syllable from a history of keys.
pub fn parse_telex(chars: &[char]) -> (r: Syllable)
    ensures
        r@ == parse(chars@),
{
    let mut syllable = Syllable::new();
    let mut i: usize = 0;
    while i < chars.len()
        invariant
            i <= chars@.len(),
            syllable@ == parse(chars@.subrange(0, i as int)),
        decreases chars@.len() - i,
    {
        let ghost before = chars@.subrange(0, i as int);
        apply_key(&mut syllable, chars[i]);
        i = i + 1;
        assert(chars@.subrange(0, i as int).drop_last() =~= before);
    }
    assert(chars@.subrange(0, chars@.len() as int) =~= chars@);
    syllable
}

/// Check if character is a separator (whitespace or punctuation).
pub fn is_separator(ch: char) -> (r: bool)
    ensures
        r == separator_key(ch),
{
    ch == ' ' || ch == '\n' || ch == '\t' || ch == '\r' || ch == '.' || ch == ',' || ch == '!'
        || ch == '?' || ch == ';' || ch == ':' || ch == '-' || ch == '_' || ch == '(' || ch == ')'
        || ch == '[' || ch == ']' || ch == '{' || ch == '}' || ch == '"' || ch == '\''
}

/// Whether the syllable's parts can still grow into a real syllable.
pub fn syllable_is_permissible(s: &Syllable) -> (r: bool)
    ensures
        r == permissible_model(s@),
{
    let i = chars_of(s.initial.as_str());
    let v = chars_of(s.vowel.as_str());
    let f = chars_of(s.final_consonant.as_str());
    is_permissible_parts(i.as_slice(), v.as_slice(), f.as_slice())
}

/// Refill the buffer with the shown text.
fn fill_buffer(buffer: &mut InputBuffer, output: &Vec<char>)
    ensures
        final(buffer)@ == pushed_all(flagged(output@)),
{
    buffer.clear();
    let mut i: usize = 0;
    assert(flagged(output@.subrange(0, 0)) =~= Seq::<(char, bool)>::empty());
    while i < output.len()
        invariant
            i <= output@.len(),
            buffer@ == pushed_all(flagged(output@.subrange(0, i as int))),
        decreases output@.len() - i,
    {
        let c = output[i];
        let lc = is_lowercase(c);
        buffer.push(c, lc);
        assert(flagged(output@.subrange(0, i + 1)).drop_last() =~= flagged(output@.subrange(0, i as int)));
        i = i + 1;
    }
    assert(output@.subrange(0, output@.len() as int) =~= output@);
}

proof fn lemma_parse_len(keys: Seq<char>)
    ensures
        render(parse(keys)).len() <= keys.len(),
    decreases keys.len(),
{
    if keys.len() > 0 {
        lemma_parse_len(keys.drop_last());
        let s = parse(keys.drop_last());
        lemma_render_len(s);
        lemma_render_len(parse(keys));
    } else {
        lemma_render_len(parse(keys));
    }
}

/// Telex input method that rebuilds the syllable from the typed keys.
pub struct TelexMethodV2 {
    /// History of typed keys for the current word
    typed_chars: Vec<char>,
    /// Current calculated syllable state
    syllable: Syllable,
    /// Length of last output (for backspace_count)
    last_output_len: usize,
}

impl View for TelexMethodV2 {
    type V = TelexModel;

    closed spec fn view(&self) -> TelexModel {
        TelexModel { history: self.typed_chars@, output_len: self.last_output_len as nat }
    }
}

impl Default for TelexMethodV2 {
    fn default() -> (r: Self)
        ensures
            r.wf(),
            r@ == idle(),
    {
        TelexMethodV2::new()
    }
}

impl TelexMethodV2 {
    /// The held syllable is the parse of the history, and the shown length is
    /// that of its rendering.
    pub closed spec fn wf(&self) -> bool {
        &&& self.syllable@ == parse(self.typed_chars@)
        &&& telex_wf(self@)
    }

    pub fn new() -> (r: Self)
        ensures
            r.wf(),
            r@ == idle(),
    {
        let r = TelexMethodV2 { typed_chars: Vec::new(), syllable: Syllable::new(), last_output_len: 0 };
        proof {
            lemma_render_len(empty_model());
        }
        r
    }

    /// The syllable of the current word.
    pub fn syllable(&self) -> (r: &Syllable)
        requires
            self.wf(),
        ensures
            r@ == parse(self@.history),
    {
        &self.syllable
    }

    /// Set the history to `h` and show its rendering.
    fn show(&mut self, h: Vec<char>) -> (r: Vec<char>)
        ensures
            final(self).wf(),
            final(self)@ == showing(h@),
            r@ == render(parse(h@)),
    {
        let s = parse_telex(h.as_slice());
        let out = s.render_chars();
        proof {
            lemma_parse_len(h@);
        }
        self.typed_chars = h;
        self.syllable = s;
        self.last_output_len = out.len();
        out
    }

    /// Commit current syllable and reset.
    fn commit(&mut self) -> (r: Action)
        requires
            old(self).wf(),
        ensures
            final(self).wf(),
            final(self)@ == idle(),
            r@ == (ActionModel::Replace {
                delete: old(self)@.output_len,
                insert: render(parse(old(self)@.history)),
            }),
    {
        let output = self.syllable.to_string();
        let backspace = self.last_output_len;
        self.typed_chars = Vec::new();
        self.syllable = Syllable::new();
        self.last_output_len = 0;
        proof {
            lemma_render_len(empty_model());
        }
        Action::Replace { backspace_count: backspace, text: output }
    }

    /// Process one key: the state and the action follow `telex_process`, and
    /// the buffer holds the text shown for the current word.
    pub fn process<L: LookupProvider>(&mut self, key: char, buffer: &mut InputBuffer, lookup: &L) -> (r: Action)
        requires
            old(self).wf(),
        ensures
            final(self).wf(),
            final(self)@ == telex_process(old(self)@, key).0,
            r@ == telex_process(old(self)@, key).1,
            telex_buffer_after(old(buffer)@, final(buffer)@, old(self)@, key),
    {
        if is_separator(key) {
            let action = self.commit();
            buffer.clear();
            return action;
        }
        let mut h2 = self.typed_chars.clone();
        h2.push(key);
        let new_syllable = parse_telex(h2.as_slice());
        proof {
            assert(h2@ =~= self.typed_chars@.push(key));
        }
        if !syllable_is_permissible(&new_syllable) {
            if self.syllable.is_empty() {
                return Action::DoNothing;
            }
            let prior = self.syllable.render_chars();
            let backspace = self.last_output_len;
            let mut fresh: Vec<char> = Vec::new();
            fresh.push(key);
            let fresh_syllable = parse_telex(fresh.as_slice());
            if !syllable_is_permissible(&fresh_syllable) {
                self.typed_chars = Vec::new();
                self.syllable = Syllable::new();
                self.last_output_len = 0;
                proof {
                    lemma_render_len(empty_model());
                }
                buffer.clear();
                return Action::DoNothing;
            }
            proof {
                assert(fresh@ =~= seq![key]);
            }
            let out = self.show(fresh);
            fill_buffer(buffer, &out);
            let mut text = string_of(prior.as_slice());
            push_chars(&mut text, out.as_slice());
            return Action::Replace { backspace_count: backspace, text };
        }
        let backspace = self.last_output_len;
        let out = self.show(h2);
        fill_buffer(buffer, &out);
        Action::Replace { backspace_count: backspace, text: string_of(out.as_slice()) }
    }

    /// Remove the last key and show the word again.
    pub fn process_backspace(&mut self, buffer: &mut InputBuffer) -> (r: Action)
        requires
            old(self).wf(),
        ensures
            final(self).wf(),
            final(self)@ == telex_backspace(old(self)@).0,
            r@ == telex_backspace(old(self)@).1,
            old(self)@.history.len() > 0 ==> final(buffer)@ == pushed_all(
                flagged(render(parse(final(self)@.history))),
            ),
    {
        if self.typed_chars.len() == 0 {
            return Action::DoNothing;
        }
        let mut h = self.typed_chars.clone();
        h.pop();
        proof {
            assert(h@ =~= self.typed_chars@.drop_last());
        }
        let backspace = self.last_output_len;
        let out = self.show(h);
        fill_buffer(buffer, &out);
        Action::Replace { backspace_count: backspace, text: string_of(out.as_slice()) }
    }

    /// Forget the current word.
    pub fn reset(&mut self)
        ensures
            final(self).wf(),
            final(self)@ == idle(),
    {
        self.typed_chars = Vec::new();
        self.syllable = Syllable::new();
        self.last_output_len = 0;
        proof {
            lemma_render_len(empty_model());
        }
    }

    /// Whether there is a key to take back.
    pub fn can_undo(&self, buffer: &InputBuffer) -> (r: bool)
        ensures
            r == (self@.history.len() > 0),
    {
        self.typed_chars.len() > 0
    }

    /// Take back the last key, as backspace does.
    pub fn undo(&mut self, buffer: &mut InputBuffer) -> (r: Action)
        requires
            old(self).wf(),
        ensures
            final(self).wf(),
            final(self)@ == telex_backspace(old(self)@).0,
            r@ == telex_backspace(old(self)@).1,
    {
        self.process_backspace(buffer)
    }
}

} // verus!
