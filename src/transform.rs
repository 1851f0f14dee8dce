use vstd::prelude::*;
use crate::syllable::{vowel_letter, is_vowel};
use crate::text::{chars_of, string_of};
use crate::unicode::{normalize_nfc, nfc_form};

verus! {

/// Result of a transformation.
#[derive(Debug, Clone, PartialEq, Eq)]
pub struct TransformResult {
    /// Transformed output
    pub output: String,
    /// Number of input bytes consumed
    pub consumed: usize,
}

/// A result as values: the output text and the bytes consumed.
pub open spec fn outcome_view(r: Option<TransformResult>) -> Option<(Seq<char>, usize)> {
    match r {
        Some(t) => Some((t.output@, t.consumed)),
        None => None,
    }
}

/// Something that rewrites the end of a typed text; implemented by users
/// of the library as well as here.
pub trait Transformer {
    /// The rewritten text, or `None` when nothing applies.
    fn transform(&self, input: &str) -> Option<TransformResult>;

    /// Name of the transformer.
    fn name(&self) -> &'static str;
}

/// Transformers tried in order; the first that applies wins.
pub struct Transform<T> {
    transformers: Vec<T>,
}

impl<T: Transformer> Transform<T> {
    /// How many transformers there are.
    pub closed spec fn count(&self) -> nat {
        self.transformers@.len()
    }

    /// The transformers, in the order they are tried.
    pub closed spec fn chain(&self) -> Seq<T> {
        self.transformers@
    }

    pub fn new() -> (r: Self)
        ensures
            r.count() == 0,
            r.chain() == Seq::<T>::empty(),
    {
        Transform { transformers: Vec::new() }
    }

    /// Add a transformer, tried after those already there.
    pub fn add_transformer(&mut self, transformer: T)
        ensures
            final(self).count() == old(self).count() + 1,
            final(self).chain() == old(self).chain().push(transformer),
    {
        self.transformers.push(transformer);
    }

    /// The result of the first transformer that applies.
    pub fn apply(&self, input: &str) -> (r: Option<TransformResult>)
        ensures
            self.count() == 0 ==> r is None,
    {
        let mut i: usize = 0;
        while i < self.transformers.len()
            invariant
                i <= self.transformers@.len(),
            decreases self.transformers@.len() - i,
        {
            let result = self.transformers[i].transform(input);
            if result.is_some() {
                return result;
            }
            i = i + 1;
        }
        None
    }
}

/// Whether `s` ends with `p`.
pub open spec fn ends_with_seq(s: Seq<char>, p: Seq<char>) -> bool {
    p.len() <= s.len() && s.subrange(s.len() - p.len(), s.len() as int) == p
}

/// The Telex letter rule that applies at the end of `s`, tried in this
/// order: `aa`, `aw`, `ee`, `oo`, `ow`, `dd`, then a lone `w`; with the
/// number of keys it replaces and the letter it gives.
pub open spec fn telex_rule(s: Seq<char>) -> Option<(usize, char)> {
    if ends_with_seq(s, seq!['a', 'a']) {
        Some((2, 'â'))
    } else if ends_with_seq(s, seq!['a', 'w']) {
        Some((2, 'ă'))
    } else if ends_with_seq(s, seq!['e', 'e']) {
        Some((2, 'ê'))
    } else if ends_with_seq(s, seq!['o', 'o']) {
        Some((2, 'ô'))
    } else if ends_with_seq(s, seq!['o', 'w']) {
        Some((2, 'ơ'))
    } else if ends_with_seq(s, seq!['d', 'd']) {
        Some((2, 'đ'))
    } else if ends_with_seq(s, seq!['w']) {
        Some((1, 'ư'))
    } else {
        None
    }
}

/// The combining tone mark of a Telex tone key.
pub open spec fn combining_mark(c: char) -> Option<char> {
    match c {
        's' => Some('\u{0301}'),
        'f' => Some('\u{0300}'),
        'r' => Some('\u{0309}'),
        'x' => Some('\u{0303}'),
        'j' => Some('\u{0323}'),
        _ => None,
    }
}

/// The last position before `k` that holds a vowel.
pub open spec fn last_vowel_before(s: Seq<char>, k: int) -> Option<int>
    decreases k,
{
    if k <= 0 {
        None
    } else if vowel_letter(s[k - 1]) {
        Some(k - 1)
    } else {
        last_vowel_before(s, k - 1)
    }
}

/// The text with a tone key at its end turned into a combining mark after
/// the last vowel before it, then composed.
pub open spec fn toned_text(s: Seq<char>, i: int, mark: char) -> Seq<char> {
    nfc_form(s.subrange(0, i + 1).push(mark) + s.subrange(i + 1, s.len() - 1))
}

fn ends_with_chars(s: &Vec<char>, p: &[char]) -> (r: bool)
    ensures
        r == ends_with_seq(s@, p@),
{
    if p.len() > s.len() {
        return false;
    }
    let start = s.len() - p.len();
    let mut j: usize = start;
    while j < s.len()
        invariant
            p@.len() <= s@.len(),
            start as int == s@.len() - p@.len(),
            start <= j <= s@.len(),
            forall|q: int| start <= q < j ==> s@[q] == p@[q - start],
        decreases s@.len() - j,
    {
        if s[j] != p[j - start] {
            assert(s@.subrange(start as int, s@.len() as int)[j - start] != p@[j - start]);
            return false;
        }
        j = j + 1;
    }
    assert(s@.subrange(start as int, s@.len() as int) =~= p@);
    true
}

fn rule_for(s: &Vec<char>) -> (r: Option<(usize, char)>)
    ensures
        r == telex_rule(s@),
{
    let r: Option<(usize, char)> = if ends_with_chars(s, &['a', 'a']) {
        Some((2, 'â'))
    } else if ends_with_chars(s, &['a', 'w']) {
        Some((2, 'ă'))
    } else if ends_with_chars(s, &['e', 'e']) {
        Some((2, 'ê'))
    } else if ends_with_chars(s, &['o', 'o']) {
        Some((2, 'ô'))
    } else if ends_with_chars(s, &['o', 'w']) {
        Some((2, 'ơ'))
    } else if ends_with_chars(s, &['d', 'd']) {
        Some((2, 'đ'))
    } else if s.len() >= 1 && s[s.len() - 1] == 'w' {
        assert(s@.subrange(s@.len() - 1, s@.len() as int) =~= seq!['w']);
        Some((1, 'ư'))
    } else {
        assert(s@.len() >= 1 ==> s@.subrange(s@.len() - 1, s@.len() as int)[0] == s@.last());
        None
    };
    r
}

/// The Telex transformer's outcome: the letter rule at the end of the text,
/// replacing the keys it takes; else, when the text (of two bytes or more)
/// ends with a tone key, that key's combining mark after the last vowel
/// before it, composed, consuming the whole text; else nothing.
pub open spec fn telex_outcome(input: &str) -> Option<(Seq<char>, usize)> {
    let s = input@;
    match telex_rule(s) {
        Some((n, c)) => Some((s.subrange(0, s.len() - n).push(c), n)),
        None => {
            let k = s.len() - 1;
            if input.len() >= 2 && s.len() > 0 && combining_mark(s.last()) is Some && last_vowel_before(s, k) is Some {
                Some((toned_text(s, last_vowel_before(s, k)->0, combining_mark(s.last())->0), input.len()))
            } else {
                None
            }
        },
    }
}

/// Telex transformer on plain text.
pub struct TelexTransformer;

impl TelexTransformer {
    pub fn new() -> (r: Self) {
        TelexTransformer
    }

    /// The letter rule, else the tone rule, applied at the end of the input.
    pub fn transform_text(&self, input: &str) -> (r: Option<TransformResult>)
        ensures
            outcome_view(r) == telex_outcome(input),
    {
        let s = chars_of(input);
        if let Some((n, c)) = rule_for(&s) {
            let mut out: Vec<char> = Vec::new();
            let keep = s.len() - n;
            let mut i: usize = 0;
            while i < keep
                invariant
                    keep <= s@.len(),
                    i <= keep,
                    out@ == s@.subrange(0, i as int),
                decreases keep - i,
            {
                out.push(s[i]);
                i = i + 1;
                assert(out@ =~= s@.subrange(0, i as int));
            }
            out.push(c);
            return Some(TransformResult { output: string_of(out.as_slice()), consumed: n });
        }
        if input.len() >= 2 && s.len() > 0 {
            let last = s[s.len() - 1];
            let mark: Option<char> = match last {
                's' => Some('\u{0301}'),
                'f' => Some('\u{0300}'),
                'r' => Some('\u{0309}'),
                'x' => Some('\u{0303}'),
                'j' => Some('\u{0323}'),
                _ => None,
            };
            if let Some(m) = mark {
                assert(combining_mark(last) == Some(m));
                let k = s.len() - 1;
                let mut i: usize = k;
                while i > 0
                    invariant
                        i <= k,
                        k == s@.len() - 1,
                        s@ == input@,
                        input.len() >= 2,
                        s@.len() > 0,
                        last == s@[s@.len() - 1],
                        combining_mark(last) == Some(m),
                        telex_rule(s@) is None,
                        last_vowel_before(s@, k as int) == last_vowel_before(s@, i as int),
                    decreases i,
                {
                    if is_vowel(s[i - 1]) {
                        let v = i - 1;
                        assert(last_vowel_before(s@, i as int) == Some(v as int));
                        let mut out: Vec<char> = Vec::new();
                        let mut j: usize = 0;
                        while j <= v
                            invariant
                                v < k,
                                k == s@.len() - 1,
                                j <= v + 1,
                                s@ == input@,
                                input.len() >= 2,
                                s@.len() > 0,
                                last == s@[s@.len() - 1],
                                combining_mark(last) == Some(m),
                                telex_rule(s@) is None,
                                out@ == s@.subrange(0, j as int),
                            decreases v + 1 - j,
                        {
                            out.push(s[j]);
                            j = j + 1;
                            assert(out@ =~= s@.subrange(0, j as int));
                        }
                        out.push(m);
                        let ghost head = out@;
                        let mut q: usize = v + 1;
                        while q < k
                            invariant
                                v < k,
                                k == s@.len() - 1,
                                v + 1 <= q <= k,
                                s@ == input@,
                                input.len() >= 2,
                                s@.len() > 0,
                                last == s@[s@.len() - 1],
                                combining_mark(last) == Some(m),
                                telex_rule(s@) is None,
                                out@ == head + s@.subrange(v + 1, q as int),
                            decreases k - q,
                        {
                            out.push(s[q]);
                            q = q + 1;
                            assert(out@ =~= head + s@.subrange(v + 1, q as int));
                        }
                        assert(s@.last() == last);
                        assert(out@ =~= s@.subrange(0, v + 1).push(m) + s@.subrange(v + 1, s@.len() - 1));
                        let text = string_of(out.as_slice());
                        let composed = normalize_nfc(text.as_str());
                        return Some(TransformResult { output: composed, consumed: input.len() });
                    }
                    assert(last_vowel_before(s@, i as int) == last_vowel_before(s@, i - 1));
                    i = i - 1;
                }
                assert(last_vowel_before(s@, 0) is None);
            }
        }
        None
    }
}

impl Default for TelexTransformer {
    fn default() -> (r: Self) {
        TelexTransformer::new()
    }
}

impl Transformer for TelexTransformer {
    fn transform(&self, input: &str) -> Option<TransformResult> {
        self.transform_text(input)
    }

    fn name(&self) -> &'static str {
        "telex"
    }
}

/// VNI transformer on plain text: nothing is rewritten yet.
pub struct VNITransformer;

impl VNITransformer {
    pub fn new() -> (r: Self) {
        VNITransformer
    }
}

impl Default for VNITransformer {
    fn default() -> (r: Self) {
        VNITransformer::new()
    }
}

impl Transformer for VNITransformer {
    fn transform(&self, input: &str) -> Option<TransformResult> {
        None
    }

    fn name(&self) -> &'static str {
        "vni"
    }
}

/// VIQR transformer on plain text: nothing is rewritten yet.
pub struct VIQRTransformer;

impl VIQRTransformer {
    pub fn new() -> (r: Self) {
        VIQRTransformer
    }
}

impl Default for VIQRTransformer {
    fn default() -> (r: Self) {
        VIQRTransformer::new()
    }
}

impl Transformer for VIQRTransformer {
    fn transform(&self, input: &str) -> Option<TransformResult> {
        None
    }

    fn name(&self) -> &'static str {
        "viqr"
    }
}

} // verus!
