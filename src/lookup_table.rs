use vstd::prelude::*;
use crate::types::{CharInfo, WordForm};

verus! {

/// Bits 0-4: vowel index.
pub const VOWEL_INDEX_MASK: u32 = 0x1F;
/// Bits 5-8: macro index.
pub const MACRO_INDEX_MASK: u32 = 0x1E0;
/// Bits 9-13: double character index.
pub const DOUBLE_CHAR_MASK: u32 = 0x3E00;
/// Bits 14-17: tone index.
pub const TONE_INDEX_MASK: u32 = 0x3C000;
/// Bits 18-21: current tone.
pub const CURRENT_TONE_MASK: u32 = 0x3C0000;
/// Bit 22: breve key.
pub const IS_BREVE_FLAG: u32 = 0x400000;
/// Bit 24: soft separator.
pub const SOFT_SEP_FLAG: u32 = 0x1000000;
/// Bit 25: separator.
pub const SEPARATOR_FLAG: u32 = 0x2000000;
/// Bits 26-28: VNI compound mark.
pub const VNI_DOUBLE_MASK: u32 = 0x1C000000;

/// The conventions a table is built for.
#[derive(Debug, Clone, Copy, PartialEq, Eq, Structural)]
pub enum InputMethod {
    Telex,
    VNI,
    VIQR,
}

/// Vowel index of an ASCII code: 1..6 for a, e, i, o, u, y in either case.
pub open spec fn vowel_of(b: u8) -> u32 {
    if b == 97 || b == 65 {
        1
    } else if b == 101 || b == 69 {
        2
    } else if b == 105 || b == 73 {
        3
    } else if b == 111 || b == 79 {
        4
    } else if b == 117 || b == 85 {
        5
    } else if b == 121 || b == 89 {
        6
    } else {
        0
    }
}

/// Telex tone of an ASCII code: 1..5 for s, f, r, x, j in either case.
pub open spec fn telex_tone_of(b: u8) -> u32 {
    if b == 115 || b == 83 {
        1
    } else if b == 102 || b == 70 {
        2
    } else if b == 114 || b == 82 {
        3
    } else if b == 120 || b == 88 {
        4
    } else if b == 106 || b == 74 {
        5
    } else {
        0
    }
}

/// VNI tone of an ASCII code: 1..5 for the digits 1..5.
pub open spec fn vni_tone_of(b: u8) -> u32 {
    if 49 <= b <= 53 { (b - 48) as u32 } else { 0 }
}

/// VNI compound mark of an ASCII code: 1..4 for the digits 6..9.
pub open spec fn vni_double_of(b: u8) -> u32 {
    if 54 <= b <= 57 { (b - 53) as u32 } else { 0 }
}

/// Space, newline, tab, carriage return.
pub open spec fn separator_code(b: u8) -> bool {
    b == 32 || b == 10 || b == 9 || b == 13
}

/// `, . ; : ! ?`
pub open spec fn basic_punct(b: u8) -> bool {
    b == 44 || b == 46 || b == 59 || b == 58 || b == 33 || b == 63
}

/// `- _ ( ) [ ] { } " '`
pub open spec fn extra_punct(b: u8) -> bool {
    b == 45 || b == 95 || b == 40 || b == 41 || b == 91 || b == 93 || b == 123 || b == 125
        || b == 34 || b == 39
}

/// The classification fields of an ASCII code under a convention:
/// vowel index, tone index, breve, soft separator, separator, VNI mark.
pub open spec fn fields(m: InputMethod, b: u8) -> (u32, u32, bool, bool, bool, u32) {
    match m {
        InputMethod::Telex => (
            vowel_of(b),
            telex_tone_of(b),
            b == 119 || b == 87,
            basic_punct(b) || extra_punct(b),
            separator_code(b),
            0,
        ),
        InputMethod::VNI => (vowel_of(b), vni_tone_of(b), false, basic_punct(b), separator_code(b), vni_double_of(b)),
        InputMethod::VIQR => (0, 0, false, false, false, 0),
    }
}

/// The packed entry of the given fields.
pub open spec fn encode(v: u32, t: u32, breve: bool, soft: bool, sep: bool, d: u32) -> u32 {
    v | (t << 14u32) | (if breve { IS_BREVE_FLAG } else { 0 }) | (if soft { SOFT_SEP_FLAG } else { 0 })
        | (if sep { SEPARATOR_FLAG } else { 0 }) | (d << 26u32)
}

/// The packed entry of an ASCII code under a convention.
pub open spec fn table_entry(m: InputMethod, b: u8) -> u32 {
    let f = fields(m, b);
    encode(f.0, f.1, f.2, f.3, f.4, f.5)
}

proof fn lemma_decode(v: u32, t: u32, breve: bool, soft: bool, sep: bool, d: u32)
    requires
        v < 32,
        t < 16,
        d < 8,
    ensures
        encode(v, t, breve, soft, sep, d) & VOWEL_INDEX_MASK == v,
        (encode(v, t, breve, soft, sep, d) & MACRO_INDEX_MASK) >> 5u32 == 0,
        (encode(v, t, breve, soft, sep, d) & DOUBLE_CHAR_MASK) >> 9u32 == 0,
        (encode(v, t, breve, soft, sep, d) & TONE_INDEX_MASK) >> 14u32 == t,
        (encode(v, t, breve, soft, sep, d) & CURRENT_TONE_MASK) >> 18u32 == 0,
        (encode(v, t, breve, soft, sep, d) & IS_BREVE_FLAG != 0) == breve,
        (encode(v, t, breve, soft, sep, d) & SOFT_SEP_FLAG != 0) == soft,
        (encode(v, t, breve, soft, sep, d) & SEPARATOR_FLAG != 0) == sep,
        (encode(v, t, breve, soft, sep, d) & VNI_DOUBLE_MASK) >> 26u32 == d,
{
    let b: u32 = if breve { IS_BREVE_FLAG } else { 0 };
    let s: u32 = if soft { SOFT_SEP_FLAG } else { 0 };
    let p: u32 = if sep { SEPARATOR_FLAG } else { 0 };
    assert(b == 0 || b == 0x400000);
    assert(s == 0 || s == 0x1000000);
    assert(p == 0 || p == 0x2000000);
    let e = v | (t << 14u32) | b | s | p | (d << 26u32);
    assert(e == encode(v, t, breve, soft, sep, d));
    assert(e & 0x1F == v) by (bit_vector)
        requires
            v < 32, t < 16, d < 8, b == 0 || b == 0x400000, s == 0 || s == 0x1000000,
            p == 0 || p == 0x2000000, e == v | (t << 14u32) | b | s | p | (d << 26u32);
    assert((e & 0x1E0) >> 5u32 == 0) by (bit_vector)
        requires
            v < 32, t < 16, d < 8, b == 0 || b == 0x400000, s == 0 || s == 0x1000000,
            p == 0 || p == 0x2000000, e == v | (t << 14u32) | b | s | p | (d << 26u32);
    assert((e & 0x3E00) >> 9u32 == 0) by (bit_vector)
        requires
            v < 32, t < 16, d < 8, b == 0 || b == 0x400000, s == 0 || s == 0x1000000,
            p == 0 || p == 0x2000000, e == v | (t << 14u32) | b | s | p | (d << 26u32);
    assert((e & 0x3C000) >> 14u32 == t) by (bit_vector)
        requires
            v < 32, t < 16, d < 8, b == 0 || b == 0x400000, s == 0 || s == 0x1000000,
            p == 0 || p == 0x2000000, e == v | (t << 14u32) | b | s | p | (d << 26u32);
    assert((e & 0x3C0000) >> 18u32 == 0) by (bit_vector)
        requires
            v < 32, t < 16, d < 8, b == 0 || b == 0x400000, s == 0 || s == 0x1000000,
            p == 0 || p == 0x2000000, e == v | (t << 14u32) | b | s | p | (d << 26u32);
    assert((e & 0x400000 != 0) == (b == 0x400000)) by (bit_vector)
        requires
            v < 32, t < 16, d < 8, b == 0 || b == 0x400000, s == 0 || s == 0x1000000,
            p == 0 || p == 0x2000000, e == v | (t << 14u32) | b | s | p | (d << 26u32);
    assert((e & 0x1000000 != 0) == (s == 0x1000000)) by (bit_vector)
        requires
            v < 32, t < 16, d < 8, b == 0 || b == 0x400000, s == 0 || s == 0x1000000,
            p == 0 || p == 0x2000000, e == v | (t << 14u32) | b | s | p | (d << 26u32);
    assert((e & 0x2000000 != 0) == (p == 0x2000000)) by (bit_vector)
        requires
            v < 32, t < 16, d < 8, b == 0 || b == 0x400000, s == 0 || s == 0x1000000,
            p == 0 || p == 0x2000000, e == v | (t << 14u32) | b | s | p | (d << 26u32);
    assert((e & 0x1C000000) >> 26u32 == d) by (bit_vector)
        requires
            v < 32, t < 16, d < 8, b == 0 || b == 0x400000, s == 0 || s == 0x1000000,
            p == 0 || p == 0x2000000, e == v | (t << 14u32) | b | s | p | (d << 26u32);
}

fn entry_for(m: InputMethod, b: u8) -> (r: u32)
    ensures
        r == table_entry(m, b),
{
    let v: u32 = if m == InputMethod::VIQR {
        0
    } else if b == 97 || b == 65 {
        1
    } else if b == 101 || b == 69 {
        2
    } else if b == 105 || b == 73 {
        3
    } else if b == 111 || b == 79 {
        4
    } else if b == 117 || b == 85 {
        5
    } else if b == 121 || b == 89 {
        6
    } else {
        0
    };
    let t: u32 = match m {
        InputMethod::Telex => if b == 115 || b == 83 {
            1
        } else if b == 102 || b == 70 {
            2
        } else if b == 114 || b == 82 {
            3
        } else if b == 120 || b == 88 {
            4
        } else if b == 106 || b == 74 {
            5
        } else {
            0
        },
        InputMethod::VNI => if 49 <= b && b <= 53 { (b - 48) as u32 } else { 0 },
        InputMethod::VIQR => 0,
    };
    let breve = m == InputMethod::Telex && (b == 119 || b == 87);
    let basic = b == 44 || b == 46 || b == 59 || b == 58 || b == 33 || b == 63;
    let extra = b == 45 || b == 95 || b == 40 || b == 41 || b == 91 || b == 93 || b == 123
        || b == 125 || b == 34 || b == 39;
    let soft = match m {
        InputMethod::Telex => basic || extra,
        InputMethod::VNI => basic,
        InputMethod::VIQR => false,
    };
    let sep = m != InputMethod::VIQR && (b == 32 || b == 10 || b == 9 || b == 13);
    let d: u32 = if m == InputMethod::VNI && 54 <= b && b <= 57 { (b - 53) as u32 } else { 0 };
    v | (t << 14u32) | (if breve { IS_BREVE_FLAG } else { 0 }) | (if soft { SOFT_SEP_FLAG } else { 0 })
        | (if sep { SEPARATOR_FLAG } else { 0 }) | (d << 26u32)
}

/// Lookup table for character classification: one packed 32-bit entry per
/// ASCII code.
pub struct LookupTable {
    method: InputMethod,
    dt: Vec<u32>,
}

impl LookupTable {
    /// Every entry is the packed classification of its code.
    pub closed spec fn wf(&self) -> bool {
        &&& self.dt@.len() == 256
        &&& forall|i: int| 0 <= i < 256 ==> #[trigger] self.dt@[i] == table_entry(self.method, i as u8)
    }

    /// The convention the table was built for.
    pub closed spec fn method(&self) -> InputMethod {
        self.method
    }

    /// Create a new lookup table for the given input method.
    pub fn new(method: InputMethod) -> (r: Self)
        ensures
            r.wf(),
            r.method() == method,
    {
        let mut dt: Vec<u32> = Vec::new();
        let mut i: u32 = 0;
        while i < 256
            invariant
                i <= 256,
                dt@.len() == i,
                forall|j: int| 0 <= j < i ==> #[trigger] dt@[j] == table_entry(method, j as u8),
            decreases 256 - i,
        {
            dt.push(entry_for(method, i as u8));
            i = i + 1;
        }
        LookupTable { method, dt }
    }

    /// Character information of an ASCII code.
    pub fn get_info(&self, ch: u8) -> (r: CharInfo)
        requires
            self.wf(),
        ensures
            r.vowel_index as u32 == fields(self.method(), ch).0,
            r.tone_index as u32 == fields(self.method(), ch).1,
            r.is_breve == fields(self.method(), ch).2,
            r.is_soft_separator == fields(self.method(), ch).3,
            r.is_separator == fields(self.method(), ch).4,
            r.vni_double_index as u32 == fields(self.method(), ch).5,
            r.macro_index == 0,
            r.double_char_index == 0,
            r.current_tone == 0,
            r.word_form == WordForm::Empty,
            r.c1_offset is None,
            r.v_offset is None,
            r.c2_offset is None,
    {
        let entry = self.dt[ch as usize];
        proof {
            let f = fields(self.method, ch);
            assert(entry == table_entry(self.method, ch));
            lemma_decode(f.0, f.1, f.2, f.3, f.4, f.5);
        }
        CharInfo {
            vowel_index: (entry & VOWEL_INDEX_MASK) as u8,
            macro_index: ((entry & MACRO_INDEX_MASK) >> 5u32) as u8,
            double_char_index: ((entry & DOUBLE_CHAR_MASK) >> 9u32) as u8,
            tone_index: ((entry & TONE_INDEX_MASK) >> 14u32) as u8,
            current_tone: ((entry & CURRENT_TONE_MASK) >> 18u32) as u8,
            is_breve: (entry & IS_BREVE_FLAG) != 0,
            is_separator: (entry & SEPARATOR_FLAG) != 0,
            is_soft_separator: (entry & SOFT_SEP_FLAG) != 0,
            vni_double_index: ((entry & VNI_DOUBLE_MASK) >> 26u32) as u8,
            word_form: WordForm::Empty,
            c1_offset: None,
            v_offset: None,
            c2_offset: None,
        }
    }
}

} // verus!
