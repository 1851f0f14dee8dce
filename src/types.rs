use vstd::prelude::*;
use crate::lookup_table::InputMethod;

verus! {

/// Word form classification.
#[derive(Debug, Clone, Copy, PartialEq, Eq, Structural)]
pub enum WordForm {
    /// Not recognized
    NonVn,
    /// Empty
    Empty,
    /// Consonant only
    C,
    /// Vowel only
    V,
    /// Consonant + Vowel
    CV,
    /// Vowel + Consonant
    VC,
    /// Consonant + Vowel + Consonant
    CVC,
}

/// What an action asks of the text, as values.
pub enum ActionModel {
    DoNothing,
    Commit(Seq<char>),
    Replace { delete: nat, insert: Seq<char> },
}

/// Action to be performed by the IME.
#[derive(Debug, Clone, PartialEq, Eq)]
pub enum Action {
    /// Do nothing: the key passes through.
    DoNothing,
    /// Commit text as-is.
    Commit(String),
    /// Replace previous text.
    Replace {
        /// Number of characters to delete (backspace)
        backspace_count: usize,
        /// New text to insert
        text: String,
    },
}

impl View for Action {
    type V = ActionModel;

    open spec fn view(&self) -> ActionModel {
        match self {
            Action::DoNothing => ActionModel::DoNothing,
            Action::Commit(s) => ActionModel::Commit(s@),
            Action::Replace { backspace_count, text } => ActionModel::Replace {
                delete: *backspace_count as nat,
                insert: text@,
            },
        }
    }
}

/// The text after a shim applies an action for a typed key: on `DoNothing`
/// the key itself is inserted; on `Replace`, `delete` characters before the
/// caret are removed and `insert` is inserted; on `Commit`, the text is
/// inserted. A separator key is appended after a replacement.
pub open spec fn apply_action(doc: Seq<char>, a: ActionModel, key: char, separator: bool) -> Seq<char> {
    match a {
        ActionModel::DoNothing => doc.push(key),
        ActionModel::Commit(s) => doc + s,
        ActionModel::Replace { delete, insert } => {
            let kept = if delete <= doc.len() { doc.subrange(0, doc.len() - delete) } else { Seq::empty() };
            if separator { kept + insert + seq![key] } else { kept + insert }
        },
    }
}

/// Character information for lookup.
#[derive(Debug, Clone, Copy)]
pub struct CharInfo {
    /// Vowel index (0 = not a vowel, 1-6 for a,e,i,o,u,y)
    pub vowel_index: u8,
    /// Macro index (for special transformations)
    pub macro_index: u8,
    /// Double character index
    pub double_char_index: u8,
    /// Tone index
    pub tone_index: u8,
    /// Current tone
    pub current_tone: u8,
    /// Is breve mark
    pub is_breve: bool,
    /// Is separator (space, newline, etc.)
    pub is_separator: bool,
    /// Is soft separator (punctuation)
    pub is_soft_separator: bool,
    /// VNI double index
    pub vni_double_index: u8,
    /// Word form
    pub word_form: WordForm,
    /// Consonant 1 offset
    pub c1_offset: Option<usize>,
    /// Vowel offset
    pub v_offset: Option<usize>,
    /// Consonant 2 offset
    pub c2_offset: Option<usize>,
}

/// Character information with every field zero, false or empty.
pub open spec fn blank_info(i: CharInfo) -> bool {
    &&& i.vowel_index == 0
    &&& i.macro_index == 0
    &&& i.double_char_index == 0
    &&& i.tone_index == 0
    &&& i.current_tone == 0
    &&& !i.is_breve
    &&& !i.is_separator
    &&& !i.is_soft_separator
    &&& i.vni_double_index == 0
    &&& i.word_form == WordForm::Empty
    &&& i.c1_offset is None
    &&& i.v_offset is None
    &&& i.c2_offset is None
}

impl Default for CharInfo {
    fn default() -> (r: Self)
        ensures
            blank_info(r),
    {
        CharInfo {
            vowel_index: 0,
            macro_index: 0,
            double_char_index: 0,
            tone_index: 0,
            current_tone: 0,
            is_breve: false,
            is_separator: false,
            is_soft_separator: false,
            vni_double_index: 0,
            word_form: WordForm::Empty,
            c1_offset: None,
            v_offset: None,
            c2_offset: None,
        }
    }
}

/// Configuration for the IME.
#[derive(Debug, Clone)]
pub struct Config {
    /// Enable/disable the IME
    pub enabled: bool,
    /// Auto-commit on separator
    pub auto_commit: bool,
    /// Input convention
    pub input_method: InputMethod,
    /// Modern orthography (hoà, thuý) rather than classical (hòa, thúy)
    pub modern_orthography: bool,
}

impl Default for Config {
    fn default() -> (r: Self)
        ensures
            r.enabled,
            r.auto_commit,
            r.input_method == InputMethod::Telex,
            r.modern_orthography,
    {
        Config { enabled: true, auto_commit: true, input_method: InputMethod::Telex, modern_orthography: true }
    }
}

} // verus!
