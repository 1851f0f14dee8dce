use vstd::prelude::*;
use crate::buffer::InputBuffer;
use crate::methods::{TelexMethod, VNIMethod, VIQRMethod, commit_key_spec, drop_key_spec};
use crate::telex::{TelexMethodV2, TelexModel, telex_process, telex_backspace, idle, telex_buffer_after};
use crate::text::str_is;
use crate::traits::LookupProvider;
use crate::types::{Action, ActionModel};
use crate::viet_lookup::VietnameseLookup;
use crate::nom::{NomLookup, NomRules, TelexNomMethod, nom_process};

verus! {

/// An input method: how keys are typed, as opposed to the language.
pub trait InputMethodTrait {
    /// The condition that the method's state keeps between calls.
    spec fn method_wf(&self) -> bool;

    /// Display name.
    fn name(&self) -> &'static str;

    /// Unique id.
    fn id(&self) -> &'static str;

    /// Process one key.
    fn process<L: LookupProvider>(&mut self, key: char, buffer: &mut InputBuffer, lookup: &L) -> (r: Action)
        requires
            old(self).method_wf(),
        ensures
            final(self).method_wf(),
    ;

    /// Process backspace.
    fn process_backspace(&mut self, buffer: &mut InputBuffer) -> (r: Action)
        requires
            old(self).method_wf(),
        ensures
            final(self).method_wf(),
    ;

    /// Forget the internal state.
    fn reset(&mut self)
        ensures
            final(self).method_wf(),
    ;

    /// Whether the latest transformation can be taken back.
    fn can_undo(&self, buffer: &InputBuffer) -> bool;

    /// Take back the latest transformation.
    fn undo(&mut self, buffer: &mut InputBuffer) -> (r: Action)
        requires
            old(self).method_wf(),
        ensures
            final(self).method_wf(),
    ;
}

impl InputMethodTrait for TelexMethodV2 {
    open spec fn method_wf(&self) -> bool {
        self.wf()
    }

    fn name(&self) -> &'static str {
        "Telex V2 (Smart)"
    }

    fn id(&self) -> &'static str {
        "telex_v2"
    }

    fn process<L: LookupProvider>(&mut self, key: char, buffer: &mut InputBuffer, lookup: &L) -> Action {
        TelexMethodV2::process(self, key, buffer, lookup)
    }

    fn process_backspace(&mut self, buffer: &mut InputBuffer) -> Action {
        TelexMethodV2::process_backspace(self, buffer)
    }

    fn reset(&mut self) {
        TelexMethodV2::reset(self)
    }

    fn can_undo(&self, buffer: &InputBuffer) -> bool {
        TelexMethodV2::can_undo(self, buffer)
    }

    fn undo(&mut self, buffer: &mut InputBuffer) -> Action {
        TelexMethodV2::undo(self, buffer)
    }
}

} // verus!

verus! {

impl InputMethodTrait for TelexMethod {
    open spec fn method_wf(&self) -> bool {
        true
    }

    fn name(&self) -> &'static str {
        "Telex"
    }

    fn id(&self) -> &'static str {
        "telex"
    }

    fn process<L: LookupProvider>(&mut self, key: char, buffer: &mut InputBuffer, lookup: &L) -> (r: Action) {
        TelexMethod::process(self, key, buffer, lookup)
    }

    fn process_backspace(&mut self, buffer: &mut InputBuffer) -> (r: Action) {
        TelexMethod::process_backspace(self, buffer)
    }

    fn reset(&mut self) {
    }

    fn can_undo(&self, buffer: &InputBuffer) -> bool {
        false
    }

    fn undo(&mut self, buffer: &mut InputBuffer) -> (r: Action) {
        Action::DoNothing
    }
}

impl InputMethodTrait for VNIMethod {
    open spec fn method_wf(&self) -> bool {
        true
    }

    fn name(&self) -> &'static str {
        "VNI"
    }

    fn id(&self) -> &'static str {
        "vni"
    }

    fn process<L: LookupProvider>(&mut self, key: char, buffer: &mut InputBuffer, lookup: &L) -> (r: Action) {
        VNIMethod::process(self, key, buffer, lookup)
    }

    fn process_backspace(&mut self, buffer: &mut InputBuffer) -> (r: Action) {
        VNIMethod::process_backspace(self, buffer)
    }

    fn reset(&mut self) {
    }

    fn can_undo(&self, buffer: &InputBuffer) -> bool {
        false
    }

    fn undo(&mut self, buffer: &mut InputBuffer) -> (r: Action) {
        Action::DoNothing
    }
}

impl InputMethodTrait for VIQRMethod {
    open spec fn method_wf(&self) -> bool {
        true
    }

    fn name(&self) -> &'static str {
        "VIQR"
    }

    fn id(&self) -> &'static str {
        "viqr"
    }

    fn process<L: LookupProvider>(&mut self, key: char, buffer: &mut InputBuffer, lookup: &L) -> (r: Action) {
        VIQRMethod::process(self, key, buffer, lookup)
    }

    fn process_backspace(&mut self, buffer: &mut InputBuffer) -> (r: Action) {
        VIQRMethod::process_backspace(self, buffer)
    }

    fn reset(&mut self) {
    }

    fn can_undo(&self, buffer: &InputBuffer) -> bool {
        false
    }

    fn undo(&mut self, buffer: &mut InputBuffer) -> (r: Action) {
        Action::DoNothing
    }
}

/// What an active input method holds.
pub enum MethodModel {
    Telex(TelexModel),
    Vni,
    Viqr,
    TelexNom(Seq<char>),
}

/// An instance of one of the input methods.
pub enum InputMethod {
    /// Telex, rebuilding each word from its keys
    Telex(TelexMethodV2),
    /// VNI
    Vni(VNIMethod),
    /// VIQR
    Viqr(VIQRMethod),
    /// Telex readings picked as Nôm characters
    TelexNom(TelexNomMethod),
}

impl View for InputMethod {
    type V = MethodModel;

    open spec fn view(&self) -> MethodModel {
        match self {
            InputMethod::Telex(m) => MethodModel::Telex(m@),
            InputMethod::Vni(_) => MethodModel::Vni,
            InputMethod::Viqr(_) => MethodModel::Viqr,
            InputMethod::TelexNom(m) => MethodModel::TelexNom(m.reading()),
        }
    }
}

/// The new state and the action after one key, by method.
pub open spec fn method_process(m: MethodModel, key: char) -> MethodModel {
    match m {
        MethodModel::Telex(t) => MethodModel::Telex(telex_process(t, key).0),
        MethodModel::TelexNom(s) => MethodModel::TelexNom(nom_process(s, key).0),
        _ => m,
    }
}

/// The new state after backspace, by method.
pub open spec fn method_backspace(m: MethodModel) -> MethodModel {
    match m {
        MethodModel::Telex(t) => MethodModel::Telex(telex_backspace(t).0),
        MethodModel::TelexNom(s) => MethodModel::TelexNom(if s.len() > 0 { s.drop_last() } else { s }),
        _ => m,
    }
}

/// The state after a reset, by method.
pub open spec fn method_reset(m: MethodModel) -> MethodModel {
    match m {
        MethodModel::Telex(_) => MethodModel::Telex(idle()),
        MethodModel::TelexNom(_) => MethodModel::TelexNom(Seq::empty()),
        _ => m,
    }
}

impl InputMethod {
    /// The method's state is consistent.
    pub open spec fn wf(&self) -> bool {
        match self {
            InputMethod::Telex(m) => m.wf(),
            InputMethod::TelexNom(m) => m.wf(),
            _ => true,
        }
    }

    /// Process one key with the method.
    pub fn process<L: LookupProvider>(&mut self, key: char, buffer: &mut InputBuffer, lookup: &L) -> (r: Action)
        requires
            old(self).wf(),
        ensures
            final(self).wf(),
            final(self)@ == method_process(old(self)@, key),
            old(self)@ matches MethodModel::Telex(t) ==> r@ == telex_process(t, key).1
                && telex_buffer_after(old(buffer)@, final(buffer)@, t, key),
            old(self)@ matches MethodModel::TelexNom(s) ==> r@ == nom_process(s, key).1,
            (old(self)@ is Vni || old(self)@ is Viqr) ==> commit_key_spec(old(buffer)@, final(buffer)@, key, r@),
    {
        match self {
            InputMethod::Telex(m) => m.process(key, buffer, lookup),
            InputMethod::Vni(m) => m.process(key, buffer, lookup),
            InputMethod::Viqr(m) => m.process(key, buffer, lookup),
            InputMethod::TelexNom(m) => m.process(key, buffer, lookup),
        }
    }

    /// Process backspace with the method.
    pub fn process_backspace(&mut self, buffer: &mut InputBuffer) -> (r: Action)
        requires
            old(self).wf(),
        ensures
            final(self).wf(),
            final(self)@ == method_backspace(old(self)@),
            old(self)@ matches MethodModel::Telex(t) ==> r@ == telex_backspace(t).1,
            old(self)@ matches MethodModel::TelexNom(s) ==> r@ == (if s.len() > 0 {
                ActionModel::Replace { delete: 1, insert: Seq::empty() }
            } else {
                ActionModel::DoNothing
            }),
            (old(self)@ is Vni || old(self)@ is Viqr) ==> drop_key_spec(old(buffer)@, final(buffer)@, r@),
    {
        match self {
            InputMethod::Telex(m) => m.process_backspace(buffer),
            InputMethod::Vni(m) => m.process_backspace(buffer),
            InputMethod::Viqr(m) => m.process_backspace(buffer),
            InputMethod::TelexNom(m) => m.process_backspace(buffer),
        }
    }

    /// Forget the method's state.
    pub fn reset(&mut self)
        ensures
            final(self).wf(),
            final(self)@ == method_reset(old(self)@),
    {
        match self {
            InputMethod::Telex(m) => m.reset(),
            InputMethod::Vni(_) => {},
            InputMethod::Viqr(_) => {},
            InputMethod::TelexNom(m) => m.reset(),
        }
    }
}

/// `telex`
pub open spec fn telex_id() -> Seq<char> {
    seq!['t', 'e', 'l', 'e', 'x']
}

/// `telex_v2`
pub open spec fn telex_v2_id() -> Seq<char> {
    seq!['t', 'e', 'l', 'e', 'x', '_', 'v', '2']
}

/// `vni`
pub open spec fn vni_id() -> Seq<char> {
    seq!['v', 'n', 'i']
}

/// `viqr`
pub open spec fn viqr_id() -> Seq<char> {
    seq!['v', 'i', 'q', 'r']
}

/// `vietnamese`
pub open spec fn vietnamese_id() -> Seq<char> {
    seq!['v', 'i', 'e', 't', 'n', 'a', 'm', 'e', 's', 'e']
}

/// The input methods of the Vietnamese plugin, the default first.
pub open spec fn vietnamese_methods() -> Seq<Seq<char>> {
    seq![telex_id(), telex_v2_id(), vni_id(), viqr_id()]
}

/// The views of a sequence of string slices.
pub open spec fn str_views(v: Seq<&str>) -> Seq<Seq<char>> {
    v.map_values(|s: &str| s@)
}

/// The fresh method that an id of the Vietnamese plugin creates: both Telex
/// ids rebuild words from their keys.
pub open spec fn vietnamese_creates(id: Seq<char>) -> Option<MethodModel> {
    if id == telex_id() || id == telex_v2_id() {
        Some(MethodModel::Telex(idle()))
    } else if id == vni_id() {
        Some(MethodModel::Vni)
    } else if id == viqr_id() {
        Some(MethodModel::Viqr)
    } else {
        None
    }
}

/// Vietnamese language plugin.
pub struct VietnamesePlugin {
    lookup_telex: VietnameseLookup,
    lookup_vni: VietnameseLookup,
}

impl VietnamesePlugin {
    /// Both lookup tables are built.
    pub closed spec fn wf(&self) -> bool {
        &&& self.lookup_telex.wf()
        &&& self.lookup_vni.wf()
        &&& !self.lookup_telex.is_vni()
        &&& self.lookup_vni.is_vni()
    }

    pub fn new() -> (r: Self)
        ensures
            r.wf(),
    {
        VietnamesePlugin { lookup_telex: VietnameseLookup::new_telex(), lookup_vni: VietnameseLookup::new_vni() }
    }

    /// Display name: `Tiếng Việt`.
    pub fn name(&self) -> (r: &'static str)
        ensures
            r@ == "Tiếng Việt"@,
    {
        "Tiếng Việt"
    }

    /// Unique id: `vietnamese`.
    pub fn id(&self) -> (r: &'static str)
        ensures
            r@ == vietnamese_id(),
    {
        proof {
            reveal_strlit("vietnamese");
        }
        "vietnamese"
    }

    /// The input methods, the default first.
    pub fn input_methods(&self) -> (r: Vec<&'static str>)
        ensures
            str_views(r@) == vietnamese_methods(),
    {
        proof {
            reveal_strlit("telex");
            reveal_strlit("telex_v2");
            reveal_strlit("vni");
            reveal_strlit("viqr");
        }
        let r = vec!["telex", "telex_v2", "vni", "viqr"];
        assert(r@[0]@ =~= telex_id());
        assert(r@[1]@ =~= telex_v2_id());
        assert(r@[2]@ =~= vni_id());
        assert(r@[3]@ =~= viqr_id());
        assert(str_views(r@) =~= vietnamese_methods());
        r
    }

    /// A fresh instance of the input method with this id.
    pub fn create_input_method(&self, id: &str) -> (r: Option<InputMethod>)
        ensures
            r matches Some(m) ==> m.wf(),
            match r {
                Some(m) => vietnamese_creates(id@) == Some(m@),
                None => vietnamese_creates(id@) is None,
            },
    {
        if str_is(id, &['t', 'e', 'l', 'e', 'x']) || str_is(id, &['t', 'e', 'l', 'e', 'x', '_', 'v', '2']) {
            Some(InputMethod::Telex(TelexMethodV2::new()))
        } else if str_is(id, &['v', 'n', 'i']) {
            Some(InputMethod::Vni(VNIMethod::new()))
        } else if str_is(id, &['v', 'i', 'q', 'r']) {
            Some(InputMethod::Viqr(VIQRMethod::new()))
        } else {
            None
        }
    }

    /// Character lookup for Telex.
    pub fn lookup(&self) -> (r: &VietnameseLookup)
        requires
            self.wf(),
        ensures
            r.wf(),
            !r.is_vni(),
    {
        &self.lookup_telex
    }
}

/// `nom`
pub open spec fn nom_id() -> Seq<char> {
    seq!['n', 'o', 'm']
}

/// `telex-nom`
pub open spec fn telex_nom_id() -> Seq<char> {
    seq!['t', 'e', 'l', 'e', 'x', '-', 'n', 'o', 'm']
}

/// `pinyin-nom`
pub open spec fn pinyin_nom_id() -> Seq<char> {
    seq!['p', 'i', 'n', 'y', 'i', 'n', '-', 'n', 'o', 'm']
}

/// The input methods of the Nôm plugin.
pub open spec fn nom_methods() -> Seq<Seq<char>> {
    seq![telex_nom_id(), pinyin_nom_id()]
}

/// The fresh method that an id of the Nôm plugin creates: only Telex-Nôm
/// is available.
pub open spec fn nom_creates(id: Seq<char>) -> Option<MethodModel> {
    if id == telex_nom_id() {
        Some(MethodModel::TelexNom(Seq::empty()))
    } else {
        None
    }
}

/// Chữ Nôm language plugin.
pub struct NomPlugin {
    lookup: NomLookup,
    rules: NomRules,
}

impl NomPlugin {
    pub fn new() -> (r: Self) {
        NomPlugin { lookup: NomLookup::new(), rules: NomRules::new() }
    }

    /// Display name: `Chữ Nôm (𡨸喃)`.
    pub fn name(&self) -> (r: &'static str)
        ensures
            r@ == "Chữ Nôm (𡨸喃)"@,
    {
        "Chữ Nôm (𡨸喃)"
    }

    /// Unique id: `nom`.
    pub fn id(&self) -> (r: &'static str)
        ensures
            r@ == nom_id(),
    {
        proof {
            reveal_strlit("nom");
        }
        "nom"
    }

    /// The input methods.
    pub fn input_methods(&self) -> (r: Vec<&'static str>)
        ensures
            str_views(r@) == nom_methods(),
    {
        proof {
            reveal_strlit("telex-nom");
            reveal_strlit("pinyin-nom");
        }
        let r = vec!["telex-nom", "pinyin-nom"];
        assert(r@[0]@ =~= telex_nom_id());
        assert(r@[1]@ =~= pinyin_nom_id());
        assert(str_views(r@) =~= nom_methods());
        r
    }

    /// A fresh instance of the input method with this id.
    pub fn create_input_method(&self, id: &str) -> (r: Option<InputMethod>)
        ensures
            r matches Some(m) ==> m.wf(),
            match r {
                Some(m) => nom_creates(id@) == Some(m@),
                None => nom_creates(id@) is None,
            },
    {
        if str_is(id, &['t', 'e', 'l', 'e', 'x', '-', 'n', 'o', 'm']) {
            Some(InputMethod::TelexNom(TelexNomMethod::new()))
        } else {
            None
        }
    }

    /// Character lookup.
    pub fn lookup(&self) -> (r: &NomLookup) {
        &self.lookup
    }

    /// Spelling rules.
    pub fn rules(&self) -> (r: &NomRules) {
        &self.rules
    }
}

impl Default for NomPlugin {
    fn default() -> (r: Self) {
        NomPlugin::new()
    }
}

impl InputMethodTrait for TelexNomMethod {
    open spec fn method_wf(&self) -> bool {
        self.wf()
    }

    fn name(&self) -> &'static str {
        "Telex-Nôm"
    }

    fn id(&self) -> &'static str {
        "telex-nom"
    }

    fn process<L: LookupProvider>(&mut self, key: char, buffer: &mut InputBuffer, lookup: &L) -> (r: Action) {
        TelexNomMethod::process(self, key, buffer, lookup)
    }

    fn process_backspace(&mut self, buffer: &mut InputBuffer) -> (r: Action) {
        TelexNomMethod::process_backspace(self, buffer)
    }

    fn reset(&mut self) {
        TelexNomMethod::reset(self)
    }

    fn can_undo(&self, buffer: &InputBuffer) -> bool {
        false
    }

    fn undo(&mut self, buffer: &mut InputBuffer) -> (r: Action) {
        Action::DoNothing
    }
}

/// A language plugin.
pub enum LanguagePlugin {
    /// Vietnamese
    Vietnamese(VietnamesePlugin),
    /// Chữ Nôm
    Nom(NomPlugin),
}

impl LanguagePlugin {
    pub open spec fn wf(&self) -> bool {
        match self {
            LanguagePlugin::Vietnamese(p) => p.wf(),
            LanguagePlugin::Nom(_) => true,
        }
    }

    /// The plugin's id.
    pub open spec fn id_spec(&self) -> Seq<char> {
        match self {
            LanguagePlugin::Vietnamese(_) => vietnamese_id(),
            LanguagePlugin::Nom(_) => nom_id(),
        }
    }

    /// The plugin's input methods, the default first.
    pub open spec fn methods_spec(&self) -> Seq<Seq<char>> {
        match self {
            LanguagePlugin::Vietnamese(_) => vietnamese_methods(),
            LanguagePlugin::Nom(_) => nom_methods(),
        }
    }

    /// The method that an id creates.
    pub open spec fn creates(&self, id: Seq<char>) -> Option<MethodModel> {
        match self {
            LanguagePlugin::Vietnamese(_) => vietnamese_creates(id),
            LanguagePlugin::Nom(_) => nom_creates(id),
        }
    }

    /// Display name.
    pub fn name(&self) -> (r: &'static str)
        ensures
            r@ == (match self {
                LanguagePlugin::Vietnamese(_) => "Tiếng Việt"@,
                LanguagePlugin::Nom(_) => "Chữ Nôm (𡨸喃)"@,
            }),
    {
        match self {
            LanguagePlugin::Vietnamese(p) => p.name(),
            LanguagePlugin::Nom(p) => p.name(),
        }
    }

    /// Unique id.
    pub fn id(&self) -> (r: &'static str)
        ensures
            r@ == self.id_spec(),
    {
        match self {
            LanguagePlugin::Vietnamese(p) => p.id(),
            LanguagePlugin::Nom(p) => p.id(),
        }
    }

    /// The input methods, the default first.
    pub fn input_methods(&self) -> (r: Vec<&'static str>)
        ensures
            str_views(r@) == self.methods_spec(),
    {
        match self {
            LanguagePlugin::Vietnamese(p) => p.input_methods(),
            LanguagePlugin::Nom(p) => p.input_methods(),
        }
    }

    /// A fresh instance of the input method with this id.
    pub fn create_input_method(&self, id: &str) -> (r: Option<InputMethod>)
        ensures
            r matches Some(m) ==> m.wf(),
            match r {
                Some(m) => self.creates(id@) == Some(m@),
                None => self.creates(id@) is None,
            },
    {
        match self {
            LanguagePlugin::Vietnamese(p) => p.create_input_method(id),
            LanguagePlugin::Nom(p) => p.create_input_method(id),
        }
    }

    /// Process a key with a method of this plugin, through its lookup.
    pub fn process_with(&self, method: &mut InputMethod, key: char, buffer: &mut InputBuffer) -> (r: Action)
        requires
            self.wf(),
            old(method).wf(),
        ensures
            final(method).wf(),
            final(method)@ == method_process(old(method)@, key),
            old(method)@ matches MethodModel::Telex(t) ==> r@ == telex_process(t, key).1
                && telex_buffer_after(old(buffer)@, final(buffer)@, t, key),
            old(method)@ matches MethodModel::TelexNom(s) ==> r@ == nom_process(s, key).1,
            (old(method)@ is Vni || old(method)@ is Viqr) ==> commit_key_spec(old(buffer)@, final(buffer)@, key, r@),
    {
        match self {
            LanguagePlugin::Vietnamese(p) => method.process(key, buffer, p.lookup()),
            LanguagePlugin::Nom(p) => method.process(key, buffer, p.lookup()),
        }
    }
}

} // verus!
