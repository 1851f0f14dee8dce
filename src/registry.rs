use vstd::prelude::*;
use crate::plugin::{LanguagePlugin, str_views};
use crate::text::{chars_of, chars_eq, string_of, push_chars};

verus! {

/// Errors of registry operations.
#[derive(Debug, Clone, PartialEq, Eq)]
pub enum RegistryError {
    /// A plugin with this id is already registered.
    DuplicateId(String),
    /// No language with this id.
    LanguageNotFound(String),
    /// No input method with this id in the current language.
    InputMethodNotFound(String),
}

impl RegistryError {
    /// A message describing the error.
    pub fn to_string(&self) -> (r: String) {
        let (before, id, after): (&str, &String, &str) = match self {
            RegistryError::DuplicateId(id) => ("Plugin with ID '", id, "' already exists"),
            RegistryError::LanguageNotFound(id) => ("Language '", id, "' not found"),
            RegistryError::InputMethodNotFound(id) => ("Input method '", id, "' not found"),
        };
        let mut r = before.to_owned();
        push_chars(&mut r, chars_of(id.as_str()).as_slice());
        push_chars(&mut r, chars_of(after).as_slice());
        r
    }
}

/// The ids of a sequence of plugins.
pub open spec fn ids_of(ps: Seq<LanguagePlugin>) -> Seq<Seq<char>> {
    ps.map_values(|p: LanguagePlugin| p.id_spec())
}

/// Registry of language plugins, keyed by their ids, with the current
/// language and input method.
pub struct PluginRegistry {
    /// Registered plugins, in order of registration; ids are unique
    plugins: Vec<LanguagePlugin>,
    /// Language in use
    current_language: Option<String>,
    /// Input method in use
    current_input_method: Option<String>,
}

/// The view of an optional string.
pub open spec fn opt_view(s: Option<String>) -> Option<Seq<char>> {
    match s {
        Some(x) => Some(x@),
        None => None,
    }
}

impl PluginRegistry {
    /// The registered plugins, in order of registration.
    pub closed spec fn plugins(&self) -> Seq<LanguagePlugin> {
        self.plugins@
    }

    /// Their ids.
    pub open spec fn ids(&self) -> Seq<Seq<char>> {
        ids_of(self.plugins())
    }

    /// The id of the current language.
    pub closed spec fn language(&self) -> Option<Seq<char>> {
        opt_view(self.current_language)
    }

    /// The id of the current input method.
    pub closed spec fn method_id(&self) -> Option<Seq<char>> {
        opt_view(self.current_input_method)
    }

    /// Ids are unique and every plugin is built.
    pub open spec fn wf(&self) -> bool {
        &&& self.ids().no_duplicates()
        &&& forall|i: int| 0 <= i < self.plugins().len() ==> #[trigger] self.plugins()[i].wf()
    }

    /// Position of the plugin of the current language, when it is
    /// registered.
    pub open spec fn current_position(&self) -> Option<int> {
        match self.language() {
            Some(l) => if self.ids().contains(l) {
                Some(self.ids().index_of(l))
            } else {
                None
            },
            None => None,
        }
    }

    pub fn new() -> (r: Self)
        ensures
            r.wf(),
            r.plugins() == Seq::<LanguagePlugin>::empty(),
            r.language() is None,
            r.method_id() is None,
    {
        let r = PluginRegistry { plugins: Vec::new(), current_language: None, current_input_method: None };
        assert(r.ids() =~= Seq::<Seq<char>>::empty());
        r
    }

    /// Position of the plugin with this id.
    fn position(&self, id: &[char]) -> (r: Option<usize>)
        ensures
            match r {
                Some(i) => i < self.plugins().len() && self.ids()[i as int] == id@,
                None => !self.ids().contains(id@),
            },
    {
        let mut i: usize = 0;
        while i < self.plugins.len()
            invariant
                i <= self.plugins@.len(),
                forall|j: int| 0 <= j < i ==> self.ids()[j] != id@,
            decreases self.plugins@.len() - i,
        {
            let pid = chars_of(self.plugins[i].id());
            if chars_eq(pid.as_slice(), id) {
                return Some(i);
            }
            i = i + 1;
        }
        None
    }

    /// Register a plugin; fails when its id is already registered.
    pub fn register(&mut self, plugin: LanguagePlugin) -> (r: Result<(), RegistryError>)
        requires
            old(self).wf(),
            plugin.wf(),
        ensures
            final(self).wf(),
            final(self).language() == old(self).language(),
            final(self).method_id() == old(self).method_id(),
            old(self).ids().contains(plugin.id_spec()) ==> (r matches Err(RegistryError::DuplicateId(s))
                && s@ == plugin.id_spec() && final(self).plugins() == old(self).plugins()),
            !old(self).ids().contains(plugin.id_spec()) ==> r is Ok && final(self).plugins()
                == old(self).plugins().push(plugin),
    {
        let id = chars_of(plugin.id());
        if let Some(_) = self.position(id.as_slice()) {
            return Err(RegistryError::DuplicateId(string_of(id.as_slice())));
        }
        let ghost before = self.plugins@;
        self.plugins.push(plugin);
        proof {
            assert(self.ids() =~= ids_of(before).push(plugin.id_spec()));
            assert forall|a: int, b: int| 0 <= a < b < self.ids().len() implies self.ids()[a] != self.ids()[b] by {
                if b == before.len() {
                    assert(ids_of(before)[a] == self.ids()[a]);
                }
            }
        }
        Ok(())
    }

    /// Remove the plugin with this id, and hand it back.
    pub fn unregister(&mut self, id: &str) -> (r: Option<LanguagePlugin>)
        requires
            old(self).wf(),
        ensures
            final(self).wf(),
            final(self).language() == old(self).language(),
            final(self).method_id() == old(self).method_id(),
            !old(self).ids().contains(id@) ==> r is None && final(self).plugins() == old(self).plugins(),
            old(self).ids().contains(id@) ==> (r matches Some(p) && p.id_spec() == id@
                && final(self).plugins() == old(self).plugins().remove(old(self).ids().index_of(id@))),
    {
        let key = chars_of(id);
        match self.position(key.as_slice()) {
            None => None,
            Some(i) => {
                let ghost before = self.plugins@;
                let p = self.plugins.remove(i);
                proof {
                    assert(ids_of(before).index_of(id@) == i) by {
                        let k = ids_of(before).index_of(id@);
                        assert(ids_of(before)[k] == id@);
                    }
                    assert(self.ids() =~= ids_of(before).remove(i as int));
                    assert forall|a: int, b: int| 0 <= a < b < self.ids().len() implies self.ids()[a] != self.ids()[b] by {
                        let a2 = if a < i { a } else { a + 1 };
                        let b2 = if b < i { b } else { b + 1 };
                        assert(self.ids()[a] == ids_of(before)[a2]);
                        assert(self.ids()[b] == ids_of(before)[b2]);
                    }
                    assert forall|j: int| 0 <= j < self.plugins().len() implies #[trigger] self.plugins()[j].wf() by {
                        let j2 = if j < i { j } else { j + 1 };
                        assert(self.plugins()[j] == before[j2]);
                    }
                }
                Some(p)
            },
        }
    }

    /// The plugin with this id.
    pub fn get(&self, id: &str) -> (r: Option<&LanguagePlugin>)
        ensures
            !self.ids().contains(id@) ==> r is None,
            self.ids().contains(id@) ==> (r matches Some(p) && p.id_spec() == id@),
    {
        let key = chars_of(id);
        match self.position(key.as_slice()) {
            None => None,
            Some(i) => Some(&self.plugins[i]),
        }
    }

    /// Ids of all registered languages, in order of registration.
    pub fn languages(&self) -> (r: Vec<&'static str>)
        ensures
            str_views(r@) == self.ids(),
    {
        let mut r: Vec<&'static str> = Vec::new();
        let mut i: usize = 0;
        while i < self.plugins.len()
            invariant
                i <= self.plugins@.len(),
                str_views(r@) == self.ids().subrange(0, i as int),
            decreases self.plugins@.len() - i,
        {
            let ghost prev = r@;
            let pid = self.plugins[i].id();
            r.push(pid);
            assert(self.ids()[i as int] == pid@);
            assert(str_views(r@) =~= str_views(prev).push(pid@));
            i = i + 1;
            assert(str_views(r@) =~= self.ids().subrange(0, i as int));
        }
        assert(self.ids().subrange(0, self.ids().len() as int) =~= self.ids());
        r
    }

    /// Set the current language; when no input method is chosen yet, the
    /// language's first one is.
    pub fn set_language(&mut self, id: &str) -> (r: Result<(), RegistryError>)
        requires
            old(self).wf(),
        ensures
            final(self).wf(),
            final(self).plugins() == old(self).plugins(),
            !old(self).ids().contains(id@) ==> (r matches Err(RegistryError::LanguageNotFound(s)) && s@ == id@
                && final(self).language() == old(self).language()
                && final(self).method_id() == old(self).method_id()),
            old(self).ids().contains(id@) ==> r is Ok && final(self).language() == Some(id@)
                && final(self).method_id() == (match old(self).method_id() {
                    Some(m) => Some(m),
                    None => {
                        let ms = old(self).plugins()[old(self).ids().index_of(id@)].methods_spec();
                        if ms.len() > 0 { Some(ms[0]) } else { None }
                    },
                }),
    {
        let key = chars_of(id);
        match self.position(key.as_slice()) {
            None => Err(RegistryError::LanguageNotFound(string_of(key.as_slice()))),
            Some(i) => {
                proof {
                    let k = self.ids().index_of(id@);
                    assert(self.ids()[k] == id@);
                    assert(k == i);
                }
                self.current_language = Some(string_of(key.as_slice()));
                if self.current_input_method.is_none() {
                    let methods = self.plugins[i].input_methods();
                    if methods.len() > 0 {
                        let first = chars_of(methods[0]);
                        assert(first@ == str_views(methods@)[0]);
                        self.current_input_method = Some(string_of(first.as_slice()));
                    }
                }
                Ok(())
            },
        }
    }

    /// Set the current input method; it must be one of the current
    /// language's.
    pub fn set_input_method(&mut self, id: &str) -> (r: Result<(), RegistryError>)
        requires
            old(self).wf(),
        ensures
            final(self).wf(),
            final(self).plugins() == old(self).plugins(),
            final(self).language() == old(self).language(),
            (match old(self).current_position() {
                Some(p) => old(self).plugins()[p].methods_spec().contains(id@),
                None => false,
            }) ==> r is Ok && final(self).method_id() == Some(id@),
            !(match old(self).current_position() {
                Some(p) => old(self).plugins()[p].methods_spec().contains(id@),
                None => false,
            }) ==> (r matches Err(RegistryError::InputMethodNotFound(s)) && s@ == id@
                && final(self).method_id() == old(self).method_id()),
    {
        let key = chars_of(id);
        if let Some(lang) = &self.current_language {
            let lang_chars = chars_of(lang.as_str());
            if let Some(i) = self.position(lang_chars.as_slice()) {
                proof {
                    let k = self.ids().index_of(lang@);
                    assert(self.ids()[k] == lang@);
                    assert(k == i);
                    assert(self.current_position() == Some(i as int));
                }
                let methods = self.plugins[i].input_methods();
                let mut j: usize = 0;
                while j < methods.len()
                    invariant
                        j <= methods@.len(),
                        i < self.plugins@.len(),
                        key@ == id@,
                        self.wf(),
                        self.plugins() == old(self).plugins(),
                        self.language() == old(self).language(),
                        self.method_id() == old(self).method_id(),
                        self.current_position() == Some(i as int),
                        str_views(methods@) == self.plugins()[i as int].methods_spec(),
                        forall|q: int| 0 <= q < j ==> str_views(methods@)[q] != key@,
                    decreases methods@.len() - j,
                {
                    let m = chars_of(methods[j]);
                    if chars_eq(m.as_slice(), key.as_slice()) {
                        assert(str_views(methods@)[j as int] == id@);
                        self.current_input_method = Some(string_of(key.as_slice()));
                        return Ok(());
                    }
                    j = j + 1;
                }
            }
        }
        Err(RegistryError::InputMethodNotFound(string_of(key.as_slice())))
    }

    /// The plugin of the current language.
    pub fn current_plugin(&self) -> (r: Option<&LanguagePlugin>)
        requires
            self.wf(),
        ensures
            match self.current_position() {
                Some(p) => r matches Some(x) && *x == self.plugins()[p],
                None => r is None,
            },
    {
        match &self.current_language {
            None => None,
            Some(lang) => {
                let key = chars_of(lang.as_str());
                match self.position(key.as_slice()) {
                    None => None,
                    Some(i) => {
                        proof {
                            let k = self.ids().index_of(lang@);
                            assert(self.ids()[k] == lang@);
                            assert(k == i);
                        }
                        Some(&self.plugins[i])
                    },
                }
            },
        }
    }

    /// The id of the current language.
    pub fn current_language_id(&self) -> (r: Option<&str>)
        ensures
            match r {
                Some(s) => self.language() == Some(s@),
                None => self.language() is None,
            },
    {
        match &self.current_language {
            Some(s) => Some(s.as_str()),
            None => None,
        }
    }

    /// The id of the current input method.
    pub fn current_input_method_id(&self) -> (r: Option<&str>)
        ensures
            match r {
                Some(s) => self.method_id() == Some(s@),
                None => self.method_id() is None,
            },
    {
        match &self.current_input_method {
            Some(s) => Some(s.as_str()),
            None => None,
        }
    }
}

impl Default for PluginRegistry {
    fn default() -> (r: Self)
        ensures
            r.wf(),
    {
        PluginRegistry::new()
    }
}

} // verus!
