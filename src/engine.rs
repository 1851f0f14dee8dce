use vstd::prelude::*;
use crate::buffer::InputBuffer;
use crate::plugin::{
    InputMethod, LanguagePlugin, MethodModel, method_process, method_backspace, method_reset,
    str_views,
};
use crate::registry::{PluginRegistry, RegistryError};
use crate::telex::{telex_process, telex_backspace, telex_buffer_after};
use crate::types::{Action, ActionModel};
use crate::methods::{commit_key_spec, drop_key_spec};

verus! {

/// The view of an optional input method.
pub open spec fn method_view(m: Option<InputMethod>) -> Option<MethodModel> {
    match m {
        Some(x) => Some(x@),
        None => None,
    }
}

/// Main engine: a registry of plugins, the buffer, and the active input
/// method.
pub struct Engine {
    /// Plugin registry
    registry: PluginRegistry,
    /// Input buffer
    buffer: InputBuffer,
    /// Current input method instance
    current_method: Option<InputMethod>,
}

impl Engine {
    /// The registry.
    pub closed spec fn registry_view(&self) -> PluginRegistry {
        self.registry
    }

    /// The buffer's entries.
    pub closed spec fn buffer_view(&self) -> Seq<(char, bool)> {
        self.buffer@
    }

    /// The active input method's state.
    pub closed spec fn method(&self) -> Option<MethodModel> {
        method_view(self.current_method)
    }

    /// The registry and the active method are consistent.
    pub closed spec fn wf(&self) -> bool {
        &&& self.registry.wf()
        &&& self.current_method matches Some(m) ==> m.wf()
    }

    /// The method that the registry's current language and input method
    /// select, fresh.
    pub open spec fn selected(r: PluginRegistry) -> Option<MethodModel> {
        match (r.current_position(), r.method_id()) {
            (Some(p), Some(m)) => r.plugins()[p].creates(m),
            _ => None,
        }
    }

    /// The action that a key gets: from the active method when a plugin is
    /// current, else the key passes through.
    pub open spec fn key_outcome(&self, key: char) -> ActionModel {
        match (self.method(), self.registry_view().current_position()) {
            (Some(MethodModel::Telex(t)), Some(_)) => telex_process(t, key).1,
            (Some(MethodModel::TelexNom(s)), Some(_)) => crate::nom::nom_process(s, key).1,
            (Some(_), Some(_)) => ActionModel::Commit(seq![key]),
            _ => ActionModel::DoNothing,
        }
    }

    /// The active method's state after a key.
    pub open spec fn method_after_key(&self, key: char) -> Option<MethodModel> {
        match (self.method(), self.registry_view().current_position()) {
            (Some(m), Some(_)) => Some(method_process(m, key)),
            _ => self.method(),
        }
    }

    /// The action that backspace gets.
    pub open spec fn backspace_outcome(&self) -> ActionModel {
        match self.method() {
            Some(MethodModel::Telex(t)) => telex_backspace(t).1,
            Some(MethodModel::TelexNom(s)) => if s.len() > 0 {
                ActionModel::Replace { delete: 1, insert: Seq::empty() }
            } else {
                ActionModel::DoNothing
            },
            Some(_) => if self.buffer_view().len() == 0 {
                ActionModel::DoNothing
            } else {
                ActionModel::Replace { delete: 1, insert: Seq::empty() }
            },
            None => ActionModel::DoNothing,
        }
    }

    /// The active method's state after backspace.
    pub open spec fn method_after_backspace(&self) -> Option<MethodModel> {
        match self.method() {
            Some(m) => Some(method_backspace(m)),
            None => None,
        }
    }

    /// Create an engine with an empty registry.
    pub fn new() -> (r: Self)
        ensures
            r.wf(),
            r.registry_view().plugins().len() == 0,
            r.registry_view().language() is None,
            r.registry_view().method_id() is None,
            r.method() is None,
            r.buffer_view().len() == 0,
    {
        Engine { registry: PluginRegistry::new(), buffer: InputBuffer::new(), current_method: None }
    }

    /// Create an engine with an existing registry; no method is active until
    /// a language or input method is set.
    pub fn with_registry(registry: PluginRegistry) -> (r: Self)
        requires
            registry.wf(),
        ensures
            r.wf(),
            r.registry_view() == registry,
            r.method() is None,
            r.buffer_view().len() == 0,
    {
        Engine { registry, buffer: InputBuffer::new(), current_method: None }
    }

    /// Register a language plugin.
    pub fn register(&mut self, plugin: LanguagePlugin) -> (r: Result<(), RegistryError>)
        requires
            old(self).wf(),
            plugin.wf(),
        ensures
            final(self).wf(),
            final(self).method() == old(self).method(),
            final(self).buffer_view() == old(self).buffer_view(),
            final(self).registry_view().language() == old(self).registry_view().language(),
            final(self).registry_view().method_id() == old(self).registry_view().method_id(),
            old(self).registry_view().ids().contains(plugin.id_spec()) ==> (r matches Err(
                RegistryError::DuplicateId(s),
            ) && s@ == plugin.id_spec()) && final(self).registry_view().plugins()
                == old(self).registry_view().plugins(),
            !old(self).registry_view().ids().contains(plugin.id_spec()) ==> r is Ok
                && final(self).registry_view().plugins() == old(self).registry_view().plugins().push(plugin),
    {
        self.registry.register(plugin)
    }

    /// Set the current language; on success the active method is created
    /// afresh from the selection.
    pub fn set_language(&mut self, id: &str) -> (r: Result<(), RegistryError>)
        requires
            old(self).wf(),
        ensures
            final(self).wf(),
            final(self).registry_view().plugins() == old(self).registry_view().plugins(),
            final(self).buffer_view() == old(self).buffer_view(),
            !old(self).registry_view().ids().contains(id@) ==> (r matches Err(
                RegistryError::LanguageNotFound(s),
            ) && s@ == id@) && final(self).method() == old(self).method()
                && final(self).registry_view().language() == old(self).registry_view().language()
                && final(self).registry_view().method_id() == old(self).registry_view().method_id(),
            old(self).registry_view().ids().contains(id@) ==> r is Ok
                && final(self).registry_view().language() == Some(id@)
                && final(self).registry_view().method_id() == (match old(self).registry_view().method_id() {
                    Some(m) => Some(m),
                    None => {
                        let ms = old(self).registry_view().plugins()[old(self).registry_view().ids().index_of(
                            id@,
                        )].methods_spec();
                        if ms.len() > 0 { Some(ms[0]) } else { None }
                    },
                })
                && final(self).method() == Engine::selected(final(self).registry_view()),
    {
        self.registry.set_language(id)?;
        self.update_input_method();
        Ok(())
    }

    /// Set the current input method; on success the active method is
    /// created afresh.
    pub fn set_input_method(&mut self, id: &str) -> (r: Result<(), RegistryError>)
        requires
            old(self).wf(),
        ensures
            final(self).wf(),
            final(self).registry_view().plugins() == old(self).registry_view().plugins(),
            final(self).registry_view().language() == old(self).registry_view().language(),
            final(self).buffer_view() == old(self).buffer_view(),
            r is Ok ==> final(self).registry_view().method_id() == Some(id@)
                && final(self).method() == Engine::selected(final(self).registry_view()),
            r is Err ==> (r matches Err(RegistryError::InputMethodNotFound(s)) && s@ == id@)
                && final(self).method() == old(self).method()
                && final(self).registry_view().method_id() == old(self).registry_view().method_id(),
            (match old(self).registry_view().current_position() {
                Some(p) => old(self).registry_view().plugins()[p].methods_spec().contains(id@),
                None => false,
            }) <==> r is Ok,
    {
        self.registry.set_input_method(id)?;
        self.update_input_method();
        Ok(())
    }

    /// Create the active method from the current selection.
    fn update_input_method(&mut self)
        requires
            old(self).registry.wf(),
        ensures
            final(self).wf(),
            final(self).registry == old(self).registry,
            final(self).buffer@ == old(self).buffer@,
            final(self).method() == Engine::selected(final(self).registry_view()),
    {
        self.current_method = None;
        if let Some(plugin) = self.registry.current_plugin() {
            if let Some(method_id) = self.registry.current_input_method_id() {
                let created = plugin.create_input_method(method_id);
                self.current_method = created;
            }
        }
    }

    /// Process one key through the active method; with no plugin or method
    /// active the key passes through.
    pub fn process(&mut self, key: char) -> (r: Action)
        requires
            old(self).wf(),
        ensures
            final(self).wf(),
            final(self).registry_view() == old(self).registry_view(),
            r@ == old(self).key_outcome(key),
            final(self).method() == old(self).method_after_key(key),
            match (old(self).method(), old(self).registry_view().current_position()) {
                (Some(m), Some(_)) => {
                    &&& final(self).method() == Some(method_process(m, key))
                    &&& m matches MethodModel::Telex(t) ==> r@ == telex_process(t, key).1
                        && telex_buffer_after(old(self).buffer_view(), final(self).buffer_view(), t, key)
                    &&& (m is Vni || m is Viqr) ==> commit_key_spec(old(self).buffer_view(), final(self).buffer_view(), key, r@)
                },
                _ => r@ == ActionModel::DoNothing && final(self).method() == old(self).method(),
            },
    {
        match (&mut self.current_method, self.registry.current_plugin()) {
            (Some(method), Some(plugin)) => plugin.process_with(method, key, &mut self.buffer),
            _ => Action::DoNothing,
        }
    }

    /// Process backspace through the active method.
    pub fn process_backspace(&mut self) -> (r: Action)
        requires
            old(self).wf(),
        ensures
            final(self).wf(),
            final(self).registry_view() == old(self).registry_view(),
            r@ == old(self).backspace_outcome(),
            final(self).method() == old(self).method_after_backspace(),
            match old(self).method() {
                Some(m) => {
                    &&& final(self).method() == Some(method_backspace(m))
                    &&& m matches MethodModel::Telex(t) ==> r@ == telex_backspace(t).1
                    &&& (m is Vni || m is Viqr) ==> drop_key_spec(old(self).buffer_view(), final(self).buffer_view(), r@)
                },
                None => r@ == ActionModel::DoNothing && final(self).method() == old(self).method(),
            },
    {
        match &mut self.current_method {
            Some(method) => method.process_backspace(&mut self.buffer),
            None => Action::DoNothing,
        }
    }

    /// Clear the buffer and reset the active method.
    pub fn reset(&mut self)
        requires
            old(self).wf(),
        ensures
            final(self).wf(),
            final(self).registry_view() == old(self).registry_view(),
            final(self).buffer_view().len() == 0,
            match old(self).method() {
                Some(m) => final(self).method() == Some(method_reset(m)),
                None => final(self).method() is None,
            },
    {
        self.buffer.clear();
        match &mut self.current_method {
            Some(method) => method.reset(),
            None => {},
        }
    }

    /// The buffer's characters.
    pub fn buffer_content(&self) -> (r: String)
        ensures
            r@ == crate::buffer::chars_of_entries(self.buffer_view()),
    {
        self.buffer.to_string()
    }

    /// Ids of the registered languages.
    pub fn languages(&self) -> (r: Vec<&'static str>)
        ensures
            str_views(r@) == self.registry_view().ids(),
    {
        self.registry.languages()
    }

    /// Input methods of the current language; none when no language is set.
    pub fn input_methods(&self) -> (r: Vec<&'static str>)
        requires
            self.wf(),
        ensures
            match self.registry_view().current_position() {
                Some(p) => str_views(r@) == self.registry_view().plugins()[p].methods_spec(),
                None => r@.len() == 0,
            },
    {
        match self.registry.current_plugin() {
            Some(plugin) => plugin.input_methods(),
            None => Vec::new(),
        }
    }

    /// Id of the current language.
    pub fn current_language(&self) -> (r: Option<&str>)
        ensures
            match r {
                Some(s) => self.registry_view().language() == Some(s@),
                None => self.registry_view().language() is None,
            },
    {
        self.registry.current_language_id()
    }

    /// Id of the current input method.
    pub fn current_input_method(&self) -> (r: Option<&str>)
        ensures
            match r {
                Some(s) => self.registry_view().method_id() == Some(s@),
                None => self.registry_view().method_id() is None,
            },
    {
        self.registry.current_input_method_id()
    }
}

impl Default for Engine {
    fn default() -> (r: Self)
        ensures
            r.wf(),
            r.method() is None,
    {
        Engine::new()
    }
}

} // verus!
