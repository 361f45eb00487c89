//! The settings that outlive a session: the named templates, each a copy of
//! a document's steps, and the program that edits a step.

use crate::document::clone_steps;
use crate::err_msg::StateError;
use crate::test_step::{steps_view, StepView, TestStep};
use vstd::prelude::*;

verus! {

/// What the settings hold. Template `i` has the name `names[i]` and the
/// steps `documents[i]`.
pub struct ConfigView {
    pub names: Seq<Seq<char>>,
    pub documents: Seq<Seq<StepView>>,
    pub editor: Seq<char>,
}

impl ConfigView {
    /// Every template has a name and steps, and no name occurs twice.
    pub open spec fn wf(self) -> bool {
        &&& self.names.len() == self.documents.len()
        &&& self.names.no_duplicates()
    }

    /// Whether a template is called `name`.
    pub open spec fn contains(self, name: Seq<char>) -> bool {
        self.names.contains(name)
    }

    /// The steps of the template called `name`.
    pub open spec fn document(self, name: Seq<char>) -> Seq<StepView> {
        self.documents[self.names.index_of(name)]
    }

    /// The settings once `steps` are saved as `name`: in the place of the
    /// template of that name where there is one, behind the others
    /// otherwise.
    pub open spec fn save(self, name: Seq<char>, steps: Seq<StepView>) -> ConfigView {
        if self.contains(name) {
            ConfigView {
                documents: self.documents.update(self.names.index_of(name), steps),
                ..self
            }
        } else {
            ConfigView {
                names: self.names.push(name),
                documents: self.documents.push(steps),
                ..self
            }
        }
    }

    /// What loading the template called `name` gives.
    pub open spec fn load(self, name: Seq<char>) -> Result<Seq<StepView>, StateError> {
        if self.contains(name) {
            Ok(self.document(name))
        } else {
            Err(StateError::NotFound)
        }
    }

    /// The settings without the template called `name`.
    pub open spec fn delete(self, name: Seq<char>) -> ConfigView {
        if self.contains(name) {
            ConfigView {
                names: self.names.remove(self.names.index_of(name)),
                documents: self.documents.remove(self.names.index_of(name)),
                ..self
            }
        } else {
            self
        }
    }
}

/// Saving keeps the settings well formed.
pub proof fn lemma_save_wf(store: ConfigView, name: Seq<char>, steps: Seq<StepView>)
    requires
        store.wf(),
    ensures
        store.save(name, steps).wf(),
{
    if !store.contains(name) {
        let names = store.names.push(name);
        assert forall|i: int, j: int| 0 <= i < names.len() && 0 <= j < names.len() && i != j implies names[i] != names[j] by {
            if i < store.names.len() && j < store.names.len() {
            } else if i < store.names.len() {
                assert(store.names.contains(store.names[i]));
            } else {
                assert(store.names.contains(store.names[j]));
            }
        }
    }
}

/// Deleting keeps the settings well formed, and the deleted name is gone.
pub proof fn lemma_delete_wf(store: ConfigView, name: Seq<char>)
    requires
        store.wf(),
    ensures
        store.delete(name).wf(),
        !store.delete(name).contains(name),
{
    if store.contains(name) {
        let k = store.names.index_of(name);
        let names = store.names.remove(k);
        assert forall|i: int, j: int| 0 <= i < names.len() && 0 <= j < names.len() && i != j implies names[i] != names[j] by {
            let a = if i < k { i } else { i + 1 };
            let b = if j < k { j } else { j + 1 };
            assert(names[i] == store.names[a]);
            assert(names[j] == store.names[b]);
        }
        if names.contains(name) {
            let i = choose|i: int| 0 <= i < names.len() && names[i] == name;
            let a = if i < k { i } else { i + 1 };
            assert(names[i] == store.names[a]);
        }
    }
}

/// Loading a name that was just saved gives the steps that were saved.
pub proof fn lemma_load_after_save(store: ConfigView, name: Seq<char>, steps: Seq<StepView>)
    requires
        store.wf(),
    ensures
        store.save(name, steps).load(name) == Ok::<Seq<StepView>, StateError>(steps),
{
    lemma_save_wf(store, name, steps);
    let after = store.save(name, steps);
    if store.contains(name) {
        let k = store.names.index_of(name);
        assert(after.names[k] == name);
    } else {
        let k = store.names.len() as int;
        assert(after.names[k] == name);
        assert(after.names.contains(name));
        let found = after.names.index_of(name);
        assert(found == k);
    }
}

/// Saving under one name changes no template of another name.
pub proof fn lemma_save_keeps_others(
    store: ConfigView,
    name: Seq<char>,
    steps: Seq<StepView>,
    other: Seq<char>,
)
    requires
        store.wf(),
        other != name,
    ensures
        store.save(name, steps).load(other) == store.load(other),
{
    lemma_save_wf(store, name, steps);
    let after = store.save(name, steps);
    if store.contains(other) {
        let k = store.names.index_of(other);
        assert(after.names[k] == other);
        assert(after.names.contains(other));
        let found = after.names.index_of(other);
        assert(found == k);
    } else if after.contains(other) {
        let found = after.names.index_of(other);
        if found < store.names.len() {
            assert(store.names[found] == other);
        }
    }
}

/// A named copy of a document's steps.
#[derive(Debug)]
pub struct Template {
    pub name: String,
    pub steps: Vec<TestStep>,
}

/// The names of `templates`, in order.
pub open spec fn template_names(templates: Seq<Template>) -> Seq<Seq<char>> {
    templates.map_values(|t: Template| t.name@)
}

/// The steps of `templates`, in order.
pub open spec fn template_documents(templates: Seq<Template>) -> Seq<Seq<StepView>> {
    templates.map_values(|t: Template| steps_view(t.steps@))
}

/// The templates, each under its own name, and the editor program.
#[derive(Debug)]
pub struct Config {
    templates: Vec<Template>,
    editor: String,
}

impl View for Config {
    type V = ConfigView;

    closed spec fn view(&self) -> ConfigView {
        ConfigView {
            names: template_names(self.templates@),
            documents: template_documents(self.templates@),
            editor: self.editor@,
        }
    }
}

impl Config {
    #[verifier::type_invariant]
    spec fn names_differ(&self) -> bool {
        template_names(self.templates@).no_duplicates()
    }

    /// Takes the templates out, and leaves none.
    fn take(&mut self) -> (templates: Vec<Template>)
        ensures
            templates == old(self).templates,
            template_names(templates@).no_duplicates(),
            final(self).templates@.len() == 0,
            final(self).editor == old(self).editor,
    {
        proof {
            use_type_invariant(&*self);
        }
        let mut templates: Vec<Template> = Vec::new();
        std::mem::swap(&mut self.templates, &mut templates);
        templates
    }

    /// Puts templates into the settings that `take` left without any.
    fn put(&mut self, templates: Vec<Template>)
        requires
            template_names(templates@).no_duplicates(),
        ensures
            final(self).templates == templates,
            final(self).editor == old(self).editor,
    {
        let mut templates = templates;
        std::mem::swap(&mut self.templates, &mut templates);
    }

    /// The index of the template called `name`.
    fn position(templates: &Vec<Template>, name: &String) -> (r: Option<usize>)
        requires
            template_names(templates@).no_duplicates(),
        ensures
            match r {
                Some(i) => {
                    &&& i < templates@.len()
                    &&& template_names(templates@).contains(name@)
                    &&& template_names(templates@).index_of(name@) == i
                },
                None => !template_names(templates@).contains(name@),
            },
    {
        let ghost names = template_names(templates@);
        let mut i: usize = 0;
        while i < templates.len()
            invariant
                i <= templates.len(),
                names == template_names(templates@),
                names.no_duplicates(),
                forall|j: int| 0 <= j < i ==> names[j] != name@,
            decreases templates.len() - i,
        {
            if templates[i].name == *name {
                assert(names[i as int] == name@);
                return Some(i);
            }
            i = i + 1;
        }
        None
    }

    /// Settings without templates, for the editor program `editor`.
    pub fn new(editor: String) -> (config: Config)
        ensures
            config@.names == Seq::<Seq<char>>::empty(),
            config@.documents == Seq::<Seq<StepView>>::empty(),
            config@.editor == editor@,
            config@.wf(),
    {
        Config { templates: Vec::new(), editor }
    }

    /// The editor program.
    pub fn editor(&self) -> (editor: &String)
        ensures
            editor@ == self@.editor,
    {
        &self.editor
    }

    /// The templates, in the order in which their names were first saved.
    /// No two have the same name.
    pub fn templates(&self) -> (templates: &Vec<Template>)
        ensures
            template_names(templates@) == self@.names,
            template_documents(templates@) == self@.documents,
            self@.wf(),
    {
        proof {
            use_type_invariant(self);
        }
        &self.templates
    }

    /// Saves a copy of `steps` as the template called `name`, in the place
    /// of the one that had the name, if any.
    pub fn save(&mut self, name: String, steps: &Vec<TestStep>)
        ensures
            final(self)@ == old(self)@.save(name@, steps_view(steps@)),
            final(self)@.wf(),
            final(self)@.load(name@) == Ok::<Seq<StepView>, StateError>(steps_view(steps@)),
    {
        let ghost before = self@;
        let mut templates = self.take();
        assert(before.wf());
        let copy = clone_steps(steps);
        match Config::position(&templates, &name) {
            Some(i) => {
                let mut entry = Template { name, steps: copy };
                std::mem::swap(&mut templates[i], &mut entry);
                assert(template_names(templates@) == before.names);
                assert(template_documents(templates@) == before.documents.update(
                    i as int,
                    steps_view(steps@),
                ));
            },
            None => {
                templates.push(Template { name, steps: copy });
                assert(template_names(templates@) == before.names.push(name@));
                assert(template_documents(templates@) == before.documents.push(
                    steps_view(steps@),
                ));
            },
        }
        proof {
            lemma_save_wf(before, name@, steps_view(steps@));
            lemma_load_after_save(before, name@, steps_view(steps@));
        }
        self.put(templates);
    }

    /// A copy of the steps of the template called `name`.
    pub fn load(&self, name: &str) -> (r: Result<Vec<TestStep>, StateError>)
        ensures
            match self@.load(name@) {
                Ok(steps) => r is Ok && steps_view(r->Ok_0@) == steps,
                Err(e) => r == Err::<Vec<TestStep>, StateError>(e),
            },
    {
        proof {
            use_type_invariant(self);
        }
        match Config::position(&self.templates, &name.to_owned()) {
            Some(i) => Ok(clone_steps(&self.templates[i].steps)),
            None => Err(StateError::NotFound),
        }
    }

    /// Takes the template called `name` out and returns its steps.
    pub fn delete(&mut self, name: &str) -> (r: Result<Vec<TestStep>, StateError>)
        ensures
            match old(self)@.load(name@) {
                Ok(steps) => r is Ok && steps_view(r->Ok_0@) == steps,
                Err(e) => r == Err::<Vec<TestStep>, StateError>(e),
            },
            final(self)@ == old(self)@.delete(name@),
            final(self)@.wf(),
    {
        let ghost before = self@;
        let mut templates = self.take();
        assert(before.wf());
        proof {
            lemma_delete_wf(before, name@);
        }
        match Config::position(&templates, &name.to_owned()) {
            Some(i) => {
                let entry = templates.remove(i);
                assert(template_names(templates@) == before.names.remove(i as int));
                assert(template_documents(templates@) == before.documents.remove(i as int));
                self.put(templates);
                Ok(entry.steps)
            },
            None => {
                self.put(templates);
                Err(StateError::NotFound)
            },
        }
    }
}

} // verus!
