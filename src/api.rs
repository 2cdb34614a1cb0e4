//! The course tree as the web service describes it, and the walker's
//! decisions on it.

use vstd::prelude::*;

use crate::config::Module as ConfigModule;
use crate::text::{join_path, join_spec, strip_leading_slash, strip_slash};

pub mod modules;

use modules::Module;

verus! {

/// The path of a file: the service's file path, without its leading `/`,
/// below `path`, then the file name.
pub fn assemble_path(path: &str, api_filepath: &str, filename: &str) -> (r: String)
    ensures
        r@ == join_spec(join_spec(path@, strip_slash(api_filepath@)), filename@),
{
    let custom = strip_leading_slash(api_filepath);
    let dir = join_path(path, custom.as_str());
    join_path(dir.as_str(), filename)
}

/// The configured kind of a module of the tree; `None` for an unknown one.
pub open spec fn config_kind(m: Module) -> Option<ConfigModule> {
    match m {
        Module::Resource(_) => Option::Some(ConfigModule::Resource),
        Module::Folder(_) => Option::Some(ConfigModule::Folder),
        Module::Pdfannotator(_) => Option::Some(ConfigModule::Pdfannotator),
        Module::Assign(_) => Option::Some(ConfigModule::Assign),
        Module::Label(_) => Option::Some(ConfigModule::Label),
        Module::ApiUrl(_) => Option::Some(ConfigModule::Url),
        Module::Page(_) => Option::Some(ConfigModule::Page),
        Module::Quiz(_) => Option::Some(ConfigModule::Quiz),
        Module::Feedback(_) => Option::Some(ConfigModule::Feedback),
        Module::Glossary(_) => Option::Some(ConfigModule::Glossary),
        Module::Vpl(_) => Option::Some(ConfigModule::Vpl),
        Module::Lti(_) => Option::Some(ConfigModule::Lti),
        Module::Forum(_) => Option::Some(ConfigModule::Forum),
        Module::HsuForum(_) => Option::Some(ConfigModule::Hsuforum),
        Module::Grouptool(_) => Option::Some(ConfigModule::Grouptool),
        Module::Unknown => Option::None,
    }
}

/// The configured kind of a module of the tree (see `config_kind`).
pub fn config_module_of(m: &Module) -> (r: Option<ConfigModule>)
    ensures
        r == config_kind(*m),
{
    match m {
        Module::Resource(_) => Option::Some(ConfigModule::Resource),
        Module::Folder(_) => Option::Some(ConfigModule::Folder),
        Module::Pdfannotator(_) => Option::Some(ConfigModule::Pdfannotator),
        Module::Assign(_) => Option::Some(ConfigModule::Assign),
        Module::Label(_) => Option::Some(ConfigModule::Label),
        Module::ApiUrl(_) => Option::Some(ConfigModule::Url),
        Module::Page(_) => Option::Some(ConfigModule::Page),
        Module::Quiz(_) => Option::Some(ConfigModule::Quiz),
        Module::Feedback(_) => Option::Some(ConfigModule::Feedback),
        Module::Glossary(_) => Option::Some(ConfigModule::Glossary),
        Module::Vpl(_) => Option::Some(ConfigModule::Vpl),
        Module::Lti(_) => Option::Some(ConfigModule::Lti),
        Module::Forum(_) => Option::Some(ConfigModule::Forum),
        Module::HsuForum(_) => Option::Some(ConfigModule::Hsuforum),
        Module::Grouptool(_) => Option::Some(ConfigModule::Grouptool),
        Module::Unknown => Option::None,
    }
}

/// A module is archived when its kind is known and enabled.
pub open spec fn selected(m: Module, enabled: Seq<ConfigModule>) -> bool {
    match config_kind(m) {
        Option::Some(k) => enabled.contains(k),
        Option::None => false,
    }
}

/// One section of a course: its name and modules.
#[derive(Debug, Clone)]
pub struct CoreCourseGetContentsElement {
    pub id: u64,
    pub name: String,
    pub modules: Vec<Module>,
}

/// Which modules of a section are archived.
#[derive(Debug)]
pub struct ModuleSelection {
    /// Positions of the modules to archive, in order.
    pub selected: Vec<usize>,
    /// How many modules are passed over: unknown or not enabled.
    pub skipped: u64,
}

impl CoreCourseGetContentsElement {
    /// Splits the section's modules into those to archive, in order, and a
    /// count of those passed over.
    pub fn select_modules(&self, enabled: &Vec<ConfigModule>) -> (r: ModuleSelection)
        ensures
            r.selected@.len() + r.skipped == self.modules@.len(),
            forall|k: int|
                0 <= k < r.selected@.len() ==> {
                    &&& #[trigger] r.selected@[k] < self.modules@.len()
                    &&& selected(self.modules@[r.selected@[k] as int], enabled@)
                },
            forall|k: int, l: int|
                0 <= k < l < r.selected@.len() ==> r.selected@[k] < r.selected@[l],
            forall|i: int|
                0 <= i < self.modules@.len() && selected(#[trigger] self.modules@[i], enabled@)
                    ==> r.selected@.contains(i as usize),
    {
        let mut chosen: Vec<usize> = Vec::new();
        let mut skipped: u64 = 0;
        let mut i: usize = 0;
        while i < self.modules.len()
            invariant
                i <= self.modules@.len(),
                chosen@.len() + skipped == i,
                forall|k: int|
                    0 <= k < chosen@.len() ==> {
                        &&& #[trigger] chosen@[k] < i
                        &&& selected(self.modules@[chosen@[k] as int], enabled@)
                    },
                forall|k: int, l: int| 0 <= k < l < chosen@.len() ==> chosen@[k] < chosen@[l],
                forall|j: int|
                    0 <= j < i && selected(#[trigger] self.modules@[j], enabled@)
                        ==> chosen@.contains(j as usize),
            decreases self.modules@.len() - i,
        {
            let on = match config_module_of(&self.modules[i]) {
                Option::Some(kind) => contains_module(enabled, kind),
                Option::None => false,
            };
            if on {
                let ghost before = chosen@;
                chosen.push(i);
                assert forall|j: int|
                    0 <= j < i + 1 && selected(#[trigger] self.modules@[j], enabled@)
                        implies chosen@.contains(j as usize) by {
                    if j < i {
                        let w = choose|w: int| 0 <= w < before.len() && before[w] == j as usize;
                        assert(chosen@[w] == j as usize);
                    } else {
                        assert(chosen@[before.len() as int] == j as usize);
                    }
                }
            } else {
                skipped = skipped + 1;
            }
            i = i + 1;
        }
        ModuleSelection { selected: chosen, skipped }
    }
}

/// Whether `kind` is among the enabled kinds.
fn contains_module(enabled: &Vec<ConfigModule>, kind: ConfigModule) -> (r: bool)
    ensures
        r == enabled@.contains(kind),
{
    let mut i: usize = 0;
    while i < enabled.len()
        invariant
            i <= enabled@.len(),
            forall|j: int| 0 <= j < i ==> enabled@[j] != kind,
        decreases enabled@.len() - i,
    {
        if enabled[i] == kind {
            return true;
        }
        i = i + 1;
    }
    false
}

} // verus!
