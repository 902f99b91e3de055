//! From build files to modules: the part of a scan that needs no file system.

use vstd::prelude::*;
use vstd::string::*;
use crate::extract::{collect_module_dependencies, dependencies_of, ExtractError};
use crate::naming::{infer_module_name, module_name, NamingError};
use crate::render::{
    plain_document, records, to_plain_plant_uml_data, ModuleRecord, ModuleWithDependencies,
};

verus! {

/// A build file as it was found: its path and its text.
#[derive(Debug)]
pub struct BuildFile {
    pub path: String,
    pub contents: String,
}

/// What a `BuildFile` stands for: the two texts as characters.
pub struct BuildFileText {
    pub path: Seq<char>,
    pub contents: Seq<char>,
}

impl View for BuildFile {
    type V = BuildFileText;

    open spec fn view(&self) -> BuildFileText {
        BuildFileText { path: self.path@, contents: self.contents@ }
    }
}

/// The texts of a list of build files.
pub open spec fn file_texts(files: Seq<BuildFile>) -> Seq<BuildFileText> {
    files.map_values(|f: BuildFile| f@)
}

/// What is wrong with a build file.
#[derive(Debug, Clone, Copy, PartialEq, Eq)]
pub enum ScanFault {
    /// The dependencies of the build file could not be collected.
    Extract(ExtractError),
    /// The build file has dependencies and belongs to no module that has a name.
    Naming(NamingError),
}

/// Why a scan was given up: the place of the failing build file in the list,
/// and what is wrong with it.
#[derive(Debug, Clone, Copy, PartialEq, Eq)]
pub struct ScanError {
    pub file: usize,
    pub fault: ScanFault,
}

/// The module of one build file: none where the file declares no dependency;
/// else the module named after the file's directory, with the declared names.
pub open spec fn module_of(file: BuildFileText) -> Result<Option<ModuleRecord>, ScanFault> {
    match dependencies_of(file.contents) {
        None => Err(ScanFault::Extract(ExtractError::InvalidPattern)),
        Some(deps) => if deps.len() == 0 {
            Ok(None)
        } else {
            match module_name(file.path) {
                Err(e) => Err(ScanFault::Naming(e)),
                Ok(name) => Ok(Some(ModuleRecord { module: name, deps: deps })),
            }
        },
    }
}

/// The modules of the build files, in the order of the files, or the first
/// file that has a fault, with its fault.
pub open spec fn modules_of(files: Seq<BuildFileText>) -> Result<Seq<ModuleRecord>, ScanError>
    decreases files.len(),
{
    if files.len() == 0 {
        Ok(Seq::empty())
    } else {
        match modules_of(files.drop_last()) {
            Err(e) => Err(e),
            Ok(modules) => match module_of(files.last()) {
                Err(fault) => Err(ScanError { file: (files.len() - 1) as usize, fault: fault }),
                Ok(None) => Ok(modules),
                Ok(Some(module)) => Ok(modules.push(module)),
            },
        }
    }
}

/// A character that a search pattern for files reads as more than itself.
pub open spec fn is_glob_meta(c: char) -> bool {
    c == '?' || c == '*' || c == '[' || c == ']'
}

/// The text as a search pattern that matches this text and nothing else: each
/// character that a pattern reads as more than itself stands in brackets.
pub open spec fn glob_escaped(text: Seq<char>) -> Seq<char>
    decreases text.len(),
{
    if text.len() == 0 {
        Seq::empty()
    } else if is_glob_meta(text.last()) {
        glob_escaped(text.drop_last()) + seq!['[', text.last(), ']']
    } else {
        glob_escaped(text.drop_last()).push(text.last())
    }
}

/// `glob::Pattern::escape` of the glob crate: the text, character after
/// character, with each of `?`, `*`, `[` and `]` put between `[` and `]`.
#[verifier::external_body]
fn escape_glob(text: &str) -> (escaped: String)
    ensures
        escaped@ == glob_escaped(text@),
{
    glob::Pattern::escape(text)
}

/// The search pattern that finds the build files below the directory `root`:
/// the root is taken as a path, letter for letter, whatever characters it
/// holds.
pub fn gradle_file_pattern(root: &str) -> (pattern: String)
    ensures
        pattern@ == glob_escaped(root@) + "/**/*.gradle"@,
{
    let mut pattern = escape_glob(root);
    pattern.append("/**/*.gradle");
    pattern
}

/// A root that holds none of `?`, `*`, `[` and `]` stands in the search
/// pattern as it is.
pub proof fn lemma_plain_root_is_its_own_pattern(root: Seq<char>)
    requires
        forall|i: int| 0 <= i < root.len() ==> !is_glob_meta(#[trigger] root[i]),
    ensures
        glob_escaped(root) == root,
    decreases root.len(),
{
    if root.len() > 0 {
        assert(!is_glob_meta(root[root.len() - 1]));
        assert forall|i: int| 0 <= i < root.drop_last().len() implies !is_glob_meta(
            #[trigger] root.drop_last()[i],
        ) by {
            assert(root.drop_last()[i] == root[i]);
        }
        lemma_plain_root_is_its_own_pattern(root.drop_last());
        assert(glob_escaped(root) =~= root);
    }
}

/// The path of the diagram that belongs to the build below `root`.
pub fn diagram_path(root: &str) -> (path: String)
    ensures
        path@ == root@ + "/modules.uml"@,
{
    let mut path = String::from_str(root);
    path.append("/modules.uml");
    path
}

/// Reads the module off one build file.
pub fn module_of_file(file: &BuildFile) -> (module: Result<
    Option<ModuleWithDependencies>,
    ScanFault,
>)
    ensures
        match module {
            Ok(Some(m)) => module_of(file@) == Ok::<Option<ModuleRecord>, ScanFault>(Some(m@)),
            Ok(None) => module_of(file@) == Ok::<Option<ModuleRecord>, ScanFault>(None),
            Err(e) => module_of(file@) == Err::<Option<ModuleRecord>, ScanFault>(e),
        },
{
    match collect_module_dependencies(file.contents.clone()) {
        Err(e) => Err(ScanFault::Extract(e)),
        Ok(deps) => {
            if deps.len() == 0 {
                Ok(None)
            } else {
                match infer_module_name(file.path.as_str()) {
                    Err(e) => Err(ScanFault::Naming(e)),
                    Ok(name) => Ok(Some(ModuleWithDependencies { module: name, deps: deps })),
                }
            }
        },
    }
}

/// Collects the modules of the build files in the order of the files, leaving
/// out each file that declares no dependency, and stops at the first error.
pub fn collect_modules(files: &Vec<BuildFile>) -> (modules: Result<
    Vec<ModuleWithDependencies>,
    ScanError,
>)
    ensures
        match modules {
            Ok(found) => modules_of(file_texts(files@)) == Ok::<Seq<ModuleRecord>, ScanError>(
                records(found@),
            ),
            Err(e) => modules_of(file_texts(files@)) == Err::<Seq<ModuleRecord>, ScanError>(e),
        },
        modules matches Ok(found) ==> forall|i: int|
            0 <= i < found@.len() ==> (#[trigger] found@[i]).deps@.len() > 0,
{
    let ghost all = file_texts(files@);
    let n: usize = files.len();
    let mut found: Vec<ModuleWithDependencies> = Vec::new();
    let mut i: usize = 0;
    proof {
        assert(records(found@) =~= Seq::<ModuleRecord>::empty());
    }
    while i < n
        invariant
            n == files.len(),
            i <= n,
            all == file_texts(files@),
            modules_of(all.take(i as int)) == Ok::<Seq<ModuleRecord>, ScanError>(records(found@)),
        decreases n - i,
    {
        let ghost before = found@;
        proof {
            assert(all.take(i + 1).drop_last() =~= all.take(i as int));
            assert(all.take(i + 1).last() == files[i as int]@);
        }
        match module_of_file(&files[i]) {
            Err(fault) => {
                proof {
                    lemma_error_stays(all, i + 1);
                }
                return Err(ScanError { file: i, fault: fault });
            },
            Ok(None) => {},
            Ok(Some(module)) => {
                found.push(module);
                proof {
                    assert(records(found@) =~= records(before).push(module@));
                }
            },
        }
        i += 1;
    }
    proof {
        assert(all.take(n as int) =~= all);
        lemma_collected_modules_have_dependencies(all);
        assert forall|i: int| 0 <= i < found@.len() implies (#[trigger] found@[i]).deps@.len()
            > 0 by {
            assert(modules_of(all).unwrap()[i] == found@[i]@);
            assert(found@[i]@.deps.len() == found@[i].deps@.len());
        }
    }
    Ok(found)
}

/// An error among the first `k` files is the error of the whole list.
pub proof fn lemma_error_stays(files: Seq<BuildFileText>, k: int)
    requires
        0 <= k <= files.len(),
        modules_of(files.take(k)) is Err,
    ensures
        modules_of(files) == modules_of(files.take(k)),
    decreases files.len() - k,
{
    if k == files.len() {
        assert(files.take(k) =~= files);
    } else {
        assert(files.take(k + 1).drop_last() =~= files.take(k));
        lemma_error_stays(files, k + 1);
    }
}

/// Every module that a scan collects has at least one dependency.
pub proof fn lemma_collected_modules_have_dependencies(files: Seq<BuildFileText>)
    requires
        modules_of(files) is Ok,
    ensures
        forall|i: int|
            0 <= i < modules_of(files).unwrap().len() ==> (#[trigger] modules_of(
                files,
            ).unwrap()[i]).deps.len() > 0,
    decreases files.len(),
{
    if files.len() > 0 {
        lemma_collected_modules_have_dependencies(files.drop_last());
    }
}

/// Where a scan succeeds, its modules are those of the first files followed
/// by those of the rest: modules come in the order in which their build files
/// were found.
pub proof fn lemma_modules_follow_file_order(first: Seq<BuildFileText>, rest: Seq<BuildFileText>)
    requires
        modules_of(first + rest) is Ok,
    ensures
        modules_of(first) is Ok,
        modules_of(rest) is Ok,
        modules_of(first + rest).unwrap() == modules_of(first).unwrap() + modules_of(
            rest,
        ).unwrap(),
    decreases rest.len(),
{
    if rest.len() == 0 {
        assert(first + rest =~= first);
        assert(modules_of(first).unwrap() + modules_of(rest).unwrap() =~= modules_of(
            first,
        ).unwrap());
    } else {
        assert((first + rest).drop_last() =~= first + rest.drop_last());
        assert((first + rest).last() == rest.last());
        lemma_modules_follow_file_order(first, rest.drop_last());
        assert(modules_of(first + rest).unwrap() =~= modules_of(first).unwrap() + modules_of(
            rest,
        ).unwrap());
    }
}

/// A build file that declares no dependency leaves no trace in what a scan
/// collects, wherever it stands among the files: with it or without it the
/// scan succeeds or fails alike, with the same modules or the same fault.
pub proof fn lemma_file_without_dependencies_is_skipped(
    before: Seq<BuildFileText>,
    file: BuildFileText,
    after: Seq<BuildFileText>,
)
    requires
        dependencies_of(file.contents) == Some(Seq::<Seq<char>>::empty()),
    ensures
        match modules_of(before.push(file) + after) {
            Ok(modules) => modules_of(before + after) == Ok::<Seq<ModuleRecord>, ScanError>(
                modules,
            ),
            Err(e) => modules_of(before + after) is Err && modules_of(
                before + after,
            )->Err_0.fault == e.fault,
        },
    decreases after.len(),
{
    if after.len() == 0 {
        assert(before.push(file) + after =~= before.push(file));
        assert(before + after =~= before);
        assert(before.push(file).drop_last() =~= before);
    } else {
        assert((before.push(file) + after).drop_last() =~= before.push(file) + after.drop_last());
        assert((before + after).drop_last() =~= before + after.drop_last());
        lemma_file_without_dependencies_is_skipped(before, file, after.drop_last());
    }
}

/// The diagram with plain arrows of the build files, or the error of the
/// first file that has one.
pub open spec fn plain_diagram_of(files: Seq<BuildFileText>) -> Result<Seq<char>, ScanError> {
    match modules_of(files) {
        Ok(modules) => Ok(plain_document(modules)),
        Err(e) => Err(e),
    }
}

/// Collects the modules of the build files and renders them with plain arrows.
pub fn plain_diagram(files: &Vec<BuildFile>) -> (diagram: Result<String, ScanError>)
    ensures
        match diagram {
            Ok(text) => plain_diagram_of(file_texts(files@)) == Ok::<Seq<char>, ScanError>(text@),
            Err(e) => plain_diagram_of(file_texts(files@)) == Err::<Seq<char>, ScanError>(e),
        },
{
    match collect_modules(files) {
        Ok(modules) => Ok(to_plain_plant_uml_data(&modules)),
        Err(e) => Err(e),
    }
}

/// The diagram with plain arrows depends on the paths and texts of the build
/// files alone: two lists of files that agree in them, one by one, have the
/// same diagram, character for character, or the same error.
pub proof fn lemma_same_files_same_plain_diagram(first: Seq<BuildFile>, second: Seq<BuildFile>)
    requires
        first.len() == second.len(),
        forall|i: int| 0 <= i < first.len() ==> first[i]@ == second[i]@,
    ensures
        plain_diagram_of(file_texts(first)) == plain_diagram_of(file_texts(second)),
{
    assert(file_texts(first) =~= file_texts(second));
}

} // verus!
