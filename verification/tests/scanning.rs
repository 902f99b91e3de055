use gradle_graph::extract::ExtractError;
use gradle_graph::naming::NamingError;
use gradle_graph::scan::{
    collect_modules, diagram_path, gradle_file_pattern, module_of_file, plain_diagram, BuildFile,
    ScanError, ScanFault,
};

fn file(path: &str, contents: &str) -> BuildFile {
    BuildFile { path: path.to_string(), contents: contents.to_string() }
}

fn example() -> Vec<BuildFile> {
    vec![
        file(
            "/root/modA/build.gradle",
            "implementation.project(\":mod-b\")\nimplementation.project(':modC')extra\n",
        ),
        file("/root/modC/build.gradle", "// nothing declared\n"),
    ]
}

#[test]
fn search_pattern_covers_the_whole_tree() {
    assert_eq!(gradle_file_pattern("/work/app"), "/work/app/**/*.gradle");
    assert_eq!(gradle_file_pattern(""), "/**/*.gradle");
}

#[test]
fn search_pattern_takes_the_root_as_a_path() {
    assert_eq!(gradle_file_pattern("/w/a[1]"), "/w/a[[]1[]]/**/*.gradle");
    assert_eq!(gradle_file_pattern("/w/what?/a*b"), "/w/what[?]/a[*]b/**/*.gradle");
    assert_eq!(gradle_file_pattern("/w/a!b{c}"), "/w/a!b{c}/**/*.gradle");
    let pattern = glob::Pattern::new(&gradle_file_pattern("/w/a[1]")).unwrap();
    assert!(pattern.matches("/w/a[1]/m/build.gradle"));
    assert!(!pattern.matches("/w/a1/m/build.gradle"));
}

#[test]
fn diagram_lies_in_the_root() {
    assert_eq!(diagram_path("/work/app"), "/work/app/modules.uml");
}

#[test]
fn module_of_file_reads_name_and_dependencies() {
    let module = module_of_file(&example()[0]).unwrap().unwrap();
    assert_eq!(module.module, "modA");
    assert_eq!(module.deps, vec!["mod-b", "modC"]);
}

#[test]
fn file_without_declarations_has_no_module() {
    assert!(module_of_file(&example()[1]).unwrap().is_none());
    assert!(module_of_file(&file("/build.gradle", "")).unwrap().is_none());
}

#[test]
fn file_with_declarations_needs_a_named_directory() {
    let text = "implementation.project(':a')";
    assert_eq!(
        module_of_file(&file("/build.gradle", text)).unwrap_err(),
        ScanFault::Naming(NamingError::NoName)
    );
    assert_eq!(
        module_of_file(&file("/", text)).unwrap_err(),
        ScanFault::Naming(NamingError::NoParent)
    );
    assert_ne!(
        ScanFault::Extract(ExtractError::InvalidPattern),
        ScanFault::Naming(NamingError::NoName)
    );
}

#[test]
fn modules_are_collected_in_file_order() {
    let files = vec![
        file("/r/z/build.gradle", "implementation.project(':a')"),
        file("/r/empty/build.gradle", ""),
        file("/r/a/build.gradle", "implementation.project(':z')\nimplementation.project(':m')"),
    ];
    let modules = collect_modules(&files).unwrap();
    assert_eq!(modules.len(), 2);
    assert_eq!(modules[0].module, "z");
    assert_eq!(modules[0].deps, vec!["a"]);
    assert_eq!(modules[1].module, "a");
    assert_eq!(modules[1].deps, vec!["z", "m"]);
}

#[test]
fn scan_stops_at_the_first_fault() {
    let files = vec![
        file("/r/z/build.gradle", "implementation.project(':a')"),
        file("/build.gradle", "implementation.project(':b')"),
        file("", "implementation.project(':c')"),
    ];
    assert_eq!(
        collect_modules(&files).unwrap_err(),
        ScanError { file: 1, fault: ScanFault::Naming(NamingError::NoName) }
    );
    assert_eq!(
        plain_diagram(&files),
        Err(ScanError { file: 1, fault: ScanFault::Naming(NamingError::NoName) })
    );
}

#[test]
fn end_to_end_example() {
    assert_eq!(
        plain_diagram(&example()).unwrap(),
        "@startuml\nrectangle modA\n\nmodA --> mod_b\nmodA --> modC\n@enduml"
    );
}

#[test]
fn repeated_runs_give_the_same_document() {
    let first = plain_diagram(&example()).unwrap();
    let second = plain_diagram(&example()).unwrap();
    assert_eq!(first, second);
}

#[test]
fn no_build_files_give_an_empty_diagram() {
    assert_eq!(plain_diagram(&vec![]).unwrap(), "@startuml\n\n@enduml");
}
