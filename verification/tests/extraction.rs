use gradle_graph::extract::{
    collect_module_dependencies, declaration_with, declared_identifiers, identifier_of_capture,
    is_declaration_of, is_name_character, is_name_text, ExtractError, DECLARATION_PATTERN,
};

fn deps(text: &str) -> Vec<String> {
    collect_module_dependencies(text.to_string()).expect("the pattern is accepted")
}

fn capture(whole: &str, open: &str, name: &str, close: &str) -> Vec<Option<String>> {
    vec![
        Some(whole.to_string()),
        Some(open.to_string()),
        Some(name.to_string()),
        Some(close.to_string()),
    ]
}

#[test]
fn the_pattern_is_fixed() {
    assert_eq!(
        DECLARATION_PATTERN,
        r#"implementation\.project\((['"]):?([\w-]+)(['"])\).?"#
    );
}

#[test]
fn no_declaration_gives_no_dependency() {
    assert_eq!(deps(""), Vec::<String>::new());
    assert_eq!(deps("plugins { id 'java' }\n"), Vec::<String>::new());
}

#[test]
fn double_quoted_declaration_is_found() {
    assert_eq!(deps("implementation.project(\":core\")"), vec!["core"]);
}

#[test]
fn single_quoted_declaration_is_found() {
    assert_eq!(deps("implementation.project(':core')"), vec!["core"]);
}

#[test]
fn declaration_without_colon_is_found() {
    assert_eq!(deps("implementation.project(\"x\")"), vec!["x"]);
    assert_eq!(deps("implementation.project('x')"), vec!["x"]);
}

#[test]
fn only_a_dot_may_stand_before_project() {
    assert_eq!(deps("implementation project(':x')"), Vec::<String>::new());
    assert_eq!(deps("implementation-project(':x')"), Vec::<String>::new());
    assert_eq!(deps("implementation(project(':x'))"), Vec::<String>::new());
    assert_eq!(deps("    implementation.project(':feature-login')\n"), vec!["feature-login"]);
}

#[test]
fn declarations_come_in_source_order_between_other_text() {
    let text = "plugins { id 'java' }\n\
                dependencies {\n\
                    implementation.project(\":zeta\")\n\
                    testImplementation 'junit:junit:4.13'\n\
                    implementation.project(':alpha-one')\n\
                    // a comment\n\
                    implementation.project(\":mid_2\") // trailing\n\
                }\n";
    assert_eq!(deps(text), vec!["zeta", "alpha-one", "mid_2"]);
}

#[test]
fn repeated_declarations_are_all_kept() {
    let text = "implementation.project(':a')\nimplementation.project(':a')\n";
    assert_eq!(deps(text), vec!["a", "a"]);
}

#[test]
fn one_trailing_character_is_dropped_with_the_declaration() {
    assert_eq!(deps("implementation.project(':modC')extra"), vec!["modC"]);
    assert_eq!(
        deps("implementation.project(':a') implementation.project(':b')"),
        vec!["a", "b"]
    );
}

#[test]
fn a_declaration_that_follows_without_a_gap_loses_its_first_letter() {
    assert_eq!(
        deps("implementation.project(':a')implementation.project(':b')"),
        vec!["a"]
    );
}

#[test]
fn mismatched_quotes_do_not_match() {
    assert_eq!(deps("implementation.project(\"x')"), Vec::<String>::new());
    assert_eq!(deps("implementation.project('x\")"), Vec::<String>::new());
    assert_eq!(deps("implementation.project(\":x')"), Vec::<String>::new());
    assert_eq!(
        deps("implementation.project(\":x')\nimplementation.project(':y')\n"),
        vec!["y"]
    );
}

#[test]
fn malformed_declarations_do_not_match() {
    assert_eq!(deps("implementation.project(:x)"), Vec::<String>::new());
    assert_eq!(deps("implementation.project(\"\")"), Vec::<String>::new());
    assert_eq!(deps("implementation.project(\":a b\")"), Vec::<String>::new());
    assert_eq!(deps("implementationproject(\":a\")"), Vec::<String>::new());
}

#[test]
fn names_may_hold_letters_of_any_script() {
    assert_eq!(deps("implementation.project(':módulo-ñ')"), vec!["módulo-ñ"]);
}

#[test]
fn identifier_of_capture_wants_agreeing_quotes() {
    let good = capture("implementation.project(':a')", "'", "a", "'");
    assert_eq!(identifier_of_capture(&good), Some("a".to_string()));
    let bad = capture("implementation.project(':a\")", "'", "a", "\"");
    assert_eq!(identifier_of_capture(&bad), None);
}

#[test]
fn identifier_of_capture_wants_all_groups() {
    assert_eq!(identifier_of_capture(&vec![]), None);
    assert_eq!(identifier_of_capture(&vec![Some("a".to_string())]), None);
    let whole = "implementation.project(':a')".to_string();
    let absent = vec![Some(whole.clone()), Some("'".to_string()), None, Some("'".to_string())];
    assert_eq!(identifier_of_capture(&absent), None);
    let no_quotes = vec![Some(whole.clone()), None, Some("a".to_string()), None];
    assert_eq!(identifier_of_capture(&no_quotes), None);
    let no_whole = vec![None, Some("'".to_string()), Some("a".to_string()), Some("'".to_string())];
    assert_eq!(identifier_of_capture(&no_whole), None);
}

#[test]
fn identifier_of_capture_wants_the_whole_match_to_be_a_declaration() {
    let other_name = capture("implementation.project(':a')", "'", "b", "'");
    assert_eq!(identifier_of_capture(&other_name), None);
    let other_quote = capture("implementation.project(\":a\")", "'", "a", "'");
    assert_eq!(identifier_of_capture(&other_quote), None);
    let no_declaration = capture("w", "'", "a", "'");
    assert_eq!(identifier_of_capture(&no_declaration), None);
    let odd_quote = capture("implementation.project(`:a`)", "`", "a", "`");
    assert_eq!(identifier_of_capture(&odd_quote), None);
    let with_space = capture("implementation project(\"a-b\")", "\"", "a-b", "\"");
    assert_eq!(identifier_of_capture(&with_space), None);
    let with_trailer = capture("implementation.project(\"a-b\")x", "\"", "a-b", "\"");
    assert_eq!(identifier_of_capture(&with_trailer), Some("a-b".to_string()));
}

#[test]
fn identifier_of_capture_wants_a_name() {
    let empty = capture("implementation.project('')", "'", "", "'");
    assert_eq!(identifier_of_capture(&empty), None);
    let blank = capture("implementation.project('a b')", "'", "a b", "'");
    assert_eq!(identifier_of_capture(&blank), None);
    let colon = capture("implementation.project('::a')", "'", ":a", "'");
    assert_eq!(identifier_of_capture(&colon), None);
    let quote = capture("implementation.project('a'b')", "'", "a'b", "'");
    assert_eq!(identifier_of_capture(&quote), None);
}

#[test]
fn names_hold_word_characters_and_hyphens() {
    for name in ["a", "mod-b", "mod_2", "A9", "-", "módulo-ñ"] {
        assert!(is_name_text(name));
    }
    for name in ["", "a b", ":a", "a.b", "a'b", "a\"b", "(a)", "a\n", "a/b", "a@b"] {
        assert!(!is_name_text(name));
    }
    assert!(is_name_character('-') && is_name_character('_') && is_name_character('z'));
    assert!(is_name_character('0') && is_name_character('Q') && is_name_character('é'));
    assert!(!is_name_character(' ') && !is_name_character(':') && !is_name_character('.'));
    assert!(!is_name_character('\'') && !is_name_character('"') && !is_name_character(')'));
}

#[test]
fn declaration_is_written_with_and_without_colon() {
    assert_eq!(declaration_with("'", true, "core"), "implementation.project(':core')");
    assert_eq!(declaration_with("\"", false, "a-b"), "implementation.project(\"a-b\")");
}

#[test]
fn declaration_may_end_in_one_more_character() {
    let yes = |whole: &str, quote: &str, name: &str| {
        is_declaration_of(&whole.to_string(), quote, name)
    };
    assert!(yes("implementation.project(':core')", "'", "core"));
    assert!(yes("implementation.project('core')", "'", "core"));
    assert!(yes("implementation.project(':core');", "'", "core"));
    assert!(yes("implementation.project(\"core\")e", "\"", "core"));
    assert!(!yes("implementation project(':core')", "'", "core"));
    assert!(!yes("implementationXproject(':core')", "'", "core"));
    assert!(!yes("implementation.project('')", "'", ""));
    assert!(!yes("implementation.project(':core');;", "'", "core"));
    assert!(!yes("implementation.project(':core\")", "'", "core"));
    assert!(!yes("implementation.project(\":core')", "'", "core"));
    assert!(!yes("implementation.project('::core')", "'", "core"));
    assert!(!yes("implementation.project(':core')", "''", "core"));
    assert!(!yes("implementation.project(':core')", "", "core"));
    assert!(!yes("implementation.project(':core", "'", "core"));
    assert!(!yes("implementation", "'", "core"));
    assert!(!yes("", "'", ""));
}

#[test]
fn declared_identifiers_keep_order_and_drop_mismatches() {
    let captures = vec![
        capture("implementation.project(':one')\n", "'", "one", "'"),
        capture("implementation.project(\":two')", "\"", "two", "'"),
        capture("implementation.project(\"three\")", "\"", "three", "\""),
    ];
    assert_eq!(declared_identifiers(&captures), vec!["one", "three"]);
    assert_eq!(declared_identifiers(&vec![]), Vec::<String>::new());
}

#[test]
fn the_only_extraction_error_is_a_refused_pattern() {
    assert_eq!(ExtractError::InvalidPattern, ExtractError::InvalidPattern);
    assert!(collect_module_dependencies("anything".to_string()).is_ok());
}
