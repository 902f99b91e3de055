use gradle_graph::naming::{infer_module_name, NamingError};

#[test]
fn module_is_named_after_the_parent_directory() {
    assert_eq!(infer_module_name("/root/modA/build.gradle"), Ok("modA".to_string()));
    assert_eq!(infer_module_name("modA/build.gradle"), Ok("modA".to_string()));
    assert_eq!(infer_module_name("/a/b/c/settings.gradle"), Ok("c".to_string()));
}

#[test]
fn module_name_keeps_its_hyphens() {
    assert_eq!(infer_module_name("/root/mod-b/build.gradle"), Ok("mod-b".to_string()));
}

#[test]
fn path_without_parent_has_no_module() {
    assert_eq!(infer_module_name(""), Err(NamingError::NoParent));
    assert_eq!(infer_module_name("/"), Err(NamingError::NoParent));
}

#[test]
fn parent_without_name_has_no_module() {
    assert_eq!(infer_module_name("/build.gradle"), Err(NamingError::NoName));
    assert_eq!(infer_module_name("build.gradle"), Err(NamingError::NoName));
    assert_eq!(infer_module_name("../build.gradle"), Err(NamingError::NoName));
}
