use gradle_graph::palette::{arrow_colors, pick_colors};
use gradle_graph::render::{
    render_with_arrows, to_colored_plant_uml_data, to_plain_plant_uml_data, to_plant_uml_data,
    ModuleWithDependencies,
};
use gradle_graph::text::replace_hyphens;

fn module(name: &str, deps: &[&str]) -> ModuleWithDependencies {
    ModuleWithDependencies {
        module: name.to_string(),
        deps: deps.iter().map(|d| d.to_string()).collect(),
    }
}

#[test]
fn hyphens_become_underscores() {
    assert_eq!(replace_hyphens("mod-b"), "mod_b");
    assert_eq!(replace_hyphens("a-b-c-"), "a_b_c_");
    assert_eq!(replace_hyphens("--"), "__");
}

#[test]
fn names_without_hyphen_stay() {
    assert_eq!(replace_hyphens(""), "");
    assert_eq!(replace_hyphens("modC"), "modC");
    assert_eq!(replace_hyphens("a_b"), "a_b");
    assert_eq!(replace_hyphens("módulo"), "módulo");
}

#[test]
fn empty_input_gives_the_markers_alone() {
    assert_eq!(to_plain_plant_uml_data(&vec![]), "@startuml\n\n@enduml");
    assert_eq!(to_plant_uml_data(vec![]), "@startuml\n\n@enduml");
    assert_eq!(to_colored_plant_uml_data(&vec![], &vec![]), "@startuml\n\n@enduml");
}

#[test]
fn plain_document_lists_nodes_then_edges() {
    let modules = vec![module("app", &["core", "ui-kit"]), module("ui-kit", &["core"])];
    assert_eq!(
        to_plain_plant_uml_data(&modules),
        "@startuml\n\
         rectangle app\n\
         rectangle ui_kit\n\
         \n\
         app --> core\n\
         app --> ui_kit\n\
         ui_kit --> core\n\
         @enduml"
    );
}

#[test]
fn order_of_modules_and_dependencies_is_kept() {
    let modules = vec![module("z", &["b", "a", "b"]), module("a", &["z"])];
    assert_eq!(
        to_plain_plant_uml_data(&modules),
        "@startuml\nrectangle z\nrectangle a\n\nz --> b\nz --> a\nz --> b\na --> z\n@enduml"
    );
}

#[test]
fn module_without_dependencies_has_no_node() {
    let modules = vec![module("a", &["b"]), module("lonely", &[]), module("c", &["a"])];
    let without = vec![module("a", &["b"]), module("c", &["a"])];
    let document = to_plain_plant_uml_data(&modules);
    assert_eq!(document, to_plain_plant_uml_data(&without));
    assert!(!document.contains("lonely"));
}

#[test]
fn dangling_edges_are_drawn() {
    let modules = vec![module("a", &["nowhere"])];
    assert_eq!(
        to_plain_plant_uml_data(&modules),
        "@startuml\nrectangle a\n\na --> nowhere\n@enduml"
    );
}

#[test]
fn colored_document_uses_one_color_per_module() {
    let modules = vec![module("app", &["core", "ui-kit"]), module("ui-kit", &["core"])];
    let colors = vec!["#Red", "#Blue"];
    assert_eq!(
        to_colored_plant_uml_data(&modules, &colors),
        "@startuml\n\
         rectangle app\n\
         rectangle ui_kit\n\
         \n\
         app -[#Red]-> core\n\
         app -[#Red]-> ui_kit\n\
         ui_kit -[#Blue]-> core\n\
         @enduml"
    );
}

#[test]
fn arrows_are_written_as_given() {
    let modules = vec![module("a-1", &["b-2"])];
    let arrows = vec![" ..> ".to_string()];
    assert_eq!(
        render_with_arrows(&modules, &arrows),
        "@startuml\nrectangle a_1\n\na_1 ..> b_2\n@enduml"
    );
}

#[test]
fn document_begins_and_ends_with_its_markers_once() {
    let modules = vec![module("app", &["core", "ui-kit"]), module("ui-kit", &["core"])];
    for document in [to_plain_plant_uml_data(&modules), to_plant_uml_data(modules)] {
        assert!(document.starts_with("@startuml\n"));
        assert!(document.ends_with("@enduml"));
        assert_eq!(document.matches("@startuml").count(), 1);
        assert_eq!(document.matches("@enduml").count(), 1);
    }
}

#[test]
fn random_document_draws_each_module_in_a_palette_color() {
    let palette = arrow_colors();
    let modules = vec![module("app", &["core", "ui-kit"]), module("ui-kit", &["core"])];
    let document = to_plant_uml_data(modules);
    let lines: Vec<&str> = document.split('\n').collect();
    assert_eq!(lines.len(), 8);
    assert_eq!(&lines[..4], &["@startuml", "rectangle app", "rectangle ui_kit", ""]);
    assert_eq!(lines[7], "@enduml");
    let mut colors = vec![];
    for (line, (from, to)) in lines[4..7]
        .iter()
        .zip([("app", "core"), ("app", "ui_kit"), ("ui_kit", "core")])
    {
        let rest = line.strip_prefix(from).unwrap().strip_prefix(" -[").unwrap();
        let color = rest.strip_suffix(to).unwrap().strip_suffix("]-> ").unwrap();
        assert!(palette.contains(&color));
        colors.push(color);
    }
    assert_eq!(colors[0], colors[1]);
}

#[test]
fn palette_is_the_list_of_named_colors() {
    let palette = arrow_colors();
    assert_eq!(palette.len(), 147);
    assert_eq!(palette[0], "#AliceBlue");
    assert_eq!(palette[7], "#Black");
    assert_eq!(palette[146], "#YellowGreen");
    assert!(palette.iter().all(|c| c.starts_with('#') && !c.contains('@')));
}

#[test]
fn picked_colors_come_from_the_palette() {
    let palette = vec!["#Red", "#Green", "#Blue"];
    let colors = pick_colors(50, &palette);
    assert_eq!(colors.len(), 50);
    assert!(colors.iter().all(|c| palette.contains(c)));
    assert_eq!(pick_colors(0, &palette), Vec::<&str>::new());
    assert_eq!(pick_colors(3, &vec!["#Only"]), vec!["#Only", "#Only", "#Only"]);
}

#[test]
fn hyphens_stand_only_in_arrows() {
    let modules = vec![module("a-b-c", &["d-e", "f"]), module("--", &["-g-"])];
    let plain = to_plain_plant_uml_data(&modules);
    assert_eq!(plain.matches('-').count(), 6);
    assert_eq!(plain.matches(" --> ").count(), 3);
    let colored = to_colored_plant_uml_data(&modules, &vec!["#Red", "#Blue"]);
    assert_eq!(colored.matches('-').count(), 6);
    let random = to_plant_uml_data(modules);
    assert_eq!(random.matches('-').count(), 6);
    assert_eq!(random.matches(" -[#").count(), 3);
    assert_eq!(random.matches("]-> ").count(), 3);
    assert!(arrow_colors().iter().all(|c| !c.contains('-') && !c.contains('\n')));
}

#[test]
fn markers_are_not_repeated_per_module() {
    let mut modules = vec![];
    for i in 0..20 {
        modules.push(module(&format!("m{}", i), &["x", "y"]));
    }
    let document = to_plant_uml_data(modules);
    assert_eq!(document.matches("@startuml").count(), 1);
    assert_eq!(document.matches("@enduml").count(), 1);
    assert_eq!(document.matches('@').count(), 2);
    assert_eq!(to_plant_uml_data(vec![]).matches('@').count(), 2);
}
