//! The diagram document.

use vstd::prelude::*;
use vstd::string::*;
use crate::palette::{
    arrow_colors, color_texts, is_plain_color, lemma_palette_colors_are_plain, palette,
    pick_colors,
};
use crate::render_laws::{
    count_of, edge_count, lemma_colored_document_is_well_formed,
    lemma_hyphens_stand_in_plain_arrows, lemma_markers_stand_once_in_plain_document,
    markers_stand_once, names_free_of,
};
use crate::text::{replace_hyphens, texts, underscored};

verus! {

/// A module of the build together with the modules it declares a dependency on,
/// in the order of the declarations.
#[derive(Debug)]
pub struct ModuleWithDependencies {
    pub module: String,
    pub deps: Vec<String>,
}

/// What a `ModuleWithDependencies` stands for: the two texts as characters.
pub struct ModuleRecord {
    pub module: Seq<char>,
    pub deps: Seq<Seq<char>>,
}

impl View for ModuleWithDependencies {
    type V = ModuleRecord;

    open spec fn view(&self) -> ModuleRecord {
        ModuleRecord { module: self.module@, deps: texts(self.deps@) }
    }
}

/// The records of a list of modules.
pub open spec fn records(modules: Seq<ModuleWithDependencies>) -> Seq<ModuleRecord> {
    modules.map_values(|m: ModuleWithDependencies| m@)
}

/// The arrow of an edge without a color.
pub open spec fn plain_arrow() -> Seq<char> {
    " --> "@
}

/// The arrow of an edge drawn in the given color.
pub open spec fn colored_arrow(color: Seq<char>) -> Seq<char> {
    " -["@ + color + "]-> "@
}

/// The line that declares a module as a node.
pub open spec fn node_line(module: Seq<char>) -> Seq<char> {
    "rectangle "@ + underscored(module) + "\n"@
}

/// The line that draws one edge.
pub open spec fn edge_line(module: Seq<char>, arrow: Seq<char>, dep: Seq<char>) -> Seq<char> {
    underscored(module) + arrow + underscored(dep) + "\n"@
}

/// The node lines of the modules, in their order; a module without a
/// dependency has none.
pub open spec fn node_lines(modules: Seq<ModuleRecord>) -> Seq<char>
    decreases modules.len(),
{
    if modules.len() == 0 {
        Seq::empty()
    } else if modules.last().deps.len() == 0 {
        node_lines(modules.drop_last())
    } else {
        node_lines(modules.drop_last()) + node_line(modules.last().module)
    }
}

/// The edge lines of one module, in the order of its dependencies.
pub open spec fn module_edges(module: Seq<char>, arrow: Seq<char>, deps: Seq<Seq<char>>) -> Seq<
    char,
>
    decreases deps.len(),
{
    if deps.len() == 0 {
        Seq::empty()
    } else {
        module_edges(module, arrow, deps.drop_last()) + edge_line(module, arrow, deps.last())
    }
}

/// The edge lines of the modules: module after module, and within a module
/// dependency after dependency. `arrows` gives each module its arrow.
pub open spec fn edge_lines(modules: Seq<ModuleRecord>, arrows: Seq<Seq<char>>) -> Seq<char>
    recommends
        arrows.len() == modules.len(),
    decreases modules.len(),
{
    if modules.len() == 0 {
        Seq::empty()
    } else {
        edge_lines(modules.drop_last(), arrows.drop_last()) + module_edges(
            modules.last().module,
            arrows.last(),
            modules.last().deps,
        )
    }
}

/// The whole document: opening marker, node lines, an empty line, edge lines,
/// closing marker.
pub open spec fn document(modules: Seq<ModuleRecord>, arrows: Seq<Seq<char>>) -> Seq<char>
    recommends
        arrows.len() == modules.len(),
{
    "@startuml\n"@ + node_lines(modules) + "\n"@ + edge_lines(modules, arrows) + "@enduml"@
}

/// The document in which every edge is a plain arrow.
pub open spec fn plain_document(modules: Seq<ModuleRecord>) -> Seq<char> {
    document(modules, Seq::new(modules.len(), |i: int| plain_arrow()))
}

/// The document in which the edges of module `i` have the color `colors[i]`.
pub open spec fn colored_document(modules: Seq<ModuleRecord>, colors: Seq<Seq<char>>) -> Seq<char>
    recommends
        colors.len() == modules.len(),
{
    document(modules, colors.map_values(|c: Seq<char>| colored_arrow(c)))
}

/// Renders the modules with the given arrow for each module's edges.
pub fn render_with_arrows(input: &Vec<ModuleWithDependencies>, arrows: &Vec<String>) -> (out:
    String)
    requires
        arrows.len() == input.len(),
    ensures
        out@ == document(records(input@), texts(arrows@)),
{
    let ghost modules = records(input@);
    let ghost arrow_texts = texts(arrows@);
    let n: usize = input.len();
    let mut out = String::from_str("@startuml\n");
    let mut i: usize = 0;
    while i < n
        invariant
            n == input.len(),
            i <= n,
            modules == records(input@),
            out@ == "@startuml\n"@ + node_lines(modules.take(i as int)),
        decreases n - i,
    {
        let module = &input[i];
        proof {
            assert(modules.take(i + 1).drop_last() =~= modules.take(i as int));
            assert(modules.take(i + 1).last() == module@);
        }
        if module.deps.len() > 0 {
            let name = replace_hyphens(module.module.as_str());
            let ghost before = out@;
            out.append("rectangle ");
            out.append(name.as_str());
            out.append("\n");
            proof {
                assert(out@ =~= before + node_line(module.module@));
            }
        }
        proof {
            assert(out@ =~= "@startuml\n"@ + node_lines(modules.take(i + 1)));
        }
        i += 1;
    }
    proof {
        assert(modules.take(n as int) =~= modules);
    }
    out.append("\n");
    let ghost head = out@;
    let mut i: usize = 0;
    while i < n
        invariant
            n == input.len(),
            n == arrows.len(),
            i <= n,
            modules == records(input@),
            arrow_texts == texts(arrows@),
            out@ == head + edge_lines(modules.take(i as int), arrow_texts.take(i as int)),
        decreases n - i,
    {
        let module = &input[i];
        let arrow = &arrows[i];
        let name = replace_hyphens(module.module.as_str());
        let m: usize = module.deps.len();
        let ghost deps = module@.deps;
        let ghost before = out@;
        let mut j: usize = 0;
        while j < m
            invariant
                m == module.deps.len(),
                j <= m,
                deps == texts(module.deps@),
                name@ == underscored(module.module@),
                out@ == before + module_edges(module.module@, arrow@, deps.take(j as int)),
            decreases m - j,
        {
            let dep = replace_hyphens(module.deps[j].as_str());
            let ghost line_start = out@;
            out.append(name.as_str());
            out.append(arrow.as_str());
            out.append(dep.as_str());
            out.append("\n");
            proof {
                assert(deps.take(j + 1).drop_last() =~= deps.take(j as int));
                assert(deps.take(j + 1).last() == module.deps[j as int]@);
                assert(out@ =~= line_start + edge_line(module.module@, arrow@, deps[j as int]));
                assert(out@ =~= before + module_edges(
                    module.module@,
                    arrow@,
                    deps.take(j + 1),
                ));
            }
            j += 1;
        }
        proof {
            assert(deps.take(m as int) =~= deps);
            assert(modules.take(i + 1).drop_last() =~= modules.take(i as int));
            assert(arrow_texts.take(i + 1).drop_last() =~= arrow_texts.take(i as int));
            assert(modules.take(i + 1).last() == module@);
            assert(arrow_texts.take(i + 1).last() == arrow@);
            assert(out@ =~= head + edge_lines(modules.take(i + 1), arrow_texts.take(i + 1)));
        }
        i += 1;
    }
    proof {
        assert(modules.take(n as int) =~= modules);
        assert(arrow_texts.take(n as int) =~= arrow_texts);
    }
    out.append("@enduml");
    proof {
        assert(out@ =~= document(modules, arrow_texts));
    }
    out
}

/// Renders the modules with plain arrows.
pub fn to_plain_plant_uml_data(input: &Vec<ModuleWithDependencies>) -> (out: String)
    ensures
        out@ == plain_document(records(input@)),
        count_of(out@, '-') == 2 * edge_count(records(input@)),
        names_free_of(records(input@), '@') ==> markers_stand_once(out@),
{
    let n: usize = input.len();
    let mut arrows: Vec<String> = Vec::new();
    let mut i: usize = 0;
    while i < n
        invariant
            i <= n,
            arrows@.len() == i,
            forall|k: int| 0 <= k < i ==> (#[trigger] arrows@[k])@ == plain_arrow(),
        decreases n - i,
    {
        arrows.push(String::from_str(" --> "));
        i += 1;
    }
    proof {
        assert(texts(arrows@) =~= Seq::new(records(input@).len(), |i: int| plain_arrow()));
        lemma_hyphens_stand_in_plain_arrows(records(input@));
        if names_free_of(records(input@), '@') {
            lemma_markers_stand_once_in_plain_document(records(input@));
        }
    }
    render_with_arrows(input, &arrows)
}

/// Renders the modules with the edges of module `i` drawn in `colors[i]`.
pub fn to_colored_plant_uml_data(
    input: &Vec<ModuleWithDependencies>,
    colors: &Vec<&'static str>,
) -> (out: String)
    requires
        colors.len() == input.len(),
    ensures
        out@ == colored_document(records(input@), color_texts(colors@)),
        (forall|i: int| 0 <= i < colors@.len() ==> is_plain_color(#[trigger] colors@[i]@))
            ==> count_of(out@, '-') == 2 * edge_count(records(input@)) && (names_free_of(
            records(input@),
            '@',
        ) ==> markers_stand_once(out@)),
{
    let n: usize = input.len();
    let mut arrows: Vec<String> = Vec::new();
    let mut i: usize = 0;
    while i < n
        invariant
            n == colors.len(),
            i <= n,
            arrows@.len() == i,
            forall|k: int| 0 <= k < i ==> (#[trigger] arrows@[k])@ == colored_arrow(colors@[k]@),
        decreases n - i,
    {
        let mut arrow = String::from_str(" -[");
        arrow.append(colors[i]);
        arrow.append("]-> ");
        arrows.push(arrow);
        i += 1;
    }
    proof {
        assert(texts(arrows@) =~= color_texts(colors@).map_values(
            |c: Seq<char>| colored_arrow(c),
        ));
        if forall|i: int| 0 <= i < colors@.len() ==> is_plain_color(#[trigger] colors@[i]@) {
            assert forall|i: int| 0 <= i < colors@.len() implies is_plain_color(
                #[trigger] color_texts(colors@)[i],
            ) by {
                assert(is_plain_color(colors@[i]@));
            }
            lemma_colored_document_is_well_formed(records(input@), color_texts(colors@));
        }
    }
    render_with_arrows(input, &arrows)
}

/// Renders the modules with, for each module, one color of the palette drawn
/// at random for all its edges. Two calls on the same modules may differ in
/// the colors and in nothing else.
pub fn to_plant_uml_data(input: Vec<ModuleWithDependencies>) -> (out: String)
    ensures
        exists|colors: Seq<&'static str>|
            {
                &&& colors.len() == input@.len()
                &&& forall|i: int| 0 <= i < colors.len() ==> palette().contains(#[trigger] colors[i])
                &&& out@ == colored_document(records(input@), color_texts(colors))
            },
        count_of(out@, '-') == 2 * edge_count(records(input@)),
        names_free_of(records(input@), '@') ==> markers_stand_once(out@),
{
    let all = arrow_colors();
    let colors = pick_colors(input.len(), &all);
    let out = to_colored_plant_uml_data(&input, &colors);
    proof {
        let chosen = colors@;
        assert(chosen.len() == input@.len());
        assert(forall|i: int| 0 <= i < chosen.len() ==> palette().contains(#[trigger] chosen[i]));
        assert(out@ == colored_document(records(input@), color_texts(chosen)));
        lemma_palette_colors_are_plain();
        assert forall|i: int| 0 <= i < chosen.len() implies is_plain_color(
            #[trigger] color_texts(chosen)[i],
        ) by {
            assert(palette().contains(chosen[i]));
            let j = choose|j: int| 0 <= j < palette().len() && palette()[j] == chosen[i];
            assert(is_plain_color(palette()[j]@));
        }
        lemma_colored_document_is_well_formed(records(input@), color_texts(chosen));
    }
    out
}

} // verus!
