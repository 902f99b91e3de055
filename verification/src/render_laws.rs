//! What holds of every diagram document.

use vstd::prelude::*;
use crate::render::{
    colored_arrow, colored_document, document, edge_line, edge_lines, module_edges, node_line,
    node_lines, plain_arrow, plain_document, ModuleRecord,
};
use crate::palette::is_plain_color;
use crate::text::underscored;

verus! {

/// The text holds the character nowhere.
pub open spec fn free_of(text: Seq<char>, c: char) -> bool {
    forall|i: int| 0 <= i < text.len() ==> text[i] != c
}

/// The name of the module and each of its dependencies hold the character
/// nowhere.
pub open spec fn module_free_of(module: ModuleRecord, c: char) -> bool {
    &&& free_of(module.module, c)
    &&& forall|j: int| 0 <= j < module.deps.len() ==> free_of(#[trigger] module.deps[j], c)
}

/// No name of the modules holds the character.
pub open spec fn names_free_of(modules: Seq<ModuleRecord>, c: char) -> bool {
    forall|i: int| 0 <= i < modules.len() ==> module_free_of(#[trigger] modules[i], c)
}

/// The document holds an `@` at its first place, where the opening marker
/// begins, at the place where the closing marker begins, and nowhere else:
/// each marker stands in it once.
pub open spec fn markers_stand_once(doc: Seq<char>) -> bool {
    &&& doc.len() >= 17
    &&& forall|i: int| 0 <= i < doc.len() ==> (doc[i] == '@' <==> (i == 0 || i == doc.len() - 7))
}

/// How often the character stands in the text.
pub open spec fn count_of(text: Seq<char>, c: char) -> nat
    decreases text.len(),
{
    if text.len() == 0 {
        0
    } else if text.last() == c {
        count_of(text.drop_last(), c) + 1
    } else {
        count_of(text.drop_last(), c)
    }
}

/// The number of edges: the dependencies of all modules together.
pub open spec fn edge_count(modules: Seq<ModuleRecord>) -> nat
    decreases modules.len(),
{
    if modules.len() == 0 {
        0
    } else {
        edge_count(modules.drop_last()) + modules.last().deps.len()
    }
}

/// The node lines of a list of modules are those of its first part followed by
/// those of the rest: node lines come in the order of the modules.
pub proof fn lemma_node_lines_follow_module_order(
    first: Seq<ModuleRecord>,
    rest: Seq<ModuleRecord>,
)
    ensures
        node_lines(first + rest) == node_lines(first) + node_lines(rest),
    decreases rest.len(),
{
    if rest.len() == 0 {
        assert(first + rest =~= first);
        assert(node_lines(first) + node_lines(rest) =~= node_lines(first));
    } else {
        assert((first + rest).drop_last() =~= first + rest.drop_last());
        assert((first + rest).last() == rest.last());
        lemma_node_lines_follow_module_order(first, rest.drop_last());
        assert(node_lines(first + rest) =~= node_lines(first) + node_lines(rest));
    }
}

/// The edge lines of one module are those of its first dependencies followed
/// by those of the rest: a module's edges come in the order of its
/// declarations.
pub proof fn lemma_module_edges_follow_declaration_order(
    module: Seq<char>,
    arrow: Seq<char>,
    first: Seq<Seq<char>>,
    rest: Seq<Seq<char>>,
)
    ensures
        module_edges(module, arrow, first + rest) == module_edges(module, arrow, first)
            + module_edges(module, arrow, rest),
    decreases rest.len(),
{
    if rest.len() == 0 {
        assert(first + rest =~= first);
        assert(module_edges(module, arrow, first) + module_edges(module, arrow, rest)
            =~= module_edges(module, arrow, first));
    } else {
        assert((first + rest).drop_last() =~= first + rest.drop_last());
        assert((first + rest).last() == rest.last());
        lemma_module_edges_follow_declaration_order(module, arrow, first, rest.drop_last());
        assert(module_edges(module, arrow, first + rest) =~= module_edges(module, arrow, first)
            + module_edges(module, arrow, rest));
    }
}

/// The edge lines of a list of modules are those of its first part followed by
/// those of the rest: all edges of a module come before any edge of a later
/// module.
pub proof fn lemma_edge_lines_follow_module_order(
    first: Seq<ModuleRecord>,
    first_arrows: Seq<Seq<char>>,
    rest: Seq<ModuleRecord>,
    rest_arrows: Seq<Seq<char>>,
)
    requires
        first_arrows.len() == first.len(),
        rest_arrows.len() == rest.len(),
    ensures
        edge_lines(first + rest, first_arrows + rest_arrows) == edge_lines(first, first_arrows)
            + edge_lines(rest, rest_arrows),
    decreases rest.len(),
{
    if rest.len() == 0 {
        assert(first + rest =~= first);
        assert(first_arrows + rest_arrows =~= first_arrows);
        assert(edge_lines(first, first_arrows) + edge_lines(rest, rest_arrows) =~= edge_lines(
            first,
            first_arrows,
        ));
    } else {
        assert((first + rest).drop_last() =~= first + rest.drop_last());
        assert((first_arrows + rest_arrows).drop_last() =~= first_arrows
            + rest_arrows.drop_last());
        assert((first + rest).last() == rest.last());
        assert((first_arrows + rest_arrows).last() == rest_arrows.last());
        lemma_edge_lines_follow_module_order(
            first,
            first_arrows,
            rest.drop_last(),
            rest_arrows.drop_last(),
        );
        assert(edge_lines(first + rest, first_arrows + rest_arrows) =~= edge_lines(
            first,
            first_arrows,
        ) + edge_lines(rest, rest_arrows));
    }
}

/// A module without a dependency is not in the document: with it or without
/// it, wherever it stands among the modules, the document is the same.
pub proof fn lemma_module_without_dependencies_is_not_drawn(
    before: Seq<ModuleRecord>,
    before_arrows: Seq<Seq<char>>,
    module: ModuleRecord,
    arrow: Seq<char>,
    after: Seq<ModuleRecord>,
    after_arrows: Seq<Seq<char>>,
)
    requires
        module.deps.len() == 0,
        before_arrows.len() == before.len(),
        after_arrows.len() == after.len(),
    ensures
        document(before.push(module) + after, before_arrows.push(arrow) + after_arrows)
            == document(before + after, before_arrows + after_arrows),
{
    let with = before.push(module);
    let with_arrows = before_arrows.push(arrow);
    assert(with.drop_last() =~= before);
    assert(with_arrows.drop_last() =~= before_arrows);
    assert(node_lines(with) == node_lines(before));
    assert(edge_lines(with, with_arrows) =~= edge_lines(before, before_arrows));
    lemma_node_lines_follow_module_order(with, after);
    lemma_node_lines_follow_module_order(before, after);
    lemma_edge_lines_follow_module_order(with, with_arrows, after, after_arrows);
    lemma_edge_lines_follow_module_order(before, before_arrows, after, after_arrows);
}

/// Every document opens with the opening marker and closes with the closing
/// marker.
pub proof fn lemma_document_is_enclosed_in_markers(
    modules: Seq<ModuleRecord>,
    arrows: Seq<Seq<char>>,
)
    ensures
        "@startuml"@.is_prefix_of(document(modules, arrows)),
        "@enduml"@.is_suffix_of(document(modules, arrows)),
{
    reveal_strlit("@startuml");
    reveal_strlit("@startuml\n");
    reveal_strlit("@enduml");
    let doc = document(modules, arrows);
    assert(doc.subrange(0, 9) =~= "@startuml"@);
    assert(doc.subrange(doc.len() - 7, doc.len() as int) =~= "@enduml"@);
}

proof fn lemma_underscored_free_of_at(name: Seq<char>)
    requires
        free_of(name, '@'),
    ensures
        free_of(underscored(name), '@'),
{
}

proof fn lemma_node_lines_free_of_at(modules: Seq<ModuleRecord>)
    requires
        forall|i: int| 0 <= i < modules.len() ==> module_free_of(#[trigger] modules[i], '@'),
    ensures
        free_of(node_lines(modules), '@'),
    decreases modules.len(),
{
    if modules.len() > 0 {
        reveal_strlit("rectangle ");
        reveal_strlit("\n");
        assert(module_free_of(modules[modules.len() - 1], '@'));
        lemma_underscored_free_of_at(modules.last().module);
        assert forall|i: int| 0 <= i < modules.drop_last().len() implies module_free_of(
            #[trigger] modules.drop_last()[i],
            '@',
        ) by {
            assert(modules.drop_last()[i] == modules[i]);
        }
        lemma_node_lines_free_of_at(modules.drop_last());
        assert(free_of(node_line(modules.last().module), '@'));
    }
}

proof fn lemma_module_edges_free_of_at(module: Seq<char>, arrow: Seq<char>, deps: Seq<Seq<char>>)
    requires
        free_of(module, '@'),
        free_of(arrow, '@'),
        forall|j: int| 0 <= j < deps.len() ==> free_of(#[trigger] deps[j], '@'),
    ensures
        free_of(module_edges(module, arrow, deps), '@'),
    decreases deps.len(),
{
    if deps.len() > 0 {
        reveal_strlit("\n");
        assert(free_of(deps[deps.len() - 1], '@'));
        lemma_underscored_free_of_at(module);
        lemma_underscored_free_of_at(deps.last());
        assert forall|j: int| 0 <= j < deps.drop_last().len() implies free_of(
            #[trigger] deps.drop_last()[j],
            '@',
        ) by {
            assert(deps.drop_last()[j] == deps[j]);
        }
        lemma_module_edges_free_of_at(module, arrow, deps.drop_last());
        assert(free_of(edge_line(module, arrow, deps.last()), '@'));
    }
}

proof fn lemma_edge_lines_free_of_at(modules: Seq<ModuleRecord>, arrows: Seq<Seq<char>>)
    requires
        arrows.len() == modules.len(),
        forall|i: int| 0 <= i < modules.len() ==> module_free_of(#[trigger] modules[i], '@'),
        forall|i: int| 0 <= i < arrows.len() ==> free_of(#[trigger] arrows[i], '@'),
    ensures
        free_of(edge_lines(modules, arrows), '@'),
    decreases modules.len(),
{
    if modules.len() > 0 {
        let last = modules[modules.len() - 1];
        assert(module_free_of(last, '@'));
        assert(free_of(arrows[arrows.len() - 1], '@'));
        lemma_module_edges_free_of_at(last.module, arrows.last(), last.deps);
        assert forall|i: int| 0 <= i < modules.drop_last().len() implies module_free_of(
            #[trigger] modules.drop_last()[i],
            '@',
        ) by {
            assert(modules.drop_last()[i] == modules[i]);
        }
        assert forall|i: int| 0 <= i < arrows.drop_last().len() implies free_of(
            #[trigger] arrows.drop_last()[i],
            '@',
        ) by {
            assert(arrows.drop_last()[i] == arrows[i]);
        }
        lemma_edge_lines_free_of_at(modules.drop_last(), arrows.drop_last());
    }
}

/// Where no name and no arrow holds an `@`, the document holds the character
/// at its first place, where the opening marker begins, at the place where the
/// closing marker begins, and nowhere else: each marker stands in it once.
pub proof fn lemma_markers_stand_once(modules: Seq<ModuleRecord>, arrows: Seq<Seq<char>>)
    requires
        arrows.len() == modules.len(),
        forall|i: int| 0 <= i < modules.len() ==> module_free_of(#[trigger] modules[i], '@'),
        forall|i: int| 0 <= i < arrows.len() ==> free_of(#[trigger] arrows[i], '@'),
    ensures
        markers_stand_once(document(modules, arrows)),
{
    reveal_strlit("@startuml\n");
    reveal_strlit("\n");
    reveal_strlit("@enduml");
    lemma_node_lines_free_of_at(modules);
    lemma_edge_lines_free_of_at(modules, arrows);
}

/// Where no name holds an `@`, each marker stands once in the document with
/// plain arrows.
pub proof fn lemma_markers_stand_once_in_plain_document(modules: Seq<ModuleRecord>)
    requires
        forall|i: int| 0 <= i < modules.len() ==> module_free_of(#[trigger] modules[i], '@'),
    ensures
        markers_stand_once(plain_document(modules)),
{
    reveal_strlit(" --> ");
    lemma_markers_stand_once(modules, Seq::new(modules.len(), |i: int| plain_arrow()));
}

/// Where no name and no color holds an `@`, each marker stands once in the
/// document with colored arrows.
pub proof fn lemma_markers_stand_once_in_colored_document(
    modules: Seq<ModuleRecord>,
    colors: Seq<Seq<char>>,
)
    requires
        colors.len() == modules.len(),
        forall|i: int| 0 <= i < modules.len() ==> module_free_of(#[trigger] modules[i], '@'),
        forall|i: int| 0 <= i < colors.len() ==> free_of(#[trigger] colors[i], '@'),
    ensures
        markers_stand_once(colored_document(modules, colors)),
{
    reveal_strlit(" -[");
    reveal_strlit("]-> ");
    let arrows = colors.map_values(|c: Seq<char>| colored_arrow(c));
    assert forall|i: int| 0 <= i < arrows.len() implies free_of(#[trigger] arrows[i], '@') by {
        assert(free_of(colors[i], '@'));
    }
    lemma_markers_stand_once(modules, arrows);
}

proof fn lemma_count_of_push(text: Seq<char>, last: char, c: char)
    ensures
        count_of(text.push(last), c) == count_of(text, c) + (if last == c {
            1nat
        } else {
            0nat
        }),
{
    assert(text.push(last).drop_last() =~= text);
}

proof fn lemma_count_of_concat(first: Seq<char>, rest: Seq<char>, c: char)
    ensures
        count_of(first + rest, c) == count_of(first, c) + count_of(rest, c),
    decreases rest.len(),
{
    if rest.len() == 0 {
        assert(first + rest =~= first);
    } else {
        assert((first + rest).drop_last() =~= first + rest.drop_last());
        lemma_count_of_concat(first, rest.drop_last(), c);
    }
}

proof fn lemma_count_of_absent(text: Seq<char>, c: char)
    requires
        free_of(text, c),
    ensures
        count_of(text, c) == 0,
    decreases text.len(),
{
    if text.len() > 0 {
        lemma_count_of_absent(text.drop_last(), c);
    }
}

proof fn lemma_node_lines_hold_no_hyphen(modules: Seq<ModuleRecord>)
    ensures
        count_of(node_lines(modules), '-') == 0,
    decreases modules.len(),
{
    if modules.len() > 0 {
        reveal_strlit("rectangle ");
        reveal_strlit("\n");
        lemma_node_lines_hold_no_hyphen(modules.drop_last());
        let line = node_line(modules.last().module);
        assert(free_of(line, '-'));
        lemma_count_of_absent(line, '-');
        lemma_count_of_concat(node_lines(modules.drop_last()), line, '-');
    }
}

proof fn lemma_module_edges_hyphens(module: Seq<char>, arrow: Seq<char>, deps: Seq<Seq<char>>)
    requires
        count_of(arrow, '-') == 2,
    ensures
        count_of(module_edges(module, arrow, deps), '-') == 2 * deps.len(),
    decreases deps.len(),
{
    if deps.len() > 0 {
        reveal_strlit("\n");
        lemma_module_edges_hyphens(module, arrow, deps.drop_last());
        let from = underscored(module);
        let to = underscored(deps.last());
        lemma_count_of_absent(from, '-');
        lemma_count_of_absent(to, '-');
        lemma_count_of_absent("\n"@, '-');
        lemma_count_of_concat(from, arrow, '-');
        lemma_count_of_concat(from + arrow, to, '-');
        lemma_count_of_concat(from + arrow + to, "\n"@, '-');
        lemma_count_of_concat(
            module_edges(module, arrow, deps.drop_last()),
            edge_line(module, arrow, deps.last()),
            '-',
        );
    }
}

proof fn lemma_edge_lines_hyphens(modules: Seq<ModuleRecord>, arrows: Seq<Seq<char>>)
    requires
        arrows.len() == modules.len(),
        forall|i: int| 0 <= i < arrows.len() ==> count_of(#[trigger] arrows[i], '-') == 2,
    ensures
        count_of(edge_lines(modules, arrows), '-') == 2 * edge_count(modules),
    decreases modules.len(),
{
    if modules.len() > 0 {
        assert(count_of(arrows[arrows.len() - 1], '-') == 2);
        assert forall|i: int| 0 <= i < arrows.drop_last().len() implies count_of(
            #[trigger] arrows.drop_last()[i],
            '-',
        ) == 2 by {
            assert(arrows.drop_last()[i] == arrows[i]);
        }
        lemma_edge_lines_hyphens(modules.drop_last(), arrows.drop_last());
        lemma_module_edges_hyphens(modules.last().module, arrows.last(), modules.last().deps);
        lemma_count_of_concat(
            edge_lines(modules.drop_last(), arrows.drop_last()),
            module_edges(modules.last().module, arrows.last(), modules.last().deps),
            '-',
        );
    }
}

/// Where each arrow holds two hyphens, the document holds two hyphens for
/// each edge and no other: a hyphen stands in the document only inside an
/// arrow, and every arrow keeps both of its own.
pub proof fn lemma_hyphens_stand_in_arrows(modules: Seq<ModuleRecord>, arrows: Seq<Seq<char>>)
    requires
        arrows.len() == modules.len(),
        forall|i: int| 0 <= i < arrows.len() ==> count_of(#[trigger] arrows[i], '-') == 2,
    ensures
        count_of(document(modules, arrows), '-') == 2 * edge_count(modules),
{
    reveal_strlit("@startuml\n");
    reveal_strlit("\n");
    reveal_strlit("@enduml");
    lemma_node_lines_hold_no_hyphen(modules);
    lemma_edge_lines_hyphens(modules, arrows);
    let head = "@startuml\n"@;
    let nodes = node_lines(modules);
    let edges = edge_lines(modules, arrows);
    lemma_count_of_absent(head, '-');
    lemma_count_of_absent("\n"@, '-');
    lemma_count_of_absent("@enduml"@, '-');
    lemma_count_of_concat(head, nodes, '-');
    lemma_count_of_concat(head + nodes, "\n"@, '-');
    lemma_count_of_concat(head + nodes + "\n"@, edges, '-');
    lemma_count_of_concat(head + nodes + "\n"@ + edges, "@enduml"@, '-');
}

/// The plain arrow holds two hyphens.
pub proof fn lemma_plain_arrow_holds_two_hyphens()
    ensures
        count_of(plain_arrow(), '-') == 2,
{
    reveal_strlit(" --> ");
    let e = Seq::<char>::empty();
    assert(plain_arrow() =~= e.push(' ').push('-').push('-').push('>').push(' '));
    lemma_count_of_push(e, ' ', '-');
    lemma_count_of_push(e.push(' '), '-', '-');
    lemma_count_of_push(e.push(' ').push('-'), '-', '-');
    lemma_count_of_push(e.push(' ').push('-').push('-'), '>', '-');
    lemma_count_of_push(e.push(' ').push('-').push('-').push('>'), ' ', '-');
}

/// A colored arrow holds two hyphens where the color holds none.
pub proof fn lemma_colored_arrow_holds_two_hyphens(color: Seq<char>)
    requires
        free_of(color, '-'),
    ensures
        count_of(colored_arrow(color), '-') == 2,
{
    reveal_strlit(" -[");
    reveal_strlit("]-> ");
    let e = Seq::<char>::empty();
    assert(" -["@ =~= e.push(' ').push('-').push('['));
    lemma_count_of_push(e, ' ', '-');
    lemma_count_of_push(e.push(' '), '-', '-');
    lemma_count_of_push(e.push(' ').push('-'), '[', '-');
    assert("]-> "@ =~= e.push(']').push('-').push('>').push(' '));
    lemma_count_of_push(e, ']', '-');
    lemma_count_of_push(e.push(']'), '-', '-');
    lemma_count_of_push(e.push(']').push('-'), '>', '-');
    lemma_count_of_push(e.push(']').push('-').push('>'), ' ', '-');
    lemma_count_of_absent(color, '-');
    lemma_count_of_concat(" -["@, color, '-');
    lemma_count_of_concat(" -["@ + color, "]-> "@, '-');
}

/// In the document with plain arrows a hyphen stands only inside an arrow:
/// it holds two hyphens for each edge.
pub proof fn lemma_hyphens_stand_in_plain_arrows(modules: Seq<ModuleRecord>)
    ensures
        count_of(plain_document(modules), '-') == 2 * edge_count(modules),
{
    lemma_plain_arrow_holds_two_hyphens();
    lemma_hyphens_stand_in_arrows(modules, Seq::new(modules.len(), |i: int| plain_arrow()));
}

/// What holds of a document whose colors hold no hyphen, no `@` and no line
/// break: a hyphen stands in it only inside an arrow, two for each edge, and,
/// where no name holds an `@`, each marker stands in it once.
pub proof fn lemma_colored_document_is_well_formed(
    modules: Seq<ModuleRecord>,
    colors: Seq<Seq<char>>,
)
    requires
        colors.len() == modules.len(),
        forall|i: int| 0 <= i < colors.len() ==> is_plain_color(#[trigger] colors[i]),
    ensures
        count_of(colored_document(modules, colors), '-') == 2 * edge_count(modules),
        names_free_of(modules, '@') ==> markers_stand_once(colored_document(modules, colors)),
{
    let arrows = colors.map_values(|c: Seq<char>| colored_arrow(c));
    assert forall|i: int| 0 <= i < arrows.len() implies count_of(#[trigger] arrows[i], '-')
        == 2 by {
        assert(is_plain_color(colors[i]));
        lemma_colored_arrow_holds_two_hyphens(colors[i]);
    }
    lemma_hyphens_stand_in_arrows(modules, arrows);
    if names_free_of(modules, '@') {
        assert forall|i: int| 0 <= i < colors.len() implies free_of(#[trigger] colors[i], '@') by {
            assert(is_plain_color(colors[i]));
        }
        lemma_markers_stand_once_in_colored_document(modules, colors);
    }
}

} // verus!
