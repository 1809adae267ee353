//! What holds of the two stages for every database and every model.

use vstd::prelude::*;
use crate::extract::item_of;
use crate::extract::model_of;
use crate::extract::module_refs;
use crate::extract::symbols_of;
use crate::graph::docs_attribute;
use crate::graph::graph_of;
use crate::graph::crate_type;
use crate::graph::identifier_of;
use crate::graph::module_type;
use crate::graph::modules_relationship;
use crate::graph::name_attribute;
use crate::graph::resource_of;
use crate::graph::ResourceRefView;
use crate::graph::ResourceView;
use crate::model::as_map;
use crate::model::distinct_keys;
use crate::model::has_key;
use crate::model::inserted;
use crate::model::DefinitionView;
use crate::model::DocDataView;
use crate::model::EntryView;
use crate::model::ItemView;
use crate::qualname::lemma_strip_root_qualname;
use crate::qualname::path_separator;
use crate::qualname::strippable;
use crate::qualname::stripped;
use crate::render::attribute_map;
use crate::render::document_of;
use crate::render::document_text;
use crate::render::relationship_map;
use crate::render::ResourceMembers;

verus! {

/// The map from qualified name to symbol that the children of a root give:
/// each documented child is put under its qualified name, in the order of
/// the children.
pub open spec fn symbol_map(children: Seq<DefinitionView>) -> Map<Seq<char>, ItemView>
    decreases children.len(),
{
    if children.len() == 0 {
        Map::empty()
    } else {
        let earlier = symbol_map(children.drop_last());
        let child = children.last();
        if child.kind.documented() {
            earlier.insert(child.qualname, item_of(child))
        } else {
            earlier
        }
    }
}

/// Whether some documented child has the qualified name `qualname`.
pub open spec fn documents(children: Seq<DefinitionView>, qualname: Seq<char>) -> bool {
    exists|i: int|
        0 <= i < children.len() && (#[trigger] children[i]).kind.documented()
            && children[i].qualname == qualname
}

/// Storing a symbol keeps the qualified names of a table distinct, adds
/// the name it is stored under and no other, and changes the table as a map
/// by one insertion.
pub proof fn lemma_inserted(entries: Seq<EntryView>, qualname: Seq<char>, item: ItemView)
    requires
        distinct_keys(entries),
    ensures
        distinct_keys(inserted(entries, qualname, item)),
        forall|k: Seq<char>|
            has_key(inserted(entries, qualname, item), k) <==> (k == qualname || has_key(
                entries,
                k,
            )),
        as_map(inserted(entries, qualname, item)) == as_map(entries).insert(qualname, item),
{
    let after = inserted(entries, qualname, item);
    let entry = EntryView { qualname, item };
    if has_key(entries, qualname) {
        assert(after.len() == entries.len());
        assert forall|i: int| 0 <= i < after.len() implies (#[trigger] after[i]).qualname
            == entries[i].qualname by {}
    } else {
        assert(after.len() == entries.len() + 1);
        assert forall|i: int| 0 <= i < entries.len() implies (#[trigger] after[i])
            == entries[i] by {}
        assert(after[entries.len() as int] == entry);
    }
    assert forall|i: int, j: int| 0 <= i < j < after.len() implies (#[trigger] after[i]).qualname
        != (#[trigger] after[j]).qualname by {
        if has_key(entries, qualname) {
            assert(entries[i].qualname != entries[j].qualname);
        } else {
            if j < entries.len() {
                assert(entries[i].qualname != entries[j].qualname);
            } else {
                assert(entries[i].qualname != qualname);
            }
        }
    }
    assert forall|k: Seq<char>| has_key(after, k) <==> (k == qualname || has_key(entries, k)) by {
        if has_key(after, k) {
            let i = choose|i: int| 0 <= i < after.len() && (#[trigger] after[i]).qualname == k;
            if k != qualname {
                assert(i < entries.len());
                assert(entries[i].qualname == k);
            }
        }
        if k == qualname {
            if has_key(entries, qualname) {
                let i = choose|i: int|
                    0 <= i < entries.len() && (#[trigger] entries[i]).qualname == qualname;
                assert(after[i].qualname == k);
            } else {
                assert(after[entries.len() as int].qualname == k);
            }
        }
        if has_key(entries, k) {
            let i = choose|i: int| 0 <= i < entries.len() && (#[trigger] entries[i]).qualname == k;
            assert(after[i].qualname == k);
        }
    }
    let left = as_map(after);
    let right = as_map(entries).insert(qualname, item);
    assert forall|k: Seq<char>| left.dom().contains(k) implies #[trigger] left[k] == right[k] by {
        let i = choose|i: int| 0 <= i < after.len() && (#[trigger] after[i]).qualname == k;
        if k == qualname {
            if has_key(entries, qualname) {
                assert(after[i] == entry);
            } else {
                if i < entries.len() {
                    assert(entries[i].qualname == qualname);
                }
                assert(after[i] == entry);
            }
        } else {
            assert(i < entries.len());
            assert(entries[i].qualname == k);
            assert(after[i] == entries[i]);
            let j = choose|j: int| 0 <= j < entries.len() && (#[trigger] entries[j]).qualname == k;
            if i < j {
                assert(entries[i].qualname != entries[j].qualname);
            }
            if j < i {
                assert(entries[j].qualname != entries[i].qualname);
            }
        }
    }
    assert(left.dom() =~= right.dom());
    assert(left =~= right);
}

/// The symbol table of any children has no qualified name twice, holds a
/// qualified name exactly if a documented child has it, and is, as a map,
/// what putting each documented child under its qualified name gives: of
/// two documented children with one qualified name the later one stays.
pub proof fn lemma_symbols_of(children: Seq<DefinitionView>)
    ensures
        distinct_keys(symbols_of(children)),
        forall|k: Seq<char>| has_key(symbols_of(children), k) <==> documents(children, k),
        as_map(symbols_of(children)) == symbol_map(children),
    decreases children.len(),
{
    let table = symbols_of(children);
    if children.len() == 0 {
        assert(as_map(table) =~= symbol_map(children));
    } else {
        let init = children.drop_last();
        let child = children.last();
        lemma_symbols_of(init);
        if child.kind.documented() {
            lemma_inserted(symbols_of(init), child.qualname, item_of(child));
        }
        assert forall|k: Seq<char>| has_key(table, k) <==> documents(children, k) by {
            if documents(children, k) {
                let i = choose|i: int|
                    0 <= i < children.len() && (#[trigger] children[i]).kind.documented()
                        && children[i].qualname == k;
                if i < init.len() {
                    assert(init[i] == children[i]);
                    assert(documents(init, k));
                }
            }
            if documents(init, k) {
                let i = choose|i: int|
                    0 <= i < init.len() && (#[trigger] init[i]).kind.documented()
                        && init[i].qualname == k;
                assert(children[i] == init[i]);
            }
            if child.kind.documented() && k == child.qualname {
                assert(children[children.len() - 1] == child);
            }
        }
    }
}

/// Children that are not documented leave no trace: the model of a root is
/// the model of the same root with only its documented children, and so
/// is the graph, with its included resources and its relationship.
pub proof fn lemma_undocumented_children_are_ignored(
    id: rls_analysis::Id,
    root: DefinitionView,
    children: Seq<DefinitionView>,
)
    ensures
        model_of(id, root, children) == model_of(
            id,
            root,
            children.filter(|d: DefinitionView| d.kind.documented()),
        ),
        graph_of(model_of(id, root, children), root) == graph_of(
            model_of(id, root, children.filter(|d: DefinitionView| d.kind.documented())),
            root,
        ),
    decreases children.len(),
{
    let documented = |d: DefinitionView| d.kind.documented();
    let kept = children.filter(documented);
    if children.len() == 0 {
        reveal(Seq::filter);
        assert(kept =~= children);
    } else {
        let init = children.drop_last();
        let child = children.last();
        assert(children =~= init.push(child));
        init.lemma_filter_push(child, documented);
        lemma_undocumented_children_are_ignored(id, root, init);
        let kept_init = init.filter(documented);
        assert(symbols_of(init) == symbols_of(kept_init));
        assert(module_refs(init) == module_refs(kept_init));
        if child.kind.documented() {
            assert(kept == kept_init.push(child));
            assert(kept.drop_last() =~= kept_init);
            assert(kept.last() == child);
            kept_init.lemma_filter_push(child, documented);
            assert(module_refs(kept) =~= module_refs(kept_init).push(child.qualname));
            assert(module_refs(children) =~= module_refs(init).push(child.qualname));
        } else {
            assert(kept == kept_init);
        }
        assert(symbols_of(children) == symbols_of(kept));
        assert(module_refs(children) == module_refs(kept));
    }
}

/// No child that is not documented has an entry, a resource or an
/// identifier of its own: each entry of the symbol table stands under the
/// qualified name of a documented child, and as many qualified names are
/// listed for the crate as there are documented children.
pub proof fn lemma_only_documented_children_appear(children: Seq<DefinitionView>)
    ensures
        forall|i: int|
            0 <= i < symbols_of(children).len() ==> documents(
                children,
                (#[trigger] symbols_of(children)[i]).qualname,
            ),
        forall|i: int|
            0 <= i < module_refs(children).len() ==> documents(
                children,
                #[trigger] module_refs(children)[i],
            ),
        module_refs(children).len() == children.filter(
            |d: DefinitionView| d.kind.documented(),
        ).len(),
{
    lemma_symbols_of(children);
    let table = symbols_of(children);
    assert forall|i: int| 0 <= i < table.len() implies documents(
        children,
        (#[trigger] table[i]).qualname,
    ) by {
        assert(has_key(table, table[i].qualname));
    }
    let documented = |d: DefinitionView| d.kind.documented();
    let kept = children.filter(documented);
    assert forall|i: int| 0 <= i < module_refs(children).len() implies documents(
        children,
        #[trigger] module_refs(children)[i],
    ) by {
        let d = kept[i];
        children.lemma_filter_pred(documented, i);
        assert(kept.contains(d));
        children.lemma_filter_contains_rev(documented, d);
        let j = choose|j: int| 0 <= j < children.len() && children[j] == d;
        assert(children[j].kind.documented() && children[j].qualname == d.qualname);
    }
}

/// The root of a crate `name` has the qualified name `name::`. Whatever
/// else the root and its children hold, the crate of the model is then
/// called `name`, and the primary resource has the id `name`, in the graph
/// and in the document.
pub proof fn lemma_crate_name(
    name: Seq<char>,
    id: rls_analysis::Id,
    root: DefinitionView,
    children: Seq<DefinitionView>,
    model: DocDataView,
)
    requires
        root.qualname == name + path_separator(),
    ensures
        strippable(root.qualname),
        model_of(id, root, children).krate.name == name,
        graph_of(model, root).data.id == name,
        document_of(graph_of(model, root)).data.id == name,
{
    lemma_strip_root_qualname(name);
}

/// The included resources and the `modules` relationship of the primary
/// resource go in lock-step: the relationship lists, position by position,
/// the type and id of each included resource. So every identifier that is
/// listed has its resource, and every resource is listed. This holds of the
/// graph and of the document that is made of it.
pub proof fn lemma_relationship_matches_included(model: DocDataView, root: DefinitionView)
    ensures
        graph_of(model, root).data.relationships.len() == 1,
        graph_of(model, root).data.relationships[0].name == modules_relationship(),
        graph_of(model, root).data.relationships[0].data == graph_of(
            model,
            root,
        ).included_identifiers(),
        graph_of(model, root).data.relationships[0].data.to_set() == graph_of(
            model,
            root,
        ).included_identifiers().to_set(),
        graph_of(model, root).included.len() == model.data.len(),
        document_of(graph_of(model, root)).data.relationships.dom() == set![modules_relationship()],
        document_of(graph_of(model, root)).data.relationships[modules_relationship()]
            == document_of(graph_of(model, root)).included.map_values(
            |m: ResourceMembers| ResourceRefView { kind: m.kind, id: m.id },
        ),
{
    let graph = graph_of(model, root);
    let listed = graph.data.relationships[0].data;
    assert(listed =~= graph.included_identifiers());
    lemma_document_of_model(model, root);
    let document = document_of(graph);
    assert(document.data.relationships.dom() =~= set![modules_relationship()]);
    assert(document.data.relationships[modules_relationship()] =~= document.included.map_values(
        |m: ResourceMembers| ResourceRefView { kind: m.kind, id: m.id },
    ));
}

/// Each included resource is a module under the qualified name of its
/// entry, and where no two entries of the model share a qualified name, no
/// two included resources share their type and id.
pub proof fn lemma_included_identities(model: DocDataView, root: DefinitionView)
    requires
        distinct_keys(model.data),
    ensures
        forall|i: int|
            0 <= i < model.data.len() ==> (#[trigger] graph_of(
                model,
                root,
            ).included_identifiers()[i]) == (ResourceRefView {
                kind: module_type(),
                id: model.data[i].qualname,
            }),
        graph_of(model, root).included_identifiers().no_duplicates(),
{
    let ids = graph_of(model, root).included_identifiers();
    assert forall|i: int| 0 <= i < model.data.len() implies (#[trigger] ids[i]) == (
    ResourceRefView { kind: module_type(), id: model.data[i].qualname }) by {}
    assert forall|i: int, j: int| 0 <= i < ids.len() && 0 <= j < ids.len() && i != j implies ids[i]
        != ids[j] by {
        if i < j {
            assert(model.data[i].qualname != model.data[j].qualname);
        } else {
            assert(model.data[j].qualname != model.data[i].qualname);
        }
    }
}

/// Building twice from a database that has not changed gives the same
/// graph and, letter for letter, the same text: the model decides the
/// included resources and the relationship, the definition of the root
/// decides the rest.
pub proof fn lemma_build_is_repeatable(
    model: DocDataView,
    first_root: DefinitionView,
    second_root: DefinitionView,
    first_text: Seq<char>,
    second_text: Seq<char>,
)
    requires
        first_root == second_root,
        first_text == document_text(document_of(graph_of(model, first_root))),
        second_text == document_text(document_of(graph_of(model, second_root))),
    ensures
        graph_of(model, first_root) == graph_of(model, second_root),
        first_text == second_text,
{
}

/// The members of the document of a model. The primary resource is a
/// `crate` under the name of the root without its separator, with the
/// documentation of the root as its one attribute `docs` and the
/// identifiers of the entries as its one relationship `modules`. Each
/// included resource is a `module` under the qualified name of its entry,
/// with the attributes `name` and `docs` and no relationship.
pub proof fn lemma_document_of_model(model: DocDataView, root: DefinitionView)
    ensures
        document_of(graph_of(model, root)).data == (ResourceMembers {
            kind: crate_type(),
            id: stripped(root.qualname),
            attributes: Map::empty().insert(docs_attribute(), root.docs),
            relationships: Map::empty().insert(
                modules_relationship(),
                model.data.map_values(|e: EntryView| identifier_of(e)),
            ),
        }),
        document_of(graph_of(model, root)).included.len() == model.data.len(),
        forall|i: int|
            0 <= i < model.data.len() ==> (#[trigger] document_of(
                graph_of(model, root),
            ).included[i]) == (ResourceMembers {
                kind: module_type(),
                id: model.data[i].qualname,
                attributes: Map::empty().insert(
                    name_attribute(),
                    model.data[i].item->Module_name,
                ).insert(docs_attribute(), model.data[i].item->Module_docs),
                relationships: Map::empty(),
            }),
{
    reveal_with_fuel(attribute_map, 3);
    reveal_with_fuel(relationship_map, 2);
    let graph = graph_of(model, root);
    let document = document_of(graph);
    assert(graph.data.attributes.drop_last() =~= Seq::empty());
    assert(graph.data.relationships.drop_last() =~= Seq::empty());
    assert(document.data.attributes =~= Map::empty().insert(docs_attribute(), root.docs));
    assert(document.data.relationships =~= Map::empty().insert(
        modules_relationship(),
        model.data.map_values(|e: EntryView| identifier_of(e)),
    ));
    assert forall|i: int| 0 <= i < model.data.len() implies (#[trigger] document.included[i]) == (
    ResourceMembers {
        kind: module_type(),
        id: model.data[i].qualname,
        attributes: Map::empty().insert(name_attribute(), model.data[i].item->Module_name).insert(
            docs_attribute(),
            model.data[i].item->Module_docs,
        ),
        relationships: Map::empty(),
    }) by {
        let resource = resource_of(model.data[i]);
        assert(graph.included[i] == resource);
        assert(resource.attributes.drop_last().drop_last() =~= Seq::empty());
        assert(document.included[i].attributes =~= Map::empty().insert(
            name_attribute(),
            model.data[i].item->Module_name,
        ).insert(docs_attribute(), model.data[i].item->Module_docs));
        assert(document.included[i].relationships =~= Map::empty());
    }
}

/// A crate without documented children has no included resource and an
/// empty `modules` relationship.
pub proof fn lemma_empty_crate(id: rls_analysis::Id, root: DefinitionView)
    ensures
        graph_of(model_of(id, root, Seq::empty()), root).included == Seq::<ResourceView>::empty(),
        graph_of(model_of(id, root, Seq::empty()), root).data.relationships[0].data == Seq::<
            ResourceRefView,
        >::empty(),
{
    let graph = graph_of(model_of(id, root, Seq::empty()), root);
    assert(graph.included =~= Seq::<ResourceView>::empty());
    assert(graph.data.relationships[0].data =~= Seq::<ResourceRefView>::empty());
}

} // verus!
