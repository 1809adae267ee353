//! The first stage: from the analysis database to the documentation model.

use vstd::prelude::*;
use vstd::string::*;
use crate::error::not_found_message;
use crate::error::CrateErr;
use crate::error::ExtractionError;
use crate::model::definition_views;
use crate::model::inserted;
use crate::model::Crate;
use crate::model::CrateView;
use crate::model::Definition;
use crate::model::DefinitionView;
use crate::model::DocData;
use crate::model::DocDataView;
use crate::model::EntryView;
use crate::model::Item;
use crate::model::ItemView;
use crate::model::SymbolTable;
use crate::qualname::is_strippable;
use crate::qualname::strip_trailing_path_separator;
use crate::qualname::strippable;
use crate::qualname::stripped;
use crate::source::AnalysisSource;

verus! {

/// Whether `roots[i]` is the first root with the name `name`.
pub open spec fn first_root_at(
    roots: Seq<(rls_analysis::Id, String)>,
    name: Seq<char>,
    i: int,
) -> bool {
    &&& 0 <= i < roots.len()
    &&& roots[i].1@ == name
    &&& forall|j: int| 0 <= j < i ==> (#[trigger] roots[j]).1@ != name
}

/// Whether some root has exactly the name `name`.
pub open spec fn has_root(roots: Seq<(rls_analysis::Id, String)>, name: Seq<char>) -> bool {
    exists|i: int| 0 <= i < roots.len() && (#[trigger] roots[i]).1@ == name
}

/// The symbol that a documented definition is entered as.
pub open spec fn item_of(def: DefinitionView) -> ItemView {
    ItemView::Module { name: def.name, docs: def.docs }
}

/// The symbol table that the children of a root give: each documented child
/// is stored under its qualified name, in the order of the children, and a
/// later child overwrites an earlier one of the same qualified name.
pub open spec fn symbols_of(children: Seq<DefinitionView>) -> Seq<EntryView>
    decreases children.len(),
{
    if children.len() == 0 {
        Seq::empty()
    } else {
        let earlier = symbols_of(children.drop_last());
        let child = children.last();
        if child.kind.documented() {
            inserted(earlier, child.qualname, item_of(child))
        } else {
            earlier
        }
    }
}

/// The qualified names of the documented children, in their order.
pub open spec fn module_refs(children: Seq<DefinitionView>) -> Seq<Seq<char>> {
    children.filter(|d: DefinitionView| d.kind.documented()).map_values(
        |d: DefinitionView| d.qualname,
    )
}

/// The documentation model of the root `id` with definition `root` and
/// direct children `children`.
pub open spec fn model_of(
    id: rls_analysis::Id,
    root: DefinitionView,
    children: Seq<DefinitionView>,
) -> DocDataView {
    DocDataView {
        krate: CrateView {
            id,
            name: stripped(root.qualname),
            docs: root.docs,
            modules: module_refs(children),
        },
        data: symbols_of(children),
    }
}

/// Whether `model` is the documentation model of some root definition with
/// a qualified name that can be stripped, and some children.
pub open spec fn is_model(model: DocDataView) -> bool {
    exists|root: DefinitionView, children: Seq<DefinitionView>|
        #![trigger model_of(model.krate.id, root, children)]
        strippable(root.qualname) && model == model_of(model.krate.id, root, children)
}

/// Whether `table` holds the symbols of some children, and `after` is
/// `before` with the qualified names of the documented ones among them
/// appended to its module list.
pub open spec fn collected(before: CrateView, table: Seq<EntryView>, after: CrateView) -> bool {
    exists|children: Seq<DefinitionView>|
        #![trigger symbols_of(children)]
        table == symbols_of(children) && after == (CrateView {
            modules: before.modules + module_refs(children),
            ..before
        })
}

/// The identifier of the first root whose name is exactly `name`.
pub fn find_root(roots: &Vec<(rls_analysis::Id, String)>, name: &str) -> (found: Option<
    rls_analysis::Id,
>)
    ensures
        found is Some <==> has_root(roots@, name@),
        found matches Some(id) ==> exists|i: int|
            first_root_at(roots@, name@, i) && (#[trigger] roots@[i]).0 == id,
{
    let wanted = String::from_str(name);
    let mut i: usize = 0;
    while i < roots.len()
        invariant
            i <= roots.len(),
            wanted@ == name@,
            forall|j: int| 0 <= j < i ==> (#[trigger] roots@[j]).1@ != name@,
        decreases roots.len() - i,
    {
        if roots[i].1 == wanted {
            assert(first_root_at(roots@, name@, i as int));
            return Some(roots[i].0);
        }
        i += 1;
    }
    None
}

/// The identifier of the first root called `name`, or the error that names
/// the crate that was not found.
pub fn resolve_root(roots: &Vec<(rls_analysis::Id, String)>, name: &str) -> (resolved: Result<
    rls_analysis::Id,
    CrateErr,
>)
    ensures
        resolved is Ok <==> has_root(roots@, name@),
        resolved matches Ok(id) ==> exists|i: int|
            first_root_at(roots@, name@, i) && (#[trigger] roots@[i]).0 == id,
        resolved matches Err(err) ==> err@ == not_found_message(name@),
{
    match find_root(roots, name) {
        Some(id) => Ok(id),
        None => Err(CrateErr::new(name)),
    }
}

/// Enters the documented ones among `children` into a new symbol table and
/// appends their qualified names to the module list of `krate`.
pub fn collect_modules(children: &Vec<Definition>, krate: &mut Crate) -> (table: SymbolTable)
    ensures
        table@ == symbols_of(definition_views(children@)),
        final(krate)@ == (CrateView {
            modules: old(krate)@.modules + module_refs(definition_views(children@)),
            ..old(krate)@
        }),
{
    let mut table = SymbolTable::new();
    let ghost views = definition_views(children@);
    let mut i: usize = 0;
    proof {
        assert(views.take(0) =~= Seq::<DefinitionView>::empty());
        reveal(Seq::filter);
        assert(module_refs(views.take(0)) =~= Seq::<Seq<char>>::empty());
        assert(krate@.modules + module_refs(views.take(0)) =~= krate@.modules);
    }
    while i < children.len()
        invariant
            i <= children.len(),
            views == definition_views(children@),
            views.len() == children.len(),
            table@ == symbols_of(views.take(i as int)),
            krate@ == (CrateView {
                modules: old(krate)@.modules + module_refs(views.take(i as int)),
                ..old(krate)@
            }),
        decreases children.len() - i,
    {
        let child = &children[i];
        proof {
            let before = views.take(i as int);
            let after = views.take(i as int + 1);
            assert(after.drop_last() =~= before);
            assert(after.last() == child@);
            assert(after =~= before.push(child@));
            before.lemma_filter_push(child@, |d: DefinitionView| d.kind.documented());
            if child@.kind.documented() {
                assert(module_refs(after) =~= module_refs(before).push(child@.qualname));
            }
        }
        if child.kind.is_documented() {
            table.insert(
                child.qualname.clone(),
                Item::Module { name: child.name.clone(), docs: child.docs.clone() },
            );
            let ghost listed = krate@.modules;
            krate.modules.push(child.qualname.clone());
            assert(krate@.modules =~= listed.push(child@.qualname));
            assert(krate@.modules =~= old(krate)@.modules + module_refs(
                views.take(i as int + 1),
            ));
        }
        i += 1;
    }
    assert(views.take(i as int) =~= views);
    table
}

impl DocData {
    /// The documentation model of the root `id`, given its definition and
    /// its direct children.
    pub fn from_definitions(
        id: rls_analysis::Id,
        root: &Definition,
        children: &Vec<Definition>,
    ) -> (extracted: Result<DocData, ExtractionError>)
        ensures
            extracted is Ok <==> strippable(root@.qualname),
            extracted matches Ok(data) ==> data@ == model_of(
                id,
                root@,
                definition_views(children@),
            ),
            extracted matches Err(e) ==> e == ExtractionError::MalformedRootName(id),
    {
        let name = match strip_trailing_path_separator(root.qualname.as_str()) {
            Some(name) => name,
            None => {
                return Err(ExtractionError::MalformedRootName(id));
            },
        };
        let mut krate = Crate { id, name, docs: root.docs.clone(), modules: Vec::new() };
        let data = collect_modules(children, &mut krate);
        assert(krate@.modules =~= module_refs(definition_views(children@)));
        Ok(DocData { krate, data })
    }

    /// Asks the database for the direct children of `root_id`, enters the
    /// documented ones into a new symbol table and appends their qualified
    /// names to the module list of `krate`.
    pub fn build_data(source: &AnalysisSource, root_id: rls_analysis::Id, krate: &mut Crate) -> (built:
        Result<SymbolTable, ExtractionError>)
        ensures
            built matches Ok(table) ==> collected(old(krate)@, table@, final(krate)@),
            built matches Err(e) ==> e == ExtractionError::DefinitionUnavailable(root_id)
                && *final(krate) == *old(krate),
    {
        let children = match source.children(root_id) {
            Some(children) => children,
            None => {
                return Err(ExtractionError::DefinitionUnavailable(root_id));
            },
        };
        let table = collect_modules(&children, krate);
        Ok(table)
    }

    /// Extracts the documentation model of the crate called `crate_name`.
    ///
    /// The root is looked up by exact name among the roots of the database.
    /// The database is then asked for the definition of the root and, where
    /// the qualified name of the root can be stripped, for its direct
    /// children. The model is what `from_definitions` makes of the root and
    /// the children that came back.
    pub fn new(source: &AnalysisSource, crate_name: &str) -> (extracted: Result<
        DocData,
        ExtractionError,
    >)
        ensures
            extracted matches Ok(data) ==> is_model(data@),
            extracted matches Err(ExtractionError::CrateNotFound(err)) ==> err@
                == not_found_message(crate_name@),
    {
        let root_id = match source.resolve_root(crate_name) {
            Ok(id) => id,
            Err(err) => {
                return Err(ExtractionError::CrateNotFound(err));
            },
        };
        let root_def = match source.definition(root_id) {
            Some(def) => def,
            None => {
                return Err(ExtractionError::DefinitionUnavailable(root_id));
            },
        };
        if !is_strippable(root_def.qualname.as_str()) {
            return Err(ExtractionError::MalformedRootName(root_id));
        }
        let children = match source.children(root_id) {
            Some(children) => children,
            None => {
                return Err(ExtractionError::DefinitionUnavailable(root_id));
            },
        };
        let extracted = DocData::from_definitions(root_id, &root_def, &children);
        proof {
            let model = model_of(root_id, root_def@, definition_views(children@));
            assert(model == model_of(model.krate.id, root_def@, definition_views(children@)));
        }
        extracted
    }
}

} // verus!
