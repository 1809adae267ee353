//! The resource graph: the documentation model as typed resources, the
//! shape in which a JSON:API document carries it.

use vstd::prelude::*;
use vstd::string::*;
use crate::error::BuildError;
use crate::model::Definition;
use crate::model::DefinitionView;
use crate::model::DocData;
use crate::model::DocDataView;
use crate::model::Entry;
use crate::model::EntryView;
use crate::model::Item;
use crate::model::ItemView;
use crate::qualname::strip_trailing_path_separator;
use crate::qualname::strippable;
use crate::qualname::stripped;
use crate::source::AnalysisSource;

verus! {

/// One attribute of a resource: a name and a string value.
#[derive(Debug)]
pub struct Attribute {
    pub name: String,
    pub value: String,
}

pub struct AttributeView {
    pub name: Seq<char>,
    pub value: Seq<char>,
}

impl View for Attribute {
    type V = AttributeView;

    open spec fn view(&self) -> AttributeView {
        AttributeView { name: self.name@, value: self.value@ }
    }
}

/// What identifies a resource: its type and its id.
#[derive(Debug)]
pub struct ResourceRef {
    pub kind: String,
    pub id: String,
}

pub struct ResourceRefView {
    pub kind: Seq<char>,
    pub id: Seq<char>,
}

impl View for ResourceRef {
    type V = ResourceRefView;

    open spec fn view(&self) -> ResourceRefView {
        ResourceRefView { kind: self.kind@, id: self.id@ }
    }
}

/// A named relationship of a resource to other resources.
#[derive(Debug)]
pub struct RelationshipObject {
    pub name: String,
    pub data: Vec<ResourceRef>,
}

pub struct RelationshipView {
    pub name: Seq<char>,
    pub data: Seq<ResourceRefView>,
}

impl View for RelationshipObject {
    type V = RelationshipView;

    open spec fn view(&self) -> RelationshipView {
        RelationshipView { name: self.name@, data: self.data@.map_values(|r: ResourceRef| r@) }
    }
}

/// A resource: type, id, attributes and relationships.
#[derive(Debug)]
pub struct ResourceObject {
    pub kind: String,
    pub id: String,
    pub attributes: Vec<Attribute>,
    pub relationships: Vec<RelationshipObject>,
}

pub struct ResourceView {
    pub kind: Seq<char>,
    pub id: Seq<char>,
    pub attributes: Seq<AttributeView>,
    pub relationships: Seq<RelationshipView>,
}

impl ResourceView {
    /// The type and id of the resource.
    pub open spec fn identifier(self) -> ResourceRefView {
        ResourceRefView { kind: self.kind, id: self.id }
    }
}

impl View for ResourceObject {
    type V = ResourceView;

    open spec fn view(&self) -> ResourceView {
        ResourceView {
            kind: self.kind@,
            id: self.id@,
            attributes: self.attributes@.map_values(|a: Attribute| a@),
            relationships: self.relationships@.map_values(|r: RelationshipObject| r@),
        }
    }
}

/// A primary resource and the resources that it refers to.
#[derive(Debug)]
pub struct ResourceGraph {
    pub data: ResourceObject,
    pub included: Vec<ResourceObject>,
}

pub struct ResourceGraphView {
    pub data: ResourceView,
    pub included: Seq<ResourceView>,
}

impl View for ResourceGraph {
    type V = ResourceGraphView;

    open spec fn view(&self) -> ResourceGraphView {
        ResourceGraphView {
            data: self.data@,
            included: self.included@.map_values(|r: ResourceObject| r@),
        }
    }
}

impl ResourceGraphView {
    /// The identifiers of the included resources, in their order.
    pub open spec fn included_identifiers(self) -> Seq<ResourceRefView> {
        self.included.map_values(|r: ResourceView| r.identifier())
    }
}

/// The type of the primary resource.
pub open spec fn crate_type() -> Seq<char> {
    "crate"@
}

/// The type of the resource of a module.
pub open spec fn module_type() -> Seq<char> {
    "module"@
}

/// The name of the attribute that holds a documentation string.
pub open spec fn docs_attribute() -> Seq<char> {
    "docs"@
}

/// The name of the attribute that holds the short name of a symbol.
pub open spec fn name_attribute() -> Seq<char> {
    "name"@
}

/// The name of the relationship from the crate to its modules.
pub open spec fn modules_relationship() -> Seq<char> {
    "modules"@
}

/// The resource type of a symbol: its kind in lower case.
pub open spec fn item_type(item: ItemView) -> Seq<char> {
    match item {
        ItemView::Module { .. } => module_type(),
    }
}

/// The identifier under which the resource of `entry` is referred to.
pub open spec fn identifier_of(entry: EntryView) -> ResourceRefView {
    ResourceRefView { kind: item_type(entry.item), id: entry.qualname }
}

/// The included resource of `entry`.
pub open spec fn resource_of(entry: EntryView) -> ResourceView {
    match entry.item {
        ItemView::Module { name, docs } => ResourceView {
            kind: module_type(),
            id: entry.qualname,
            attributes: seq![
                AttributeView { name: name_attribute(), value: name },
                AttributeView { name: docs_attribute(), value: docs },
            ],
            relationships: Seq::empty(),
        },
    }
}

/// The primary resource of a crate with root definition `root` and symbol
/// table `entries`.
pub open spec fn primary_of(root: DefinitionView, entries: Seq<EntryView>) -> ResourceView {
    ResourceView {
        kind: crate_type(),
        id: stripped(root.qualname),
        attributes: seq![AttributeView { name: docs_attribute(), value: root.docs }],
        relationships: seq![
            RelationshipView {
                name: modules_relationship(),
                data: entries.map_values(|e: EntryView| identifier_of(e)),
            },
        ],
    }
}

/// The resource graph of `model`, with the name and the documentation of
/// the crate taken from `root`, the definition of its root as the database
/// has it when the graph is built.
pub open spec fn graph_of(model: DocDataView, root: DefinitionView) -> ResourceGraphView {
    ResourceGraphView {
        data: primary_of(root, model.data),
        included: model.data.map_values(|e: EntryView| resource_of(e)),
    }
}

/// Whether `graph` is the resource graph of `model` for some root
/// definition with a qualified name that can be stripped.
pub open spec fn is_graph_of(model: DocDataView, graph: ResourceGraphView) -> bool {
    exists|root: DefinitionView|
        #![trigger graph_of(model, root)]
        strippable(root.qualname) && graph == graph_of(model, root)
}

impl Item {
    /// The resource type of the symbol.
    pub fn resource_type(&self) -> (name: String)
        ensures
            name@ == item_type(self@),
    {
        match self {
            Item::Module { .. } => String::from_str("module"),
        }
    }
}

impl Entry {
    /// The identifier under which the resource of the entry is referred to.
    pub fn identifier(&self) -> (identifier: ResourceRef)
        ensures
            identifier@ == identifier_of(self@),
    {
        ResourceRef { kind: self.item.resource_type(), id: self.qualname.clone() }
    }

    /// The included resource of the entry.
    pub fn resource(&self) -> (resource: ResourceObject)
        ensures
            resource@ == resource_of(self@),
    {
        match &self.item {
            Item::Module { name, docs } => {
                let mut attributes: Vec<Attribute> = Vec::new();
                attributes.push(Attribute { name: String::from_str("name"), value: name.clone() });
                attributes.push(Attribute { name: String::from_str("docs"), value: docs.clone() });
                let resource = ResourceObject {
                    kind: self.item.resource_type(),
                    id: self.qualname.clone(),
                    attributes,
                    relationships: Vec::new(),
                };
                assert(resource@.attributes =~= resource_of(self@).attributes);
                assert(resource@.relationships =~= resource_of(self@).relationships);
                resource
            },
        }
    }
}

impl DocData {
    /// The resource graph of the model, with the name and the documentation
    /// of the crate taken from `root`.
    ///
    /// Each entry of the symbol table gives one included resource and, at
    /// the same position, one identifier in the `modules` relationship of
    /// the primary resource.
    pub fn resource_graph(&self, root: &Definition) -> (built: Result<ResourceGraph, BuildError>)
        ensures
            built is Ok <==> strippable(root@.qualname),
            built matches Ok(graph) ==> graph@ == graph_of(self@, root@),
            built matches Err(e) ==> e == BuildError::MalformedRootName(self.krate.id),
    {
        let id = match strip_trailing_path_separator(root.qualname.as_str()) {
            Some(id) => id,
            None => {
                return Err(BuildError::MalformedRootName(self.krate.id));
            },
        };
        let mut included: Vec<ResourceObject> = Vec::new();
        let mut modules: Vec<ResourceRef> = Vec::new();
        let n = self.data.len();
        let mut i: usize = 0;
        while i < n
            invariant
                i <= n,
                n == self.data@.len(),
                included@.len() == i,
                modules@.len() == i,
                forall|j: int| 0 <= j < i ==> (#[trigger] included@[j])@ == resource_of(self.data@[j]),
                forall|j: int| 0 <= j < i ==> (#[trigger] modules@[j])@ == identifier_of(self.data@[j]),
            decreases n - i,
        {
            let entry = self.data.entry(i);
            modules.push(entry.identifier());
            included.push(entry.resource());
            i += 1;
        }
        let mut attributes: Vec<Attribute> = Vec::new();
        attributes.push(Attribute { name: String::from_str("docs"), value: root.docs.clone() });
        let mut relationships: Vec<RelationshipObject> = Vec::new();
        relationships.push(RelationshipObject { name: String::from_str("modules"), data: modules });
        let data = ResourceObject {
            kind: String::from_str("crate"),
            id,
            attributes,
            relationships,
        };
        let graph = ResourceGraph { data, included };
        proof {
            let expected = graph_of(self@, root@);
            assert(graph@.included =~= expected.included);
            assert(graph@.data.attributes =~= expected.data.attributes);
            assert(graph@.data.relationships[0].data =~= expected.data.relationships[0].data);
            assert(graph@.data.relationships =~= expected.data.relationships);
        }
        Ok(graph)
    }

    /// Builds the resource graph of the model. The definition of the root is
    /// fetched again from the database, so that the documentation of the
    /// crate is as fresh as the database.
    pub fn build_graph(&self, source: &AnalysisSource) -> (built: Result<ResourceGraph, BuildError>)
        ensures
            built matches Ok(graph) ==> is_graph_of(self@, graph@),
            built matches Err(e) ==> e == BuildError::DefinitionUnavailable(self.krate.id) || e
                == BuildError::MalformedRootName(self.krate.id),
    {
        let root = match source.definition(self.krate.id) {
            Some(def) => def,
            None => {
                return Err(BuildError::DefinitionUnavailable(self.krate.id));
            },
        };
        let built = self.resource_graph(&root);
        proof {
            if built is Ok {
                assert(built->Ok_0@ == graph_of(self@, root@));
            }
        }
        built
    }
}

} // verus!
