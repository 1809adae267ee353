//! The second stage: from the resource graph to the text of a JSON:API
//! document.
//!
//! The graph is rebuilt in the types of the `jsonapi` crate, one value at a
//! time, and `serde_json` encodes the document. Those types keep attributes
//! and relationships in hash maps, which have no order of their own. The
//! document is therefore turned into a `serde_json::Value` first, whose
//! objects keep their members sorted by name, so that equal graphs give
//! equal text.

use vstd::prelude::*;
use crate::error::BuildError;
use crate::graph::is_graph_of;
use crate::graph::AttributeView;
use crate::graph::RelationshipObject;
use crate::graph::RelationshipView;
use crate::graph::ResourceGraph;
use crate::graph::ResourceGraphView;
use crate::graph::ResourceObject;
use crate::graph::ResourceRef;
use crate::graph::ResourceRefView;
use crate::graph::ResourceView;
use crate::model::DocData;
use crate::model::DocDataView;
use crate::source::AnalysisSource;

verus! {

#[verifier::external_type_specification]
#[verifier::external_body]
pub struct ExResource(jsonapi::api::Resource);

#[verifier::external_type_specification]
#[verifier::external_body]
pub struct ExResourceIdentifier(jsonapi::api::ResourceIdentifier);

#[verifier::external_type_specification]
#[verifier::external_body]
pub struct ExJsonApiDocument(jsonapi::api::JsonApiDocument);

/// The members of a resource as a document carries them: attributes and
/// relationships by name.
#[verifier::ext_equal]
pub struct ResourceMembers {
    pub kind: Seq<char>,
    pub id: Seq<char>,
    pub attributes: Map<Seq<char>, Seq<char>>,
    pub relationships: Map<Seq<char>, Seq<ResourceRefView>>,
}

/// The members of a document: its primary resource and its included
/// resources.
#[verifier::ext_equal]
pub struct DocumentMembers {
    pub data: ResourceMembers,
    pub included: Seq<ResourceMembers>,
}

/// The attributes by name. Of two attributes with one name the later one
/// stays.
pub open spec fn attribute_map(attributes: Seq<AttributeView>) -> Map<Seq<char>, Seq<char>>
    decreases attributes.len(),
{
    if attributes.len() == 0 {
        Map::empty()
    } else {
        attribute_map(attributes.drop_last()).insert(
            attributes.last().name,
            attributes.last().value,
        )
    }
}

/// The relationships by name. Of two relationships with one name the later
/// one stays.
pub open spec fn relationship_map(relationships: Seq<RelationshipView>) -> Map<
    Seq<char>,
    Seq<ResourceRefView>,
>
    decreases relationships.len(),
{
    if relationships.len() == 0 {
        Map::empty()
    } else {
        relationship_map(relationships.drop_last()).insert(
            relationships.last().name,
            relationships.last().data,
        )
    }
}

/// The members that a document carries of `resource`.
pub open spec fn members_of(resource: ResourceView) -> ResourceMembers {
    ResourceMembers {
        kind: resource.kind,
        id: resource.id,
        attributes: attribute_map(resource.attributes),
        relationships: relationship_map(resource.relationships),
    }
}

/// The members of the document of `graph`.
pub open spec fn document_of(graph: ResourceGraphView) -> DocumentMembers {
    DocumentMembers {
        data: members_of(graph.data),
        included: graph.included.map_values(|r: ResourceView| members_of(r)),
    }
}

/// The type and the id that a `jsonapi::api::ResourceIdentifier` holds in
/// its fields `_type` and `id`.
pub uninterp spec fn identifier_members(
    identifier: jsonapi::api::ResourceIdentifier,
) -> ResourceRefView;

/// What a `jsonapi::api::Resource` holds, where these members say all of
/// it: `links` and `meta` are `None`, every attribute is a JSON string, and
/// `relationships` is `None` or a map that is not empty, of relationships
/// with no `links` whose `data` is `IdentifierData::Multiple`. Then the
/// result is `Some`, with `_type` as kind, `id` as id, each attribute by
/// its key, and each relationship by its key as the list of what
/// `identifier_members` gives for its identifiers. Else it is `None`.
pub uninterp spec fn resource_members(resource: jsonapi::api::Resource) -> Option<ResourceMembers>;

/// What a `jsonapi::api::JsonApiDocument` holds, where these members say
/// all of it: `data` is `PrimaryData::Single` of a resource and `included`
/// is a list of resources, all of which `resource_members` can describe,
/// and `links`, `meta`, `errors` and `jsonapi` are `None`. Else it is
/// `None`.
pub uninterp spec fn document_members(document: jsonapi::api::JsonApiDocument) -> Option<
    DocumentMembers,
>;

/// The text that `serde_json` writes for a JSON:API document with the given
/// members: a JSON object without white space, the members of every object
/// in the order of their names.
pub uninterp spec fn document_text(members: DocumentMembers) -> Seq<char>;

/// A `jsonapi::api::Resource` with `kind` as its type and `id` as its id,
/// an empty attribute map, and no relationships, links or meta member.
#[verifier::external_body]
fn new_resource(kind: &str, id: &str) -> (resource: jsonapi::api::Resource)
    ensures
        resource_members(resource) == Some(
            ResourceMembers {
                kind: kind@,
                id: id@,
                attributes: Map::empty(),
                relationships: Map::empty(),
            },
        ),
{
    jsonapi::api::Resource {
        _type: kind.to_string(),
        id: id.to_string(),
        attributes: std::collections::HashMap::new(),
        relationships: None,
        links: None,
        meta: None,
    }
}

/// `HashMap::insert` on the attributes of a `jsonapi::api::Resource`: puts
/// `serde_json::Value::String` of `value` under the key `name`. A value that
/// stood under that key is replaced; nothing else changes.
#[verifier::external_body]
fn set_attribute(resource: &mut jsonapi::api::Resource, name: &str, value: &str)
    ensures
        resource_members(*old(resource)) matches Some(before) ==> resource_members(
            *final(resource),
        ) == Some(
            ResourceMembers { attributes: before.attributes.insert(name@, value@), ..before },
        ),
{
    resource.attributes.insert(name.to_string(), serde_json::Value::String(value.to_string()));
}

/// A `jsonapi::api::ResourceIdentifier` with `kind` as its type and `id` as
/// its id.
#[verifier::external_body]
fn new_identifier(kind: &str, id: &str) -> (identifier: jsonapi::api::ResourceIdentifier)
    ensures
        identifier_members(identifier) == (ResourceRefView { kind: kind@, id: id@ }),
{
    jsonapi::api::ResourceIdentifier { _type: kind.to_string(), id: id.to_string() }
}

/// `HashMap::insert` on the relationships of a `jsonapi::api::Resource`,
/// which become a map where there were none: puts under the key `name` a
/// `jsonapi::api::Relationship` without links whose data is
/// `IdentifierData::Multiple` of `data`. A relationship that stood under
/// that key is replaced; nothing else changes.
#[verifier::external_body]
fn set_relationship(
    resource: &mut jsonapi::api::Resource,
    name: &str,
    data: Vec<jsonapi::api::ResourceIdentifier>,
)
    ensures
        resource_members(*old(resource)) matches Some(before) ==> resource_members(
            *final(resource),
        ) == Some(
            ResourceMembers {
                relationships: before.relationships.insert(
                    name@,
                    data@.map_values(|i: jsonapi::api::ResourceIdentifier| identifier_members(i)),
                ),
                ..before
            },
        ),
{
    let relationship = jsonapi::api::Relationship {
        data: jsonapi::api::IdentifierData::Multiple(data),
        links: None,
    };
    let relationships = resource.relationships.get_or_insert_with(std::collections::HashMap::new);
    relationships.insert(name.to_string(), relationship);
}

/// Whether `resource_members` can describe each of `resources`.
pub open spec fn all_described(resources: Seq<jsonapi::api::Resource>) -> bool {
    forall|i: int| 0 <= i < resources.len() ==> resource_members(#[trigger] resources[i]) is Some
}

/// What `resource_members` gives for each of `resources`, in their order.
pub open spec fn members_list(resources: Seq<jsonapi::api::Resource>) -> Seq<ResourceMembers> {
    resources.map_values(|r: jsonapi::api::Resource| resource_members(r)->Some_0)
}

/// A `jsonapi::api::JsonApiDocument` with `PrimaryData::Single` of `data`
/// as its data and `included` as its included resources, and every other
/// member as `Default` leaves it: `None`.
#[verifier::external_body]
fn new_document(data: jsonapi::api::Resource, included: Vec<jsonapi::api::Resource>) -> (document:
    jsonapi::api::JsonApiDocument)
    ensures
        resource_members(data) matches Some(primary) ==> (all_described(included@)
            ==> document_members(document) == Some(
            DocumentMembers { data: primary, included: members_list(included@) },
        )),
{
    jsonapi::api::JsonApiDocument {
        data: Some(jsonapi::api::PrimaryData::Single(Box::new(data))),
        included: Some(included),
        ..Default::default()
    }
}

/// `serde_json::to_string` on the `serde_json::Value` that
/// `serde_json::to_value` makes of a document. The objects of such a value
/// are sorted maps, so the text is decided by the members of the document.
/// A document that `document_members` can describe holds strings under
/// string keys and nothing else, and neither call fails on it.
#[verifier::external_body]
fn serialize(document: &jsonapi::api::JsonApiDocument) -> (text: Result<String, serde_json::Error>)
    ensures
        document_members(*document) is Some ==> text is Ok,
        document_members(*document) matches Some(members) ==> (text matches Ok(t) ==> t@
            == document_text(members)),
{
    let value = serde_json::to_value(document)?;
    serde_json::to_string(&value)
}

/// The list of identifiers in the type of the `jsonapi` crate.
fn to_identifiers(data: &Vec<ResourceRef>) -> (out: Vec<jsonapi::api::ResourceIdentifier>)
    ensures
        out@.map_values(|i: jsonapi::api::ResourceIdentifier| identifier_members(i))
            == data@.map_values(|r: ResourceRef| r@),
{
    let mut out: Vec<jsonapi::api::ResourceIdentifier> = Vec::new();
    let mut i: usize = 0;
    while i < data.len()
        invariant
            i <= data.len(),
            out@.len() == i,
            forall|j: int| 0 <= j < i ==> identifier_members(#[trigger] out@[j]) == data@[j]@,
        decreases data.len() - i,
    {
        let identifier = &data[i];
        out.push(new_identifier(identifier.kind.as_str(), identifier.id.as_str()));
        i += 1;
    }
    assert(out@.map_values(|i: jsonapi::api::ResourceIdentifier| identifier_members(i))
        =~= data@.map_values(|r: ResourceRef| r@));
    out
}

/// The resource in the type of the `jsonapi` crate. Its attributes and
/// relationships are set in their order.
fn to_resource(resource: &ResourceObject) -> (out: jsonapi::api::Resource)
    ensures
        resource_members(out) == Some(members_of(resource@)),
{
    let mut out = new_resource(resource.kind.as_str(), resource.id.as_str());
    let ghost attributes = resource@.attributes;
    let ghost relationships = resource@.relationships;
    let mut i: usize = 0;
    while i < resource.attributes.len()
        invariant
            i <= resource.attributes.len(),
            attributes == resource@.attributes,
            attributes.len() == resource.attributes.len(),
            resource_members(out) == Some(
                ResourceMembers {
                    kind: resource@.kind,
                    id: resource@.id,
                    attributes: attribute_map(attributes.take(i as int)),
                    relationships: Map::empty(),
                },
            ),
        decreases resource.attributes.len() - i,
    {
        let attribute = &resource.attributes[i];
        proof {
            assert(attributes.take(i as int + 1).drop_last() =~= attributes.take(i as int));
            assert(attributes.take(i as int + 1).last() == attribute@);
        }
        set_attribute(&mut out, attribute.name.as_str(), attribute.value.as_str());
        i += 1;
    }
    assert(attributes.take(i as int) =~= attributes);
    let mut j: usize = 0;
    while j < resource.relationships.len()
        invariant
            j <= resource.relationships.len(),
            relationships == resource@.relationships,
            relationships.len() == resource.relationships.len(),
            resource_members(out) == Some(
                ResourceMembers {
                    kind: resource@.kind,
                    id: resource@.id,
                    attributes: attribute_map(resource@.attributes),
                    relationships: relationship_map(relationships.take(j as int)),
                },
            ),
        decreases resource.relationships.len() - j,
    {
        let relationship: &RelationshipObject = &resource.relationships[j];
        proof {
            assert(relationships.take(j as int + 1).drop_last() =~= relationships.take(j as int));
            assert(relationships.take(j as int + 1).last() == relationship@);
        }
        let data = to_identifiers(&relationship.data);
        set_relationship(&mut out, relationship.name.as_str(), data);
        j += 1;
    }
    assert(relationships.take(j as int) =~= relationships);
    out
}

/// Encodes a resource graph as the text of a JSON:API document: the primary
/// resource under `data`, the included resources as an array under
/// `included`, which is there even when it is empty. Every graph has its
/// text.
pub fn render(graph: &ResourceGraph) -> (text: Result<String, BuildError>)
    ensures
        text is Ok,
        text matches Ok(t) ==> t@ == document_text(document_of(graph@)),
{
    let mut included: Vec<jsonapi::api::Resource> = Vec::new();
    let mut i: usize = 0;
    while i < graph.included.len()
        invariant
            i <= graph.included.len(),
            included@.len() == i,
            forall|j: int|
                0 <= j < i ==> resource_members(#[trigger] included@[j]) == Some(
                    members_of(graph.included@[j]@),
                ),
        decreases graph.included.len() - i,
    {
        included.push(to_resource(&graph.included[i]));
        i += 1;
    }
    let data = to_resource(&graph.data);
    proof {
        assert(members_list(included@) =~= document_of(graph@).included);
    }
    let document = new_document(data, included);
    match serialize(&document) {
        Ok(text) => Ok(text),
        Err(e) => Err(BuildError::Serialization(e)),
    }
}

/// Whether `text` is the text of the document of `model` for some root
/// definition with a qualified name that can be stripped.
pub open spec fn is_document_of(model: DocDataView, text: Seq<char>) -> bool {
    exists|graph: ResourceGraphView|
        #![trigger document_of(graph)]
        is_graph_of(model, graph) && text == document_text(document_of(graph))
}

impl DocData {
    /// The model as the text of a JSON:API document. The definition of the
    /// root is fetched again from the database; there is a text wherever
    /// there is a graph.
    pub fn to_json(&self, source: &AnalysisSource) -> (text: Result<String, BuildError>)
        ensures
            text matches Ok(t) ==> is_document_of(self@, t@),
            text matches Err(e) ==> e == BuildError::DefinitionUnavailable(self.krate.id) || e
                == BuildError::MalformedRootName(self.krate.id),
    {
        match self.build_graph(source) {
            Ok(graph) => {
                let text = render(&graph);
                proof {
                    if text is Ok {
                        assert(text->Ok_0@ == document_text(document_of(graph@)));
                    }
                }
                text
            },
            Err(e) => Err(e),
        }
    }
}

} // verus!
