//! The analysis database, and the three questions that the documentation
//! asks of it: which root has a given name, what a definition holds, and
//! which direct children a definition has.

use vstd::prelude::*;
use crate::error::not_found_message;
use crate::error::CrateErr;
use crate::extract::resolve_root;
use crate::model::Definition;
use crate::model::DefinitionKind;
use crate::model::DefinitionView;
use rls_analysis::DefKind as K;

verus! {

/// A loaded analysis database. The host answers every question from the
/// data that it was last loaded with; nothing in this library loads it or
/// changes it.
#[verifier::external_body]
pub struct AnalysisSource {
    pub host: rls_analysis::AnalysisHost,
}

#[verifier::external_type_specification]
#[verifier::external_body]
pub struct ExId(rls_analysis::Id);

#[verifier::external_type_specification]
#[verifier::external_body]
pub struct ExDef(rls_analysis::Def);

#[verifier::external_type_specification]
#[verifier::external_body]
pub struct ExAError(rls_analysis::AError);

/// `AnalysisHost::def_roots`: the root module of each loaded crate with the
/// crate's name. What comes back depends on what the host was loaded with,
/// so nothing is claimed of it.
#[verifier::external_body]
fn def_roots(source: &AnalysisSource) -> (roots: Result<
    Vec<(rls_analysis::Id, String)>,
    rls_analysis::AError,
>) {
    source.host.def_roots()
}

/// `AnalysisHost::get_def`: the definition under `id`. What comes back
/// depends on what the host was loaded with, so nothing is claimed of it.
#[verifier::external_body]
fn get_def(source: &AnalysisSource, id: rls_analysis::Id) -> (def: Result<
    rls_analysis::Def,
    rls_analysis::AError,
>) {
    source.host.get_def(id)
}

/// `AnalysisHost::for_each_child_def`, collecting what `definition_of`
/// makes of each direct child of `id`. What comes back, and in which order,
/// depends on what the host was loaded with, so nothing is claimed of it.
#[verifier::external_body]
fn child_defs(source: &AnalysisSource, id: rls_analysis::Id) -> (defs: Result<
    Vec<Definition>,
    rls_analysis::AError,
>) {
    source.host.for_each_child_def(id, |_, def| definition_of(def))
}

/// What a `rls_analysis::Def` holds of the four things that the
/// documentation reads: as kind the variant of `DefinitionKind` that has the
/// name of the variant in its field `kind`, and the text of its fields
/// `name`, `qualname` and `docs`.
pub uninterp spec fn definition_held(def: rls_analysis::Def) -> DefinitionView;

/// Tells the variants of the `DefKind` in the field `kind` of a definition
/// apart, each to the variant of the same name.
#[verifier::external_body]
fn kind_of(def: &rls_analysis::Def) -> (kind: DefinitionKind)
    ensures
        kind == definition_held(*def).kind,
{
    match def.kind {
        K::Enum => DefinitionKind::Enum, K::TupleVariant => DefinitionKind::TupleVariant,
        K::StructVariant => DefinitionKind::StructVariant, K::Tuple => DefinitionKind::Tuple,
        K::Struct => DefinitionKind::Struct, K::Union => DefinitionKind::Union,
        K::Trait => DefinitionKind::Trait, K::Function => DefinitionKind::Function,
        K::ForeignFunction => DefinitionKind::ForeignFunction, K::Method => DefinitionKind::Method,
        K::Macro => DefinitionKind::Macro, K::Mod => DefinitionKind::Mod,
        K::Type => DefinitionKind::Type, K::Local => DefinitionKind::Local,
        K::Static => DefinitionKind::Static, K::ForeignStatic => DefinitionKind::ForeignStatic,
        K::Const => DefinitionKind::Const, K::Field => DefinitionKind::Field,
        K::ExternType => DefinitionKind::ExternType,
    }
}

/// Copies of the fields `name`, `qualname` and `docs` of a definition, in
/// this order.
#[verifier::external_body]
fn texts_of(def: &rls_analysis::Def) -> (texts: (String, String, String))
    ensures
        texts.0@ == definition_held(*def).name,
        texts.1@ == definition_held(*def).qualname,
        texts.2@ == definition_held(*def).docs,
{
    (def.name.clone(), def.qualname.clone(), def.docs.clone())
}

/// The definition with what the documentation needs of it: the kind, the
/// two names and the documentation that `def` holds.
fn definition_of(def: &rls_analysis::Def) -> (own: Definition)
    ensures
        own@ == definition_held(*def),
{
    let kind = kind_of(def);
    let (name, qualname, docs) = texts_of(def);
    Definition { kind, name, qualname, docs }
}

impl AnalysisSource {
    /// The identifier of the root of the crate called `name`.
    ///
    /// The name must match exactly. A database that cannot list its roots has
    /// no root of that name.
    pub(crate) fn resolve_root(&self, name: &str) -> (resolved: Result<rls_analysis::Id, CrateErr>)
        ensures
            resolved matches Err(err) ==> err@ == not_found_message(name@),
    {
        match def_roots(self) {
            Ok(roots) => resolve_root(&roots, name),
            Err(_) => Err(CrateErr::new(name)),
        }
    }

    /// The definition under `id`, or `None` where the database has none.
    pub(crate) fn definition(&self, id: rls_analysis::Id) -> (found: Option<Definition>) {
        match get_def(self, id) {
            Ok(def) => Some(definition_of(&def)),
            Err(_) => None,
        }
    }

    /// The direct children of the definition under `id`, in the order in
    /// which the database hands them out, or `None` where the database does
    /// not answer.
    pub(crate) fn children(&self, id: rls_analysis::Id) -> (found: Option<Vec<Definition>>) {
        match child_defs(self, id) {
            Ok(children) => Some(children),
            Err(_) => None,
        }
    }
}

} // verus!
