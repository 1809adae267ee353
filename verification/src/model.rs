//! The documentation model: what the first stage extracts from the analysis
//! database and the second stage renders.

use vstd::prelude::*;
use vstd::string::*;

verus! {

/// The kind of a definition, as the analysis database records it.
#[derive(Clone, Copy, Debug, PartialEq, Eq, Structural)]
pub enum DefinitionKind {
    Enum,
    TupleVariant,
    StructVariant,
    Tuple,
    Struct,
    Union,
    Trait,
    Function,
    ForeignFunction,
    Method,
    Macro,
    Mod,
    Type,
    Local,
    Static,
    ForeignStatic,
    Const,
    Field,
    ExternType,
}

impl DefinitionKind {
    /// Whether a definition of this kind gets an entry in the symbol table.
    /// Only modules do.
    pub open spec fn documented(self) -> bool {
        self == DefinitionKind::Mod
    }

    pub fn is_documented(self) -> (yes: bool)
        ensures
            yes == self.documented(),
    {
        match self {
            DefinitionKind::Mod => true,
            DefinitionKind::Enum => false,
            DefinitionKind::TupleVariant => false,
            DefinitionKind::StructVariant => false,
            DefinitionKind::Tuple => false,
            DefinitionKind::Struct => false,
            DefinitionKind::Union => false,
            DefinitionKind::Trait => false,
            DefinitionKind::Function => false,
            DefinitionKind::ForeignFunction => false,
            DefinitionKind::Method => false,
            DefinitionKind::Macro => false,
            DefinitionKind::Type => false,
            DefinitionKind::Local => false,
            DefinitionKind::Static => false,
            DefinitionKind::ForeignStatic => false,
            DefinitionKind::Const => false,
            DefinitionKind::Field => false,
            DefinitionKind::ExternType => false,
        }
    }
}

/// One definition of the analysis database, reduced to what the
/// documentation needs.
#[derive(Debug)]
pub struct Definition {
    pub kind: DefinitionKind,
    pub name: String,
    pub qualname: String,
    pub docs: String,
}

pub struct DefinitionView {
    pub kind: DefinitionKind,
    pub name: Seq<char>,
    pub qualname: Seq<char>,
    pub docs: Seq<char>,
}

impl View for Definition {
    type V = DefinitionView;

    open spec fn view(&self) -> DefinitionView {
        DefinitionView {
            kind: self.kind,
            name: self.name@,
            qualname: self.qualname@,
            docs: self.docs@,
        }
    }
}

/// The views of a sequence of definitions, in order.
pub open spec fn definition_views(defs: Seq<Definition>) -> Seq<DefinitionView> {
    defs.map_values(|d: Definition| d@)
}

/// A documented symbol.
#[derive(Debug)]
pub enum Item {
    Module { name: String, docs: String },
}

pub enum ItemView {
    Module { name: Seq<char>, docs: Seq<char> },
}

impl View for Item {
    type V = ItemView;

    open spec fn view(&self) -> ItemView {
        match self {
            Item::Module { name, docs } => ItemView::Module { name: name@, docs: docs@ },
        }
    }
}

/// A documented symbol under its qualified name.
#[derive(Debug)]
pub struct Entry {
    pub qualname: String,
    pub item: Item,
}

pub struct EntryView {
    pub qualname: Seq<char>,
    pub item: ItemView,
}

impl View for Entry {
    type V = EntryView;

    open spec fn view(&self) -> EntryView {
        EntryView { qualname: self.qualname@, item: self.item@ }
    }
}

/// Whether some entry stands under `qualname`.
pub open spec fn has_key(entries: Seq<EntryView>, qualname: Seq<char>) -> bool {
    exists|i: int| 0 <= i < entries.len() && (#[trigger] entries[i]).qualname == qualname
}

/// No two entries stand under the same qualified name.
pub open spec fn distinct_keys(entries: Seq<EntryView>) -> bool {
    forall|i: int, j: int|
        0 <= i < j < entries.len() ==> (#[trigger] entries[i]).qualname != (
        #[trigger] entries[j]).qualname
}

/// The entries after `item` is stored under `qualname`: an entry that stood
/// under that name is overwritten in its place, otherwise the new entry comes
/// last.
pub open spec fn inserted(entries: Seq<EntryView>, qualname: Seq<char>, item: ItemView) -> Seq<
    EntryView,
> {
    let entry = EntryView { qualname, item };
    if has_key(entries, qualname) {
        entries.map_values(|e: EntryView| if e.qualname == qualname { entry } else { e })
    } else {
        entries.push(entry)
    }
}

/// The entries as a map from qualified name to symbol.
pub open spec fn as_map(entries: Seq<EntryView>) -> Map<Seq<char>, ItemView> {
    Map::new(
        |k: Seq<char>| has_key(entries, k),
        |k: Seq<char>|
            entries[choose|i: int|
                0 <= i < entries.len() && (#[trigger] entries[i]).qualname == k].item,
    )
}

/// The symbols of a crate, each under its qualified name. No qualified name
/// occurs twice; the entries keep the order in which their names first came.
#[derive(Debug)]
pub struct SymbolTable {
    entries: Vec<Entry>,
}

impl View for SymbolTable {
    type V = Seq<EntryView>;

    closed spec fn view(&self) -> Seq<EntryView> {
        self.entries@.map_values(|e: Entry| e@)
    }
}

impl SymbolTable {
    #[verifier::type_invariant]
    spec fn well_formed(&self) -> bool {
        distinct_keys(self@)
    }

    pub fn new() -> (table: SymbolTable)
        ensures
            table@ == Seq::<EntryView>::empty(),
    {
        let table = SymbolTable { entries: Vec::new() };
        assert(table@ =~= Seq::<EntryView>::empty());
        table
    }

    /// The number of entries. Their qualified names are distinct.
    pub fn len(&self) -> (n: usize)
        ensures
            n == self@.len(),
            distinct_keys(self@),
    {
        proof {
            use_type_invariant(self);
        }
        self.entries.len()
    }

    /// The entry at position `i`.
    pub fn entry(&self, i: usize) -> (e: &Entry)
        requires
            i < self@.len(),
        ensures
            e@ == self@[i as int],
    {
        &self.entries[i]
    }

    /// The position of the entry under `qualname`, if there is one.
    pub fn position(&self, qualname: &str) -> (at: Option<usize>)
        ensures
            at is Some <==> has_key(self@, qualname@),
            at matches Some(i) ==> i < self@.len() && self@[i as int].qualname == qualname@,
            at matches Some(i) ==> forall|j: int|
                0 <= j < self@.len() && j != i ==> (#[trigger] self@[j]).qualname != qualname@,
    {
        proof {
            use_type_invariant(self);
        }
        let key = String::from_str(qualname);
        let mut i: usize = 0;
        while i < self.entries.len()
            invariant
                i <= self.entries.len(),
                key@ == qualname@,
                distinct_keys(self@),
                forall|j: int| 0 <= j < i ==> (#[trigger] self@[j]).qualname != qualname@,
            decreases self.entries.len() - i,
        {
            if self.entries[i].qualname == key {
                assert(self@[i as int].qualname == qualname@);
                return Some(i);
            }
            i += 1;
        }
        None
    }

    /// The symbol under `qualname`, if there is one.
    pub fn get(&self, qualname: &str) -> (found: Option<&Item>)
        ensures
            found is Some <==> has_key(self@, qualname@),
            found matches Some(item) ==> as_map(self@)[qualname@] == item@,
    {
        proof {
            use_type_invariant(self);
        }
        match self.position(qualname) {
            Some(i) => {
                let item = &self.entries[i].item;
                proof {
                    let k = choose|k: int|
                        0 <= k < self@.len() && (#[trigger] self@[k]).qualname == qualname@;
                    assert(k == i);
                }
                Some(item)
            },
            None => None,
        }
    }

    /// Stores `item` under `qualname`. An entry that stood under that name is
    /// overwritten.
    pub fn insert(&mut self, qualname: String, item: Item)
        ensures
            final(self)@ == inserted(old(self)@, qualname@, item@),
            distinct_keys(final(self)@),
    {
        proof {
            use_type_invariant(&*self);
        }
        let at = self.position(qualname.as_str());
        let ghost before = self@;
        let ghost entry = EntryView { qualname: qualname@, item: item@ };
        let mut entries = Vec::new();
        std::mem::swap(&mut entries, &mut self.entries);
        assert(entries@.map_values(|e: Entry| e@) == before);
        match at {
            Some(i) => {
                entries.set(i, Entry { qualname, item });
                assert(entries@.map_values(|e: Entry| e@) =~= inserted(
                    before,
                    entry.qualname,
                    entry.item,
                ));
            },
            None => {
                entries.push(Entry { qualname, item });
                assert(entries@.map_values(|e: Entry| e@) =~= inserted(
                    before,
                    entry.qualname,
                    entry.item,
                ));
            },
        }
        assert(distinct_keys(entries@.map_values(|e: Entry| e@)));
        self.entries = entries;
    }
}

/// The summary of the documented crate.
#[derive(Debug)]
pub struct Crate {
    pub id: rls_analysis::Id,
    pub name: String,
    pub docs: String,
    pub modules: Vec<String>,
}

pub struct CrateView {
    pub id: rls_analysis::Id,
    pub name: Seq<char>,
    pub docs: Seq<char>,
    pub modules: Seq<Seq<char>>,
}

impl View for Crate {
    type V = CrateView;

    open spec fn view(&self) -> CrateView {
        CrateView {
            id: self.id,
            name: self.name@,
            docs: self.docs@,
            modules: self.modules@.map_values(|m: String| m@),
        }
    }
}

/// The documentation of one crate: its summary and its symbols.
#[derive(Debug)]
pub struct DocData {
    pub krate: Crate,
    pub data: SymbolTable,
}

pub struct DocDataView {
    pub krate: CrateView,
    pub data: Seq<EntryView>,
}

impl View for DocData {
    type V = DocDataView;

    open spec fn view(&self) -> DocDataView {
        DocDataView { krate: self.krate@, data: self.data@ }
    }
}

} // verus!
