//! The catalog: what it holds, and what can be asked of it.
use vstd::prelude::*;
use vstd::std_specs::cmp::PartialEqSpec;
use vstd::string::*;

use crate::ast::ObjectType;
use crate::error::{ErrorView, PlanError};
use crate::names::{
    DatabaseSpecifier, FullName, FullNameView, PartialName, PartialNameView, SchemaSpecifier,
    SchemaView,
};
use crate::relation::RelationDesc;

verus! {

/// The number of an item. The system has its own.
#[derive(Clone, Copy, PartialEq, Eq, Structural, Debug)]
pub enum GlobalId {
    System(u64),
    User(u64),
}

impl GlobalId {
    /// Whether the item belongs to the system.
    pub fn is_system(&self) -> (r: bool)
        ensures
            r == (*self is System),
    {
        match self {
            GlobalId::System(_) => true,
            GlobalId::User(_) => false,
        }
    }
}

/// What an item of the catalog is.
#[derive(Clone, Copy, PartialEq, Eq, Structural, Debug)]
pub enum CatalogItemType {
    Table,
    Source,
    Sink,
    View,
    Index,
}

/// The word for what an item is.
pub open spec fn item_type_text(typ: CatalogItemType) -> Seq<char> {
    match typ {
        CatalogItemType::Table => "table"@,
        CatalogItemType::Source => "source"@,
        CatalogItemType::Sink => "sink"@,
        CatalogItemType::View => "view"@,
        CatalogItemType::Index => "index"@,
    }
}

impl CatalogItemType {
    /// The word for what an item is.
    pub fn to_text(&self) -> (text: &'static str)
        ensures
            text@ == item_type_text(*self),
    {
        match self {
            CatalogItemType::Table => "table",
            CatalogItemType::Source => "source",
            CatalogItemType::Sink => "sink",
            CatalogItemType::View => "view",
            CatalogItemType::Index => "index",
        }
    }
}

/// Whether a type named in a statement matches the type of an item: `DROP SOURCE v`
/// should not work where `v` is a view. Tables count as a special kind of source, so
/// `TABLE` may name either. No item is a schema.
pub open spec fn type_matches(item: CatalogItemType, named: ObjectType) -> bool {
    match named {
        ObjectType::Source => item == CatalogItemType::Source,
        ObjectType::Table => item == CatalogItemType::Table || item == CatalogItemType::Source,
        ObjectType::Sink => item == CatalogItemType::Sink,
        ObjectType::View => item == CatalogItemType::View,
        ObjectType::Index => item == CatalogItemType::Index,
        ObjectType::Schema => false,
    }
}

impl PartialEq<ObjectType> for CatalogItemType {
    fn eq(&self, other: &ObjectType) -> (r: bool) {
        match (self, other) {
            (CatalogItemType::Source, ObjectType::Source)
            | (CatalogItemType::Source, ObjectType::Table)
            | (CatalogItemType::Table, ObjectType::Table)
            | (CatalogItemType::Sink, ObjectType::Sink)
            | (CatalogItemType::View, ObjectType::View)
            | (CatalogItemType::Index, ObjectType::Index) => true,
            (_, _) => false,
        }
    }
}

impl vstd::std_specs::cmp::PartialEqSpecImpl<ObjectType> for CatalogItemType {
    open spec fn obeys_eq_spec() -> bool {
        true
    }

    open spec fn eq_spec(&self, other: &ObjectType) -> bool {
        type_matches(*self, *other)
    }
}

impl PartialEq<CatalogItemType> for ObjectType {
    fn eq(&self, other: &CatalogItemType) -> (r: bool) {
        *other == *self
    }
}

impl vstd::std_specs::cmp::PartialEqSpecImpl<CatalogItemType> for ObjectType {
    open spec fn obeys_eq_spec() -> bool {
        true
    }

    open spec fn eq_spec(&self, other: &CatalogItemType) -> bool {
        type_matches(*other, *self)
    }
}

/// Comparing a type of an item with one that a statement names comes out the
/// same either way round, and a type that a statement names is that of an item
/// exactly where the two match.
pub proof fn type_comparison_is_symmetric(item: CatalogItemType, named: ObjectType)
    ensures
        item.eq_spec(&named) == named.eq_spec(&item),
        item.eq_spec(&named) == type_matches(item, named),
{
}

/// Circumstances of planning: the time that counts as now, in milliseconds since the Unix epoch.
#[derive(Clone, Copy, PartialEq, Eq, Structural, Debug)]
pub struct PlanContext {
    pub wall_time_ms: i64,
}

impl Default for PlanContext {
    fn default() -> (pcx: PlanContext)
        ensures
            pcx == (PlanContext { wall_time_ms: 0 }),
    {
        PlanContext { wall_time_ms: 0 }
    }
}

/// An item of the catalog.
#[derive(Debug)]
pub struct CatalogItem {
    pub name: FullName,
    pub id: GlobalId,
    pub item_type: CatalogItemType,
    /// The statement that created the item.
    pub create_sql: String,
    /// The shape of the relation that the item is, or why it has none.
    pub desc: Result<RelationDesc, PlanError>,
    /// The items that depend on this one.
    pub used_by: Vec<GlobalId>,
    /// The circumstances in which the item was planned.
    pub plan_cx: PlanContext,
}

/// All that a catalog answers.
pub struct CatalogModel {
    pub default_database: Seq<char>,
    pub databases: spec_fn(Seq<char>) -> Result<(), ErrorView>,
    pub schemas: spec_fn(Option<Seq<char>>, Seq<char>) -> Result<
        (Option<Seq<char>>, SchemaView),
        ErrorView,
    >,
    pub names: spec_fn(PartialNameView) -> Result<FullNameView, ErrorView>,
    pub items: Map<FullNameView, CatalogItem>,
    pub items_by_id: Map<GlobalId, CatalogItem>,
    pub contents: spec_fn(Option<Seq<char>>, Seq<char>) -> Seq<CatalogItem>,
    pub startup_secs: i64,
    pub nonce: u64,
    pub experimental: bool,
}

/// The catalog that a statement is planned against.
pub trait Catalog {
    /// All that the catalog answers.
    closed spec fn model(&self) -> CatalogModel {
        arbitrary()
    }

    /// The name of the database that holds where a statement names none.
    fn default_database(&self) -> (name: &str)
        ensures
            name@ == self.model().default_database,
    ;

    /// Looks for a database.
    fn resolve_database(&self, name: &str) -> (r: Result<(), PlanError>)
        ensures
            match r {
                Ok(()) => (self.model().databases)(name@) is Ok,
                Err(e) => (self.model().databases)(name@) == Err::<(), ErrorView>(e@),
            },
    ;

    /// Looks for a schema, in a database or in those that are searched by default.
    fn resolve_schema(&self, database: Option<String>, schema: &str) -> (r: Result<
        (DatabaseSpecifier, SchemaSpecifier),
        PlanError,
    >)
        ensures
            match r {
                Ok(found) => (self.model().schemas)(crate::names::text_option(database), schema@)
                    == Ok::<(Option<Seq<char>>, SchemaView), ErrorView>((found.0@, found.1@)),
                Err(e) => (self.model().schemas)(crate::names::text_option(database), schema@)
                    == Err::<(Option<Seq<char>>, SchemaView), ErrorView>(e@),
            },
    ;

    /// Looks for an item. A name that is found is the name of an item.
    fn resolve_item(&self, name: &PartialName) -> (r: Result<FullName, PlanError>)
        ensures
            match r {
                Ok(found) => (self.model().names)(name@) == Ok::<FullNameView, ErrorView>(found@)
                    && self.model().items.contains_key(found@),
                Err(e) => (self.model().names)(name@) == Err::<FullNameView, ErrorView>(e@),
            },
    ;

    /// The item of a name. Those that depend on it are items too, and its shape, if any, is sound.
    fn get_item(&self, name: &FullName) -> (item: &CatalogItem)
        requires
            self.model().items.contains_key(name@),
        ensures
            *item == self.model().items[name@],
            item.desc matches Ok(desc) ==> desc@.wf(),
            forall|i: int|
                0 <= i < item.used_by@.len() ==> self.model().items_by_id.contains_key(
                    #[trigger] item.used_by@[i],
                ),
    ;

    /// The item of a number.
    fn get_item_by_id(&self, id: &GlobalId) -> (item: &CatalogItem)
        requires
            self.model().items_by_id.contains_key(*id),
        ensures
            *item == self.model().items_by_id[*id],
    ;

    /// The items of a schema.
    fn list_items(&self, database: &DatabaseSpecifier, schema: &str) -> (items: Vec<&CatalogItem>)
        ensures
            items@.len() == (self.model().contents)(database@, schema@).len(),
            forall|i: int|
                0 <= i < items@.len() ==> *(#[trigger] items@[i]) == (self.model().contents)(
                    database@,
                    schema@,
                )[i],
    ;

    /// When the system started, in whole seconds from the Unix epoch, rounded down.
    fn startup_time(&self) -> (secs: i64)
        ensures
            secs == self.model().startup_secs,
    ;

    /// A number that tells one run of the system from others.
    fn nonce(&self) -> (n: u64)
        ensures
            n == self.model().nonce,
    ;

    /// Whether experimental features are on.
    fn experimental_mode(&self) -> (on: bool)
        ensures
            on == self.model().experimental,
    ;
}

} // verus!
