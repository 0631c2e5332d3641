//! Planning of `DROP`.
use vstd::prelude::*;
use vstd::string::*;

use crate::ast::{object_type_text, DropDatabaseStatement, DropObjectsStatement, ObjectType};
use crate::catalog::{type_matches, Catalog, CatalogItemType, CatalogModel, GlobalId};
use crate::context::{database_named, item_of, schema_of, StatementContext};
use crate::error::{invalid, unsupported, viewed, ErrorView, PlanError};
use crate::names::{database_text, DatabaseSpecifier, FullName, FullNameView, ObjectName};
use crate::plan::{Plan, PlanView};

verus! {

/// The plan for `DROP DATABASE`. A database that need not be there has the empty name.
pub open spec fn drop_database(catalog: CatalogModel, stmt: DropDatabaseStatement) -> Result<
    PlanView,
    ErrorView,
> {
    match database_named(catalog, stmt.name.value@) {
        Ok(name) => Ok(PlanView::DropDatabase { name }),
        Err(e) => if stmt.if_exists {
            Ok(PlanView::DropDatabase { name: Seq::empty() })
        } else {
            Err(e)
        },
    }
}

/// Plans `DROP DATABASE`.
pub fn handle_drop_database<C: Catalog>(
    scx: &StatementContext<C>,
    stmt: &DropDatabaseStatement,
) -> (r: Result<Plan, PlanError>)
    ensures
        viewed(r) == drop_database(scx.catalog.model(), *stmt),
{
    match scx.resolve_database_ident(stmt.name.clone()) {
        Ok(name) => Ok(Plan::DropDatabase { name }),
        Err(e) => if stmt.if_exists {
            Ok(Plan::DropDatabase { name: String::new() })
        } else {
            Err(e)
        },
    }
}

/// The plan for `DROP SCHEMA`. A schema that need not be there gets a name that does not exist.
pub open spec fn drop_schema(
    catalog: CatalogModel,
    if_exists: bool,
    names: Seq<ObjectName>,
    cascade: bool,
) -> Result<PlanView, ErrorView> {
    if names.len() != 1 {
        Err(unsupported("DROP SCHEMA with multiple schemas"@))
    } else {
        match schema_of(catalog, names[0]) {
            Err(e) => if if_exists {
                Ok(PlanView::DropSchema { database_name: None, schema_name: "noexist"@ })
            } else {
                Err(e)
            },
            Ok((database, schema)) => if database is None {
                Err(
                    invalid(
                        "cannot drop schema "@ + schema.name
                            + " because it is required by the database system"@,
                    ),
                )
            } else if !cascade && (catalog.contents)(database, schema.name).len() > 0 {
                Err(
                    invalid(
                        "schema '"@ + database_text(database) + "."@ + schema.name
                            + "' cannot be dropped without CASCADE while it contains objects"@,
                    ),
                )
            } else {
                Ok(PlanView::DropSchema { database_name: database, schema_name: schema.name })
            },
        }
    }
}

/// Plans `DROP SCHEMA`.
pub fn handle_drop_schema<C: Catalog>(
    scx: &StatementContext<C>,
    if_exists: bool,
    names: &Vec<ObjectName>,
    cascade: bool,
) -> (r: Result<Plan, PlanError>)
    requires
        names@.len() == 1 ==> names@[0].0@.len() > 0,
    ensures
        viewed(r) == drop_schema(scx.catalog.model(), if_exists, names@, cascade),
{
    if names.len() != 1 {
        return Err(PlanError::unsupported("DROP SCHEMA with multiple schemas"));
    }
    match scx.resolve_schema(names[0].clone()) {
        Ok((database_spec, schema_spec)) => {
            if let DatabaseSpecifier::Ambient = database_spec {
                return Err(
                    PlanError::invalid(
                        "cannot drop schema ".to_owned().concat(schema_spec.name.as_str()).concat(
                            " because it is required by the database system",
                        ),
                    ),
                );
            }
            let items = scx.catalog.list_items(&database_spec, schema_spec.name.as_str());
            if !cascade && items.len() > 0 {
                return Err(
                    PlanError::invalid(
                        "schema '".to_owned().concat(database_spec.to_text().as_str()).concat(
                            ".",
                        ).concat(schema_spec.name.as_str()).concat(
                            "' cannot be dropped without CASCADE while it contains objects",
                        ),
                    ),
                );
            }
            Ok(Plan::DropSchema { database_name: database_spec, schema_name: schema_spec.name })
        },
        Err(e) => if if_exists {
            Ok(
                Plan::DropSchema {
                    database_name: DatabaseSpecifier::Ambient,
                    schema_name: "noexist".to_owned(),
                },
            )
        } else {
            Err(e)
        },
    }
}

/// Whether an item keeps those that it depends on from being dropped: all but indexes do.
pub open spec fn blocks(catalog: CatalogModel, id: GlobalId) -> bool {
    catalog.items_by_id[id].item_type != CatalogItemType::Index
}

/// The first of some dependent items that keeps what it depends on from being dropped.
pub open spec fn first_blocker(catalog: CatalogModel, used_by: Seq<GlobalId>) -> Option<GlobalId>
    decreases used_by.len(),
{
    if used_by.len() == 0 {
        None
    } else if blocks(catalog, used_by[0]) {
        Some(used_by[0])
    } else {
        first_blocker(catalog, used_by.skip(1))
    }
}

/// The item to drop for a name: not one of the system's, of the type that the
/// statement says, and without `CASCADE` one that nothing but indexes depends on.
pub open spec fn drop_item(
    catalog: CatalogModel,
    object_type: ObjectType,
    name: FullNameView,
    cascade: bool,
) -> Result<GlobalId, ErrorView> {
    let entry = catalog.items[name];
    let blocker = first_blocker(catalog, entry.used_by@);
    if entry.id is System {
        Err(
            invalid(
                "cannot drop item "@ + name.shown()
                    + " because it is required by the database system"@,
            ),
        )
    } else if !type_matches(entry.item_type, object_type) {
        Err(invalid(name.shown() + " is not of type "@ + object_type_text(object_type)))
    } else if !cascade && blocker is Some {
        Err(
            invalid(
                "cannot drop "@ + entry.name@.shown() + ": still depended upon by catalog item '"@
                    + catalog.items_by_id[blocker->0].name@.shown() + "'"@,
            ),
        )
    } else {
        Ok(entry.id)
    }
}

/// Finds the item to drop for a name.
pub fn handle_drop_item<C: Catalog>(
    scx: &StatementContext<C>,
    object_type: ObjectType,
    name: &FullName,
    cascade: bool,
) -> (r: Result<Option<GlobalId>, PlanError>)
    requires
        scx.catalog.model().items.contains_key(name@),
    ensures
        match r {
            Ok(id) => id is Some && drop_item(scx.catalog.model(), object_type, name@, cascade)
                == Ok::<GlobalId, ErrorView>(id->0),
            Err(e) => drop_item(scx.catalog.model(), object_type, name@, cascade) == Err::<
                GlobalId,
                ErrorView,
            >(e@),
        },
{
    let catalog_entry = scx.catalog.get_item(name);
    if catalog_entry.id.is_system() {
        return Err(
            PlanError::invalid(
                "cannot drop item ".to_owned().concat(name.to_text().as_str()).concat(
                    " because it is required by the database system",
                ),
            ),
        );
    }
    if object_type != catalog_entry.item_type {
        return Err(
            PlanError::invalid(
                name.to_text().concat(" is not of type ").concat(object_type.to_text()),
            ),
        );
    }
    if !cascade {
        let ghost used_by = catalog_entry.used_by@;
        let ghost model = scx.catalog.model();
        let mut i: usize = 0;
        assert(used_by.skip(0) =~= used_by);
        while i < catalog_entry.used_by.len()
            invariant
                used_by == catalog_entry.used_by@,
                model == scx.catalog.model(),
                forall|k: int|
                    0 <= k < used_by.len() ==> model.items_by_id.contains_key(
                        #[trigger] used_by[k],
                    ),
                !cascade,
                model.items.contains_key(name@),
                *catalog_entry == model.items[name@],
                catalog_entry.id !is System,
                type_matches(catalog_entry.item_type, object_type),
                i <= used_by.len(),
                first_blocker(model, used_by) == first_blocker(model, used_by.skip(i as int)),
            decreases catalog_entry.used_by.len() - i,
        {
            assert(used_by.skip(i as int)[0] == used_by[i as int]);
            assert(used_by.skip(i as int).skip(1) =~= used_by.skip(i + 1));
            let dep = scx.catalog.get_item_by_id(&catalog_entry.used_by[i]);
            match dep.item_type {
                CatalogItemType::Table
                | CatalogItemType::Source
                | CatalogItemType::View
                | CatalogItemType::Sink => {
                    return Err(
                        PlanError::invalid(
                            "cannot drop ".to_owned().concat(
                                catalog_entry.name.to_text().as_str(),
                            ).concat(": still depended upon by catalog item '").concat(
                                dep.name.to_text().as_str(),
                            ).concat("'"),
                        ),
                    );
                },
                CatalogItemType::Index => {},
            }
            i = i + 1;
        }
    }
    Ok(Some(catalog_entry.id))
}

/// The items to drop for a list of names, in order. Names that need not be
/// there are passed over.
pub open spec fn dropped_items(
    catalog: CatalogModel,
    object_type: ObjectType,
    if_exists: bool,
    names: Seq<ObjectName>,
    cascade: bool,
) -> Result<Seq<GlobalId>, ErrorView>
    decreases names.len(),
{
    if names.len() == 0 {
        Ok(Seq::empty())
    } else {
        match dropped_items(catalog, object_type, if_exists, names.drop_last(), cascade) {
            Err(e) => Err(e),
            Ok(ids) => match item_of(catalog, names.last()) {
                Ok(name) => match drop_item(catalog, object_type, name, cascade) {
                    Ok(id) => Ok(ids.push(id)),
                    Err(e) => Err(e),
                },
                Err(e) => if if_exists {
                    Ok(ids)
                } else {
                    Err(e)
                },
            },
        }
    }
}

proof fn first_error_stays(
    catalog: CatalogModel,
    object_type: ObjectType,
    if_exists: bool,
    names: Seq<ObjectName>,
    cascade: bool,
    n: int,
)
    requires
        0 <= n <= names.len(),
    ensures
        dropped_items(catalog, object_type, if_exists, names.take(n), cascade) matches Err(e)
            ==> dropped_items(catalog, object_type, if_exists, names, cascade) == Err::<
            Seq<GlobalId>,
            ErrorView,
        >(e),
    decreases names.len() - n,
{
    if n < names.len() {
        assert(names.take(n + 1).drop_last() =~= names.take(n));
        first_error_stays(catalog, object_type, if_exists, names, cascade, n + 1);
    } else {
        assert(names.take(n) =~= names);
    }
}

/// The plan for dropping items.
pub open spec fn drop_items(
    catalog: CatalogModel,
    object_type: ObjectType,
    if_exists: bool,
    names: Seq<ObjectName>,
    cascade: bool,
) -> Result<PlanView, ErrorView> {
    match dropped_items(catalog, object_type, if_exists, names, cascade) {
        Ok(items) => Ok(PlanView::DropItems { items, ty: object_type }),
        Err(e) => Err(e),
    }
}

/// Plans the dropping of items.
pub fn handle_drop_items<C: Catalog>(
    scx: &StatementContext<C>,
    object_type: ObjectType,
    if_exists: bool,
    names: &Vec<ObjectName>,
    cascade: bool,
) -> (r: Result<Plan, PlanError>)
    ensures
        viewed(r) == drop_items(scx.catalog.model(), object_type, if_exists, names@, cascade),
{
    let ghost model = scx.catalog.model();
    let mut items: Vec<GlobalId> = Vec::new();
    let mut i: usize = 0;
    assert(names@.take(0) =~= Seq::<ObjectName>::empty());
    while i < names.len()
        invariant
            model == scx.catalog.model(),
            i <= names.len(),
            dropped_items(model, object_type, if_exists, names@.take(i as int), cascade) == Ok::<
                Seq<GlobalId>,
                ErrorView,
            >(items@),
        decreases names.len() - i,
    {
        let ghost next = names@.take(i + 1);
        proof {
            assert(next.drop_last() =~= names@.take(i as int));
            assert(next.last() == names@[i as int]);
            first_error_stays(model, object_type, if_exists, names@, cascade, i + 1);
        }
        match scx.resolve_item(names[i].clone()) {
            Ok(name) => match handle_drop_item(scx, object_type, &name, cascade) {
                Ok(Some(id)) => {
                    items.push(id);
                },
                Ok(None) => {},
                Err(e) => {
                    return Err(e);
                },
            },
            Err(e) => {
                if !if_exists {
                    return Err(e);
                }
            },
        }
        i = i + 1;
    }
    assert(names@.take(i as int) =~= names@);
    Ok(Plan::DropItems { items, ty: object_type })
}

/// The plan for `DROP` of a schema or of items.
pub open spec fn drop_objects(catalog: CatalogModel, stmt: DropObjectsStatement) -> Result<
    PlanView,
    ErrorView,
> {
    if stmt.object_type == ObjectType::Schema {
        drop_schema(catalog, stmt.if_exists, stmt.names@, stmt.cascade)
    } else {
        drop_items(catalog, stmt.object_type, stmt.if_exists, stmt.names@, stmt.cascade)
    }
}

/// Whether a single schema to drop has a name.
pub open spec fn drop_is_named(stmt: DropObjectsStatement) -> bool {
    stmt.object_type == ObjectType::Schema && stmt.names@.len() == 1 ==> stmt.names@[0].0@.len() > 0
}

/// Plans `DROP` of a schema or of items.
pub fn handle_drop_objects<C: Catalog>(
    scx: &StatementContext<C>,
    stmt: &DropObjectsStatement,
) -> (r: Result<Plan, PlanError>)
    requires
        drop_is_named(*stmt),
    ensures
        viewed(r) == drop_objects(scx.catalog.model(), *stmt),
{
    match stmt.object_type {
        ObjectType::Schema => handle_drop_schema(scx, stmt.if_exists, &stmt.names, stmt.cascade),
        ObjectType::Source
        | ObjectType::Table
        | ObjectType::View
        | ObjectType::Index
        | ObjectType::Sink => handle_drop_items(
            scx,
            stmt.object_type,
            stmt.if_exists,
            &stmt.names,
            stmt.cascade,
        ),
    }
}

/// There is a first blocker among dependent items where there is a blocker at all.
pub proof fn first_blocker_blocks(catalog: CatalogModel, used_by: Seq<GlobalId>)
    ensures
        match first_blocker(catalog, used_by) {
            Some(id) => used_by.contains(id) && blocks(catalog, id),
            None => forall|i: int| 0 <= i < used_by.len() ==> !blocks(catalog, #[trigger] used_by[i]),
        },
    decreases used_by.len(),
{
    if used_by.len() > 0 {
        let rest = used_by.skip(1);
        first_blocker_blocks(catalog, rest);
        if blocks(catalog, used_by[0]) {
        } else if let Some(id) = first_blocker(catalog, used_by) {
            let i = rest.index_of(id);
            assert(used_by[i + 1] == id);
        } else {
            assert forall|i: int| 0 <= i < used_by.len() implies !blocks(
                catalog,
                #[trigger] used_by[i],
            ) by {
                if i > 0 {
                    assert(rest[i - 1] == used_by[i]);
                }
            }
        }
    }
}

/// Whether an item may be dropped: it is not one of the system's, it is of the
/// type that the statement says, and without `CASCADE` only indexes depend on it.
pub open spec fn may_be_dropped(
    catalog: CatalogModel,
    object_type: ObjectType,
    name: FullNameView,
    cascade: bool,
) -> bool {
    let entry = catalog.items[name];
    &&& entry.id !is System
    &&& type_matches(entry.item_type, object_type)
    &&& !cascade ==> forall|i: int|
        0 <= i < entry.used_by@.len() ==> !blocks(catalog, #[trigger] entry.used_by@[i])
}

/// An item is dropped exactly where it may be.
pub proof fn items_are_dropped_where_they_may_be(
    catalog: CatalogModel,
    object_type: ObjectType,
    name: FullNameView,
    cascade: bool,
)
    ensures
        drop_item(catalog, object_type, name, cascade) is Ok <==> may_be_dropped(
            catalog,
            object_type,
            name,
            cascade,
        ),
        drop_item(catalog, object_type, name, cascade) matches Ok(id) ==> id
            == catalog.items[name].id,
{
    let used_by = catalog.items[name].used_by@;
    first_blocker_blocks(catalog, used_by);
    if let Some(id) = first_blocker(catalog, used_by) {
        assert(blocks(catalog, used_by[used_by.index_of(id)]));
    }
}

/// Whatever is dropped for a list of names is the item of one of them, and may be dropped.
pub proof fn only_named_items_are_dropped(
    catalog: CatalogModel,
    object_type: ObjectType,
    if_exists: bool,
    names: Seq<ObjectName>,
    cascade: bool,
    id: GlobalId,
)
    requires
        dropped_items(catalog, object_type, if_exists, names, cascade) is Ok,
        dropped_items(catalog, object_type, if_exists, names, cascade)->Ok_0.contains(id),
    ensures
        exists|n: int|
            0 <= n < names.len() && item_of(catalog, #[trigger] names[n]) is Ok
                && catalog.items[item_of(catalog, names[n])->Ok_0].id == id && may_be_dropped(
                catalog,
                object_type,
                item_of(catalog, names[n])->Ok_0,
                cascade,
            ),
    decreases names.len(),
{
    if names.len() > 0 {
        let rest = names.drop_last();
        let before = dropped_items(catalog, object_type, if_exists, rest, cascade)->Ok_0;
        if before.contains(id) {
            only_named_items_are_dropped(catalog, object_type, if_exists, rest, cascade, id);
            let n = choose|n: int|
                0 <= n < rest.len() && item_of(catalog, #[trigger] rest[n]) is Ok
                    && catalog.items[item_of(catalog, rest[n])->Ok_0].id == id && may_be_dropped(
                    catalog,
                    object_type,
                    item_of(catalog, rest[n])->Ok_0,
                    cascade,
                );
            assert(names[n] == rest[n]);
        } else {
            let last = names[names.len() - 1];
            let ids = dropped_items(catalog, object_type, if_exists, names, cascade)->Ok_0;
            let i = ids.index_of(id);
            assert(ids[i] == id);
            if i < before.len() {
                assert(before[i] == id);
            }
            items_are_dropped_where_they_may_be(
                catalog,
                object_type,
                item_of(catalog, last)->Ok_0,
                cascade,
            );
        }
    }
}

/// A schema of the ambient database is never dropped, and without `CASCADE` one
/// that holds items is not. What is dropped is the schema of the name, or no
/// schema at all where it need not be there.
pub proof fn schemas_in_use_are_kept(
    catalog: CatalogModel,
    if_exists: bool,
    names: Seq<ObjectName>,
    cascade: bool,
)
    requires
        drop_schema(catalog, if_exists, names, cascade) is Ok,
    ensures
        names.len() == 1,
        drop_schema(catalog, if_exists, names, cascade)->Ok_0 is DropSchema,
        match schema_of(catalog, names[0]) {
            Ok((database, schema)) => {
                let plan = drop_schema(catalog, if_exists, names, cascade)->Ok_0;
                &&& plan->DropSchema_database_name == database
                &&& plan->DropSchema_schema_name == schema.name
                &&& database is Some
                &&& cascade || (catalog.contents)(database, schema.name).len() == 0
            },
            Err(_) => if_exists,
        },
{
}

} // verus!
