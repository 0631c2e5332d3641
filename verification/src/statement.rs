//! Planning of statements.
use std::collections::BTreeMap;

use vstd::prelude::*;
use vstd::string::*;

use crate::alter::{
    alter_index_options, alter_object_rename, handle_alter_index_options,
    handle_alter_object_rename,
};
use crate::ast::Statement;
use crate::catalog::{Catalog, CatalogItemType, CatalogModel, PlanContext};
use crate::context::StatementContext;
use crate::database::{create_schema, handle_create_database, handle_create_schema};
use crate::describe::{refusal, refuse};
use crate::drop::{
    drop_database, drop_is_named, drop_objects, handle_drop_database, handle_drop_objects,
};
use crate::engine::{failed, Params, ParamsView, Replies, Step, StepView};
use crate::index::{create_index, handle_create_index, index_keys_fit};
use crate::plan::{Plan, PlanView};
use crate::query::{
    explain, handle_explain, handle_insert, handle_select, handle_tail, insert, select, tail,
};
use crate::relation::ScalarType;
use crate::show::{
    can_show, handle_show_columns, handle_show_create_index, handle_show_create_sink,
    handle_show_create_source, handle_show_create_table, handle_show_create_view,
    handle_show_databases, handle_show_indexes, handle_show_objects, show_columns, show_create,
    show_databases, show_indexes, show_objects,
};
use crate::sink::{create_sink, handle_create_sink};
use crate::source::{create_source, handle_create_source, is_pure};
use crate::table::{create_table, handle_create_table};
use crate::variable::{handle_set_variable, handle_show_variable, set_variable, show_variable};
use crate::view::{create_view, handle_create_view, replaced_is_there};

verus! {

/// Types by the numbers of parameters, which are counted from one.
pub open spec fn numbered(types: Seq<ScalarType>) -> Map<usize, ScalarType> {
    Map::new(|n: usize| 1 <= n <= types.len(), |n: usize| types[n - 1])
}

fn number_types(types: &Vec<ScalarType>) -> (map: BTreeMap<usize, ScalarType>)
    ensures
        map@ == numbered(types@),
{
    let mut map: BTreeMap<usize, ScalarType> = BTreeMap::new();
    let mut i: usize = 0;
    assert(map@ =~= numbered(types@.take(0)));
    while i < types.len()
        invariant
            i <= types.len(),
            map@ == numbered(types@.take(i as int)),
        decreases types.len() - i,
    {
        map.insert(i + 1, types[i]);
        i = i + 1;
        assert(map@ =~= numbered(types@.take(i as int)));
    }
    assert(types@.take(i as int) =~= types@);
    map
}

/// Whether a statement, and the replies that are known, are as those who make
/// them promise: names have components, sources are pure, what is found is
/// there, and key columns are columns.
pub open spec fn is_sound(catalog: CatalogModel, stmt: Statement, replies: Replies) -> bool {
    match stmt {
        Statement::CreateIndex(stmt) => index_keys_fit(catalog, stmt, replies),
        Statement::CreateSchema(stmt) => stmt.name.0@.len() > 0,
        Statement::CreateSource(stmt) => is_pure(stmt),
        Statement::CreateView(stmt) => replaced_is_there(catalog, stmt, replies),
        Statement::DropObjects(stmt) => drop_is_named(stmt),
        Statement::ShowObjects(stmt) => can_show(stmt),
        _ => true,
    }
}

/// The plan for a statement.
pub open spec fn plan_of(
    catalog: CatalogModel,
    pcx: PlanContext,
    stmt: Statement,
    params: ParamsView,
    replies: Replies,
) -> StepView<PlanView> {
    let types = numbered(params.types);
    match stmt {
        Statement::CreateDatabase(stmt) => StepView::Done(
            Ok(
                PlanView::CreateDatabase {
                    name: stmt.name.value@,
                    if_not_exists: stmt.if_not_exists,
                },
            ),
        ),
        Statement::CreateIndex(stmt) => create_index(catalog, stmt, replies),
        Statement::CreateSchema(stmt) => StepView::Done(create_schema(catalog, stmt)),
        Statement::CreateSink(stmt) => create_sink(catalog, stmt, replies),
        Statement::CreateSource(stmt) => create_source(catalog, stmt, replies),
        Statement::CreateTable(stmt) => create_table(catalog, stmt, replies),
        Statement::CreateView(stmt) => create_view(catalog, pcx, types, stmt, params, replies),
        Statement::DropDatabase(stmt) => StepView::Done(drop_database(catalog, stmt)),
        Statement::DropObjects(stmt) => StepView::Done(drop_objects(catalog, stmt)),
        Statement::AlterObjectRename(stmt) => StepView::Done(alter_object_rename(catalog, stmt)),
        Statement::AlterIndexOptions(stmt) => StepView::Done(alter_index_options(catalog, stmt)),
        Statement::ShowColumns(stmt) => show_columns(catalog, pcx, types, stmt, replies),
        Statement::ShowCreateIndex(stmt) => StepView::Done(
            show_create(
                catalog,
                stmt.index_name,
                CatalogItemType::Index,
                "'"@,
                "' is not an index"@,
            ),
        ),
        Statement::ShowCreateSink(stmt) => StepView::Done(
            show_create(
                catalog,
                stmt.sink_name,
                CatalogItemType::Sink,
                "'"@,
                "' is not a sink"@,
            ),
        ),
        Statement::ShowCreateSource(stmt) => StepView::Done(
            show_create(
                catalog,
                stmt.source_name,
                CatalogItemType::Source,
                ""@,
                " is not a source"@,
            ),
        ),
        Statement::ShowCreateTable(stmt) => StepView::Done(
            show_create(
                catalog,
                stmt.table_name,
                CatalogItemType::Table,
                ""@,
                " is not a table"@,
            ),
        ),
        Statement::ShowCreateView(stmt) => StepView::Done(
            show_create(
                catalog,
                stmt.view_name,
                CatalogItemType::View,
                ""@,
                " is not a view"@,
            ),
        ),
        Statement::ShowDatabases(stmt) => show_databases(pcx, types, stmt, replies),
        Statement::ShowIndexes(stmt) => show_indexes(catalog, pcx, types, stmt, replies),
        Statement::ShowObjects(stmt) => show_objects(catalog, pcx, types, stmt, replies),
        Statement::SetVariable(stmt) => StepView::Done(set_variable(stmt)),
        Statement::ShowVariable(stmt) => StepView::Done(Ok(show_variable(stmt))),
        Statement::Explain(stmt) => explain(catalog, pcx, types, stmt, params, replies),
        Statement::Select(stmt) => select(
            pcx,
            types,
            stmt.query.sql@,
            stmt.as_of,
            params,
            replies,
        ),
        Statement::Tail(stmt) => tail(catalog, stmt, replies),
        Statement::Insert(stmt) => insert(pcx, types, stmt, params, replies),
        Statement::StartTransaction => StepView::Done(Ok(PlanView::StartTransaction)),
        Statement::Rollback => StepView::Done(Ok(PlanView::AbortTransaction)),
        Statement::Commit => StepView::Done(Ok(PlanView::CommitTransaction)),
        Statement::Update
        | Statement::Delete
        | Statement::Copy
        | Statement::SetTransaction => failed(refusal(stmt)->0),
    }
}

/// Plans a statement.
pub fn handle_statement<C: Catalog>(
    pcx: &PlanContext,
    catalog: &C,
    stmt: &Statement,
    params: &Params,
    replies: &Replies,
) -> (step: Step<Plan>)
    requires
        is_sound(catalog.model(), *stmt, *replies),
    ensures
        step@ == plan_of(catalog.model(), *pcx, *stmt, params@, *replies),
{
    let scx = StatementContext { pcx, catalog, param_types: number_types(&params.types) };
    let scx = &scx;
    match stmt {
        Statement::CreateDatabase(stmt) => Step::Done(handle_create_database(stmt)),
        Statement::CreateIndex(stmt) => handle_create_index(scx, stmt, replies),
        Statement::CreateSchema(stmt) => Step::Done(handle_create_schema(scx, stmt)),
        Statement::CreateSink(stmt) => handle_create_sink(scx, stmt, replies),
        Statement::CreateSource(stmt) => handle_create_source(scx, stmt, replies),
        Statement::CreateTable(stmt) => handle_create_table(scx, stmt, replies),
        Statement::CreateView(stmt) => handle_create_view(scx, stmt, params, replies),
        Statement::DropDatabase(stmt) => Step::Done(handle_drop_database(scx, stmt)),
        Statement::DropObjects(stmt) => Step::Done(handle_drop_objects(scx, stmt)),
        Statement::AlterObjectRename(stmt) => Step::Done(handle_alter_object_rename(scx, stmt)),
        Statement::AlterIndexOptions(stmt) => Step::Done(handle_alter_index_options(scx, stmt)),
        Statement::ShowColumns(stmt) => handle_show_columns(scx, stmt, replies),
        Statement::ShowCreateIndex(stmt) => Step::Done(handle_show_create_index(scx, stmt)),
        Statement::ShowCreateSink(stmt) => Step::Done(handle_show_create_sink(scx, stmt)),
        Statement::ShowCreateSource(stmt) => Step::Done(handle_show_create_source(scx, stmt)),
        Statement::ShowCreateTable(stmt) => Step::Done(handle_show_create_table(scx, stmt)),
        Statement::ShowCreateView(stmt) => Step::Done(handle_show_create_view(scx, stmt)),
        Statement::ShowDatabases(stmt) => handle_show_databases(scx, stmt, replies),
        Statement::ShowIndexes(stmt) => handle_show_indexes(scx, stmt, replies),
        Statement::ShowObjects(stmt) => handle_show_objects(scx, stmt, replies),
        Statement::SetVariable(stmt) => Step::Done(handle_set_variable(stmt)),
        Statement::ShowVariable(stmt) => Step::Done(handle_show_variable(stmt)),
        Statement::Explain(stmt) => handle_explain(scx, stmt, params, replies),
        Statement::Select(stmt) => handle_select(scx, stmt, params, replies),
        Statement::Tail(stmt) => handle_tail(scx, stmt, replies),
        Statement::Insert(stmt) => handle_insert(scx, stmt, params, replies),
        Statement::StartTransaction => Step::Done(Ok(Plan::StartTransaction)),
        Statement::Rollback => Step::Done(Ok(Plan::AbortTransaction)),
        Statement::Commit => Step::Done(Ok(Plan::CommitTransaction)),
        Statement::Update
        | Statement::Delete
        | Statement::Copy
        | Statement::SetTransaction => refuse(stmt),
    }
}

} // verus!
