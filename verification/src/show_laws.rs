//! What holds of planned `SHOW` statements, in terms of the statements themselves.
use vstd::prelude::*;
use vstd::string::*;

use crate::ast::{
    ObjectType, ShowColumnsStatement, ShowDatabasesStatement, ShowIndexesStatement,
    ShowObjectsStatement, ShowStatementFilter, Statement,
};
use crate::catalog::{CatalogItemType, CatalogModel, PlanContext};
use crate::context::{item_of, schema_of};
use crate::engine::{ParamsView, Replies, StepView};
use crate::error::{ErrorKind, ErrorView};
use crate::names::{FullNameView, ObjectName};
use crate::plan::PlanView;
use crate::query::generated_select;
use crate::relation::ScalarType;
use crate::show::{
    column_columns, columns_from, columns_order, columns_query, database_columns, databases_from,
    databases_query, filter_clause, filtered_index_columns, index_columns, indexes_from,
    indexes_order, indexes_query, laid_out, schemas_condition, schemas_from, schemas_query,
    show_columns, show_databases, show_indexes, show_objects, shown_columns, shown_schema,
    sinks_from, sinks_order, sinks_query, sources_from, sources_order, sources_query, tables_from,
    tables_order, tables_query, views_from, views_indexed, views_order, views_query, Condition,
};
use crate::statement::plan_of;
use crate::text::{literal, signed_decimal};

verus! {

// Filters.

/// What a filter adds to a condition that is there: nothing, or after `AND` that
/// the column is like the pattern, or the expression.
pub open spec fn added_condition(
    filter: Option<ShowStatementFilter>,
    column: Seq<char>,
) -> Seq<char> {
    match filter {
        None => Seq::empty(),
        Some(ShowStatementFilter::Like(pattern)) => "AND "@ + column + " LIKE "@ + literal(
            pattern@,
        ),
        Some(ShowStatementFilter::Where(expr)) => "AND "@ + expr.sql@,
    }
}

proof fn filters_add_conditions(filter: Option<ShowStatementFilter>, column: Seq<char>)
    ensures
        filter_clause(filter, column) == added_condition(filter, column),
{
    reveal_strlit("");
    assert(filter_clause(filter, column) =~= added_condition(filter, column));
}

// Objects of a schema.

/// Whether a schema of this number is the one whose objects are shown: the one
/// that the statement names, or else the schema `public`.
pub open spec fn shows_schema(catalog: CatalogModel, from: Option<ObjectName>, id: i64) -> bool {
    match from {
        Some(name) => schema_of(catalog, name) matches Ok((_, schema)) && schema.id == id,
        None => (catalog.schemas)(None, "public"@) matches Ok((_, schema)) && schema.id == id,
    }
}

/// Whether objects of this type are in schemas, and are shown by schema.
pub open spec fn is_in_schema(object_type: ObjectType) -> bool {
    ||| object_type == ObjectType::Table
    ||| object_type == ObjectType::Source
    ||| object_type == ObjectType::View
    ||| object_type == ObjectType::Sink
}

/// The column that the names of objects of this type are in.
pub open spec fn name_column(object_type: ObjectType) -> Seq<char> {
    match object_type {
        ObjectType::Table => "tables"@,
        ObjectType::Source => "sources"@,
        ObjectType::View => "views"@,
        ObjectType::Sink => "sinks"@,
        ObjectType::Index => "indexes"@,
        ObjectType::Schema => "schema"@,
    }
}

/// A query for the objects of a schema, with the number of the schema and what a
/// filter adds filled in.
pub open spec fn filled_in(
    before: Seq<char>,
    id: i64,
    between: Seq<char>,
    added: Seq<char>,
    after: Seq<char>,
) -> Seq<char> {
    before + "schema_id = "@ + signed_decimal(id as int) + between + added + after
}

/// The queries for the objects of a schema.
pub open spec fn objects_text(
    object_type: ObjectType,
    full: bool,
    materialized: bool,
    id: i64,
    filter: Option<ShowStatementFilter>,
) -> Seq<char> {
    match object_type {
        ObjectType::Table => tables_query(full, id, filter_clause(filter, "tables"@)),
        ObjectType::Source => sources_query(full, materialized, id, filter),
        ObjectType::View => views_query(full, materialized, id, filter_clause(filter, "views"@)),
        _ => sinks_query(full, id, filter_clause(filter, "sinks"@)),
    }
}

proof fn tables_are_filled_in(
    full: bool,
    id: i64,
    filter: Option<ShowStatementFilter>,
    before: Seq<char>,
)
    requires
        before == laid_out(
            shown_columns(ObjectType::Table, false, full),
            " "@,
            if full {
                "\n            "@
            } else {
                " "@
            },
            tables_from(full),
        ),
    ensures
        tables_query(full, id, filter_clause(filter, "tables"@)) == filled_in(
            before,
            id,
            " "@,
            added_condition(filter, "tables"@),
            tables_order(full),
        ),
{
    filters_add_conditions(filter, "tables"@);
    assert(tables_query(full, id, filter_clause(filter, "tables"@)) =~= filled_in(
        before,
        id,
        " "@,
        added_condition(filter, "tables"@),
        tables_order(full),
    ));
}

proof fn sinks_are_filled_in(
    full: bool,
    id: i64,
    filter: Option<ShowStatementFilter>,
    before: Seq<char>,
)
    requires
        before == laid_out(
            shown_columns(ObjectType::Sink, false, full),
            " "@,
            if full {
                "\n            "@
            } else {
                " "@
            },
            sinks_from(full),
        ),
    ensures
        sinks_query(full, id, filter_clause(filter, "sinks"@)) == filled_in(
            before,
            id,
            " "@,
            added_condition(filter, "sinks"@),
            sinks_order(full),
        ),
{
    filters_add_conditions(filter, "sinks"@);
    assert(sinks_query(full, id, filter_clause(filter, "sinks"@)) =~= filled_in(
        before,
        id,
        " "@,
        added_condition(filter, "sinks"@),
        sinks_order(full),
    ));
}

proof fn views_are_filled_in(
    full: bool,
    materialized: bool,
    id: i64,
    filter: Option<ShowStatementFilter>,
    before: Seq<char>,
)
    requires
        before == laid_out(
            shown_columns(ObjectType::View, materialized, full),
            if full && !materialized {
                "\n                "@
            } else {
                " "@
            },
            "\n             "@,
            views_from(full, materialized),
        ),
    ensures
        views_query(full, materialized, id, filter_clause(filter, "views"@)) == filled_in(
            before,
            id,
            views_indexed(materialized),
            added_condition(filter, "views"@),
            views_order(),
        ),
{
    filters_add_conditions(filter, "views"@);
    assert(views_query(full, materialized, id, filter_clause(filter, "views"@)) =~= filled_in(
        before,
        id,
        views_indexed(materialized),
        added_condition(filter, "views"@),
        views_order(),
    ));
}

proof fn sources_are_filled_in(
    full: bool,
    materialized: bool,
    id: i64,
    filter: Option<ShowStatementFilter>,
    before: Seq<char>,
    after: Seq<char>,
)
    requires
        before == laid_out(
            shown_columns(ObjectType::Source, materialized, full),
            " "@,
            if full || materialized {
                "\n            "@
            } else {
                " "@
            },
            sources_from(full || materialized),
        ),
        after == if materialized {
            " AND "@ + "mz_indexes_count.count > 0"@ + sources_order(true)
        } else {
            sources_order(full)
        },
    ensures
        sources_query(full, materialized, id, filter) == filled_in(
            before,
            id,
            " "@,
            added_condition(filter, "sources"@),
            after,
        ),
{
    filters_add_conditions(filter, "sources"@);
    reveal_with_fuel(Condition::sql, 3);
    assert(sources_query(full, materialized, id, filter) =~= filled_in(
        before,
        id,
        " "@,
        added_condition(filter, "sources"@),
        after,
    ));
}

proof fn objects_are_filled_in(
    object_type: ObjectType,
    full: bool,
    materialized: bool,
) -> (parts: (Seq<char>, Seq<char>, Seq<char>))
    requires
        is_in_schema(object_type),
    ensures
        parts.1 == " "@ || parts.1 == views_indexed(true),
        forall|id: i64, filter: Option<ShowStatementFilter>| #[trigger]
            objects_text(object_type, full, materialized, id, filter) == filled_in(
                parts.0,
                id,
                parts.1,
                added_condition(filter, name_column(object_type)),
                parts.2,
            ),
{
    let wide = match object_type {
        ObjectType::Source => full || materialized,
        _ => full,
    };
    let gap = if object_type == ObjectType::View && full && !materialized {
        "\n                "@
    } else {
        " "@
    };
    let line = if object_type == ObjectType::View {
        "\n             "@
    } else if wide {
        "\n            "@
    } else {
        " "@
    };
    let (columns, from, between, after) = match object_type {
        ObjectType::Table => (
            shown_columns(ObjectType::Table, false, full),
            tables_from(full),
            " "@,
            tables_order(full),
        ),
        ObjectType::Sink => (
            shown_columns(ObjectType::Sink, false, full),
            sinks_from(full),
            " "@,
            sinks_order(full),
        ),
        ObjectType::View => (
            shown_columns(ObjectType::View, materialized, full),
            views_from(full, materialized),
            views_indexed(materialized),
            views_order(),
        ),
        _ => (
            shown_columns(ObjectType::Source, materialized, full),
            sources_from(wide),
            " "@,
            if materialized {
                " AND "@ + "mz_indexes_count.count > 0"@ + sources_order(true)
            } else {
                sources_order(full)
            },
        ),
    };
    let before = laid_out(columns, gap, line, from);
    assert forall|id: i64, filter: Option<ShowStatementFilter>| #[trigger]
        objects_text(object_type, full, materialized, id, filter) == filled_in(
            before,
            id,
            between,
            added_condition(filter, name_column(object_type)),
            after,
        ) by {
        match object_type {
            ObjectType::Table => tables_are_filled_in(full, id, filter, before),
            ObjectType::Sink => sinks_are_filled_in(full, id, filter, before),
            ObjectType::View => views_are_filled_in(full, materialized, id, filter, before),
            _ => sources_are_filled_in(full, materialized, id, filter, before, after),
        }
    }
    (before, between, after)
}

/// The objects of the right schema are asked for. Two statements that show
/// objects of one type, with the same columns, are planned as two queries that
/// differ in nothing but the number of the schema that each asks for and in what
/// each adds by its filter. The schema is the one that the statement names, or
/// else `public`.
pub proof fn shown_objects_are_of_the_schema(
    catalog: CatalogModel,
    pcx: PlanContext,
    types: Map<usize, ScalarType>,
    stmt: ShowObjectsStatement,
    other: ShowObjectsStatement,
    id: i64,
    other_id: i64,
    replies: Replies,
)
    requires
        is_in_schema(stmt.object_type),
        stmt.object_type == ObjectType::Table ==> !stmt.extended && !other.extended,
        other.object_type == stmt.object_type,
        other.full == stmt.full,
        stmt.object_type == ObjectType::View || stmt.object_type == ObjectType::Source
            ==> other.materialized == stmt.materialized,
        shows_schema(catalog, stmt.from, id),
        shows_schema(catalog, other.from, other_id),
    ensures
        exists|before: Seq<char>, between: Seq<char>, after: Seq<char>|
            #![trigger filled_in(before, id, between, added_condition(stmt.filter, name_column(stmt.object_type)), after)]
            {
                let column = name_column(stmt.object_type);
                let sql = filled_in(
                    before,
                    id,
                    between,
                    added_condition(stmt.filter, column),
                    after,
                );
                let other_sql = filled_in(
                    before,
                    other_id,
                    between,
                    added_condition(other.filter, column),
                    after,
                );
                &&& between.len() > 0 && (between[0] == ' ' || between[0] == '\n')
                &&& show_objects(catalog, pcx, types, stmt, replies) == generated_select(
                    pcx,
                    types,
                    sql,
                    replies,
                )
                &&& show_objects(catalog, pcx, types, other, replies)
                    == generated_select(pcx, types, other_sql, replies)
            },
{
    let (before, between, after) = objects_are_filled_in(
        stmt.object_type,
        stmt.full,
        stmt.materialized,
    );
    let column = name_column(stmt.object_type);
    let sql = filled_in(before, id, between, added_condition(stmt.filter, column), after);
    let other_sql = filled_in(
        before,
        other_id,
        between,
        added_condition(other.filter, column),
        after,
    );
    assert(sql == objects_text(stmt.object_type, stmt.full, stmt.materialized, id, stmt.filter));
    assert(other_sql == objects_text(
        stmt.object_type,
        stmt.full,
        stmt.materialized,
        other_id,
        other.filter,
    ));
    reveal_strlit(" ");
    reveal_strlit("\n                AND mz_indexes_count.count > 0 ");
    assert(shown_schema(catalog, stmt.from)->Ok_0.id == id);
    assert(shown_schema(catalog, other.from)->Ok_0.id == other_id);
    assert(show_objects(catalog, pcx, types, stmt, replies) == generated_select(
        pcx,
        types,
        sql,
        replies,
    ));
    assert(show_objects(catalog, pcx, types, other, replies) == generated_select(
        pcx,
        types,
        other_sql,
        replies,
    ));
}

/// The query that is to be parsed asks for the objects of the schema that the
/// statement names; only where it names none, of the schema `public`.
pub proof fn shown_objects_are_asked_for_by_schema(
    catalog: CatalogModel,
    pcx: PlanContext,
    types: Map<usize, ScalarType>,
    stmt: ShowObjectsStatement,
    id: i64,
    replies: Replies,
)
    requires
        is_in_schema(stmt.object_type),
        stmt.object_type == ObjectType::Table ==> !stmt.extended,
        match stmt.from {
            Some(name) => schema_of(catalog, name) matches Ok((_, schema)) && schema.id == id,
            None => (catalog.schemas)(None, "public"@) matches Ok((_, schema)) && schema.id == id,
        },
        replies.parsed_select is None,
    ensures
        show_objects(catalog, pcx, types, stmt, replies) matches StepView::Ask(question) && {
            &&& question is ParseSelect
            &&& exists|before: Seq<char>, after: Seq<char>|
                {
                    &&& question->ParseSelect_sql == #[trigger] (before + "schema_id = "@
                        + signed_decimal(id as int) + after)
                    &&& after.len() > 0
                    &&& after[0] == ' ' || after[0] == '\n'
                }
        },
{
    shown_objects_are_of_the_schema(catalog, pcx, types, stmt, stmt, id, id, replies);
    let column = name_column(stmt.object_type);
    let added = added_condition(stmt.filter, column);
    let (before, between, end) = choose|before: Seq<char>, between: Seq<char>, after: Seq<char>|
        {
            &&& between.len() > 0 && (between[0] == ' ' || between[0] == '\n')
            &&& show_objects(catalog, pcx, types, stmt, replies) == generated_select(
                pcx,
                types,
                #[trigger] filled_in(before, id, between, added, after),
                replies,
            )
        };
    let after = between + added + end;
    assert(filled_in(before, id, between, added, end) =~= before + "schema_id = "@ + signed_decimal(
        id as int,
    ) + after);
}

/// Objects of a schema that is not found are not shown: that is the error. The
/// tables of the system are not shown.
pub proof fn missing_schemas_are_not_shown(
    catalog: CatalogModel,
    pcx: PlanContext,
    types: Map<usize, ScalarType>,
    stmt: ShowObjectsStatement,
    replies: Replies,
)
    requires
        is_in_schema(stmt.object_type),
    ensures
        stmt.object_type == ObjectType::Table && stmt.extended ==> (show_objects(
            catalog,
            pcx,
            types,
            stmt,
            replies,
        ) matches StepView::Done(Err(e)) && e.kind == ErrorKind::Unsupported),
        !(stmt.object_type == ObjectType::Table && stmt.extended) ==> match stmt.from {
            Some(name) => schema_of(catalog, name) matches Err(e) ==> show_objects(
                catalog,
                pcx,
                types,
                stmt,
                replies,
            ) == StepView::<PlanView>::Done(Err(e)),
            None => (catalog.schemas)(None, "public"@) matches Err(e) ==> show_objects(
                catalog,
                pcx,
                types,
                stmt,
                replies,
            ) == StepView::<PlanView>::Done(Err(e)),
        },
{
}

// Schemas and databases.

/// Whether this is the database whose schemas are shown: the one that the
/// statement names by a single component, or else the default one. It is there.
pub open spec fn shows_database(
    catalog: CatalogModel,
    from: Option<ObjectName>,
    database: Seq<char>,
) -> bool {
    &&& (catalog.databases)(database) is Ok
    &&& match from {
        Some(name) => name.0@.len() == 1 && name.0@[0].value@ == database,
        None => database == catalog.default_database,
    }
}

/// A query for the schemas of a database, with the name of the database and what
/// a filter adds filled in.
pub open spec fn schemas_text(
    before: Seq<char>,
    database: Seq<char>,
    between: Seq<char>,
    added: Seq<char>,
) -> Seq<char> {
    before + "mz_catalog.mz_databases.database = '"@ + database + "'"@ + between + added
}

/// What `EXTENDED` adds to the condition on the database.
pub open spec fn and_system_schemas(extended: bool) -> Seq<char> {
    if extended {
        " OR "@ + "mz_catalog.mz_databases.id = -1"@ + " "@
    } else {
        " "@
    }
}

proof fn schemas_conditions_are_filled_in(
    extended: bool,
    database: Seq<char>,
    filter: Option<ShowStatementFilter>,
)
    ensures
        schemas_condition(extended, database, filter).sql()
            == "mz_catalog.mz_databases.database = '"@ + database + "'"@ + and_system_schemas(
            extended,
        ) + added_condition(filter, "schema"@),
{
    filters_add_conditions(filter, "schema"@);
    reveal_with_fuel(Condition::sql, 3);
    assert(schemas_condition(extended, database, filter).sql()
        =~= "mz_catalog.mz_databases.database = '"@ + database + "'"@ + and_system_schemas(extended)
        + added_condition(filter, "schema"@));
}

proof fn schemas_are_filled_in(
    extended: bool,
    full: bool,
    database: Seq<char>,
    filter: Option<ShowStatementFilter>,
)
    ensures
        schemas_query(extended, full, database, filter) == schemas_text(
            laid_out(
                shown_columns(ObjectType::Schema, false, full),
                " "@,
                "\n            "@,
                schemas_from(),
            ),
            database,
            and_system_schemas(extended),
            added_condition(filter, "schema"@),
        ),
{
    schemas_conditions_are_filled_in(extended, database, filter);
    let condition = schemas_condition(extended, database, filter).sql();
    let columns = shown_columns(ObjectType::Schema, false, full);
    let before = laid_out(columns, " "@, "\n            "@, schemas_from());
    assert(laid_out(columns, " "@, "\n            "@, schemas_from() + condition) =~= before
        + condition);
    let (between, added) = (and_system_schemas(extended), added_condition(filter, "schema"@));
    let atom = "mz_catalog.mz_databases.database = '"@;
    assert(before + (atom + database + "'"@ + between + added) =~= before + atom + database + "'"@
        + between + added);
}

/// The schemas of the right database are asked for. Two statements that show
/// schemas, with the same columns, are planned as two queries that differ in
/// nothing but the database that each asks for, in the schemas of the system that
/// `EXTENDED` adds, and in what each adds by its filter. The database is the one
/// that the statement names, or else the default one.
pub proof fn shown_schemas_are_of_the_database(
    catalog: CatalogModel,
    pcx: PlanContext,
    types: Map<usize, ScalarType>,
    stmt: ShowObjectsStatement,
    other: ShowObjectsStatement,
    database: Seq<char>,
    other_database: Seq<char>,
    replies: Replies,
)
    requires
        stmt.object_type == ObjectType::Schema,
        other.object_type == ObjectType::Schema,
        other.full == stmt.full,
        shows_database(catalog, stmt.from, database),
        shows_database(catalog, other.from, other_database),
    ensures
        exists|before: Seq<char>|
            #![trigger schemas_text(before, database, and_system_schemas(stmt.extended), added_condition(stmt.filter, "schema"@))]
            {
                &&& show_objects(catalog, pcx, types, stmt, replies) == generated_select(
                    pcx,
                    types,
                    schemas_text(
                        before,
                        database,
                        and_system_schemas(stmt.extended),
                        added_condition(stmt.filter, "schema"@),
                    ),
                    replies,
                )
                &&& show_objects(catalog, pcx, types, other, replies) == generated_select(
                    pcx,
                    types,
                    schemas_text(
                        before,
                        other_database,
                        and_system_schemas(other.extended),
                        added_condition(other.filter, "schema"@),
                    ),
                    replies,
                )
            },
{
    schemas_are_filled_in(stmt.extended, stmt.full, database, stmt.filter);
    schemas_are_filled_in(other.extended, other.full, other_database, other.filter);
    if let Some(name) = stmt.from {
        assert(name.parts()[0] == database);
    }
    if let Some(name) = other.from {
        assert(name.parts()[0] == other_database);
    }
    assert(show_objects(catalog, pcx, types, stmt, replies) == generated_select(
        pcx,
        types,
        schemas_query(stmt.extended, stmt.full, database, stmt.filter),
        replies,
    ));
    assert(show_objects(catalog, pcx, types, other, replies) == generated_select(
        pcx,
        types,
        schemas_query(other.extended, other.full, other_database, other.filter),
        replies,
    ));
}

/// The schemas of a database that is not found are not shown: that is the error.
/// A name of more components, or of none, is no name of a database.
pub proof fn missing_databases_are_not_shown(
    catalog: CatalogModel,
    pcx: PlanContext,
    types: Map<usize, ScalarType>,
    stmt: ShowObjectsStatement,
    replies: Replies,
)
    requires
        stmt.object_type == ObjectType::Schema,
    ensures
        match stmt.from {
            Some(name) => if name.0@.len() == 1 {
                (catalog.databases)(name.0@[0].value@) matches Err(e) ==> show_objects(
                    catalog,
                    pcx,
                    types,
                    stmt,
                    replies,
                ) == StepView::<PlanView>::Done(Err(e))
            } else {
                show_objects(catalog, pcx, types, stmt, replies) matches StepView::Done(Err(e))
                    && e.kind == ErrorKind::OverqualifiedDatabaseName
            },
            None => (catalog.databases)(catalog.default_database) matches Err(e) ==> show_objects(
                catalog,
                pcx,
                types,
                stmt,
                replies,
            ) == StepView::<PlanView>::Done(Err(e)),
        },
{
    if let Some(name) = stmt.from {
        if name.0@.len() == 1 {
            assert(name.parts()[0] == name.0@[0].value@);
        }
    }
}

/// Two statements that show databases are planned as two queries that differ in
/// nothing but what each adds by its filter.
pub proof fn shown_databases_differ_by_filter(
    pcx: PlanContext,
    types: Map<usize, ScalarType>,
    stmt: ShowDatabasesStatement,
    other: ShowDatabasesStatement,
    replies: Replies,
)
    ensures
        exists|before: Seq<char>|
            #![trigger before + added_condition(stmt.filter, "database"@)]
            {
                &&& show_databases(pcx, types, stmt, replies) == generated_select(
                    pcx,
                    types,
                    before + added_condition(stmt.filter, "database"@),
                    replies,
                )
                &&& show_databases(pcx, types, other, replies) == generated_select(
                    pcx,
                    types,
                    before + added_condition(other.filter, "database"@),
                    replies,
                )
            },
{
    let before = laid_out(database_columns(), " "@, "\n             "@, databases_from());
    filters_add_conditions(stmt.filter, "database"@);
    filters_add_conditions(other.filter, "database"@);
    assert(databases_query(filter_clause(stmt.filter, "database"@)) =~= before + added_condition(
        stmt.filter,
        "database"@,
    ));
    assert(databases_query(filter_clause(other.filter, "database"@)) =~= before + added_condition(
        other.filter,
        "database"@,
    ));
}

// Columns and indexes.

/// A query for the columns of an item, with the name of the item and what a
/// filter adds filled in.
pub open spec fn columns_text(
    before: Seq<char>,
    name: Seq<char>,
    added: Seq<char>,
    after: Seq<char>,
) -> Seq<char> {
    before + "mz_catalog_names.name = '"@ + name + "' "@ + added + after
}

/// The columns of the right item are asked for. Two statements that show columns
/// are planned as two queries that differ in nothing but the name of the item
/// that each asks for and in what each adds by its filter.
pub proof fn shown_columns_are_of_the_item(
    catalog: CatalogModel,
    pcx: PlanContext,
    types: Map<usize, ScalarType>,
    stmt: ShowColumnsStatement,
    other: ShowColumnsStatement,
    name: FullNameView,
    other_name: FullNameView,
    replies: Replies,
)
    requires
        !stmt.extended && !stmt.full,
        !other.extended && !other.full,
        item_of(catalog, stmt.table_name) == Ok::<FullNameView, ErrorView>(name),
        item_of(catalog, other.table_name) == Ok::<FullNameView, ErrorView>(other_name),
    ensures
        exists|before: Seq<char>, after: Seq<char>|
            #![trigger columns_text(before, name.shown(), added_condition(stmt.filter, "field"@), after)]
            {
                &&& show_columns(catalog, pcx, types, stmt, replies) == generated_select(
                    pcx,
                    types,
                    columns_text(
                        before,
                        name.shown(),
                        added_condition(stmt.filter, "field"@),
                        after,
                    ),
                    replies,
                )
                &&& show_columns(catalog, pcx, types, other, replies) == generated_select(
                    pcx,
                    types,
                    columns_text(
                        before,
                        other_name.shown(),
                        added_condition(other.filter, "field"@),
                        after,
                    ),
                    replies,
                )
            },
{
    let before = laid_out(column_columns(), "\n            "@, "\n         "@, columns_from());
    let after = columns_order();
    filters_add_conditions(stmt.filter, "field"@);
    filters_add_conditions(other.filter, "field"@);
    assert(columns_query(name.shown(), filter_clause(stmt.filter, "field"@)) =~= columns_text(
        before,
        name.shown(),
        added_condition(stmt.filter, "field"@),
        after,
    ));
    assert(columns_query(other_name.shown(), filter_clause(other.filter, "field"@))
        =~= columns_text(
        before,
        other_name.shown(),
        added_condition(other.filter, "field"@),
        after,
    ));
}

/// The columns of an item that is not found are not shown: that is the error.
/// `EXTENDED` and `FULL` are not supported.
pub proof fn missing_columns_are_not_shown(
    catalog: CatalogModel,
    pcx: PlanContext,
    types: Map<usize, ScalarType>,
    stmt: ShowColumnsStatement,
    replies: Replies,
)
    ensures
        if stmt.extended || stmt.full {
            show_columns(catalog, pcx, types, stmt, replies) matches StepView::Done(Err(e))
                && e.kind == ErrorKind::Unsupported
        } else {
            item_of(catalog, stmt.table_name) matches Err(e) ==> show_columns(
                catalog,
                pcx,
                types,
                stmt,
                replies,
            ) == StepView::<PlanView>::Done(Err(e))
        },
{
}

/// What a filter leaves of the indexes: all, or those of which its condition holds.
pub open spec fn filtered_text(
    all: Seq<char>,
    before: Seq<char>,
    between: Seq<char>,
    filter: Option<ShowStatementFilter>,
) -> Seq<char> {
    match filter {
        None => all,
        Some(ShowStatementFilter::Like(pattern)) => before + all + between + "key_name LIKE "@
            + literal(pattern@),
        Some(ShowStatementFilter::Where(expr)) => before + all + between + expr.sql@,
    }
}

/// A query for the indexes on an item, with the name of the item filled in.
pub open spec fn indexes_text(before: Seq<char>, name: Seq<char>, after: Seq<char>) -> Seq<char> {
    before + "on_names.name = '"@ + name + after
}

/// The indexes on the right item are asked for. Two statements that show indexes
/// are planned as two queries that differ in nothing but the name of the item
/// that each asks for and in what each selects of the indexes by its filter. Views,
/// sources and tables have indexes.
pub proof fn shown_indexes_are_on_the_item(
    catalog: CatalogModel,
    pcx: PlanContext,
    types: Map<usize, ScalarType>,
    stmt: ShowIndexesStatement,
    other: ShowIndexesStatement,
    name: FullNameView,
    other_name: FullNameView,
    replies: Replies,
)
    requires
        !stmt.extended,
        !other.extended,
        item_of(catalog, stmt.table_name) == Ok::<FullNameView, ErrorView>(name),
        item_of(catalog, other.table_name) == Ok::<FullNameView, ErrorView>(other_name),
        is_relation(catalog.items[name].item_type),
        is_relation(catalog.items[other_name].item_type),
    ensures
        exists|before: Seq<char>, after: Seq<char>, outer: Seq<char>, between: Seq<char>|
            #![trigger filtered_text(indexes_text(before, name.shown(), after), outer, between, stmt.filter)]
            {
                &&& show_indexes(catalog, pcx, types, stmt, replies) == generated_select(
                    pcx,
                    types,
                    filtered_text(
                        indexes_text(before, name.shown(), after),
                        outer,
                        between,
                        stmt.filter,
                    ),
                    replies,
                )
                &&& show_indexes(catalog, pcx, types, other, replies) == generated_select(
                    pcx,
                    types,
                    filtered_text(
                        indexes_text(before, other_name.shown(), after),
                        outer,
                        between,
                        other.filter,
                    ),
                    replies,
                )
            },
{
    let before = laid_out(index_columns(), "\n            "@, "\n        "@, indexes_from());
    let after = indexes_order();
    let outer = laid_out(filtered_index_columns(), " "@, "\n             "@, " ("@);
    let between = ")\n             WHERE "@;
    indexes_are_filled_in(name.shown(), stmt.filter, before, after, outer, between);
    indexes_are_filled_in(other_name.shown(), other.filter, before, after, outer, between);
}

proof fn indexes_are_filled_in(
    name: Seq<char>,
    filter: Option<ShowStatementFilter>,
    before: Seq<char>,
    after: Seq<char>,
    outer: Seq<char>,
    between: Seq<char>,
)
    requires
        before == laid_out(index_columns(), "\n            "@, "\n        "@, indexes_from()),
        after == indexes_order(),
        outer == laid_out(filtered_index_columns(), " "@, "\n             "@, " ("@),
        between == ")\n             WHERE "@,
    ensures
        indexes_query(name, filter) == filtered_text(
            indexes_text(before, name, after),
            outer,
            between,
            filter,
        ),
{
    let all = indexes_text(before, name, after);
    assert(indexes_query(name, None) =~= all);
    assert(indexes_query(name, filter) =~= filtered_text(all, outer, between, filter));
}

/// Whether an item of this type has rows.
pub open spec fn is_relation(item_type: CatalogItemType) -> bool {
    ||| item_type == CatalogItemType::View
    ||| item_type == CatalogItemType::Source
    ||| item_type == CatalogItemType::Table
}

/// The indexes on an item that is not found, or that is a sink or an index, are
/// not shown: that is the error. `EXTENDED` is not supported.
pub proof fn missing_indexes_are_not_shown(
    catalog: CatalogModel,
    pcx: PlanContext,
    types: Map<usize, ScalarType>,
    stmt: ShowIndexesStatement,
    replies: Replies,
)
    ensures
        if stmt.extended {
            show_indexes(catalog, pcx, types, stmt, replies) matches StepView::Done(Err(e))
                && e.kind == ErrorKind::Unsupported
        } else {
            match item_of(catalog, stmt.table_name) {
                Err(e) => show_indexes(catalog, pcx, types, stmt, replies) == StepView::<
                    PlanView,
                >::Done(Err(e)),
                Ok(name) => !is_relation(catalog.items[name].item_type) ==> (show_indexes(
                    catalog,
                    pcx,
                    types,
                    stmt,
                    replies,
                ) matches StepView::Done(Err(e)) && e.kind == ErrorKind::Invalid),
            }
        },
{
}

// Stored statements.

/// The name and the type that a statement asks a stored statement by.
pub open spec fn shown_item(stmt: Statement) -> Option<(ObjectName, CatalogItemType)> {
    match stmt {
        Statement::ShowCreateView(stmt) => Some((stmt.view_name, CatalogItemType::View)),
        Statement::ShowCreateSource(stmt) => Some((stmt.source_name, CatalogItemType::Source)),
        Statement::ShowCreateTable(stmt) => Some((stmt.table_name, CatalogItemType::Table)),
        Statement::ShowCreateSink(stmt) => Some((stmt.sink_name, CatalogItemType::Sink)),
        Statement::ShowCreateIndex(stmt) => Some((stmt.index_name, CatalogItemType::Index)),
        _ => None,
    }
}

/// The full name of an item, and the statement that created it, are shown where
/// the item is found and is of the type that is asked for, and of no other.
pub proof fn stored_statements_are_shown(
    catalog: CatalogModel,
    pcx: PlanContext,
    stmt: Statement,
    params: ParamsView,
    replies: Replies,
)
    requires
        shown_item(stmt) is Some,
    ensures
        ({
            let (asked, item_type) = shown_item(stmt)->0;
            match item_of(catalog, asked) {
                Err(e) => plan_of(catalog, pcx, stmt, params, replies) == StepView::<
                    PlanView,
                >::Done(Err(e)),
                Ok(name) => if catalog.items[name].item_type == item_type {
                    &&& plan_of(catalog, pcx, stmt, params, replies) matches StepView::Done(
                        Ok(PlanView::SendRows(rows)),
                    )
                    &&& rows.len() == 1
                    &&& rows[0].len() == 2
                    &&& rows[0][0] == name.shown()
                    &&& rows[0][1] == catalog.items[name].create_sql@
                } else {
                    plan_of(catalog, pcx, stmt, params, replies) matches StepView::Done(Err(e))
                        && e.kind == ErrorKind::Invalid
                },
            }
        }),
{
}

} // verus!
