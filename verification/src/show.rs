//! Planning of `SHOW`: statements that show what the catalog holds are queries on it.
use vstd::pervasive::unreached;
use vstd::prelude::*;
use vstd::string::*;

use crate::ast::{
    ObjectType, ShowColumnsStatement, ShowCreateIndexStatement, ShowCreateSinkStatement,
    ShowCreateSourceStatement, ShowCreateTableStatement, ShowCreateViewStatement,
    ShowDatabasesStatement, ShowIndexesStatement, ShowObjectsStatement, ShowStatementFilter,
};
use crate::catalog::{item_type_text, Catalog, CatalogItemType, CatalogModel, PlanContext};
use crate::context::{
    database_of, default_database, default_schema, item_of, schema_of, StatementContext,
};
use crate::engine::{failed, Replies, Step, StepView};
use crate::error::{invalid, unsupported, viewed, ErrorView, PlanError};
use crate::index::can_be_indexed;
use crate::names::{database_text, ObjectName, SchemaSpecifier, SchemaView};
use crate::plan::{rows_view, Plan, PlanView, Row};
use crate::query::{generated_select, handle_generated_select};
use crate::relation::ScalarType;
use crate::text::{i64_text, join, joined, literal, quote_literal, signed_decimal, texts};

verus! {

// Parts of queries.

/// Whether a text is made of spaces and line breaks alone.
pub open spec fn is_blank(text: Seq<char>) -> bool {
    forall|i: int| 0 <= i < text.len() ==> #[trigger] text[i] == ' ' || text[i] == '\n'
}

/// A query of these columns, with a gap before each of them, and with what
/// comes after the keyword `FROM`.
pub open spec fn laid_out(
    columns: Seq<Seq<char>>,
    gap: Seq<char>,
    after: Seq<char>,
    from: Seq<char>,
) -> Seq<char> {
    "SELECT"@ + gap + joined(columns, ","@ + gap) + after + "FROM"@ + from
}

fn lay_out(columns: &Vec<String>, gap: &str, after: &str, from: String) -> (sql: String)
    ensures
        sql@ == laid_out(texts(columns@), gap@, after@, from@),
{
    let separator = ",".to_owned().concat(gap);
    "SELECT".to_owned().concat(gap).concat(join(columns, separator.as_str()).as_str()).concat(
        after,
    ).concat("FROM").concat(from.as_str())
}

/// Whether a query selects just these columns.
pub open spec fn selects(sql: Seq<char>, columns: Seq<Seq<char>>) -> bool {
    exists|gap: Seq<char>, after: Seq<char>, from: Seq<char>|
        is_blank(gap) && is_blank(after) && sql == #[trigger] laid_out(columns, gap, after, from)
}

/// The columns that are selected to show objects: their names; with `full` also
/// their types, and for views and sources, unless only materialized ones are
/// shown, whether they are materialized.
pub open spec fn shown_columns(object_type: ObjectType, materialized: bool, full: bool) -> Seq<
    Seq<char>,
> {
    let name = match object_type {
        ObjectType::Schema => "schema"@,
        ObjectType::Table => "tables"@,
        ObjectType::Source => "sources"@,
        ObjectType::View => "views"@,
        ObjectType::Sink => "sinks"@,
        ObjectType::Index => "indexes"@,
    };
    if !full {
        seq![name]
    } else if !materialized && object_type == ObjectType::View {
        seq![name, "type"@, "count > 0 as materialized"@]
    } else if !materialized && object_type == ObjectType::Source {
        seq![name, "type"@, "CASE WHEN count > 0 then true ELSE false END materialized"@]
    } else {
        seq![name, "type"@]
    }
}

fn make_shown_columns(object_type: ObjectType, materialized: bool, full: bool) -> (columns: Vec<
    String,
>)
    ensures
        texts(columns@) == shown_columns(object_type, materialized, full),
{
    let name = match object_type {
        ObjectType::Schema => "schema",
        ObjectType::Table => "tables",
        ObjectType::Source => "sources",
        ObjectType::View => "views",
        ObjectType::Sink => "sinks",
        ObjectType::Index => "indexes",
    };
    let mut columns: Vec<String> = Vec::new();
    columns.push(name.to_owned());
    if full {
        columns.push("type".to_owned());
        if !materialized && object_type == ObjectType::View {
            columns.push("count > 0 as materialized".to_owned());
        } else if !materialized && object_type == ObjectType::Source {
            columns.push(
                "CASE WHEN count > 0 then true ELSE false END materialized".to_owned(),
            );
        }
    }
    assert(texts(columns@) =~= shown_columns(object_type, materialized, full));
    columns
}

/// The condition that a filter stands for: on this column, where it is by a pattern.
pub open spec fn filter_condition(
    filter: Option<ShowStatementFilter>,
    column: Seq<char>,
) -> Option<Seq<char>> {
    match filter {
        Some(ShowStatementFilter::Like(pattern)) => Some(column + " LIKE "@ + literal(pattern@)),
        Some(ShowStatementFilter::Where(expr)) => Some(expr.sql@),
        None => None,
    }
}

/// What a further condition adds to a query.
pub open spec fn and_clause(condition: Option<Seq<char>>) -> Seq<char> {
    match condition {
        Some(condition) => "AND "@ + condition,
        None => ""@,
    }
}

/// What a filter adds to a query.
pub open spec fn filter_clause(filter: Option<ShowStatementFilter>, column: Seq<char>) -> Seq<char> {
    and_clause(filter_condition(filter, column))
}

fn make_filter_clause(filter: &Option<ShowStatementFilter>, column: &str) -> (text: String)
    ensures
        text@ == filter_clause(*filter, column@),
{
    match filter {
        Some(ShowStatementFilter::Like(pattern)) => "AND ".to_owned().concat(
            column.to_owned().concat(" LIKE ").concat(
                quote_literal(pattern.as_str()).as_str(),
            ).as_str(),
        ),
        Some(ShowStatementFilter::Where(expr)) => "AND ".to_owned().concat(expr.sql.as_str()),
        None => "".to_owned(),
    }
}

/// A condition on rows, as far as it is taken apart here.
#[verifier::ext_equal]
pub enum Condition {
    /// A text that is true or false of a row.
    Atom(Seq<char>),
    /// A condition together with one that a filter adds, if any.
    Filtered(Box<Condition>, Option<Seq<char>>),
    And(Box<Condition>, Box<Condition>),
    Or(Box<Condition>, Box<Condition>),
}

impl Condition {
    /// How the condition is written. `AND` binds tighter than `OR`, so that
    /// neither side of an `AND` is an `OR`.
    pub open spec fn sql(self) -> Seq<char>
        decreases self,
    {
        match self {
            Condition::Atom(text) => text,
            Condition::Filtered(condition, filter) => condition.sql() + " "@ + and_clause(filter),
            Condition::And(a, b) => a.sql() + " AND "@ + b.sql(),
            Condition::Or(a, b) => a.sql() + " OR "@ + b.sql(),
        }
    }

    /// Whether the condition holds of a row of which these texts are true.
    pub open spec fn holds(self, truth: spec_fn(Seq<char>) -> bool) -> bool
        decreases self,
    {
        match self {
            Condition::Atom(text) => truth(text),
            Condition::Filtered(condition, filter) => condition.holds(truth) && (
            filter matches Some(text) ==> truth(text)),
            Condition::And(a, b) => a.holds(truth) && b.holds(truth),
            Condition::Or(a, b) => a.holds(truth) || b.holds(truth),
        }
    }
}

/// The schema whose contents are shown.
pub open spec fn shown_schema(catalog: CatalogModel, from: Option<ObjectName>) -> Result<
    SchemaView,
    ErrorView,
> {
    match from {
        Some(name) => match schema_of(catalog, name) {
            Ok(found) => Ok(found.1),
            Err(e) => Err(e),
        },
        None => default_schema(catalog),
    }
}

/// Whether a schema that is given has a name.
pub open spec fn from_is_named(from: Option<ObjectName>) -> bool {
    from matches Some(name) ==> name.0@.len() > 0
}

fn find_shown_schema<C: Catalog>(scx: &StatementContext<C>, from: &Option<ObjectName>) -> (r: Result<
    SchemaSpecifier,
    PlanError,
>)
    requires
        from_is_named(*from),
    ensures
        viewed(r) == shown_schema(scx.catalog.model(), *from),
{
    match from {
        Some(name) => match scx.resolve_schema(name.clone()) {
            Ok(found) => Ok(found.1),
            Err(e) => Err(e),
        },
        None => scx.resolve_default_schema(),
    }
}

// Databases and schemas.

/// The columns that are selected to show databases.
pub open spec fn database_columns() -> Seq<Seq<char>> {
    seq!["database"@]
}

fn make_database_columns() -> (columns: Vec<String>)
    ensures
        texts(columns@) == database_columns(),
{
    let mut columns: Vec<String> = Vec::new();
    columns.push("database".to_owned());
    assert(texts(columns@) =~= database_columns());
    columns
}

/// Where databases are found, with the condition on them.
pub open spec fn databases_from() -> Seq<char> {
    " mz_catalog.mz_databases
             WHERE mz_catalog.mz_databases.id != -1 "@
}

/// The query for the databases.
pub open spec fn databases_query(filter: Seq<char>) -> Seq<char> {
    laid_out(
            database_columns(),
            " "@,
            "\n             "@,
            databases_from() + filter,
        )
}

fn make_databases_query(filter: &str) -> (sql: String)
    ensures
        sql@ == databases_query(filter@),
{
    lay_out(
            &make_database_columns(),
            " ",
            "\n             ",
            " mz_catalog.mz_databases
             WHERE mz_catalog.mz_databases.id != -1 ".to_owned().concat(filter),
        )
}

/// The plan for `SHOW DATABASES`.
pub open spec fn show_databases(
    pcx: PlanContext,
    param_types: Map<usize, ScalarType>,
    stmt: ShowDatabasesStatement,
    replies: Replies,
) -> StepView<PlanView> {
    generated_select(
        pcx,
        param_types,
        databases_query(filter_clause(stmt.filter, "database"@)),
        replies,
    )
}

/// Plans `SHOW DATABASES`.
pub fn handle_show_databases<C: Catalog>(
    scx: &StatementContext<C>,
    stmt: &ShowDatabasesStatement,
    replies: &Replies,
) -> (step: Step<Plan>)
    ensures
        step@ == show_databases(*scx.pcx, scx.param_types@, *stmt, *replies),
{
    let filter = make_filter_clause(&stmt.filter, "database");
    handle_generated_select(scx, make_databases_query(filter.as_str()), replies)
}

/// That a schema is one of a database.
pub open spec fn of_database(database: Seq<char>) -> Seq<char> {
    "mz_catalog.mz_databases.database = '"@ + database + "'"@
}

/// That a schema is one of the ambient database, whose number is -1.
pub open spec fn of_ambient_database() -> Seq<char> {
    "mz_catalog.mz_databases.id = -1"@
}

/// Which schemas are shown: those of a database, and with `extended` those of
/// the ambient database too.
pub open spec fn schemas_condition(
    extended: bool,
    database: Seq<char>,
    filter: Option<ShowStatementFilter>,
) -> Condition {
    let filter = filter_condition(filter, "schema"@);
    let of_database = Condition::Atom(of_database(database));
    if extended {
        let of_ambient = Condition::Atom(of_ambient_database());
        Condition::Or(
            Box::new(of_database),
            Box::new(Condition::Filtered(Box::new(of_ambient), filter)),
        )
    } else {
        Condition::Filtered(Box::new(of_database), filter)
    }
}

fn make_schemas_condition(
    extended: bool,
    database: &str,
    filter: &Option<ShowStatementFilter>,
) -> (text: String)
    ensures
        text@ == schemas_condition(extended, database@, *filter).sql(),
{
    proof {
        reveal_with_fuel(Condition::sql, 3);
    }
    let filter = make_filter_clause(filter, "schema");
    let of_database = "mz_catalog.mz_databases.database = '".to_owned().concat(database).concat(
        "'",
    );
    if extended {
        of_database.concat(" OR ").concat(
            "mz_catalog.mz_databases.id = -1".to_owned().concat(" ").concat(
                filter.as_str(),
            ).as_str(),
        )
    } else {
        of_database.concat(" ").concat(filter.as_str())
    }
}

/// Where schemas are found, up to the condition on them.
pub open spec fn schemas_from() -> Seq<char> {
    " mz_catalog.mz_schemas
            JOIN mz_catalog.mz_databases ON mz_catalog.mz_schemas.database_id = mz_catalog.mz_databases.id
            WHERE "@
}

/// The query for the schemas of a database.
pub open spec fn schemas_query(
    extended: bool,
    full: bool,
    database: Seq<char>,
    filter: Option<ShowStatementFilter>,
) -> Seq<char> {
    laid_out(
        shown_columns(ObjectType::Schema, false, full),
        " "@,
        "\n            "@,
        schemas_from() + schemas_condition(extended, database, filter).sql(),
    )
}

fn make_schemas_query(
    extended: bool,
    full: bool,
    database: &str,
    filter: &Option<ShowStatementFilter>,
) -> (sql: String)
    ensures
        sql@ == schemas_query(extended, full, database@, *filter),
{
    let condition = make_schemas_condition(extended, database, filter);
    lay_out(
        &make_shown_columns(ObjectType::Schema, false, full),
        " ",
        "\n            ",
        " mz_catalog.mz_schemas
            JOIN mz_catalog.mz_databases ON mz_catalog.mz_schemas.database_id = mz_catalog.mz_databases.id
            WHERE ".to_owned().concat(condition.as_str()),
    )
}

/// The database whose schemas are shown.
pub open spec fn shown_database(catalog: CatalogModel, from: Option<ObjectName>) -> Result<
    Seq<char>,
    ErrorView,
> {
    match from {
        Some(name) => database_of(catalog, name),
        None => match default_database(catalog) {
            Ok(database) => Ok(database_text(database)),
            Err(e) => Err(e),
        },
    }
}

/// The plan for `SHOW SCHEMAS`.
pub open spec fn show_schemas(
    catalog: CatalogModel,
    pcx: PlanContext,
    param_types: Map<usize, ScalarType>,
    extended: bool,
    full: bool,
    from: Option<ObjectName>,
    filter: Option<ShowStatementFilter>,
    replies: Replies,
) -> StepView<PlanView> {
    match shown_database(catalog, from) {
        Err(e) => failed(e),
        Ok(database) => generated_select(
            pcx,
            param_types,
            schemas_query(extended, full, database, filter),
            replies,
        ),
    }
}

/// Plans `SHOW SCHEMAS`.
pub fn handle_show_schemas<C: Catalog>(
    scx: &StatementContext<C>,
    extended: bool,
    full: bool,
    from: &Option<ObjectName>,
    filter: &Option<ShowStatementFilter>,
    replies: &Replies,
) -> (step: Step<Plan>)
    ensures
        step@ == show_schemas(
            scx.catalog.model(),
            *scx.pcx,
            scx.param_types@,
            extended,
            full,
            *from,
            *filter,
            *replies,
        ),
{
    let resolved = match from {
        Some(name) => scx.resolve_database(name.clone()),
        None => match scx.resolve_default_database() {
            Ok(database) => Ok(database.to_text()),
            Err(e) => Err(e),
        },
    };
    let database = match resolved {
        Ok(database) => database,
        Err(e) => {
            return Step::Done(Err(e));
        },
    };
    let query = make_schemas_query(extended, full, database.as_str(), filter);
    handle_generated_select(scx, query, replies)
}

// Contents of schemas.

/// Where sinks are found, up to the condition on them.
pub open spec fn sinks_from(full: bool) -> Seq<char> {
    if full {
        " mz_catalog.mz_sinks
            JOIN mz_catalog.mz_schemas ON mz_catalog.mz_sinks.schema_id = mz_catalog.mz_schemas.schema_id
            WHERE "@
    } else {
        " mz_catalog.mz_sinks WHERE "@
    }
}

/// The order of sinks: by their names, and in full also by their types.
pub open spec fn sinks_order(full: bool) -> Seq<char> {
    if full {
        "
            ORDER BY sinks, type"@
    } else {
        " ORDER BY sinks"@
    }
}

/// The query for the sinks of a schema.
pub open spec fn sinks_query(full: bool, id: i64, filter: Seq<char>) -> Seq<char> {
    laid_out(
        shown_columns(ObjectType::Sink, false, full),
        " "@,
        if full {
            "\n            "@
        } else {
            " "@
        },
        sinks_from(full) + "schema_id = "@ + signed_decimal(id as int) + " "@ + filter
            + sinks_order(full),
    )
}

fn make_sinks_query(full: bool, id: i64, filter: &str) -> (sql: String)
    ensures
        sql@ == sinks_query(full, id, filter@),
{
    if full {
        lay_out(
            &make_shown_columns(ObjectType::Sink, false, full),
            " ",
            "\n            ",
            " mz_catalog.mz_sinks
            JOIN mz_catalog.mz_schemas ON mz_catalog.mz_sinks.schema_id = mz_catalog.mz_schemas.schema_id
            WHERE ".to_owned().concat("schema_id = ").concat(i64_text(id).as_str()).concat(" ").concat(filter).concat("
            ORDER BY sinks, type"),
        )
    } else {
        lay_out(
            &make_shown_columns(ObjectType::Sink, false, full),
            " ",
            " ",
            " mz_catalog.mz_sinks WHERE ".to_owned().concat("schema_id = ").concat(i64_text(id).as_str()).concat(" ").concat(filter).concat(" ORDER BY sinks"),
        )
    }
}

/// The plan for `SHOW SINKS`.
pub open spec fn show_sinks(
    catalog: CatalogModel,
    pcx: PlanContext,
    param_types: Map<usize, ScalarType>,
    full: bool,
    from: Option<ObjectName>,
    filter: Option<ShowStatementFilter>,
    replies: Replies,
) -> StepView<PlanView> {
    match shown_schema(catalog, from) {
        Err(e) => failed(e),
        Ok(schema) => generated_select(
            pcx,
            param_types,
            sinks_query(full, schema.id, filter_clause(filter, "sinks"@)),
            replies,
        ),
    }
}

/// Plans `SHOW SINKS`.
pub fn handle_show_sinks<C: Catalog>(
    scx: &StatementContext<C>,
    full: bool,
    from: &Option<ObjectName>,
    filter: &Option<ShowStatementFilter>,
    replies: &Replies,
) -> (step: Step<Plan>)
    requires
        from_is_named(*from),
    ensures
        step@ == show_sinks(
            scx.catalog.model(),
            *scx.pcx,
            scx.param_types@,
            full,
            *from,
            *filter,
            *replies,
        ),
{
    let schema = match find_shown_schema(scx, from) {
        Ok(schema) => schema,
        Err(e) => {
            return Step::Done(Err(e));
        },
    };
    let filter = make_filter_clause(filter, "sinks");
    handle_generated_select(
        scx,
        make_sinks_query(full, schema.id, filter.as_str()),
        replies,
    )
}

/// Where views are found, up to the condition on them. Their indexes are counted
/// where the count is of use.
pub open spec fn views_from(full: bool, materialized: bool) -> Seq<char> {
    if !full && !materialized {
        " mz_catalog.mz_views
             WHERE mz_catalog.mz_views."@
    } else if full && !materialized {
        " mz_catalog.mz_views as mz_views
             JOIN mz_catalog.mz_schemas ON mz_catalog.mz_views.schema_id = mz_catalog.mz_schemas.schema_id
             JOIN (SELECT mz_views.global_id as global_id, count(mz_indexes.on_global_id) AS count
                   FROM mz_views
                   LEFT JOIN mz_indexes on mz_views.global_id = mz_indexes.on_global_id
                   GROUP BY mz_views.global_id) as mz_indexes_count
                ON mz_views.global_id = mz_indexes_count.global_id
             WHERE mz_catalog.mz_views."@
    } else if !full && materialized {
        " mz_catalog.mz_views
             JOIN (SELECT mz_views.global_id as global_id, count(mz_indexes.on_global_id) AS count
                   FROM mz_views
                   LEFT JOIN mz_indexes on mz_views.global_id = mz_indexes.on_global_id
                   GROUP BY mz_views.global_id) as mz_indexes_count
                ON mz_views.global_id = mz_indexes_count.global_id
             WHERE mz_catalog.mz_views."@
    } else {
        " mz_catalog.mz_views
             JOIN mz_catalog.mz_schemas ON mz_catalog.mz_views.schema_id = mz_catalog.mz_schemas.schema_id
             JOIN (SELECT mz_views.global_id as global_id, count(mz_indexes.on_global_id) AS count
                   FROM mz_views
                   LEFT JOIN mz_indexes on mz_views.global_id = mz_indexes.on_global_id
                   GROUP BY mz_views.global_id) as mz_indexes_count
                ON mz_views.global_id = mz_indexes_count.global_id
             WHERE mz_catalog.mz_views."@
    }
}

/// What follows the condition on the schema of views: with `MATERIALIZED`, that
/// they have an index.
pub open spec fn views_indexed(materialized: bool) -> Seq<char> {
    if materialized {
        "
                AND mz_indexes_count.count > 0 "@
    } else {
        " "@
    }
}

/// The order of views: by their names.
pub open spec fn views_order() -> Seq<char> {
    "
             ORDER BY views ASC"@
}

/// The query for the views of a schema.
pub open spec fn views_query(full: bool, materialized: bool, id: i64, filter: Seq<char>) -> Seq<char> {
    laid_out(
        shown_columns(ObjectType::View, materialized, full),
        if full && !materialized {
            "\n                "@
        } else {
            " "@
        },
        "\n             "@,
        views_from(full, materialized) + "schema_id = "@ + signed_decimal(id as int)
            + views_indexed(materialized) + filter + views_order(),
    )
}

fn make_views_query(full: bool, materialized: bool, id: i64, filter: &str) -> (sql: String)
    ensures
        sql@ == views_query(full, materialized, id, filter@),
{
    if !full && !materialized {
        lay_out(
            &make_shown_columns(ObjectType::View, materialized, full),
            " ",
            "\n             ",
            " mz_catalog.mz_views
             WHERE mz_catalog.mz_views.".to_owned().concat("schema_id = ").concat(i64_text(id).as_str()).concat(" ").concat(filter).concat("
             ORDER BY views ASC"),
        )
    } else if full && !materialized {
        lay_out(
            &make_shown_columns(ObjectType::View, materialized, full),
            "\n                ",
            "\n             ",
            " mz_catalog.mz_views as mz_views
             JOIN mz_catalog.mz_schemas ON mz_catalog.mz_views.schema_id = mz_catalog.mz_schemas.schema_id
             JOIN (SELECT mz_views.global_id as global_id, count(mz_indexes.on_global_id) AS count
                   FROM mz_views
                   LEFT JOIN mz_indexes on mz_views.global_id = mz_indexes.on_global_id
                   GROUP BY mz_views.global_id) as mz_indexes_count
                ON mz_views.global_id = mz_indexes_count.global_id
             WHERE mz_catalog.mz_views.".to_owned().concat("schema_id = ").concat(i64_text(id).as_str()).concat(" ").concat(filter).concat("
             ORDER BY views ASC"),
        )
    } else if !full && materialized {
        lay_out(
            &make_shown_columns(ObjectType::View, materialized, full),
            " ",
            "\n             ",
            " mz_catalog.mz_views
             JOIN (SELECT mz_views.global_id as global_id, count(mz_indexes.on_global_id) AS count
                   FROM mz_views
                   LEFT JOIN mz_indexes on mz_views.global_id = mz_indexes.on_global_id
                   GROUP BY mz_views.global_id) as mz_indexes_count
                ON mz_views.global_id = mz_indexes_count.global_id
             WHERE mz_catalog.mz_views.".to_owned().concat("schema_id = ").concat(i64_text(id).as_str()).concat("
                AND mz_indexes_count.count > 0 ").concat(filter).concat("
             ORDER BY views ASC"),
        )
    } else {
        lay_out(
            &make_shown_columns(ObjectType::View, materialized, full),
            " ",
            "\n             ",
            " mz_catalog.mz_views
             JOIN mz_catalog.mz_schemas ON mz_catalog.mz_views.schema_id = mz_catalog.mz_schemas.schema_id
             JOIN (SELECT mz_views.global_id as global_id, count(mz_indexes.on_global_id) AS count
                   FROM mz_views
                   LEFT JOIN mz_indexes on mz_views.global_id = mz_indexes.on_global_id
                   GROUP BY mz_views.global_id) as mz_indexes_count
                ON mz_views.global_id = mz_indexes_count.global_id
             WHERE mz_catalog.mz_views.".to_owned().concat("schema_id = ").concat(i64_text(id).as_str()).concat("
                AND mz_indexes_count.count > 0 ").concat(filter).concat("
             ORDER BY views ASC"),
        )
    }
}

/// The plan for `SHOW VIEWS`.
pub open spec fn show_views(
    catalog: CatalogModel,
    pcx: PlanContext,
    param_types: Map<usize, ScalarType>,
    full: bool,
    materialized: bool,
    from: Option<ObjectName>,
    filter: Option<ShowStatementFilter>,
    replies: Replies,
) -> StepView<PlanView> {
    match shown_schema(catalog, from) {
        Err(e) => failed(e),
        Ok(schema) => generated_select(
            pcx,
            param_types,
            views_query(full, materialized, schema.id, filter_clause(filter, "views"@)),
            replies,
        ),
    }
}

/// Plans `SHOW VIEWS`.
pub fn handle_show_views<C: Catalog>(
    scx: &StatementContext<C>,
    full: bool,
    materialized: bool,
    from: &Option<ObjectName>,
    filter: &Option<ShowStatementFilter>,
    replies: &Replies,
) -> (step: Step<Plan>)
    requires
        from_is_named(*from),
    ensures
        step@ == show_views(
            scx.catalog.model(),
            *scx.pcx,
            scx.param_types@,
            full,
            materialized,
            *from,
            *filter,
            *replies,
        ),
{
    let schema = match find_shown_schema(scx, from) {
        Ok(schema) => schema,
        Err(e) => {
            return Step::Done(Err(e));
        },
    };
    let filter = make_filter_clause(filter, "views");
    handle_generated_select(
        scx,
        make_views_query(full, materialized, schema.id, filter.as_str()),
        replies,
    )
}

/// That an item is in a schema.
pub open spec fn in_schema(id: i64) -> Seq<char> {
    "schema_id = "@ + signed_decimal(id as int)
}

/// That a source has an index.
pub open spec fn is_indexed() -> Seq<char> {
    "mz_indexes_count.count > 0"@
}

/// Which sources are shown: those of a schema, and with `materialized` only
/// those that have an index.
pub open spec fn sources_condition(
    materialized: bool,
    id: i64,
    filter: Option<ShowStatementFilter>,
) -> Condition {
    let listed = Condition::Filtered(
        Box::new(Condition::Atom(in_schema(id))),
        filter_condition(filter, "sources"@),
    );
    if materialized {
        Condition::And(Box::new(listed), Box::new(Condition::Atom(is_indexed())))
    } else {
        listed
    }
}

fn make_sources_condition(materialized: bool, id: i64, filter: &Option<ShowStatementFilter>) -> (
text: String)
    ensures
        text@ == sources_condition(materialized, id, *filter).sql(),
{
    proof {
        reveal_with_fuel(Condition::sql, 3);
    }
    let filter = make_filter_clause(filter, "sources");
    let listed = "schema_id = ".to_owned().concat(i64_text(id).as_str()).concat(" ").concat(
        filter.as_str(),
    );
    if materialized {
        listed.concat(" AND ").concat("mz_indexes_count.count > 0")
    } else {
        listed
    }
}

/// Where sources are found, up to the condition on them. Their indexes are
/// counted where the count is of use.
pub open spec fn sources_from(counted: bool) -> Seq<char> {
    if counted {
        " mz_catalog.mz_sources
            JOIN mz_catalog.mz_schemas ON mz_catalog.mz_sources.schema_id = mz_catalog.mz_schemas.schema_id
            JOIN (SELECT mz_catalog.mz_sources.global_id as global_id, count(mz_catalog.mz_indexes.on_global_id) AS count
                  FROM mz_catalog.mz_sources
                  LEFT JOIN mz_catalog.mz_indexes on mz_catalog.mz_sources.global_id = mz_catalog.mz_indexes.on_global_id
                  GROUP BY mz_catalog.mz_sources.global_id) as mz_indexes_count
                ON mz_catalog.mz_sources.global_id = mz_indexes_count.global_id
            WHERE "@
    } else {
        " mz_catalog.mz_sources WHERE "@
    }
}

/// The order that sources are shown in: by their names first.
pub open spec fn sources_order(counted: bool) -> Seq<char> {
    if counted {
        "\n            "@ + "ORDER BY sources"@ + ", type"@
    } else {
        " "@ + "ORDER BY sources"@
    }
}

/// The query for the sources of a schema.
pub open spec fn sources_query(
    full: bool,
    materialized: bool,
    id: i64,
    filter: Option<ShowStatementFilter>,
) -> Seq<char> {
    let counted = full || materialized;
    laid_out(
        shown_columns(ObjectType::Source, materialized, full),
        " "@,
        if counted {
            "\n            "@
        } else {
            " "@
        },
        sources_from(counted) + sources_condition(materialized, id, filter).sql() + sources_order(
            counted,
        ),
    )
}

fn make_sources_query(
    full: bool,
    materialized: bool,
    id: i64,
    filter: &Option<ShowStatementFilter>,
) -> (sql: String)
    ensures
        sql@ == sources_query(full, materialized, id, *filter),
{
    let columns = make_shown_columns(ObjectType::Source, materialized, full);
    let condition = make_sources_condition(materialized, id, filter);
    if full || materialized {
        let order = "\n            ".to_owned().concat("ORDER BY sources").concat(", type");
        let from =
            " mz_catalog.mz_sources
            JOIN mz_catalog.mz_schemas ON mz_catalog.mz_sources.schema_id = mz_catalog.mz_schemas.schema_id
            JOIN (SELECT mz_catalog.mz_sources.global_id as global_id, count(mz_catalog.mz_indexes.on_global_id) AS count
                  FROM mz_catalog.mz_sources
                  LEFT JOIN mz_catalog.mz_indexes on mz_catalog.mz_sources.global_id = mz_catalog.mz_indexes.on_global_id
                  GROUP BY mz_catalog.mz_sources.global_id) as mz_indexes_count
                ON mz_catalog.mz_sources.global_id = mz_indexes_count.global_id
            WHERE ".to_owned();
        lay_out(
            &columns,
            " ",
            "\n            ",
            from.concat(condition.as_str()).concat(order.as_str()),
        )
    } else {
        let order = " ".to_owned().concat("ORDER BY sources");
        let from = " mz_catalog.mz_sources WHERE ".to_owned();
        lay_out(&columns, " ", " ", from.concat(condition.as_str()).concat(order.as_str()))
    }
}

/// The plan for `SHOW SOURCES`.
pub open spec fn show_sources(
    catalog: CatalogModel,
    pcx: PlanContext,
    param_types: Map<usize, ScalarType>,
    full: bool,
    materialized: bool,
    from: Option<ObjectName>,
    filter: Option<ShowStatementFilter>,
    replies: Replies,
) -> StepView<PlanView> {
    match shown_schema(catalog, from) {
        Err(e) => failed(e),
        Ok(schema) => generated_select(
            pcx,
            param_types,
            sources_query(full, materialized, schema.id, filter),
            replies,
        ),
    }
}

/// Plans `SHOW SOURCES`.
pub fn handle_show_sources<C: Catalog>(
    scx: &StatementContext<C>,
    full: bool,
    materialized: bool,
    from: &Option<ObjectName>,
    filter: &Option<ShowStatementFilter>,
    replies: &Replies,
) -> (step: Step<Plan>)
    requires
        from_is_named(*from),
    ensures
        step@ == show_sources(
            scx.catalog.model(),
            *scx.pcx,
            scx.param_types@,
            full,
            materialized,
            *from,
            *filter,
            *replies,
        ),
{
    let schema = match find_shown_schema(scx, from) {
        Ok(schema) => schema,
        Err(e) => {
            return Step::Done(Err(e));
        },
    };
    handle_generated_select(
        scx,
        make_sources_query(full, materialized, schema.id, filter),
        replies,
    )
}

/// Where tables are found, up to the condition on them.
pub open spec fn tables_from(full: bool) -> Seq<char> {
    if full {
        " mz_catalog.mz_tables
            JOIN mz_catalog.mz_schemas ON mz_catalog.mz_tables.schema_id = mz_catalog.mz_schemas.schema_id
            WHERE "@
    } else {
        " mz_catalog.mz_tables WHERE "@
    }
}

/// The order of tables: by their names, and in full also by their types.
pub open spec fn tables_order(full: bool) -> Seq<char> {
    if full {
        "
            ORDER BY tables, type"@
    } else {
        " ORDER BY tables"@
    }
}

/// The query for the tables of a schema.
pub open spec fn tables_query(full: bool, id: i64, filter: Seq<char>) -> Seq<char> {
    laid_out(
        shown_columns(ObjectType::Table, false, full),
        " "@,
        if full {
            "\n            "@
        } else {
            " "@
        },
        tables_from(full) + "schema_id = "@ + signed_decimal(id as int) + " "@ + filter
            + tables_order(full),
    )
}

fn make_tables_query(full: bool, id: i64, filter: &str) -> (sql: String)
    ensures
        sql@ == tables_query(full, id, filter@),
{
    if full {
        lay_out(
            &make_shown_columns(ObjectType::Table, false, full),
            " ",
            "\n            ",
            " mz_catalog.mz_tables
            JOIN mz_catalog.mz_schemas ON mz_catalog.mz_tables.schema_id = mz_catalog.mz_schemas.schema_id
            WHERE ".to_owned().concat("schema_id = ").concat(i64_text(id).as_str()).concat(" ").concat(filter).concat("
            ORDER BY tables, type"),
        )
    } else {
        lay_out(
            &make_shown_columns(ObjectType::Table, false, full),
            " ",
            " ",
            " mz_catalog.mz_tables WHERE ".to_owned().concat("schema_id = ").concat(i64_text(id).as_str()).concat(" ").concat(filter).concat(" ORDER BY tables"),
        )
    }
}

/// The plan for `SHOW TABLES`.
pub open spec fn show_tables(
    catalog: CatalogModel,
    pcx: PlanContext,
    param_types: Map<usize, ScalarType>,
    extended: bool,
    full: bool,
    from: Option<ObjectName>,
    filter: Option<ShowStatementFilter>,
    replies: Replies,
) -> StepView<PlanView> {
    if extended {
        failed(unsupported("SHOW EXTENDED TABLES"@))
    } else {
        match shown_schema(catalog, from) {
            Err(e) => failed(e),
            Ok(schema) => generated_select(
                pcx,
                param_types,
                tables_query(full, schema.id, filter_clause(filter, "tables"@)),
                replies,
            ),
        }
    }
}

/// Plans `SHOW TABLES`.
pub fn handle_show_tables<C: Catalog>(
    scx: &StatementContext<C>,
    extended: bool,
    full: bool,
    from: &Option<ObjectName>,
    filter: &Option<ShowStatementFilter>,
    replies: &Replies,
) -> (step: Step<Plan>)
    requires
        extended || from_is_named(*from),
    ensures
        step@ == show_tables(
            scx.catalog.model(),
            *scx.pcx,
            scx.param_types@,
            extended,
            full,
            *from,
            *filter,
            *replies,
        ),
{
    if extended {
        return Step::Done(Err(PlanError::unsupported("SHOW EXTENDED TABLES")));
    }
    let schema = match find_shown_schema(scx, from) {
        Ok(schema) => schema,
        Err(e) => {
            return Step::Done(Err(e));
        },
    };
    let filter = make_filter_clause(filter, "tables");
    handle_generated_select(
        scx,
        make_tables_query(full, schema.id, filter.as_str()),
        replies,
    )
}

/// Whether the objects that a statement shows are not indexes, which have a
/// statement of their own, and whether a schema that is looked for has a name.
pub open spec fn can_show(stmt: ShowObjectsStatement) -> bool {
    &&& stmt.object_type != ObjectType::Index
    &&& stmt.object_type == ObjectType::Schema || (stmt.object_type == ObjectType::Table
        && stmt.extended) || from_is_named(stmt.from)
}

/// The plan for `SHOW` of objects.
pub open spec fn show_objects(
    catalog: CatalogModel,
    pcx: PlanContext,
    param_types: Map<usize, ScalarType>,
    stmt: ShowObjectsStatement,
    replies: Replies,
) -> StepView<PlanView> {
    let (from, filter) = (stmt.from, stmt.filter);
    match stmt.object_type {
        ObjectType::Schema => show_schemas(
            catalog,
            pcx,
            param_types,
            stmt.extended,
            stmt.full,
            from,
            filter,
            replies,
        ),
        ObjectType::Table => show_tables(
            catalog,
            pcx,
            param_types,
            stmt.extended,
            stmt.full,
            from,
            filter,
            replies,
        ),
        ObjectType::Source => show_sources(
            catalog,
            pcx,
            param_types,
            stmt.full,
            stmt.materialized,
            from,
            filter,
            replies,
        ),
        ObjectType::View => show_views(
            catalog,
            pcx,
            param_types,
            stmt.full,
            stmt.materialized,
            from,
            filter,
            replies,
        ),
        ObjectType::Sink => show_sinks(
            catalog,
            pcx,
            param_types,
            stmt.full,
            from,
            filter,
            replies,
        ),
        ObjectType::Index => arbitrary(),
    }
}

/// The query that `SHOW` of objects stands for.
pub open spec fn objects_query(catalog: CatalogModel, stmt: ShowObjectsStatement) -> Result<
    Seq<char>,
    ErrorView,
> {
    let (full, materialized, filter) = (stmt.full, stmt.materialized, stmt.filter);
    match stmt.object_type {
        ObjectType::Schema => match shown_database(catalog, stmt.from) {
            Ok(database) => Ok(schemas_query(stmt.extended, full, database, filter)),
            Err(e) => Err(e),
        },
        typ => if typ == ObjectType::Table && stmt.extended {
            Err(unsupported("SHOW EXTENDED TABLES"@))
        } else {
            match shown_schema(catalog, stmt.from) {
                Err(e) => Err(e),
                Ok(schema) => Ok(
                    match typ {
                        ObjectType::Table => tables_query(
                            full,
                            schema.id,
                            filter_clause(filter, "tables"@),
                        ),
                        ObjectType::Source => sources_query(full, materialized, schema.id, filter),
                        ObjectType::View => views_query(
                            full,
                            materialized,
                            schema.id,
                            filter_clause(filter, "views"@),
                        ),
                        _ => sinks_query(full, schema.id, filter_clause(filter, "sinks"@)),
                    },
                ),
            }
        },
    }
}

/// Plans `SHOW` of objects.
pub fn handle_show_objects<C: Catalog>(
    scx: &StatementContext<C>,
    stmt: &ShowObjectsStatement,
    replies: &Replies,
) -> (step: Step<Plan>)
    requires
        can_show(*stmt),
    ensures
        step@ == show_objects(scx.catalog.model(), *scx.pcx, scx.param_types@, *stmt, *replies),
{
    let (from, filter) = (&stmt.from, &stmt.filter);
    match stmt.object_type {
        ObjectType::Schema => handle_show_schemas(
            scx,
            stmt.extended,
            stmt.full,
            from,
            filter,
            replies,
        ),
        ObjectType::Table => handle_show_tables(
            scx,
            stmt.extended,
            stmt.full,
            from,
            filter,
            replies,
        ),
        ObjectType::Source => handle_show_sources(
            scx,
            stmt.full,
            stmt.materialized,
            from,
            filter,
            replies,
        ),
        ObjectType::View => handle_show_views(
            scx,
            stmt.full,
            stmt.materialized,
            from,
            filter,
            replies,
        ),
        ObjectType::Sink => handle_show_sinks(scx, stmt.full, from, filter, replies),
        ObjectType::Index => unreached(),
    }
}

// Indexes and columns.

/// The columns that are selected to show indexes.
pub open spec fn index_columns() -> Seq<Seq<char>> {
    seq!["on_names.name as on_name"@, "index_names.name as key_name"@, "mz_catalog.mz_columns.field as column_name"@, "mz_catalog.mz_indexes.expression as expression"@, "mz_catalog.mz_indexes.nullable as nullable"@, "mz_catalog.mz_indexes.seq_in_index as seq_in_index"@]
}

fn make_index_columns() -> (columns: Vec<String>)
    ensures
        texts(columns@) == index_columns(),
{
    let mut columns: Vec<String> = Vec::new();
    columns.push("on_names.name as on_name".to_owned());
    columns.push("index_names.name as key_name".to_owned());
    columns.push("mz_catalog.mz_columns.field as column_name".to_owned());
    columns.push("mz_catalog.mz_indexes.expression as expression".to_owned());
    columns.push("mz_catalog.mz_indexes.nullable as nullable".to_owned());
    columns.push("mz_catalog.mz_indexes.seq_in_index as seq_in_index".to_owned());
    assert(texts(columns@) =~= index_columns());
    columns
}

/// The same columns, where they are selected from the query for them.
pub open spec fn filtered_index_columns() -> Seq<Seq<char>> {
    seq!["on_name"@, "key_name"@, "column_name"@, "expression"@, "nullable"@, "seq_in_index"@]
}

fn make_filtered_index_columns() -> (columns: Vec<String>)
    ensures
        texts(columns@) == filtered_index_columns(),
{
    let mut columns: Vec<String> = Vec::new();
    columns.push("on_name".to_owned());
    columns.push("key_name".to_owned());
    columns.push("column_name".to_owned());
    columns.push("expression".to_owned());
    columns.push("nullable".to_owned());
    columns.push("seq_in_index".to_owned());
    assert(texts(columns@) =~= filtered_index_columns());
    columns
}

/// Where indexes are found, up to the condition on them.
pub open spec fn indexes_from() -> Seq<char> {
    "
            mz_catalog.mz_indexes
            JOIN mz_catalog.mz_catalog_names AS on_names ON mz_catalog.mz_indexes.on_global_id = on_names.global_id
            JOIN mz_catalog.mz_catalog_names AS index_names ON mz_catalog.mz_indexes.global_id = index_names.global_id
            LEFT OUTER JOIN mz_catalog.mz_columns ON mz_catalog.mz_indexes.on_global_id = mz_catalog.mz_columns.global_id
                AND mz_catalog.mz_indexes.field_number = mz_catalog.mz_columns.field_number
        WHERE
            "@
}

/// The order of indexes: by their names, and by the places of columns in them.
pub open spec fn indexes_order() -> Seq<char> {
    "'
        ORDER BY
            key_name asc,
            seq_in_index asc"@
}

/// The query for the indexes of a relation.
pub open spec fn indexes_query(on: Seq<char>, filter: Option<ShowStatementFilter>) -> Seq<char> {
    let base = laid_out(
            index_columns(),
            "\n            "@,
            "\n        "@,
            indexes_from() + "on_names.name = '"@ + on + indexes_order(),
        );
    match filter {
        None => base,
        Some(filter) => {
            let condition = match filter {
                ShowStatementFilter::Like(pattern) => "key_name LIKE "@ + literal(pattern@),
                ShowStatementFilter::Where(expr) => expr.sql@,
            };
            laid_out(
            filtered_index_columns(),
            " "@,
            "\n             "@,
            " ("@ + base + ")
             WHERE "@ + condition,
        )
        },
    }
}

fn make_indexes_query(on: &str, filter: &Option<ShowStatementFilter>) -> (sql: String)
    ensures
        sql@ == indexes_query(on@, *filter),
{
    let base = lay_out(
            &make_index_columns(),
            "\n            ",
            "\n        ",
            "
            mz_catalog.mz_indexes
            JOIN mz_catalog.mz_catalog_names AS on_names ON mz_catalog.mz_indexes.on_global_id = on_names.global_id
            JOIN mz_catalog.mz_catalog_names AS index_names ON mz_catalog.mz_indexes.global_id = index_names.global_id
            LEFT OUTER JOIN mz_catalog.mz_columns ON mz_catalog.mz_indexes.on_global_id = mz_catalog.mz_columns.global_id
                AND mz_catalog.mz_indexes.field_number = mz_catalog.mz_columns.field_number
        WHERE
            ".to_owned().concat("on_names.name = '").concat(on).concat("'
        ORDER BY
            key_name asc,
            seq_in_index asc"),
        );
    match filter {
        None => base,
        Some(filter) => {
            let condition = match filter {
                ShowStatementFilter::Like(pattern) => "key_name LIKE ".to_owned().concat(
                    quote_literal(pattern.as_str()).as_str(),
                ),
                ShowStatementFilter::Where(expr) => expr.sql.clone(),
            };
            lay_out(
            &make_filtered_index_columns(),
            " ",
            "\n             ",
            " (".to_owned().concat(base.as_str()).concat(")
             WHERE ").concat(condition.as_str()),
        )
        },
    }
}

/// The plan for `SHOW INDEXES`.
pub open spec fn show_indexes(
    catalog: CatalogModel,
    pcx: PlanContext,
    param_types: Map<usize, ScalarType>,
    stmt: ShowIndexesStatement,
    replies: Replies,
) -> StepView<PlanView> {
    if stmt.extended {
        failed(unsupported("SHOW EXTENDED INDEXES"@))
    } else {
        match item_of(catalog, stmt.table_name) {
            Err(e) => failed(e),
            Ok(from) => {
                let entry = catalog.items[from];
                if !can_be_indexed(entry.item_type) {
                    failed(
                        invalid(
                            "cannot show indexes on "@ + from.shown() + " because it is a "@
                                + item_type_text(entry.item_type),
                        ),
                    )
                } else {
                    generated_select(
                        pcx,
                        param_types,
                        indexes_query(from.shown(), stmt.filter),
                        replies,
                    )
                }
            },
        }
    }
}

/// Plans `SHOW INDEXES`.
pub fn handle_show_indexes<C: Catalog>(
    scx: &StatementContext<C>,
    stmt: &ShowIndexesStatement,
    replies: &Replies,
) -> (step: Step<Plan>)
    ensures
        step@ == show_indexes(scx.catalog.model(), *scx.pcx, scx.param_types@, *stmt, *replies),
{
    if stmt.extended {
        return Step::Done(Err(PlanError::unsupported("SHOW EXTENDED INDEXES")));
    }
    let from_name = match scx.resolve_item(stmt.table_name.clone()) {
        Ok(name) => name,
        Err(e) => {
            return Step::Done(Err(e));
        },
    };
    let from_entry = scx.catalog.get_item(&from_name);
    if from_entry.item_type != CatalogItemType::View && from_entry.item_type
        != CatalogItemType::Source && from_entry.item_type != CatalogItemType::Table {
        return Step::Done(
            Err(
                PlanError::invalid(
                    "cannot show indexes on ".to_owned().concat(
                        from_name.to_text().as_str(),
                    ).concat(" because it is a ").concat(from_entry.item_type.to_text()),
                ),
            ),
        );
    }
    let query = make_indexes_query(from_name.to_text().as_str(), &stmt.filter);
    handle_generated_select(scx, query, replies)
}

/// The columns that are selected to show columns.
pub open spec fn column_columns() -> Seq<Seq<char>> {
    seq!["mz_columns.field"@, "CASE WHEN mz_columns.nullable THEN 'YES' ELSE 'NO' END nullable"@, "mz_columns.type"@]
}

fn make_column_columns() -> (columns: Vec<String>)
    ensures
        texts(columns@) == column_columns(),
{
    let mut columns: Vec<String> = Vec::new();
    columns.push("mz_columns.field".to_owned());
    columns.push("CASE WHEN mz_columns.nullable THEN 'YES' ELSE 'NO' END nullable".to_owned());
    columns.push("mz_columns.type".to_owned());
    assert(texts(columns@) =~= column_columns());
    columns
}

/// Where columns are found, up to the condition on them.
pub open spec fn columns_from() -> Seq<char> {
    " mz_catalog.mz_columns AS mz_columns
         JOIN mz_catalog.mz_catalog_names AS mz_catalog_names ON mz_columns.global_id = mz_catalog_names.global_id
         WHERE "@
}

/// The order of columns: by their places.
pub open spec fn columns_order() -> Seq<char> {
    "
         ORDER BY mz_columns.field_number ASC"@
}

/// The query for the columns of a relation.
pub open spec fn columns_query(of: Seq<char>, filter: Seq<char>) -> Seq<char> {
    laid_out(
            column_columns(),
            "\n            "@,
            "\n         "@,
            columns_from() + "mz_catalog_names.name = '"@ + of + "' "@ + filter + columns_order(),
        )
}

fn make_columns_query(of: &str, filter: &str) -> (sql: String)
    ensures
        sql@ == columns_query(of@, filter@),
{
    lay_out(
            &make_column_columns(),
            "\n            ",
            "\n         ",
            " mz_catalog.mz_columns AS mz_columns
         JOIN mz_catalog.mz_catalog_names AS mz_catalog_names ON mz_columns.global_id = mz_catalog_names.global_id
         WHERE ".to_owned().concat("mz_catalog_names.name = '").concat(of).concat("' ").concat(filter).concat("
         ORDER BY mz_columns.field_number ASC"),
        )
}

/// The plan for `SHOW COLUMNS`.
pub open spec fn show_columns(
    catalog: CatalogModel,
    pcx: PlanContext,
    param_types: Map<usize, ScalarType>,
    stmt: ShowColumnsStatement,
    replies: Replies,
) -> StepView<PlanView> {
    if stmt.extended {
        failed(unsupported("SHOW EXTENDED COLUMNS"@))
    } else if stmt.full {
        failed(unsupported("SHOW FULL COLUMNS"@))
    } else {
        match item_of(catalog, stmt.table_name) {
            Err(e) => failed(e),
            Ok(name) => generated_select(
                pcx,
                param_types,
                columns_query(name.shown(), filter_clause(stmt.filter, "field"@)),
                replies,
            ),
        }
    }
}

/// Plans `SHOW COLUMNS`.
pub fn handle_show_columns<C: Catalog>(
    scx: &StatementContext<C>,
    stmt: &ShowColumnsStatement,
    replies: &Replies,
) -> (step: Step<Plan>)
    ensures
        step@ == show_columns(scx.catalog.model(), *scx.pcx, scx.param_types@, *stmt, *replies),
{
    if stmt.extended {
        return Step::Done(Err(PlanError::unsupported("SHOW EXTENDED COLUMNS")));
    }
    if stmt.full {
        return Step::Done(Err(PlanError::unsupported("SHOW FULL COLUMNS")));
    }
    let name = match scx.resolve_item(stmt.table_name.clone()) {
        Ok(name) => name,
        Err(e) => {
            return Step::Done(Err(e));
        },
    };
    let filter = make_filter_clause(&stmt.filter, "field");
    let query = make_columns_query(name.to_text().as_str(), filter.as_str());
    handle_generated_select(scx, query, replies)
}

// Statements that created items.

/// The plan to show the statement that created an item of some type: one row of
/// the name and the statement. An item of another type gets the complaint, which
/// stands around its name.
pub open spec fn show_create(
    catalog: CatalogModel,
    name: ObjectName,
    item_type: CatalogItemType,
    before: Seq<char>,
    after: Seq<char>,
) -> Result<PlanView, ErrorView> {
    match item_of(catalog, name) {
        Err(e) => Err(e),
        Ok(name) => {
            let entry = catalog.items[name];
            if entry.item_type == item_type {
                Ok(PlanView::SendRows(seq![seq![name.shown(), entry.create_sql@]]))
            } else {
                Err(invalid(before + name.shown() + after))
            }
        },
    }
}

fn handle_show_create<C: Catalog>(
    scx: &StatementContext<C>,
    name: &ObjectName,
    item_type: CatalogItemType,
    before: &str,
    after: &str,
) -> (r: Result<Plan, PlanError>)
    ensures
        viewed(r) == show_create(scx.catalog.model(), *name, item_type, before@, after@),
{
    let name = match scx.resolve_item(name.clone()) {
        Ok(name) => name,
        Err(e) => {
            return Err(e);
        },
    };
    let entry = scx.catalog.get_item(&name);
    if entry.item_type == item_type {
        let mut values: Vec<String> = Vec::new();
        values.push(name.to_text());
        values.push(entry.create_sql.clone());
        assert(texts(values@) =~= seq![name@.shown(), entry.create_sql@]);
        let mut rows: Vec<Row> = Vec::new();
        rows.push(Row { values });
        assert(rows_view(rows@) =~= seq![seq![name@.shown(), entry.create_sql@]]);
        Ok(Plan::SendRows(rows))
    } else {
        Err(PlanError::invalid(before.to_owned().concat(name.to_text().as_str()).concat(after)))
    }
}

/// Plans `SHOW CREATE VIEW`.
pub fn handle_show_create_view<C: Catalog>(
    scx: &StatementContext<C>,
    stmt: &ShowCreateViewStatement,
) -> (r: Result<Plan, PlanError>)
    ensures
        viewed(r) == show_create(
            scx.catalog.model(),
            stmt.view_name,
            CatalogItemType::View,
            ""@,
            " is not a view"@,
        ),
{
    handle_show_create(scx, &stmt.view_name, CatalogItemType::View, "", " is not a view")
}

/// Plans `SHOW CREATE SOURCE`.
pub fn handle_show_create_source<C: Catalog>(
    scx: &StatementContext<C>,
    stmt: &ShowCreateSourceStatement,
) -> (r: Result<Plan, PlanError>)
    ensures
        viewed(r) == show_create(
            scx.catalog.model(),
            stmt.source_name,
            CatalogItemType::Source,
            ""@,
            " is not a source"@,
        ),
{
    handle_show_create(scx, &stmt.source_name, CatalogItemType::Source, "", " is not a source")
}

/// Plans `SHOW CREATE TABLE`.
pub fn handle_show_create_table<C: Catalog>(
    scx: &StatementContext<C>,
    stmt: &ShowCreateTableStatement,
) -> (r: Result<Plan, PlanError>)
    ensures
        viewed(r) == show_create(
            scx.catalog.model(),
            stmt.table_name,
            CatalogItemType::Table,
            ""@,
            " is not a table"@,
        ),
{
    handle_show_create(scx, &stmt.table_name, CatalogItemType::Table, "", " is not a table")
}

/// Plans `SHOW CREATE SINK`.
pub fn handle_show_create_sink<C: Catalog>(
    scx: &StatementContext<C>,
    stmt: &ShowCreateSinkStatement,
) -> (r: Result<Plan, PlanError>)
    ensures
        viewed(r) == show_create(
            scx.catalog.model(),
            stmt.sink_name,
            CatalogItemType::Sink,
            "'"@,
            "' is not a sink"@,
        ),
{
    handle_show_create(scx, &stmt.sink_name, CatalogItemType::Sink, "'", "' is not a sink")
}

/// Plans `SHOW CREATE INDEX`.
pub fn handle_show_create_index<C: Catalog>(
    scx: &StatementContext<C>,
    stmt: &ShowCreateIndexStatement,
) -> (r: Result<Plan, PlanError>)
    ensures
        viewed(r) == show_create(
            scx.catalog.model(),
            stmt.index_name,
            CatalogItemType::Index,
            "'"@,
            "' is not an index"@,
        ),
{
    handle_show_create(scx, &stmt.index_name, CatalogItemType::Index, "'", "' is not an index")
}

} // verus!
