//! What holds of planning as a whole.
use vstd::prelude::*;
use vstd::string::*;

use crate::alter::{alter_index_options, alter_object_rename};
use crate::ast::{
    ColumnDef, Connector, CreateSinkStatement, CreateSourceStatement, CreateTableStatement,
    CreateViewStatement, Envelope, ExplainStatement, Explainee, Format, IfExistsBehavior,
    ObjectType, Query, SelectStatement, ShowObjectsStatement, ShowStatementFilter, Statement,
};
use crate::catalog::{CatalogItemType, CatalogModel, PlanContext};
use crate::columns::column_names;
use crate::context::{allocated_name, finalized, numbered_from_one, temporary_name};
use crate::dataflow::{ConnectorView, EncodingView, EnvelopeView, SinkBuilderView};
use crate::describe::{description, refusal, DescriptionView};
use crate::drop::{
    drop_database, drop_objects, items_are_dropped_where_they_may_be, may_be_dropped,
};
use crate::engine::{failed, ParamsView, QuestionView, Replies, Role, StepView};
use crate::error::{ErrorView, PlanError};
use crate::index::create_index;
use crate::names::{FullNameView, ObjectName, PartialNameView};
use crate::plan::{PeekWhen, PlanView};
use crate::query::{explain, generated_select, insert, select, tail};
use crate::relation::{ColumnType, RelationView, ScalarType};
use crate::show::{
    can_show, column_columns, columns_query, database_columns, databases_query, filter_clause,
    filter_condition, filtered_index_columns, in_schema, index_columns, indexes_query, is_blank,
    is_indexed, laid_out, objects_query, of_ambient_database, of_database, schemas_condition,
    schemas_from, schemas_query, selects, show_columns, show_databases, show_indexes, show_objects,
    show_schemas, shown_columns, shown_database, shown_schema, sinks_query, sources_condition,
    sources_from, sources_order, sources_query, tables_query, views_query, Condition,
};
use crate::sink::create_sink;
use crate::source::{
    create_source, encoding_of, envelope_of, format_is_pure, ingest_of, is_pure, source_desc,
    value_encoding, with_columns,
};
use crate::statement::{is_sound, numbered, plan_of};
use crate::table::{column_types, create_table, has_duplicates, names_of};
use crate::value::{settings, switch, ValueView};
use crate::view::{create_view, view_name};

verus! {

// Questions.

/// Whether planning has ended, or asks for an answer that is not yet there, and
/// for the type of no more than this many columns.
pub open spec fn asks_for_news<T>(step: StepView<T>, replies: Replies, columns: nat) -> bool {
    step matches StepView::Ask(question) ==> {
        &&& replies.open_for(question)
        &&& question matches QuestionView::ColumnType { column, .. } ==> column < columns
    }
}

/// How many columns a statement declares.
pub open spec fn declared_columns(stmt: Statement) -> nat {
    match stmt {
        Statement::CreateTable(stmt) => stmt.columns@.len(),
        _ => 0,
    }
}

proof fn encodings_ask_for_news(
    role: Role,
    format: Option<Format>,
    options: Map<Seq<char>, ValueView>,
    named: nat,
    replies: Replies,
)
    requires
        format matches Some(f) ==> format_is_pure(f),
    ensures
        encoding_of(role, format, options, named, replies) matches Err(step) ==> asks_for_news(
            step,
            replies,
            0,
        ),
{
}

proof fn sources_ask_for_news(catalog: CatalogModel, stmt: CreateSourceStatement, replies: Replies)
    requires
        is_pure(stmt),
    ensures
        asks_for_news(create_source(catalog, stmt, replies), replies, 0),
{
    let options = settings(stmt.with_options@);
    let named = stmt.col_names@.len();
    if !(stmt.connector is AvroOcf) {
        encodings_ask_for_news(Role::Value, stmt.format, options, named, replies);
    }
    if let Envelope::Upsert(key_format) = stmt.envelope {
        if stmt.connector is Kafka && key_format is Some {
            encodings_ask_for_news(Role::Key, key_format, options, named, replies);
        }
    }
}

proof fn columns_ask_for_news(columns: Seq<ColumnDef>, n: nat, replies: Replies)
    ensures
        match column_types(columns, n, replies) {
            Ok(_) => replies.column_types@.len() >= n,
            Err(step) => asks_for_news(step, replies, n) && !(step matches StepView::Done(Ok(_))),
        },
    decreases n,
{
    if n > 0 {
        columns_ask_for_news(columns, (n - 1) as nat, replies);
    }
}

proof fn creations_ask_for_news(
    catalog: CatalogModel,
    pcx: PlanContext,
    types: Map<usize, ScalarType>,
    stmt: Statement,
    params: ParamsView,
    replies: Replies,
)
    requires
        is_sound(catalog, stmt, replies),
    ensures
        match stmt {
            Statement::CreateIndex(stmt) => asks_for_news(
                create_index(catalog, stmt, replies),
                replies,
                0,
            ),
            Statement::CreateSink(stmt) => asks_for_news(
                create_sink(catalog, stmt, replies),
                replies,
                0,
            ),
            Statement::CreateSource(stmt) => asks_for_news(
                create_source(catalog, stmt, replies),
                replies,
                0,
            ),
            Statement::CreateTable(stmt) => asks_for_news(
                create_table(catalog, stmt, replies),
                replies,
                stmt.columns@.len(),
            ),
            Statement::CreateView(stmt) => asks_for_news(
                create_view(catalog, pcx, types, stmt, params, replies),
                replies,
                0,
            ),
            _ => true,
        },
{
    match stmt {
        Statement::CreateSource(stmt) => {
            sources_ask_for_news(catalog, stmt, replies);
        },
        Statement::CreateTable(stmt) => {
            columns_ask_for_news(stmt.columns@, stmt.columns@.len(), replies);
        },
        _ => {},
    }
}

proof fn generated_queries_ask_for_news(
    pcx: PlanContext,
    types: Map<usize, ScalarType>,
    sql: Seq<char>,
    replies: Replies,
)
    ensures
        asks_for_news(generated_select(pcx, types, sql, replies), replies, 0),
{
}

proof fn showing_asks_for_news(
    catalog: CatalogModel,
    pcx: PlanContext,
    types: Map<usize, ScalarType>,
    stmt: Statement,
    replies: Replies,
)
    requires
        is_sound(catalog, stmt, replies),
    ensures
        match stmt {
            Statement::ShowColumns(stmt) => asks_for_news(
                show_columns(catalog, pcx, types, stmt, replies),
                replies,
                0,
            ),
            Statement::ShowDatabases(stmt) => asks_for_news(
                show_databases(pcx, types, stmt, replies),
                replies,
                0,
            ),
            Statement::ShowIndexes(stmt) => asks_for_news(
                show_indexes(catalog, pcx, types, stmt, replies),
                replies,
                0,
            ),
            Statement::ShowObjects(stmt) => asks_for_news(
                show_objects(catalog, pcx, types, stmt, replies),
                replies,
                0,
            ),
            _ => true,
        },
{
    assert forall|sql: Seq<char>| asks_for_news(
        #[trigger] generated_select(pcx, types, sql, replies),
        replies,
        0,
    ) by {
        generated_queries_ask_for_news(pcx, types, sql, replies);
    }
}

proof fn queries_ask_for_news(
    catalog: CatalogModel,
    pcx: PlanContext,
    types: Map<usize, ScalarType>,
    stmt: Statement,
    params: ParamsView,
    replies: Replies,
)
    ensures
        match stmt {
            Statement::Explain(stmt) => asks_for_news(
                explain(catalog, pcx, types, stmt, params, replies),
                replies,
                0,
            ),
            Statement::Select(stmt) => asks_for_news(
                select(pcx, types, stmt.query.sql@, stmt.as_of, params, replies),
                replies,
                0,
            ),
            Statement::Tail(stmt) => asks_for_news(tail(catalog, stmt, replies), replies, 0),
            Statement::Insert(stmt) => asks_for_news(
                insert(pcx, types, stmt, params, replies),
                replies,
                0,
            ),
            _ => true,
        },
{
}

/// Planning a statement never asks for an answer that it was already given, nor
/// for the type of a column that the statement does not declare.
pub proof fn planning_asks_for_news(
    catalog: CatalogModel,
    pcx: PlanContext,
    stmt: Statement,
    params: ParamsView,
    replies: Replies,
)
    requires
        is_sound(catalog, stmt, replies),
    ensures
        asks_for_news(
            plan_of(catalog, pcx, stmt, params, replies),
            replies,
            declared_columns(stmt),
        ),
{
    let types = numbered(params.types);
    creations_ask_for_news(catalog, pcx, types, stmt, params, replies);
    showing_asks_for_news(catalog, pcx, types, stmt, replies);
    queries_ask_for_news(catalog, pcx, types, stmt, params, replies);
}

/// Planning a statement ends at the latest when every place for an answer is filled.
pub proof fn planning_ends(
    catalog: CatalogModel,
    pcx: PlanContext,
    stmt: Statement,
    params: ParamsView,
    replies: Replies,
)
    requires
        is_sound(catalog, stmt, replies),
        replies.is_full(declared_columns(stmt)),
    ensures
        plan_of(catalog, pcx, stmt, params, replies) is Done,
{
    planning_asks_for_news(catalog, pcx, stmt, params, replies);
}

/// Describing a statement never asks for an answer that it was already given.
pub proof fn describing_asks_for_news(
    catalog: CatalogModel,
    stmt: Statement,
    param_types: Map<usize, ScalarType>,
    replies: Replies,
)
    ensures
        asks_for_news(description(catalog, stmt, param_types, replies), replies, 0),
{
}

/// Whether planning that has ended with some answers ends the same with others.
pub open spec fn same_end<T>(a: StepView<T>, b: StepView<T>) -> bool {
    a is Done ==> a == b
}

/// Whether what was reached with some answers, or the end that was, is the same with others.
pub open spec fn same_so_far<V, T>(a: Result<V, StepView<T>>, b: Result<V, StepView<T>>) -> bool {
    (a matches Err(step) ==> step is Done) ==> a == b
}

proof fn more_answers_keep_encodings(
    role: Role,
    format: Option<Format>,
    options: Map<Seq<char>, ValueView>,
    named: nat,
    a: Replies,
    b: Replies,
)
    requires
        b.extends(a),
    ensures
        same_so_far(
            encoding_of(role, format, options, named, a),
            encoding_of(role, format, options, named, b),
        ),
{
}

proof fn more_answers_keep_ingests(stmt: CreateSourceStatement, a: Replies, b: Replies)
    requires
        b.extends(a),
    ensures
        same_so_far(ingest_of(stmt, a), ingest_of(stmt, b)),
{
    let options = settings(stmt.with_options@);
    let named = stmt.col_names@.len();
    more_answers_keep_encodings(Role::Value, stmt.format, options, named, a, b);
}

proof fn more_answers_keep_envelopes(
    catalog: CatalogModel,
    stmt: CreateSourceStatement,
    encoding: EncodingView,
    a: Replies,
    b: Replies,
)
    requires
        b.extends(a),
    ensures
        same_so_far(
            envelope_of(catalog, stmt, encoding, a),
            envelope_of(catalog, stmt, encoding, b),
        ),
{
    if let Envelope::Upsert(key_format) = stmt.envelope {
        let options = settings(stmt.with_options@);
        let named = stmt.col_names@.len();
        more_answers_keep_encodings(Role::Key, key_format, options, named, a, b);
    }
}

proof fn more_answers_keep_source_descs(
    stmt: CreateSourceStatement,
    connector: ConnectorView,
    encoding: EncodingView,
    envelope: EnvelopeView,
    a: Replies,
    b: Replies,
)
    requires
        b.extends(a),
    ensures
        same_so_far(
            source_desc(stmt, connector, encoding, envelope, a),
            source_desc(stmt, connector, encoding, envelope, b),
        ),
{
}

proof fn more_answers_keep_sources(
    catalog: CatalogModel,
    stmt: CreateSourceStatement,
    a: Replies,
    b: Replies,
)
    requires
        b.extends(a),
    ensures
        same_end(create_source(catalog, stmt, a), create_source(catalog, stmt, b)),
{
    more_answers_keep_ingests(stmt, a, b);
    if let Ok(ingest) = ingest_of(stmt, a) {
        more_answers_keep_envelopes(catalog, stmt, ingest.encoding, a, b);
        if let Ok(envelope) = envelope_of(catalog, stmt, ingest.encoding, a) {
            if let Ok(encoding) = value_encoding(ingest.encoding, envelope) {
                more_answers_keep_source_descs(stmt, ingest.connector, encoding, envelope, a, b);
            }
        }
    }
}

proof fn more_answers_keep_columns(columns: Seq<ColumnDef>, n: nat, a: Replies, b: Replies)
    requires
        b.extends(a),
    ensures
        same_so_far(column_types(columns, n, a), column_types(columns, n, b)),
    decreases n,
{
    if n > 0 {
        more_answers_keep_columns(columns, (n - 1) as nat, a, b);
    }
}

proof fn more_answers_keep_creations(
    catalog: CatalogModel,
    pcx: PlanContext,
    types: Map<usize, ScalarType>,
    stmt: Statement,
    params: ParamsView,
    a: Replies,
    b: Replies,
)
    requires
        is_sound(catalog, stmt, a),
        b.extends(a),
    ensures
        match stmt {
            Statement::CreateIndex(s) => same_end(
                create_index(catalog, s, a),
                create_index(catalog, s, b),
            ),
            Statement::CreateSink(s) => same_end(
                create_sink(catalog, s, a),
                create_sink(catalog, s, b),
            ),
            Statement::CreateSource(s) => same_end(
                create_source(catalog, s, a),
                create_source(catalog, s, b),
            ),
            Statement::CreateTable(s) => same_end(
                create_table(catalog, s, a),
                create_table(catalog, s, b),
            ),
            Statement::CreateView(s) => same_end(
                create_view(catalog, pcx, types, s, params, a),
                create_view(catalog, pcx, types, s, params, b),
            ),
            _ => true,
        },
{
    match stmt {
        Statement::CreateSource(s) => {
            more_answers_keep_sources(catalog, s, a, b);
        },
        Statement::CreateTable(s) => {
            more_answers_keep_columns(s.columns@, s.columns@.len(), a, b);
        },
        _ => {},
    }
}

proof fn more_answers_keep_generated_queries(
    pcx: PlanContext,
    types: Map<usize, ScalarType>,
    sql: Seq<char>,
    a: Replies,
    b: Replies,
)
    requires
        b.extends(a),
    ensures
        same_end(generated_select(pcx, types, sql, a), generated_select(pcx, types, sql, b)),
{
}

proof fn more_answers_keep_showing(
    catalog: CatalogModel,
    pcx: PlanContext,
    types: Map<usize, ScalarType>,
    stmt: Statement,
    a: Replies,
    b: Replies,
)
    requires
        is_sound(catalog, stmt, a),
        b.extends(a),
    ensures
        match stmt {
            Statement::ShowColumns(s) => same_end(
                show_columns(catalog, pcx, types, s, a),
                show_columns(catalog, pcx, types, s, b),
            ),
            Statement::ShowDatabases(s) => same_end(
                show_databases(pcx, types, s, a),
                show_databases(pcx, types, s, b),
            ),
            Statement::ShowIndexes(s) => same_end(
                show_indexes(catalog, pcx, types, s, a),
                show_indexes(catalog, pcx, types, s, b),
            ),
            Statement::ShowObjects(s) => same_end(
                show_objects(catalog, pcx, types, s, a),
                show_objects(catalog, pcx, types, s, b),
            ),
            _ => true,
        },
{
    assert forall|sql: Seq<char>| same_end(
        #[trigger] generated_select(pcx, types, sql, a),
        generated_select(pcx, types, sql, b),
    ) by {
        more_answers_keep_generated_queries(pcx, types, sql, a, b);
    }
}

proof fn more_answers_keep_queries(
    catalog: CatalogModel,
    pcx: PlanContext,
    types: Map<usize, ScalarType>,
    stmt: Statement,
    params: ParamsView,
    a: Replies,
    b: Replies,
)
    requires
        b.extends(a),
    ensures
        match stmt {
            Statement::Explain(s) => same_end(
                explain(catalog, pcx, types, s, params, a),
                explain(catalog, pcx, types, s, params, b),
            ),
            Statement::Select(s) => same_end(
                select(pcx, types, s.query.sql@, s.as_of, params, a),
                select(pcx, types, s.query.sql@, s.as_of, params, b),
            ),
            Statement::Tail(s) => same_end(tail(catalog, s, a), tail(catalog, s, b)),
            Statement::Insert(s) => same_end(
                insert(pcx, types, s, params, a),
                insert(pcx, types, s, params, b),
            ),
            _ => true,
        },
{
}

/// Where planning has ended, more answers change nothing: the outcome rests on
/// the answers to the questions that it asked, and on no others.
pub proof fn more_answers_change_nothing(
    catalog: CatalogModel,
    pcx: PlanContext,
    stmt: Statement,
    params: ParamsView,
    a: Replies,
    b: Replies,
)
    requires
        is_sound(catalog, stmt, a),
        b.extends(a),
        plan_of(catalog, pcx, stmt, params, a) is Done,
    ensures
        plan_of(catalog, pcx, stmt, params, b) == plan_of(catalog, pcx, stmt, params, a),
{
    let types = numbered(params.types);
    more_answers_keep_creations(catalog, pcx, types, stmt, params, a, b);
    more_answers_keep_showing(catalog, pcx, types, stmt, a, b);
    more_answers_keep_queries(catalog, pcx, types, stmt, params, a, b);
}

// Statements.

/// A statement that is refused whatever it says is refused alike when it is
/// described and when it is planned; it is then invalid, and nothing is asked.
pub proof fn refusals_agree(
    catalog: CatalogModel,
    pcx: PlanContext,
    stmt: Statement,
    params: ParamsView,
    param_types: Map<usize, ScalarType>,
    replies: Replies,
)
    requires
        refusal(stmt) is Some,
    ensures
        plan_of(catalog, pcx, stmt, params, replies) == failed::<PlanView>(refusal(stmt)->0),
        description(catalog, stmt, param_types, replies) == failed::<DescriptionView>(
            refusal(stmt)->0,
        ),
{
}

/// Whether a plan is of the kind that a statement asks for.
pub open spec fn plan_fits(stmt: Statement, plan: PlanView) -> bool {
    match stmt {
        Statement::CreateDatabase(_) => plan is CreateDatabase,
        Statement::CreateIndex(_) => plan is CreateIndex,
        Statement::CreateSchema(_) => plan is CreateSchema,
        Statement::CreateSink(_) => plan is CreateSink,
        Statement::CreateSource(_) => plan is CreateSource,
        Statement::CreateTable(_) => plan is CreateTable,
        Statement::CreateView(_) => plan is CreateView,
        Statement::DropDatabase(_) => plan is DropDatabase,
        Statement::DropObjects(stmt) => if stmt.object_type == ObjectType::Schema {
            plan is DropSchema
        } else {
            plan is DropItems
        },
        Statement::AlterObjectRename(_) => plan is AlterItemRename,
        Statement::AlterIndexOptions(_) => plan is AlterIndexLogicalCompactionWindow,
        Statement::ShowColumns(_)
        | Statement::ShowDatabases(_)
        | Statement::ShowIndexes(_)
        | Statement::ShowObjects(_)
        | Statement::Select(_) => plan is Peek,
        Statement::ShowCreateIndex(_)
        | Statement::ShowCreateSink(_)
        | Statement::ShowCreateSource(_)
        | Statement::ShowCreateTable(_)
        | Statement::ShowCreateView(_) => plan is SendRows,
        Statement::SetVariable(_) => plan is SetVariable,
        Statement::ShowVariable(_) => plan is ShowAllVariables || plan is ShowVariable,
        Statement::Explain(_) => plan is ExplainPlan,
        Statement::Tail(_) => plan is Tail,
        Statement::Insert(_) => plan is Insert,
        Statement::StartTransaction => plan is StartTransaction,
        Statement::Rollback => plan is AbortTransaction,
        Statement::Commit => plan is CommitTransaction,
        Statement::Update
        | Statement::Delete
        | Statement::Copy
        | Statement::SetTransaction => false,
    }
}

/// Whether the plan that a step ends with, if it does, is of the kind that a statement asks for.
pub open spec fn step_fits(stmt: Statement, step: StepView<PlanView>) -> bool {
    step matches StepView::Done(Ok(plan)) ==> plan_fits(stmt, plan)
}

proof fn creations_fit(
    catalog: CatalogModel,
    pcx: PlanContext,
    types: Map<usize, ScalarType>,
    stmt: Statement,
    params: ParamsView,
    replies: Replies,
)
    requires
        is_sound(catalog, stmt, replies),
    ensures
        match stmt {
            Statement::CreateIndex(s) => step_fits(stmt, create_index(catalog, s, replies)),
            Statement::CreateSink(s) => step_fits(stmt, create_sink(catalog, s, replies)),
            Statement::CreateSource(s) => step_fits(stmt, create_source(catalog, s, replies)),
            Statement::CreateTable(s) => step_fits(stmt, create_table(catalog, s, replies)),
            Statement::CreateView(s) => step_fits(
                stmt,
                create_view(catalog, pcx, types, s, params, replies),
            ),
            _ => true,
        },
{
    match stmt {
        Statement::CreateTable(s) => {
            columns_ask_for_news(s.columns@, s.columns@.len(), replies);
        },
        Statement::CreateSource(s) => {
            source_connectors_fit(catalog, s, replies);
        },
        _ => {},
    }
}

proof fn generated_queries_peek(
    pcx: PlanContext,
    types: Map<usize, ScalarType>,
    sql: Seq<char>,
    replies: Replies,
)
    ensures
        generated_select(pcx, types, sql, replies) matches StepView::Done(Ok(plan)) ==> plan
            is Peek,
{
}

proof fn showing_fits(
    catalog: CatalogModel,
    pcx: PlanContext,
    types: Map<usize, ScalarType>,
    stmt: Statement,
    replies: Replies,
)
    requires
        is_sound(catalog, stmt, replies),
    ensures
        match stmt {
            Statement::ShowColumns(s) => step_fits(
                stmt,
                show_columns(catalog, pcx, types, s, replies),
            ),
            Statement::ShowDatabases(s) => step_fits(stmt, show_databases(pcx, types, s, replies)),
            Statement::ShowIndexes(s) => step_fits(
                stmt,
                show_indexes(catalog, pcx, types, s, replies),
            ),
            Statement::ShowObjects(s) => step_fits(
                stmt,
                show_objects(catalog, pcx, types, s, replies),
            ),
            _ => true,
        },
{
    assert forall|sql: Seq<char>|
        (#[trigger] generated_select(pcx, types, sql, replies) matches StepView::Done(
            Ok(plan),
        ) ==> plan is Peek) by {
        generated_queries_peek(pcx, types, sql, replies);
    }
}

proof fn queries_fit(
    catalog: CatalogModel,
    pcx: PlanContext,
    types: Map<usize, ScalarType>,
    stmt: Statement,
    params: ParamsView,
    replies: Replies,
)
    ensures
        match stmt {
            Statement::Explain(s) => step_fits(
                stmt,
                explain(catalog, pcx, types, s, params, replies),
            ),
            Statement::Select(s) => step_fits(
                stmt,
                select(pcx, types, s.query.sql@, s.as_of, params, replies),
            ),
            Statement::Tail(s) => step_fits(stmt, tail(catalog, s, replies)),
            Statement::Insert(s) => step_fits(stmt, insert(pcx, types, s, params, replies)),
            _ => true,
        },
{
}

proof fn changes_fit(catalog: CatalogModel, stmt: Statement)
    ensures
        match stmt {
            Statement::DropDatabase(s) => step_fits(
                stmt,
                StepView::Done(drop_database(catalog, s)),
            ),
            Statement::DropObjects(s) => step_fits(stmt, StepView::Done(drop_objects(catalog, s))),
            Statement::AlterObjectRename(s) => step_fits(
                stmt,
                StepView::Done(alter_object_rename(catalog, s)),
            ),
            Statement::AlterIndexOptions(s) => step_fits(
                stmt,
                StepView::Done(alter_index_options(catalog, s)),
            ),
            _ => true,
        },
{
}

/// What a statement is planned as is of the kind that it asks for.
pub proof fn plans_fit_statements(
    catalog: CatalogModel,
    pcx: PlanContext,
    stmt: Statement,
    params: ParamsView,
    replies: Replies,
)
    requires
        is_sound(catalog, stmt, replies),
    ensures
        plan_of(catalog, pcx, stmt, params, replies) matches StepView::Done(Ok(plan)) ==> plan_fits(
            stmt,
            plan,
        ),
{
    let types = numbered(params.types);
    creations_fit(catalog, pcx, types, stmt, params, replies);
    showing_fits(catalog, pcx, types, stmt, replies);
    queries_fit(catalog, pcx, types, stmt, params, replies);
    changes_fit(catalog, stmt);
}

/// Whether whoever runs a plan gets rows for it.
pub open spec fn returns_rows(plan: PlanView) -> bool {
    match plan {
        PlanView::Peek { .. }
        | PlanView::Tail { .. }
        | PlanView::SendRows(_)
        | PlanView::ExplainPlan { .. }
        | PlanView::ShowAllVariables
        | PlanView::ShowVariable(_) => true,
        _ => false,
    }
}

/// A statement is described as returning rows exactly where its plan does.
pub proof fn descriptions_fit_plans(
    catalog: CatalogModel,
    pcx: PlanContext,
    stmt: Statement,
    params: ParamsView,
    replies: Replies,
    param_types: Map<usize, ScalarType>,
    described: Replies,
)
    requires
        is_sound(catalog, stmt, replies),
    ensures
        match (
            plan_of(catalog, pcx, stmt, params, replies),
            description(catalog, stmt, param_types, described),
        ) {
            (StepView::Done(Ok(plan)), StepView::Done(Ok(d))) => d.desc is Some <==> returns_rows(
                plan,
            ),
            _ => true,
        },
{
    plans_fit_statements(catalog, pcx, stmt, params, replies);
    if let StepView::Done(Ok(plan)) = plan_of(catalog, pcx, stmt, params, replies) {
        rows_are_described(catalog, stmt, param_types, described, plan);
    }
}

proof fn rows_are_described(
    catalog: CatalogModel,
    stmt: Statement,
    param_types: Map<usize, ScalarType>,
    described: Replies,
    plan: PlanView,
)
    requires
        plan_fits(stmt, plan),
    ensures
        description(catalog, stmt, param_types, described) matches StepView::Done(Ok(d)) ==> (d.desc
            is Some <==> returns_rows(plan)),
{
}

/// `EXPLAIN` of a query takes the parameters that the query takes, and fails
/// to be described where the query does.
pub proof fn explaining_keeps_parameters(
    catalog: CatalogModel,
    stmt: ExplainStatement,
    select: SelectStatement,
    param_types: Map<usize, ScalarType>,
    replies: Replies,
)
    requires
        stmt.explainee == Explainee::Query(select.query),
    ensures
        match (
            description(catalog, Statement::Explain(stmt), param_types, replies),
            description(catalog, Statement::Select(select), param_types, replies),
        ) {
            (StepView::Done(Ok(a)), StepView::Done(Ok(b))) => a.param_types == b.param_types,
            (a, b) => a == b,
        },
{
}

// What is shown.

proof fn gaps_are_blank()
    ensures
        is_blank(" "@),
        is_blank("\n        "@),
        is_blank("\n         "@),
        is_blank("\n            "@),
        is_blank("\n             "@),
        is_blank("\n                "@),
{
    reveal_strlit(" ");
    reveal_strlit("\n        ");
    reveal_strlit("\n         ");
    reveal_strlit("\n            ");
    reveal_strlit("\n             ");
    reveal_strlit("\n                ");
}

proof fn laid_out_queries_select_their_columns()
    ensures
        forall|columns: Seq<Seq<char>>, gap: Seq<char>, after: Seq<char>, from: Seq<char>|
            is_blank(gap) && is_blank(after) ==> selects(
                #[trigger] laid_out(columns, gap, after, from),
                columns,
            ),
{
}

proof fn object_queries_select_their_columns(
    full: bool,
    materialized: bool,
    id: i64,
    clause: Seq<char>,
    filter: Option<ShowStatementFilter>,
)
    ensures
        selects(tables_query(full, id, clause), shown_columns(ObjectType::Table, false, full)),
        selects(sinks_query(full, id, clause), shown_columns(ObjectType::Sink, false, full)),
        selects(
            views_query(full, materialized, id, clause),
            shown_columns(ObjectType::View, materialized, full),
        ),
        selects(
            sources_query(full, materialized, id, filter),
            shown_columns(ObjectType::Source, materialized, full),
        ),
{
    gaps_are_blank();
    laid_out_queries_select_their_columns();
}

/// `SHOW` of objects is planned as the query for them, to be looked at
/// immediately. The query selects just as many columns as the statement is
/// described to return.
pub proof fn shown_objects_are_described(
    catalog: CatalogModel,
    pcx: PlanContext,
    types: Map<usize, ScalarType>,
    stmt: ShowObjectsStatement,
    replies: Replies,
    described: Replies,
)
    requires
        can_show(stmt),
    ensures
        show_objects(catalog, pcx, types, stmt, replies) == match objects_query(catalog, stmt) {
            Err(e) => failed(e),
            Ok(sql) => generated_select(pcx, types, sql, replies),
        },
        objects_query(catalog, stmt) matches Ok(sql) ==> selects(
            sql,
            shown_columns(stmt.object_type, stmt.materialized, stmt.full),
        ),
        match description(catalog, Statement::ShowObjects(stmt), types, described) {
            StepView::Done(Ok(d)) => d.desc is Some && d.desc->0.types.len() == shown_columns(
                stmt.object_type,
                stmt.materialized,
                stmt.full,
            ).len(),
            _ => false,
        },
        show_objects(catalog, pcx, types, stmt, replies) matches StepView::Done(Ok(plan)) ==> plan
            is Peek && plan->Peek_when == PeekWhen::Immediately,
{
    let (full, materialized, filter) = (stmt.full, stmt.materialized, stmt.filter);
    if stmt.object_type == ObjectType::Schema {
        gaps_are_blank();
        laid_out_queries_select_their_columns();
    } else if let Ok(schema) = shown_schema(catalog, stmt.from) {
        let column = match stmt.object_type {
            ObjectType::Table => "tables"@,
            ObjectType::View => "views"@,
            _ => "sinks"@,
        };
        object_queries_select_their_columns(
            full,
            materialized,
            schema.id,
            filter_clause(filter, column),
            filter,
        );
    }
}

/// `SHOW DATABASES`, `SHOW COLUMNS` and `SHOW INDEXES` select just as many
/// columns as they are described to return.
pub proof fn other_shown_columns_are_described(
    catalog: CatalogModel,
    types: Map<usize, ScalarType>,
    stmt: Statement,
    text: Seq<char>,
    clause: Seq<char>,
    filter: Option<ShowStatementFilter>,
    replies: Replies,
)
    ensures
        selects(databases_query(clause), database_columns()),
        selects(columns_query(text, clause), column_columns()),
        selects(
            indexes_query(text, filter),
            if filter is None {
                index_columns()
            } else {
                filtered_index_columns()
            },
        ),
        description(catalog, stmt, types, replies) matches StepView::Done(Ok(d)) ==> {
            &&& stmt is ShowDatabases ==> d.desc is Some && d.desc->0.types.len()
                == database_columns().len()
            &&& stmt is ShowColumns ==> d.desc is Some && d.desc->0.types.len()
                == column_columns().len()
            &&& stmt is ShowIndexes ==> d.desc is Some && d.desc->0.types.len()
                == index_columns().len() && d.desc->0.types.len() == filtered_index_columns().len()
        },
{
    gaps_are_blank();
    laid_out_queries_select_their_columns();
}

/// Without a filter, the condition for schemas with `EXTENDED` holds of a row
/// just where the one without it holds or the schema is one of the ambient
/// database. The two queries differ in their condition alone, and where the
/// database is not found both end with the same error.
pub proof fn extended_adds_the_ambient_schemas(
    catalog: CatalogModel,
    pcx: PlanContext,
    types: Map<usize, ScalarType>,
    full: bool,
    from: Option<ObjectName>,
    database: Seq<char>,
    replies: Replies,
    truth: spec_fn(Seq<char>) -> bool,
)
    ensures
        schemas_condition(false, database, None).holds(truth) <==> truth(of_database(database)),
        schemas_condition(true, database, None).holds(truth) <==> schemas_condition(
            false,
            database,
            None,
        ).holds(truth) || truth(of_ambient_database()),
        forall|extended: bool|
            #![trigger schemas_query(extended, full, database, None)]
            schemas_query(extended, full, database, None) == laid_out(
                shown_columns(ObjectType::Schema, false, full),
                " "@,
                "\n            "@,
                schemas_from(),
            ) + schemas_condition(extended, database, None).sql(),
        forall|extended: bool|
            #![trigger show_schemas(catalog, pcx, types, extended, full, from, None, replies)]
            show_schemas(catalog, pcx, types, extended, full, from, None, replies)
                == match shown_database(catalog, from) {
                Ok(found) => generated_select(
                    pcx,
                    types,
                    schemas_query(extended, full, found, None),
                    replies,
                ),
                Err(e) => failed(e),
            },
{
    reveal_with_fuel(Condition::holds, 3);
    assert forall|extended: bool|
        #![trigger schemas_query(extended, full, database, None)]
        schemas_query(extended, full, database, None) == laid_out(
            shown_columns(ObjectType::Schema, false, full),
            " "@,
            "\n            "@,
            schemas_from(),
        ) + schemas_condition(extended, database, None).sql() by {
        assert(schemas_query(extended, full, database, None) =~= laid_out(
            shown_columns(ObjectType::Schema, false, full),
            " "@,
            "\n            "@,
            schemas_from(),
        ) + schemas_condition(extended, database, None).sql());
    }
}

/// Where the filter is a pattern or there is none, the condition for sources
/// with `MATERIALIZED` holds of a row just where the one without it holds and
/// the source has an index. Either way it asks for sources of the schema, and
/// the rows are ordered by the names of the sources first.
pub proof fn materialized_keeps_the_indexed_sources(
    full: bool,
    id: i64,
    filter: Option<ShowStatementFilter>,
    truth: spec_fn(Seq<char>) -> bool,
)
    requires
        !(filter matches Some(ShowStatementFilter::Where(_))),
    ensures
        sources_condition(false, id, filter).holds(truth) <==> truth(in_schema(id)) && (
        filter_condition(filter, "sources"@) matches Some(like) ==> truth(like)),
        sources_condition(true, id, filter).holds(truth) <==> sources_condition(
            false,
            id,
            filter,
        ).holds(truth) && truth(is_indexed()),
        forall|materialized: bool|
            #![trigger sources_query(full, materialized, id, filter)]
            sources_query(full, materialized, id, filter) == laid_out(
                shown_columns(ObjectType::Source, materialized, full),
                " "@,
                if full || materialized {
                    "\n            "@
                } else {
                    " "@
                },
                sources_from(full || materialized),
            ) + sources_condition(materialized, id, filter).sql() + sources_order(
                full || materialized,
            ),
{
    reveal_with_fuel(Condition::holds, 3);
    assert forall|materialized: bool|
        #![trigger sources_query(full, materialized, id, filter)]
        sources_query(full, materialized, id, filter) == laid_out(
            shown_columns(ObjectType::Source, materialized, full),
            " "@,
            if full || materialized {
                "\n            "@
            } else {
                " "@
            },
            sources_from(full || materialized),
        ) + sources_condition(materialized, id, filter).sql() + sources_order(
            full || materialized,
        ) by {
        assert(sources_query(full, materialized, id, filter) =~= laid_out(
            shown_columns(ObjectType::Source, materialized, full),
            " "@,
            if full || materialized {
                "\n            "@
            } else {
                " "@
            },
            sources_from(full || materialized),
        ) + sources_condition(materialized, id, filter).sql() + sources_order(
            full || materialized,
        ));
    }
}

// Parameters.

proof fn numbered_types_are_as_many(types: Seq<ScalarType>)
    requires
        types.len() <= usize::MAX,
    ensures
        numbered(types).dom().finite(),
        numbered(types).len() == types.len(),
    decreases types.len(),
{
    if types.len() == 0 {
        assert(numbered(types).dom() =~= Set::<usize>::empty());
    } else {
        let n = types.len() as usize;
        numbered_types_are_as_many(types.drop_last());
        assert(numbered(types).dom() =~= numbered(types.drop_last()).dom().insert(n));
    }
}

/// Types that are numbered come back, in their order, when they are finalized.
pub proof fn numbered_types_come_back(types: Seq<ScalarType>)
    requires
        types.len() <= usize::MAX,
    ensures
        finalized(numbered(types)) == Ok::<Seq<ScalarType>, ErrorView>(types),
{
    numbered_types_are_as_many(types);
    let map = numbered(types);
    assert(numbered_from_one(map));
    assert(Seq::new(map.len(), |i: int| map[(i + 1) as usize]) =~= types);
}

/// Where parameters are finalized, every one of them has a type, in the place of its number.
pub proof fn finalized_types_are_those_known(types: Map<usize, ScalarType>, n: usize)
    requires
        finalized(types) is Ok,
    ensures
        types.contains_key(n) <==> 1 <= n <= finalized(types)->Ok_0.len(),
        types.contains_key(n) ==> finalized(types)->Ok_0[n - 1] == types[n],
{
}

// Names.

/// A name that is full already stays as it is when it is allocated.
pub proof fn full_names_stay(catalog: CatalogModel, name: FullNameView)
    requires
        name.database is Some,
    ensures
        allocated_name(catalog, name.partial()) == name,
{
}

/// A name that is allocated is in a database that has a name; a temporary one is not.
pub proof fn only_temporary_names_are_ambient(catalog: CatalogModel, name: PartialNameView)
    ensures
        allocated_name(catalog, name).database is Some,
        temporary_name(name).database is None,
        allocated_name(catalog, name).item == name.item,
        temporary_name(name).item == name.item,
{
}

// New objects.

/// Whether a new object of this name stands where a statement puts it: in the
/// database and the schema that the statement names, and by default in the
/// default database and in the schema `public`.
pub open spec fn is_placed(catalog: CatalogModel, name: FullNameView, stated: ObjectName) -> bool {
    let parts = stated.0@;
    let n = parts.len() as int;
    &&& 1 <= n <= 3
    &&& name.item == parts[n - 1].value@
    &&& n == 1 ==> name.schema == "public"@
    &&& n >= 2 ==> name.schema == parts[n - 2].value@
    &&& n <= 2 ==> name.database == Some(catalog.default_database)
    &&& n == 3 ==> name.database == Some(parts[0].value@)
}

/// Whether a switch that is off by default is set like this among options.
pub open spec fn says_switch(options: Map<Seq<char>, ValueView>, name: Seq<char>, on: bool) -> bool {
    if options.contains_key(name) {
        options[name] == ValueView::Boolean(on)
    } else {
        !on
    }
}

/// Whether a text that may be left out is given like this among options.
pub open spec fn says_text(
    options: Map<Seq<char>, ValueView>,
    name: Seq<char>,
    text: Option<Seq<char>>,
) -> bool {
    match text {
        Some(text) => options.contains_key(name) && options[name] == ValueView::String(text),
        None => !options.contains_key(name),
    }
}

// Sources.

/// A connector of a source is of the kind that the statement says.
pub open spec fn same_kind(connector: ConnectorView, given: Connector) -> bool {
    match connector {
        ConnectorView::Kafka { .. } => given is Kafka,
        ConnectorView::Kinesis { .. } => given is Kinesis,
        ConnectorView::File { .. } => given is File,
        ConnectorView::AvroOcf { .. } => given is AvroOcf,
    }
}

/// The parts of a planned source fit together: the connector is of the kind
/// that the statement says; Avro container files are encoded as such and
/// nothing else is; an offset to start from, and persistence, go with real time
/// only.
pub proof fn source_connectors_fit(
    catalog: CatalogModel,
    stmt: CreateSourceStatement,
    replies: Replies,
)
    requires
        is_pure(stmt),
    ensures
        create_source(catalog, stmt, replies) matches StepView::Done(Ok(plan)) ==> {
            let source = plan->CreateSource_source;
            &&& plan is CreateSource
            &&& same_kind(source.connector, stmt.connector)
            &&& source.connector is AvroOcf <==> source.encoding is AvroOcf
            &&& source.connector is Kinesis ==> source.consistency is RealTime
            &&& source.connector matches ConnectorView::Kafka {
                start_offsets,
                enable_persistence,
                ..
            } ==> (start_offsets[0].1 > 0 || enable_persistence ==> source.consistency is RealTime)
                && start_offsets[0].1 >= 0
        },
{
}

/// Upsert sources are Kafka sources of Avro, bytes or text. Neither their
/// records nor their keys keep a key schema, and where records are not Avro
/// neither are keys.
pub proof fn upsert_sources_fit(
    catalog: CatalogModel,
    stmt: CreateSourceStatement,
    replies: Replies,
)
    requires
        is_pure(stmt),
    ensures
        create_source(catalog, stmt, replies) matches StepView::Done(Ok(plan)) ==> {
            let source = plan->CreateSource_source;
            source.envelope matches EnvelopeView::Upsert(key) ==> {
                &&& source.connector is Kafka
                &&& source.encoding is Avro || source.encoding is Bytes || source.encoding is Text
                &&& key is Avro || key is Bytes || key is Text
                &&& source.encoding matches EncodingView::Avro { key_schema, .. } ==> key_schema
                    is None
                &&& key matches EncodingView::Avro { key_schema, .. } ==> key_schema is None
                &&& source.encoding !is Avro ==> key !is Avro
            }
        },
{
}

/// The `MATERIALIZE` envelope takes experimental mode and Avro, but no Avro container file.
pub proof fn materialize_envelopes_fit(
    catalog: CatalogModel,
    stmt: CreateSourceStatement,
    replies: Replies,
)
    requires
        is_pure(stmt),
    ensures
        create_source(catalog, stmt, replies) matches StepView::Done(Ok(plan)) ==> (
        plan->CreateSource_source.envelope is CdcV2 ==> catalog.experimental
            && plan->CreateSource_source.encoding is Avro
            && plan->CreateSource_source.connector !is AvroOcf),
{
}

proof fn added_columns_come_last(desc: RelationView, columns: Seq<(String, ColumnType)>)
    ensures
        with_columns(desc, columns).types.len() == desc.types.len() + columns.len(),
        with_columns(desc, columns).names.len() == desc.names.len() + columns.len(),
        with_columns(desc, columns).names.take(desc.names.len() as int) == desc.names,
        with_columns(desc, columns).keys == desc.keys,
    decreases columns.len(),
{
    if columns.len() > 0 {
        added_columns_come_last(desc, columns.drop_last());
        let before = with_columns(desc, columns.drop_last());
        let n = desc.names.len() as int;
        assert(with_columns(desc, columns).names.take(n) =~= before.names.take(n));
    } else {
        assert(desc.names.take(desc.names.len() as int) =~= desc.names);
    }
}

/// Names that a statement gives to the columns of a source are the names of
/// its first columns; those that the connector adds come after them.
pub proof fn source_columns_are_named(
    catalog: CatalogModel,
    stmt: CreateSourceStatement,
    replies: Replies,
)
    requires
        is_pure(stmt),
        stmt.col_names@.len() > 0,
    ensures
        create_source(catalog, stmt, replies) matches StepView::Done(Ok(plan)) ==> {
            let names = plan->CreateSource_source.desc.names;
            &&& plan is CreateSource
            &&& names.len() >= stmt.col_names@.len()
            &&& names.take(stmt.col_names@.len() as int) == column_names(
                stmt.col_names@,
            )
        },
{
    if let Some(Ok(given)) = replies.source_desc {
        let given = given@;
        let n = stmt.col_names@.len() as int;
        let names = column_names(stmt.col_names@);
        if let Some(columns) = replies.metadata_columns {
            added_columns_come_last(given.with_names(names), columns@);
            added_columns_come_last(given.without_keys().with_names(names), columns@);
        }
        assert(names.take(n) =~= names);
    }
}

// Sinks.

/// The topic of a sink has at least one copy, and goes with a schema of
/// transactions exactly where consistency is switched on.
pub proof fn sink_topics_fit(catalog: CatalogModel, stmt: CreateSinkStatement, replies: Replies)
    ensures
        create_sink(catalog, stmt, replies) matches StepView::Done(Ok(plan)) ==> plan is CreateSink
            && (plan->CreateSink_connector_builder matches SinkBuilderView::Kafka {
            replication_factor,
            consistency_value_schema,
            ..
        } ==> replication_factor >= 1 && (consistency_value_schema is Some <==> switch(
            settings(stmt.with_options@),
            "consistency"@,
            "consistency must be a boolean"@,
        ) == Ok::<bool, ErrorView>(true))),
{
}

// Tables.

proof fn column_types_are_as_many(columns: Seq<ColumnDef>, n: nat, replies: Replies)
    ensures
        column_types(columns, n, replies) matches Ok(types) ==> types.len() == n,
    decreases n,
{
    if n > 0 {
        column_types_are_as_many(columns, (n - 1) as nat, replies);
    }
}

/// A planned table has a name and a type for every column, no name twice, and no keys.
pub proof fn tables_are_sound(catalog: CatalogModel, stmt: CreateTableStatement, replies: Replies)
    ensures
        create_table(catalog, stmt, replies) matches StepView::Done(Ok(plan)) ==> {
            let desc = plan->CreateTable_desc;
            &&& plan is CreateTable
            &&& desc.wf()
            &&& desc.names.len() == stmt.columns@.len()
            &&& forall|i: int, j: int|
                0 <= i < j < desc.names.len() ==> #[trigger] desc.names[i]
                    != #[trigger] desc.names[j]
        },
{
    let columns = stmt.columns@;
    column_types_are_as_many(columns, columns.len(), replies);
    columns_ask_for_news(columns, columns.len(), replies);
    if !has_duplicates(columns) {
        let names = names_of(columns);
        assert forall|i: int, j: int| 0 <= i < j < names.len() implies #[trigger] names[i]
            != #[trigger] names[j] by {
            assert(columns[i].name.value@ != columns[j].name.value@);
        }
    }
}

// Views.

/// A view replaces nothing but a view that is not the system's and that only
/// indexes depend on.
pub proof fn replaced_views_may_be_dropped(
    catalog: CatalogModel,
    pcx: PlanContext,
    param_types: Map<usize, ScalarType>,
    stmt: CreateViewStatement,
    params: ParamsView,
    replies: Replies,
)
    ensures
        create_view(catalog, pcx, param_types, stmt, params, replies) matches StepView::Done(
            Ok(plan),
        ) ==> plan is CreateView && (plan->CreateView_replace matches Some(id) ==> {
            let name = plan->CreateView_name;
            &&& stmt.if_exists == IfExistsBehavior::Replace
            &&& catalog.items[name].id == id
            &&& catalog.items[name].item_type == CatalogItemType::View
            &&& may_be_dropped(catalog, ObjectType::View, name, false)
        }),
{
    if let Ok(name) = view_name(catalog, stmt) {
        items_are_dropped_where_they_may_be(
            catalog,
            ObjectType::View,
            name,
            false,
        );
    }
}

// Queries.

/// Where a view is explained its finishing is part of it, so there is none apart from it.
pub proof fn explained_views_have_no_finishing(
    catalog: CatalogModel,
    pcx: PlanContext,
    param_types: Map<usize, ScalarType>,
    stmt: ExplainStatement,
    params: ParamsView,
    replies: Replies,
)
    requires
        stmt.explainee is View,
    ensures
        explain(catalog, pcx, param_types, stmt, params, replies) matches StepView::Done(Ok(plan))
            ==> plan is ExplainPlan && plan->ExplainPlan_row_set_finishing is None,
{
}

/// A statement that stands for a query is planned as that query would be: as
/// of now, and without parameters.
pub proof fn generated_queries_are_queries(
    catalog: CatalogModel,
    pcx: PlanContext,
    sql: Seq<char>,
    stmt: SelectStatement,
    replies: Replies,
)
    requires
        stmt.as_of is None,
        replies.parsed_select == Some(Ok::<Query, PlanError>(stmt.query)),
    ensures
        generated_select(pcx, numbered(Seq::empty()), sql, replies) == plan_of(
            catalog,
            pcx,
            Statement::Select(stmt),
            ParamsView::empty(),
            replies,
        ),
{
}

} // verus!
