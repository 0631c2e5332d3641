//! What holds of answers that are errors, and of planning by the kind of statement.
use vstd::prelude::*;
use vstd::string::*;

use crate::alter::{alter_index_options, alter_object_rename};
use crate::ast::{ColumnDef, CreateSourceStatement, Envelope, Format, Statement};
use crate::catalog::{CatalogModel, PlanContext};
use crate::database::create_schema;
use crate::dataflow::{ConnectorView, EncodingView, EnvelopeView};
use crate::describe::description;
use crate::drop::{drop_database, drop_objects};
use crate::engine::{ParamsView, QuestionView, Replies, Role, StepView};
use crate::error::{ErrorView, PlanError};
use crate::index::create_index;
use crate::laws::same_so_far;
use crate::plan::PlanView;
use crate::query::{explain, generated_select, insert, select, tail};
use crate::relation::ScalarType;
use crate::show::{show_columns, show_databases, show_indexes, show_objects};
use crate::sink::create_sink;
use crate::source::{
    create_source, encoding_of, envelope_of, format_is_pure, ingest_of, is_pure, source_desc,
    value_encoding,
};
use crate::statement::{is_sound, numbered, plan_of};
use crate::table::{column_types, create_table};
use crate::value::{settings, ValueView};
use crate::variable::{set_variable, show_variable};
use crate::view::create_view;

verus! {

// Refused questions.

/// The error of an answer, if it is one.
pub open spec fn error_of<T>(answer: Option<Result<T, PlanError>>) -> Option<ErrorView> {
    match answer {
        Some(Err(e)) => Some(e@),
        _ => None,
    }
}

/// The error that a question was answered with, if it was.
pub open spec fn refused(question: QuestionView, replies: Replies) -> Option<ErrorView> {
    match question {
        QuestionView::CreateSql => error_of(replies.create_sql),
        QuestionView::CreateIndexSql { .. } => error_of(replies.create_sql),
        QuestionView::ParseSelect { .. } => error_of(replies.parsed_select),
        QuestionView::PlanQuery { .. } => error_of(replies.planned),
        QuestionView::PlanInsert { .. } => error_of(replies.inserted),
        QuestionView::PlanIndexKeys { .. } => error_of(replies.index_keys),
        QuestionView::Bind { .. } => error_of(replies.bound),
        QuestionView::EvalAsOf { .. } => error_of(replies.as_of),
        QuestionView::ColumnType { column, .. } => if column < replies.column_types@.len() {
            error_of(Some(replies.column_types@[column as int]))
        } else {
            None
        },
        QuestionView::KafkaAddrs { .. } => error_of(replies.kafka_addrs),
        QuestionView::KafkaConfig { .. } => error_of(replies.kafka_config),
        QuestionView::Registry { role: Role::Value, .. } => error_of(replies.value_registry),
        QuestionView::Registry { role: Role::Key, .. } => error_of(replies.key_registry),
        QuestionView::Descriptors { role: Role::Value, .. } => error_of(replies.value_descriptors),
        QuestionView::Descriptors { role: Role::Key, .. } => error_of(replies.key_descriptors),
        QuestionView::SourceDesc { .. } => error_of(replies.source_desc),
        _ => None,
    }
}

/// Whether planning ends with the error where the question that it asked was
/// answered with one.
pub open spec fn ends_refused<T>(asked: StepView<T>, later: StepView<T>, replies: Replies) -> bool {
    asked matches StepView::Ask(question) ==> (refused(question, replies) matches Some(e) ==> later
        == StepView::<T>::Done(Err(e)))
}

/// The same of a part of planning.
pub open spec fn part_ends_refused<V, T>(
    asked: Result<V, StepView<T>>,
    later: Result<V, StepView<T>>,
    replies: Replies,
) -> bool {
    asked matches Err(StepView::Ask(question)) ==> (refused(question, replies) matches Some(e)
        ==> later == Err::<V, StepView<T>>(StepView::Done(Err(e))))
}

proof fn refusals_end_encodings(
    role: Role,
    format: Option<Format>,
    options: Map<Seq<char>, ValueView>,
    named: nat,
    a: Replies,
    b: Replies,
)
    requires
        b.extends(a),
        format matches Some(f) ==> format_is_pure(f),
    ensures
        part_ends_refused(
            encoding_of(role, format, options, named, a),
            encoding_of(role, format, options, named, b),
            b,
        ),
        same_so_far(
            encoding_of(role, format, options, named, a),
            encoding_of(role, format, options, named, b),
        ),
{
}

proof fn refusals_end_ingests(stmt: CreateSourceStatement, a: Replies, b: Replies)
    requires
        b.extends(a),
        is_pure(stmt),
    ensures
        part_ends_refused(ingest_of(stmt, a), ingest_of(stmt, b), b),
        same_so_far(ingest_of(stmt, a), ingest_of(stmt, b)),
{
    let options = settings(stmt.with_options@);
    let named = stmt.col_names@.len();
    if !(stmt.connector is AvroOcf) {
        refusals_end_encodings(Role::Value, stmt.format, options, named, a, b);
    }
}

proof fn refusals_end_envelopes(
    catalog: CatalogModel,
    stmt: CreateSourceStatement,
    encoding: EncodingView,
    a: Replies,
    b: Replies,
)
    requires
        b.extends(a),
        is_pure(stmt),
    ensures
        part_ends_refused(
            envelope_of(catalog, stmt, encoding, a),
            envelope_of(catalog, stmt, encoding, b),
            b,
        ),
        same_so_far(
            envelope_of(catalog, stmt, encoding, a),
            envelope_of(catalog, stmt, encoding, b),
        ),
{
    if let Envelope::Upsert(key_format) = stmt.envelope {
        let options = settings(stmt.with_options@);
        let named = stmt.col_names@.len();
        if stmt.connector is Kafka && key_format is Some {
            refusals_end_encodings(Role::Key, key_format, options, named, a, b);
        }
    }
}

proof fn refusals_end_source_descs(
    stmt: CreateSourceStatement,
    connector: ConnectorView,
    encoding: EncodingView,
    envelope: EnvelopeView,
    a: Replies,
    b: Replies,
)
    requires
        b.extends(a),
    ensures
        part_ends_refused(
            source_desc(stmt, connector, encoding, envelope, a),
            source_desc(stmt, connector, encoding, envelope, b),
            b,
        ),
        same_so_far(
            source_desc(stmt, connector, encoding, envelope, a),
            source_desc(stmt, connector, encoding, envelope, b),
        ),
{
}

proof fn refusals_end_sources(
    catalog: CatalogModel,
    stmt: CreateSourceStatement,
    a: Replies,
    b: Replies,
)
    requires
        b.extends(a),
        is_pure(stmt),
    ensures
        ends_refused(create_source(catalog, stmt, a), create_source(catalog, stmt, b), b),
{
    refusals_end_ingests(stmt, a, b);
    if let Ok(ingest) = ingest_of(stmt, a) {
        refusals_end_envelopes(catalog, stmt, ingest.encoding, a, b);
        if let Ok(envelope) = envelope_of(catalog, stmt, ingest.encoding, a) {
            if let Ok(encoding) = value_encoding(ingest.encoding, envelope) {
                refusals_end_source_descs(stmt, ingest.connector, encoding, envelope, a, b);
            }
        }
    }
}

proof fn refusals_end_columns(columns: Seq<ColumnDef>, n: nat, a: Replies, b: Replies)
    requires
        b.extends(a),
    ensures
        part_ends_refused(column_types(columns, n, a), column_types(columns, n, b), b),
        same_so_far(column_types(columns, n, a), column_types(columns, n, b)),
        column_types(columns, n, a) matches Err(step) ==> !(step matches StepView::Done(Ok(_))),
    decreases n,
{
    if n > 0 {
        refusals_end_columns(columns, (n - 1) as nat, a, b);
    }
}

proof fn refusals_end_creations(
    catalog: CatalogModel,
    pcx: PlanContext,
    types: Map<usize, ScalarType>,
    stmt: Statement,
    params: ParamsView,
    a: Replies,
    b: Replies,
)
    requires
        is_sound(catalog, stmt, a),
        b.extends(a),
    ensures
        match stmt {
            Statement::CreateIndex(s) => ends_refused(
                create_index(catalog, s, a),
                create_index(catalog, s, b),
                b,
            ),
            Statement::CreateSink(s) => ends_refused(
                create_sink(catalog, s, a),
                create_sink(catalog, s, b),
                b,
            ),
            Statement::CreateSource(s) => ends_refused(
                create_source(catalog, s, a),
                create_source(catalog, s, b),
                b,
            ),
            Statement::CreateTable(s) => ends_refused(
                create_table(catalog, s, a),
                create_table(catalog, s, b),
                b,
            ),
            Statement::CreateView(s) => ends_refused(
                create_view(catalog, pcx, types, s, params, a),
                create_view(catalog, pcx, types, s, params, b),
                b,
            ),
            _ => true,
        },
{
    match stmt {
        Statement::CreateSource(s) => {
            refusals_end_sources(catalog, s, a, b);
        },
        Statement::CreateTable(s) => {
            refusals_end_columns(s.columns@, s.columns@.len(), a, b);
        },
        _ => {},
    }
}

proof fn refusals_end_generated_queries(
    pcx: PlanContext,
    types: Map<usize, ScalarType>,
    sql: Seq<char>,
    a: Replies,
    b: Replies,
)
    requires
        b.extends(a),
    ensures
        ends_refused(generated_select(pcx, types, sql, a), generated_select(pcx, types, sql, b), b),
{
}

proof fn refusals_end_showing(
    catalog: CatalogModel,
    pcx: PlanContext,
    types: Map<usize, ScalarType>,
    stmt: Statement,
    a: Replies,
    b: Replies,
)
    requires
        is_sound(catalog, stmt, a),
        b.extends(a),
    ensures
        match stmt {
            Statement::ShowColumns(s) => ends_refused(
                show_columns(catalog, pcx, types, s, a),
                show_columns(catalog, pcx, types, s, b),
                b,
            ),
            Statement::ShowDatabases(s) => ends_refused(
                show_databases(pcx, types, s, a),
                show_databases(pcx, types, s, b),
                b,
            ),
            Statement::ShowIndexes(s) => ends_refused(
                show_indexes(catalog, pcx, types, s, a),
                show_indexes(catalog, pcx, types, s, b),
                b,
            ),
            Statement::ShowObjects(s) => ends_refused(
                show_objects(catalog, pcx, types, s, a),
                show_objects(catalog, pcx, types, s, b),
                b,
            ),
            _ => true,
        },
{
    assert forall|sql: Seq<char>| ends_refused(
        #[trigger] generated_select(pcx, types, sql, a),
        generated_select(pcx, types, sql, b),
        b,
    ) by {
        refusals_end_generated_queries(pcx, types, sql, a, b);
    }
}

proof fn refusals_end_queries(
    catalog: CatalogModel,
    pcx: PlanContext,
    types: Map<usize, ScalarType>,
    stmt: Statement,
    params: ParamsView,
    a: Replies,
    b: Replies,
)
    requires
        b.extends(a),
    ensures
        match stmt {
            Statement::Explain(s) => ends_refused(
                explain(catalog, pcx, types, s, params, a),
                explain(catalog, pcx, types, s, params, b),
                b,
            ),
            Statement::Select(s) => ends_refused(
                select(pcx, types, s.query.sql@, s.as_of, params, a),
                select(pcx, types, s.query.sql@, s.as_of, params, b),
                b,
            ),
            Statement::Tail(s) => ends_refused(tail(catalog, s, a), tail(catalog, s, b), b),
            Statement::Insert(s) => ends_refused(
                insert(pcx, types, s, params, a),
                insert(pcx, types, s, params, b),
                b,
            ),
            _ => true,
        },
{
}

/// Where a question that planning asked is answered with an error, planning ends
/// with that error, whatever other answers come with it.
pub proof fn refused_questions_end_planning(
    catalog: CatalogModel,
    pcx: PlanContext,
    stmt: Statement,
    params: ParamsView,
    replies: Replies,
    later: Replies,
)
    requires
        is_sound(catalog, stmt, replies),
        later.extends(replies),
        plan_of(catalog, pcx, stmt, params, replies) is Ask,
        refused(plan_of(catalog, pcx, stmt, params, replies)->Ask_0, later) is Some,
    ensures
        plan_of(catalog, pcx, stmt, params, later) == StepView::<PlanView>::Done(
            Err(refused(plan_of(catalog, pcx, stmt, params, replies)->Ask_0, later)->0),
        ),
{
    let types = numbered(params.types);
    refusals_end_creations(catalog, pcx, types, stmt, params, replies, later);
    refusals_end_showing(catalog, pcx, types, stmt, replies, later);
    refusals_end_queries(catalog, pcx, types, stmt, params, replies, later);
}

/// Where a question that describing asked is answered with an error, describing
/// ends with that error.
pub proof fn refused_questions_end_describing(
    catalog: CatalogModel,
    stmt: Statement,
    param_types: Map<usize, ScalarType>,
    replies: Replies,
    later: Replies,
)
    requires
        later.extends(replies),
    ensures
        ends_refused(
            description(catalog, stmt, param_types, replies),
            description(catalog, stmt, param_types, later),
            later,
        ),
{
}

// Kinds of statements.

/// Whether these are the types of parameters by their numbers, counted from one.
pub open spec fn are_by_number(types: Map<usize, ScalarType>, params: ParamsView) -> bool {
    &&& forall|n: usize| #[trigger] types.contains_key(n) <==> 1 <= n <= params.types.len()
    &&& forall|n: usize| #[trigger] types.contains_key(n) ==> types[n] == params.types[n - 1]
}

/// Every statement that asks for rows or creates something is planned for what it
/// is, in the circumstances and with the parameters that are given.
pub proof fn statements_are_planned_by_kind(
    catalog: CatalogModel,
    pcx: PlanContext,
    stmt: Statement,
    params: ParamsView,
    types: Map<usize, ScalarType>,
    replies: Replies,
)
    requires
        are_by_number(types, params),
    ensures
        plan_of(catalog, pcx, stmt, params, replies) == match stmt {
            Statement::CreateIndex(stmt) => create_index(catalog, stmt, replies),
            Statement::CreateSink(stmt) => create_sink(catalog, stmt, replies),
            Statement::CreateSource(stmt) => create_source(catalog, stmt, replies),
            Statement::CreateTable(stmt) => create_table(catalog, stmt, replies),
            Statement::CreateView(stmt) => create_view(catalog, pcx, types, stmt, params, replies),
            Statement::ShowColumns(stmt) => show_columns(catalog, pcx, types, stmt, replies),
            Statement::ShowDatabases(stmt) => show_databases(pcx, types, stmt, replies),
            Statement::ShowIndexes(stmt) => show_indexes(catalog, pcx, types, stmt, replies),
            Statement::ShowObjects(stmt) => show_objects(catalog, pcx, types, stmt, replies),
            Statement::Explain(stmt) => explain(catalog, pcx, types, stmt, params, replies),
            Statement::Select(stmt) => select(
                pcx,
                types,
                stmt.query.sql@,
                stmt.as_of,
                params,
                replies,
            ),
            Statement::Tail(stmt) => tail(catalog, stmt, replies),
            Statement::Insert(stmt) => insert(pcx, types, stmt, params, replies),
            Statement::CreateSchema(stmt) => StepView::Done(create_schema(catalog, stmt)),
            Statement::DropDatabase(stmt) => StepView::Done(drop_database(catalog, stmt)),
            Statement::DropObjects(stmt) => StepView::Done(drop_objects(catalog, stmt)),
            Statement::AlterObjectRename(stmt) => StepView::Done(
                alter_object_rename(catalog, stmt),
            ),
            Statement::AlterIndexOptions(stmt) => StepView::Done(
                alter_index_options(catalog, stmt),
            ),
            Statement::SetVariable(stmt) => StepView::Done(set_variable(stmt)),
            Statement::ShowVariable(stmt) => StepView::Done(Ok(show_variable(stmt))),
            _ => plan_of(catalog, pcx, stmt, params, replies),
        },
{
    assert(types =~= numbered(params.types));
}

} // verus!
