//! Plans: what to do for a statement.
use vstd::prelude::*;
use vstd::string::*;

use crate::ast::{ExplainOptions, ExplainStage, ObjectType};
use crate::catalog::GlobalId;
use crate::dataflow::{SinkBuilderView, SinkConnectorBuilder, Source, SourceView};
use crate::engine::{HirExpr, RelationExpr, RowSetFinishing, ScalarExpr};
use crate::external::Duration;
use crate::names::{DatabaseSpecifier, FullName, FullNameView};
use crate::relation::{name_list, RelationDesc, RelationView};
use crate::text::texts;

verus! {

/// A row of texts.
#[derive(Debug)]
pub struct Row {
    pub values: Vec<String>,
}

/// The contents of a list of rows.
pub open spec fn rows_view(rows: Seq<Row>) -> Seq<Seq<Seq<char>>> {
    rows.map_values(|r: Row| texts(r.values@))
}

/// When to look.
#[derive(Clone, Copy, PartialEq, Eq, Structural, Debug)]
pub enum PeekWhen {
    Immediately,
    AtTimestamp(u64),
}

/// How much of the past an index keeps.
#[derive(Clone, Copy, PartialEq, Eq, Structural, Debug)]
pub enum LogicalCompactionWindow {
    Off,
    Default,
    Custom(Duration),
}

/// A change of how much of the past an index keeps.
#[derive(Clone, Copy, PartialEq, Eq, Structural, Debug)]
pub struct AlterIndexLogicalCompactionWindow {
    pub index: GlobalId,
    pub logical_compaction_window: LogicalCompactionWindow,
}

/// A sink.
#[derive(Debug)]
pub struct Sink {
    pub create_sql: String,
    pub from: GlobalId,
    pub connector_builder: SinkConnectorBuilder,
}

/// A table.
#[derive(Debug)]
pub struct Table {
    pub create_sql: String,
    pub desc: RelationDesc,
}

/// A view.
#[derive(Debug)]
pub struct PlannedView {
    pub create_sql: String,
    pub expr: RelationExpr,
    pub column_names: Vec<Option<String>>,
    pub temporary: bool,
}

/// An index.
#[derive(Debug)]
pub struct Index {
    pub create_sql: String,
    pub on: GlobalId,
    pub keys: Vec<ScalarExpr>,
}

/// What to do for a statement.
#[derive(Debug)]
#[allow(inconsistent_fields)]
pub enum Plan {
    CreateDatabase { name: String, if_not_exists: bool },
    CreateSchema { database_name: DatabaseSpecifier, schema_name: String, if_not_exists: bool },
    CreateSource { name: FullName, source: Source, if_not_exists: bool, materialized: bool },
    CreateSink {
        name: FullName,
        sink: Sink,
        with_snapshot: bool,
        as_of: Option<u64>,
        if_not_exists: bool,
    },
    CreateTable { name: FullName, table: Table, if_not_exists: bool },
    CreateView {
        name: FullName,
        view: PlannedView,
        /// The item to drop first.
        replace: Option<GlobalId>,
        materialize: bool,
        if_not_exists: bool,
    },
    CreateIndex { name: FullName, index: Index, if_not_exists: bool },
    DropDatabase { name: String },
    DropSchema { database_name: DatabaseSpecifier, schema_name: String },
    DropItems { items: Vec<GlobalId>, ty: ObjectType },
    AlterItemRename { id: Option<GlobalId>, to_name: String, object_type: ObjectType },
    AlterIndexLogicalCompactionWindow(Option<AlterIndexLogicalCompactionWindow>),
    SetVariable { name: String, value: String },
    ShowAllVariables,
    ShowVariable(String),
    StartTransaction,
    CommitTransaction,
    AbortTransaction,
    Peek { source: RelationExpr, when: PeekWhen, finishing: RowSetFinishing, materialize: bool },
    Tail { id: GlobalId, ts: Option<u64>, with_snapshot: bool },
    SendRows(Vec<Row>),
    ExplainPlan {
        raw_plan: HirExpr,
        decorrelated_plan: RelationExpr,
        row_set_finishing: Option<RowSetFinishing>,
        stage: ExplainStage,
        options: ExplainOptions,
    },
    Insert { id: GlobalId, values: RelationExpr },
}

/// The contents of a [`Plan`].
#[verifier::ext_equal]
#[allow(inconsistent_fields)]
pub enum PlanView {
    CreateDatabase { name: Seq<char>, if_not_exists: bool },
    CreateSchema {
        database_name: Option<Seq<char>>,
        schema_name: Seq<char>,
        if_not_exists: bool,
    },
    CreateSource { name: FullNameView, source: SourceView, if_not_exists: bool, materialized: bool },
    CreateSink {
        name: FullNameView,
        create_sql: Seq<char>,
        from: GlobalId,
        connector_builder: SinkBuilderView,
        with_snapshot: bool,
        as_of: Option<u64>,
        if_not_exists: bool,
    },
    CreateTable {
        name: FullNameView,
        create_sql: Seq<char>,
        desc: RelationView,
        if_not_exists: bool,
    },
    CreateView {
        name: FullNameView,
        create_sql: Seq<char>,
        expr: RelationExpr,
        column_names: Seq<Option<Seq<char>>>,
        temporary: bool,
        replace: Option<GlobalId>,
        materialize: bool,
        if_not_exists: bool,
    },
    CreateIndex {
        name: FullNameView,
        create_sql: Seq<char>,
        on: GlobalId,
        keys: Seq<ScalarExpr>,
        if_not_exists: bool,
    },
    DropDatabase { name: Seq<char> },
    DropSchema { database_name: Option<Seq<char>>, schema_name: Seq<char> },
    DropItems { items: Seq<GlobalId>, ty: ObjectType },
    AlterItemRename { id: Option<GlobalId>, to_name: Seq<char>, object_type: ObjectType },
    AlterIndexLogicalCompactionWindow(Option<AlterIndexLogicalCompactionWindow>),
    SetVariable { name: Seq<char>, value: Seq<char> },
    ShowAllVariables,
    ShowVariable(Seq<char>),
    StartTransaction,
    CommitTransaction,
    AbortTransaction,
    Peek { source: RelationExpr, when: PeekWhen, finishing: RowSetFinishing, materialize: bool },
    Tail { id: GlobalId, ts: Option<u64>, with_snapshot: bool },
    SendRows(Seq<Seq<Seq<char>>>),
    ExplainPlan {
        raw_plan: HirExpr,
        decorrelated_plan: RelationExpr,
        row_set_finishing: Option<RowSetFinishing>,
        stage: ExplainStage,
        options: ExplainOptions,
    },
    Insert { id: GlobalId, values: RelationExpr },
}

impl View for Plan {
    type V = PlanView;

    open spec fn view(&self) -> PlanView {
        match self {
            Plan::CreateDatabase { name, if_not_exists } => PlanView::CreateDatabase {
                name: name@,
                if_not_exists: *if_not_exists,
            },
            Plan::CreateSchema { database_name, schema_name, if_not_exists } =>
                PlanView::CreateSchema {
                database_name: database_name@,
                schema_name: schema_name@,
                if_not_exists: *if_not_exists,
            },
            Plan::CreateSource { name, source, if_not_exists, materialized } =>
                PlanView::CreateSource {
                name: name@,
                source: source@,
                if_not_exists: *if_not_exists,
                materialized: *materialized,
            },
            Plan::CreateSink { name, sink, with_snapshot, as_of, if_not_exists } =>
                PlanView::CreateSink {
                name: name@,
                create_sql: sink.create_sql@,
                from: sink.from,
                connector_builder: sink.connector_builder@,
                with_snapshot: *with_snapshot,
                as_of: *as_of,
                if_not_exists: *if_not_exists,
            },
            Plan::CreateTable { name, table, if_not_exists } => PlanView::CreateTable {
                name: name@,
                create_sql: table.create_sql@,
                desc: table.desc@,
                if_not_exists: *if_not_exists,
            },
            Plan::CreateView { name, view, replace, materialize, if_not_exists } =>
                PlanView::CreateView {
                name: name@,
                create_sql: view.create_sql@,
                expr: view.expr,
                column_names: name_list(view.column_names@),
                temporary: view.temporary,
                replace: *replace,
                materialize: *materialize,
                if_not_exists: *if_not_exists,
            },
            Plan::CreateIndex { name, index, if_not_exists } => PlanView::CreateIndex {
                name: name@,
                create_sql: index.create_sql@,
                on: index.on,
                keys: index.keys@,
                if_not_exists: *if_not_exists,
            },
            Plan::DropDatabase { name } => PlanView::DropDatabase { name: name@ },
            Plan::DropSchema { database_name, schema_name } => PlanView::DropSchema {
                database_name: database_name@,
                schema_name: schema_name@,
            },
            Plan::DropItems { items, ty } => PlanView::DropItems { items: items@, ty: *ty },
            Plan::AlterItemRename { id, to_name, object_type } => PlanView::AlterItemRename {
                id: *id,
                to_name: to_name@,
                object_type: *object_type,
            },
            Plan::AlterIndexLogicalCompactionWindow(change) =>
                PlanView::AlterIndexLogicalCompactionWindow(*change),
            Plan::SetVariable { name, value } => PlanView::SetVariable {
                name: name@,
                value: value@,
            },
            Plan::ShowAllVariables => PlanView::ShowAllVariables,
            Plan::ShowVariable(name) => PlanView::ShowVariable(name@),
            Plan::StartTransaction => PlanView::StartTransaction,
            Plan::CommitTransaction => PlanView::CommitTransaction,
            Plan::AbortTransaction => PlanView::AbortTransaction,
            Plan::Peek { source, when, finishing, materialize } => PlanView::Peek {
                source: *source,
                when: *when,
                finishing: *finishing,
                materialize: *materialize,
            },
            Plan::Tail { id, ts, with_snapshot } => PlanView::Tail {
                id: *id,
                ts: *ts,
                with_snapshot: *with_snapshot,
            },
            Plan::SendRows(rows) => PlanView::SendRows(rows_view(rows@)),
            Plan::ExplainPlan {
                raw_plan,
                decorrelated_plan,
                row_set_finishing,
                stage,
                options,
            } => PlanView::ExplainPlan {
                raw_plan: *raw_plan,
                decorrelated_plan: *decorrelated_plan,
                row_set_finishing: *row_set_finishing,
                stage: *stage,
                options: *options,
            },
            Plan::Insert { id, values } => PlanView::Insert { id: *id, values: *values },
        }
    }
}

} // verus!
