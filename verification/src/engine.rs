//! What planning asks of the query engine and of the world, and what it is told.
//!
//! Planning a statement takes answers that only others have: the parser, the
//! query engine, the clients of Kafka and of schema registries, the file
//! system. A planner is therefore called with the replies that are known so
//! far. It either ends, or asks the next question. Whoever drives it puts the
//! answer into the place in [`Replies`] that the question is for, and calls
//! the planner again with the same statement.
use std::collections::BTreeMap;

use vstd::prelude::*;
use vstd::string::*;

use crate::ast::{key_parts_view, Expr, KeyPart, KeyPartView, Query};
use crate::catalog::{GlobalId, PlanContext};
use crate::dataflow::{
    text_pairs, CcsrConfig, ConnectorView, DataEncoding, EncodingView, EnvelopeView, ExternalSourceConnector,
    KafkaAddrs, SourceEnvelope,
};
use crate::error::{ErrorView, PlanError};
use crate::names::{Ident, ObjectName};
use crate::relation::{ColumnType, RelationDesc, RelationView, ScalarType};
use crate::value::{settings, SqlOption, ValueView};

verus! {

/// A relational expression with subqueries, which only the query engine looks into.
#[derive(Clone, Copy, PartialEq, Eq, Structural, Debug)]
pub struct HirExpr {
    pub id: u64,
}

/// A relational expression without subqueries, which only the query engine looks into.
#[derive(Clone, Copy, PartialEq, Eq, Structural, Debug)]
pub struct RelationExpr {
    pub id: u64,
}

/// The order, limit and projection of a query, which only the query engine looks into.
#[derive(Clone, Copy, PartialEq, Eq, Structural, Debug)]
pub struct RowSetFinishing {
    pub id: u64,
}

/// A value of a parameter, which only the query engine looks into.
#[derive(Clone, Copy, PartialEq, Eq, Structural, Debug)]
pub struct Datum {
    pub id: u64,
}

/// A scalar expression: a column, or another one that only the query engine looks into.
#[derive(Clone, Copy, PartialEq, Eq, Structural, Debug)]
pub enum ScalarExpr {
    Column(usize),
    Other(u64),
}

/// The values of the parameters of a statement, and their types.
#[derive(Debug)]
pub struct Params {
    pub datums: Vec<Datum>,
    pub types: Vec<ScalarType>,
}

/// The contents of [`Params`].
#[verifier::ext_equal]
pub struct ParamsView {
    pub datums: Seq<Datum>,
    pub types: Seq<ScalarType>,
}

impl View for Params {
    type V = ParamsView;

    open spec fn view(&self) -> ParamsView {
        ParamsView { datums: self.datums@, types: self.types@ }
    }
}

impl ParamsView {
    /// No parameters.
    pub open spec fn empty() -> ParamsView {
        ParamsView { datums: Seq::empty(), types: Seq::empty() }
    }
}

impl Clone for Params {
    fn clone(&self) -> (copy: Params)
        ensures
            copy@ == self@,
    {
        let datums = self.datums.clone();
        let types = self.types.clone();
        assert(datums@ =~= self.datums@);
        assert(types@ =~= self.types@);
        Params { datums, types }
    }
}

impl Params {
    /// No parameters.
    pub fn empty() -> (params: Params)
        ensures
            params@ == ParamsView::empty(),
    {
        let params = Params { datums: Vec::new(), types: Vec::new() };
        assert(params@ =~= ParamsView::empty());
        params
    }
}

/// How long the plan of a query is in use.
#[derive(Clone, Copy, PartialEq, Eq, Structural, Debug)]
pub enum QueryLifetime {
    /// Once.
    OneShot,
    /// For good, as part of the catalog.
    Static,
}

/// A planned query.
#[derive(Debug)]
pub struct PlannedQuery {
    pub expr: HirExpr,
    pub desc: RelationDesc,
    pub finishing: RowSetFinishing,
    /// The types of the parameters, as far as planning has found them.
    pub param_types: BTreeMap<usize, ScalarType>,
}

/// A planned insertion.
#[derive(Debug)]
pub struct PlannedInsert {
    /// The table to insert into.
    pub id: GlobalId,
    pub expr: HirExpr,
    /// The types of the parameters, as far as planning has found them.
    pub param_types: BTreeMap<usize, ScalarType>,
}

/// Which of the two encodings of a source is meant.
#[derive(Clone, Copy, PartialEq, Eq, Structural, Debug)]
pub enum Role {
    /// That of the records: the format of the source.
    Value,
    /// That of the keys: the format of the upsert envelope.
    Key,
}

/// A question. The statement is the one being planned.
#[derive(Debug)]
#[allow(inconsistent_fields)]
pub enum Question {
    /// The statement in a form that can be stored, with every name in full.
    CreateSql,
    /// The same for a statement that creates an index, with this name and this key put into it.
    CreateIndexSql { name: String, key_parts: Vec<KeyPart> },
    /// The query of this text, which is a single `SELECT`.
    ParseSelect { sql: String },
    /// The query of the view that the last statement of this text creates.
    ParseView { sql: String },
    /// The plan of a query.
    PlanQuery {
        query: Query,
        lifetime: QueryLifetime,
        pcx: PlanContext,
        param_types: BTreeMap<usize, ScalarType>,
    },
    /// The plan of an insertion.
    PlanInsert {
        table_name: ObjectName,
        columns: Vec<Ident>,
        source: String,
        pcx: PlanContext,
        param_types: BTreeMap<usize, ScalarType>,
    },
    /// The key expressions of an index on a relation of this shape.
    PlanIndexKeys { desc: RelationDesc, key_parts: Vec<KeyPart> },
    /// An expression with parameters filled in.
    Bind { expr: HirExpr, params: Params },
    /// An expression with the finishing made part of it.
    Finish { expr: HirExpr, finishing: RowSetFinishing },
    /// Whether the finishing leaves a relation of this many columns as it is.
    IsTrivial { finishing: RowSetFinishing, arity: usize },
    /// An expression without subqueries that means the same.
    Decorrelate { expr: HirExpr },
    /// The timestamp that an expression evaluates to.
    EvalAsOf { expr: Expr },
    /// The type that the data type of a column stands for.
    ColumnType { column: usize, data_type: String },
    /// The addresses of Kafka brokers that a text stands for.
    KafkaAddrs { broker: String },
    /// The Avro schema, in canonical form, to write a relation of this shape with.
    SinkSchema { desc: RelationDesc, include_consistency: bool },
    /// The Avro schema, in canonical form, of the transactions of Debezium.
    TransactionSchema,
    /// Whether a path is that of a directory.
    IsDirectory { path: String },
    /// The configuration of the Kafka client that is in the options of a statement.
    KafkaConfig { options: Vec<SqlOption> },
    /// How to reach the registry at this URL, by the Kafka configuration and by
    /// the options of the format.
    Registry {
        role: Role,
        url: String,
        kafka_config: Vec<(String, String)>,
        options: Vec<SqlOption>,
    },
    /// The bytes that the text of a Protobuf schema stands for.
    Descriptors { role: Role, text: String },
    /// The shape of the relation that a source of this encoding and this envelope is.
    SourceDesc { encoding: DataEncoding, envelope: SourceEnvelope },
    /// The columns that a connector adds to the data.
    MetadataColumns { connector: ExternalSourceConnector },
}

/// The contents of a [`Question`].
#[verifier::ext_equal]
#[allow(inconsistent_fields)]
pub enum QuestionView {
    CreateSql,
    CreateIndexSql { name: Seq<char>, key_parts: Seq<KeyPartView> },
    ParseSelect { sql: Seq<char> },
    ParseView { sql: Seq<char> },
    PlanQuery {
        query: Seq<char>,
        lifetime: QueryLifetime,
        pcx: PlanContext,
        param_types: Map<usize, ScalarType>,
    },
    PlanInsert {
        table_name: Seq<Ident>,
        columns: Seq<Ident>,
        source: Seq<char>,
        pcx: PlanContext,
        param_types: Map<usize, ScalarType>,
    },
    PlanIndexKeys { desc: RelationView, key_parts: Seq<KeyPartView> },
    Bind { expr: HirExpr, params: ParamsView },
    Finish { expr: HirExpr, finishing: RowSetFinishing },
    IsTrivial { finishing: RowSetFinishing, arity: nat },
    Decorrelate { expr: HirExpr },
    EvalAsOf { expr: Seq<char> },
    ColumnType { column: nat, data_type: Seq<char> },
    KafkaAddrs { broker: Seq<char> },
    SinkSchema { desc: RelationView, include_consistency: bool },
    TransactionSchema,
    IsDirectory { path: Seq<char> },
    KafkaConfig { options: Map<Seq<char>, ValueView> },
    Registry {
        role: Role,
        url: Seq<char>,
        kafka_config: Seq<(Seq<char>, Seq<char>)>,
        options: Map<Seq<char>, ValueView>,
    },
    Descriptors { role: Role, text: Seq<char> },
    SourceDesc { encoding: EncodingView, envelope: EnvelopeView },
    MetadataColumns { connector: ConnectorView },
}

impl View for Question {
    type V = QuestionView;

    open spec fn view(&self) -> QuestionView {
        match self {
            Question::CreateSql => QuestionView::CreateSql,
            Question::CreateIndexSql { name, key_parts } => QuestionView::CreateIndexSql {
                name: name@,
                key_parts: key_parts_view(key_parts@),
            },
            Question::ParseSelect { sql } => QuestionView::ParseSelect { sql: sql@ },
            Question::ParseView { sql } => QuestionView::ParseView { sql: sql@ },
            Question::PlanQuery { query, lifetime, pcx, param_types } => QuestionView::PlanQuery {
                query: query.sql@,
                lifetime: *lifetime,
                pcx: *pcx,
                param_types: param_types@,
            },
            Question::PlanInsert { table_name, columns, source, pcx, param_types } =>
                QuestionView::PlanInsert {
                table_name: table_name.0@,
                columns: columns@,
                source: source@,
                pcx: *pcx,
                param_types: param_types@,
            },
            Question::PlanIndexKeys { desc, key_parts } => QuestionView::PlanIndexKeys {
                desc: desc@,
                key_parts: key_parts_view(key_parts@),
            },
            Question::Bind { expr, params } => QuestionView::Bind { expr: *expr, params: params@ },
            Question::Finish { expr, finishing } => QuestionView::Finish {
                expr: *expr,
                finishing: *finishing,
            },
            Question::IsTrivial { finishing, arity } => QuestionView::IsTrivial {
                finishing: *finishing,
                arity: *arity as nat,
            },
            Question::Decorrelate { expr } => QuestionView::Decorrelate { expr: *expr },
            Question::EvalAsOf { expr } => QuestionView::EvalAsOf { expr: expr.sql@ },
            Question::ColumnType { column, data_type } => QuestionView::ColumnType {
                column: *column as nat,
                data_type: data_type@,
            },
            Question::KafkaAddrs { broker } => QuestionView::KafkaAddrs { broker: broker@ },
            Question::SinkSchema { desc, include_consistency } => QuestionView::SinkSchema {
                desc: desc@,
                include_consistency: *include_consistency,
            },
            Question::TransactionSchema => QuestionView::TransactionSchema,
            Question::IsDirectory { path } => QuestionView::IsDirectory { path: path@ },
            Question::KafkaConfig { options } => QuestionView::KafkaConfig {
                options: settings(options@),
            },
            Question::Registry { role, url, kafka_config, options } => QuestionView::Registry {
                role: *role,
                url: url@,
                kafka_config: text_pairs(kafka_config@),
                options: settings(options@),
            },
            Question::Descriptors { role, text } => QuestionView::Descriptors {
                role: *role,
                text: text@,
            },
            Question::SourceDesc { encoding, envelope } => QuestionView::SourceDesc {
                encoding: encoding@,
                envelope: envelope@,
            },
            Question::MetadataColumns { connector } => QuestionView::MetadataColumns {
                connector: connector@,
            },
        }
    }
}

/// The answers that are known so far, each in the place of its question.
#[derive(Debug)]
pub struct Replies {
    /// To [`Question::CreateSql`] and [`Question::CreateIndexSql`].
    pub create_sql: Option<Result<String, PlanError>>,
    pub parsed_select: Option<Result<Query, PlanError>>,
    pub parsed_view: Option<Query>,
    pub planned: Option<Result<PlannedQuery, PlanError>>,
    pub inserted: Option<Result<PlannedInsert, PlanError>>,
    pub index_keys: Option<Result<Vec<ScalarExpr>, PlanError>>,
    pub bound: Option<Result<HirExpr, PlanError>>,
    pub finished: Option<HirExpr>,
    pub trivial: Option<bool>,
    pub decorrelated: Option<RelationExpr>,
    pub as_of: Option<Result<u64, PlanError>>,
    /// To [`Question::ColumnType`], for the first columns in turn.
    pub column_types: Vec<Result<ScalarType, PlanError>>,
    pub kafka_addrs: Option<Result<KafkaAddrs, PlanError>>,
    pub sink_schema: Option<String>,
    pub transaction_schema: Option<String>,
    pub is_directory: Option<bool>,
    pub kafka_config: Option<Result<Vec<(String, String)>, PlanError>>,
    pub value_registry: Option<Result<CcsrConfig, PlanError>>,
    pub key_registry: Option<Result<CcsrConfig, PlanError>>,
    pub value_descriptors: Option<Result<Vec<u8>, PlanError>>,
    pub key_descriptors: Option<Result<Vec<u8>, PlanError>>,
    pub source_desc: Option<Result<RelationDesc, PlanError>>,
    pub metadata_columns: Option<Vec<(String, ColumnType)>>,
}

impl Replies {
    /// No answers.
    pub fn none() -> (replies: Replies)
        ensures
            replies.create_sql is None,
            replies.parsed_select is None,
            replies.parsed_view is None,
            replies.planned is None,
            replies.inserted is None,
            replies.index_keys is None,
            replies.bound is None,
            replies.finished is None,
            replies.trivial is None,
            replies.decorrelated is None,
            replies.as_of is None,
            replies.column_types@.len() == 0,
            replies.kafka_addrs is None,
            replies.sink_schema is None,
            replies.transaction_schema is None,
            replies.is_directory is None,
            replies.kafka_config is None,
            replies.value_registry is None,
            replies.key_registry is None,
            replies.value_descriptors is None,
            replies.key_descriptors is None,
            replies.source_desc is None,
            replies.metadata_columns is None,
    {
        Replies {
            create_sql: None,
            parsed_select: None,
            parsed_view: None,
            planned: None,
            inserted: None,
            index_keys: None,
            bound: None,
            finished: None,
            trivial: None,
            decorrelated: None,
            as_of: None,
            column_types: Vec::new(),
            kafka_addrs: None,
            sink_schema: None,
            transaction_schema: None,
            is_directory: None,
            kafka_config: None,
            value_registry: None,
            key_registry: None,
            value_descriptors: None,
            key_descriptors: None,
            source_desc: None,
            metadata_columns: None,
        }
    }

    /// Whether every answer that was there earlier is there still.
    pub open spec fn extends(self, earlier: Replies) -> bool {
        &&& earlier.column_types@.is_prefix_of(self.column_types@)
        &&& earlier.create_sql is Some ==> self.create_sql == earlier.create_sql
        &&& earlier.parsed_select is Some ==> self.parsed_select == earlier.parsed_select
        &&& earlier.parsed_view is Some ==> self.parsed_view == earlier.parsed_view
        &&& earlier.planned is Some ==> self.planned == earlier.planned
        &&& earlier.inserted is Some ==> self.inserted == earlier.inserted
        &&& earlier.index_keys is Some ==> self.index_keys == earlier.index_keys
        &&& earlier.bound is Some ==> self.bound == earlier.bound
        &&& earlier.finished is Some ==> self.finished == earlier.finished
        &&& earlier.trivial is Some ==> self.trivial == earlier.trivial
        &&& earlier.decorrelated is Some ==> self.decorrelated == earlier.decorrelated
        &&& earlier.as_of is Some ==> self.as_of == earlier.as_of
        &&& earlier.kafka_addrs is Some ==> self.kafka_addrs == earlier.kafka_addrs
        &&& earlier.sink_schema is Some ==> self.sink_schema == earlier.sink_schema
        &&& earlier.transaction_schema is Some ==> self.transaction_schema == earlier.transaction_schema
        &&& earlier.is_directory is Some ==> self.is_directory == earlier.is_directory
        &&& earlier.kafka_config is Some ==> self.kafka_config == earlier.kafka_config
        &&& earlier.value_registry is Some ==> self.value_registry == earlier.value_registry
        &&& earlier.key_registry is Some ==> self.key_registry == earlier.key_registry
        &&& earlier.value_descriptors is Some ==> self.value_descriptors == earlier.value_descriptors
        &&& earlier.key_descriptors is Some ==> self.key_descriptors == earlier.key_descriptors
        &&& earlier.source_desc is Some ==> self.source_desc == earlier.source_desc
        &&& earlier.metadata_columns is Some ==> self.metadata_columns == earlier.metadata_columns
    }

    /// Whether every place for an answer is filled, with the types of this many columns.
    pub open spec fn is_full(self, columns: nat) -> bool {
        &&& self.create_sql is Some
        &&& self.parsed_select is Some
        &&& self.parsed_view is Some
        &&& self.planned is Some
        &&& self.inserted is Some
        &&& self.index_keys is Some
        &&& self.bound is Some
        &&& self.finished is Some
        &&& self.trivial is Some
        &&& self.decorrelated is Some
        &&& self.as_of is Some
        &&& self.column_types@.len() >= columns
        &&& self.kafka_addrs is Some
        &&& self.sink_schema is Some
        &&& self.transaction_schema is Some
        &&& self.is_directory is Some
        &&& self.kafka_config is Some
        &&& self.value_registry is Some
        &&& self.key_registry is Some
        &&& self.value_descriptors is Some
        &&& self.key_descriptors is Some
        &&& self.source_desc is Some
        &&& self.metadata_columns is Some
    }

    /// Whether the place for the answer to a question is still free.
    pub open spec fn open_for(self, question: QuestionView) -> bool {
        match question {
            QuestionView::CreateSql => self.create_sql is None,
            QuestionView::CreateIndexSql { .. } => self.create_sql is None,
            QuestionView::ParseSelect { .. } => self.parsed_select is None,
            QuestionView::ParseView { .. } => self.parsed_view is None,
            QuestionView::PlanQuery { .. } => self.planned is None,
            QuestionView::PlanInsert { .. } => self.inserted is None,
            QuestionView::PlanIndexKeys { .. } => self.index_keys is None,
            QuestionView::Bind { .. } => self.bound is None,
            QuestionView::Finish { .. } => self.finished is None,
            QuestionView::IsTrivial { .. } => self.trivial is None,
            QuestionView::Decorrelate { .. } => self.decorrelated is None,
            QuestionView::EvalAsOf { .. } => self.as_of is None,
            QuestionView::ColumnType { column, .. } => self.column_types@.len() == column,
            QuestionView::KafkaAddrs { .. } => self.kafka_addrs is None,
            QuestionView::SinkSchema { .. } => self.sink_schema is None,
            QuestionView::TransactionSchema => self.transaction_schema is None,
            QuestionView::IsDirectory { .. } => self.is_directory is None,
            QuestionView::KafkaConfig { .. } => self.kafka_config is None,
            QuestionView::Registry { role, .. } => match role {
                Role::Value => self.value_registry is None,
                Role::Key => self.key_registry is None,
            },
            QuestionView::Descriptors { role, .. } => match role {
                Role::Value => self.value_descriptors is None,
                Role::Key => self.key_descriptors is None,
            },
            QuestionView::SourceDesc { .. } => self.source_desc is None,
            QuestionView::MetadataColumns { .. } => self.metadata_columns is None,
        }
    }
}

/// Where planning stands: the next question, or the end of it.
#[derive(Debug)]
pub enum Step<T> {
    Ask(Question),
    Done(Result<T, PlanError>),
}

/// The contents of a [`Step`].
#[verifier::ext_equal]
pub enum StepView<T> {
    Ask(QuestionView),
    Done(Result<T, ErrorView>),
}

impl<T: View> View for Step<T> {
    type V = StepView<T::V>;

    open spec fn view(&self) -> StepView<T::V> {
        match self {
            Step::Ask(question) => StepView::Ask(question@),
            Step::Done(Ok(value)) => StepView::Done(Ok(value@)),
            Step::Done(Err(error)) => StepView::Done(Err(error@)),
        }
    }
}

/// The contents of a value that was reached, or of where planning stands instead.
pub open spec fn stepped<T: View, P: View>(result: Result<T, Step<P>>) -> Result<
    T::V,
    StepView<P::V>,
> {
    match result {
        Ok(value) => Ok(value@),
        Err(step) => Err(step@),
    }
}

/// The end of planning with an error.
pub open spec fn failed<T>(error: ErrorView) -> StepView<T> {
    StepView::Done(Err(error))
}

} // verus!
