//! Statements, as the parser hands them over.
//!
//! Queries, expressions and data types stand here as SQL text: only the query
//! engine looks into them.
use vstd::prelude::*;
use vstd::string::*;

use crate::names::{Ident, ObjectName};
use crate::value::{SqlOption, Value};

verus! {

/// What a statement says an object is.
#[derive(Clone, Copy, PartialEq, Eq, Structural, Debug)]
pub enum ObjectType {
    Schema,
    Table,
    View,
    Source,
    Sink,
    Index,
}

/// The keyword for what an object is.
pub open spec fn object_type_text(typ: ObjectType) -> Seq<char> {
    match typ {
        ObjectType::Schema => "SCHEMA"@,
        ObjectType::Table => "TABLE"@,
        ObjectType::View => "VIEW"@,
        ObjectType::Source => "SOURCE"@,
        ObjectType::Sink => "SINK"@,
        ObjectType::Index => "INDEX"@,
    }
}

impl ObjectType {
    /// The keyword for what an object is.
    pub fn to_text(&self) -> (text: &'static str)
        ensures
            text@ == object_type_text(*self),
    {
        match self {
            ObjectType::Schema => "SCHEMA",
            ObjectType::Table => "TABLE",
            ObjectType::View => "VIEW",
            ObjectType::Source => "SOURCE",
            ObjectType::Sink => "SINK",
            ObjectType::Index => "INDEX",
        }
    }
}

/// A query.
#[derive(Debug)]
pub struct Query {
    pub sql: String,
}

impl Clone for Query {
    fn clone(&self) -> (copy: Query)
        ensures
            copy == *self,
    {
        Query { sql: self.sql.clone() }
    }
}

/// A scalar expression.
#[derive(Debug)]
pub struct Expr {
    pub sql: String,
}

impl Clone for Expr {
    fn clone(&self) -> (copy: Expr)
        ensures
            copy == *self,
    {
        Expr { sql: self.sql.clone() }
    }
}

/// A data type.
#[derive(Debug)]
pub struct DataType {
    pub sql: String,
}

/// A condition on what a `SHOW` statement shows.
#[derive(Debug)]
pub enum ShowStatementFilter {
    /// The name is like a pattern.
    Like(String),
    /// An expression holds.
    Where(Expr),
}

/// Where a schema text is.
#[derive(Debug)]
pub enum Schema {
    File(String),
    Inline(String),
}

/// The schemas that a schema registry gave for a topic.
#[derive(Debug)]
pub struct CsrSeed {
    pub key_schema: Option<String>,
    pub value_schema: String,
}

/// Where an Avro schema comes from.
#[derive(Debug)]
pub enum AvroSchema {
    Schema(Schema),
    /// A Confluent schema registry.
    CsrUrl { url: String, seed: Option<CsrSeed>, with_options: Vec<SqlOption> },
}

/// How data are encoded.
#[derive(Debug)]
pub enum Format {
    Bytes,
    Avro(AvroSchema),
    Protobuf { message_name: String, schema: Schema },
    Regex(String),
    Csv { header_row: bool, n_cols: Option<usize>, delimiter: char },
    Json,
    Text,
}

/// What the records of a source mean.
#[derive(Debug)]
pub enum Envelope {
    /// Each record is a row.
    NoEnvelope,
    /// Records are changes, as Debezium writes them.
    Debezium,
    /// Records replace earlier ones of the same key, which may have a format of its own.
    Upsert(Option<Format>),
    /// Records are changes, as Materialize writes them.
    CdcV2,
}

/// Where data come from or go to.
#[derive(Debug)]
pub enum Connector {
    File { path: String },
    Kafka { broker: String, topic: String },
    Kinesis { arn: String },
    AvroOcf { path: String },
}

#[derive(Debug)]
pub struct CreateDatabaseStatement {
    pub name: Ident,
    pub if_not_exists: bool,
}

#[derive(Debug)]
pub struct CreateSchemaStatement {
    pub name: ObjectName,
    pub if_not_exists: bool,
}

#[derive(Debug)]
pub struct CreateSourceStatement {
    pub name: ObjectName,
    pub col_names: Vec<Ident>,
    pub connector: Connector,
    pub with_options: Vec<SqlOption>,
    pub format: Option<Format>,
    pub envelope: Envelope,
    pub if_not_exists: bool,
    pub materialized: bool,
}

#[derive(Debug)]
pub struct CreateSinkStatement {
    pub name: ObjectName,
    pub from: ObjectName,
    pub connector: Connector,
    pub with_options: Vec<SqlOption>,
    pub format: Option<Format>,
    pub with_snapshot: bool,
    pub as_of: Option<Expr>,
    pub if_not_exists: bool,
}

/// What to do where the object to create is there already.
#[derive(Clone, Copy, PartialEq, Eq, Structural, Debug)]
pub enum IfExistsBehavior {
    Error,
    Skip,
    Replace,
}

#[derive(Debug)]
pub struct CreateViewStatement {
    pub name: ObjectName,
    pub columns: Vec<Ident>,
    pub query: Query,
    pub temporary: bool,
    pub materialized: bool,
    pub if_exists: IfExistsBehavior,
    pub with_options: Vec<SqlOption>,
}

/// A constraint on a column.
#[derive(Debug)]
pub enum ColumnOption {
    NotNull,
    /// Any other constraint, as it is written.
    Other(String),
}

#[derive(Debug)]
pub struct ColumnDef {
    pub name: Ident,
    pub data_type: DataType,
    pub options: Vec<ColumnOption>,
}

/// A constraint on a table.
#[derive(Debug)]
pub struct TableConstraint {
    pub sql: String,
}

#[derive(Debug)]
pub struct CreateTableStatement {
    pub name: ObjectName,
    pub columns: Vec<ColumnDef>,
    pub constraints: Vec<TableConstraint>,
    pub with_options: Vec<SqlOption>,
    pub if_not_exists: bool,
}

/// A part of the key of an index.
#[derive(Debug)]
pub enum KeyPart {
    /// The column of this name: an identifier alone.
    Column(String),
    /// The column of this number, counted from one: a number alone, as it is written.
    Number(String),
    /// Any other expression.
    Expr(Expr),
}

/// The contents of a [`KeyPart`].
#[verifier::ext_equal]
pub enum KeyPartView {
    Expr(Seq<char>),
    Column(Seq<char>),
    Number(Seq<char>),
}

impl View for KeyPart {
    type V = KeyPartView;

    open spec fn view(&self) -> KeyPartView {
        match self {
            KeyPart::Expr(expr) => KeyPartView::Expr(expr.sql@),
            KeyPart::Column(name) => KeyPartView::Column(name@),
            KeyPart::Number(digits) => KeyPartView::Number(digits@),
        }
    }
}

impl Clone for KeyPart {
    fn clone(&self) -> (copy: KeyPart)
        ensures
            copy@ == self@,
    {
        match self {
            KeyPart::Expr(expr) => KeyPart::Expr(expr.clone()),
            KeyPart::Column(name) => KeyPart::Column(name.clone()),
            KeyPart::Number(digits) => KeyPart::Number(digits.clone()),
        }
    }
}

/// The contents of a list of key parts.
pub open spec fn key_parts_view(parts: Seq<KeyPart>) -> Seq<KeyPartView> {
    parts.map_values(|p: KeyPart| p@)
}

#[derive(Debug)]
pub struct CreateIndexStatement {
    pub name: Option<Ident>,
    pub on_name: ObjectName,
    /// Nothing for the default index of a relation.
    pub key_parts: Option<Vec<KeyPart>>,
    pub if_not_exists: bool,
}

#[derive(Debug)]
pub struct DropDatabaseStatement {
    pub name: Ident,
    pub if_exists: bool,
}

#[derive(Debug)]
pub struct DropObjectsStatement {
    pub object_type: ObjectType,
    pub if_exists: bool,
    pub names: Vec<ObjectName>,
    pub cascade: bool,
}

#[derive(Debug)]
pub struct AlterObjectRenameStatement {
    pub name: ObjectName,
    pub object_type: ObjectType,
    pub if_exists: bool,
    pub to_item_name: Ident,
}

#[derive(Debug)]
pub enum AlterIndexOptionsList {
    /// Give parameters back their default values.
    Reset(Vec<Ident>),
    /// Give parameters these values.
    Change(Vec<SqlOption>),
}

#[derive(Debug)]
pub struct AlterIndexOptionsStatement {
    pub index_name: ObjectName,
    pub if_exists: bool,
    pub options: AlterIndexOptionsList,
}

#[derive(Debug)]
pub enum SetVariableValue {
    Literal(Value),
    Ident(Ident),
}

#[derive(Debug)]
pub struct SetVariableStatement {
    pub local: bool,
    pub variable: Ident,
    pub value: SetVariableValue,
}

#[derive(Debug)]
pub struct ShowVariableStatement {
    pub variable: Ident,
}

#[derive(Debug)]
pub struct ShowDatabasesStatement {
    pub filter: Option<ShowStatementFilter>,
}

#[derive(Debug)]
pub struct ShowObjectsStatement {
    pub extended: bool,
    pub full: bool,
    pub materialized: bool,
    pub object_type: ObjectType,
    pub from: Option<ObjectName>,
    pub filter: Option<ShowStatementFilter>,
}

#[derive(Debug)]
pub struct ShowIndexesStatement {
    pub extended: bool,
    pub table_name: ObjectName,
    pub filter: Option<ShowStatementFilter>,
}

#[derive(Debug)]
pub struct ShowColumnsStatement {
    pub extended: bool,
    pub full: bool,
    pub table_name: ObjectName,
    pub filter: Option<ShowStatementFilter>,
}

#[derive(Debug)]
pub struct ShowCreateViewStatement {
    pub view_name: ObjectName,
}

#[derive(Debug)]
pub struct ShowCreateSourceStatement {
    pub source_name: ObjectName,
}

#[derive(Debug)]
pub struct ShowCreateTableStatement {
    pub table_name: ObjectName,
}

#[derive(Debug)]
pub struct ShowCreateSinkStatement {
    pub sink_name: ObjectName,
}

#[derive(Debug)]
pub struct ShowCreateIndexStatement {
    pub index_name: ObjectName,
}

/// Which of the plans of a query to explain.
#[derive(Clone, Copy, PartialEq, Eq, Structural, Debug)]
pub enum ExplainStage {
    RawPlan,
    DecorrelatedPlan,
    OptimizedPlan,
}

/// How to write an explanation.
#[derive(Clone, Copy, PartialEq, Eq, Structural, Debug)]
pub struct ExplainOptions {
    pub typed: bool,
}

/// What to explain.
#[derive(Debug)]
pub enum Explainee {
    View(ObjectName),
    Query(Query),
}

#[derive(Debug)]
pub struct ExplainStatement {
    pub stage: ExplainStage,
    pub explainee: Explainee,
    pub options: ExplainOptions,
}

#[derive(Debug)]
pub struct SelectStatement {
    pub query: Query,
    pub as_of: Option<Expr>,
}

#[derive(Debug)]
pub struct TailStatement {
    pub name: ObjectName,
    pub as_of: Option<Expr>,
    pub with_snapshot: bool,
}

#[derive(Debug)]
pub struct InsertStatement {
    pub table_name: ObjectName,
    pub columns: Vec<Ident>,
    /// The rows to insert, as SQL text.
    pub source: String,
}

/// A statement.
#[derive(Debug)]
pub enum Statement {
    Select(SelectStatement),
    Insert(InsertStatement),
    Copy,
    Update,
    Delete,
    CreateDatabase(CreateDatabaseStatement),
    CreateSchema(CreateSchemaStatement),
    CreateSource(CreateSourceStatement),
    CreateSink(CreateSinkStatement),
    CreateView(CreateViewStatement),
    CreateTable(CreateTableStatement),
    CreateIndex(CreateIndexStatement),
    AlterObjectRename(AlterObjectRenameStatement),
    AlterIndexOptions(AlterIndexOptionsStatement),
    DropDatabase(DropDatabaseStatement),
    DropObjects(DropObjectsStatement),
    SetVariable(SetVariableStatement),
    ShowDatabases(ShowDatabasesStatement),
    ShowObjects(ShowObjectsStatement),
    ShowIndexes(ShowIndexesStatement),
    ShowColumns(ShowColumnsStatement),
    ShowCreateView(ShowCreateViewStatement),
    ShowCreateSource(ShowCreateSourceStatement),
    ShowCreateTable(ShowCreateTableStatement),
    ShowCreateSink(ShowCreateSinkStatement),
    ShowCreateIndex(ShowCreateIndexStatement),
    ShowVariable(ShowVariableStatement),
    StartTransaction,
    SetTransaction,
    Commit,
    Rollback,
    Tail(TailStatement),
    Explain(ExplainStatement),
}

} // verus!
