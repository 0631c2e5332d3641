use sql_plan::alter::make_custom_window;
use sql_plan::ast::{
    AlterIndexOptionsList, AlterIndexOptionsStatement, AlterObjectRenameStatement, AvroSchema,
    ColumnDef, ColumnOption, Connector, CreateDatabaseStatement, CreateIndexStatement,
    CreateSchemaStatement, CreateSinkStatement, CreateSourceStatement, CreateTableStatement,
    CreateViewStatement, CsrSeed, DataType, DropDatabaseStatement, DropObjectsStatement, Envelope,
    ExplainOptions, ExplainStage, ExplainStatement, Explainee, Expr, Format, IfExistsBehavior,
    InsertStatement, KeyPart, ObjectType, Query, Schema, SelectStatement, SetVariableStatement,
    SetVariableValue, ShowColumnsStatement, ShowCreateIndexStatement, ShowCreateSinkStatement,
    ShowCreateSourceStatement, ShowCreateTableStatement, ShowCreateViewStatement,
    ShowDatabasesStatement, ShowIndexesStatement, ShowObjectsStatement, ShowStatementFilter,
    ShowVariableStatement, Statement, TableConstraint, TailStatement,
};
use sql_plan::catalog::{Catalog, CatalogItem, CatalogItemType, GlobalId, PlanContext};
use sql_plan::context::StatementContext;
use sql_plan::dataflow::{
    CcsrConfig, Consistency, DataEncoding, DebeziumDeduplicationStrategy, ExternalSourceConnector,
    KafkaAddrs, Region, SinkConnectorBuilder, Source, SourceEnvelope,
};
use sql_plan::describe::{describe_statement, make_show_objects_desc, Description};
use sql_plan::engine::{
    Datum, HirExpr, Params, PlannedInsert, PlannedQuery, QueryLifetime, Question,
    RelationExpr, Replies, Role, RowSetFinishing, ScalarExpr, Step,
};
use sql_plan::error::{ErrorKind, PlanError};
use sql_plan::external::{Arn, Duration};
use sql_plan::names::{
    DatabaseSpecifier, FullName, Ident, ObjectName, PartialName, SchemaSpecifier,
};
use sql_plan::plan::{LogicalCompactionWindow, PeekWhen, Plan};
use sql_plan::relation::{ColumnType, RelationDesc, RelationType, ScalarType};
use sql_plan::sink::build_kafka_topic;
use sql_plan::source::{
    find_kinesis_stream, find_region, get_regex_encoding, get_registry_encoding,
};
use sql_plan::statement::handle_statement;
use sql_plan::value::{SqlOption, Value};
use std::collections::BTreeMap;

// A catalog that holds a few items.

struct Fixture {
    items: Vec<CatalogItem>,
    startup: i64,
    experimental: bool,
    missing_database: bool,
}

fn full(database: Option<&str>, schema: &str, item: &str) -> FullName {
    FullName {
        database: match database {
            Some(d) => DatabaseSpecifier::Name(d.to_string()),
            None => DatabaseSpecifier::Ambient,
        },
        schema: schema.to_string(),
        item: item.to_string(),
    }
}

fn public(item: &str) -> FullName {
    full(Some("materialize"), "public", item)
}

fn same(a: &FullName, b: &FullName) -> bool {
    a.to_text() == b.to_text()
}

fn text_type(nullable: bool) -> ColumnType {
    ColumnType { scalar_type: ScalarType::String, nullable }
}

fn desc(names: &[Option<&str>], keys: Vec<Vec<usize>>) -> RelationDesc {
    RelationDesc {
        typ: RelationType {
            column_types: names.iter().map(|_| text_type(false)).collect(),
            keys,
        },
        names: names.iter().map(|n| n.map(|n| n.to_string())).collect(),
    }
}

fn item(name: &str, id: u64, item_type: CatalogItemType) -> CatalogItem {
    CatalogItem {
        name: public(name),
        id: GlobalId::User(id),
        item_type,
        create_sql: format!("CREATE {}", name),
        desc: match item_type {
            CatalogItemType::Index | CatalogItemType::Sink => Err(PlanError {
                kind: ErrorKind::Catalog,
                text: format!("{} has no columns", name),
            }),
            _ => Ok(desc(&[Some("a"), Some("b")], vec![])),
        },
        used_by: vec![],
        plan_cx: PlanContext { wall_time_ms: 7000 },
    }
}

fn fixture() -> Fixture {
    let mut t = item("t", 1, CatalogItemType::Table);
    t.used_by = vec![GlobalId::User(4), GlobalId::User(2)];
    let v = item("v", 2, CatalogItemType::View);
    let s = item("s", 3, CatalogItemType::Source);
    let mut i = item("t_a_idx", 4, CatalogItemType::Index);
    i.create_sql = "CREATE INDEX t_a_idx ON t (a)".to_string();
    let k = item("k", 5, CatalogItemType::Sink);
    let mut sys = item("mz_t", 1, CatalogItemType::Table);
    sys.id = GlobalId::System(1);
    sys.name = full(None, "mz_catalog", "mz_t");
    Fixture {
        items: vec![t, v, s, i, k, sys],
        startup: 1600000000,
        experimental: false,
        missing_database: false,
    }
}

fn not_found(what: &str, name: &str) -> PlanError {
    PlanError { kind: ErrorKind::Catalog, text: format!("unknown {} '{}'", what, name) }
}

impl Catalog for Fixture {
    fn default_database(&self) -> &str {
        "materialize"
    }

    fn resolve_database(&self, name: &str) -> Result<(), PlanError> {
        if name == "materialize" && !self.missing_database {
            Ok(())
        } else {
            Err(not_found("database", name))
        }
    }

    fn resolve_schema(
        &self,
        database: Option<String>,
        schema: &str,
    ) -> Result<(DatabaseSpecifier, SchemaSpecifier), PlanError> {
        match (database.as_deref(), schema) {
            (None, "mz_catalog") => Ok((
                DatabaseSpecifier::Ambient,
                SchemaSpecifier { name: schema.to_string(), id: -1 },
            )),
            (None, "public") | (Some("materialize"), "public") => Ok((
                DatabaseSpecifier::Name("materialize".to_string()),
                SchemaSpecifier { name: schema.to_string(), id: 3 },
            )),
            (None, "empty") | (Some("materialize"), "empty") => Ok((
                DatabaseSpecifier::Name("materialize".to_string()),
                SchemaSpecifier { name: schema.to_string(), id: 12 },
            )),
            _ => Err(not_found("schema", schema)),
        }
    }

    fn resolve_item(&self, name: &PartialName) -> Result<FullName, PlanError> {
        for i in &self.items {
            if i.name.item == name.item
                && name.schema.as_ref().map_or(true, |s| *s == i.name.schema)
                && name.database.as_ref().map_or(true, |d| i.name.database.to_text() == *d)
            {
                return Ok(i.name.clone());
            }
        }
        Err(not_found("catalog item", &name.item))
    }

    fn get_item(&self, name: &FullName) -> &CatalogItem {
        self.items.iter().find(|i| same(&i.name, name)).unwrap()
    }

    fn get_item_by_id(&self, id: &GlobalId) -> &CatalogItem {
        self.items.iter().find(|i| i.id == *id).unwrap()
    }

    fn list_items(&self, database: &DatabaseSpecifier, schema: &str) -> Vec<&CatalogItem> {
        self.items
            .iter()
            .filter(|i| {
                i.name.schema == schema && i.name.database.to_text() == database.to_text()
            })
            .collect()
    }

    fn startup_time(&self) -> i64 {
        self.startup
    }

    fn nonce(&self) -> u64 {
        42
    }

    fn experimental_mode(&self) -> bool {
        self.experimental
    }
}

// Statements.

fn id(value: &str) -> Ident {
    Ident::new(value)
}

fn name(parts: &[&str]) -> ObjectName {
    ObjectName(parts.iter().map(|p| id(p)).collect())
}

fn option(name: &str, value: Value) -> SqlOption {
    SqlOption { name: id(name), value }
}

fn text(s: &str) -> Value {
    Value::String(s.to_string())
}

fn number(s: &str) -> Value {
    Value::Number(s.to_string())
}

fn sql(s: &str) -> Query {
    Query { sql: s.to_string() }
}

fn expr(s: &str) -> Expr {
    Expr { sql: s.to_string() }
}

const PCX: PlanContext = PlanContext { wall_time_ms: 1234 };

fn no_params() -> Params {
    Params { datums: vec![], types: vec![] }
}

fn step(catalog: &Fixture, stmt: &Statement, replies: &Replies) -> Step<Plan> {
    handle_statement(&PCX, catalog, stmt, &no_params(), replies)
}

fn done(catalog: &Fixture, stmt: &Statement, replies: &Replies) -> Plan {
    match step(catalog, stmt, replies) {
        Step::Done(Ok(plan)) => plan,
        other => panic!("no plan: {:?}", other),
    }
}

fn error(catalog: &Fixture, stmt: &Statement, replies: &Replies) -> PlanError {
    match step(catalog, stmt, replies) {
        Step::Done(Err(e)) => e,
        other => panic!("no error: {:?}", other),
    }
}

fn question(catalog: &Fixture, stmt: &Statement, replies: &Replies) -> Question {
    match step(catalog, stmt, replies) {
        Step::Ask(q) => q,
        other => panic!("no question: {:?}", other),
    }
}

fn assert_error(e: PlanError, kind: ErrorKind, text: &str) {
    assert_eq!(e.text, text);
    assert_eq!(e.kind, kind);
}

fn engine_error(text: &str) -> PlanError {
    PlanError { kind: ErrorKind::Engine, text: text.to_string() }
}

fn planned() -> PlannedQuery {
    PlannedQuery {
        expr: HirExpr { id: 10 },
        desc: desc(&[Some("x"), Some("y")], vec![vec![0]]),
        finishing: RowSetFinishing { id: 11 },
        param_types: BTreeMap::new(),
    }
}

// Names.

fn context(catalog: &Fixture) -> StatementContext<'_, Fixture> {
    StatementContext { pcx: &PCX, catalog, param_types: BTreeMap::new() }
}

fn partial(database: Option<&str>, schema: Option<&str>, item: &str) -> PartialName {
    PartialName {
        database: database.map(|s| s.to_string()),
        schema: schema.map(|s| s.to_string()),
        item: item.to_string(),
    }
}

#[test]
fn allocated_names_have_defaults() {
    let c = fixture();
    let scx = context(&c);
    assert_eq!(scx.allocate_name(partial(None, None, "x")).to_text(), "materialize.public.x");
    assert_eq!(scx.allocate_name(partial(None, Some("s"), "x")).to_text(), "materialize.s.x");
    assert_eq!(scx.allocate_name(partial(Some("d"), Some("s"), "x")).to_text(), "d.s.x");
    let full_name = scx.allocate_name(partial(Some("d"), Some("s"), "x"));
    assert!(scx.allocate_name(full_name.to_partial()).same(&full_name));
}

#[test]
fn temporary_names_are_ambient() {
    let c = fixture();
    let scx = context(&c);
    assert_eq!(scx.allocate_temporary_name(partial(None, None, "x")).to_text(), "mz_temp.x");
    let n = scx.allocate_temporary_name(partial(Some("d"), Some("s"), "x"));
    assert_eq!(n.to_text(), "s.x");
    assert!(matches!(n.database, DatabaseSpecifier::Ambient));
}

#[test]
fn databases_are_resolved() {
    let mut c = fixture();
    {
        let scx = context(&c);
        assert_eq!(scx.resolve_default_database().unwrap().to_text(), "materialize");
        assert_eq!(scx.resolve_database(name(&["materialize"])).unwrap(), "materialize");
        assert_error(
            scx.resolve_database(name(&["a", "b"])).unwrap_err(),
            ErrorKind::OverqualifiedDatabaseName,
            "a.b",
        );
        assert_error(
            scx.resolve_database_ident(id("nope")).unwrap_err(),
            ErrorKind::Catalog,
            "unknown database 'nope'",
        );
    }
    c.missing_database = true;
    assert_error(
        context(&c).resolve_default_database().unwrap_err(),
        ErrorKind::Catalog,
        "unknown database 'materialize'",
    );
}

#[test]
fn schemas_are_resolved() {
    let c = fixture();
    let scx = context(&c);
    assert_eq!(scx.resolve_default_schema().unwrap().id, 3);
    assert_eq!(scx.resolve_schema(name(&["empty"])).unwrap().1.id, 12);
    assert_eq!(scx.resolve_schema(name(&["materialize", "public"])).unwrap().1.id, 3);
    assert_error(
        scx.resolve_schema(name(&["a", "b", "c"])).unwrap_err(),
        ErrorKind::OverqualifiedSchemaName,
        "a.b.c",
    );
    assert_error(
        scx.resolve_schema(name(&["d", "public"])).unwrap_err(),
        ErrorKind::Catalog,
        "unknown schema 'public'",
    );
}

#[test]
fn items_are_resolved() {
    let c = fixture();
    let scx = context(&c);
    assert_eq!(scx.resolve_item(name(&["t"])).unwrap().to_text(), "materialize.public.t");
    assert_error(
        scx.resolve_item(name(&["a", "b", "c", "d"])).unwrap_err(),
        ErrorKind::MisqualifiedName,
        "a.b.c.d",
    );
    assert_error(
        scx.resolve_item(name(&[])).unwrap_err(),
        ErrorKind::MisqualifiedName,
        "",
    );
    assert_error(
        scx.resolve_item(name(&["nope"])).unwrap_err(),
        ErrorKind::Catalog,
        "unknown catalog item 'nope'",
    );
}

#[test]
fn experimental_mode_is_required() {
    let mut c = fixture();
    assert_eq!(context(&c).experimental_mode(), false);
    assert_error(
        context(&c).require_experimental_mode("X").unwrap_err(),
        ErrorKind::Invalid,
        "X requires experimental mode; see https://materialize.io/docs/cli/#experimental-mode",
    );
    c.experimental = true;
    assert_eq!(context(&c).experimental_mode(), true);
    assert!(context(&c).require_experimental_mode("X").is_ok());
}

fn types(list: &[(usize, ScalarType)]) -> BTreeMap<usize, ScalarType> {
    list.iter().cloned().collect()
}

#[test]
fn parameter_types_are_finalized() {
    let c = fixture();
    let finalize = |list: &[(usize, ScalarType)]| {
        StatementContext { pcx: &PCX, catalog: &c, param_types: types(list) }
            .finalize_param_types()
    };
    assert_eq!(finalize(&[]).unwrap(), vec![]);
    assert_eq!(
        finalize(&[(2, ScalarType::Bool), (1, ScalarType::Int64)]).unwrap(),
        vec![ScalarType::Int64, ScalarType::Bool]
    );
    assert_error(
        finalize(&[(1, ScalarType::Bool), (3, ScalarType::Bool)]).unwrap_err(),
        ErrorKind::Invalid,
        "unable to infer type for parameter $2",
    );
    assert_error(
        finalize(&[(2, ScalarType::Bool)]).unwrap_err(),
        ErrorKind::Invalid,
        "unable to infer type for parameter $1",
    );
    assert_error(
        finalize(&[(0, ScalarType::Bool), (1, ScalarType::Bool)]).unwrap_err(),
        ErrorKind::Invalid,
        "unable to infer type for parameter $1",
    );
}

#[test]
fn types_of_items_match_types_of_statements() {
    assert!(CatalogItemType::View == ObjectType::View);
    assert!(ObjectType::Sink == CatalogItemType::Sink);
    assert!(CatalogItemType::Index == ObjectType::Index);
    assert!(CatalogItemType::Table == ObjectType::Table);
    assert!(CatalogItemType::Source == ObjectType::Source);
    // `TABLE` may name a source, but `SOURCE` names no table.
    assert!(CatalogItemType::Source == ObjectType::Table);
    assert!(ObjectType::Table == CatalogItemType::Source);
    assert!(CatalogItemType::Table != ObjectType::Source);
    assert!(CatalogItemType::View != ObjectType::Source);
    assert!(CatalogItemType::Table != ObjectType::Schema);
}

// Databases and schemas.

#[test]
fn create_database() {
    let stmt = Statement::CreateDatabase(CreateDatabaseStatement {
        name: id("d"),
        if_not_exists: true,
    });
    match done(&fixture(), &stmt, &Replies::none()) {
        Plan::CreateDatabase { name, if_not_exists } => {
            assert_eq!(name, "d");
            assert!(if_not_exists);
        }
        other => panic!("{:?}", other),
    }
}

#[test]
fn create_schema() {
    let create = |parts: &[&str]| {
        Statement::CreateSchema(CreateSchemaStatement { name: name(parts), if_not_exists: false })
    };
    let c = fixture();
    match done(&c, &create(&["s"]), &Replies::none()) {
        Plan::CreateSchema { database_name, schema_name, if_not_exists } => {
            assert_eq!(database_name.to_text(), "materialize");
            assert_eq!(schema_name, "s");
            assert!(!if_not_exists);
        }
        other => panic!("{:?}", other),
    }
    match done(&c, &create(&["d", "s"]), &Replies::none()) {
        Plan::CreateSchema { database_name, schema_name, .. } => {
            assert_eq!(database_name.to_text(), "d");
            assert_eq!(schema_name, "s");
        }
        other => panic!("{:?}", other),
    }
    assert_error(
        error(&c, &create(&["a", "b", "c"]), &Replies::none()),
        ErrorKind::Invalid,
        "schema name a.b.c has more than two components",
    );
}

#[test]
fn drop_database() {
    let drop = |n: &str, if_exists| {
        Statement::DropDatabase(DropDatabaseStatement { name: id(n), if_exists })
    };
    let c = fixture();
    let dropped = |stmt: &Statement| match done(&c, stmt, &Replies::none()) {
        Plan::DropDatabase { name } => name,
        other => panic!("{:?}", other),
    };
    assert_eq!(dropped(&drop("materialize", false)), "materialize");
    assert_eq!(dropped(&drop("nope", true)), "");
    assert_error(
        error(&c, &drop("nope", false), &Replies::none()),
        ErrorKind::Catalog,
        "unknown database 'nope'",
    );
}

fn drop_objects(object_type: ObjectType, names: &[&[&str]], if_exists: bool, cascade: bool) -> Statement {
    Statement::DropObjects(DropObjectsStatement {
        object_type,
        if_exists,
        names: names.iter().map(|n| name(n)).collect(),
        cascade,
    })
}

#[test]
fn drop_schema() {
    let c = fixture();
    let drop = |names: &[&[&str]], if_exists, cascade| {
        drop_objects(ObjectType::Schema, names, if_exists, cascade)
    };
    let dropped = |stmt: &Statement| match done(&c, stmt, &Replies::none()) {
        Plan::DropSchema { database_name, schema_name } => {
            format!("{}.{}", database_name.to_text(), schema_name)
        }
        other => panic!("{:?}", other),
    };
    assert_eq!(dropped(&drop(&[&["empty"]], false, false)), "materialize.empty");
    assert_eq!(dropped(&drop(&[&["public"]], false, true)), "materialize.public");
    assert_eq!(dropped(&drop(&[&["nope"]], true, false)), "<none>.noexist");
    assert_error(
        error(&c, &drop(&[&["public"]], false, false), &Replies::none()),
        ErrorKind::Invalid,
        "schema 'materialize.public' cannot be dropped without CASCADE while it contains objects",
    );
    assert_error(
        error(&c, &drop(&[&["mz_catalog"]], false, true), &Replies::none()),
        ErrorKind::Invalid,
        "cannot drop schema mz_catalog because it is required by the database system",
    );
    assert_error(
        error(&c, &drop(&[&["a"], &["b"]], false, true), &Replies::none()),
        ErrorKind::Unsupported,
        "DROP SCHEMA with multiple schemas",
    );
    assert_error(
        error(&c, &drop(&[&["nope"]], false, false), &Replies::none()),
        ErrorKind::Catalog,
        "unknown schema 'nope'",
    );
}

#[test]
fn drop_items() {
    let c = fixture();
    let dropped = |stmt: &Statement| match done(&c, stmt, &Replies::none()) {
        Plan::DropItems { items, ty } => (items, ty),
        other => panic!("{:?}", other),
    };
    assert_eq!(
        dropped(&drop_objects(ObjectType::View, &[&["v"]], false, false)),
        (vec![GlobalId::User(2)], ObjectType::View)
    );
    // With CASCADE dependents do not matter; names that need not be there are passed over.
    assert_eq!(
        dropped(&drop_objects(ObjectType::Table, &[&["nope"], &["t"], &["s"]], true, true)),
        (vec![GlobalId::User(1), GlobalId::User(3)], ObjectType::Table)
    );
    // The index that depends on `t` does not keep it, but the view does.
    assert_error(
        error(&c, &drop_objects(ObjectType::Table, &[&["t"]], false, false), &Replies::none()),
        ErrorKind::Invalid,
        "cannot drop materialize.public.t: still depended upon by catalog item 'materialize.public.v'",
    );
    assert_error(
        error(&c, &drop_objects(ObjectType::Source, &[&["v"]], false, true), &Replies::none()),
        ErrorKind::Invalid,
        "materialize.public.v is not of type SOURCE",
    );
    assert_error(
        error(
            &c,
            &drop_objects(ObjectType::Table, &[&["mz_catalog", "mz_t"]], false, true),
            &Replies::none(),
        ),
        ErrorKind::Invalid,
        "cannot drop item mz_catalog.mz_t because it is required by the database system",
    );
    assert_error(
        error(&c, &drop_objects(ObjectType::View, &[&["v"], &["nope"]], false, true), &Replies::none()),
        ErrorKind::Catalog,
        "unknown catalog item 'nope'",
    );
}

#[test]
fn indexes_alone_do_not_keep_a_table() {
    let mut c = fixture();
    c.items[0].used_by = vec![GlobalId::User(4)];
    match done(
        &c,
        &drop_objects(ObjectType::Table, &[&["t"]], false, false),
        &Replies::none(),
    ) {
        Plan::DropItems { items, .. } => assert_eq!(items, vec![GlobalId::User(1)]),
        other => panic!("{:?}", other),
    }
}

// Alterations.

fn rename(from: &[&str], object_type: ObjectType, to: &str, if_exists: bool) -> Statement {
    Statement::AlterObjectRename(AlterObjectRenameStatement {
        name: name(from),
        object_type,
        if_exists,
        to_item_name: id(to),
    })
}

#[test]
fn rename_items() {
    let c = fixture();
    let renamed = |stmt: &Statement| match done(&c, stmt, &Replies::none()) {
        Plan::AlterItemRename { id, to_name, object_type } => (id, to_name, object_type),
        other => panic!("{:?}", other),
    };
    assert_eq!(
        renamed(&rename(&["public", "v"], ObjectType::View, "w", false)),
        (Some(GlobalId::User(2)), "w".to_string(), ObjectType::View)
    );
    assert_eq!(
        renamed(&rename(&["nope"], ObjectType::View, "w", true)),
        (None, "w".to_string(), ObjectType::View)
    );
    assert_error(
        error(&c, &rename(&["v"], ObjectType::View, "t", false), &Replies::none()),
        ErrorKind::Invalid,
        "t is already taken by item in schema",
    );
    assert_error(
        error(&c, &rename(&["public", "v"], ObjectType::Index, "w", false), &Replies::none()),
        ErrorKind::Invalid,
        "public.v is a view not a INDEX",
    );
    assert_error(
        error(&c, &rename(&["nope"], ObjectType::View, "w", false), &Replies::none()),
        ErrorKind::Catalog,
        "unknown catalog item 'nope'",
    );
}

fn alter_index(index: &str, if_exists: bool, options: AlterIndexOptionsList) -> Statement {
    Statement::AlterIndexOptions(AlterIndexOptionsStatement {
        index_name: name(&[index]),
        if_exists,
        options,
    })
}

fn change(options: Vec<SqlOption>) -> AlterIndexOptionsList {
    AlterIndexOptionsList::Change(options)
}

fn window(c: &Fixture, stmt: &Statement) -> Option<LogicalCompactionWindow> {
    match done(c, stmt, &Replies::none()) {
        Plan::AlterIndexLogicalCompactionWindow(Some(w)) => {
            assert_eq!(w.index, GlobalId::User(4));
            Some(w.logical_compaction_window)
        }
        Plan::AlterIndexLogicalCompactionWindow(None) => None,
        other => panic!("{:?}", other),
    }
}

#[test]
fn alter_index_windows() {
    let c = fixture();
    let lcw = "logical_compaction_window";
    let set = |v: Value| alter_index("t_a_idx", false, change(vec![option(lcw, v)]));
    assert_eq!(window(&c, &set(text("off"))), Some(LogicalCompactionWindow::Off));
    assert_eq!(
        window(&c, &set(text("1 day 1ms"))),
        Some(LogicalCompactionWindow::Custom(Duration {
            secs: 86400,
            nanos: 1_000_000
        }))
    );
    let custom = |secs, nanos| Some(LogicalCompactionWindow::Custom(Duration { secs, nanos }));
    // The last letter of a unit is no exponent.
    assert_eq!(window(&c, &set(text("1 minute100000 ms"))), custom(160, 0));
    assert_eq!(window(&c, &set(text("1e000001 s"))), custom(10, 0));
    assert_eq!(window(&c, &set(text("1e-100000 s"))), custom(0, 0));
    assert_eq!(window(&c, &set(text("0e100000 s"))), custom(0, 0));
    // An exponent that nothing is raised to does no harm.
    assert_error(
        error(&c, &set(text("1e10000000000")), &Replies::none()),
        ErrorKind::Duration,
        "NoUnitFoundError: no unit found for the value \"1e10000000000\"",
    );
    assert_error(
        error(&c, &set(text("1e10000000000 fortnights")), &Replies::none()),
        ErrorKind::Duration,
        "UnknownUnitError: \"fortnights\" is not a known unit",
    );
    assert_error(
        error(&c, &set(text("1e99999999999999999999 s")), &Replies::none()),
        ErrorKind::Duration,
        "ParseIntError: Failed to parse \"99999999999999999999\" as an integer",
    );
    assert_eq!(window(&c, &alter_index("t_a_idx", false, change(vec![]))), None);
    // The last of several settings holds.
    assert_eq!(
        window(
            &c,
            &alter_index(
                "t_a_idx",
                false,
                change(vec![option(lcw, number("1")), option(lcw, text("off"))])
            )
        ),
        Some(LogicalCompactionWindow::Off)
    );
    assert_eq!(
        window(
            &c,
            &alter_index(
                "t_a_idx",
                false,
                AlterIndexOptionsList::Reset(vec![id("unheard_of"), id(lcw)])
            )
        ),
        Some(LogicalCompactionWindow::Default)
    );
    assert_eq!(
        window(
            &c,
            &alter_index("t_a_idx", false, AlterIndexOptionsList::Reset(vec![id("unheard_of")]))
        ),
        None
    );
    assert_eq!(window(&c, &alter_index("nope", true, change(vec![option("x", text("y"))]))), None);
    assert_error(
        error(&c, &set(number("1")), &Replies::none()),
        ErrorKind::Invalid,
        "\"logical_compaction_window\" must be a string",
    );
    assert_error(
        error(&c, &set(text("forever")), &Replies::none()),
        ErrorKind::Duration,
        "NoValueFoundError: no value found in the string \"forever\"",
    );
    assert_error(
        error(&c, &set(text("3 fortnights")), &Replies::none()),
        ErrorKind::Duration,
        "UnknownUnitError: \"fortnights\" is not a known unit",
    );
    assert_error(
        error(
            &c,
            &alter_index(
                "t_a_idx",
                false,
                change(vec![option(lcw, text("off")), option("size", text("1"))]),
            ),
            &Replies::none(),
        ),
        ErrorKind::Invalid,
        "unrecognized parameter: \"size\". Only \"logical_compaction_window\" is currently supported.",
    );
    assert_error(
        error(&c, &alter_index("v", false, change(vec![])), &Replies::none()),
        ErrorKind::Invalid,
        "materialize.public.v is a view not a index",
    );
    assert_error(
        error(&c, &alter_index("nope", false, change(vec![])), &Replies::none()),
        ErrorKind::Catalog,
        "unknown catalog item 'nope'",
    );
}

#[test]
fn options_do_not_matter_where_there_is_no_index() {
    let c = fixture();
    let huge = || change(vec![option("logical_compaction_window", text("1e10000000000 s"))]);
    assert_eq!(window(&c, &alter_index("nope", true, huge())), None);
    assert_error(
        error(&c, &alter_index("nope", false, huge()), &Replies::none()),
        ErrorKind::Catalog,
        "unknown catalog item 'nope'",
    );
    assert_error(
        error(&c, &alter_index("v", true, huge()), &Replies::none()),
        ErrorKind::Invalid,
        "materialize.public.v is a view not a index",
    );
}

#[test]
fn custom_windows_take_any_outcome() {
    let d = Duration { secs: 5, nanos: 6 };
    assert_eq!(make_custom_window(Ok(d)).unwrap(), LogicalCompactionWindow::Custom(d));
    assert_error(
        make_custom_window(Err("no".to_string())).unwrap_err(),
        ErrorKind::Duration,
        "no",
    );
}

// Variables.

#[test]
fn set_variables() {
    let c = fixture();
    let set = |local, value| {
        Statement::SetVariable(SetVariableStatement { local, variable: id("v"), value })
    };
    let value = |stmt: &Statement| match done(&c, stmt, &Replies::none()) {
        Plan::SetVariable { name, value } => {
            assert_eq!(name, "v");
            value
        }
        other => panic!("{:?}", other),
    };
    assert_eq!(value(&set(false, SetVariableValue::Literal(text("it's")))), "it's");
    assert_eq!(value(&set(false, SetVariableValue::Literal(number("12")))), "12");
    assert_eq!(value(&set(false, SetVariableValue::Literal(Value::Boolean(true)))), "true");
    assert_eq!(value(&set(false, SetVariableValue::Ident(id("utc")))), "utc");
    assert_error(
        error(&c, &set(true, SetVariableValue::Ident(id("utc"))), &Replies::none()),
        ErrorKind::Unsupported,
        "SET LOCAL",
    );
}

#[test]
fn show_variables() {
    let c = fixture();
    let show = |v: &str| Statement::ShowVariable(ShowVariableStatement { variable: id(v) });
    assert!(matches!(done(&c, &show("aLl"), &Replies::none()), Plan::ShowAllVariables));
    assert!(matches!(done(&c, &show("ALL"), &Replies::none()), Plan::ShowAllVariables));
    match done(&c, &show("alle"), &Replies::none()) {
        Plan::ShowVariable(v) => assert_eq!(v, "alle"),
        other => panic!("{:?}", other),
    }
}

#[test]
fn transactions() {
    let c = fixture();
    let none = Replies::none();
    assert!(matches!(done(&c, &Statement::StartTransaction, &none), Plan::StartTransaction));
    assert!(matches!(done(&c, &Statement::Commit, &none), Plan::CommitTransaction));
    assert!(matches!(done(&c, &Statement::Rollback, &none), Plan::AbortTransaction));
}

#[test]
fn refused_statements() {
    let c = fixture();
    for (stmt, text) in vec![
        (Statement::Update, "UPDATE statements are not supported"),
        (Statement::Delete, "DELETE statements are not supported"),
        (Statement::Copy, "COPY statements are not supported"),
        (Statement::SetTransaction, "SET TRANSACTION statements are not supported"),
    ] {
        assert_error(error(&c, &stmt, &Replies::none()), ErrorKind::Invalid, text);
        match describe_statement(&c, &stmt, &vec![], &Replies::none()) {
            Step::Done(Err(e)) => assert_error(e, ErrorKind::Invalid, text),
            other => panic!("{:?}", other),
        }
    }
}

// Queries.

#[test]
fn select_is_planned_step_by_step() {
    let c = fixture();
    let stmt = Statement::Select(SelectStatement { query: sql("SELECT $1"), as_of: Some(expr("5")) });
    let params = Params { datums: vec![Datum { id: 9 }], types: vec![ScalarType::Int64] };
    let mut replies = Replies::none();
    match handle_statement(&PCX, &c, &stmt, &params, &replies) {
        Step::Ask(Question::PlanQuery { query, lifetime, pcx, param_types }) => {
            assert_eq!(query.sql, "SELECT $1");
            assert_eq!(lifetime, QueryLifetime::OneShot);
            assert_eq!(pcx, PCX);
            assert_eq!(param_types, types(&[(1, ScalarType::Int64)]));
        }
        other => panic!("{:?}", other),
    }
    replies.planned = Some(Ok(planned()));
    match handle_statement(&PCX, &c, &stmt, &params, &replies) {
        Step::Ask(Question::Bind { expr, params }) => {
            assert_eq!(expr, HirExpr { id: 10 });
            assert_eq!(params.datums, vec![Datum { id: 9 }]);
        }
        other => panic!("{:?}", other),
    }
    replies.bound = Some(Ok(HirExpr { id: 20 }));
    match handle_statement(&PCX, &c, &stmt, &params, &replies) {
        Step::Ask(Question::Decorrelate { expr }) => assert_eq!(expr, HirExpr { id: 20 }),
        other => panic!("{:?}", other),
    }
    replies.decorrelated = Some(RelationExpr { id: 30 });
    match handle_statement(&PCX, &c, &stmt, &params, &replies) {
        Step::Ask(Question::EvalAsOf { expr }) => assert_eq!(expr.sql, "5"),
        other => panic!("{:?}", other),
    }
    replies.as_of = Some(Ok(5));
    match handle_statement(&PCX, &c, &stmt, &params, &replies) {
        Step::Done(Ok(Plan::Peek { source, when, finishing, materialize })) => {
            assert_eq!(source, RelationExpr { id: 30 });
            assert_eq!(when, PeekWhen::AtTimestamp(5));
            assert_eq!(finishing, RowSetFinishing { id: 11 });
            assert!(materialize);
        }
        other => panic!("{:?}", other),
    }
    replies.as_of = Some(Err(engine_error("no time")));
    match handle_statement(&PCX, &c, &stmt, &params, &replies) {
        Step::Done(Err(e)) => assert_error(e, ErrorKind::Engine, "no time"),
        other => panic!("{:?}", other),
    }
}

#[test]
fn select_fails_with_the_engine() {
    let c = fixture();
    let stmt = Statement::Select(SelectStatement { query: sql("SELECT"), as_of: None });
    let mut replies = Replies::none();
    replies.planned = Some(Err(engine_error("bad query")));
    assert_error(error(&c, &stmt, &replies), ErrorKind::Engine, "bad query");
    replies.planned = Some(Ok(planned()));
    replies.bound = Some(Err(engine_error("bad parameters")));
    assert_error(error(&c, &stmt, &replies), ErrorKind::Engine, "bad parameters");
    replies.bound = Some(Ok(HirExpr { id: 1 }));
    replies.decorrelated = Some(RelationExpr { id: 2 });
    match done(&c, &stmt, &replies) {
        Plan::Peek { when, .. } => assert_eq!(when, PeekWhen::Immediately),
        other => panic!("{:?}", other),
    }
}

fn explain(explainee: Explainee) -> Statement {
    Statement::Explain(ExplainStatement {
        stage: ExplainStage::DecorrelatedPlan,
        explainee,
        options: ExplainOptions { typed: true },
    })
}

#[test]
fn explain_a_query() {
    let c = fixture();
    let stmt = explain(Explainee::Query(sql("SELECT 1")));
    let mut replies = Replies::none();
    replies.planned = Some(Ok(planned()));
    match question(&c, &stmt, &replies) {
        Question::IsTrivial { finishing, arity } => {
            assert_eq!(finishing, RowSetFinishing { id: 11 });
            assert_eq!(arity, 2);
        }
        other => panic!("{:?}", other),
    }
    replies.trivial = Some(false);
    assert!(matches!(
        question(&c, &stmt, &replies),
        Question::Bind { expr: HirExpr { id: 10 }, .. }
    ));
    replies.bound = Some(Ok(HirExpr { id: 20 }));
    replies.decorrelated = Some(RelationExpr { id: 30 });
    match done(&c, &stmt, &replies) {
        Plan::ExplainPlan { raw_plan, decorrelated_plan, row_set_finishing, stage, options } => {
            assert_eq!(raw_plan, HirExpr { id: 20 });
            assert_eq!(decorrelated_plan, RelationExpr { id: 30 });
            assert_eq!(row_set_finishing, Some(RowSetFinishing { id: 11 }));
            assert_eq!(stage, ExplainStage::DecorrelatedPlan);
            assert!(options.typed);
        }
        other => panic!("{:?}", other),
    }
    replies.trivial = Some(true);
    match done(&c, &stmt, &replies) {
        Plan::ExplainPlan { row_set_finishing, .. } => assert_eq!(row_set_finishing, None),
        other => panic!("{:?}", other),
    }
}

#[test]
fn explain_a_view() {
    let c = fixture();
    let stmt = explain(Explainee::View(name(&["v"])));
    let mut replies = Replies::none();
    match question(&c, &stmt, &replies) {
        Question::ParseView { sql } => assert_eq!(sql, "CREATE v"),
        other => panic!("{:?}", other),
    }
    replies.parsed_view = Some(sql("SELECT a FROM t"));
    match question(&c, &stmt, &replies) {
        Question::PlanQuery { query, pcx, .. } => {
            assert_eq!(query.sql, "SELECT a FROM t");
            // A view is planned in the circumstances in which it was created.
            assert_eq!(pcx, PlanContext { wall_time_ms: 7000 });
        }
        other => panic!("{:?}", other),
    }
    replies.planned = Some(Ok(planned()));
    assert!(matches!(
        question(&c, &stmt, &replies),
        Question::Finish { expr: HirExpr { id: 10 }, finishing: RowSetFinishing { id: 11 } }
    ));
    replies.finished = Some(HirExpr { id: 15 });
    assert!(matches!(
        question(&c, &stmt, &replies),
        Question::Bind { expr: HirExpr { id: 15 }, .. }
    ));
    replies.bound = Some(Ok(HirExpr { id: 20 }));
    replies.decorrelated = Some(RelationExpr { id: 30 });
    match done(&c, &stmt, &replies) {
        Plan::ExplainPlan { row_set_finishing, .. } => assert_eq!(row_set_finishing, None),
        other => panic!("{:?}", other),
    }
    assert_error(
        error(&c, &explain(Explainee::View(name(&["public", "s"]))), &Replies::none()),
        ErrorKind::Invalid,
        "Expected public.s to be a view, not a source",
    );
}

#[test]
fn tail_relations() {
    let c = fixture();
    let tail = |n: &str, as_of| {
        Statement::Tail(TailStatement { name: name(&[n]), as_of, with_snapshot: true })
    };
    match done(&c, &tail("s", None), &Replies::none()) {
        Plan::Tail { id, ts, with_snapshot } => {
            assert_eq!(id, GlobalId::User(3));
            assert_eq!(ts, None);
            assert!(with_snapshot);
        }
        other => panic!("{:?}", other),
    }
    assert!(matches!(
        question(&c, &tail("t", Some(expr("now()"))), &Replies::none()),
        Question::EvalAsOf { .. }
    ));
    let mut replies = Replies::none();
    replies.as_of = Some(Ok(8));
    match done(&c, &tail("t", Some(expr("now()"))), &replies) {
        Plan::Tail { ts, .. } => assert_eq!(ts, Some(8)),
        other => panic!("{:?}", other),
    }
    assert_error(
        error(&c, &tail("k", None), &Replies::none()),
        ErrorKind::Invalid,
        "'materialize.public.k' cannot be tailed because it is a sink",
    );
    assert_error(
        error(&c, &tail("t_a_idx", None), &Replies::none()),
        ErrorKind::Invalid,
        "'materialize.public.t_a_idx' cannot be tailed because it is a index",
    );
}

fn insert() -> Statement {
    Statement::Insert(InsertStatement {
        table_name: name(&["public", "t"]),
        columns: vec![id("a")],
        source: "VALUES ($1)".to_string(),
    })
}

#[test]
fn insert_rows() {
    let c = fixture();
    let mut replies = Replies::none();
    match question(&c, &insert(), &replies) {
        Question::PlanInsert { table_name, columns, source, pcx, param_types } => {
            assert_eq!(table_name.to_sql(), "public.t");
            assert_eq!(columns[0].value, "a");
            assert_eq!(source, "VALUES ($1)");
            assert_eq!(pcx, PCX);
            assert!(param_types.is_empty());
        }
        other => panic!("{:?}", other),
    }
    replies.inserted = Some(Ok(PlannedInsert {
        id: GlobalId::User(1),
        expr: HirExpr { id: 3 },
        param_types: BTreeMap::new(),
    }));
    replies.bound = Some(Ok(HirExpr { id: 4 }));
    assert!(matches!(
        question(&c, &insert(), &replies),
        Question::Decorrelate { expr: HirExpr { id: 4 } }
    ));
    replies.decorrelated = Some(RelationExpr { id: 5 });
    match done(&c, &insert(), &replies) {
        Plan::Insert { id, values } => {
            assert_eq!(id, GlobalId::User(1));
            assert_eq!(values, RelationExpr { id: 5 });
        }
        other => panic!("{:?}", other),
    }
    replies.inserted = Some(Err(engine_error("no such table")));
    assert_error(error(&c, &insert(), &replies), ErrorKind::Engine, "no such table");
}

// Descriptions.

fn describe(c: &Fixture, stmt: &Statement, replies: &Replies) -> Description {
    match describe_statement(c, stmt, &vec![], replies) {
        Step::Done(Ok(d)) => d,
        other => panic!("{:?}", other),
    }
}

fn columns(d: &RelationDesc) -> Vec<(String, ColumnType)> {
    d.names
        .iter()
        .map(|n| n.clone().unwrap())
        .zip(d.typ.column_types.iter().cloned())
        .collect()
}

fn column_names(d: Description) -> Vec<String> {
    columns(&d.desc.unwrap()).into_iter().map(|c| c.0).collect()
}

#[test]
fn shown_objects_have_columns() {
    let names = |t, m, f| {
        columns(&make_show_objects_desc(t, m, f)).into_iter().map(|c| c.0).collect::<Vec<_>>()
    };
    assert_eq!(names(ObjectType::Schema, false, false), vec!["SCHEMAS"]);
    assert_eq!(names(ObjectType::Index, false, false), vec!["INDEXES"]);
    assert_eq!(names(ObjectType::Table, false, true), vec!["TABLES", "TYPE"]);
    assert_eq!(names(ObjectType::Sink, true, true), vec!["SINKS", "TYPE"]);
    assert_eq!(names(ObjectType::View, false, true), vec!["VIEWS", "TYPE", "MATERIALIZED"]);
    assert_eq!(names(ObjectType::View, true, true), vec!["VIEWS", "TYPE"]);
    assert_eq!(names(ObjectType::Source, false, true), vec!["SOURCES", "TYPE", "MATERIALIZED"]);
    assert_eq!(names(ObjectType::Source, false, false), vec!["SOURCES"]);
    let d = make_show_objects_desc(ObjectType::View, false, true);
    assert_eq!(d.typ.column_types[0], text_type(false));
    assert_eq!(
        d.typ.column_types[2],
        ColumnType { scalar_type: ScalarType::Bool, nullable: false }
    );
    assert!(d.typ.keys.is_empty());
}

#[test]
fn statements_without_rows_are_described() {
    let c = fixture();
    for stmt in vec![
        drop_objects(ObjectType::View, &[&["nope"]], false, false),
        rename(&["v"], ObjectType::View, "w", false),
        Statement::Commit,
    ] {
        let d = describe(&c, &stmt, &Replies::none());
        assert!(d.desc.is_none());
        assert!(d.param_types.is_empty());
    }
}

#[test]
fn show_statements_are_described() {
    let c = fixture();
    let none = Replies::none();
    assert_eq!(
        column_names(describe(
            &c,
            &Statement::ShowCreateView(ShowCreateViewStatement { view_name: name(&["v"]) }),
            &none
        )),
        vec!["View", "Create View"]
    );
    assert_eq!(
        column_names(describe(
            &c,
            &Statement::ShowCreateIndex(ShowCreateIndexStatement { index_name: name(&["v"]) }),
            &none
        )),
        vec!["Index", "Create Index"]
    );
    assert_eq!(
        column_names(describe(
            &c,
            &Statement::ShowDatabases(ShowDatabasesStatement { filter: None }),
            &none
        )),
        vec!["database"]
    );
    assert_eq!(
        column_names(describe(
            &c,
            &Statement::ShowColumns(ShowColumnsStatement {
                extended: false,
                full: false,
                table_name: name(&["t"]),
                filter: None
            }),
            &none
        )),
        vec!["Field", "Nullable", "Type"]
    );
    let indexes = describe(
        &c,
        &Statement::ShowIndexes(ShowIndexesStatement {
            extended: false,
            table_name: name(&["t"]),
            filter: None,
        }),
        &none,
    );
    assert_eq!(
        columns(&indexes.desc.unwrap()),
        vec![
            ("On_name".to_string(), text_type(false)),
            ("Key_name".to_string(), text_type(false)),
            ("Column_name".to_string(), text_type(true)),
            ("Expression".to_string(), text_type(true)),
            ("Null".to_string(), ColumnType { scalar_type: ScalarType::Bool, nullable: false }),
            (
                "Seq_in_index".to_string(),
                ColumnType { scalar_type: ScalarType::Int64, nullable: false }
            ),
        ]
    );
    let show = |v: &str| Statement::ShowVariable(ShowVariableStatement { variable: id(v) });
    assert_eq!(
        column_names(describe(&c, &show("all"), &none)),
        vec!["name", "setting", "description"]
    );
    assert_eq!(column_names(describe(&c, &show("timezone"), &none)), vec!["timezone"]);
}

#[test]
fn tails_are_described_by_what_they_tail() {
    let c = fixture();
    let tail = |n: &str| {
        Statement::Tail(TailStatement { name: name(&[n]), as_of: None, with_snapshot: false })
    };
    assert_eq!(column_names(describe(&c, &tail("t"), &Replies::none())), vec!["a", "b"]);
    match describe_statement(&c, &tail("k"), &vec![], &Replies::none()) {
        Step::Done(Err(e)) => assert_error(e, ErrorKind::Catalog, "k has no columns"),
        other => panic!("{:?}", other),
    }
}

#[test]
fn queries_are_described_by_their_plans() {
    let c = fixture();
    let stmt = Statement::Select(SelectStatement { query: sql("SELECT $1"), as_of: None });
    let given = vec![None, Some(Ok(ScalarType::Bool))];
    match describe_statement(&c, &stmt, &given, &Replies::none()) {
        Step::Ask(Question::PlanQuery { pcx, param_types, lifetime, .. }) => {
            assert_eq!(pcx, PlanContext { wall_time_ms: 0 });
            assert_eq!(param_types, types(&[(2, ScalarType::Bool)]));
            assert_eq!(lifetime, QueryLifetime::OneShot);
        }
        other => panic!("{:?}", other),
    }
    let mut replies = Replies::none();
    let mut p = planned();
    p.param_types = types(&[(1, ScalarType::Int64), (2, ScalarType::Bool)]);
    replies.planned = Some(Ok(p));
    let d = describe(&c, &stmt, &replies);
    assert_eq!(d.param_types, vec![ScalarType::Int64, ScalarType::Bool]);
    assert_eq!(column_names(d), vec!["x", "y"]);

    let explained = describe(&c, &explain(Explainee::Query(sql("SELECT $1"))), &replies);
    assert_eq!(explained.param_types, vec![ScalarType::Int64, ScalarType::Bool]);
    assert_eq!(column_names(explained), vec!["Decorrelated Plan"]);

    let view = describe(&c, &explain(Explainee::View(name(&["v"]))), &Replies::none());
    assert!(view.param_types.is_empty());

    replies.inserted = Some(Ok(PlannedInsert {
        id: GlobalId::User(1),
        expr: HirExpr { id: 3 },
        param_types: types(&[(1, ScalarType::Int32)]),
    }));
    let inserted = describe(&c, &insert(), &replies);
    assert!(inserted.desc.is_none());
    assert_eq!(inserted.param_types, vec![ScalarType::Int32]);

    let mut p = planned();
    p.param_types = types(&[(2, ScalarType::Bool)]);
    replies.planned = Some(Ok(p));
    match describe_statement(&c, &stmt, &vec![], &replies) {
        Step::Done(Err(e)) => {
            assert_error(e, ErrorKind::Invalid, "unable to infer type for parameter $1")
        }
        other => panic!("{:?}", other),
    }
}

#[test]
fn the_first_bad_parameter_type_counts() {
    let c = fixture();
    let given = vec![
        Some(Ok(ScalarType::Bool)),
        Some(Err(engine_error("type a"))),
        Some(Err(engine_error("type b"))),
    ];
    match describe_statement(&c, &Statement::Commit, &given, &Replies::none()) {
        Step::Done(Err(e)) => assert_error(e, ErrorKind::Engine, "type a"),
        other => panic!("{:?}", other),
    }
}

// What the catalog holds.

fn shown_sql(c: &Fixture, stmt: &Statement) -> String {
    match question(c, stmt, &Replies::none()) {
        Question::ParseSelect { sql } => sql,
        other => panic!("{:?}", other),
    }
}

#[test]
fn show_databases_is_a_query() {
    let c = fixture();
    let show = |filter| Statement::ShowDatabases(ShowDatabasesStatement { filter });
    assert_eq!(
        shown_sql(&c, &show(None)),
        "SELECT database
             FROM mz_catalog.mz_databases
             WHERE mz_catalog.mz_databases.id != -1 "
    );
    assert_eq!(
        shown_sql(&c, &show(Some(ShowStatementFilter::Like("it's%".to_string())))),
        "SELECT database
             FROM mz_catalog.mz_databases
             WHERE mz_catalog.mz_databases.id != -1 AND database LIKE 'it''s%'"
    );
    assert_eq!(
        shown_sql(&c, &show(Some(ShowStatementFilter::Where(expr("database > 'a'"))))),
        "SELECT database
             FROM mz_catalog.mz_databases
             WHERE mz_catalog.mz_databases.id != -1 AND database > 'a'"
    );
}

#[test]
fn generated_queries_run_without_parameters() {
    let c = fixture();
    let stmt = Statement::ShowDatabases(ShowDatabasesStatement { filter: None });
    let mut replies = Replies::none();
    replies.parsed_select = Some(Ok(sql("SELECT database")));
    let params = Params { datums: vec![Datum { id: 1 }], types: vec![ScalarType::Bool] };
    match handle_statement(&PCX, &c, &stmt, &params, &replies) {
        Step::Ask(Question::PlanQuery { query, lifetime, .. }) => {
            assert_eq!(query.sql, "SELECT database");
            assert_eq!(lifetime, QueryLifetime::OneShot);
        }
        other => panic!("{:?}", other),
    }
    replies.planned = Some(Ok(planned()));
    match handle_statement(&PCX, &c, &stmt, &params, &replies) {
        Step::Ask(Question::Bind { params, .. }) => {
            assert!(params.datums.is_empty());
            assert!(params.types.is_empty());
        }
        other => panic!("{:?}", other),
    }
    replies.bound = Some(Ok(HirExpr { id: 1 }));
    replies.decorrelated = Some(RelationExpr { id: 2 });
    match done(&c, &stmt, &replies) {
        Plan::Peek { when, .. } => assert_eq!(when, PeekWhen::Immediately),
        other => panic!("{:?}", other),
    }
    replies.parsed_select = Some(Err(engine_error("syntax")));
    assert_error(error(&c, &stmt, &replies), ErrorKind::Engine, "syntax");
}

fn show_objects(
    object_type: ObjectType,
    extended: bool,
    full: bool,
    materialized: bool,
    from: Option<ObjectName>,
    filter: Option<ShowStatementFilter>,
) -> Statement {
    Statement::ShowObjects(ShowObjectsStatement {
        extended,
        full,
        materialized,
        object_type,
        from,
        filter,
    })
}

#[test]
fn show_schemas_is_a_query() {
    let c = fixture();
    assert_eq!(
        shown_sql(&c, &show_objects(ObjectType::Schema, false, false, false, None, None)),
        "SELECT schema
            FROM mz_catalog.mz_schemas
            JOIN mz_catalog.mz_databases ON mz_catalog.mz_schemas.database_id = mz_catalog.mz_databases.id
            WHERE mz_catalog.mz_databases.database = 'materialize' "
    );
    assert_eq!(
        shown_sql(
            &c,
            &show_objects(
                ObjectType::Schema,
                true,
                true,
                false,
                Some(name(&["materialize"])),
                Some(ShowStatementFilter::Like("p".to_string()))
            )
        ),
        "SELECT schema, type
            FROM mz_catalog.mz_schemas
            JOIN mz_catalog.mz_databases ON mz_catalog.mz_schemas.database_id = mz_catalog.mz_databases.id
            WHERE mz_catalog.mz_databases.database = 'materialize' OR mz_catalog.mz_databases.id = -1 AND schema LIKE 'p'"
    );
    assert!(shown_sql(&c, &show_objects(ObjectType::Schema, false, true, false, None, None))
        .starts_with("SELECT schema, type\n"));
    assert!(shown_sql(&c, &show_objects(ObjectType::Schema, true, false, false, None, None))
        .ends_with("OR mz_catalog.mz_databases.id = -1 "));
    assert_error(
        error(
            &c,
            &show_objects(ObjectType::Schema, false, false, false, Some(name(&["a", "b"])), None),
            &Replies::none(),
        ),
        ErrorKind::OverqualifiedDatabaseName,
        "a.b",
    );
}

#[test]
fn show_contents_of_schemas_is_a_query() {
    let c = fixture();
    assert_eq!(
        shown_sql(&c, &show_objects(ObjectType::Sink, false, false, false, None, None)),
        "SELECT sinks FROM mz_catalog.mz_sinks WHERE schema_id = 3  ORDER BY sinks"
    );
    assert_eq!(
        shown_sql(
            &c,
            &show_objects(
                ObjectType::Sink,
                false,
                true,
                false,
                Some(name(&["mz_catalog"])),
                Some(ShowStatementFilter::Where(expr("true")))
            )
        ),
        "SELECT sinks, type
            FROM mz_catalog.mz_sinks
            JOIN mz_catalog.mz_schemas ON mz_catalog.mz_sinks.schema_id = mz_catalog.mz_schemas.schema_id
            WHERE schema_id = -1 AND true
            ORDER BY sinks, type"
    );
    assert_eq!(
        shown_sql(&c, &show_objects(ObjectType::Table, false, false, false, None, None)),
        "SELECT tables FROM mz_catalog.mz_tables WHERE schema_id = 3  ORDER BY tables"
    );
    assert_eq!(
        shown_sql(
            &c,
            &show_objects(
                ObjectType::Source,
                false,
                false,
                false,
                Some(name(&["empty"])),
                Some(ShowStatementFilter::Like("a".to_string()))
            )
        ),
        "SELECT sources FROM mz_catalog.mz_sources WHERE schema_id = 12 AND sources LIKE 'a' ORDER BY sources"
    );
    assert_eq!(
        shown_sql(&c, &show_objects(ObjectType::View, false, false, false, None, None)),
        "SELECT views
             FROM mz_catalog.mz_views
             WHERE mz_catalog.mz_views.schema_id = 3 
             ORDER BY views ASC"
    );
    let materialized = shown_sql(&c, &show_objects(ObjectType::View, false, true, true, None, None));
    assert!(materialized.starts_with("SELECT views, type\n"));
    assert!(materialized.contains("AND mz_indexes_count.count > 0 \n"));
    let full = shown_sql(&c, &show_objects(ObjectType::Source, false, true, false, None, None));
    assert!(full.starts_with(
        "SELECT sources, type, CASE WHEN count > 0 then true ELSE false END materialized\n"
    ));
    assert_error(
        error(
            &c,
            &show_objects(ObjectType::Table, true, false, false, None, None),
            &Replies::none(),
        ),
        ErrorKind::Unsupported,
        "SHOW EXTENDED TABLES",
    );
    assert_error(
        error(
            &c,
            &show_objects(ObjectType::View, false, false, false, Some(name(&["nope"])), None),
            &Replies::none(),
        ),
        ErrorKind::Catalog,
        "unknown schema 'nope'",
    );
}

#[test]
fn show_indexes_is_a_query() {
    let c = fixture();
    let show = |n: &str, extended, filter| {
        Statement::ShowIndexes(ShowIndexesStatement { extended, table_name: name(&[n]), filter })
    };
    let base = shown_sql(&c, &show("t", false, None));
    assert!(base.contains("on_names.name = 'materialize.public.t'\n"));
    assert!(base.ends_with("seq_in_index asc"));
    let filtered =
        shown_sql(&c, &show("t", false, Some(ShowStatementFilter::Like("x".to_string()))));
    assert_eq!(
        filtered,
        format!(
            "SELECT on_name, key_name, column_name, expression, nullable, seq_in_index
             FROM ({})
             WHERE key_name LIKE 'x'",
            base
        )
    );
    assert!(shown_sql(&c, &show("t", false, Some(ShowStatementFilter::Where(expr("nullable")))))
        .ends_with("WHERE nullable"));
    assert_error(
        error(&c, &show("k", false, None), &Replies::none()),
        ErrorKind::Invalid,
        "cannot show indexes on materialize.public.k because it is a sink",
    );
    assert_error(
        error(&c, &show("t", true, None), &Replies::none()),
        ErrorKind::Unsupported,
        "SHOW EXTENDED INDEXES",
    );
}

#[test]
fn show_columns_is_a_query() {
    let c = fixture();
    let show = |extended, full, filter| {
        Statement::ShowColumns(ShowColumnsStatement {
            extended,
            full,
            table_name: name(&["v"]),
            filter,
        })
    };
    assert_eq!(
        shown_sql(&c, &show(false, false, Some(ShowStatementFilter::Like("f".to_string())))),
        "SELECT
            mz_columns.field,
            CASE WHEN mz_columns.nullable THEN 'YES' ELSE 'NO' END nullable,
            mz_columns.type
         FROM mz_catalog.mz_columns AS mz_columns
         JOIN mz_catalog.mz_catalog_names AS mz_catalog_names ON mz_columns.global_id = mz_catalog_names.global_id
         WHERE mz_catalog_names.name = 'materialize.public.v' AND field LIKE 'f'
         ORDER BY mz_columns.field_number ASC"
    );
    assert_error(
        error(&c, &show(true, true, None), &Replies::none()),
        ErrorKind::Unsupported,
        "SHOW EXTENDED COLUMNS",
    );
    assert_error(
        error(&c, &show(false, true, None), &Replies::none()),
        ErrorKind::Unsupported,
        "SHOW FULL COLUMNS",
    );
}

#[test]
fn show_create_items() {
    let c = fixture();
    let rows = |stmt: &Statement| match done(&c, stmt, &Replies::none()) {
        Plan::SendRows(rows) => {
            rows.into_iter().map(|r| r.values).collect::<Vec<_>>()
        }
        other => panic!("{:?}", other),
    };
    let index = |n: &str| {
        Statement::ShowCreateIndex(ShowCreateIndexStatement { index_name: name(&[n]) })
    };
    assert_eq!(
        rows(&index("t_a_idx")),
        vec![vec![
            "materialize.public.t_a_idx".to_string(),
            "CREATE INDEX t_a_idx ON t (a)".to_string()
        ]]
    );
    assert_eq!(
        rows(&Statement::ShowCreateTable(ShowCreateTableStatement { table_name: name(&["t"]) }))
            .len(),
        1
    );
    let none = Replies::none();
    assert_error(
        error(&c, &index("t"), &none),
        ErrorKind::Invalid,
        "'materialize.public.t' is not an index",
    );
    assert_error(
        error(
            &c,
            &Statement::ShowCreateSink(ShowCreateSinkStatement { sink_name: name(&["t"]) }),
            &none,
        ),
        ErrorKind::Invalid,
        "'materialize.public.t' is not a sink",
    );
    assert_error(
        error(
            &c,
            &Statement::ShowCreateSource(ShowCreateSourceStatement { source_name: name(&["t"]) }),
            &none,
        ),
        ErrorKind::Invalid,
        "materialize.public.t is not a source",
    );
    assert_error(
        error(
            &c,
            &Statement::ShowCreateView(ShowCreateViewStatement { view_name: name(&["t"]) }),
            &none,
        ),
        ErrorKind::Invalid,
        "materialize.public.t is not a view",
    );
    assert_error(
        error(
            &c,
            &Statement::ShowCreateTable(ShowCreateTableStatement { table_name: name(&["v"]) }),
            &none,
        ),
        ErrorKind::Invalid,
        "materialize.public.v is not a table",
    );
}

#[test]
fn every_query_for_objects_is_exact() {
    let c = fixture();
    let like = || Some(ShowStatementFilter::Like("x%".to_string()));
    for (object_type, extended, full, materialized, filter, sql) in vec![
        (
            ObjectType::Schema,
            false,
            false,
            false,
            None,
            "SELECT schema
            FROM mz_catalog.mz_schemas
            JOIN mz_catalog.mz_databases ON mz_catalog.mz_schemas.database_id = mz_catalog.mz_databases.id
            WHERE mz_catalog.mz_databases.database = 'materialize' ",
        ),
        (
            ObjectType::Schema,
            false,
            false,
            false,
            like(),
            "SELECT schema
            FROM mz_catalog.mz_schemas
            JOIN mz_catalog.mz_databases ON mz_catalog.mz_schemas.database_id = mz_catalog.mz_databases.id
            WHERE mz_catalog.mz_databases.database = 'materialize' AND schema LIKE 'x%'",
        ),
        (
            ObjectType::Schema,
            false,
            true,
            false,
            None,
            "SELECT schema, type
            FROM mz_catalog.mz_schemas
            JOIN mz_catalog.mz_databases ON mz_catalog.mz_schemas.database_id = mz_catalog.mz_databases.id
            WHERE mz_catalog.mz_databases.database = 'materialize' ",
        ),
        (
            ObjectType::Schema,
            false,
            true,
            false,
            like(),
            "SELECT schema, type
            FROM mz_catalog.mz_schemas
            JOIN mz_catalog.mz_databases ON mz_catalog.mz_schemas.database_id = mz_catalog.mz_databases.id
            WHERE mz_catalog.mz_databases.database = 'materialize' AND schema LIKE 'x%'",
        ),
        (
            ObjectType::Schema,
            true,
            false,
            false,
            None,
            "SELECT schema
            FROM mz_catalog.mz_schemas
            JOIN mz_catalog.mz_databases ON mz_catalog.mz_schemas.database_id = mz_catalog.mz_databases.id
            WHERE mz_catalog.mz_databases.database = 'materialize' OR mz_catalog.mz_databases.id = -1 ",
        ),
        (
            ObjectType::Schema,
            true,
            false,
            false,
            like(),
            "SELECT schema
            FROM mz_catalog.mz_schemas
            JOIN mz_catalog.mz_databases ON mz_catalog.mz_schemas.database_id = mz_catalog.mz_databases.id
            WHERE mz_catalog.mz_databases.database = 'materialize' OR mz_catalog.mz_databases.id = -1 AND schema LIKE 'x%'",
        ),
        (
            ObjectType::Schema,
            true,
            true,
            false,
            None,
            "SELECT schema, type
            FROM mz_catalog.mz_schemas
            JOIN mz_catalog.mz_databases ON mz_catalog.mz_schemas.database_id = mz_catalog.mz_databases.id
            WHERE mz_catalog.mz_databases.database = 'materialize' OR mz_catalog.mz_databases.id = -1 ",
        ),
        (
            ObjectType::Schema,
            true,
            true,
            false,
            like(),
            "SELECT schema, type
            FROM mz_catalog.mz_schemas
            JOIN mz_catalog.mz_databases ON mz_catalog.mz_schemas.database_id = mz_catalog.mz_databases.id
            WHERE mz_catalog.mz_databases.database = 'materialize' OR mz_catalog.mz_databases.id = -1 AND schema LIKE 'x%'",
        ),
        (
            ObjectType::View,
            false,
            false,
            false,
            None,
            "SELECT views
             FROM mz_catalog.mz_views
             WHERE mz_catalog.mz_views.schema_id = 3 
             ORDER BY views ASC",
        ),
        (
            ObjectType::View,
            false,
            false,
            false,
            like(),
            "SELECT views
             FROM mz_catalog.mz_views
             WHERE mz_catalog.mz_views.schema_id = 3 AND views LIKE 'x%'
             ORDER BY views ASC",
        ),
        (
            ObjectType::View,
            false,
            true,
            false,
            None,
            "SELECT
                views,
                type,
                count > 0 as materialized
             FROM mz_catalog.mz_views as mz_views
             JOIN mz_catalog.mz_schemas ON mz_catalog.mz_views.schema_id = mz_catalog.mz_schemas.schema_id
             JOIN (SELECT mz_views.global_id as global_id, count(mz_indexes.on_global_id) AS count
                   FROM mz_views
                   LEFT JOIN mz_indexes on mz_views.global_id = mz_indexes.on_global_id
                   GROUP BY mz_views.global_id) as mz_indexes_count
                ON mz_views.global_id = mz_indexes_count.global_id
             WHERE mz_catalog.mz_views.schema_id = 3 
             ORDER BY views ASC",
        ),
        (
            ObjectType::View,
            false,
            true,
            false,
            like(),
            "SELECT
                views,
                type,
                count > 0 as materialized
             FROM mz_catalog.mz_views as mz_views
             JOIN mz_catalog.mz_schemas ON mz_catalog.mz_views.schema_id = mz_catalog.mz_schemas.schema_id
             JOIN (SELECT mz_views.global_id as global_id, count(mz_indexes.on_global_id) AS count
                   FROM mz_views
                   LEFT JOIN mz_indexes on mz_views.global_id = mz_indexes.on_global_id
                   GROUP BY mz_views.global_id) as mz_indexes_count
                ON mz_views.global_id = mz_indexes_count.global_id
             WHERE mz_catalog.mz_views.schema_id = 3 AND views LIKE 'x%'
             ORDER BY views ASC",
        ),
        (
            ObjectType::View,
            false,
            false,
            true,
            None,
            "SELECT views
             FROM mz_catalog.mz_views
             JOIN (SELECT mz_views.global_id as global_id, count(mz_indexes.on_global_id) AS count
                   FROM mz_views
                   LEFT JOIN mz_indexes on mz_views.global_id = mz_indexes.on_global_id
                   GROUP BY mz_views.global_id) as mz_indexes_count
                ON mz_views.global_id = mz_indexes_count.global_id
             WHERE mz_catalog.mz_views.schema_id = 3
                AND mz_indexes_count.count > 0 
             ORDER BY views ASC",
        ),
        (
            ObjectType::View,
            false,
            false,
            true,
            like(),
            "SELECT views
             FROM mz_catalog.mz_views
             JOIN (SELECT mz_views.global_id as global_id, count(mz_indexes.on_global_id) AS count
                   FROM mz_views
                   LEFT JOIN mz_indexes on mz_views.global_id = mz_indexes.on_global_id
                   GROUP BY mz_views.global_id) as mz_indexes_count
                ON mz_views.global_id = mz_indexes_count.global_id
             WHERE mz_catalog.mz_views.schema_id = 3
                AND mz_indexes_count.count > 0 AND views LIKE 'x%'
             ORDER BY views ASC",
        ),
        (
            ObjectType::View,
            false,
            true,
            true,
            None,
            "SELECT views, type
             FROM mz_catalog.mz_views
             JOIN mz_catalog.mz_schemas ON mz_catalog.mz_views.schema_id = mz_catalog.mz_schemas.schema_id
             JOIN (SELECT mz_views.global_id as global_id, count(mz_indexes.on_global_id) AS count
                   FROM mz_views
                   LEFT JOIN mz_indexes on mz_views.global_id = mz_indexes.on_global_id
                   GROUP BY mz_views.global_id) as mz_indexes_count
                ON mz_views.global_id = mz_indexes_count.global_id
             WHERE mz_catalog.mz_views.schema_id = 3
                AND mz_indexes_count.count > 0 
             ORDER BY views ASC",
        ),
        (
            ObjectType::View,
            false,
            true,
            true,
            like(),
            "SELECT views, type
             FROM mz_catalog.mz_views
             JOIN mz_catalog.mz_schemas ON mz_catalog.mz_views.schema_id = mz_catalog.mz_schemas.schema_id
             JOIN (SELECT mz_views.global_id as global_id, count(mz_indexes.on_global_id) AS count
                   FROM mz_views
                   LEFT JOIN mz_indexes on mz_views.global_id = mz_indexes.on_global_id
                   GROUP BY mz_views.global_id) as mz_indexes_count
                ON mz_views.global_id = mz_indexes_count.global_id
             WHERE mz_catalog.mz_views.schema_id = 3
                AND mz_indexes_count.count > 0 AND views LIKE 'x%'
             ORDER BY views ASC",
        ),
        (
            ObjectType::Source,
            false,
            false,
            false,
            None,
            "SELECT sources FROM mz_catalog.mz_sources WHERE schema_id = 3  ORDER BY sources",
        ),
        (
            ObjectType::Source,
            false,
            false,
            false,
            like(),
            "SELECT sources FROM mz_catalog.mz_sources WHERE schema_id = 3 AND sources LIKE 'x%' ORDER BY sources",
        ),
        (
            ObjectType::Source,
            false,
            true,
            false,
            None,
            "SELECT sources, type, CASE WHEN count > 0 then true ELSE false END materialized
            FROM mz_catalog.mz_sources
            JOIN mz_catalog.mz_schemas ON mz_catalog.mz_sources.schema_id = mz_catalog.mz_schemas.schema_id
            JOIN (SELECT mz_catalog.mz_sources.global_id as global_id, count(mz_catalog.mz_indexes.on_global_id) AS count
                  FROM mz_catalog.mz_sources
                  LEFT JOIN mz_catalog.mz_indexes on mz_catalog.mz_sources.global_id = mz_catalog.mz_indexes.on_global_id
                  GROUP BY mz_catalog.mz_sources.global_id) as mz_indexes_count
                ON mz_catalog.mz_sources.global_id = mz_indexes_count.global_id
            WHERE schema_id = 3 
            ORDER BY sources, type",
        ),
        (
            ObjectType::Source,
            false,
            true,
            false,
            like(),
            "SELECT sources, type, CASE WHEN count > 0 then true ELSE false END materialized
            FROM mz_catalog.mz_sources
            JOIN mz_catalog.mz_schemas ON mz_catalog.mz_sources.schema_id = mz_catalog.mz_schemas.schema_id
            JOIN (SELECT mz_catalog.mz_sources.global_id as global_id, count(mz_catalog.mz_indexes.on_global_id) AS count
                  FROM mz_catalog.mz_sources
                  LEFT JOIN mz_catalog.mz_indexes on mz_catalog.mz_sources.global_id = mz_catalog.mz_indexes.on_global_id
                  GROUP BY mz_catalog.mz_sources.global_id) as mz_indexes_count
                ON mz_catalog.mz_sources.global_id = mz_indexes_count.global_id
            WHERE schema_id = 3 AND sources LIKE 'x%'
            ORDER BY sources, type",
        ),
        (
            ObjectType::Source,
            false,
            false,
            true,
            None,
            "SELECT sources
            FROM mz_catalog.mz_sources
            JOIN mz_catalog.mz_schemas ON mz_catalog.mz_sources.schema_id = mz_catalog.mz_schemas.schema_id
            JOIN (SELECT mz_catalog.mz_sources.global_id as global_id, count(mz_catalog.mz_indexes.on_global_id) AS count
                  FROM mz_catalog.mz_sources
                  LEFT JOIN mz_catalog.mz_indexes on mz_catalog.mz_sources.global_id = mz_catalog.mz_indexes.on_global_id
                  GROUP BY mz_catalog.mz_sources.global_id) as mz_indexes_count
                ON mz_catalog.mz_sources.global_id = mz_indexes_count.global_id
            WHERE schema_id = 3  AND mz_indexes_count.count > 0
            ORDER BY sources, type",
        ),
        (
            ObjectType::Source,
            false,
            false,
            true,
            like(),
            "SELECT sources
            FROM mz_catalog.mz_sources
            JOIN mz_catalog.mz_schemas ON mz_catalog.mz_sources.schema_id = mz_catalog.mz_schemas.schema_id
            JOIN (SELECT mz_catalog.mz_sources.global_id as global_id, count(mz_catalog.mz_indexes.on_global_id) AS count
                  FROM mz_catalog.mz_sources
                  LEFT JOIN mz_catalog.mz_indexes on mz_catalog.mz_sources.global_id = mz_catalog.mz_indexes.on_global_id
                  GROUP BY mz_catalog.mz_sources.global_id) as mz_indexes_count
                ON mz_catalog.mz_sources.global_id = mz_indexes_count.global_id
            WHERE schema_id = 3 AND sources LIKE 'x%' AND mz_indexes_count.count > 0
            ORDER BY sources, type",
        ),
        (
            ObjectType::Source,
            false,
            true,
            true,
            None,
            "SELECT sources, type
            FROM mz_catalog.mz_sources
            JOIN mz_catalog.mz_schemas ON mz_catalog.mz_sources.schema_id = mz_catalog.mz_schemas.schema_id
            JOIN (SELECT mz_catalog.mz_sources.global_id as global_id, count(mz_catalog.mz_indexes.on_global_id) AS count
                  FROM mz_catalog.mz_sources
                  LEFT JOIN mz_catalog.mz_indexes on mz_catalog.mz_sources.global_id = mz_catalog.mz_indexes.on_global_id
                  GROUP BY mz_catalog.mz_sources.global_id) as mz_indexes_count
                ON mz_catalog.mz_sources.global_id = mz_indexes_count.global_id
            WHERE schema_id = 3  AND mz_indexes_count.count > 0
            ORDER BY sources, type",
        ),
        (
            ObjectType::Source,
            false,
            true,
            true,
            like(),
            "SELECT sources, type
            FROM mz_catalog.mz_sources
            JOIN mz_catalog.mz_schemas ON mz_catalog.mz_sources.schema_id = mz_catalog.mz_schemas.schema_id
            JOIN (SELECT mz_catalog.mz_sources.global_id as global_id, count(mz_catalog.mz_indexes.on_global_id) AS count
                  FROM mz_catalog.mz_sources
                  LEFT JOIN mz_catalog.mz_indexes on mz_catalog.mz_sources.global_id = mz_catalog.mz_indexes.on_global_id
                  GROUP BY mz_catalog.mz_sources.global_id) as mz_indexes_count
                ON mz_catalog.mz_sources.global_id = mz_indexes_count.global_id
            WHERE schema_id = 3 AND sources LIKE 'x%' AND mz_indexes_count.count > 0
            ORDER BY sources, type",
        ),
        (
            ObjectType::Sink,
            false,
            false,
            false,
            None,
            "SELECT sinks FROM mz_catalog.mz_sinks WHERE schema_id = 3  ORDER BY sinks",
        ),
        (
            ObjectType::Sink,
            false,
            false,
            false,
            like(),
            "SELECT sinks FROM mz_catalog.mz_sinks WHERE schema_id = 3 AND sinks LIKE 'x%' ORDER BY sinks",
        ),
        (
            ObjectType::Table,
            false,
            false,
            false,
            None,
            "SELECT tables FROM mz_catalog.mz_tables WHERE schema_id = 3  ORDER BY tables",
        ),
        (
            ObjectType::Table,
            false,
            false,
            false,
            like(),
            "SELECT tables FROM mz_catalog.mz_tables WHERE schema_id = 3 AND tables LIKE 'x%' ORDER BY tables",
        ),
        (
            ObjectType::Sink,
            false,
            true,
            false,
            None,
            "SELECT sinks, type
            FROM mz_catalog.mz_sinks
            JOIN mz_catalog.mz_schemas ON mz_catalog.mz_sinks.schema_id = mz_catalog.mz_schemas.schema_id
            WHERE schema_id = 3 
            ORDER BY sinks, type",
        ),
        (
            ObjectType::Sink,
            false,
            true,
            false,
            like(),
            "SELECT sinks, type
            FROM mz_catalog.mz_sinks
            JOIN mz_catalog.mz_schemas ON mz_catalog.mz_sinks.schema_id = mz_catalog.mz_schemas.schema_id
            WHERE schema_id = 3 AND sinks LIKE 'x%'
            ORDER BY sinks, type",
        ),
        (
            ObjectType::Table,
            false,
            true,
            false,
            None,
            "SELECT tables, type
            FROM mz_catalog.mz_tables
            JOIN mz_catalog.mz_schemas ON mz_catalog.mz_tables.schema_id = mz_catalog.mz_schemas.schema_id
            WHERE schema_id = 3 
            ORDER BY tables, type",
        ),
        (
            ObjectType::Table,
            false,
            true,
            false,
            like(),
            "SELECT tables, type
            FROM mz_catalog.mz_tables
            JOIN mz_catalog.mz_schemas ON mz_catalog.mz_tables.schema_id = mz_catalog.mz_schemas.schema_id
            WHERE schema_id = 3 AND tables LIKE 'x%'
            ORDER BY tables, type",
        ),
    ] {
        let stmt = show_objects(object_type, extended, full, materialized, None, filter);
        assert_eq!(shown_sql(&c, &stmt), sql);
        // The query selects as many columns as the description announces.
        let selected = sql["SELECT".len()..sql.find("FROM").unwrap()].split(',').count();
        assert_eq!(make_show_objects_desc(object_type, materialized, full).arity(), selected);
    }
}

#[test]
fn every_other_query_is_exact() {
    let c = fixture();
    let show = |filter| {
        Statement::ShowIndexes(ShowIndexesStatement {
            extended: false,
            table_name: name(&["t"]),
            filter,
        })
    };
    let base = "SELECT
            on_names.name as on_name,
            index_names.name as key_name,
            mz_catalog.mz_columns.field as column_name,
            mz_catalog.mz_indexes.expression as expression,
            mz_catalog.mz_indexes.nullable as nullable,
            mz_catalog.mz_indexes.seq_in_index as seq_in_index
        FROM
            mz_catalog.mz_indexes
            JOIN mz_catalog.mz_catalog_names AS on_names ON mz_catalog.mz_indexes.on_global_id = on_names.global_id
            JOIN mz_catalog.mz_catalog_names AS index_names ON mz_catalog.mz_indexes.global_id = index_names.global_id
            LEFT OUTER JOIN mz_catalog.mz_columns ON mz_catalog.mz_indexes.on_global_id = mz_catalog.mz_columns.global_id
                AND mz_catalog.mz_indexes.field_number = mz_catalog.mz_columns.field_number
        WHERE
            on_names.name = 'materialize.public.t'
        ORDER BY
            key_name asc,
            seq_in_index asc";
    assert_eq!(shown_sql(&c, &show(None)), base);
    let columns = Statement::ShowColumns(ShowColumnsStatement {
        extended: false,
        full: false,
        table_name: name(&["t"]),
        filter: None,
    });
    assert_eq!(
        shown_sql(&c, &columns),
        "SELECT
            mz_columns.field,
            CASE WHEN mz_columns.nullable THEN 'YES' ELSE 'NO' END nullable,
            mz_columns.type
         FROM mz_catalog.mz_columns AS mz_columns
         JOIN mz_catalog.mz_catalog_names AS mz_catalog_names ON mz_columns.global_id = mz_catalog_names.global_id
         WHERE mz_catalog_names.name = 'materialize.public.t' 
         ORDER BY mz_columns.field_number ASC"
    );
}

#[test]
fn extended_tables_need_no_name() {
    let stmt = show_objects(ObjectType::Table, true, false, false, Some(name(&[])), None);
    assert_error(
        error(&fixture(), &stmt, &Replies::none()),
        ErrorKind::Unsupported,
        "SHOW EXTENDED TABLES",
    );
}

// Indexes.

fn key_part(text: &str) -> KeyPart {
    if text.chars().all(|c| c.is_ascii_digit()) {
        KeyPart::Number(text.to_string())
    } else if text.chars().all(|c| c.is_ascii_lowercase()) {
        KeyPart::Column(text.to_string())
    } else {
        KeyPart::Expr(expr(text))
    }
}

fn create_index(
    index: Option<&str>,
    on: &str,
    key_parts: Option<&[&str]>,
    if_not_exists: bool,
) -> Statement {
    Statement::CreateIndex(CreateIndexStatement {
        name: index.map(id),
        on_name: name(&[on]),
        key_parts: key_parts.map(|k| k.iter().map(|e| key_part(e)).collect()),
        if_not_exists,
    })
}

fn part_text(part: &KeyPart) -> String {
    match part {
        KeyPart::Expr(e) => format!("expr {}", e.sql),
        KeyPart::Column(c) => format!("column {}", c),
        KeyPart::Number(n) => format!("number {}", n),
    }
}

fn index_name(c: &Fixture, stmt: &Statement, keys: Vec<ScalarExpr>) -> String {
    let mut replies = Replies::none();
    replies.index_keys = Some(Ok(keys));
    replies.create_sql = Some(Ok("sql".to_string()));
    match done(c, stmt, &replies) {
        Plan::CreateIndex { name, .. } => name.to_text(),
        other => panic!("{:?}", other),
    }
}

#[test]
fn create_index_asks_for_keys_and_statement() {
    let c = fixture();
    let stmt = create_index(Some("i"), "t", Some(&["a", "b + 1"]), true);
    let mut replies = Replies::none();
    match question(&c, &stmt, &replies) {
        Question::PlanIndexKeys { desc, key_parts } => {
            assert_eq!(desc.names.len(), 2);
            assert_eq!(
                key_parts.iter().map(part_text).collect::<Vec<_>>(),
                vec!["column a", "expr b + 1"]
            );
        }
        other => panic!("{:?}", other),
    }
    replies.index_keys = Some(Ok(vec![ScalarExpr::Column(0), ScalarExpr::Other(5)]));
    match question(&c, &stmt, &replies) {
        Question::CreateIndexSql { name, key_parts } => {
            assert_eq!(name, "i");
            assert_eq!(key_parts.len(), 2);
        }
        other => panic!("{:?}", other),
    }
    replies.create_sql = Some(Ok("CREATE INDEX".to_string()));
    match done(&c, &stmt, &replies) {
        Plan::CreateIndex { name, index, if_not_exists } => {
            assert_eq!(name.to_text(), "materialize.public.i");
            assert_eq!(index.create_sql, "CREATE INDEX");
            assert_eq!(index.on, GlobalId::User(1));
            assert_eq!(index.keys, vec![ScalarExpr::Column(0), ScalarExpr::Other(5)]);
            assert!(if_not_exists);
        }
        other => panic!("{:?}", other),
    }
}

#[test]
fn default_indexes_have_the_default_key() {
    let mut c = fixture();
    c.items[0].desc = Ok(desc(&[Some("a"), Some("x"), Some("a"), None], vec![vec![1, 2, 3]]));
    match question(&c, &create_index(None, "t", None, false), &Replies::none()) {
        Question::PlanIndexKeys { key_parts, .. } => assert_eq!(
            key_parts.iter().map(part_text).collect::<Vec<_>>(),
            vec!["column x", "number 3", "number 4"]
        ),
        other => panic!("{:?}", other),
    }
    c.items[0].desc = Ok(desc(&[Some("a"), Some("x")], vec![]));
    match question(&c, &create_index(None, "t", None, false), &Replies::none()) {
        Question::PlanIndexKeys { key_parts, .. } => assert_eq!(
            key_parts.iter().map(part_text).collect::<Vec<_>>(),
            vec!["column a", "column x"]
        ),
        other => panic!("{:?}", other),
    }
}

#[test]
fn the_default_index_is_on_the_default_key() {
    let mut c = fixture();
    c.items[0].desc = Ok(desc(&[Some("a"), Some("x"), Some("a")], vec![vec![1, 2]]));
    let default = create_index(Some("i"), "t", None, false);
    let written_out = create_index(Some("i"), "t", Some(&["x", "3"]), false);
    let mut replies = Replies::none();
    let both = |replies: &Replies| {
        let a = format!("{:?}", step(&c, &default, replies));
        assert_eq!(a, format!("{:?}", step(&c, &written_out, replies)));
        a
    };
    assert!(both(&replies).contains("PlanIndexKeys"));
    replies.index_keys = Some(Ok(vec![ScalarExpr::Column(1), ScalarExpr::Column(2)]));
    assert!(both(&replies).contains("CreateIndexSql"));
    replies.create_sql = Some(Ok("CREATE INDEX".to_string()));
    assert!(both(&replies).contains("Done(Ok("));
    replies.index_keys = Some(Err(engine_error("bad key")));
    assert!(both(&replies).contains("bad key"));
}

#[test]
fn named_indexes_take_any_keys() {
    let c = fixture();
    let far = || vec![ScalarExpr::Column(99)];
    assert_eq!(
        index_name(&c, &create_index(Some("i"), "t", Some(&["a"]), false), far()),
        "materialize.public.i"
    );
    assert_eq!(
        index_name(&c, &create_index(None, "t", None, false), far()),
        "materialize.public.t_primary_idx"
    );
}

#[test]
fn indexes_are_named_by_their_keys() {
    let mut c = fixture();
    let named = create_index(None, "t", Some(&["b", "a + 1"]), false);
    assert_eq!(
        index_name(&c, &named, vec![ScalarExpr::Column(1), ScalarExpr::Other(0)]),
        "materialize.public.t_b_expr_idx"
    );
    assert_eq!(
        index_name(&c, &create_index(None, "t", None, false), vec![]),
        "materialize.public.t_primary_idx"
    );
    c.items[0].desc = Ok(desc(&[Some("a"), Some("a")], vec![]));
    assert_eq!(
        index_name(&c, &named, vec![ScalarExpr::Column(1)]),
        "materialize.public.t_2_idx"
    );
}

#[test]
fn index_names_in_use_get_a_number() {
    let mut c = fixture();
    let stmt = create_index(None, "t", Some(&["a"]), false);
    let keys = || vec![ScalarExpr::Column(0)];
    assert_eq!(index_name(&c, &stmt, keys()), "materialize.public.t_a_idx1");
    c.items.push(item("t_a_idx1", 8, CatalogItemType::Index));
    c.items.push(item("t_a_idx3", 9, CatalogItemType::Index));
    assert_eq!(index_name(&c, &stmt, keys()), "materialize.public.t_a_idx2");
    let lenient = create_index(None, "t", Some(&["a"]), true);
    assert_eq!(index_name(&c, &lenient, keys()), "materialize.public.t_a_idx");
}

#[test]
fn create_index_refuses_other_items() {
    let c = fixture();
    assert_error(
        error(&c, &create_index(None, "k", None, false), &Replies::none()),
        ErrorKind::Invalid,
        "index cannot be created on materialize.public.k because it is a sink",
    );
    let mut replies = Replies::none();
    replies.index_keys = Some(Err(engine_error("bad key")));
    assert_error(
        error(&c, &create_index(None, "t", None, false), &replies),
        ErrorKind::Engine,
        "bad key",
    );
}

// Views.

fn create_view(v: &str, columns: &[&str], if_exists: IfExistsBehavior, temporary: bool) -> CreateViewStatement {
    CreateViewStatement {
        name: name(&[v]),
        columns: columns.iter().map(|c| id(c)).collect(),
        query: sql("SELECT 1, 2"),
        temporary,
        materialized: true,
        if_exists,
        with_options: vec![],
    }
}

fn view_replies() -> Replies {
    let mut replies = Replies::none();
    replies.create_sql = Some(Ok("CREATE VIEW".to_string()));
    replies.planned = Some(Ok(planned()));
    replies.bound = Some(Ok(HirExpr { id: 20 }));
    replies.finished = Some(HirExpr { id: 21 });
    replies.decorrelated = Some(RelationExpr { id: 30 });
    replies
}

#[test]
fn create_views() {
    let c = fixture();
    let stmt = Statement::CreateView(create_view("w", &["p", "q"], IfExistsBehavior::Skip, false));
    assert!(matches!(question(&c, &stmt, &Replies::none()), Question::CreateSql));
    let mut replies = view_replies();
    replies.finished = None;
    replies.decorrelated = None;
    assert!(matches!(
        question(&c, &stmt, &replies),
        Question::Finish { expr: HirExpr { id: 20 }, finishing: RowSetFinishing { id: 11 } }
    ));
    replies.finished = Some(HirExpr { id: 21 });
    assert!(matches!(
        question(&c, &stmt, &replies),
        Question::Decorrelate { expr: HirExpr { id: 21 } }
    ));
    match done(&c, &stmt, &view_replies()) {
        Plan::CreateView { name, view, replace, materialize, if_not_exists } => {
            assert_eq!(name.to_text(), "materialize.public.w");
            assert_eq!(view.create_sql, "CREATE VIEW");
            assert_eq!(view.expr, RelationExpr { id: 30 });
            assert_eq!(
                view.column_names,
                vec![Some("p".to_string()), Some("q".to_string())]
            );
            assert!(!view.temporary);
            assert_eq!(replace, None);
            assert!(materialize);
            assert!(if_not_exists);
        }
        other => panic!("{:?}", other),
    }
    let temporary =
        Statement::CreateView(create_view("w", &[], IfExistsBehavior::Error, true));
    match done(&c, &temporary, &view_replies()) {
        Plan::CreateView { name, view, if_not_exists, .. } => {
            assert_eq!(name.to_text(), "mz_temp.w");
            assert_eq!(
                view.column_names,
                vec![Some("x".to_string()), Some("y".to_string())]
            );
            assert!(view.temporary);
            assert!(!if_not_exists);
        }
        other => panic!("{:?}", other),
    }
}

#[test]
fn create_view_plans_for_good() {
    let c = fixture();
    let stmt = Statement::CreateView(create_view("w", &[], IfExistsBehavior::Error, false));
    let mut replies = view_replies();
    replies.planned = None;
    match question(&c, &stmt, &replies) {
        Question::PlanQuery { lifetime, .. } => assert_eq!(lifetime, QueryLifetime::Static),
        other => panic!("{:?}", other),
    }
}

#[test]
fn create_view_replaces_views() {
    let mut c = fixture();
    let replace = |v: &str| {
        Statement::CreateView(create_view(v, &[], IfExistsBehavior::Replace, false))
    };
    match done(&c, &replace("v"), &view_replies()) {
        Plan::CreateView { replace, .. } => assert_eq!(replace, Some(GlobalId::User(2))),
        other => panic!("{:?}", other),
    }
    match done(&c, &replace("new"), &view_replies()) {
        Plan::CreateView { replace, .. } => assert_eq!(replace, None),
        other => panic!("{:?}", other),
    }
    assert_error(
        error(&c, &replace("t"), &view_replies()),
        ErrorKind::Invalid,
        "materialize.public.t is not of type VIEW",
    );
    c.items[1].used_by = vec![GlobalId::User(5)];
    assert_error(
        error(&c, &replace("v"), &view_replies()),
        ErrorKind::Invalid,
        "cannot drop materialize.public.v: still depended upon by catalog item 'materialize.public.k'",
    );
}

#[test]
fn errors_come_before_the_replaced_view() {
    // The name for the temporary view is looked up as that of a lasting one.
    let c = fixture();
    let mut stmt = create_view("v", &[], IfExistsBehavior::Replace, true);
    stmt.name = name(&["public", "v"]);
    stmt.with_options = vec![option("a", text("b"))];
    let mut replies = view_replies();
    let stmt = Statement::CreateView(stmt);
    assert_error(error(&c, &stmt, &replies), ErrorKind::Unsupported, "WITH options");
    replies.create_sql = Some(Err(engine_error("no such name")));
    assert_error(error(&c, &stmt, &replies), ErrorKind::Engine, "no such name");
}

#[test]
fn create_view_errors() {
    let c = fixture();
    let stmt = Statement::CreateView(create_view("w", &["p"], IfExistsBehavior::Error, false));
    assert_error(
        error(&c, &stmt, &view_replies()),
        ErrorKind::Invalid,
        "view materialize.public.w definition names 1 columns, but view materialize.public.w has 2 columns",
    );
    let mut with = create_view("w", &[], IfExistsBehavior::Error, false);
    with.with_options = vec![option("a", text("b"))];
    assert_error(
        error(&c, &Statement::CreateView(with), &view_replies()),
        ErrorKind::Unsupported,
        "WITH options",
    );
}

// Tables.

fn column(n: &str, options: Vec<ColumnOption>) -> ColumnDef {
    ColumnDef { name: id(n), data_type: DataType { sql: format!("type_{}", n) }, options }
}

fn create_table(columns: Vec<ColumnDef>) -> CreateTableStatement {
    CreateTableStatement {
        name: name(&["new"]),
        columns,
        constraints: vec![],
        with_options: vec![],
        if_not_exists: true,
    }
}

#[test]
fn create_tables() {
    let c = fixture();
    let stmt = Statement::CreateTable(create_table(vec![
        column("a", vec![]),
        column("b", vec![ColumnOption::NotNull, ColumnOption::NotNull]),
    ]));
    let mut replies = Replies::none();
    match question(&c, &stmt, &replies) {
        Question::ColumnType { column, data_type } => {
            assert_eq!(column, 0);
            assert_eq!(data_type, "type_a");
        }
        other => panic!("{:?}", other),
    }
    replies.column_types.push(Ok(ScalarType::Int32));
    match question(&c, &stmt, &replies) {
        Question::ColumnType { column, data_type } => {
            assert_eq!(column, 1);
            assert_eq!(data_type, "type_b");
        }
        other => panic!("{:?}", other),
    }
    replies.column_types.push(Ok(ScalarType::Bool));
    assert!(matches!(question(&c, &stmt, &replies), Question::CreateSql));
    replies.create_sql = Some(Ok("CREATE TABLE".to_string()));
    match done(&c, &stmt, &replies) {
        Plan::CreateTable { name, table, if_not_exists } => {
            assert_eq!(name.to_text(), "materialize.public.new");
            assert_eq!(table.create_sql, "CREATE TABLE");
            assert_eq!(
                columns(&table.desc),
                vec![
                    (
                        "a".to_string(),
                        ColumnType { scalar_type: ScalarType::Int32, nullable: true }
                    ),
                    (
                        "b".to_string(),
                        ColumnType { scalar_type: ScalarType::Bool, nullable: false }
                    ),
                ]
            );
            assert!(table.desc.typ.keys.is_empty());
            assert!(if_not_exists);
        }
        other => panic!("{:?}", other),
    }
}

#[test]
fn create_table_errors() {
    let c = fixture();
    let none = Replies::none();
    let mut with = create_table(vec![]);
    with.with_options = vec![option("a", text("b"))];
    assert_error(
        error(&c, &Statement::CreateTable(with), &none),
        ErrorKind::Unsupported,
        "WITH options",
    );
    let mut constrained = create_table(vec![]);
    constrained.constraints = vec![TableConstraint { sql: "UNIQUE (a)".to_string() }];
    assert_error(
        error(&c, &Statement::CreateTable(constrained), &none),
        ErrorKind::Unsupported,
        "CREATE TABLE with constraints",
    );
    let twice = create_table(vec![column("a", vec![]), column("b", vec![]), column("a", vec![])]);
    assert_error(
        error(&c, &Statement::CreateTable(twice), &none),
        ErrorKind::Invalid,
        "cannot CREATE TABLE with duplicate column names",
    );
    let unique = create_table(vec![column(
        "a",
        vec![ColumnOption::NotNull, ColumnOption::Other("UNIQUE".to_string())],
    )]);
    let mut replies = Replies::none();
    replies.column_types.push(Ok(ScalarType::Int32));
    assert_error(
        error(&c, &Statement::CreateTable(unique), &replies),
        ErrorKind::Unsupported,
        "CREATE TABLE with column constraint: UNIQUE",
    );
    let mut replies = Replies::none();
    replies.column_types.push(Err(engine_error("no such type")));
    assert_error(
        error(&c, &Statement::CreateTable(create_table(vec![column("a", vec![])])), &replies),
        ErrorKind::Engine,
        "no such type",
    );
}

// Sinks.

fn registry(url: &str) -> Option<Format> {
    Some(Format::Avro(AvroSchema::CsrUrl { url: url.to_string(), seed: None, with_options: vec![] }))
}

fn kafka() -> Connector {
    Connector::Kafka { broker: "localhost:9092".to_string(), topic: "topic".to_string() }
}

fn create_sink(connector: Connector, format: Option<Format>, with_options: Vec<SqlOption>) -> Statement {
    Statement::CreateSink(CreateSinkStatement {
        name: name(&["out"]),
        from: name(&["v"]),
        connector,
        with_options,
        format,
        with_snapshot: true,
        as_of: None,
        if_not_exists: false,
    })
}

fn sink_replies() -> Replies {
    let mut replies = Replies::none();
    replies.create_sql = Some(Ok("CREATE SINK".to_string()));
    replies.kafka_addrs = Some(Ok(KafkaAddrs { id: 1 }));
    replies.sink_schema = Some("value schema".to_string());
    replies.transaction_schema = Some("transaction schema".to_string());
    replies.is_directory = Some(false);
    replies
}

#[test]
fn create_kafka_sinks() {
    let c = fixture();
    let stmt = create_sink(
        kafka(),
        registry("http://localhost:8081"),
        vec![option("consistency", Value::Boolean(true)), option("replication_factor", number("3"))],
    );
    match done(&c, &stmt, &sink_replies()) {
        Plan::CreateSink { name, sink, with_snapshot, as_of, if_not_exists } => {
            assert_eq!(name.to_text(), "materialize.public.out");
            assert_eq!(sink.create_sql, "CREATE SINK");
            assert_eq!(sink.from, GlobalId::User(2));
            assert!(with_snapshot);
            assert_eq!(as_of, None);
            assert!(!if_not_exists);
            match sink.connector_builder {
                SinkConnectorBuilder::Kafka {
                    broker_addrs,
                    schema_registry_url,
                    value_schema,
                    topic_prefix,
                    topic_suffix,
                    replication_factor,
                    fuel,
                    consistency_value_schema,
                } => {
                    assert_eq!(broker_addrs, KafkaAddrs { id: 1 });
                    // The URL as it is written out, not as it was given.
                    assert_eq!(schema_registry_url, "http://localhost:8081/");
                    assert_eq!(value_schema, "value schema");
                    assert_eq!(topic_prefix, "topic");
                    assert_eq!(topic_suffix, "1600000000-42");
                    assert_eq!(replication_factor, 3);
                    assert_eq!(fuel, 10000);
                    assert_eq!(consistency_value_schema, Some("transaction schema".to_string()));
                }
                other => panic!("{:?}", other),
            }
        }
        other => panic!("{:?}", other),
    }
    match done(&c, &create_sink(kafka(), registry("http://localhost:8081"), vec![]), &sink_replies()) {
        Plan::CreateSink { sink, .. } => match sink.connector_builder {
            SinkConnectorBuilder::Kafka { replication_factor, consistency_value_schema, .. } => {
                assert_eq!(replication_factor, 1);
                assert_eq!(consistency_value_schema, None);
            }
            other => panic!("{:?}", other),
        },
        other => panic!("{:?}", other),
    }
}

#[test]
fn create_kafka_sink_asks_in_turn() {
    let c = fixture();
    let stmt = create_sink(
        kafka(),
        registry("http://localhost:8081"),
        vec![option("consistency", Value::Boolean(true))],
    );
    let mut replies = Replies::none();
    assert!(matches!(question(&c, &stmt, &replies), Question::CreateSql));
    replies.create_sql = Some(Ok("CREATE SINK".to_string()));
    match question(&c, &stmt, &replies) {
        Question::KafkaAddrs { broker } => assert_eq!(broker, "localhost:9092"),
        other => panic!("{:?}", other),
    }
    replies.kafka_addrs = Some(Ok(KafkaAddrs { id: 1 }));
    match question(&c, &stmt, &replies) {
        Question::SinkSchema { desc, include_consistency } => {
            assert_eq!(desc.names.len(), 2);
            assert!(include_consistency);
        }
        other => panic!("{:?}", other),
    }
    replies.sink_schema = Some("s".to_string());
    assert!(matches!(question(&c, &stmt, &replies), Question::TransactionSchema));
}

#[test]
fn create_kafka_sink_errors() {
    let mut c = fixture();
    let url = "http://localhost:8081";
    let r = sink_replies();
    let kafka_error = |c: &Fixture, format, options| error(c, &create_sink(kafka(), format, options), &r);
    assert_error(
        kafka_error(&c, Some(Format::Text), vec![]),
        ErrorKind::Unsupported,
        "non-confluent schema registry avro sinks",
    );
    assert_error(
        kafka_error(
            &c,
            Some(Format::Avro(AvroSchema::CsrUrl {
                url: url.to_string(),
                seed: Some(CsrSeed { key_schema: None, value_schema: "v".to_string() }),
                with_options: vec![],
            })),
            vec![],
        ),
        ErrorKind::Invalid,
        "SEED option does not make sense with sinks",
    );
    assert_error(
        kafka_error(
            &c,
            Some(Format::Avro(AvroSchema::CsrUrl {
                url: url.to_string(),
                seed: None,
                with_options: vec![option("a", text("b"))],
            })),
            vec![],
        ),
        ErrorKind::Unsupported,
        "CONFLUENT SCHEMA REGISTRY ... WITH options in CREATE SINK",
    );
    assert_error(
        kafka_error(&c, registry("nowhere"), vec![]),
        ErrorKind::Url,
        "relative URL without a base",
    );
    assert_error(
        kafka_error(&c, registry(url), vec![option("consistency", text("yes"))]),
        ErrorKind::Invalid,
        "consistency must be a boolean",
    );
    assert_error(
        kafka_error(&c, registry(url), vec![option("replication_factor", text("3"))]),
        ErrorKind::Invalid,
        "replication factor for sink topics has to be a positive integer",
    );
    assert_error(
        kafka_error(&c, registry(url), vec![option("replication_factor", number("0"))]),
        ErrorKind::Invalid,
        "replication factor for sink topics has to be greater than zero",
    );
    assert_error(
        kafka_error(&c, registry(url), vec![option("replication_factor", number("1.5"))]),
        ErrorKind::Integer,
        "invalid digit found in string",
    );
    assert_error(
        kafka_error(&c, registry(url), vec![option("replication_factor", number("4294967296"))]),
        ErrorKind::Integer,
        "number too large to fit in target type",
    );
    c.startup = -1;
    assert_error(
        kafka_error(&c, registry(url), vec![]),
        ErrorKind::Clock,
        "second time provided was later than self",
    );
}

#[test]
fn create_other_sinks() {
    let c = fixture();
    let ocf = || Connector::AvroOcf { path: "/tmp/out".to_string() };
    match question(&c, &create_sink(ocf(), None, vec![]), &{
        let mut r = sink_replies();
        r.is_directory = None;
        r
    }) {
        Question::IsDirectory { path } => assert_eq!(path, "/tmp/out"),
        other => panic!("{:?}", other),
    }
    match done(&c, &create_sink(ocf(), None, vec![]), &sink_replies()) {
        Plan::CreateSink { sink, .. } => match sink.connector_builder {
            SinkConnectorBuilder::AvroOcf { path, file_name_suffix } => {
                assert_eq!(path, "/tmp/out");
                assert_eq!(file_name_suffix, "1600000000-42");
            }
            other => panic!("{:?}", other),
        },
        other => panic!("{:?}", other),
    }
    let mut directory = sink_replies();
    directory.is_directory = Some(true);
    assert_error(
        error(&c, &create_sink(ocf(), None, vec![]), &directory),
        ErrorKind::Invalid,
        "avro ocf sink cannot write to a directory",
    );
    assert_error(
        error(&c, &create_sink(ocf(), Some(Format::Text), vec![]), &sink_replies()),
        ErrorKind::Invalid,
        "avro ocf sinks cannot specify a format",
    );
    assert_error(
        error(&c, &create_sink(ocf(), None, vec![option("a", text("b"))]), &sink_replies()),
        ErrorKind::Invalid,
        "avro ocf sinks do not support WITH options",
    );
    assert_error(
        error(
            &c,
            &create_sink(Connector::File { path: "p".to_string() }, None, vec![]),
            &sink_replies(),
        ),
        ErrorKind::Unsupported,
        "file sinks",
    );
    assert_error(
        error(
            &c,
            &create_sink(Connector::Kinesis { arn: "a".to_string() }, None, vec![]),
            &sink_replies(),
        ),
        ErrorKind::Unsupported,
        "Kinesis sinks",
    );
}

// Sources.

fn create_source(
    connector: Connector,
    format: Option<Format>,
    envelope: Envelope,
    with_options: Vec<SqlOption>,
) -> CreateSourceStatement {
    CreateSourceStatement {
        name: name(&["src"]),
        col_names: vec![],
        connector,
        with_options,
        format,
        envelope,
        if_not_exists: false,
        materialized: true,
    }
}

fn source_replies() -> Replies {
    let mut replies = Replies::none();
    replies.create_sql = Some(Ok("CREATE SOURCE".to_string()));
    replies.kafka_config = Some(Ok(vec![("client.id".to_string(), "me".to_string())]));
    replies.kafka_addrs = Some(Ok(KafkaAddrs { id: 1 }));
    replies.value_registry = Some(Ok(CcsrConfig { id: 2 }));
    replies.key_registry = Some(Ok(CcsrConfig { id: 3 }));
    replies.value_descriptors = Some(Ok(vec![1, 2, 3]));
    replies.key_descriptors = Some(Ok(vec![4]));
    replies.source_desc = Some(Ok(desc(&[Some("data")], vec![vec![0]])));
    replies.metadata_columns = Some(vec![(
        "mz_offset".to_string(),
        ColumnType { scalar_type: ScalarType::Int64, nullable: true },
    )]);
    replies
}

fn source(c: &Fixture, stmt: CreateSourceStatement) -> Source {
    match done(c, &Statement::CreateSource(stmt), &source_replies()) {
        Plan::CreateSource { name, source, if_not_exists, materialized } => {
            assert_eq!(name.to_text(), "materialize.public.src");
            assert!(!if_not_exists);
            assert!(materialized);
            source
        }
        other => panic!("{:?}", other),
    }
}

fn source_error(c: &Fixture, stmt: CreateSourceStatement) -> PlanError {
    error(c, &Statement::CreateSource(stmt), &source_replies())
}

fn avro(key: Option<&str>) -> Option<Format> {
    Some(Format::Avro(AvroSchema::CsrUrl {
        url: "http://localhost:8081".to_string(),
        seed: Some(CsrSeed {
            key_schema: key.map(|k| k.to_string()),
            value_schema: "value".to_string(),
        }),
        with_options: vec![option("user", text("u"))],
    }))
}

fn file() -> Connector {
    Connector::File { path: "/tmp/in".to_string() }
}

fn names(d: &RelationDesc) -> Vec<Option<String>> {
    d.names.clone()
}

#[test]
fn create_kafka_sources() {
    let c = fixture();
    let s = source(
        &c,
        create_source(
            kafka(),
            Some(Format::Bytes),
            Envelope::NoEnvelope,
            vec![
                option("group_id_prefix", text("g")),
                option("timestamp_frequency_ms", number("1500")),
                option("start_offset", number("7")),
                option("persistence", Value::Boolean(true)),
            ],
        ),
    );
    assert_eq!(s.create_sql, "CREATE SOURCE");
    assert_eq!((s.ts_frequency.secs, s.ts_frequency.nanos), (1, 500_000_000));
    assert!(matches!(s.consistency, Consistency::RealTime));
    assert!(matches!(s.encoding, DataEncoding::Bytes));
    assert!(matches!(s.envelope, SourceEnvelope::NoEnvelope));
    assert_eq!(
        names(&s.desc),
        vec![Some("data".to_string()), Some("mz_offset".to_string())]
    );
    match s.connector {
        ExternalSourceConnector::Kafka {
            addrs,
            topic,
            config_options,
            start_offsets,
            group_id_prefix,
            enable_persistence,
            persisted_files,
        } => {
            assert_eq!(addrs, KafkaAddrs { id: 1 });
            assert_eq!(topic, "topic");
            assert_eq!(config_options, vec![("client.id".to_string(), "me".to_string())]);
            assert_eq!(start_offsets, vec![(0, 7)]);
            assert_eq!(group_id_prefix, Some("g".to_string()));
            assert!(enable_persistence);
            assert_eq!(persisted_files, None);
        }
        other => panic!("{:?}", other),
    }
    let s = source(
        &c,
        create_source(
            kafka(),
            Some(Format::Text),
            Envelope::NoEnvelope,
            vec![option("consistency", text("ts"))],
        ),
    );
    assert!(matches!(&s.consistency, Consistency::BringYourOwn(t) if t == "ts"));
    assert_eq!((s.ts_frequency.secs, s.ts_frequency.nanos), (1, 0));
}

#[test]
fn create_kafka_source_errors() {
    let c = fixture();
    let with = |options| {
        source_error(&c, create_source(kafka(), Some(Format::Bytes), Envelope::NoEnvelope, options))
    };
    assert_error(
        with(vec![option("consistency", number("1"))]),
        ErrorKind::Invalid,
        "consistency must be a string",
    );
    assert_error(
        with(vec![option("group_id_prefix", number("1"))]),
        ErrorKind::Invalid,
        "group_id_prefix must be a string",
    );
    for v in vec![text("1"), number("-1"), number("x"), number("18446744073709551616")] {
        assert_error(
            with(vec![option("timestamp_frequency_ms", v)]),
            ErrorKind::Invalid,
            "timestamp_frequency_ms must be an u64",
        );
    }
    for v in vec![text("1"), number("-1"), number("9223372036854775808")] {
        assert_error(
            with(vec![option("start_offset", v)]),
            ErrorKind::Invalid,
            "start_offset must be a nonnegative integer",
        );
    }
    assert_error(
        with(vec![option("start_offset", number("1")), option("consistency", text("t"))]),
        ErrorKind::Invalid,
        "`start_offset` is not yet implemented for BYO consistency sources.",
    );
    assert_error(
        with(vec![option("persistence", number("1"))]),
        ErrorKind::Invalid,
        "persistence must be a bool!",
    );
    assert_error(
        with(vec![option("persistence", Value::Boolean(true)), option("consistency", text("t"))]),
        ErrorKind::Unsupported,
        "BYO source persistence",
    );
    assert_error(
        with(vec![option("ignore_source_keys", number("1"))]),
        ErrorKind::Invalid,
        "ignore_source_keys must be a boolean",
    );
    let mut replies = source_replies();
    replies.kafka_config = Some(Err(engine_error("bad option")));
    let stmt = create_source(kafka(), Some(Format::Bytes), Envelope::NoEnvelope, vec![]);
    assert_error(
        error(&c, &Statement::CreateSource(stmt), &replies),
        ErrorKind::Engine,
        "bad option",
    );
}

#[test]
fn create_source_asks_in_turn() {
    let c = fixture();
    let stmt = Statement::CreateSource(create_source(
        kafka(),
        avro(None),
        Envelope::Upsert(Some(Format::Protobuf {
            message_name: "m".to_string(),
            schema: Schema::Inline("text".to_string()),
        })),
        vec![option("start_offset", number("0"))],
    ));
    let mut replies = Replies::none();
    match question(&c, &stmt, &replies) {
        Question::KafkaConfig { options } => {
            assert_eq!(options.len(), 1);
            assert_eq!(options[0].name.value, "start_offset");
        }
        other => panic!("{:?}", other),
    }
    replies.kafka_config = Some(Ok(vec![("k".to_string(), "v".to_string())]));
    assert!(matches!(question(&c, &stmt, &replies), Question::KafkaAddrs { .. }));
    replies.kafka_addrs = Some(Ok(KafkaAddrs { id: 1 }));
    match question(&c, &stmt, &replies) {
        Question::Registry { role, url, kafka_config, options } => {
            assert_eq!(role, Role::Value);
            assert_eq!(url, "http://localhost:8081/");
            assert_eq!(kafka_config, vec![("k".to_string(), "v".to_string())]);
            assert_eq!(options[0].name.value, "user");
        }
        other => panic!("{:?}", other),
    }
    replies.value_registry = Some(Ok(CcsrConfig { id: 2 }));
    match question(&c, &stmt, &replies) {
        Question::Descriptors { role, text } => {
            assert_eq!(role, Role::Key);
            assert_eq!(text, "text");
        }
        other => panic!("{:?}", other),
    }
    replies.key_descriptors = Some(Ok(vec![1]));
    assert_error(
        error(&c, &stmt, &replies),
        ErrorKind::Unsupported,
        "format for upsert key",
    );

    let plain = Statement::CreateSource(create_source(
        file(),
        Some(Format::Text),
        Envelope::NoEnvelope,
        vec![],
    ));
    let mut replies = Replies::none();
    match question(&c, &plain, &replies) {
        Question::SourceDesc { encoding, envelope } => {
            assert!(matches!(encoding, DataEncoding::Text));
            assert!(matches!(envelope, SourceEnvelope::NoEnvelope));
        }
        other => panic!("{:?}", other),
    }
    replies.source_desc = Some(Ok(desc(&[Some("text")], vec![])));
    match question(&c, &plain, &replies) {
        Question::MetadataColumns { connector } => {
            assert!(matches!(connector, ExternalSourceConnector::File { .. }))
        }
        other => panic!("{:?}", other),
    }
    replies.metadata_columns = Some(vec![]);
    assert!(matches!(question(&c, &plain, &replies), Question::CreateSql));
}

#[test]
fn create_kinesis_sources() {
    let c = fixture();
    let kinesis = |arn: &str, options| {
        create_source(
            Connector::Kinesis { arn: arn.to_string() },
            Some(Format::Bytes),
            Envelope::NoEnvelope,
            options,
        )
    };
    let s = source(
        &c,
        kinesis(
            "arn:aws:kinesis:us-east-2:123456789012:stream/mystream",
            vec![
                option("access_key_id", text("key")),
                option("token", text("tok")),
                option("consistency", text("ignored")),
            ],
        ),
    );
    assert!(matches!(s.consistency, Consistency::RealTime));
    match s.connector {
        ExternalSourceConnector::Kinesis {
            stream_name,
            region,
            access_key_id,
            secret_access_key,
            token,
        } => {
            assert_eq!(stream_name, "mystream");
            assert!(matches!(&region, Region::Aws(r) if r == "us-east-2"), "{:?}", region);
            assert_eq!(access_key_id, Some("key".to_string()));
            assert_eq!(secret_access_key, None);
            assert_eq!(token, Some("tok".to_string()));
        }
        other => panic!("{:?}", other),
    }
    // A region is known whatever the case of its letters.
    match source(&c, kinesis("arn:aws:kinesis:US-East-2:123456789012:stream/s", vec![])).connector {
        ExternalSourceConnector::Kinesis { region: Region::Aws(r), .. } => {
            assert_eq!(r, "us-east-2")
        }
        other => panic!("{:?}", other),
    }
    let custom = "arn:aws:kinesis:custom-region:123456789012:stream/mystream";
    match source(&c, kinesis(custom, vec![option("endpoint", text("http://localhost:4566"))])).connector {
        ExternalSourceConnector::Kinesis { region: Region::Custom { name, endpoint }, .. } => {
            assert_eq!(name, "custom-region");
            assert_eq!(endpoint, "http://localhost:4566");
        }
        other => panic!("{:?}", other),
    }
    let e = source_error(&c, kinesis(custom, vec![]));
    assert_eq!(e.kind, ErrorKind::Invalid);
    assert!(e.text.starts_with("Unable to parse AWS region: "), "{}", e.text);
    assert!(
        e.text.ends_with(
            ". If providing a custom region, an `endpoint` option must also be provided"
        ),
        "{}",
        e.text
    );
    assert_error(
        source_error(&c, kinesis("not an arn", vec![])),
        ErrorKind::Invalid,
        "Unable to parse provided ARN: TooFewComponents",
    );
    assert_error(
        source_error(&c, kinesis("arn:aws:kinesis::123456789012:stream/s", vec![])),
        ErrorKind::Invalid,
        "Provided ARN does not include an AWS region",
    );
    let e = source_error(&c, kinesis("arn:aws:kinesis:us-east-2:123456789012:s", vec![]));
    assert_eq!(e.kind, ErrorKind::Unsupported);
    assert!(e.text.starts_with("AWS Resource type: Id("), "{}", e.text);
    assert_error(
        source_error(
            &c,
            kinesis("arn:aws:kinesis:us-east-2:123456789012:stream/s", vec![option("token", number("1"))]),
        ),
        ErrorKind::Invalid,
        "token must be a string",
    );
    assert_error(
        source_error(
            &c,
            kinesis(
                "arn:aws:kinesis:us-east-2:123456789012:stream/s",
                vec![option("secret_access_key", number("1"))],
            ),
        ),
        ErrorKind::Invalid,
        "secret_access_key must be a string",
    );
}

#[test]
fn kinesis_streams_take_any_outcome() {
    let arn = |region: Option<&str>, path: Option<&str>| Arn {
        region: region.map(|r| r.to_string()),
        path: path.map(|p| p.to_string()),
        resource: "SHOWN".to_string(),
    };
    let known = || Some(Ok("known".to_string()));
    assert_error(
        find_kinesis_stream(arn(Some("r"), None), known(), &vec![]).unwrap_err(),
        ErrorKind::Unsupported,
        "AWS Resource type: SHOWN",
    );
    assert_error(
        find_kinesis_stream(arn(Some("r"), Some("streams")), known(), &vec![]).unwrap_err(),
        ErrorKind::Invalid,
        "Unable to parse stream name from resource path: streams",
    );
    assert_error(
        find_kinesis_stream(arn(None, Some("stream/s")), None, &vec![]).unwrap_err(),
        ErrorKind::Invalid,
        "Provided ARN does not include an AWS region",
    );
    match find_kinesis_stream(arn(Some("r"), Some("stream/a/b")), known(), &vec![]).unwrap() {
        ExternalSourceConnector::Kinesis { stream_name, region: Region::Aws(r), .. } => {
            assert_eq!(stream_name, "a/b");
            assert_eq!(r, "known");
        }
        other => panic!("{:?}", other),
    }
    assert_error(
        find_region("r".to_string(), Err("why".to_string()), &vec![option("endpoint", number("1"))])
            .unwrap_err(),
        ErrorKind::Invalid,
        "Unable to parse AWS region: why. If providing a custom region, an `endpoint` option must also be provided",
    );
}

#[test]
fn create_file_sources() {
    let c = fixture();
    let s = source(
        &c,
        create_source(
            file(),
            Some(Format::Csv { header_row: true, n_cols: Some(3), delimiter: ';' }),
            Envelope::NoEnvelope,
            vec![option("tail", Value::Boolean(true)), option("consistency", text("ts"))],
        ),
    );
    match s.connector {
        ExternalSourceConnector::File { path, tail } => {
            assert_eq!(path, "/tmp/in");
            assert!(tail);
        }
        other => panic!("{:?}", other),
    }
    match s.encoding {
        DataEncoding::Csv { header_row, n_cols, delimiter } => {
            assert!(header_row);
            assert_eq!(n_cols, 3);
            assert_eq!(delimiter, b';');
        }
        other => panic!("{:?}", other),
    }
    assert!(matches!(s.consistency, Consistency::BringYourOwn(_)));
    assert_error(
        source_error(
            &c,
            create_source(
                file(),
                Some(Format::Text),
                Envelope::NoEnvelope,
                vec![option("tail", text("yes"))],
            ),
        ),
        ErrorKind::Invalid,
        "tail must be a boolean",
    );
}

#[test]
fn create_avro_ocf_sources() {
    let c = fixture();
    let ocf = |format, options| {
        create_source(
            Connector::AvroOcf { path: "/tmp/in".to_string() },
            format,
            Envelope::NoEnvelope,
            options,
        )
    };
    let s = source(&c, ocf(None, vec![option("reader_schema", text("schema"))]));
    assert!(matches!(&s.encoding, DataEncoding::AvroOcf { reader_schema } if reader_schema == "schema"));
    assert!(matches!(s.connector, ExternalSourceConnector::AvroOcf { tail: false, .. }));
    assert_error(
        source_error(&c, ocf(Some(Format::Text), vec![option("reader_schema", text("schema"))])),
        ErrorKind::Invalid,
        "avro ocf sources cannot specify a format",
    );
    assert_error(
        source_error(&c, ocf(None, vec![option("reader_schema", number("1"))])),
        ErrorKind::Invalid,
        "reader_schema option must be a string",
    );
}

#[test]
fn formats_are_encodings() {
    let c = fixture();
    let encoding =
        |format| source(&c, create_source(file(), Some(format), Envelope::NoEnvelope, vec![])).encoding;
    let refused = |format| {
        source_error(&c, create_source(file(), format, Envelope::NoEnvelope, vec![]))
    };
    match encoding(Format::Protobuf {
        message_name: "m".to_string(),
        schema: Schema::Inline("text".to_string()),
    }) {
        DataEncoding::Protobuf { descriptors, message_name } => {
            assert_eq!(descriptors, vec![1, 2, 3]);
            assert_eq!(message_name, "m");
        }
        other => panic!("{:?}", other),
    }
    match encoding(Format::Avro(AvroSchema::Schema(Schema::Inline("schema".to_string())))) {
        DataEncoding::Avro { key_schema, value_schema, registry } => {
            assert_eq!(key_schema, None);
            assert_eq!(value_schema, "schema");
            assert_eq!(registry, None);
        }
        other => panic!("{:?}", other),
    }
    match encoding(avro(Some("key")).unwrap()) {
        DataEncoding::Avro { key_schema, value_schema, registry } => {
            assert_eq!(key_schema, Some("key".to_string()));
            assert_eq!(value_schema, "value");
            assert_eq!(registry, Some(CcsrConfig { id: 2 }));
        }
        other => panic!("{:?}", other),
    }
    match encoding(Format::Regex("a+".to_string())) {
        DataEncoding::Regex { regex } => assert_eq!(regex, "a+"),
        other => panic!("{:?}", other),
    }
    let e = refused(Some(Format::Regex("(".to_string())));
    assert_eq!(e.kind, ErrorKind::Regex);
    assert!(e.text.contains("unclosed group"), "{}", e.text);
    assert_error(refused(None), ErrorKind::Invalid, "Source format must be specified");
    assert_error(refused(Some(Format::Json)), ErrorKind::Unsupported, "JSON sources");
    assert_error(
        refused(Some(Format::Csv { header_row: false, n_cols: None, delimiter: ',' })),
        ErrorKind::Invalid,
        "Cannot determine number of columns in CSV source; specify using CREATE SOURCE...FORMAT CSV WITH X COLUMNS",
    );
    assert_error(
        refused(Some(Format::Csv { header_row: false, n_cols: Some(1), delimiter: '\u{80}' })),
        ErrorKind::Invalid,
        "CSV delimiter must be an ASCII character",
    );
    assert_error(
        refused(Some(Format::Avro(AvroSchema::CsrUrl {
            url: "nowhere".to_string(),
            seed: Some(CsrSeed { key_schema: None, value_schema: "v".to_string() }),
            with_options: vec![],
        }))),
        ErrorKind::Url,
        "relative URL without a base",
    );
}

#[test]
fn named_columns_count_for_csv() {
    let c = fixture();
    let mut stmt = create_source(
        file(),
        Some(Format::Csv { header_row: false, n_cols: None, delimiter: ',' }),
        Envelope::NoEnvelope,
        vec![],
    );
    stmt.col_names = vec![id("only")];
    let s = source(&c, stmt);
    assert!(matches!(s.encoding, DataEncoding::Csv { n_cols: 1, .. }));
    // The name is for the column of the data; the one of the connector keeps its own.
    assert_eq!(
        names(&s.desc),
        vec![Some("only".to_string()), Some("mz_offset".to_string())]
    );
}

#[test]
fn columns_of_sources_are_named() {
    let c = fixture();
    let mut stmt = create_source(file(), Some(Format::Text), Envelope::NoEnvelope, vec![]);
    stmt.col_names = vec![id("a"), id("b")];
    assert_error(
        source_error(&c, stmt),
        ErrorKind::Invalid,
        "source src definition names 2 columns, but source src has 1 columns",
    );
    let mut stmt = create_source(
        kafka(),
        avro(None),
        Envelope::NoEnvelope,
        vec![option("ignore_source_keys", Value::Boolean(true))],
    );
    stmt.col_names = vec![id("a")];
    let s = source(&c, stmt);
    assert_eq!(names(&s.desc), vec![Some("a".to_string())]);
    assert!(s.desc.typ.keys.is_empty());
    let s = source(&c, create_source(kafka(), avro(None), Envelope::NoEnvelope, vec![]));
    assert_eq!(s.desc.typ.keys, vec![vec![0]]);
}

#[test]
fn debezium_envelopes() {
    let c = fixture();
    let debezium = |options| create_source(kafka(), avro(Some("key")), Envelope::Debezium, options);
    let strategy = |options| match source(&c, debezium(options)).envelope {
        SourceEnvelope::Debezium(s) => s,
        other => panic!("{:?}", other),
    };
    assert_eq!(strategy(vec![]), DebeziumDeduplicationStrategy::Ordered);
    assert_eq!(
        strategy(vec![option("deduplication", text("full"))]),
        DebeziumDeduplicationStrategy::Full
    );
    assert_eq!(
        strategy(vec![option("deduplication", text("ordered"))]),
        DebeziumDeduplicationStrategy::Ordered
    );
    for v in vec![text("none"), number("1")] {
        assert_error(
            source_error(&c, debezium(vec![option("deduplication", v)])),
            ErrorKind::Invalid,
            "deduplication must be either 'full' or 'ordered'.",
        );
    }
    // The key schema stays: it says what the primary key is.
    match source(&c, debezium(vec![])).encoding {
        DataEncoding::Avro { key_schema, .. } => assert_eq!(key_schema, Some("key".to_string())),
        other => panic!("{:?}", other),
    }
}

#[test]
fn upsert_envelopes() {
    let c = fixture();
    // The key schema moves from the records to the keys.
    let s = source(&c, create_source(kafka(), avro(Some("key")), Envelope::Upsert(None), vec![]));
    match (&s.encoding, &s.envelope) {
        (
            DataEncoding::Avro { key_schema, value_schema, .. },
            SourceEnvelope::Upsert(DataEncoding::Avro {
                key_schema: keys_key,
                value_schema: keys_value,
                registry,
            }),
        ) => {
            assert_eq!(*key_schema, None);
            assert_eq!(value_schema, "value");
            assert_eq!(*keys_key, None);
            assert_eq!(keys_value, "key");
            assert_eq!(*registry, Some(CcsrConfig { id: 2 }));
        }
        other => panic!("{:?}", other),
    }
    let s = source(
        &c,
        create_source(kafka(), Some(Format::Text), Envelope::Upsert(Some(Format::Bytes)), vec![]),
    );
    assert!(matches!(s.envelope, SourceEnvelope::Upsert(DataEncoding::Bytes)));
    assert!(matches!(s.encoding, DataEncoding::Text));
    let s = source(
        &c,
        create_source(kafka(), avro(None), Envelope::Upsert(avro(Some("other"))), vec![]),
    );
    match s.envelope {
        SourceEnvelope::Upsert(DataEncoding::Avro { value_schema, registry, .. }) => {
            assert_eq!(value_schema, "other");
            assert_eq!(registry, Some(CcsrConfig { id: 3 }));
        }
        other => panic!("{:?}", other),
    }
    assert_error(
        source_error(
            &c,
            create_source(kafka(), Some(Format::Text), Envelope::Upsert(avro(None)), vec![]),
        ),
        ErrorKind::Unsupported,
        "Avro key for this format",
    );
    assert_error(
        source_error(
            &c,
            create_source(
                kafka(),
                Some(Format::Csv { header_row: false, n_cols: Some(1), delimiter: ',' }),
                Envelope::Upsert(Some(Format::Text)),
                vec![],
            ),
        ),
        ErrorKind::Unsupported,
        "upsert envelope for this format",
    );
    assert_error(
        source_error(&c, create_source(file(), Some(Format::Text), Envelope::Upsert(None), vec![])),
        ErrorKind::Unsupported,
        "upsert envelope for non-Kafka sources",
    );
}

#[test]
fn materialize_envelopes() {
    let mut c = fixture();
    let cdc = |connector, format, options| create_source(connector, format, Envelope::CdcV2, options);
    assert_error(
        source_error(&c, cdc(kafka(), avro(None), vec![])),
        ErrorKind::Invalid,
        "ENVELOPE MATERIALIZE requires experimental mode; see https://materialize.io/docs/cli/#experimental-mode",
    );
    c.experimental = true;
    assert!(matches!(
        source(&c, cdc(kafka(), avro(None), vec![])).envelope,
        SourceEnvelope::CdcV2
    ));
    assert_error(
        source_error(&c, cdc(kafka(), Some(Format::Text), vec![])),
        ErrorKind::Unsupported,
        "non-Avro-encoded ENVELOPE MATERIALIZE",
    );
    assert_error(
        source_error(
            &c,
            cdc(
                Connector::AvroOcf { path: "p".to_string() },
                None,
                vec![option("reader_schema", text("s"))],
            ),
        ),
        ErrorKind::Unsupported,
        "ENVELOPE MATERIALIZE over OCF (Avro files)",
    );
}

#[test]
fn outside_outcomes_are_taken_as_they_come() {
    assert!(matches!(
        get_regex_encoding("a", None).unwrap(),
        DataEncoding::Regex { regex } if regex == "a"
    ));
    assert_error(
        get_regex_encoding("a", Some("no".to_string())).unwrap_err(),
        ErrorKind::Regex,
        "no",
    );
    let r = source_replies();
    match get_registry_encoding(
        Role::Key,
        Ok("u".to_string()),
        &vec![],
        &vec![],
        None,
        "schema".to_string(),
        &r,
    ) {
        Ok(DataEncoding::Avro { registry, .. }) => assert_eq!(registry, Some(CcsrConfig { id: 3 })),
        other => panic!("{:?}", other),
    }
    match build_kafka_topic(
        Err("bad".to_string()),
        &vec![],
        "b",
        "t",
        &desc(&[], vec![]),
        "s".to_string(),
        &r,
    ) {
        Err(Step::Done(Err(e))) => assert_error(e, ErrorKind::Url, "bad"),
        other => panic!("{:?}", other),
    }
}

// Planning as a whole.

/// Answers a question, and checks that the place for the answer was free.
fn answer(question: Question, replies: &mut Replies) {
    fn put<T>(place: &mut Option<T>, value: T) {
        assert!(place.is_none());
        *place = Some(value);
    }
    let all = source_replies();
    match question {
        Question::CreateSql | Question::CreateIndexSql { .. } => {
            put(&mut replies.create_sql, Ok("sql".to_string()))
        }
        Question::ParseSelect { .. } => put(&mut replies.parsed_select, Ok(sql("SELECT"))),
        Question::ParseView { .. } => put(&mut replies.parsed_view, sql("SELECT")),
        Question::PlanQuery { .. } => put(&mut replies.planned, Ok(planned())),
        Question::PlanInsert { .. } => put(
            &mut replies.inserted,
            Ok(PlannedInsert {
                id: GlobalId::User(1),
                expr: HirExpr { id: 1 },
                param_types: BTreeMap::new(),
            }),
        ),
        Question::PlanIndexKeys { .. } => {
            put(&mut replies.index_keys, Ok(vec![ScalarExpr::Column(0)]))
        }
        Question::Bind { .. } => put(&mut replies.bound, Ok(HirExpr { id: 2 })),
        Question::Finish { .. } => put(&mut replies.finished, HirExpr { id: 3 }),
        Question::IsTrivial { .. } => put(&mut replies.trivial, true),
        Question::Decorrelate { .. } => put(&mut replies.decorrelated, RelationExpr { id: 4 }),
        Question::EvalAsOf { .. } => put(&mut replies.as_of, Ok(5)),
        Question::ColumnType { column, .. } => {
            assert_eq!(replies.column_types.len(), column);
            replies.column_types.push(Ok(ScalarType::Int32));
        }
        Question::KafkaAddrs { .. } => put(&mut replies.kafka_addrs, Ok(KafkaAddrs { id: 6 })),
        Question::SinkSchema { .. } => put(&mut replies.sink_schema, "s".to_string()),
        Question::TransactionSchema => put(&mut replies.transaction_schema, "t".to_string()),
        Question::IsDirectory { .. } => put(&mut replies.is_directory, false),
        Question::KafkaConfig { .. } => put(&mut replies.kafka_config, all.kafka_config.unwrap()),
        Question::Registry { role: Role::Value, .. } => {
            put(&mut replies.value_registry, Ok(CcsrConfig { id: 7 }))
        }
        Question::Registry { role: Role::Key, .. } => {
            put(&mut replies.key_registry, Ok(CcsrConfig { id: 8 }))
        }
        Question::Descriptors { role: Role::Value, .. } => {
            put(&mut replies.value_descriptors, Ok(vec![]))
        }
        Question::Descriptors { role: Role::Key, .. } => {
            put(&mut replies.key_descriptors, Ok(vec![]))
        }
        Question::SourceDesc { .. } => put(&mut replies.source_desc, all.source_desc.unwrap()),
        Question::MetadataColumns { .. } => {
            put(&mut replies.metadata_columns, all.metadata_columns.unwrap())
        }
    }
}

#[test]
fn questions_come_to_an_end_and_descriptions_fit() {
    let c = fixture();
    let statements = vec![
        Statement::Select(SelectStatement { query: sql("SELECT"), as_of: Some(expr("1")) }),
        insert(),
        explain(Explainee::View(name(&["v"]))),
        explain(Explainee::Query(sql("SELECT"))),
        create_index(None, "t", Some(&["a"]), false),
        Statement::CreateView(create_view("w", &["p", "q"], IfExistsBehavior::Error, false)),
        Statement::CreateTable(create_table(vec![column("a", vec![]), column("b", vec![])])),
        create_sink(
            kafka(),
            registry("http://localhost:8081"),
            vec![option("consistency", Value::Boolean(true))],
        ),
        Statement::CreateSource(create_source(
            kafka(),
            avro(Some("key")),
            Envelope::Upsert(avro(None)),
            vec![],
        )),
        show_objects(ObjectType::View, false, true, true, None, None),
        Statement::ShowCreateView(ShowCreateViewStatement { view_name: name(&["v"]) }),
        Statement::ShowVariable(ShowVariableStatement { variable: id("all") }),
        Statement::Commit,
    ];
    for stmt in &statements {
        let mut replies = Replies::none();
        let plan = loop {
            match step(&c, stmt, &replies) {
                Step::Ask(q) => answer(q, &mut replies),
                Step::Done(r) => break r.unwrap(),
            }
        };
        let mut replies = Replies::none();
        let description = loop {
            match describe_statement(&c, stmt, &vec![], &replies) {
                Step::Ask(q) => answer(q, &mut replies),
                Step::Done(r) => break r.unwrap(),
            }
        };
        let rows = matches!(
            plan,
            Plan::Peek { .. }
                | Plan::Tail { .. }
                | Plan::SendRows(_)
                | Plan::ExplainPlan { .. }
                | Plan::ShowVariable(_)
                | Plan::ShowAllVariables
        );
        assert_eq!(description.desc.is_some(), rows, "{:?}", stmt);
    }
}

#[test]
fn more_answers_change_nothing() {
    let c = fixture();
    let stmt = Statement::CreateTable(create_table(vec![column("a", vec![])]));
    let mut few = Replies::none();
    few.column_types.push(Ok(ScalarType::Bool));
    few.create_sql = Some(Ok("sql".to_string()));
    let mut many = source_replies();
    many.column_types.push(Ok(ScalarType::Bool));
    many.column_types.push(Err(engine_error("not asked for")));
    many.create_sql = Some(Ok("sql".to_string()));
    many.planned = Some(Err(engine_error("not asked for")));
    assert_eq!(
        format!("{:?}", done(&c, &stmt, &few)),
        format!("{:?}", done(&c, &stmt, &many))
    );
}
