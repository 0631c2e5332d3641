//! What holds of planned sinks, views, tables, indexes, schemas and databases,
//! in terms of the statements that create them.
use vstd::prelude::*;
use vstd::string::*;

use crate::ast::{
    AvroSchema, ColumnDef, ColumnOption, Connector, CreateDatabaseStatement, CreateIndexStatement,
    CreateSchemaStatement, CreateSinkStatement, CreateTableStatement, CreateViewStatement, Format,
    IfExistsBehavior, KeyPart, KeyPartView, ObjectType, Statement,
};
use crate::catalog::{CatalogItemType, CatalogModel, PlanContext};
use crate::context::item_of;
use crate::database::create_schema;
use crate::drop::{blocks, items_are_dropped_where_they_may_be, may_be_dropped};
use crate::engine::{ParamsView, QueryLifetime, QuestionView, Replies, ScalarExpr, StepView};
use crate::error::{ErrorKind, ErrorView, PlanError};
use crate::external::url_of;
use crate::index::{
    base_name, column_key_part, create_index, filled_key_parts, first_free, key_text,
    made_index_names_are_unused, taken, unused_name, version,
};
use crate::laws::{is_placed, says_switch};
use crate::names::{FullNameView, PartialNameView};
use crate::number::{read_unsigned, unsigned_numbers_are_in_range, IntError};
use crate::plan::PlanView;
use crate::relation::{RelationDesc, RelationView, ScalarType};
use crate::sink::create_sink;
use crate::statement::plan_of;
use crate::table::{column_types, create_table, first_other};
use crate::text::{decimal, joined};
use crate::value::{settings, ValueView};
use crate::view::{create_view, view_name};

verus! {

// Sinks.

/// A planned sink is the one that the statement creates: it has a snapshot and
/// may be there already exactly where the statement says so, it begins at the
/// time that the statement's `AS OF` evaluates to, if it has one, it stands where
/// the statement puts it, and it is fed by the item that the statement names.
pub proof fn sinks_are_as_stated(catalog: CatalogModel, stmt: CreateSinkStatement, replies: Replies)
    ensures
        create_sink(catalog, stmt, replies) matches StepView::Done(Ok(plan)) ==> {
            &&& plan is CreateSink
            &&& plan->CreateSink_with_snapshot == stmt.with_snapshot
            &&& plan->CreateSink_if_not_exists == stmt.if_not_exists
            &&& match plan->CreateSink_as_of {
                Some(time) => stmt.as_of is Some && (replies.as_of matches Some(Ok(ts)) && ts
                    == time),
                None => stmt.as_of is None,
            }
            &&& is_placed(catalog, plan->CreateSink_name, stmt.name)
            &&& item_of(catalog, stmt.from) matches Ok(from) && plan->CreateSink_from
                == catalog.items[from].id
            &&& replies.create_sql matches Some(Ok(sql)) && plan->CreateSink_create_sql == sql@
        },
{
}

/// A sink goes where the statement says. The topic of a Kafka sink is named after
/// the statement, and after the run of the system; it is written to at the
/// brokers and with the schemas that were found, and has as many copies as the
/// options say, or else one. The file of an Avro container sink is the one of the
/// statement, with the run of the system in its name.
pub proof fn sinks_go_where_stated(
    catalog: CatalogModel,
    stmt: CreateSinkStatement,
    replies: Replies,
)
    ensures
        create_sink(catalog, stmt, replies) matches StepView::Done(Ok(plan)) ==> {
            let options = settings(stmt.with_options@);
            let run = decimal(catalog.startup_secs as nat) + "-"@ + decimal(catalog.nonce as nat);
            let builder = plan->CreateSink_connector_builder;
            &&& plan is CreateSink
            &&& catalog.startup_secs >= 0
            &&& match stmt.connector {
                Connector::Kafka { topic, .. } => {
                    &&& builder is Kafka
                    &&& builder->topic_prefix == topic@
                    &&& builder->topic_suffix == run
                    &&& builder->fuel == 10000
                    &&& replies.kafka_addrs matches Some(Ok(addrs)) && builder->broker_addrs == addrs
                    &&& replies.sink_schema matches Some(schema) && builder->value_schema == schema@
                    &&& stmt.format matches Some(
                        Format::Avro(AvroSchema::CsrUrl { url, seed: None, with_options }),
                    ) && with_options@.len() == 0 && url_of(url@) == Ok::<Seq<char>, Seq<char>>(
                        builder->schema_registry_url,
                    )
                    &&& if options.contains_key("replication_factor"@) {
                        &&& options["replication_factor"@] is Number
                        &&& read_unsigned(
                            options["replication_factor"@]->Number_0,
                            u32::MAX as nat,
                        ) == Ok::<nat, IntError>(builder->replication_factor as nat)
                        &&& builder->replication_factor > 0
                    } else {
                        builder->replication_factor == 1
                    }
                    &&& match builder->consistency_value_schema {
                        Some(schema) => says_switch(options, "consistency"@, true) && (
                        replies.transaction_schema matches Some(given) && schema == given@),
                        None => says_switch(options, "consistency"@, false),
                    }
                },
                Connector::AvroOcf { path } => {
                    &&& builder is AvroOcf
                    &&& builder->path == path@
                    &&& builder->file_name_suffix == run
                    &&& stmt.format is None
                    &&& stmt.with_options@.len() == 0
                    &&& replies.is_directory == Some(false)
                },
                _ => false,
            }
        },
{
    let options = settings(stmt.with_options@);
    if let ValueView::Number(digits) = options["replication_factor"@] {
        unsigned_numbers_are_in_range(digits, u32::MAX as nat);
    }
}

/// What planning a sink asks is about that sink: about its `AS OF`, its brokers,
/// its path, and the schema that the item that feeds it is written with.
pub proof fn sink_questions_are_about_the_sink(
    catalog: CatalogModel,
    stmt: CreateSinkStatement,
    replies: Replies,
)
    ensures
        create_sink(catalog, stmt, replies) matches StepView::Ask(question) ==> match question {
            QuestionView::CreateSql => true,
            QuestionView::EvalAsOf { expr } => stmt.as_of matches Some(stated) && expr
                == stated.sql@,
            QuestionView::KafkaAddrs { broker } => stmt.connector is Kafka && broker
                == stmt.connector->broker@,
            QuestionView::SinkSchema { desc, include_consistency } => {
                &&& stmt.connector is Kafka
                &&& item_of(catalog, stmt.from) matches Ok(from) && (
                catalog.items[from].desc matches Ok(shape) && desc == shape@)
                &&& says_switch(
                    settings(stmt.with_options@),
                    "consistency"@,
                    include_consistency,
                )
            },
            QuestionView::TransactionSchema => stmt.connector is Kafka && says_switch(
                settings(stmt.with_options@),
                "consistency"@,
                true,
            ),
            QuestionView::IsDirectory { path } => stmt.connector is AvroOcf && path
                == stmt.connector->AvroOcf_path@,
            _ => false,
        },
{
}

/// Whether a sink can write where its statement says, with its options.
pub open spec fn sink_makes_sense(stmt: CreateSinkStatement) -> bool {
    let options = settings(stmt.with_options@);
    match stmt.connector {
        Connector::Kafka { .. } => {
            &&& stmt.format matches Some(
                Format::Avro(AvroSchema::CsrUrl { url, seed: None, with_options }),
            )
            &&& with_options@.len() == 0
            &&& url_of(url@) is Ok
            &&& options.contains_key("consistency"@) ==> options["consistency"@] is Boolean
            &&& options.contains_key("replication_factor"@) ==> {
                &&& options["replication_factor"@] is Number
                &&& read_unsigned(
                    options["replication_factor"@]->Number_0,
                    u32::MAX as nat,
                ) matches Ok(n)
                &&& n > 0
            }
        },
        Connector::AvroOcf { .. } => stmt.format is None && stmt.with_options@.len() == 0,
        _ => false,
    }
}

/// Once everything that planning may ask has a good answer, a sink is planned
/// exactly where its connector and its format make sense, its name has one to
/// three components, the item that feeds it is there and, for Kafka, has columns,
/// and the system did not start before the epoch.
pub proof fn sensible_sinks_are_planned(
    catalog: CatalogModel,
    stmt: CreateSinkStatement,
    replies: Replies,
)
    requires
        replies.create_sql matches Some(Ok(_)),
        replies.as_of matches Some(Ok(_)),
        replies.kafka_addrs matches Some(Ok(_)),
        replies.sink_schema is Some,
        replies.transaction_schema is Some,
        replies.is_directory == Some(false),
    ensures
        create_sink(catalog, stmt, replies) matches StepView::Done(Ok(_)) <==> {
            &&& sink_makes_sense(stmt)
            &&& 1 <= stmt.name.0@.len() <= 3
            &&& catalog.startup_secs >= 0
            &&& item_of(catalog, stmt.from) matches Ok(from)
            &&& stmt.connector is Kafka ==> catalog.items[from].desc is Ok
        },
{
}

// Views.

/// Whether a new view of this name stands where a statement puts it: a temporary
/// one in no named database, and by default in the schema `mz_temp`.
pub open spec fn is_view_placed(
    catalog: CatalogModel,
    name: FullNameView,
    stmt: CreateViewStatement,
) -> bool {
    let parts = stmt.name.0@;
    let n = parts.len() as int;
    if stmt.temporary {
        &&& 1 <= n <= 3
        &&& name.database is None
        &&& name.item == parts[n - 1].value@
        &&& n == 1 ==> name.schema == "mz_temp"@
        &&& n >= 2 ==> name.schema == parts[n - 2].value@
    } else {
        is_placed(catalog, name, stmt.name)
    }
}

/// Whether the item of this name is a view that is not the system's and that
/// nothing but indexes depend on.
pub open spec fn is_replaceable(catalog: CatalogModel, name: FullNameView) -> bool {
    let item = catalog.items[name];
    &&& item.id !is System
    &&& item.item_type == CatalogItemType::View
    &&& forall|i: int|
        0 <= i < item.used_by@.len()
            ==> catalog.items_by_id[#[trigger] item.used_by@[i]].item_type == CatalogItemType::Index
}

/// Whether the catalog finds something under a full name.
pub open spec fn is_there(catalog: CatalogModel, name: FullNameView) -> bool {
    (catalog.names)(
        PartialNameView { database: name.database, schema: Some(name.schema), item: name.item },
    ) is Ok
}

/// A planned view is the one that the statement creates: it is materialized
/// exactly where the statement says `MATERIALIZED`, temporary exactly where it
/// says `TEMPORARY`, and may be there already exactly where it says `IF NOT
/// EXISTS`. A temporary view stands in no named database; any other one stands
/// where the statement puts it.
pub proof fn views_are_as_stated(
    catalog: CatalogModel,
    pcx: PlanContext,
    param_types: Map<usize, ScalarType>,
    stmt: CreateViewStatement,
    params: ParamsView,
    replies: Replies,
)
    ensures
        create_view(catalog, pcx, param_types, stmt, params, replies) matches StepView::Done(
            Ok(plan),
        ) ==> {
            &&& plan is CreateView
            &&& plan->CreateView_materialize == stmt.materialized
            &&& plan->CreateView_temporary == stmt.temporary
            &&& plan->CreateView_if_not_exists <==> stmt.if_exists == IfExistsBehavior::Skip
            &&& replies.create_sql matches Some(Ok(sql)) && plan->CreateView_create_sql == sql@
            &&& stmt.with_options@.len() == 0
            &&& is_view_placed(catalog, plan->CreateView_name, stmt)
        },
{
}

/// A view stands for its query, with the parameters filled in and the finishing
/// made part of it. Its columns are those of the query, under the names that the
/// statement gives, if it gives any: then it names them all.
pub proof fn views_stand_for_their_queries(
    catalog: CatalogModel,
    pcx: PlanContext,
    param_types: Map<usize, ScalarType>,
    stmt: CreateViewStatement,
    params: ParamsView,
    replies: Replies,
)
    ensures
        create_view(catalog, pcx, param_types, stmt, params, replies) matches StepView::Done(
            Ok(plan),
        ) ==> {
            let names = plan->CreateView_column_names;
            &&& plan is CreateView
            &&& replies.decorrelated == Some(plan->CreateView_expr)
            &&& replies.bound matches Some(Ok(_))
            &&& replies.finished is Some
            &&& replies.planned matches Some(Ok(planned)) && {
                &&& stmt.columns@.len() == 0 ==> names == planned.desc@.names
                &&& stmt.columns@.len() > 0 ==> {
                    &&& stmt.columns@.len() == planned.desc@.types.len()
                    &&& names.len() == stmt.columns@.len()
                    &&& forall|i: int|
                        0 <= i < names.len() ==> #[trigger] names[i] == Some(
                            stmt.columns@[i].value@,
                        )
                }
            }
        },
{
}

/// What planning a view asks is about its query: first for its plan, which is
/// to last, then for the parameters to be filled in, for the finishing to be made
/// part of it, and for subqueries to be removed, each time of what came before.
pub proof fn view_questions_are_about_the_query(
    catalog: CatalogModel,
    pcx: PlanContext,
    param_types: Map<usize, ScalarType>,
    stmt: CreateViewStatement,
    params: ParamsView,
    replies: Replies,
)
    ensures
        create_view(catalog, pcx, param_types, stmt, params, replies) matches StepView::Ask(
            question,
        ) ==> match question {
            QuestionView::CreateSql => true,
            QuestionView::PlanQuery { query, lifetime, pcx: now, param_types: types } => {
                &&& query == stmt.query.sql@
                &&& lifetime == QueryLifetime::Static
                &&& now == pcx
                &&& types == param_types
            },
            QuestionView::Bind { expr, params: values } => {
                &&& replies.planned matches Some(Ok(planned)) && expr == planned.expr
                &&& values == params
            },
            QuestionView::Finish { expr, finishing } => {
                &&& replies.planned matches Some(Ok(planned)) && finishing == planned.finishing
                &&& replies.bound matches Some(Ok(bound)) && expr == bound
            },
            QuestionView::Decorrelate { expr } => replies.finished == Some(expr),
            _ => false,
        },
{
}

/// Once everything that planning may ask has a good answer, a view is planned
/// exactly where it has no options, the statement names no columns or all of
/// them, and, with `OR REPLACE`, what stands under its name may be replaced.
pub proof fn sensible_views_are_planned(
    catalog: CatalogModel,
    pcx: PlanContext,
    param_types: Map<usize, ScalarType>,
    stmt: CreateViewStatement,
    params: ParamsView,
    replies: Replies,
    name: FullNameView,
)
    requires
        is_view_placed(catalog, name, stmt),
        replies.create_sql matches Some(Ok(_)),
        replies.planned matches Some(Ok(_)),
        replies.bound matches Some(Ok(_)),
        replies.finished is Some,
        replies.decorrelated is Some,
    ensures
        create_view(catalog, pcx, param_types, stmt, params, replies) matches StepView::Done(
            Ok(_),
        ) <==> {
            &&& stmt.with_options@.len() == 0
            &&& stmt.columns@.len() == 0 || stmt.columns@.len()
                == replies.planned->0->Ok_0.desc@.types.len()
            &&& stmt.if_exists == IfExistsBehavior::Replace && is_there(catalog, name)
                ==> is_replaceable(catalog, name)
        },
{
    items_are_dropped_where_they_may_be(catalog, ObjectType::View, name, false);
    views_may_be_dropped_where_replaceable(catalog, name);
}

/// A view replaces what stands under its name, and that only with `OR REPLACE`.
pub proof fn views_replace_what_is_there(
    catalog: CatalogModel,
    pcx: PlanContext,
    param_types: Map<usize, ScalarType>,
    stmt: CreateViewStatement,
    params: ParamsView,
    replies: Replies,
)
    ensures
        create_view(catalog, pcx, param_types, stmt, params, replies) matches StepView::Done(
            Ok(plan),
        ) ==> {
            let name = plan->CreateView_name;
            &&& plan is CreateView
            &&& match plan->CreateView_replace {
                Some(id) => {
                    &&& stmt.if_exists == IfExistsBehavior::Replace
                    &&& is_there(catalog, name)
                    &&& is_replaceable(catalog, name)
                    &&& id == catalog.items[name].id
                },
                None => stmt.if_exists != IfExistsBehavior::Replace || !is_there(catalog, name),
            }
        },
{
    if let Ok(name) = view_name(catalog, stmt) {
        items_are_dropped_where_they_may_be(catalog, ObjectType::View, name, false);
        views_may_be_dropped_where_replaceable(catalog, name);
    }
}

proof fn views_may_be_dropped_where_replaceable(catalog: CatalogModel, name: FullNameView)
    ensures
        may_be_dropped(catalog, ObjectType::View, name, false) <==> is_replaceable(catalog, name),
{
    let used_by = catalog.items[name].used_by@;
    if may_be_dropped(catalog, ObjectType::View, name, false) {
        assert forall|i: int| 0 <= i < used_by.len() implies catalog.items_by_id[#[trigger] used_by[i]].item_type
            == CatalogItemType::Index by {
            assert(!blocks(catalog, used_by[i]));
        }
    }
}

// Indexes.

/// An index is never refused for the type of what it is on where that is a
/// view, a source or a table: with good answers it is planned, on that item. It
/// is refused, whatever the answers, where that is a sink or an index, and where
/// there is no such item.
pub proof fn indexes_are_on_relations(
    catalog: CatalogModel,
    stmt: CreateIndexStatement,
    replies: Replies,
)
    ensures
        match item_of(catalog, stmt.on_name) {
            Err(e) => create_index(catalog, stmt, replies) == StepView::<PlanView>::Done(Err(e)),
            Ok(on) => {
                let item = catalog.items[on];
                match item.item_type {
                    CatalogItemType::View | CatalogItemType::Source | CatalogItemType::Table =>
                        match item.desc {
                        Ok(_) => (replies.index_keys matches Some(Ok(_))) && (
                        replies.create_sql matches Some(Ok(_))) ==> (create_index(
                            catalog,
                            stmt,
                            replies,
                        ) matches StepView::Done(Ok(plan)) && plan is CreateIndex
                            && plan->CreateIndex_on == item.id),
                        Err(e) => create_index(catalog, stmt, replies) == StepView::<
                            PlanView,
                        >::Done(Err(e@)),
                    },
                    CatalogItemType::Sink | CatalogItemType::Index => create_index(
                        catalog,
                        stmt,
                        replies,
                    ) matches StepView::Done(Err(e)) && e.kind == ErrorKind::Invalid,
                }
            },
        },
{
}

/// Whether a column has a name that no other column has.
pub open spec fn has_own_name(desc: RelationView, column: int) -> bool {
    &&& desc.names[column] is Some
    &&& forall|j: int|
        0 <= j < desc.names.len() && j != column ==> #[trigger] desc.names[j] != desc.names[column]
}

/// Whether a part of a key is the column of this place: by its name where it has
/// one of its own, or else by its number, counted from one.
pub open spec fn is_column_part(part: KeyPartView, desc: RelationView, column: int) -> bool {
    if has_own_name(desc, column) {
        part == KeyPartView::Column(desc.names[column]->0)
    } else {
        part == KeyPartView::Number(decimal((column + 1) as nat))
    }
}

/// Whether these are the parts of the key of an index: those that the statement
/// gives, or else the columns of the first key of the relation, or all columns
/// where it has no such key.
pub open spec fn is_key_of(
    parts: Seq<KeyPartView>,
    stmt: CreateIndexStatement,
    desc: RelationView,
) -> bool {
    match stmt.key_parts {
        Some(given) => {
            &&& parts.len() == given@.len()
            &&& forall|i: int|
                0 <= i < parts.len() ==> #[trigger] parts[i] == match given@[i] {
                    KeyPart::Column(name) => KeyPartView::Column(name@),
                    KeyPart::Number(digits) => KeyPartView::Number(digits@),
                    KeyPart::Expr(expr) => KeyPartView::Expr(expr.sql@),
                }
        },
        None => if desc.keys.len() > 0 && desc.keys[0].len() > 0 {
            &&& parts.len() == desc.keys[0].len()
            &&& forall|i: int|
                0 <= i < parts.len() ==> is_column_part(
                    #[trigger] parts[i],
                    desc,
                    desc.keys[0][i] as int,
                )
        } else {
            &&& parts.len() == desc.types.len()
            &&& forall|i: int| 0 <= i < parts.len() ==> is_column_part(#[trigger] parts[i], desc, i)
        },
    }
}

/// Whether an item of this name is in the schema of another one.
pub open spec fn is_beside(catalog: CatalogModel, on: FullNameView, item: Seq<char>) -> bool {
    let beside = (catalog.contents)(on.database, on.schema);
    exists|i: int|
        0 <= i < beside.len() && (#[trigger] beside[i]).name@ == (FullNameView {
            database: on.database,
            schema: on.schema,
            item,
        })
}

/// Whether a text stands for a key expression in the name of an index.
pub open spec fn stands_for(text: Seq<char>, desc: RelationView, key: ScalarExpr) -> bool {
    match key {
        ScalarExpr::Column(column) => if has_own_name(desc, column as int) {
            desc.names[column as int] == Some(text)
        } else {
            text == decimal((column + 1) as nat)
        },
        ScalarExpr::Other(_) => text == "expr"@,
    }
}

/// Whether a name for an index is made of the name of what it is on: that and
/// `_primary_idx` for the default index, or else that, what stands for the keys,
/// and `_idx`, with underscores between them.
pub open spec fn is_base_name(
    base: Seq<char>,
    on: FullNameView,
    desc: RelationView,
    keys: Seq<ScalarExpr>,
    is_default: bool,
) -> bool {
    if is_default {
        base == on.item + "_primary_idx"@
    } else {
        exists|texts: Seq<Seq<char>>|
            {
                &&& texts.len() == keys.len()
                &&& forall|i: int|
                    0 <= i < keys.len() ==> stands_for(#[trigger] texts[i], desc, keys[i])
                &&& base == on.item + "_"@ + #[trigger] joined(texts, "_"@) + "_idx"@
            }
    }
}

/// Whether a name is the first new one among a base name and the base name with
/// one, two and so on behind it.
pub open spec fn is_new_name(
    catalog: CatalogModel,
    on: FullNameView,
    base: Seq<char>,
    item: Seq<char>,
) -> bool {
    &&& !is_beside(catalog, on, item)
    &&& item == base || (is_beside(catalog, on, base) && exists|k: nat|
        {
            &&& k >= 1
            &&& item == base + #[trigger] decimal(k)
            &&& forall|j: nat| 1 <= j < k ==> is_beside(catalog, on, base + #[trigger] decimal(j))
        })
}

/// Whether a name is one that is made for an index: a base name, unless it is
/// there already and may not be.
pub open spec fn is_made_name(
    catalog: CatalogModel,
    on: FullNameView,
    desc: RelationView,
    keys: Seq<ScalarExpr>,
    is_default: bool,
    if_not_exists: bool,
    item: Seq<char>,
) -> bool {
    exists|base: Seq<char>| #[trigger]
        is_base_name(base, on, desc, keys, is_default) && if if_not_exists {
            item == base
        } else {
            is_new_name(catalog, on, base, item)
        }
}

/// A planned index is the one that the statement creates: it may be there already
/// exactly where the statement says so, its keys are those that were found, and it
/// stands beside what it is on, under the name that the statement gives, if it
/// gives one.
pub proof fn indexes_are_as_stated(
    catalog: CatalogModel,
    stmt: CreateIndexStatement,
    replies: Replies,
)
    ensures
        create_index(catalog, stmt, replies) matches StepView::Done(Ok(plan)) ==> {
            let name = plan->CreateIndex_name;
            &&& plan is CreateIndex
            &&& plan->CreateIndex_if_not_exists == stmt.if_not_exists
            &&& replies.index_keys matches Some(Ok(keys)) && plan->CreateIndex_keys == keys@
            &&& replies.create_sql matches Some(Ok(sql)) && plan->CreateIndex_create_sql == sql@
            &&& item_of(catalog, stmt.on_name) matches Ok(on)
            &&& plan->CreateIndex_on == catalog.items[on].id
            &&& name.database == on.database
            &&& name.schema == on.schema
            &&& stmt.name matches Some(given) ==> name.item == given.value@
        },
{
}

/// The name of an index that the statement gives none to is made of that of what
/// it is on and of the keys; unless the index may be there already, the smallest
/// number that makes the name a new one is put behind it, or nothing where it is
/// new.
pub proof fn index_names_are_made_of_keys(
    catalog: CatalogModel,
    stmt: CreateIndexStatement,
    replies: Replies,
    on: FullNameView,
    desc: RelationDesc,
)
    requires
        stmt.name is None,
        item_of(catalog, stmt.on_name) == Ok::<FullNameView, ErrorView>(on),
        catalog.items[on].desc == Ok::<RelationDesc, PlanError>(desc),
    ensures
        create_index(catalog, stmt, replies) matches StepView::Done(Ok(plan)) ==> plan is CreateIndex
            && is_made_name(
            catalog,
            on,
            desc@,
            plan->CreateIndex_keys,
            stmt.key_parts is None,
            stmt.if_not_exists,
            plan->CreateIndex_name.item,
        ),
{
    if let Some(Ok(keys)) = replies.index_keys {
        made_names_are_as_stated(
            catalog,
            on,
            desc@,
            keys@,
            stmt.key_parts is None,
            stmt.if_not_exists,
        );
    }
}

proof fn made_names_are_as_stated(
    catalog: CatalogModel,
    on: FullNameView,
    desc: RelationView,
    keys: Seq<ScalarExpr>,
    is_default: bool,
    if_not_exists: bool,
)
    ensures
        ({
            let items = (catalog.contents)(on.database, on.schema);
            let full = base_name(on, desc, keys, is_default);
            let name = unused_name(items, full, if_not_exists);
            is_made_name(catalog, on, desc, keys, is_default, if_not_exists, name.item)
        }),
{
    let items = (catalog.contents)(on.database, on.schema);
    let full = base_name(on, desc, keys, is_default);
    let name = unused_name(items, full, if_not_exists);
    let base = full.item;
    if !is_default {
        let texts = keys.map_values(|k: ScalarExpr| key_text(desc, k));
        assert forall|i: int| 0 <= i < keys.len() implies stands_for(
            #[trigger] texts[i],
            desc,
            keys[i],
        ) by {
            if let ScalarExpr::Column(column) = keys[i] {
                assert(texts[i] == key_text(desc, keys[i]));
            }
        }
        assert(base == on.item + "_"@ + joined(texts, "_"@) + "_idx"@);
    }
    if !if_not_exists {
        made_index_names_are_unused(items, full);
        assert forall|n: FullNameView|
            n.database == on.database && n.schema == on.schema implies #[trigger] taken(items, n)
            == is_beside(catalog, on, n.item) by {
            assert(n == (FullNameView { database: on.database, schema: on.schema, item: n.item }));
        }
        let k = choose|k: nat|
            k <= items.len() && name == version(full, k) && #[trigger] first_free(items, full, k);
        if k > 0 {
            assert(taken(items, version(full, 0)));
            assert(name.item == base + decimal(k));
            assert forall|j: nat| 1 <= j < k implies is_beside(
                catalog,
                on,
                base + #[trigger] decimal(j),
            ) by {
                assert(taken(items, version(full, j)));
            }
        }
        assert(is_new_name(catalog, on, base, name.item));
    }
    assert(is_base_name(base, on, desc, keys, is_default));
}

/// What planning an index asks is about the relation that it is on and about its
/// key; the stored statement is asked for with the name and the key that the
/// index is planned with.
pub proof fn index_questions_are_about_the_index(
    catalog: CatalogModel,
    stmt: CreateIndexStatement,
    replies: Replies,
    later: Replies,
)
    requires
        later.extends(replies),
    ensures
        create_index(catalog, stmt, replies) matches StepView::Ask(question) ==> {
            &&& item_of(catalog, stmt.on_name) matches Ok(on)
            &&& catalog.items[on].desc matches Ok(shape)
            &&& match question {
                QuestionView::PlanIndexKeys { desc, key_parts } => desc == shape@ && is_key_of(
                    key_parts,
                    stmt,
                    shape@,
                ),
                QuestionView::CreateIndexSql { name, key_parts } => {
                    &&& is_key_of(key_parts, stmt, shape@)
                    &&& create_index(catalog, stmt, later) matches StepView::Done(Ok(plan))
                        ==> plan is CreateIndex && plan->CreateIndex_name.item == name
                },
                _ => false,
            }
        },
{
    if let Ok(on) = item_of(catalog, stmt.on_name) {
        if let Ok(shape) = catalog.items[on].desc {
            let desc = shape@;
            let parts = filled_key_parts(stmt, desc);
            if let Some(given) = stmt.key_parts {
                assert forall|i: int| 0 <= i < parts.len() implies #[trigger] parts[i]
                    == match given@[i] {
                    KeyPart::Column(name) => KeyPartView::Column(name@),
                    KeyPart::Number(digits) => KeyPartView::Number(digits@),
                    KeyPart::Expr(expr) => KeyPartView::Expr(expr.sql@),
                } by {
                    assert(parts[i] == given@[i]@);
                }
            } else {
                let columns = desc.default_key();
                let _ = shape.typ.column_types.len();
                assert forall|i: int| 0 <= i < parts.len() implies is_column_part(
                    #[trigger] parts[i],
                    desc,
                    columns[i] as int,
                ) by {
                    assert(parts[i] == column_key_part(desc, columns[i]));
                }
            }
            assert(is_key_of(parts, stmt, desc));
        }
    }
}

// Tables.

pub(crate) proof fn types_are_as_stated(columns: Seq<ColumnDef>, n: nat, replies: Replies)
    requires
        n <= columns.len(),
    ensures
        column_types(columns, n, replies) is Ok <==> forall|i: int|
            0 <= i < n ==> is_typed(#[trigger] columns[i], i, replies),
        column_types(columns, n, replies) matches Ok(types) ==> types.len() == n && forall|i: int|
            0 <= i < n ==> {
                &&& replies.column_types@[i] == Ok::<ScalarType, PlanError>(
                    (#[trigger] types[i]).scalar_type,
                )
                &&& types[i].nullable <==> columns[i].options@.len() == 0
            },
        column_types(columns, n, replies) matches Err(step) ==> match step {
            StepView::Ask(QuestionView::ColumnType { column, data_type }) => column < n && column
                == replies.column_types@.len() && data_type == columns[column as int].data_type.sql@,
            StepView::Done(Err(_)) => true,
            _ => false,
        },
    decreases n,
{
    if n > 0 {
        types_are_as_stated(columns, (n - 1) as nat, replies);
        let options = columns[n - 1].options@;
        only_not_null_is_supported(options);
        if options.len() > 0 && first_other(options) is None {
            assert(options[0] is NotNull);
        }
        if column_types(columns, n, replies) is Ok {
            assert(is_typed(columns[n - 1], n - 1, replies));
            assert forall|i: int| 0 <= i < n implies is_typed(#[trigger] columns[i], i, replies) by {
                if i < n - 1 {
                    assert(is_typed(columns[i], i, replies));
                }
            }
        }
        if forall|i: int| 0 <= i < n ==> is_typed(#[trigger] columns[i], i, replies) {
            assert forall|i: int| 0 <= i < n - 1 implies is_typed(
                #[trigger] columns[i],
                i,
                replies,
            ) by {
            }
            assert(is_typed(columns[n - 1], n - 1, replies));
        }
    }
}

/// Whether the type of a column is known, and it has no constraint but `NOT NULL`.
pub open spec fn is_typed(column: ColumnDef, i: int, replies: Replies) -> bool {
    &&& i < replies.column_types@.len()
    &&& replies.column_types@[i] is Ok
    &&& forall|k: int| 0 <= k < column.options@.len() ==> #[trigger] column.options@[k] is NotNull
}

proof fn only_not_null_is_supported(options: Seq<ColumnOption>)
    ensures
        first_other(options) is None <==> forall|k: int|
            0 <= k < options.len() ==> #[trigger] options[k] is NotNull,
    decreases options.len(),
{
    if options.len() > 0 {
        let rest = options.skip(1);
        only_not_null_is_supported(rest);
        if options[0] is NotNull {
            if first_other(options) is None {
                assert forall|k: int| 0 <= k < options.len() implies #[trigger] options[k] is NotNull by {
                    if k > 0 {
                        assert(rest[k - 1] is NotNull);
                    }
                }
            } else if forall|k: int| 0 <= k < options.len() ==> #[trigger] options[k] is NotNull {
                assert forall|k: int| 0 <= k < rest.len() implies #[trigger] rest[k] is NotNull by {
                    assert(options[k + 1] is NotNull);
                }
            }
        }
    }
}

/// A planned table is the one that the statement creates: it may be there already
/// exactly where the statement says so, and stands where the statement puts it.
/// Its columns are those of the statement, in their order, each of the type that
/// was found for it, and with nulls unless the statement says `NOT NULL`. It has
/// no keys.
pub proof fn tables_are_as_stated(
    catalog: CatalogModel,
    stmt: CreateTableStatement,
    replies: Replies,
)
    ensures
        create_table(catalog, stmt, replies) matches StepView::Done(Ok(plan)) ==> {
            let desc = plan->CreateTable_desc;
            let columns = stmt.columns@;
            &&& plan is CreateTable
            &&& plan->CreateTable_if_not_exists == stmt.if_not_exists
            &&& is_placed(catalog, plan->CreateTable_name, stmt.name)
            &&& replies.create_sql matches Some(Ok(sql)) && plan->CreateTable_create_sql == sql@
            &&& desc.keys.len() == 0
            &&& desc.names.len() == columns.len()
            &&& desc.types.len() == columns.len()
            &&& forall|i: int|
                0 <= i < columns.len() ==> #[trigger] desc.names[i] == Some(columns[i].name.value@)
            &&& forall|i: int|
                0 <= i < columns.len() ==> {
                    &&& replies.column_types@[i] == Ok::<ScalarType, PlanError>(
                        (#[trigger] desc.types[i]).scalar_type,
                    )
                    &&& desc.types[i].nullable <==> columns[i].options@.len() == 0
                }
        },
{
    types_are_as_stated(stmt.columns@, stmt.columns@.len(), replies);
}

/// Once everything that planning may ask has a good answer, a table is planned
/// exactly where it has no options and no constraints but `NOT NULL` on columns,
/// no two columns of one name, and a name of one to three components.
pub proof fn sensible_tables_are_planned(
    catalog: CatalogModel,
    stmt: CreateTableStatement,
    replies: Replies,
)
    requires
        replies.create_sql matches Some(Ok(_)),
        replies.column_types@.len() >= stmt.columns@.len(),
        forall|i: int|
            0 <= i < stmt.columns@.len() ==> #[trigger] replies.column_types@[i] is Ok,
    ensures
        create_table(catalog, stmt, replies) matches StepView::Done(Ok(_)) <==> {
            &&& stmt.with_options@.len() == 0
            &&& stmt.constraints@.len() == 0
            &&& 1 <= stmt.name.0@.len() <= 3
            &&& forall|i: int, j: int|
                0 <= i < j < stmt.columns@.len() ==> (#[trigger] stmt.columns@[i]).name.value@ != (
                #[trigger] stmt.columns@[j]).name.value@
            &&& forall|i: int, k: int|
                0 <= i < stmt.columns@.len() && 0 <= k < stmt.columns@[i].options@.len()
                    ==> #[trigger] stmt.columns@[i].options@[k] is NotNull
        },
{
    let columns = stmt.columns@;
    types_are_as_stated(columns, columns.len(), replies);
    if column_types(columns, columns.len(), replies) is Ok {
        assert forall|i: int, k: int|
            0 <= i < columns.len() && 0 <= k < columns[i].options@.len() implies #[trigger] columns[i].options@[k] is NotNull by {
            assert(is_typed(columns[i], i, replies));
        }
    } else {
        let i = choose|i: int| 0 <= i < columns.len() && !is_typed(#[trigger] columns[i], i, replies);
        assert(replies.column_types@[i] is Ok);
    }
}

/// What planning a table asks of columns is the type that the statement says for
/// the next one.
pub proof fn table_questions_are_about_the_columns(
    catalog: CatalogModel,
    stmt: CreateTableStatement,
    replies: Replies,
)
    ensures
        create_table(catalog, stmt, replies) matches StepView::Ask(question) ==> match question {
            QuestionView::CreateSql => true,
            QuestionView::ColumnType { column, data_type } => {
                &&& column < stmt.columns@.len()
                &&& column == replies.column_types@.len()
                &&& data_type == stmt.columns@[column as int].data_type.sql@
            },
            _ => false,
        },
{
    types_are_as_stated(stmt.columns@, stmt.columns@.len(), replies);
}

// Databases and schemas.

/// A database is created under the name of the statement, and may be there
/// already exactly where the statement says so.
pub proof fn databases_are_as_stated(
    catalog: CatalogModel,
    pcx: PlanContext,
    stmt: CreateDatabaseStatement,
    params: ParamsView,
    replies: Replies,
)
    ensures
        plan_of(
            catalog,
            pcx,
            Statement::CreateDatabase(stmt),
            params,
            replies,
        ) matches StepView::Done(Ok(plan)) && {
            &&& plan is CreateDatabase
            &&& plan->CreateDatabase_name == stmt.name.value@
            &&& plan->CreateDatabase_if_not_exists == stmt.if_not_exists
        },
{
}

/// A schema is created under the last component of its name, in the database of
/// the component before it, or else in the default one; with more than two
/// components it is refused. It may be there already exactly where the statement
/// says so.
pub proof fn schemas_are_as_stated(catalog: CatalogModel, stmt: CreateSchemaStatement)
    requires
        stmt.name.0@.len() > 0,
    ensures
        create_schema(catalog, stmt) is Ok <==> stmt.name.0@.len() <= 2,
        create_schema(catalog, stmt) matches Ok(plan) ==> {
            let parts = stmt.name.0@;
            &&& plan is CreateSchema
            &&& plan->CreateSchema_if_not_exists == stmt.if_not_exists
            &&& plan->CreateSchema_schema_name == parts[parts.len() - 1].value@
            &&& plan->CreateSchema_database_name == if parts.len() == 1 {
                Some(catalog.default_database)
            } else {
                Some(parts[0].value@)
            }
        },
        create_schema(catalog, stmt) matches Err(e) ==> e.kind == ErrorKind::Invalid,
{
}

} // verus!
