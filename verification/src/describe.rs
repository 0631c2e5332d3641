//! What a statement returns, and the types of its parameters, without planning it in full.
use std::collections::BTreeMap;

use vstd::prelude::*;
use vstd::string::*;

use crate::ast::{
    ExplainStage, ExplainStatement, Explainee, InsertStatement, ObjectType, Query, Statement,
    TailStatement,
};
use crate::catalog::{Catalog, CatalogModel, PlanContext};
use crate::context::{finalized, item_of, StatementContext};
use crate::engine::{failed, QueryLifetime, Replies, Step, StepView};
use crate::error::{invalid, ErrorView, PlanError};
use crate::query::{ask_insertion, insertion, plan_root_query, planned};
use crate::relation::{column, ColumnType, RelationDesc, RelationView, ScalarType};
use crate::variable::{is_all, means_all};

verus! {

// Shapes.

/// A column of texts that are never null.
pub open spec fn text_column() -> ColumnType {
    column(ScalarType::String, false)
}

/// The relation of one column of texts.
pub open spec fn text_relation(name: Seq<char>) -> RelationView {
    RelationView::empty().with_column(name, text_column())
}

fn make_text_relation(name: &str) -> (desc: RelationDesc)
    ensures
        desc@ == text_relation(name@),
{
    RelationDesc::empty().with_column(name, ScalarType::String.nullable(false))
}

/// The relation of two columns of texts.
pub open spec fn text_pair_relation(first: Seq<char>, second: Seq<char>) -> RelationView {
    text_relation(first).with_column(second, text_column())
}

fn make_text_pair_relation(first: &str, second: &str) -> (desc: RelationDesc)
    ensures
        desc@ == text_pair_relation(first@, second@),
{
    make_text_relation(first).with_column(second, ScalarType::String.nullable(false))
}

/// What `SHOW INDEXES` returns.
pub open spec fn indexes_desc() -> RelationView {
    text_pair_relation("On_name"@, "Key_name"@).with_column(
        "Column_name"@,
        column(ScalarType::String, true),
    ).with_column("Expression"@, column(ScalarType::String, true)).with_column(
        "Null"@,
        column(ScalarType::Bool, false),
    ).with_column("Seq_in_index"@, column(ScalarType::Int64, false))
}

fn make_indexes_desc() -> (desc: RelationDesc)
    ensures
        desc@ == indexes_desc(),
{
    make_text_pair_relation("On_name", "Key_name").with_column(
        "Column_name",
        ScalarType::String.nullable(true),
    ).with_column("Expression", ScalarType::String.nullable(true)).with_column(
        "Null",
        ScalarType::Bool.nullable(false),
    ).with_column("Seq_in_index", ScalarType::Int64.nullable(false))
}

/// The keyword for objects of a type.
pub open spec fn plural_text(object_type: ObjectType) -> Seq<char> {
    match object_type {
        ObjectType::Schema => "SCHEMAS"@,
        ObjectType::Index => "INDEXES"@,
        ObjectType::Table => "TABLES"@,
        ObjectType::View => "VIEWS"@,
        ObjectType::Source => "SOURCES"@,
        ObjectType::Sink => "SINKS"@,
    }
}

/// The keyword for objects of a type.
pub fn object_type_as_plural_str(object_type: ObjectType) -> (text: &'static str)
    ensures
        text@ == plural_text(object_type),
{
    match object_type {
        ObjectType::Schema => "SCHEMAS",
        ObjectType::Index => "INDEXES",
        ObjectType::Table => "TABLES",
        ObjectType::View => "VIEWS",
        ObjectType::Source => "SOURCES",
        ObjectType::Sink => "SINKS",
    }
}

/// What `SHOW` of objects returns: their names; with `full` also their types,
/// and for views and sources, unless only materialized ones are shown, whether
/// they are materialized.
pub open spec fn show_objects_desc(
    object_type: ObjectType,
    materialized: bool,
    full: bool,
) -> RelationView {
    let names = text_relation(plural_text(object_type));
    let types = names.with_column("TYPE"@, text_column());
    if !full {
        names
    } else if !materialized && (object_type == ObjectType::View || object_type
        == ObjectType::Source) {
        types.with_column("MATERIALIZED"@, column(ScalarType::Bool, false))
    } else {
        types
    }
}

/// What `SHOW` of objects returns.
pub fn make_show_objects_desc(object_type: ObjectType, materialized: bool, full: bool) -> (desc:
    RelationDesc)
    ensures
        desc@ == show_objects_desc(object_type, materialized, full),
{
    let col_name = object_type_as_plural_str(object_type);
    if full {
        let desc = make_text_pair_relation(col_name, "TYPE");
        if !materialized && (object_type == ObjectType::View || object_type == ObjectType::Source) {
            desc.with_column("MATERIALIZED", ScalarType::Bool.nullable(false))
        } else {
            desc
        }
    } else {
        make_text_relation(col_name)
    }
}

/// What `SHOW` of a variable returns.
pub open spec fn variable_desc(variable: Seq<char>) -> RelationView {
    if is_all(variable) {
        text_pair_relation("name"@, "setting"@).with_column("description"@, text_column())
    } else {
        text_relation(variable)
    }
}

fn make_variable_desc(variable: &str) -> (desc: RelationDesc)
    ensures
        desc@ == variable_desc(variable@),
{
    if means_all(variable) {
        make_text_pair_relation("name", "setting").with_column(
            "description",
            ScalarType::String.nullable(false),
        )
    } else {
        make_text_relation(variable)
    }
}

/// What an explanation is called.
pub open spec fn stage_text(stage: ExplainStage) -> Seq<char> {
    match stage {
        ExplainStage::RawPlan => "Raw Plan"@,
        ExplainStage::DecorrelatedPlan => "Decorrelated Plan"@,
        ExplainStage::OptimizedPlan => "Optimized Plan"@,
    }
}

fn show_stage(stage: ExplainStage) -> (text: &'static str)
    ensures
        text@ == stage_text(stage),
{
    match stage {
        ExplainStage::RawPlan => "Raw Plan",
        ExplainStage::DecorrelatedPlan => "Decorrelated Plan",
        ExplainStage::OptimizedPlan => "Optimized Plan",
    }
}

// Parameters.

/// The types that the first `n` parameters are given, by their numbers.
pub open spec fn given_types(
    types: Seq<Option<Result<ScalarType, PlanError>>>,
    n: nat,
) -> Result<Map<usize, ScalarType>, ErrorView>
    decreases n,
{
    if n == 0 {
        Ok(Map::empty())
    } else {
        match given_types(types, (n - 1) as nat) {
            Err(e) => Err(e),
            Ok(before) => match types[n - 1] {
                None => Ok(before),
                Some(Ok(typ)) => Ok(before.insert(n as usize, typ)),
                Some(Err(e)) => Err(e@),
            },
        }
    }
}

proof fn first_error_stays(types: Seq<Option<Result<ScalarType, PlanError>>>, m: nat, n: nat)
    requires
        m <= n,
    ensures
        given_types(types, m) matches Err(e) ==> given_types(types, n) == Err::<
            Map<usize, ScalarType>,
            ErrorView,
        >(e),
    decreases n - m,
{
    if m < n {
        first_error_stays(types, m, (n - 1) as nat);
    }
}

fn collect_types(types: &Vec<Option<Result<ScalarType, PlanError>>>) -> (r: Result<
    BTreeMap<usize, ScalarType>,
    PlanError,
>)
    ensures
        match r {
            Ok(map) => given_types(types@, types@.len()) == Ok::<
                Map<usize, ScalarType>,
                ErrorView,
            >(map@),
            Err(e) => given_types(types@, types@.len()) == Err::<
                Map<usize, ScalarType>,
                ErrorView,
            >(e@),
        },
{
    let mut map: BTreeMap<usize, ScalarType> = BTreeMap::new();
    let mut i: usize = 0;
    while i < types.len()
        invariant
            i <= types.len(),
            given_types(types@, i as nat) == Ok::<Map<usize, ScalarType>, ErrorView>(map@),
        decreases types.len() - i,
    {
        proof {
            first_error_stays(types@, (i + 1) as nat, types@.len());
        }
        match &types[i] {
            None => {},
            Some(Ok(typ)) => {
                map.insert(i + 1, *typ);
            },
            Some(Err(e)) => {
                return Err(e.clone());
            },
        }
        i = i + 1;
    }
    Ok(map)
}

// Statements.

/// What a statement returns, if anything, and the types of its parameters.
#[derive(Debug)]
pub struct Description {
    pub desc: Option<RelationDesc>,
    pub param_types: Vec<ScalarType>,
}

/// The contents of a [`Description`].
#[verifier::ext_equal]
pub struct DescriptionView {
    pub desc: Option<RelationView>,
    pub param_types: Seq<ScalarType>,
}

impl View for Description {
    type V = DescriptionView;

    open spec fn view(&self) -> DescriptionView {
        DescriptionView {
            desc: match self.desc {
                Some(desc) => Some(desc@),
                None => None,
            },
            param_types: self.param_types@,
        }
    }
}

/// The description of a statement that takes no parameters.
pub open spec fn described(desc: Option<RelationView>) -> StepView<DescriptionView> {
    StepView::Done(Ok(DescriptionView { desc, param_types: Seq::empty() }))
}

fn describe(desc: Option<RelationDesc>) -> (step: Step<Description>)
    ensures
        step@ == described(
            match desc {
                Some(desc) => Some(desc@),
                None => None,
            },
        ),
{
    let param_types: Vec<ScalarType> = Vec::new();
    assert(param_types@ =~= Seq::<ScalarType>::empty());
    Step::Done(Ok(Description { desc, param_types }))
}

/// The description of `SELECT`: it takes the plan of the query.
pub open spec fn select_description(
    query: Seq<char>,
    param_types: Map<usize, ScalarType>,
    replies: Replies,
) -> StepView<DescriptionView> {
    match planned(
        query,
        QueryLifetime::OneShot,
        PlanContext { wall_time_ms: 0 },
        param_types,
        replies,
    ) {
        Err(step) => step,
        Ok(planned) => match finalized(planned.param_types@) {
            Err(e) => failed(e),
            Ok(param_types) => StepView::Done(
                Ok(DescriptionView { desc: Some(planned.desc@), param_types }),
            ),
        },
    }
}

fn describe_select<C: Catalog>(scx: &StatementContext<C>, query: &Query, replies: &Replies) -> (step:
    Step<Description>)
    requires
        *scx.pcx == (PlanContext { wall_time_ms: 0 }),
    ensures
        step@ == select_description(query.sql@, scx.param_types@, *replies),
{
    let planned = match plan_root_query::<Description>(
        query,
        QueryLifetime::OneShot,
        scx.pcx,
        &scx.param_types,
        replies,
    ) {
        Ok(planned) => planned,
        Err(step) => {
            return step;
        },
    };
    let after = StatementContext {
        pcx: scx.pcx,
        catalog: scx.catalog,
        param_types: planned.param_types.clone(),
    };
    match after.finalize_param_types() {
        Ok(param_types) => Step::Done(
            Ok(Description { desc: Some(planned.desc.clone()), param_types }),
        ),
        Err(e) => Step::Done(Err(e)),
    }
}

/// The description of `INSERT`: it takes the plan of the insertion.
pub open spec fn insert_description(
    stmt: InsertStatement,
    param_types: Map<usize, ScalarType>,
    replies: Replies,
) -> StepView<DescriptionView> {
    match replies.inserted {
        None => StepView::Ask(insertion(PlanContext { wall_time_ms: 0 }, param_types, stmt)),
        Some(Err(e)) => failed(e@),
        Some(Ok(inserted)) => match finalized(inserted.param_types@) {
            Err(e) => failed(e),
            Ok(param_types) => StepView::Done(Ok(DescriptionView { desc: None, param_types })),
        },
    }
}

fn describe_insert<C: Catalog>(
    scx: &StatementContext<C>,
    stmt: &InsertStatement,
    replies: &Replies,
) -> (step: Step<Description>)
    requires
        *scx.pcx == (PlanContext { wall_time_ms: 0 }),
    ensures
        step@ == insert_description(*stmt, scx.param_types@, *replies),
{
    let inserted = match &replies.inserted {
        None => {
            return Step::Ask(ask_insertion(scx.pcx, &scx.param_types, stmt));
        },
        Some(Err(e)) => {
            return Step::Done(Err(e.clone()));
        },
        Some(Ok(inserted)) => inserted,
    };
    let after = StatementContext {
        pcx: scx.pcx,
        catalog: scx.catalog,
        param_types: inserted.param_types.clone(),
    };
    match after.finalize_param_types() {
        Ok(param_types) => Step::Done(Ok(Description { desc: None, param_types })),
        Err(e) => Step::Done(Err(e)),
    }
}

/// The description of `EXPLAIN`: one text. The parameters are those of the query.
pub open spec fn explain_description(
    stmt: ExplainStatement,
    param_types: Map<usize, ScalarType>,
    replies: Replies,
) -> StepView<DescriptionView> {
    let desc = text_relation(stage_text(stmt.stage));
    match stmt.explainee {
        Explainee::View(_) => described(Some(desc)),
        Explainee::Query(query) => match select_description(query.sql@, param_types, replies) {
            StepView::Done(Ok(of_query)) => StepView::Done(
                Ok(DescriptionView { desc: Some(desc), param_types: of_query.param_types }),
            ),
            step => step,
        },
    }
}

fn describe_explain<C: Catalog>(
    scx: &StatementContext<C>,
    stmt: &ExplainStatement,
    replies: &Replies,
) -> (step: Step<Description>)
    requires
        *scx.pcx == (PlanContext { wall_time_ms: 0 }),
    ensures
        step@ == explain_description(*stmt, scx.param_types@, *replies),
{
    let desc = make_text_relation(show_stage(stmt.stage));
    match &stmt.explainee {
        Explainee::View(_) => describe(Some(desc)),
        Explainee::Query(query) => match describe_select(scx, query, replies) {
            Step::Done(Ok(of_query)) => Step::Done(
                Ok(Description { desc: Some(desc), param_types: of_query.param_types }),
            ),
            step => step,
        },
    }
}

/// The description of `TAIL`: what it tails.
pub open spec fn tail_description(catalog: CatalogModel, stmt: TailStatement) -> StepView<
    DescriptionView,
> {
    match item_of(catalog, stmt.name) {
        Err(e) => failed(e),
        Ok(name) => match catalog.items[name].desc {
            Err(e) => failed(e@),
            Ok(desc) => described(Some(desc@)),
        },
    }
}

fn describe_tail<C: Catalog>(scx: &StatementContext<C>, stmt: &TailStatement) -> (step: Step<
    Description,
>)
    ensures
        step@ == tail_description(scx.catalog.model(), *stmt),
{
    let name = match scx.resolve_item(stmt.name.clone()) {
        Ok(name) => name,
        Err(e) => {
            return Step::Done(Err(e));
        },
    };
    match &scx.catalog.get_item(&name).desc {
        Ok(desc) => describe(Some(desc.clone())),
        Err(e) => Step::Done(Err(e.clone())),
    }
}

/// Why a statement is refused whatever it says, if it is.
pub open spec fn refusal(stmt: Statement) -> Option<ErrorView> {
    match stmt {
        Statement::Update => Some(invalid("UPDATE statements are not supported"@)),
        Statement::Delete => Some(invalid("DELETE statements are not supported"@)),
        Statement::Copy => Some(invalid("COPY statements are not supported"@)),
        Statement::SetTransaction => Some(
            invalid("SET TRANSACTION statements are not supported"@),
        ),
        _ => None,
    }
}

/// What a statement returns, and the types of its parameters, some of which
/// are given.
pub open spec fn description(
    catalog: CatalogModel,
    stmt: Statement,
    param_types: Map<usize, ScalarType>,
    replies: Replies,
) -> StepView<DescriptionView> {
    match stmt {
        Statement::CreateDatabase(_)
        | Statement::CreateSchema(_)
        | Statement::CreateIndex(_)
        | Statement::CreateSource(_)
        | Statement::CreateTable(_)
        | Statement::CreateSink(_)
        | Statement::CreateView(_)
        | Statement::DropDatabase(_)
        | Statement::DropObjects(_)
        | Statement::SetVariable(_)
        | Statement::StartTransaction
        | Statement::Rollback
        | Statement::Commit
        | Statement::AlterObjectRename(_)
        | Statement::AlterIndexOptions(_) => described(None),
        Statement::Explain(stmt) => explain_description(stmt, param_types, replies),
        Statement::ShowCreateView(_) => described(
            Some(text_pair_relation("View"@, "Create View"@)),
        ),
        Statement::ShowCreateSource(_) => described(
            Some(text_pair_relation("Source"@, "Create Source"@)),
        ),
        Statement::ShowCreateTable(_) => described(
            Some(text_pair_relation("Table"@, "Create Table"@)),
        ),
        Statement::ShowCreateSink(_) => described(
            Some(text_pair_relation("Sink"@, "Create Sink"@)),
        ),
        Statement::ShowCreateIndex(_) => described(
            Some(text_pair_relation("Index"@, "Create Index"@)),
        ),
        Statement::ShowColumns(_) => described(
            Some(text_pair_relation("Field"@, "Nullable"@).with_column("Type"@, text_column())),
        ),
        Statement::ShowIndexes(_) => described(Some(indexes_desc())),
        Statement::ShowDatabases(_) => described(Some(text_relation("database"@))),
        Statement::ShowObjects(stmt) => described(
            Some(show_objects_desc(stmt.object_type, stmt.materialized, stmt.full)),
        ),
        Statement::ShowVariable(stmt) => described(Some(variable_desc(stmt.variable.value@))),
        Statement::Tail(stmt) => tail_description(catalog, stmt),
        Statement::Select(stmt) => select_description(stmt.query.sql@, param_types, replies),
        Statement::Insert(stmt) => insert_description(stmt, param_types, replies),
        Statement::Update
        | Statement::Delete
        | Statement::Copy
        | Statement::SetTransaction => failed(refusal(stmt)->0),
    }
}

/// Tells what a statement returns, and the types of its parameters. Some of
/// the types may be given, each with the outcome of finding out what it stands for.
pub fn describe_statement<C: Catalog>(
    catalog: &C,
    stmt: &Statement,
    param_types_in: &Vec<Option<Result<ScalarType, PlanError>>>,
    replies: &Replies,
) -> (step: Step<Description>)
    ensures
        step@ == match given_types(param_types_in@, param_types_in@.len()) {
            Err(e) => failed(e),
            Ok(param_types) => description(catalog.model(), *stmt, param_types, *replies),
        },
{
    let param_types = match collect_types(param_types_in) {
        Ok(types) => types,
        Err(e) => {
            return Step::Done(Err(e));
        },
    };
    let pcx = PlanContext::default();
    let scx = StatementContext { pcx: &pcx, catalog, param_types };
    match stmt {
        Statement::CreateDatabase(_)
        | Statement::CreateSchema(_)
        | Statement::CreateIndex(_)
        | Statement::CreateSource(_)
        | Statement::CreateTable(_)
        | Statement::CreateSink(_)
        | Statement::CreateView(_)
        | Statement::DropDatabase(_)
        | Statement::DropObjects(_)
        | Statement::SetVariable(_)
        | Statement::StartTransaction
        | Statement::Rollback
        | Statement::Commit
        | Statement::AlterObjectRename(_)
        | Statement::AlterIndexOptions(_) => describe(None),
        Statement::Explain(stmt) => describe_explain(&scx, stmt, replies),
        Statement::ShowCreateView(_) => describe(
            Some(make_text_pair_relation("View", "Create View")),
        ),
        Statement::ShowCreateSource(_) => describe(
            Some(make_text_pair_relation("Source", "Create Source")),
        ),
        Statement::ShowCreateTable(_) => describe(
            Some(make_text_pair_relation("Table", "Create Table")),
        ),
        Statement::ShowCreateSink(_) => describe(
            Some(make_text_pair_relation("Sink", "Create Sink")),
        ),
        Statement::ShowCreateIndex(_) => describe(
            Some(make_text_pair_relation("Index", "Create Index")),
        ),
        Statement::ShowColumns(_) => describe(
            Some(
                make_text_pair_relation("Field", "Nullable").with_column(
                    "Type",
                    ScalarType::String.nullable(false),
                ),
            ),
        ),
        Statement::ShowIndexes(_) => describe(Some(make_indexes_desc())),
        Statement::ShowDatabases(_) => describe(Some(make_text_relation("database"))),
        Statement::ShowObjects(stmt) => describe(
            Some(make_show_objects_desc(stmt.object_type, stmt.materialized, stmt.full)),
        ),
        Statement::ShowVariable(stmt) => describe(
            Some(make_variable_desc(stmt.variable.value.as_str())),
        ),
        Statement::Tail(stmt) => describe_tail(&scx, stmt),
        Statement::Select(stmt) => describe_select(&scx, &stmt.query, replies),
        Statement::Insert(stmt) => describe_insert(&scx, stmt, replies),
        Statement::Update
        | Statement::Delete
        | Statement::Copy
        | Statement::SetTransaction => refuse(stmt),
    }
}

/// Ends with the reason why a statement is refused whatever it says.
pub(crate) fn refuse<T: View>(stmt: &Statement) -> (step: Step<T>)
    requires
        refusal(*stmt) is Some,
    ensures
        step@ == failed::<T::V>(refusal(*stmt)->0),
{
    let text = match stmt {
        Statement::Update => "UPDATE statements are not supported",
        Statement::Delete => "DELETE statements are not supported",
        Statement::Copy => "COPY statements are not supported",
        _ => "SET TRANSACTION statements are not supported",
    };
    Step::Done(Err(PlanError::invalid(text.to_owned())))
}

} // verus!
