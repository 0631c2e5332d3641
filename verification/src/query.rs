//! Planning of statements that query or insert: `SELECT`, `EXPLAIN`, `TAIL`, `INSERT`.
use std::collections::BTreeMap;

use vstd::prelude::*;
use vstd::string::*;

use crate::ast::{
    ExplainStatement, Explainee, Expr, InsertStatement, Query, SelectStatement, TailStatement,
};
use crate::catalog::{item_type_text, Catalog, CatalogItemType, CatalogModel, PlanContext};
use crate::context::{item_of, StatementContext};
use crate::engine::{
    failed, HirExpr, Params, ParamsView, PlannedQuery, Question, QuestionView, QueryLifetime,
    RelationExpr, Replies, RowSetFinishing, Step, StepView,
};
use crate::error::{invalid, PlanError};
use crate::names::clone_idents;
use crate::plan::{PeekWhen, Plan, PlanView};
use crate::relation::{RelationDesc, RelationView, ScalarType};

verus! {

// Steps that several statements share.

/// The plan of a query.
pub open spec fn planned<P>(
    query: Seq<char>,
    lifetime: QueryLifetime,
    pcx: PlanContext,
    param_types: Map<usize, ScalarType>,
    replies: Replies,
) -> Result<PlannedQuery, StepView<P>> {
    match replies.planned {
        None => Err(
            StepView::Ask(QuestionView::PlanQuery { query, lifetime, pcx, param_types }),
        ),
        Some(Err(e)) => Err(failed(e@)),
        Some(Ok(planned)) => Ok(planned),
    }
}

/// The plan of a query.
pub(crate) fn plan_root_query<'a, P: View>(
    query: &Query,
    lifetime: QueryLifetime,
    pcx: &PlanContext,
    param_types: &BTreeMap<usize, ScalarType>,
    replies: &'a Replies,
) -> (r: Result<&'a PlannedQuery, Step<P>>)
    ensures
        match r {
            Ok(p) => planned::<P::V>(query.sql@, lifetime, *pcx, param_types@, *replies) == Ok::<
                PlannedQuery,
                StepView<P::V>,
            >(*p),
            Err(step) => planned::<P::V>(query.sql@, lifetime, *pcx, param_types@, *replies)
                == Err::<PlannedQuery, StepView<P::V>>(step@),
        },
{
    match &replies.planned {
        None => Err(
            Step::Ask(
                Question::PlanQuery {
                    query: query.clone(),
                    lifetime,
                    pcx: *pcx,
                    param_types: param_types.clone(),
                },
            ),
        ),
        Some(Err(e)) => Err(Step::Done(Err(e.clone()))),
        Some(Ok(planned)) => Ok(planned),
    }
}

/// An expression with the parameters filled in.
pub open spec fn bound(expr: HirExpr, params: ParamsView, replies: Replies) -> Result<
    HirExpr,
    StepView<PlanView>,
> {
    match replies.bound {
        None => Err(StepView::Ask(QuestionView::Bind { expr, params })),
        Some(Err(e)) => Err(failed(e@)),
        Some(Ok(expr)) => Ok(expr),
    }
}

/// An expression with the parameters filled in.
pub(crate) fn bind_parameters(expr: HirExpr, params: &Params, replies: &Replies) -> (r: Result<
    HirExpr,
    Step<Plan>,
>)
    ensures
        match r {
            Ok(e) => bound(expr, params@, *replies) == Ok::<HirExpr, StepView<PlanView>>(e),
            Err(step) => bound(expr, params@, *replies) == Err::<HirExpr, StepView<PlanView>>(
                step@,
            ),
        },
{
    match &replies.bound {
        None => Err(Step::Ask(Question::Bind { expr, params: params.clone() })),
        Some(Err(e)) => Err(Step::Done(Err(e.clone()))),
        Some(Ok(expr)) => Ok(*expr),
    }
}

/// An expression with its finishing made part of it.
pub open spec fn finished(expr: HirExpr, finishing: RowSetFinishing, replies: Replies) -> Result<
    HirExpr,
    StepView<PlanView>,
> {
    match replies.finished {
        None => Err(StepView::Ask(QuestionView::Finish { expr, finishing })),
        Some(expr) => Ok(expr),
    }
}

/// An expression with its finishing made part of it.
pub(crate) fn finish(expr: HirExpr, finishing: RowSetFinishing, replies: &Replies) -> (r: Result<
    HirExpr,
    Step<Plan>,
>)
    ensures
        match r {
            Ok(e) => finished(expr, finishing, *replies) == Ok::<HirExpr, StepView<PlanView>>(e),
            Err(step) => finished(expr, finishing, *replies) == Err::<HirExpr, StepView<PlanView>>(
                step@,
            ),
        },
{
    match replies.finished {
        None => Err(Step::Ask(Question::Finish { expr, finishing })),
        Some(expr) => Ok(expr),
    }
}

/// An expression without subqueries that means the same.
pub open spec fn decorrelated(expr: HirExpr, replies: Replies) -> Result<
    RelationExpr,
    StepView<PlanView>,
> {
    match replies.decorrelated {
        None => Err(StepView::Ask(QuestionView::Decorrelate { expr })),
        Some(expr) => Ok(expr),
    }
}

/// An expression without subqueries that means the same.
pub(crate) fn decorrelate(expr: HirExpr, replies: &Replies) -> (r: Result<RelationExpr, Step<Plan>>)
    ensures
        match r {
            Ok(e) => decorrelated(expr, *replies) == Ok::<RelationExpr, StepView<PlanView>>(e),
            Err(step) => decorrelated(expr, *replies) == Err::<RelationExpr, StepView<PlanView>>(
                step@,
            ),
        },
{
    match replies.decorrelated {
        None => Err(Step::Ask(Question::Decorrelate { expr })),
        Some(expr) => Ok(expr),
    }
}

/// The timestamp that `AS OF` stands for, where the statement has it.
pub open spec fn as_of_time(as_of: Option<Expr>, replies: Replies) -> Result<
    Option<u64>,
    StepView<PlanView>,
> {
    match as_of {
        None => Ok(None),
        Some(expr) => match replies.as_of {
            None => Err(StepView::Ask(QuestionView::EvalAsOf { expr: expr.sql@ })),
            Some(Err(e)) => Err(failed(e@)),
            Some(Ok(ts)) => Ok(Some(ts)),
        },
    }
}

/// The timestamp that `AS OF` stands for, where the statement has it.
pub(crate) fn eval_as_of(as_of: &Option<Expr>, replies: &Replies) -> (r: Result<
    Option<u64>,
    Step<Plan>,
>)
    ensures
        match r {
            Ok(ts) => as_of_time(*as_of, *replies) == Ok::<Option<u64>, StepView<PlanView>>(ts),
            Err(step) => as_of_time(*as_of, *replies) == Err::<Option<u64>, StepView<PlanView>>(
                step@,
            ),
        },
{
    match as_of {
        None => Ok(None),
        Some(expr) => match &replies.as_of {
            None => Err(Step::Ask(Question::EvalAsOf { expr: expr.clone() })),
            Some(Err(e)) => Err(Step::Done(Err(e.clone()))),
            Some(Ok(ts)) => Ok(Some(*ts)),
        },
    }
}

// `SELECT`.

/// A query, planned and without subqueries.
pub open spec fn query_plan(
    pcx: PlanContext,
    param_types: Map<usize, ScalarType>,
    query: Seq<char>,
    params: ParamsView,
    lifetime: QueryLifetime,
    replies: Replies,
) -> Result<(RelationExpr, RelationView, RowSetFinishing), StepView<PlanView>> {
    match planned(query, lifetime, pcx, param_types, replies) {
        Err(step) => Err(step),
        Ok(planned) => match bound(planned.expr, params, replies) {
            Err(step) => Err(step),
            Ok(expr) => match decorrelated(expr, replies) {
                Err(step) => Err(step),
                Ok(expr) => Ok((expr, planned.desc@, planned.finishing)),
            },
        },
    }
}

/// Plans a query and takes the subqueries out of it.
pub fn handle_query<C: Catalog>(
    scx: &StatementContext<C>,
    query: &Query,
    params: &Params,
    lifetime: QueryLifetime,
    replies: &Replies,
) -> (r: Result<(RelationExpr, RelationDesc, RowSetFinishing), Step<Plan>>)
    ensures
        match r {
            Ok(p) => query_plan(
                *scx.pcx,
                scx.param_types@,
                query.sql@,
                params@,
                lifetime,
                *replies,
            ) == Ok::<(RelationExpr, RelationView, RowSetFinishing), StepView<PlanView>>(
                (p.0, p.1@, p.2),
            ),
            Err(step) => query_plan(
                *scx.pcx,
                scx.param_types@,
                query.sql@,
                params@,
                lifetime,
                *replies,
            ) == Err::<(RelationExpr, RelationView, RowSetFinishing), StepView<PlanView>>(step@),
        },
{
    let planned = match plan_root_query::<Plan>(query, lifetime, scx.pcx, &scx.param_types, replies) {
        Ok(planned) => planned,
        Err(step) => {
            return Err(step);
        },
    };
    let expr = match bind_parameters(planned.expr, params, replies) {
        Ok(expr) => expr,
        Err(step) => {
            return Err(step);
        },
    };
    match decorrelate(expr, replies) {
        Ok(expr) => Ok((expr, planned.desc.clone(), planned.finishing)),
        Err(step) => Err(step),
    }
}

/// The plan for `SELECT`.
pub open spec fn select(
    pcx: PlanContext,
    param_types: Map<usize, ScalarType>,
    query: Seq<char>,
    as_of: Option<Expr>,
    params: ParamsView,
    replies: Replies,
) -> StepView<PlanView> {
    match query_plan(pcx, param_types, query, params, QueryLifetime::OneShot, replies) {
        Err(step) => step,
        Ok((source, _, finishing)) => match as_of_time(as_of, replies) {
            Err(step) => step,
            Ok(ts) => StepView::Done(
                Ok(
                    PlanView::Peek {
                        source,
                        when: match ts {
                            Some(ts) => PeekWhen::AtTimestamp(ts),
                            None => PeekWhen::Immediately,
                        },
                        finishing,
                        materialize: true,
                    },
                ),
            ),
        },
    }
}

/// Plans `SELECT`.
pub fn handle_select<C: Catalog>(
    scx: &StatementContext<C>,
    stmt: &SelectStatement,
    params: &Params,
    replies: &Replies,
) -> (step: Step<Plan>)
    ensures
        step@ == select(
            *scx.pcx,
            scx.param_types@,
            stmt.query.sql@,
            stmt.as_of,
            params@,
            *replies,
        ),
{
    let (source, _, finishing) = match handle_query(
        scx,
        &stmt.query,
        params,
        QueryLifetime::OneShot,
        replies,
    ) {
        Ok(planned) => planned,
        Err(step) => {
            return step;
        },
    };
    let when = match eval_as_of(&stmt.as_of, replies) {
        Ok(Some(ts)) => PeekWhen::AtTimestamp(ts),
        Ok(None) => PeekWhen::Immediately,
        Err(step) => {
            return step;
        },
    };
    Step::Done(Ok(Plan::Peek { source, when, finishing, materialize: true }))
}

/// The plan for a `SELECT` that stands for another statement: it is that of
/// the text, as of now and without parameters.
pub open spec fn generated_select(
    pcx: PlanContext,
    param_types: Map<usize, ScalarType>,
    sql: Seq<char>,
    replies: Replies,
) -> StepView<PlanView> {
    match replies.parsed_select {
        None => StepView::Ask(QuestionView::ParseSelect { sql }),
        Some(Err(e)) => failed(e@),
        Some(Ok(query)) => select(
            pcx,
            param_types,
            query.sql@,
            None,
            ParamsView::empty(),
            replies,
        ),
    }
}

/// Plans a `SELECT` that stands for another statement.
pub fn handle_generated_select<C: Catalog>(
    scx: &StatementContext<C>,
    sql: String,
    replies: &Replies,
) -> (step: Step<Plan>)
    ensures
        step@ == generated_select(*scx.pcx, scx.param_types@, sql@, *replies),
{
    match &replies.parsed_select {
        None => Step::Ask(Question::ParseSelect { sql }),
        Some(Err(e)) => Step::Done(Err(e.clone())),
        Some(Ok(query)) => handle_select(
            scx,
            &SelectStatement { query: query.clone(), as_of: None },
            &Params::empty(),
            replies,
        ),
    }
}

// `EXPLAIN`.

/// The query to explain, and the circumstances to plan it in: for a view those
/// in which it was created.
pub open spec fn explained_query(
    catalog: CatalogModel,
    pcx: PlanContext,
    explainee: Explainee,
    replies: Replies,
) -> Result<(PlanContext, Seq<char>), StepView<PlanView>> {
    match explainee {
        Explainee::Query(query) => Ok((pcx, query.sql@)),
        Explainee::View(name) => match item_of(catalog, name) {
            Err(e) => Err(failed(e)),
            Ok(full_name) => {
                let entry = catalog.items[full_name];
                if entry.item_type != CatalogItemType::View {
                    Err(
                        failed(
                            invalid(
                                "Expected "@ + name.sql() + " to be a view, not a "@
                                    + item_type_text(entry.item_type),
                            ),
                        ),
                    )
                } else {
                    match replies.parsed_view {
                        None => Err(
                            StepView::Ask(QuestionView::ParseView { sql: entry.create_sql@ }),
                        ),
                        Some(query) => Ok((entry.plan_cx, query.sql@)),
                    }
                }
            },
        },
    }
}

fn find_explained_query<C: Catalog>(
    scx: &StatementContext<C>,
    explainee: &Explainee,
    replies: &Replies,
) -> (r: Result<(PlanContext, Query), Step<Plan>>)
    ensures
        match r {
            Ok(found) => explained_query(scx.catalog.model(), *scx.pcx, *explainee, *replies)
                == Ok::<(PlanContext, Seq<char>), StepView<PlanView>>((found.0, found.1.sql@)),
            Err(step) => explained_query(scx.catalog.model(), *scx.pcx, *explainee, *replies)
                == Err::<(PlanContext, Seq<char>), StepView<PlanView>>(step@),
        },
{
    match explainee {
        Explainee::Query(query) => Ok((*scx.pcx, query.clone())),
        Explainee::View(name) => {
            let full_name = match scx.resolve_item(name.clone()) {
                Ok(full_name) => full_name,
                Err(e) => {
                    return Err(Step::Done(Err(e)));
                },
            };
            let entry = scx.catalog.get_item(&full_name);
            if entry.item_type != CatalogItemType::View {
                return Err(
                    Step::Done(
                        Err(
                            PlanError::invalid(
                                "Expected ".to_owned().concat(name.to_sql().as_str()).concat(
                                    " to be a view, not a ",
                                ).concat(entry.item_type.to_text()),
                            ),
                        ),
                    ),
                );
            }
            match &replies.parsed_view {
                None => Err(Step::Ask(Question::ParseView { sql: entry.create_sql.clone() })),
                Some(query) => Ok((entry.plan_cx, query.clone())),
            }
        },
    }
}

/// The expression to explain, and its finishing where that is apart from it
/// and does something. A view has its finishing made part of it.
pub open spec fn explained_expr(is_view: bool, planned: PlannedQuery, replies: Replies) -> Result<
    (HirExpr, Option<RowSetFinishing>),
    StepView<PlanView>,
> {
    if is_view {
        match finished(planned.expr, planned.finishing, replies) {
            Err(step) => Err(step),
            Ok(expr) => Ok((expr, None)),
        }
    } else {
        match replies.trivial {
            None => Err(
                StepView::Ask(
                    QuestionView::IsTrivial {
                        finishing: planned.finishing,
                        arity: planned.desc@.types.len(),
                    },
                ),
            ),
            Some(trivial) => Ok(
                (
                    planned.expr,
                    if trivial {
                        None
                    } else {
                        Some(planned.finishing)
                    },
                ),
            ),
        }
    }
}

/// The plan for `EXPLAIN`.
pub open spec fn explain(
    catalog: CatalogModel,
    pcx: PlanContext,
    param_types: Map<usize, ScalarType>,
    stmt: ExplainStatement,
    params: ParamsView,
    replies: Replies,
) -> StepView<PlanView> {
    match explained_query(catalog, pcx, stmt.explainee, replies) {
        Err(step) => step,
        Ok((pcx, query)) => match planned(
            query,
            QueryLifetime::OneShot,
            pcx,
            param_types,
            replies,
        ) {
            Err(step) => step,
            Ok(planned) => match explained_expr(stmt.explainee is View, planned, replies) {
                Err(step) => step,
                Ok((expr, row_set_finishing)) => match bound(expr, params, replies) {
                    Err(step) => step,
                    Ok(raw_plan) => match decorrelated(raw_plan, replies) {
                        Err(step) => step,
                        Ok(decorrelated_plan) => StepView::Done(
                            Ok(
                                PlanView::ExplainPlan {
                                    raw_plan,
                                    decorrelated_plan,
                                    row_set_finishing,
                                    stage: stmt.stage,
                                    options: stmt.options,
                                },
                            ),
                        ),
                    },
                },
            },
        },
    }
}

/// Plans `EXPLAIN`.
pub fn handle_explain<C: Catalog>(
    scx: &StatementContext<C>,
    stmt: &ExplainStatement,
    params: &Params,
    replies: &Replies,
) -> (step: Step<Plan>)
    ensures
        step@ == explain(
            scx.catalog.model(),
            *scx.pcx,
            scx.param_types@,
            *stmt,
            params@,
            *replies,
        ),
{
    let is_view = matches!(stmt.explainee, Explainee::View(_));
    let (pcx, query) = match find_explained_query(scx, &stmt.explainee, replies) {
        Ok(found) => found,
        Err(step) => {
            return step;
        },
    };
    let planned = match plan_root_query::<Plan>(
        &query,
        QueryLifetime::OneShot,
        &pcx,
        &scx.param_types,
        replies,
    ) {
        Ok(planned) => planned,
        Err(step) => {
            return step;
        },
    };
    let (expr, row_set_finishing) = if is_view {
        match finish(planned.expr, planned.finishing, replies) {
            Ok(expr) => (expr, None),
            Err(step) => {
                return step;
            },
        }
    } else {
        match replies.trivial {
            None => {
                return Step::Ask(
                    Question::IsTrivial {
                        finishing: planned.finishing,
                        arity: planned.desc.arity(),
                    },
                );
            },
            Some(true) => (planned.expr, None),
            Some(false) => (planned.expr, Some(planned.finishing)),
        }
    };
    let raw_plan = match bind_parameters(expr, params, replies) {
        Ok(expr) => expr,
        Err(step) => {
            return step;
        },
    };
    let decorrelated_plan = match decorrelate(raw_plan, replies) {
        Ok(expr) => expr,
        Err(step) => {
            return step;
        },
    };
    Step::Done(
        Ok(
            Plan::ExplainPlan {
                raw_plan,
                decorrelated_plan,
                row_set_finishing,
                stage: stmt.stage,
                options: stmt.options,
            },
        ),
    )
}

// `TAIL`.

/// The plan for `TAIL`.
pub open spec fn tail(catalog: CatalogModel, stmt: TailStatement, replies: Replies) -> StepView<
    PlanView,
> {
    match item_of(catalog, stmt.name) {
        Err(e) => failed(e),
        Ok(from) => {
            let entry = catalog.items[from];
            match as_of_time(stmt.as_of, replies) {
                Err(step) => step,
                Ok(ts) => match entry.item_type {
                    CatalogItemType::Table | CatalogItemType::Source | CatalogItemType::View =>
                        StepView::Done(
                        Ok(PlanView::Tail { id: entry.id, ts, with_snapshot: stmt.with_snapshot }),
                    ),
                    CatalogItemType::Index | CatalogItemType::Sink => failed(
                        invalid(
                            "'"@ + from.shown() + "' cannot be tailed because it is a "@
                                + item_type_text(entry.item_type),
                        ),
                    ),
                },
            }
        },
    }
}

/// Plans `TAIL`.
pub fn handle_tail<C: Catalog>(
    scx: &StatementContext<C>,
    stmt: &TailStatement,
    replies: &Replies,
) -> (step: Step<Plan>)
    ensures
        step@ == tail(scx.catalog.model(), *stmt, *replies),
{
    let from = match scx.resolve_item(stmt.name.clone()) {
        Ok(from) => from,
        Err(e) => {
            return Step::Done(Err(e));
        },
    };
    let entry = scx.catalog.get_item(&from);
    let ts = match eval_as_of(&stmt.as_of, replies) {
        Ok(ts) => ts,
        Err(step) => {
            return step;
        },
    };
    match entry.item_type {
        CatalogItemType::Table | CatalogItemType::Source | CatalogItemType::View => Step::Done(
            Ok(Plan::Tail { id: entry.id, ts, with_snapshot: stmt.with_snapshot }),
        ),
        CatalogItemType::Index | CatalogItemType::Sink => Step::Done(
            Err(
                PlanError::invalid(
                    "'".to_owned().concat(from.to_text().as_str()).concat(
                        "' cannot be tailed because it is a ",
                    ).concat(entry.item_type.to_text()),
                ),
            ),
        ),
    }
}

// `INSERT`.

/// The question for the plan of an insertion.
pub open spec fn insertion(
    pcx: PlanContext,
    param_types: Map<usize, ScalarType>,
    stmt: InsertStatement,
) -> QuestionView {
    QuestionView::PlanInsert {
        table_name: stmt.table_name.0@,
        columns: stmt.columns@,
        source: stmt.source@,
        pcx,
        param_types,
    }
}

pub(crate) fn ask_insertion(
    pcx: &PlanContext,
    param_types: &BTreeMap<usize, ScalarType>,
    stmt: &InsertStatement,
) -> (question: Question)
    ensures
        question@ == insertion(*pcx, param_types@, *stmt),
{
    Question::PlanInsert {
        table_name: stmt.table_name.clone(),
        columns: clone_idents(&stmt.columns),
        source: stmt.source.clone(),
        pcx: *pcx,
        param_types: param_types.clone(),
    }
}

/// The plan for `INSERT`.
pub open spec fn insert(
    pcx: PlanContext,
    param_types: Map<usize, ScalarType>,
    stmt: InsertStatement,
    params: ParamsView,
    replies: Replies,
) -> StepView<PlanView> {
    match replies.inserted {
        None => StepView::Ask(insertion(pcx, param_types, stmt)),
        Some(Err(e)) => failed(e@),
        Some(Ok(inserted)) => match bound(inserted.expr, params, replies) {
            Err(step) => step,
            Ok(expr) => match decorrelated(expr, replies) {
                Err(step) => step,
                Ok(values) => StepView::Done(Ok(PlanView::Insert { id: inserted.id, values })),
            },
        },
    }
}

/// Plans `INSERT`.
pub fn handle_insert<C: Catalog>(
    scx: &StatementContext<C>,
    stmt: &InsertStatement,
    params: &Params,
    replies: &Replies,
) -> (step: Step<Plan>)
    ensures
        step@ == insert(*scx.pcx, scx.param_types@, *stmt, params@, *replies),
{
    let inserted = match &replies.inserted {
        None => {
            return Step::Ask(ask_insertion(scx.pcx, &scx.param_types, stmt));
        },
        Some(Err(e)) => {
            return Step::Done(Err(e.clone()));
        },
        Some(Ok(inserted)) => inserted,
    };
    let expr = match bind_parameters(inserted.expr, params, replies) {
        Ok(expr) => expr,
        Err(step) => {
            return step;
        },
    };
    match decorrelate(expr, replies) {
        Ok(values) => Step::Done(Ok(Plan::Insert { id: inserted.id, values })),
        Err(step) => step,
    }
}

} // verus!
