//! What holds of planned queries, in terms of the statements that ask for them.
use vstd::prelude::*;
use vstd::string::*;

use crate::ast::{ExplainStatement, Explainee, InsertStatement, SelectStatement, TailStatement};
use crate::catalog::{CatalogItemType, CatalogModel, PlanContext};
use crate::context::item_of;
use crate::engine::{ParamsView, QueryLifetime, QuestionView, Replies, StepView};
use crate::error::ErrorKind;
use crate::plan::{PeekWhen, PlanView};
use crate::query::{explain, generated_select, insert, query_plan, select, tail};
use crate::relation::ScalarType;

verus! {

/// A query is planned as a look at what it stands for, with its own finishing:
/// at the time that its `AS OF` evaluates to, if it has one, and else at once.
pub proof fn queries_are_looks(
    pcx: PlanContext,
    param_types: Map<usize, ScalarType>,
    stmt: SelectStatement,
    params: ParamsView,
    replies: Replies,
)
    ensures
        select(pcx, param_types, stmt.query.sql@, stmt.as_of, params, replies)
            matches StepView::Done(Ok(plan)) ==> {
            &&& plan is Peek
            &&& plan->Peek_materialize
            &&& replies.decorrelated == Some(plan->Peek_source)
            &&& replies.bound matches Some(Ok(_))
            &&& replies.planned matches Some(Ok(planned)) && plan->Peek_finishing
                == planned.finishing
            &&& match plan->Peek_when {
                PeekWhen::Immediately => stmt.as_of is None,
                PeekWhen::AtTimestamp(time) => stmt.as_of is Some && (
                replies.as_of matches Some(Ok(ts)) && ts == time),
            }
        },
        (replies.planned matches Some(Ok(_))) && (replies.bound matches Some(Ok(_)))
            && replies.decorrelated is Some && (stmt.as_of is Some ==> (
        replies.as_of matches Some(Ok(_)))) ==> (select(
            pcx,
            param_types,
            stmt.query.sql@,
            stmt.as_of,
            params,
            replies,
        ) matches StepView::Done(Ok(_))),
{
}

/// What planning a query asks is about that query: first for its plan, which is
/// for one use, then for the parameters to be filled in and for subqueries to be
/// removed, each time of what came before, and last for its `AS OF`.
pub proof fn query_questions_are_about_the_query(
    pcx: PlanContext,
    param_types: Map<usize, ScalarType>,
    stmt: SelectStatement,
    params: ParamsView,
    replies: Replies,
)
    ensures
        select(pcx, param_types, stmt.query.sql@, stmt.as_of, params, replies)
            matches StepView::Ask(question) ==> match question {
            QuestionView::PlanQuery { query, lifetime, pcx: now, param_types: types } => {
                &&& query == stmt.query.sql@
                &&& lifetime == QueryLifetime::OneShot
                &&& now == pcx
                &&& types == param_types
            },
            QuestionView::Bind { expr, params: values } => {
                &&& replies.planned matches Some(Ok(planned)) && expr == planned.expr
                &&& values == params
            },
            QuestionView::Decorrelate { expr } => replies.bound matches Some(Ok(bound)) && expr
                == bound,
            QuestionView::EvalAsOf { expr } => stmt.as_of matches Some(stated) && expr
                == stated.sql@,
            _ => false,
        },
{
}

/// A statement that stands for a query has the text of that query parsed first;
/// what the parser refuses is refused. The query is then planned at once, without
/// parameters.
pub proof fn generated_queries_are_looks(
    pcx: PlanContext,
    param_types: Map<usize, ScalarType>,
    sql: Seq<char>,
    replies: Replies,
)
    ensures
        replies.parsed_select is None ==> generated_select(pcx, param_types, sql, replies)
            == StepView::<PlanView>::Ask(QuestionView::ParseSelect { sql }),
        replies.parsed_select matches Some(Err(e)) ==> generated_select(
            pcx,
            param_types,
            sql,
            replies,
        ) == StepView::<PlanView>::Done(Err(e@)),
        replies.parsed_select matches Some(Ok(query)) ==> match generated_select(
            pcx,
            param_types,
            sql,
            replies,
        ) {
            StepView::Done(Ok(plan)) => {
                &&& plan is Peek
                &&& plan->Peek_materialize
                &&& plan->Peek_when is Immediately
                &&& replies.decorrelated == Some(plan->Peek_source)
                &&& replies.planned matches Some(Ok(planned)) && plan->Peek_finishing
                    == planned.finishing
            },
            StepView::Ask(QuestionView::PlanQuery { query: asked, lifetime, pcx: now, param_types: types }) => {
                &&& asked == query.sql@
                &&& lifetime == QueryLifetime::OneShot
                &&& now == pcx
                &&& types == param_types
            },
            StepView::Ask(QuestionView::Bind { expr, params }) => {
                &&& replies.planned matches Some(Ok(planned)) && expr == planned.expr
                &&& params.datums.len() == 0
                &&& params.types.len() == 0
            },
            StepView::Ask(QuestionView::Decorrelate { expr }) => replies.bound matches Some(
                Ok(bound),
            ) && expr == bound,
            StepView::Ask(_) => false,
            StepView::Done(Err(_)) => (replies.planned matches Some(Err(_))) || (
            replies.bound matches Some(Err(_))),
        },
{
}

/// An explanation is of the query of the statement, or of that of the view that
/// it names, at the stage and with the options that the statement says. A query
/// keeps its finishing, unless that changes nothing; that of a view is made part
/// of it.
pub proof fn explanations_are_as_stated(
    catalog: CatalogModel,
    pcx: PlanContext,
    param_types: Map<usize, ScalarType>,
    stmt: ExplainStatement,
    params: ParamsView,
    replies: Replies,
)
    ensures
        explain(catalog, pcx, param_types, stmt, params, replies) matches StepView::Done(Ok(plan))
            ==> {
            &&& plan is ExplainPlan
            &&& plan->ExplainPlan_stage == stmt.stage
            &&& plan->ExplainPlan_options == stmt.options
            &&& replies.bound matches Some(Ok(bound)) && plan->ExplainPlan_raw_plan == bound
            &&& replies.decorrelated == Some(plan->ExplainPlan_decorrelated_plan)
            &&& replies.planned matches Some(Ok(planned)) && match stmt.explainee {
                Explainee::Query(_) => match plan->ExplainPlan_row_set_finishing {
                    Some(finishing) => finishing == planned.finishing && replies.trivial == Some(
                        false,
                    ),
                    None => replies.trivial == Some(true),
                },
                Explainee::View(name) => {
                    &&& plan->ExplainPlan_row_set_finishing is None
                    &&& replies.finished is Some
                    &&& item_of(catalog, name) matches Ok(full)
                    &&& catalog.items[full].item_type == CatalogItemType::View
                },
            }
        },
{
}

/// What explaining asks is about the query that is explained: for a view the one
/// that its stored statement creates it with, in the circumstances in which it was
/// planned. Parameters are filled in last but for the subqueries to be removed.
pub proof fn explanation_questions_are_about_the_query(
    catalog: CatalogModel,
    pcx: PlanContext,
    param_types: Map<usize, ScalarType>,
    stmt: ExplainStatement,
    params: ParamsView,
    replies: Replies,
)
    ensures
        explain(catalog, pcx, param_types, stmt, params, replies) matches StepView::Ask(question)
            ==> match question {
            QuestionView::ParseView { sql } => {
                &&& stmt.explainee matches Explainee::View(name)
                &&& item_of(catalog, name) matches Ok(full)
                &&& catalog.items[full].item_type == CatalogItemType::View
                &&& sql == catalog.items[full].create_sql@
            },
            QuestionView::PlanQuery { query, lifetime, pcx: now, param_types: types } => {
                &&& lifetime == QueryLifetime::OneShot
                &&& types == param_types
                &&& match stmt.explainee {
                    Explainee::Query(stated) => query == stated.sql@ && now == pcx,
                    Explainee::View(name) => {
                        &&& item_of(catalog, name) matches Ok(full) && now
                            == catalog.items[full].plan_cx
                        &&& replies.parsed_view matches Some(parsed) && query == parsed.sql@
                    },
                }
            },
            QuestionView::Finish { expr, finishing } => {
                &&& stmt.explainee is View
                &&& replies.planned matches Some(Ok(planned)) && expr == planned.expr && finishing
                    == planned.finishing
            },
            QuestionView::IsTrivial { finishing, arity } => {
                &&& stmt.explainee is Query
                &&& replies.planned matches Some(Ok(planned)) && finishing == planned.finishing
                    && arity == planned.desc@.types.len()
            },
            QuestionView::Bind { expr, params: values } => {
                &&& values == params
                &&& match stmt.explainee {
                    Explainee::Query(_) => replies.planned matches Some(Ok(planned)) && expr
                        == planned.expr,
                    Explainee::View(_) => replies.finished == Some(expr),
                }
            },
            QuestionView::Decorrelate { expr } => replies.bound matches Some(Ok(bound)) && expr
                == bound,
            _ => false,
        },
{
}

/// Once everything that planning may ask has a good answer, a query is explained,
/// and so is exactly each item that is found and is a view.
pub proof fn views_and_queries_are_explained(
    catalog: CatalogModel,
    pcx: PlanContext,
    param_types: Map<usize, ScalarType>,
    stmt: ExplainStatement,
    params: ParamsView,
    replies: Replies,
)
    requires
        replies.parsed_view is Some,
        replies.planned matches Some(Ok(_)),
        replies.finished is Some,
        replies.trivial is Some,
        replies.bound matches Some(Ok(_)),
        replies.decorrelated is Some,
    ensures
        match stmt.explainee {
            Explainee::Query(_) => explain(catalog, pcx, param_types, stmt, params, replies)
                matches StepView::Done(Ok(_)),
            Explainee::View(name) => match item_of(catalog, name) {
                Err(e) => explain(catalog, pcx, param_types, stmt, params, replies) == StepView::<
                    PlanView,
                >::Done(Err(e)),
                Ok(full) => if catalog.items[full].item_type == CatalogItemType::View {
                    explain(catalog, pcx, param_types, stmt, params, replies)
                        matches StepView::Done(Ok(_))
                } else {
                    explain(catalog, pcx, param_types, stmt, params, replies)
                        matches StepView::Done(Err(e)) && e.kind == ErrorKind::Invalid
                },
            },
        },
{
}

/// A table, a source or a view that is found is tailed: from the time that the
/// statement's `AS OF` evaluates to, if it has one, and with a snapshot exactly
/// where the statement says so. A sink or an index is refused.
pub proof fn relations_are_tailed(catalog: CatalogModel, stmt: TailStatement, replies: Replies)
    ensures
        match item_of(catalog, stmt.name) {
            Err(e) => tail(catalog, stmt, replies) == StepView::<PlanView>::Done(Err(e)),
            Ok(from) => match tail(catalog, stmt, replies) {
                StepView::Ask(question) => {
                    &&& question is EvalAsOf
                    &&& stmt.as_of matches Some(stated) && question->EvalAsOf_expr == stated.sql@
                    &&& replies.as_of is None
                },
                StepView::Done(Ok(plan)) => {
                    let item = catalog.items[from];
                    &&& plan is Tail
                    &&& plan->Tail_id == item.id
                    &&& plan->Tail_with_snapshot == stmt.with_snapshot
                    &&& match plan->Tail_ts {
                        Some(time) => stmt.as_of is Some && (replies.as_of matches Some(Ok(ts))
                            && ts == time),
                        None => stmt.as_of is None,
                    }
                    &&& item.item_type == CatalogItemType::Table || item.item_type
                        == CatalogItemType::Source || item.item_type == CatalogItemType::View
                },
                StepView::Done(Err(e)) => {
                    let item_type = catalog.items[from].item_type;
                    ||| stmt.as_of is Some && (replies.as_of matches Some(Err(refused)) && e
                        == refused@)
                    ||| e.kind == ErrorKind::Invalid && (item_type == CatalogItemType::Sink
                        || item_type == CatalogItemType::Index)
                },
            },
        },
{
}

/// An insertion is planned as the statement says it, with the parameters filled
/// in and subqueries removed, into the table that was found for it.
pub proof fn insertions_are_as_stated(
    pcx: PlanContext,
    param_types: Map<usize, ScalarType>,
    stmt: InsertStatement,
    params: ParamsView,
    replies: Replies,
)
    ensures
        match insert(pcx, param_types, stmt, params, replies) {
            StepView::Done(Ok(plan)) => {
                &&& plan is Insert
                &&& replies.inserted matches Some(Ok(inserted)) && plan->Insert_id == inserted.id
                &&& replies.decorrelated == Some(plan->Insert_values)
                &&& replies.bound matches Some(Ok(_))
            },
            StepView::Done(Err(e)) => {
                ||| replies.inserted matches Some(Err(refused)) && e == refused@
                ||| replies.bound matches Some(Err(refused)) && e == refused@
            },
            StepView::Ask(question) => match question {
                QuestionView::PlanInsert { table_name, columns, source, pcx: now, param_types: types } => {
                    &&& table_name == stmt.table_name.0@
                    &&& columns == stmt.columns@
                    &&& source == stmt.source@
                    &&& now == pcx
                    &&& types == param_types
                },
                QuestionView::Bind { expr, params: values } => {
                    &&& replies.inserted matches Some(Ok(inserted)) && expr == inserted.expr
                    &&& values == params
                },
                QuestionView::Decorrelate { expr } => replies.bound matches Some(Ok(bound))
                    && expr == bound,
                _ => false,
            },
        },
{
}

/// A planned query comes with the shape and the finishing that were found for it.
pub proof fn planned_queries_keep_their_shapes(
    pcx: PlanContext,
    param_types: Map<usize, ScalarType>,
    query: Seq<char>,
    params: ParamsView,
    lifetime: QueryLifetime,
    replies: Replies,
)
    ensures
        match query_plan(pcx, param_types, query, params, lifetime, replies) {
            Ok((expr, desc, finishing)) => {
                &&& replies.decorrelated == Some(expr)
                &&& replies.planned matches Some(Ok(planned)) && desc == planned.desc@ && finishing
                    == planned.finishing
            },
            Err(StepView::Ask(QuestionView::PlanQuery { query: asked, lifetime: l, pcx: now, param_types: types })) => {
                &&& asked == query
                &&& l == lifetime
                &&& now == pcx
                &&& types == param_types
            },
            Err(_) => true,
        },
{
}

} // verus!
