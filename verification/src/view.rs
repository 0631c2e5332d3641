//! Planning of `CREATE VIEW`.
use vstd::prelude::*;
use vstd::string::*;

use crate::ast::{CreateViewStatement, IfExistsBehavior, ObjectType};
use crate::catalog::{Catalog, CatalogModel, GlobalId, PlanContext};
use crate::columns::{maybe_rename_columns, renamed};
use crate::context::{allocated_name, temporary_name, StatementContext};
use crate::drop::{drop_item, handle_drop_item};
use crate::engine::{
    failed, Params, ParamsView, Question, QuestionView, QueryLifetime, RelationExpr, Replies, Step,
    StepView,
};
use crate::error::{unsupported, ErrorView, PlanError};
use crate::names::{FullName, FullNameView};
use crate::normalize::{item_name, object_name};
use crate::plan::{Plan, PlanView, PlannedView};
use crate::query::{
    bind_parameters, bound, decorrelate, decorrelated, finish, finished, plan_root_query, planned,
};
use crate::relation::{RelationDesc, RelationView, ScalarType};

verus! {

/// The full name for a new view.
pub open spec fn view_name(catalog: CatalogModel, stmt: CreateViewStatement) -> Result<
    FullNameView,
    ErrorView,
> {
    match item_name(stmt.name) {
        Ok(name) => Ok(
            if stmt.temporary {
                temporary_name(name)
            } else {
                allocated_name(catalog, name)
            },
        ),
        Err(e) => Err(e),
    }
}

/// Whether a view of this name is to be replaced.
pub open spec fn replaces(
    catalog: CatalogModel,
    stmt: CreateViewStatement,
    name: FullNameView,
) -> bool {
    stmt.if_exists == IfExistsBehavior::Replace && (catalog.names)(name.partial()) is Ok
}

/// Whether a view to replace is found under its own name, once it is looked
/// for: the stored form of the statement is there, and there are no options.
pub open spec fn replaced_is_there(
    catalog: CatalogModel,
    stmt: CreateViewStatement,
    replies: Replies,
) -> bool {
    (replies.create_sql matches Some(Ok(_))) && stmt.with_options@.len() == 0 ==> (view_name(
        catalog,
        stmt,
    ) matches Ok(name) ==> replaces(catalog, stmt, name) ==> catalog.items.contains_key(name))
}

/// The view to replace, if there is one.
pub open spec fn replaced(
    catalog: CatalogModel,
    stmt: CreateViewStatement,
    name: FullNameView,
) -> Result<Option<GlobalId>, ErrorView> {
    if replaces(catalog, stmt, name) {
        match drop_item(catalog, ObjectType::View, name, false) {
            Ok(id) => Ok(Some(id)),
            Err(e) => Err(e),
        }
    } else {
        Ok(None)
    }
}

/// The expression of a view, with its finishing made part of it, and its shape.
pub open spec fn view_expr(
    pcx: PlanContext,
    param_types: Map<usize, ScalarType>,
    query: Seq<char>,
    params: ParamsView,
    replies: Replies,
) -> Result<(RelationExpr, RelationView), StepView<PlanView>> {
    match planned(query, QueryLifetime::Static, pcx, param_types, replies) {
        Err(step) => Err(step),
        Ok(planned) => match bound(planned.expr, params, replies) {
            Err(step) => Err(step),
            Ok(expr) => match finished(expr, planned.finishing, replies) {
                Err(step) => Err(step),
                Ok(expr) => match decorrelated(expr, replies) {
                    Err(step) => Err(step),
                    Ok(expr) => Ok((expr, planned.desc@)),
                },
            },
        },
    }
}

fn plan_view_expr<C: Catalog>(
    scx: &StatementContext<C>,
    stmt: &CreateViewStatement,
    params: &Params,
    replies: &Replies,
) -> (r: Result<(RelationExpr, RelationDesc), Step<Plan>>)
    ensures
        match r {
            Ok(p) => view_expr(*scx.pcx, scx.param_types@, stmt.query.sql@, params@, *replies)
                == Ok::<(RelationExpr, RelationView), StepView<PlanView>>((p.0, p.1@)),
            Err(step) => view_expr(*scx.pcx, scx.param_types@, stmt.query.sql@, params@, *replies)
                == Err::<(RelationExpr, RelationView), StepView<PlanView>>(step@),
        },
{
    let planned = match plan_root_query::<Plan>(
        &stmt.query,
        QueryLifetime::Static,
        scx.pcx,
        &scx.param_types,
        replies,
    ) {
        Ok(planned) => planned,
        Err(step) => {
            return Err(step);
        },
    };
    let expr = match bind_parameters(planned.expr, params, replies) {
        Ok(expr) => expr,
        Err(step) => {
            return Err(step);
        },
    };
    let expr = match finish(expr, planned.finishing, replies) {
        Ok(expr) => expr,
        Err(step) => {
            return Err(step);
        },
    };
    match decorrelate(expr, replies) {
        Ok(expr) => Ok((expr, planned.desc.clone())),
        Err(step) => Err(step),
    }
}

/// The plan for `CREATE VIEW`.
pub open spec fn create_view(
    catalog: CatalogModel,
    pcx: PlanContext,
    param_types: Map<usize, ScalarType>,
    stmt: CreateViewStatement,
    params: ParamsView,
    replies: Replies,
) -> StepView<PlanView> {
    match replies.create_sql {
        None => StepView::Ask(QuestionView::CreateSql),
        Some(Err(e)) => failed(e@),
        Some(Ok(create_sql)) => if stmt.with_options@.len() > 0 {
            failed(unsupported("WITH options"@))
        } else {
            match view_name(catalog, stmt) {
                Err(e) => failed(e),
                Ok(name) => match replaced(catalog, stmt, name) {
                    Err(e) => failed(e),
                    Ok(replace) => match view_expr(
                        pcx,
                        param_types,
                        stmt.query.sql@,
                        params,
                        replies,
                    ) {
                        Err(step) => step,
                        Ok((expr, desc)) => match renamed(
                            "view "@ + name.shown(),
                            desc,
                            stmt.columns@,
                        ) {
                            Err(e) => failed(e),
                            Ok(desc) => StepView::Done(
                                Ok(
                                    PlanView::CreateView {
                                        name,
                                        create_sql: create_sql@,
                                        expr,
                                        column_names: desc.names,
                                        temporary: stmt.temporary,
                                        replace,
                                        materialize: stmt.materialized,
                                        if_not_exists: stmt.if_exists == IfExistsBehavior::Skip,
                                    },
                                ),
                            ),
                        },
                    },
                },
            }
        },
    }
}

/// Plans `CREATE VIEW`.
pub fn handle_create_view<C: Catalog>(
    scx: &StatementContext<C>,
    stmt: &CreateViewStatement,
    params: &Params,
    replies: &Replies,
) -> (step: Step<Plan>)
    requires
        replaced_is_there(scx.catalog.model(), *stmt, *replies),
    ensures
        step@ == create_view(
            scx.catalog.model(),
            *scx.pcx,
            scx.param_types@,
            *stmt,
            params@,
            *replies,
        ),
{
    let create_sql = match &replies.create_sql {
        None => {
            return Step::Ask(Question::CreateSql);
        },
        Some(Err(e)) => {
            return Step::Done(Err(e.clone()));
        },
        Some(Ok(sql)) => sql.clone(),
    };
    if stmt.with_options.len() > 0 {
        return Step::Done(Err(PlanError::unsupported("WITH options")));
    }
    let name: FullName = match object_name(stmt.name.clone()) {
        Ok(name) => if stmt.temporary {
            scx.allocate_temporary_name(name)
        } else {
            scx.allocate_name(name)
        },
        Err(e) => {
            return Step::Done(Err(e));
        },
    };
    let replace = if stmt.if_exists == IfExistsBehavior::Replace && scx.catalog.resolve_item(
        &name.to_partial(),
    ).is_ok() {
        let cascade = false;
        match handle_drop_item(scx, ObjectType::View, &name, cascade) {
            Ok(id) => id,
            Err(e) => {
                return Step::Done(Err(e));
            },
        }
    } else {
        None
    };
    let (expr, desc) = match plan_view_expr(scx, stmt, params, replies) {
        Ok(planned) => planned,
        Err(step) => {
            return step;
        },
    };
    let context = "view ".to_owned().concat(name.to_text().as_str());
    let desc = match maybe_rename_columns(context.as_str(), desc, &stmt.columns) {
        Ok(desc) => desc,
        Err(e) => {
            return Step::Done(Err(e));
        },
    };
    Step::Done(
        Ok(
            Plan::CreateView {
                name,
                view: PlannedView {
                    create_sql,
                    expr,
                    column_names: desc.column_names(),
                    temporary: stmt.temporary,
                },
                replace,
                materialize: stmt.materialized,
                if_not_exists: stmt.if_exists == IfExistsBehavior::Skip,
            },
        ),
    )
}

} // verus!
