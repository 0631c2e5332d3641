//! Planning of `CREATE DATABASE` and `CREATE SCHEMA`.
use vstd::prelude::*;
use vstd::string::*;

use crate::ast::{CreateDatabaseStatement, CreateSchemaStatement};
use crate::catalog::{Catalog, CatalogModel};
use crate::context::StatementContext;
use crate::error::{invalid, viewed, ErrorView, PlanError};
use crate::names::DatabaseSpecifier;
use crate::normalize::ident;
use crate::plan::{Plan, PlanView};

verus! {

/// Plans `CREATE DATABASE`.
pub fn handle_create_database(stmt: &CreateDatabaseStatement) -> (r: Result<Plan, PlanError>)
    ensures
        viewed(r) == Ok::<PlanView, ErrorView>(
            PlanView::CreateDatabase {
                name: stmt.name.value@,
                if_not_exists: stmt.if_not_exists,
            },
        ),
{
    Ok(
        Plan::CreateDatabase {
            name: ident(stmt.name.clone()),
            if_not_exists: stmt.if_not_exists,
        },
    )
}

/// The plan for `CREATE SCHEMA`: by default in the default database.
pub open spec fn create_schema(catalog: CatalogModel, stmt: CreateSchemaStatement) -> Result<
    PlanView,
    ErrorView,
> {
    let parts = stmt.name.parts();
    if parts.len() > 2 {
        Err(
            invalid("schema name "@ + stmt.name.sql() + " has more than two components"@),
        )
    } else {
        Ok(
            PlanView::CreateSchema {
                database_name: Some(
                    if parts.len() == 2 {
                        parts[0]
                    } else {
                        catalog.default_database
                    },
                ),
                schema_name: parts.last(),
                if_not_exists: stmt.if_not_exists,
            },
        )
    }
}

/// Plans `CREATE SCHEMA`.
pub fn handle_create_schema<C: Catalog>(
    scx: &StatementContext<C>,
    stmt: &CreateSchemaStatement,
) -> (r: Result<Plan, PlanError>)
    requires
        stmt.name.0@.len() > 0,
    ensures
        viewed(r) == create_schema(scx.catalog.model(), *stmt),
{
    let n: usize = stmt.name.0.len();
    if n > 2 {
        return Err(
            PlanError::invalid(
                "schema name ".to_owned().concat(stmt.name.to_sql().as_str()).concat(
                    " has more than two components",
                ),
            ),
        );
    }
    let schema_name = ident(stmt.name.0[n - 1].clone());
    let database_name = if n == 2 {
        DatabaseSpecifier::Name(ident(stmt.name.0[0].clone()))
    } else {
        DatabaseSpecifier::Name(scx.catalog.default_database().to_owned())
    };
    Ok(Plan::CreateSchema { database_name, schema_name, if_not_exists: stmt.if_not_exists })
}

} // verus!
