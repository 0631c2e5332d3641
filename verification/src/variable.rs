//! Planning of `SET` and `SHOW` of variables.
use vstd::prelude::*;
use vstd::string::*;

use crate::ast::{SetVariableStatement, SetVariableValue, ShowVariableStatement};
use crate::error::{unsupported, viewed, ErrorView, PlanError};
use crate::external::{eq_ignoring_case, same_but_for_case};
use crate::plan::{Plan, PlanView};
use crate::value::Value;

verus! {

/// The text that a variable is set to: a string without its quotes, another
/// literal as it is written, or the name that an identifier stands for.
pub open spec fn value_text(value: SetVariableValue) -> Seq<char> {
    match value {
        SetVariableValue::Literal(Value::String(text)) => text@,
        SetVariableValue::Literal(literal) => literal@.sql(),
        SetVariableValue::Ident(ident) => ident.value@,
    }
}

/// The plan for `SET`.
pub open spec fn set_variable(stmt: SetVariableStatement) -> Result<PlanView, ErrorView> {
    if stmt.local {
        Err(unsupported("SET LOCAL"@))
    } else {
        Ok(PlanView::SetVariable { name: stmt.variable.sql@, value: value_text(stmt.value) })
    }
}

/// Plans `SET`.
pub fn handle_set_variable(stmt: &SetVariableStatement) -> (r: Result<Plan, PlanError>)
    ensures
        viewed(r) == set_variable(*stmt),
{
    if stmt.local {
        return Err(PlanError::unsupported("SET LOCAL"));
    }
    Ok(
        Plan::SetVariable {
            name: stmt.variable.sql.clone(),
            value: match &stmt.value {
                SetVariableValue::Literal(Value::String(text)) => text.clone(),
                SetVariableValue::Literal(literal) => literal.to_sql(),
                SetVariableValue::Ident(ident) => ident.value.clone(),
            },
        },
    )
}

/// Whether all variables are meant.
pub open spec fn is_all(variable: Seq<char>) -> bool {
    same_but_for_case(variable, "ALL"@)
}

/// Whether all variables are meant.
pub fn means_all(variable: &str) -> (r: bool)
    ensures
        r == is_all(variable@),
{
    eq_ignoring_case(variable, "ALL")
}

/// The plan for `SHOW` of a variable.
pub open spec fn show_variable(stmt: ShowVariableStatement) -> PlanView {
    if is_all(stmt.variable.value@) {
        PlanView::ShowAllVariables
    } else {
        PlanView::ShowVariable(stmt.variable.sql@)
    }
}

/// Plans `SHOW` of a variable.
pub fn handle_show_variable(stmt: &ShowVariableStatement) -> (r: Result<Plan, PlanError>)
    ensures
        viewed(r) == Ok::<PlanView, ErrorView>(show_variable(*stmt)),
{
    if means_all(stmt.variable.value.as_str()) {
        Ok(Plan::ShowAllVariables)
    } else {
        Ok(Plan::ShowVariable(stmt.variable.sql.clone()))
    }
}

} // verus!
