//! From the names of a statement to the names of the catalog.
use vstd::prelude::*;
use vstd::string::*;

use crate::error::{ErrorKind, ErrorView, PlanError};
use crate::names::{Ident, ObjectName, PartialName, PartialNameView};

verus! {

/// The name that an identifier stands for.
pub fn ident(id: Ident) -> (name: String)
    ensures
        name == id.value,
{
    id.value
}

/// The item name that the last one to three components make.
pub open spec fn partial_name(parts: Seq<Seq<char>>) -> PartialNameView {
    let n = parts.len() as int;
    PartialNameView {
        database: if n >= 3 {
            Some(parts[n - 3])
        } else {
            None
        },
        schema: if n >= 2 {
            Some(parts[n - 2])
        } else {
            None
        },
        item: parts[n - 1],
    }
}

/// The item name that an object name stands for: it has one to three components.
pub open spec fn item_name(name: ObjectName) -> Result<PartialNameView, ErrorView> {
    if 1 <= name.0@.len() <= 3 {
        Ok(partial_name(name.parts()))
    } else {
        Err(ErrorView { kind: ErrorKind::MisqualifiedName, text: name.sql() })
    }
}

/// The item name that an object name stands for.
pub fn object_name(name: ObjectName) -> (r: Result<PartialName, PlanError>)
    ensures
        match r {
            Ok(n) => item_name(name) == Ok::<PartialNameView, ErrorView>(n@),
            Err(e) => item_name(name) == Err::<PartialNameView, ErrorView>(e@),
        },
{
    let n: usize = name.0.len();
    if n < 1 || n > 3 {
        return Err(PlanError { kind: ErrorKind::MisqualifiedName, text: name.to_sql() });
    }
    Ok(
        PartialName {
            database: if n >= 3 {
                Some(name.0[n - 3].value.clone())
            } else {
                None
            },
            schema: if n >= 2 {
                Some(name.0[n - 2].value.clone())
            } else {
                None
            },
            item: name.0[n - 1].value.clone(),
        },
    )
}

} // verus!
