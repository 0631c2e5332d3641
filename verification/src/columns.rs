//! Names that a statement gives to columns.
use vstd::prelude::*;
use vstd::string::*;

use crate::error::{invalid, viewed, ErrorView, PlanError};
use crate::names::{text_option, Ident};
use crate::normalize;
use crate::relation::{name_list, RelationDesc, RelationView};
use crate::text::{decimal, usize_text};

verus! {

/// The columns that identifiers name.
pub open spec fn column_names(names: Seq<Ident>) -> Seq<Option<Seq<char>>> {
    names.map_values(|n: Ident| Some(n.value@))
}

/// The relation with its columns renamed, where there are any names. There are
/// as many as columns, or none.
pub open spec fn renamed(context: Seq<char>, desc: RelationView, names: Seq<Ident>) -> Result<
    RelationView,
    ErrorView,
> {
    if names.len() == 0 {
        Ok(desc)
    } else if names.len() != desc.types.len() {
        Err(
            invalid(
                context + " definition names "@ + decimal(names.len()) + " columns, but "@ + context
                    + " has "@ + decimal(desc.types.len()) + " columns"@,
            ),
        )
    } else {
        Ok(desc.with_names(column_names(names)))
    }
}

/// Renames the columns in `desc` with the names in `names`, if there are any.
pub fn maybe_rename_columns(context: &str, desc: RelationDesc, names: &Vec<Ident>) -> (r: Result<
    RelationDesc,
    PlanError,
>)
    ensures
        viewed(r) == renamed(context@, desc@, names@),
{
    if names.len() == 0 {
        return Ok(desc);
    }
    if names.len() != desc.arity() {
        return Err(
            PlanError::invalid(
                context.to_owned().concat(" definition names ").concat(
                    usize_text(names.len()).as_str(),
                ).concat(" columns, but ").concat(context).concat(" has ").concat(
                    usize_text(desc.arity()).as_str(),
                ).concat(" columns"),
            ),
        );
    }
    Ok(desc.with_names(named_columns(names)))
}

/// The columns that identifiers name.
pub fn named_columns(names: &Vec<Ident>) -> (columns: Vec<Option<String>>)
    ensures
        columns@.len() == names@.len(),
        name_list(columns@) == column_names(names@),
{
    let mut columns: Vec<Option<String>> = Vec::new();
    let mut i: usize = 0;
    while i < names.len()
        invariant
            i <= names.len(),
            columns.len() == i,
            forall|k: int|
                0 <= k < i ==> text_option(#[trigger] columns@[k]) == Some(names@[k].value@),
        decreases names.len() - i,
    {
        columns.push(Some(normalize::ident(names[i].clone())));
        i = i + 1;
    }
    assert(name_list(columns@) =~= column_names(names@));
    columns
}

/// Renaming takes no names, or as many as there are columns, and only the names change by it.
pub proof fn renaming_keeps_types_and_keys(
    context: Seq<char>,
    desc: RelationView,
    names: Seq<Ident>,
)
    ensures
        renamed(context, desc, names) is Ok <==> names.len() == 0 || names.len()
            == desc.types.len(),
        renamed(context, desc, names) matches Ok(new) ==> new.types == desc.types && new.keys
            == desc.keys,
        desc.wf() ==> (renamed(context, desc, names) matches Ok(new) ==> new.wf()),
{
}

} // verus!
