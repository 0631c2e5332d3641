//! Planning of `CREATE TABLE`.
use vstd::prelude::*;
use vstd::string::*;

use crate::ast::{ColumnDef, ColumnOption, CreateTableStatement};
use crate::catalog::{Catalog, CatalogModel};
use crate::context::{allocated_name, StatementContext};
use crate::engine::{failed, Question, QuestionView, Replies, Step, StepView};
use crate::error::{invalid, unsupported, ErrorView, PlanError};
use crate::names::text_option;
use crate::normalize::{ident, item_name, object_name};
use crate::plan::{Plan, PlanView, Table};
use crate::relation::{column, name_list, ColumnType, RelationDesc, RelationView};

verus! {

/// The names of columns.
pub open spec fn names_of(columns: Seq<ColumnDef>) -> Seq<Option<Seq<char>>> {
    columns.map_values(|c: ColumnDef| Some(c.name.value@))
}

/// Whether two columns have the same name.
pub open spec fn has_duplicates(columns: Seq<ColumnDef>) -> bool {
    exists|i: int, j: int|
        0 <= i < j < columns.len() && (#[trigger] columns[i]).name.value@ == (
        #[trigger] columns[j]).name.value@
}

fn find_duplicates(columns: &Vec<ColumnDef>) -> (r: bool)
    ensures
        r == has_duplicates(columns@),
{
    let n: usize = columns.len();
    let mut i: usize = 0;
    while i < n
        invariant
            n == columns.len(),
            i <= n,
            forall|a: int, b: int|
                0 <= a < b < columns@.len() && a < i ==> (#[trigger] columns@[a]).name.value@ != (
                #[trigger] columns@[b]).name.value@,
        decreases n - i,
    {
        let mut j: usize = i + 1;
        while j < n
            invariant
                n == columns.len(),
                i < j <= n,
                forall|b: int|
                    i < b < j ==> columns@[i as int].name.value@ != (
                    #[trigger] columns@[b]).name.value@,
            decreases n - j,
        {
            if columns[i].name.value == columns[j].name.value {
                return true;
            }
            j = j + 1;
        }
        i = i + 1;
    }
    false
}

/// The first constraint on a column other than `NOT NULL`, as it is written.
pub open spec fn first_other(options: Seq<ColumnOption>) -> Option<Seq<char>>
    decreases options.len(),
{
    if options.len() == 0 {
        None
    } else {
        match options[0] {
            ColumnOption::Other(text) => Some(text@),
            ColumnOption::NotNull => first_other(options.skip(1)),
        }
    }
}

/// Whether a column can hold null values.
pub open spec fn is_nullable(options: Seq<ColumnOption>) -> bool {
    forall|i: int| 0 <= i < options.len() ==> #[trigger] options[i] !is NotNull
}

/// Whether a column can hold null values, where its constraints are supported.
pub open spec fn nullability(options: Seq<ColumnOption>) -> Result<bool, ErrorView> {
    match first_other(options) {
        Some(text) => Err(unsupported("CREATE TABLE with column constraint: "@ + text)),
        None => Ok(is_nullable(options)),
    }
}

fn read_nullability(options: &Vec<ColumnOption>) -> (r: Result<bool, PlanError>)
    ensures
        match r {
            Ok(nullable) => nullability(options@) == Ok::<bool, ErrorView>(nullable),
            Err(e) => nullability(options@) == Err::<bool, ErrorView>(e@),
        },
{
    let mut nullable = true;
    let mut i: usize = 0;
    assert(options@.skip(0) =~= options@);
    while i < options.len()
        invariant
            i <= options.len(),
            first_other(options@) == first_other(options@.skip(i as int)),
            nullable == forall|k: int| 0 <= k < i ==> #[trigger] options@[k] !is NotNull,
        decreases options.len() - i,
    {
        assert(options@.skip(i as int)[0] == options@[i as int]);
        assert(options@.skip(i as int).skip(1) =~= options@.skip(i + 1));
        match &options[i] {
            ColumnOption::NotNull => {
                assert(options@[i as int] is NotNull);
                nullable = false;
            },
            ColumnOption::Other(text) => {
                return Err(
                    PlanError::unsupported(
                        "CREATE TABLE with column constraint: ".to_owned().concat(
                            text.as_str(),
                        ).as_str(),
                    ),
                );
            },
        }
        i = i + 1;
    }
    Ok(nullable)
}

/// The type of a column.
pub open spec fn column_type(columns: Seq<ColumnDef>, i: int, replies: Replies) -> Result<
    ColumnType,
    StepView<PlanView>,
> {
    if i >= replies.column_types@.len() {
        Err(
            StepView::Ask(
                QuestionView::ColumnType { column: i as nat, data_type: columns[i].data_type.sql@ },
            ),
        )
    } else {
        match replies.column_types@[i] {
            Err(e) => Err(failed(e@)),
            Ok(scalar_type) => match nullability(columns[i].options@) {
                Err(e) => Err(failed(e)),
                Ok(nullable) => Ok(column(scalar_type, nullable)),
            },
        }
    }
}

/// The types of the first `n` columns.
pub open spec fn column_types(columns: Seq<ColumnDef>, n: nat, replies: Replies) -> Result<
    Seq<ColumnType>,
    StepView<PlanView>,
>
    decreases n,
{
    if n == 0 {
        Ok(Seq::empty())
    } else {
        match column_types(columns, (n - 1) as nat, replies) {
            Err(step) => Err(step),
            Ok(types) => match column_type(columns, n - 1, replies) {
                Err(step) => Err(step),
                Ok(typ) => Ok(types.push(typ)),
            },
        }
    }
}

pub(crate) proof fn first_stop_stays(columns: Seq<ColumnDef>, m: nat, n: nat, replies: Replies)
    requires
        m <= n,
    ensures
        column_types(columns, m, replies) matches Err(step) ==> column_types(columns, n, replies)
            == Err::<Seq<ColumnType>, StepView<PlanView>>(step),
    decreases n - m,
{
    if m < n {
        first_stop_stays(columns, m, (n - 1) as nat, replies);
    }
}

fn read_column_types(columns: &Vec<ColumnDef>, replies: &Replies) -> (r: Result<
    Vec<ColumnType>,
    Step<Plan>,
>)
    ensures
        match r {
            Ok(types) => column_types(columns@, columns@.len(), *replies) == Ok::<
                Seq<ColumnType>,
                StepView<PlanView>,
            >(types@) && types@.len() == columns@.len(),
            Err(step) => column_types(columns@, columns@.len(), *replies) == Err::<
                Seq<ColumnType>,
                StepView<PlanView>,
            >(step@),
        },
{
    let mut types: Vec<ColumnType> = Vec::new();
    let mut i: usize = 0;
    while i < columns.len()
        invariant
            i <= columns.len(),
            types@.len() == i,
            column_types(columns@, i as nat, *replies) == Ok::<
                Seq<ColumnType>,
                StepView<PlanView>,
            >(types@),
        decreases columns.len() - i,
    {
        proof {
            first_stop_stays(columns@, (i + 1) as nat, columns@.len(), *replies);
        }
        if i >= replies.column_types.len() {
            return Err(
                Step::Ask(
                    Question::ColumnType { column: i, data_type: columns[i].data_type.sql.clone() },
                ),
            );
        }
        let scalar_type = match &replies.column_types[i] {
            Ok(scalar_type) => *scalar_type,
            Err(e) => {
                return Err(Step::Done(Err(e.clone())));
            },
        };
        let nullable = match read_nullability(&columns[i].options) {
            Ok(nullable) => nullable,
            Err(e) => {
                return Err(Step::Done(Err(e)));
            },
        };
        types.push(scalar_type.nullable(nullable));
        i = i + 1;
    }
    Ok(types)
}

fn column_names(columns: &Vec<ColumnDef>) -> (names: Vec<Option<String>>)
    ensures
        names@.len() == columns@.len(),
        name_list(names@) == names_of(columns@),
{
    let mut names: Vec<Option<String>> = Vec::new();
    let mut i: usize = 0;
    while i < columns.len()
        invariant
            i <= columns.len(),
            names.len() == i,
            forall|k: int|
                0 <= k < i ==> text_option(#[trigger] names@[k]) == Some(columns@[k].name.value@),
        decreases columns.len() - i,
    {
        names.push(Some(ident(columns[i].name.clone())));
        i = i + 1;
    }
    assert(name_list(names@) =~= names_of(columns@));
    names
}

/// The plan for `CREATE TABLE`.
pub open spec fn create_table(
    catalog: CatalogModel,
    stmt: CreateTableStatement,
    replies: Replies,
) -> StepView<PlanView> {
    let columns = stmt.columns@;
    if stmt.with_options@.len() > 0 {
        failed(unsupported("WITH options"@))
    } else if stmt.constraints@.len() > 0 {
        failed(unsupported("CREATE TABLE with constraints"@))
    } else if has_duplicates(columns) {
        failed(invalid("cannot CREATE TABLE with duplicate column names"@))
    } else {
        match column_types(columns, columns.len(), replies) {
            Err(step) => step,
            Ok(types) => match item_name(stmt.name) {
                Err(e) => failed(e),
                Ok(name) => match replies.create_sql {
                    None => StepView::Ask(QuestionView::CreateSql),
                    Some(Err(e)) => failed(e@),
                    Some(Ok(create_sql)) => StepView::Done(
                        Ok(
                            PlanView::CreateTable {
                                name: allocated_name(catalog, name),
                                create_sql: create_sql@,
                                desc: RelationView {
                                    types,
                                    names: names_of(columns),
                                    keys: Seq::empty(),
                                },
                                if_not_exists: stmt.if_not_exists,
                            },
                        ),
                    ),
                },
            },
        }
    }
}

/// Plans `CREATE TABLE`.
pub fn handle_create_table<C: Catalog>(
    scx: &StatementContext<C>,
    stmt: &CreateTableStatement,
    replies: &Replies,
) -> (step: Step<Plan>)
    ensures
        step@ == create_table(scx.catalog.model(), *stmt, *replies),
{
    if stmt.with_options.len() > 0 {
        return Step::Done(Err(PlanError::unsupported("WITH options")));
    }
    if stmt.constraints.len() > 0 {
        return Step::Done(Err(PlanError::unsupported("CREATE TABLE with constraints")));
    }
    if find_duplicates(&stmt.columns) {
        return Step::Done(
            Err(
                PlanError::invalid(
                    "cannot CREATE TABLE with duplicate column names".to_owned(),
                ),
            ),
        );
    }
    let types = match read_column_types(&stmt.columns, replies) {
        Ok(types) => types,
        Err(step) => {
            return step;
        },
    };
    let name = match object_name(stmt.name.clone()) {
        Ok(name) => scx.allocate_name(name),
        Err(e) => {
            return Step::Done(Err(e));
        },
    };
    let create_sql = match &replies.create_sql {
        None => {
            return Step::Ask(Question::CreateSql);
        },
        Some(Err(e)) => {
            return Step::Done(Err(e.clone()));
        },
        Some(Ok(sql)) => sql.clone(),
    };
    let desc = RelationDesc::new(types, column_names(&stmt.columns));
    Step::Done(
        Ok(
            Plan::CreateTable {
                name,
                table: Table { create_sql, desc },
                if_not_exists: stmt.if_not_exists,
            },
        ),
    )
}

} // verus!
