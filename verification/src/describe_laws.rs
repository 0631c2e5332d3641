//! What holds of descriptions, in terms of the statements that are described.
use vstd::prelude::*;
use vstd::string::*;

use crate::ast::{ExplainStage, Explainee, ObjectType, Statement};
use crate::catalog::CatalogModel;
use crate::change_laws::{is_word_all, variables_are_shown_as_stated};
use crate::context::{finalized, item_of};
use crate::describe::{description, given_types, DescriptionView};
use crate::engine::{QueryLifetime, QuestionView, Replies, StepView};
use crate::error::{ErrorView, PlanError};
use crate::relation::ScalarType;

verus! {

/// A column: its name, its type, and whether it may be null.
pub struct Shown {
    pub name: Seq<char>,
    pub scalar_type: ScalarType,
    pub nullable: bool,
}

/// A column of texts that are never null.
pub open spec fn text(name: Seq<char>) -> Shown {
    Shown { name, scalar_type: ScalarType::String, nullable: false }
}

/// Whether a statement is described as one without parameters that returns these
/// columns.
pub open spec fn has_columns(step: StepView<DescriptionView>, columns: Seq<Shown>) -> bool {
    &&& step matches StepView::Done(Ok(d))
    &&& d.param_types.len() == 0
    &&& d.desc matches Some(desc)
    &&& desc.keys.len() == 0
    &&& desc.names.len() == columns.len()
    &&& desc.types.len() == columns.len()
    &&& forall|i: int| 0 <= i < columns.len() ==> #[trigger] desc.names[i] == Some(columns[i].name)
    &&& forall|i: int|
        0 <= i < columns.len() ==> (#[trigger] desc.types[i]).scalar_type == columns[i].scalar_type
            && desc.types[i].nullable == columns[i].nullable
}

/// Statements that create, drop or alter something, set a variable or control a
/// transaction return no rows and take no parameters.
pub proof fn changes_return_nothing(
    catalog: CatalogModel,
    stmt: Statement,
    param_types: Map<usize, ScalarType>,
    replies: Replies,
)
    requires
        match stmt {
            Statement::CreateDatabase(_) | Statement::CreateSchema(_) | Statement::CreateIndex(
                _,
            ) | Statement::CreateSource(_) | Statement::CreateTable(_) | Statement::CreateSink(_)
            | Statement::CreateView(_) | Statement::DropDatabase(_) | Statement::DropObjects(_)
            | Statement::AlterObjectRename(_) | Statement::AlterIndexOptions(_)
            | Statement::SetVariable(_) | Statement::StartTransaction | Statement::Commit
            | Statement::Rollback => true,
            _ => false,
        },
    ensures
        description(catalog, stmt, param_types, replies) matches StepView::Done(Ok(d)) && d.desc
            is None && d.param_types.len() == 0,
{
}

/// What shows stored statements, columns, indexes or databases returns the columns
/// that are known for it.
pub proof fn shown_columns_are_described(
    catalog: CatalogModel,
    stmt: Statement,
    param_types: Map<usize, ScalarType>,
    replies: Replies,
)
    ensures
        ({
            let step = description(catalog, stmt, param_types, replies);
            match stmt {
                Statement::ShowCreateView(_) => has_columns(
                    step,
                    seq![text("View"@), text("Create View"@)],
                ),
                Statement::ShowCreateSource(_) => has_columns(
                    step,
                    seq![text("Source"@), text("Create Source"@)],
                ),
                Statement::ShowCreateTable(_) => has_columns(
                    step,
                    seq![text("Table"@), text("Create Table"@)],
                ),
                Statement::ShowCreateSink(_) => has_columns(
                    step,
                    seq![text("Sink"@), text("Create Sink"@)],
                ),
                Statement::ShowCreateIndex(_) => has_columns(
                    step,
                    seq![text("Index"@), text("Create Index"@)],
                ),
                Statement::ShowColumns(_) => has_columns(
                    step,
                    seq![text("Field"@), text("Nullable"@), text("Type"@)],
                ),
                Statement::ShowDatabases(_) => has_columns(step, seq![text("database"@)]),
                Statement::ShowIndexes(_) => has_columns(
                    step,
                    seq![
                        text("On_name"@),
                        text("Key_name"@),
                        Shown { nullable: true, ..text("Column_name"@) },
                        Shown { nullable: true, ..text("Expression"@) },
                        Shown { scalar_type: ScalarType::Bool, ..text("Null"@) },
                        Shown { scalar_type: ScalarType::Int64, ..text("Seq_in_index"@) },
                    ],
                ),
                _ => true,
            }
        }),
{
}

/// `SHOW` of objects returns their names, with `FULL` also their types, and with
/// `FULL` for views and sources, unless only materialized ones are shown, whether
/// they are materialized.
pub proof fn shown_object_columns_are_described(
    catalog: CatalogModel,
    stmt: Statement,
    param_types: Map<usize, ScalarType>,
    replies: Replies,
)
    requires
        stmt is ShowObjects,
    ensures
        ({
            let step = description(catalog, stmt, param_types, replies);
            let shown = stmt->ShowObjects_0;
            let name = text(
                match shown.object_type {
                    ObjectType::Schema => "SCHEMAS"@,
                    ObjectType::Table => "TABLES"@,
                    ObjectType::View => "VIEWS"@,
                    ObjectType::Source => "SOURCES"@,
                    ObjectType::Sink => "SINKS"@,
                    ObjectType::Index => "INDEXES"@,
                },
            );
            let told = shown.object_type == ObjectType::View || shown.object_type
                == ObjectType::Source;
            if !shown.full {
                has_columns(step, seq![name])
            } else if told && !shown.materialized {
                has_columns(
                    step,
                    seq![
                        name,
                        text("TYPE"@),
                        Shown { scalar_type: ScalarType::Bool, ..text("MATERIALIZED"@) },
                    ],
                )
            } else {
                has_columns(step, seq![name, text("TYPE"@)])
            }
        }),
{
}

/// `SHOW` of a variable returns its value, in a column of its name; for the word
/// `all` it returns names, settings and descriptions.
pub proof fn shown_variables_are_described(
    catalog: CatalogModel,
    stmt: Statement,
    param_types: Map<usize, ScalarType>,
    replies: Replies,
)
    requires
        stmt is ShowVariable,
    ensures
        ({
            let step = description(catalog, stmt, param_types, replies);
            let variable = stmt->ShowVariable_0.variable.value@;
            if is_word_all(variable) {
                has_columns(step, seq![text("name"@), text("setting"@), text("description"@)])
            } else {
                has_columns(step, seq![text(variable)])
            }
        }),
{
    variables_are_shown_as_stated(stmt->ShowVariable_0);
}

/// `TAIL` returns what it tails: the columns of the item that is found, if it has
/// any.
pub proof fn tailed_columns_are_described(
    catalog: CatalogModel,
    stmt: Statement,
    param_types: Map<usize, ScalarType>,
    replies: Replies,
)
    requires
        stmt is Tail,
    ensures
        match item_of(catalog, stmt->Tail_0.name) {
            Err(e) => description(catalog, stmt, param_types, replies) == StepView::<
                DescriptionView,
            >::Done(Err(e)),
            Ok(name) => match catalog.items[name].desc {
                Err(e) => description(catalog, stmt, param_types, replies) == StepView::<
                    DescriptionView,
                >::Done(Err(e@)),
                Ok(desc) => description(catalog, stmt, param_types, replies) matches StepView::Done(
                    Ok(d),
                ) && d.desc == Some(desc@) && d.param_types.len() == 0,
            },
        },
{
}

/// A query returns what its plan does, and takes the parameters that its plan
/// found. The plan is asked for with the types that are given, at no time in
/// particular.
pub proof fn queries_are_described_by_their_plans(
    catalog: CatalogModel,
    stmt: Statement,
    param_types: Map<usize, ScalarType>,
    replies: Replies,
)
    requires
        stmt is Select,
    ensures
        ({
            let step = description(catalog, stmt, param_types, replies);
            match replies.planned {
                None => step matches StepView::Ask(
                    QuestionView::PlanQuery { query, lifetime, pcx, param_types: types },
                ) && {
                    &&& query == stmt->Select_0.query.sql@
                    &&& lifetime == QueryLifetime::OneShot
                    &&& pcx.wall_time_ms == 0
                    &&& types == param_types
                },
                Some(Err(e)) => step == StepView::<DescriptionView>::Done(Err(e@)),
                Some(Ok(planned)) => match finalized(planned.param_types@) {
                    Ok(types) => step matches StepView::Done(Ok(d)) && d.desc == Some(planned.desc@)
                        && d.param_types == types,
                    Err(e) => step == StepView::<DescriptionView>::Done(Err(e)),
                },
            }
        }),
{
}

/// An insertion returns nothing, and takes the parameters that its plan found. The
/// plan is asked for with the types that are given, at no time in particular.
pub proof fn insertions_are_described_by_their_plans(
    catalog: CatalogModel,
    stmt: Statement,
    param_types: Map<usize, ScalarType>,
    replies: Replies,
)
    requires
        stmt is Insert,
    ensures
        ({
            let step = description(catalog, stmt, param_types, replies);
            let insert = stmt->Insert_0;
            match replies.inserted {
                None => step matches StepView::Ask(
                    QuestionView::PlanInsert { table_name, columns, source, pcx, param_types: types },
                ) && {
                    &&& table_name == insert.table_name.0@
                    &&& columns == insert.columns@
                    &&& source == insert.source@
                    &&& pcx.wall_time_ms == 0
                    &&& types == param_types
                },
                Some(Err(e)) => step == StepView::<DescriptionView>::Done(Err(e@)),
                Some(Ok(inserted)) => match finalized(inserted.param_types@) {
                    Ok(types) => step matches StepView::Done(Ok(d)) && d.desc is None
                        && d.param_types == types,
                    Err(e) => step == StepView::<DescriptionView>::Done(Err(e)),
                },
            }
        }),
{
}

/// `EXPLAIN` returns one text, in a column that is named after the stage. For a
/// view it takes no parameters; for a query it takes those that its plan found.
pub proof fn explanations_are_described(
    catalog: CatalogModel,
    stmt: Statement,
    param_types: Map<usize, ScalarType>,
    replies: Replies,
)
    requires
        stmt is Explain,
    ensures
        ({
            let step = description(catalog, stmt, param_types, replies);
            let name = match stmt->Explain_0.stage {
                ExplainStage::RawPlan => "Raw Plan"@,
                ExplainStage::DecorrelatedPlan => "Decorrelated Plan"@,
                ExplainStage::OptimizedPlan => "Optimized Plan"@,
            };
            match stmt->Explain_0.explainee {
                Explainee::View(_) => has_columns(step, seq![text(name)]),
                Explainee::Query(query) => match step {
                    StepView::Done(Ok(d)) => {
                        let bare = DescriptionView { param_types: Seq::empty(), ..d };
                        &&& has_columns(StepView::Done(Ok(bare)), seq![text(name)])
                        &&& replies.planned matches Some(Ok(planned))
                        &&& finalized(planned.param_types@) == Ok::<Seq<ScalarType>, ErrorView>(
                            d.param_types,
                        )
                    },
                    StepView::Ask(question) => {
                        &&& replies.planned is None
                        &&& question matches QuestionView::PlanQuery {
                            query: asked,
                            lifetime,
                            pcx,
                            param_types: types,
                        }
                        &&& asked == query.sql@
                        &&& lifetime == QueryLifetime::OneShot
                        &&& pcx.wall_time_ms == 0
                        &&& types == param_types
                    },
                    StepView::Done(Err(e)) => {
                        ||| replies.planned matches Some(Err(refused)) && e == refused@
                        ||| replies.planned matches Some(Ok(planned)) && finalized(
                            planned.param_types@,
                        ) == Err::<Seq<ScalarType>, ErrorView>(e)
                    },
                },
            }
        }),
{
}

/// What changes rows in place, copies them or sets up a transaction is not
/// described.
pub proof fn refused_statements_are_not_described(
    catalog: CatalogModel,
    stmt: Statement,
    param_types: Map<usize, ScalarType>,
    replies: Replies,
)
    requires
        stmt is Update || stmt is Delete || stmt is Copy || stmt is SetTransaction,
    ensures
        description(catalog, stmt, param_types, replies) matches StepView::Done(Err(_)),
{
}

/// The parameters whose types are given have those types, by their numbers, which
/// are counted from one; the first type that is refused is the error.
pub proof fn given_types_are_numbered(types: Seq<Option<Result<ScalarType, PlanError>>>, n: nat)
    requires
        n <= types.len() <= usize::MAX,
    ensures
        match given_types(types, n) {
            Ok(given) => {
                &&& forall|k: usize| #[trigger]
                    given.contains_key(k) <==> 1 <= k <= n && types[k - 1] is Some
                &&& forall|k: usize| #[trigger]
                    given.contains_key(k) ==> types[k - 1] == Some(
                        Ok::<ScalarType, PlanError>(given[k]),
                    )
            },
            Err(e) => exists|i: int|
                {
                    &&& 0 <= i < n
                    &&& #[trigger] types[i] matches Some(Err(refused))
                    &&& e == refused@
                    &&& forall|j: int|
                        0 <= j < i ==> !(#[trigger] types[j] matches Some(Err(_)))
                },
        },
    decreases n,
{
    if n > 0 {
        given_types_are_numbered(types, (n - 1) as nat);
        if let Ok(before) = given_types(types, (n - 1) as nat) {
            if let Some(Err(refused)) = types[n - 1] {
                assert forall|j: int| 0 <= j < n - 1 implies !(#[trigger] types[j] matches Some(
                    Err(_),
                )) by {
                    let k = (j + 1) as usize;
                    if types[j] is Some {
                        assert(before.contains_key(k));
                        assert(types[k - 1] == types[j]);
                    }
                }
            }
        }
    }
}

} // verus!
