//! What a refused statement is told: what is wrong with it, and with which object.
use vstd::prelude::*;
use vstd::string::*;

use crate::alter::{alter_index_options, alter_object_rename, first_unrecognized};
use crate::ast::{
    AlterIndexOptionsList, AlterIndexOptionsStatement, AlterObjectRenameStatement, AvroSchema,
    ColumnOption, Connector, CreateIndexStatement, CreateSchemaStatement, CreateSinkStatement,
    CreateSourceStatement, CreateTableStatement, CreateViewStatement, DropObjectsStatement,
    Envelope, ExplainStatement, Explainee, Format, ObjectType, SetVariableStatement,
    ShowColumnsStatement, ShowIndexesStatement, ShowObjectsStatement, Statement, TailStatement,
};
use crate::catalog::{CatalogItemType, CatalogModel, GlobalId, PlanContext};
use crate::change_laws::is_called;
use crate::columns::renamed;
use crate::context::{experimental_error, finalized, first_missing, item_of, schema_of};
use crate::create_laws::{is_typed, types_are_as_stated};
use crate::database::create_schema;
use crate::describe::{description, DescriptionView};
use crate::drop::{drop_objects, dropped_items, first_blocker};
use crate::engine::{ParamsView, Replies, StepView};
use crate::error::{ErrorKind, ErrorView};
use crate::external::{arn_of, duration_of, regex_refusal, region_of, url_of};
use crate::index::create_index;
use crate::names::{FullNameView, Ident, ObjectName};
use crate::number::{read_signed, read_unsigned, IntError};
use crate::plan::PlanView;
use crate::query::{explain, tail};
use crate::relation::{ColumnType, RelationView, ScalarType};
use crate::show::{show_columns, show_indexes, show_objects};
use crate::show_laws::{is_relation, shown_item};
use crate::sink::create_sink;
use crate::source::{create_source, is_pure};
use crate::source_laws::{
    connector_makes_sense, format_makes_sense, may_be_switch, may_be_text, may_be_upserted,
    timestamps_make_sense,
};
use crate::statement::plan_of;
use crate::table::{column_types, create_table, first_other, first_stop_stays, has_duplicates};
use crate::text::{decimal, joined};
use crate::value::{settings, SqlOption, ValueView};
use crate::variable::set_variable;
use crate::view::create_view;

verus! {

// Complaints.

/// Whether planning ends with the complaint that the statement is not valid, for
/// this reason.
pub open spec fn complains(step: StepView<PlanView>, text: Seq<char>) -> bool {
    step == StepView::<PlanView>::Done(Err(ErrorView { kind: ErrorKind::Invalid, text }))
}

/// Whether planning ends with the complaint that this feature is not supported.
pub open spec fn lacks(step: StepView<PlanView>, feature: Seq<char>) -> bool {
    step == StepView::<PlanView>::Done(
        Err(ErrorView { kind: ErrorKind::Unsupported, text: feature }),
    )
}

/// Whether a statement is refused as not valid, for this reason.
pub open spec fn is_invalid(outcome: Result<PlanView, ErrorView>, text: Seq<char>) -> bool {
    outcome == Err::<PlanView, ErrorView>(ErrorView { kind: ErrorKind::Invalid, text })
}

/// The word for what an item is.
pub open spec fn word(item_type: CatalogItemType) -> Seq<char> {
    match item_type {
        CatalogItemType::Table => "table"@,
        CatalogItemType::Source => "source"@,
        CatalogItemType::Sink => "sink"@,
        CatalogItemType::View => "view"@,
        CatalogItemType::Index => "index"@,
    }
}

/// The keyword for what a statement says an object is.
pub open spec fn keyword(object_type: ObjectType) -> Seq<char> {
    match object_type {
        ObjectType::Schema => "SCHEMA"@,
        ObjectType::Table => "TABLE"@,
        ObjectType::View => "VIEW"@,
        ObjectType::Source => "SOURCE"@,
        ObjectType::Sink => "SINK"@,
        ObjectType::Index => "INDEX"@,
    }
}

/// How a name of a statement is written: its components with points between them.
pub open spec fn is_written(text: Seq<char>, name: ObjectName) -> bool {
    exists|parts: Seq<Seq<char>>|
        {
            &&& parts.len() == name.0@.len()
            &&& forall|i: int| 0 <= i < parts.len() ==> #[trigger] parts[i] == name.0@[i].sql@
            &&& text == #[trigger] joined(parts, "."@)
        }
}

/// A name is written as its components are, with points between them.
pub proof fn names_are_written_by_component(name: ObjectName)
    ensures
        is_written(name.sql(), name),
{
    let parts = name.written();
    assert(name.sql() == joined(parts, "."@));
}

// Items of the wrong type.

/// What is asked of an item of a type that it cannot be asked of is refused, and
/// the complaint tells the name of the item and what it is.
pub proof fn complaints_tell_what_an_item_is(
    catalog: CatalogModel,
    pcx: PlanContext,
    types: Map<usize, ScalarType>,
    replies: Replies,
    name: FullNameView,
    index: CreateIndexStatement,
    indexes: ShowIndexesStatement,
    tailed: TailStatement,
    options: AlterIndexOptionsStatement,
)
    ensures
        ({
            let item_type = catalog.items[name].item_type;
            let found = Ok::<FullNameView, ErrorView>(name);
            &&& item_of(catalog, index.on_name) == found && !is_relation(item_type) ==> complains(
                create_index(catalog, index, replies),
                "index cannot be created on "@ + name.shown() + " because it is a "@ + word(
                    item_type,
                ),
            )
            &&& item_of(catalog, indexes.table_name) == found && !is_relation(item_type)
                && !indexes.extended ==> complains(
                show_indexes(catalog, pcx, types, indexes, replies),
                "cannot show indexes on "@ + name.shown() + " because it is a "@ + word(item_type),
            )
            &&& item_of(catalog, tailed.name) == found && !is_relation(item_type) && (tailed.as_of
                is None || (replies.as_of matches Some(Ok(_)))) ==> complains(
                tail(catalog, tailed, replies),
                "'"@ + name.shown() + "' cannot be tailed because it is a "@ + word(item_type),
            )
            &&& item_of(catalog, options.index_name) == found && item_type
                != CatalogItemType::Index ==> is_invalid(
                alter_index_options(catalog, options),
                name.shown() + " is a "@ + word(item_type) + " not a index"@,
            )
        }),
{
}

/// What is explained is a view, or else the complaint tells what it is.
pub proof fn complaints_tell_what_is_explained(
    catalog: CatalogModel,
    pcx: PlanContext,
    types: Map<usize, ScalarType>,
    stmt: ExplainStatement,
    params: ParamsView,
    replies: Replies,
    stated: ObjectName,
    name: FullNameView,
)
    requires
        stmt.explainee == Explainee::View(stated),
        item_of(catalog, stated) == Ok::<FullNameView, ErrorView>(name),
        catalog.items[name].item_type != CatalogItemType::View,
    ensures
        complains(
            explain(catalog, pcx, types, stmt, params, replies),
            "Expected "@ + stated.sql() + " to be a view, not a "@ + word(
                catalog.items[name].item_type,
            ),
        ),
{
}

/// Where the stored statement of an item of another type is asked for, the
/// complaint tells the name of the item and what it is not.
pub proof fn complaints_tell_what_an_item_is_not(
    catalog: CatalogModel,
    pcx: PlanContext,
    stmt: Statement,
    params: ParamsView,
    replies: Replies,
    name: FullNameView,
)
    ensures
        shown_item(stmt) matches Some((asked, item_type)) ==> (item_of(catalog, asked) == Ok::<
            FullNameView,
            ErrorView,
        >(name) && catalog.items[name].item_type != item_type ==> {
            let step = plan_of(catalog, pcx, stmt, params, replies);
            match item_type {
                CatalogItemType::View => complains(step, ""@ + name.shown() + " is not a view"@),
                CatalogItemType::Source => complains(
                    step,
                    ""@ + name.shown() + " is not a source"@,
                ),
                CatalogItemType::Table => complains(step, ""@ + name.shown() + " is not a table"@),
                CatalogItemType::Sink => complains(step, "'"@ + name.shown() + "' is not a sink"@),
                CatalogItemType::Index => complains(
                    step,
                    "'"@ + name.shown() + "' is not an index"@,
                ),
            }
        }),
{
}

// Drops and renames.

/// An item that may not be dropped is named, with the reason: that the system
/// needs it, that it is not what the statement calls it, or the first item that
/// depends on it and is no index.
pub proof fn complaints_tell_why_items_stay(
    catalog: CatalogModel,
    stmt: DropObjectsStatement,
    name: FullNameView,
    k: int,
)
    requires
        stmt.object_type != ObjectType::Schema,
        stmt.names@.len() == 1,
        item_of(catalog, stmt.names@[0]) == Ok::<FullNameView, ErrorView>(name),
    ensures
        ({
            let item = catalog.items[name];
            let used_by = item.used_by@;
            let outcome = drop_objects(catalog, stmt);
            if item.id is System {
                is_invalid(
                    outcome,
                    "cannot drop item "@ + name.shown()
                        + " because it is required by the database system"@,
                )
            } else if !is_called(item.item_type, stmt.object_type) {
                is_invalid(outcome, name.shown() + " is not of type "@ + keyword(stmt.object_type))
            } else {
                !stmt.cascade && 0 <= k < used_by.len()
                    && catalog.items_by_id[used_by[k]].item_type != CatalogItemType::Index && (
                forall|i: int|
                    0 <= i < k ==> catalog.items_by_id[#[trigger] used_by[i]].item_type
                        == CatalogItemType::Index) ==> is_invalid(
                    outcome,
                    "cannot drop "@ + item.name@.shown()
                        + ": still depended upon by catalog item '"@
                        + catalog.items_by_id[used_by[k]].name@.shown() + "'"@,
                )
            }
        }),
{
    let used_by = catalog.items[name].used_by@;
    assert(stmt.names@.drop_last() =~= Seq::<ObjectName>::empty());
    assert(stmt.names@.last() == stmt.names@[0]);
    reveal_with_fuel(dropped_items, 2);
    if 0 <= k < used_by.len() && catalog.items_by_id[used_by[k]].item_type
        != CatalogItemType::Index && (forall|i: int|
        0 <= i < k ==> catalog.items_by_id[#[trigger] used_by[i]].item_type
            == CatalogItemType::Index) {
        the_first_blocker_is_found(catalog, used_by, k);
    }
}

proof fn the_first_blocker_is_found(
    catalog: CatalogModel,
    used_by: Seq<GlobalId>,
    k: int,
)
    requires
        0 <= k < used_by.len(),
        catalog.items_by_id[used_by[k]].item_type != CatalogItemType::Index,
        forall|i: int|
            0 <= i < k ==> catalog.items_by_id[#[trigger] used_by[i]].item_type
                == CatalogItemType::Index,
    ensures
        first_blocker(catalog, used_by) == Some(used_by[k]),
    decreases used_by.len(),
{
    if k > 0 {
        let rest = used_by.skip(1);
        assert(catalog.items_by_id[used_by[0]].item_type == CatalogItemType::Index);
        assert forall|i: int| 0 <= i < k - 1 implies catalog.items_by_id[#[trigger] rest[i]].item_type
            == CatalogItemType::Index by {
            assert(rest[i] == used_by[i + 1]);
        }
        assert(rest[k - 1] == used_by[k]);
        the_first_blocker_is_found(catalog, rest, k - 1);
    }
}

/// A schema that may not be dropped is named, with the reason.
pub proof fn complaints_tell_why_schemas_stay(catalog: CatalogModel, stmt: DropObjectsStatement)
    requires
        stmt.object_type == ObjectType::Schema,
    ensures
        stmt.names@.len() != 1 ==> drop_objects(catalog, stmt) == Err::<PlanView, ErrorView>(
            ErrorView {
                kind: ErrorKind::Unsupported,
                text: "DROP SCHEMA with multiple schemas"@,
            },
        ),
        stmt.names@.len() == 1 ==> (schema_of(catalog, stmt.names@[0]) matches Ok(
            (database, schema),
        ) ==> match database {
            None => is_invalid(
                drop_objects(catalog, stmt),
                "cannot drop schema "@ + schema.name
                    + " because it is required by the database system"@,
            ),
            Some(name) => !stmt.cascade && (catalog.contents)(database, schema.name).len() > 0
                ==> is_invalid(
                drop_objects(catalog, stmt),
                "schema '"@ + name + "."@ + schema.name
                    + "' cannot be dropped without CASCADE while it contains objects"@,
            ),
        }),
{
}

/// An item that may not be renamed is told what it is, or that the new name is
/// taken.
pub proof fn complaints_tell_why_names_stay(
    catalog: CatalogModel,
    stmt: AlterObjectRenameStatement,
    name: FullNameView,
)
    requires
        item_of(catalog, stmt.name) == Ok::<FullNameView, ErrorView>(name),
    ensures
        ({
            let item_type = catalog.items[name].item_type;
            if !is_called(item_type, stmt.object_type) {
                is_invalid(
                    alter_object_rename(catalog, stmt),
                    stmt.name.sql() + " is a "@ + word(item_type) + " not a "@ + keyword(
                        stmt.object_type,
                    ),
                )
            } else {
                alter_object_rename(catalog, stmt) is Err ==> is_invalid(
                    alter_object_rename(catalog, stmt),
                    stmt.to_item_name.sql@ + " is already taken by item in schema"@,
                )
            }
        }),
{
}

/// A parameter of an index that is not known is named: the first one. A window
/// that is no text, or no duration, is complained of before that.
pub proof fn complaints_tell_what_parameters_are(
    catalog: CatalogModel,
    stmt: AlterIndexOptionsStatement,
    name: FullNameView,
    list: Seq<SqlOption>,
    k: int,
)
    requires
        item_of(catalog, stmt.index_name) == Ok::<FullNameView, ErrorView>(name),
        catalog.items[name].item_type == CatalogItemType::Index,
        stmt.options matches AlterIndexOptionsList::Change(options) && options@ == list,
    ensures
        ({
            let window = "logical_compaction_window"@;
            let options = settings(list);
            if options.contains_key(window) && options[window] !is String {
                is_invalid(
                    alter_index_options(catalog, stmt),
                    "\"logical_compaction_window\" must be a string"@,
                )
            } else if options.contains_key(window) && options[window]->String_0 != "off"@
                && duration_of(options[window]->String_0) is Err {
                alter_index_options(catalog, stmt) == Err::<PlanView, ErrorView>(
                    ErrorView {
                        kind: ErrorKind::Duration,
                        text: duration_of(options[window]->String_0)->Err_0,
                    },
                )
            } else {
                0 <= k < list.len() && list[k].name.value@ != window && (forall|i: int|
                    0 <= i < k ==> (#[trigger] list[i]).name.value@ == window) ==> is_invalid(
                    alter_index_options(catalog, stmt),
                    "unrecognized parameter: \""@ + list[k].name.value@
                        + "\". Only \"logical_compaction_window\" is currently supported."@,
                )
            }
        }),
{
    if 0 <= k < list.len() && list[k].name.value@ != "logical_compaction_window"@ && (forall|i: int|
        0 <= i < k ==> (#[trigger] list[i]).name.value@ == "logical_compaction_window"@) {
        the_first_unknown_is_found(list, k);
    }
}

proof fn the_first_unknown_is_found(list: Seq<SqlOption>, k: int)
    requires
        0 <= k < list.len(),
        list[k].name.value@ != "logical_compaction_window"@,
        forall|i: int|
            0 <= i < k ==> (#[trigger] list[i]).name.value@ == "logical_compaction_window"@,
    ensures
        first_unrecognized(list) == Some(list[k].name.value@),
    decreases list.len(),
{
    if k > 0 {
        let rest = list.skip(1);
        assert(list[0].name.value@ == "logical_compaction_window"@);
        assert forall|i: int| 0 <= i < k - 1 implies (#[trigger] rest[i]).name.value@
            == "logical_compaction_window"@ by {
            assert(rest[i] == list[i + 1]);
        }
        assert(rest[k - 1] == list[k]);
        the_first_unknown_is_found(rest, k - 1);
    }
}

// Columns and parameters.

/// Names for columns that are not as many as the columns are refused, and the
/// complaint tells how many there are of each.
pub proof fn complaints_tell_how_many_columns(
    context: Seq<char>,
    desc: RelationView,
    names: Seq<Ident>,
)
    requires
        names.len() != 0,
        names.len() != desc.types.len(),
    ensures
        renamed(context, desc, names) == Err::<RelationView, ErrorView>(
            ErrorView {
                kind: ErrorKind::Invalid,
                text: context + " definition names "@ + decimal(names.len()) + " columns, but "@
                    + context + " has "@ + decimal(desc.types.len()) + " columns"@,
            },
        ),
{
}

/// The first parameter whose type is not known is named by its number.
pub proof fn complaints_tell_which_parameter(types: Map<usize, ScalarType>, n: usize)
    requires
        n >= 1,
        !types.contains_key(0),
        !types.contains_key(n),
        forall|k: usize| 1 <= k < n ==> #[trigger] types.contains_key(k),
        finalized(types) is Err,
    ensures
        finalized(types)->Err_0.kind == ErrorKind::Invalid,
        finalized(types)->Err_0.text == "unable to infer type for parameter $"@ + decimal(n as nat),
{
    assert(first_missing(types, n as nat));
    let m = choose|m: nat| first_missing(types, m);
    assert(first_missing(types, m));
    if m < n {
        assert(types.contains_key(m as usize));
    } else if n < m {
        assert(types.contains_key(n));
    }
}

/// A parameter of the number zero leaves the first one without a type.
pub proof fn complaints_tell_of_parameter_zero(types: Map<usize, ScalarType>)
    requires
        types.contains_key(0),
    ensures
        finalized(types) matches Err(e) && e.kind == ErrorKind::Invalid && e.text
            == "unable to infer type for parameter $"@ + decimal(1),
{
}

// What is not supported.

/// What takes experimental mode is named.
pub proof fn complaints_name_what_is_experimental(feature_name: Seq<char>)
    ensures
        experimental_error(feature_name).kind == ErrorKind::Invalid,
        experimental_error(feature_name).text == feature_name
            + " requires experimental mode; see https://materialize.io/docs/cli/#experimental-mode"@,
{
}

/// Features that are not supported are named.
pub proof fn complaints_name_the_feature(
    catalog: CatalogModel,
    pcx: PlanContext,
    types: Map<usize, ScalarType>,
    replies: Replies,
    objects: ShowObjectsStatement,
    indexes: ShowIndexesStatement,
    columns: ShowColumnsStatement,
    variable: SetVariableStatement,
    schema: CreateSchemaStatement,
)
    ensures
        objects.object_type == ObjectType::Table && objects.extended ==> lacks(
            show_objects(catalog, pcx, types, objects, replies),
            "SHOW EXTENDED TABLES"@,
        ),
        indexes.extended ==> lacks(
            show_indexes(catalog, pcx, types, indexes, replies),
            "SHOW EXTENDED INDEXES"@,
        ),
        columns.extended ==> lacks(
            show_columns(catalog, pcx, types, columns, replies),
            "SHOW EXTENDED COLUMNS"@,
        ),
        columns.full && !columns.extended ==> lacks(
            show_columns(catalog, pcx, types, columns, replies),
            "SHOW FULL COLUMNS"@,
        ),
        variable.local ==> set_variable(variable) == Err::<PlanView, ErrorView>(
            ErrorView { kind: ErrorKind::Unsupported, text: "SET LOCAL"@ },
        ),
        schema.name.0@.len() > 2 ==> is_invalid(
            create_schema(catalog, schema),
            "schema name "@ + schema.name.sql() + " has more than two components"@,
        ),
{
}

/// A statement that is never supported is told so.
pub proof fn complaints_name_the_statement(
    catalog: CatalogModel,
    pcx: PlanContext,
    stmt: Statement,
    params: ParamsView,
    types: Map<usize, ScalarType>,
    replies: Replies,
)
    requires
        stmt is Update || stmt is Delete || stmt is Copy || stmt is SetTransaction,
    ensures
        ({
            let text = match stmt {
                Statement::Update => "UPDATE statements are not supported"@,
                Statement::Delete => "DELETE statements are not supported"@,
                Statement::Copy => "COPY statements are not supported"@,
                _ => "SET TRANSACTION statements are not supported"@,
            };
            let error = ErrorView { kind: ErrorKind::Invalid, text };
            &&& plan_of(catalog, pcx, stmt, params, replies) == StepView::<PlanView>::Done(
                Err(error),
            )
            &&& description(catalog, stmt, types, replies) == StepView::<DescriptionView>::Done(
                Err(error),
            )
        }),
{
}

/// What a table or a view cannot have is named.
pub proof fn complaints_name_what_relations_cannot_have(
    catalog: CatalogModel,
    pcx: PlanContext,
    types: Map<usize, ScalarType>,
    params: ParamsView,
    table: CreateTableStatement,
    view: CreateViewStatement,
    replies: Replies,
)
    ensures
        ({
            let step = create_table(catalog, table, replies);
            if table.with_options@.len() > 0 {
                lacks(step, "WITH options"@)
            } else if table.constraints@.len() > 0 {
                lacks(step, "CREATE TABLE with constraints"@)
            } else {
                (exists|i: int, j: int|
                    0 <= i < j < table.columns@.len() && (#[trigger] table.columns@[i]).name.value@
                        == (#[trigger] table.columns@[j]).name.value@) ==> complains(
                    step,
                    "cannot CREATE TABLE with duplicate column names"@,
                )
            }
        }),
        view.with_options@.len() > 0 && (replies.create_sql matches Some(Ok(_))) ==> lacks(
            create_view(catalog, pcx, types, view, params, replies),
            "WITH options"@,
        ),
{
}

/// The first constraint on a column that is not supported is named, once the types
/// of the columns up to it are known.
pub proof fn complaints_name_the_constraint(
    catalog: CatalogModel,
    stmt: CreateTableStatement,
    replies: Replies,
    i: int,
    k: int,
)
    requires
        stmt.with_options@.len() == 0,
        stmt.constraints@.len() == 0,
        !has_duplicates(stmt.columns@),
        0 <= i < stmt.columns@.len(),
        forall|j: int| 0 <= j < i ==> is_typed(#[trigger] stmt.columns@[j], j, replies),
        i < replies.column_types@.len(),
        replies.column_types@[i] is Ok,
        0 <= k < stmt.columns@[i].options@.len(),
        stmt.columns@[i].options@[k] is Other,
        forall|j: int| 0 <= j < k ==> #[trigger] stmt.columns@[i].options@[j] is NotNull,
    ensures
        lacks(
            create_table(catalog, stmt, replies),
            "CREATE TABLE with column constraint: "@ + stmt.columns@[i].options@[k]->Other_0@,
        ),
{
    let columns = stmt.columns@;
    types_are_as_stated(columns, i as nat, replies);
    the_first_other_is_found(columns[i].options@, k);
    let stop = StepView::<PlanView>::Done(
        Err(
            ErrorView {
                kind: ErrorKind::Unsupported,
                text: "CREATE TABLE with column constraint: "@ + columns[i].options@[k]->Other_0@,
            },
        ),
    );
    assert(column_types(columns, (i + 1) as nat, replies) == Err::<
        Seq<ColumnType>,
        StepView<PlanView>,
    >(stop));
    first_stop_stays(columns, (i + 1) as nat, columns.len(), replies);
}

proof fn the_first_other_is_found(options: Seq<ColumnOption>, k: int)
    requires
        0 <= k < options.len(),
        options[k] is Other,
        forall|j: int| 0 <= j < k ==> #[trigger] options[j] is NotNull,
    ensures
        first_other(options) == Some(options[k]->Other_0@),
    decreases options.len(),
{
    if k > 0 {
        let rest = options.skip(1);
        assert(options[0] is NotNull);
        assert forall|j: int| 0 <= j < k - 1 implies #[trigger] rest[j] is NotNull by {
            assert(rest[j] == options[j + 1]);
        }
        assert(rest[k - 1] == options[k]);
        the_first_other_is_found(rest, k - 1);
    }
}

// Sources.

/// The complaints about the options of a source on timestamps, if there is reason
/// for one: first on where timestamps come from, then on how often.
pub open spec fn timestamps_complaint(options: Map<Seq<char>, ValueView>) -> Option<Seq<char>> {
    if !may_be_text(options, "consistency"@) {
        Some("consistency must be a string"@)
    } else if !timestamps_make_sense(options) {
        Some("timestamp_frequency_ms must be an u64"@)
    } else {
        None
    }
}

/// The first thing that is wrong with the options of a file source is told.
pub proof fn complaints_about_files(
    catalog: CatalogModel,
    stmt: CreateSourceStatement,
    replies: Replies,
)
    requires
        is_pure(stmt),
        stmt.connector is File || stmt.connector is AvroOcf,
    ensures
        ({
            let options = settings(stmt.with_options@);
            let step = create_source(catalog, stmt, replies);
            if !may_be_switch(options, "tail"@) {
                complains(step, "tail must be a boolean"@)
            } else if timestamps_complaint(options) is Some {
                complains(step, timestamps_complaint(options)->0)
            } else if stmt.connector is AvroOcf && stmt.format is Some {
                complains(step, "avro ocf sources cannot specify a format"@)
            } else if stmt.connector is AvroOcf && options["reader_schema"@] !is String {
                complains(step, "reader_schema option must be a string"@)
            } else if stmt.connector is File {
                match stmt.format {
                    None => complains(step, "Source format must be specified"@),
                    Some(Format::Json) => lacks(step, "JSON sources"@),
                    Some(Format::Csv { n_cols, delimiter, .. }) => if n_cols is None
                        && stmt.col_names@.len() == 0 {
                        complains(
                            step,
                            "Cannot determine number of columns in CSV source; specify using CREATE SOURCE...FORMAT CSV WITH X COLUMNS"@,
                        )
                    } else {
                        delimiter as u32 > 127 ==> complains(
                            step,
                            "CSV delimiter must be an ASCII character"@,
                        )
                    },
                    Some(Format::Regex(pattern)) => regex_refusal(pattern@) matches Some(refusal)
                        ==> step == StepView::<PlanView>::Done(
                        Err(ErrorView { kind: ErrorKind::Regex, text: refusal }),
                    ),
                    Some(Format::Avro(AvroSchema::CsrUrl { url, .. })) => url_of(url@) matches Err(
                        refusal,
                    ) ==> step == StepView::<PlanView>::Done(
                        Err(ErrorView { kind: ErrorKind::Url, text: refusal }),
                    ),
                    _ => true,
                }
            } else {
                true
            }
        }),
{
}

/// The first thing that is wrong with the options of a Kafka source is told.
pub proof fn complaints_about_topics(
    catalog: CatalogModel,
    stmt: CreateSourceStatement,
    replies: Replies,
)
    requires
        is_pure(stmt),
        stmt.connector is Kafka,
        replies.kafka_config matches Some(Ok(_)),
    ensures
        ({
            let options = settings(stmt.with_options@);
            let own = options.contains_key("consistency"@);
            let step = create_source(catalog, stmt, replies);
            let offset = if options["start_offset"@] is Number {
                read_signed(options["start_offset"@]->Number_0)
            } else {
                Err(IntError::Empty)
            };
            if !may_be_text(options, "consistency"@) {
                complains(step, "consistency must be a string"@)
            } else if !may_be_text(options, "group_id_prefix"@) {
                complains(step, "group_id_prefix must be a string"@)
            } else if !timestamps_make_sense(options) {
                complains(step, "timestamp_frequency_ms must be an u64"@)
            } else if options.contains_key("start_offset"@) && (offset is Err || offset->Ok_0 < 0) {
                complains(step, "start_offset must be a nonnegative integer"@)
            } else if options.contains_key("start_offset"@) && own && offset->Ok_0 > 0 {
                complains(
                    step,
                    "`start_offset` is not yet implemented for BYO consistency sources."@,
                )
            } else if !may_be_switch(options, "persistence"@) {
                complains(step, "persistence must be a bool!"@)
            } else {
                own && options.contains_key("persistence"@) && options["persistence"@]
                    == ValueView::Boolean(true) ==> lacks(step, "BYO source persistence"@)
            }
        }),
{
}

/// The first thing that is wrong with a Kinesis source is told.
pub proof fn complaints_about_streams(
    catalog: CatalogModel,
    stmt: CreateSourceStatement,
    replies: Replies,
)
    requires
        is_pure(stmt),
        stmt.connector is Kinesis,
    ensures
        ({
            let options = settings(stmt.with_options@);
            let step = create_source(catalog, stmt, replies);
            match arn_of(stmt.connector->arn@) {
                Err(refusal) => complains(step, "Unable to parse provided ARN: "@ + refusal),
                Ok((_, None, resource)) => lacks(step, "AWS Resource type: "@ + resource),
                Ok((region, Some(path), _)) => if !"stream/"@.is_prefix_of(path) {
                    complains(step, "Unable to parse stream name from resource path: "@ + path)
                } else {
                    match region {
                        None => complains(step, "Provided ARN does not include an AWS region"@),
                        Some(region) => if region_of(region) is Err && !(options.contains_key(
                            "endpoint"@,
                        ) && options["endpoint"@] is String) {
                            complains(
                                step,
                                "Unable to parse AWS region: "@ + region_of(region)->Err_0
                                    + ". If providing a custom region, an `endpoint` option must also be provided"@,
                            )
                        } else if !may_be_text(options, "access_key_id"@) {
                            complains(step, "access_key_id must be a string"@)
                        } else if !may_be_text(options, "secret_access_key"@) {
                            complains(step, "secret_access_key must be a string"@)
                        } else {
                            !may_be_text(options, "token"@) ==> complains(
                                step,
                                "token must be a string"@,
                            )
                        },
                    }
                },
            }
        }),
{
}

/// What is wrong with the envelope of a file source of bytes or text is told.
pub proof fn complaints_about_envelopes(
    catalog: CatalogModel,
    stmt: CreateSourceStatement,
    replies: Replies,
)
    requires
        is_pure(stmt),
        stmt.connector is File,
        stmt.format == Some(Format::Bytes) || stmt.format == Some(Format::Text),
        may_be_switch(settings(stmt.with_options@), "tail"@),
        timestamps_make_sense(settings(stmt.with_options@)),
    ensures
        ({
            let options = settings(stmt.with_options@);
            let step = create_source(catalog, stmt, replies);
            match stmt.envelope {
                Envelope::NoEnvelope => true,
                Envelope::Upsert(_) => lacks(step, "upsert envelope for non-Kafka sources"@),
                Envelope::Debezium => options.contains_key("deduplication"@)
                    && options["deduplication"@] != ValueView::String("full"@)
                    && options["deduplication"@] != ValueView::String("ordered"@) ==> complains(
                    step,
                    "deduplication must be either 'full' or 'ordered'."@,
                ),
                Envelope::CdcV2 => if catalog.experimental {
                    lacks(step, "non-Avro-encoded ENVELOPE MATERIALIZE"@)
                } else {
                    complains(
                        step,
                        "ENVELOPE MATERIALIZE"@
                            + " requires experimental mode; see https://materialize.io/docs/cli/#experimental-mode"@,
                    )
                },
            }
        }),
{
}

/// What is wrong with the envelope of a Kafka source, once its options are in
/// order and everything is answered, is told.
pub proof fn complaints_about_upserts(
    catalog: CatalogModel,
    stmt: CreateSourceStatement,
    replies: Replies,
    key_format: Option<Format>,
)
    requires
        is_pure(stmt),
        stmt.connector is Kafka,
        connector_makes_sense(stmt.connector, settings(stmt.with_options@)),
        format_makes_sense(stmt.format, stmt.col_names@.len()),
        stmt.envelope == Envelope::Upsert(key_format),
        key_format is Some ==> format_makes_sense(key_format, stmt.col_names@.len()),
        replies.kafka_config matches Some(Ok(_)),
        replies.kafka_addrs matches Some(Ok(_)),
        replies.value_registry matches Some(Ok(_)),
        replies.key_registry matches Some(Ok(_)),
        replies.value_descriptors matches Some(Ok(_)),
        replies.key_descriptors matches Some(Ok(_)),
    ensures
        ({
            let step = create_source(catalog, stmt, replies);
            let key = if key_format is Some {
                key_format
            } else {
                stmt.format
            };
            if !may_be_upserted(key) {
                lacks(step, "format for upsert key"@)
            } else if !may_be_upserted(stmt.format) {
                lacks(step, "upsert envelope for this format"@)
            } else {
                key->0 is Avro && stmt.format->0 !is Avro ==> lacks(
                    step,
                    "Avro key for this format"@,
                )
            }
        }),
{
}

// Sinks.

/// Why a text is no number of the wanted range.
pub open spec fn reason(error: IntError) -> Seq<char> {
    match error {
        IntError::Empty => "cannot parse integer from empty string"@,
        IntError::InvalidDigit => "invalid digit found in string"@,
        IntError::PosOverflow => "number too large to fit in target type"@,
        IntError::NegOverflow => "number too small to fit in target type"@,
    }
}

/// The first thing that is wrong with where a sink goes is told.
pub proof fn complaints_about_sinks(
    catalog: CatalogModel,
    stmt: CreateSinkStatement,
    replies: Replies,
    from: FullNameView,
)
    requires
        replies.create_sql matches Some(Ok(_)),
        1 <= stmt.name.0@.len() <= 3,
        item_of(catalog, stmt.from) == Ok::<FullNameView, ErrorView>(from),
        catalog.startup_secs >= 0,
        stmt.as_of is None,
        catalog.items[from].desc is Ok,
        replies.kafka_addrs matches Some(Ok(_)),
        replies.sink_schema is Some,
        replies.is_directory is Some,
    ensures
        ({
            let options = settings(stmt.with_options@);
            let step = create_sink(catalog, stmt, replies);
            match stmt.connector {
                Connector::File { .. } => lacks(step, "file sinks"@),
                Connector::Kinesis { .. } => lacks(step, "Kinesis sinks"@),
                Connector::AvroOcf { .. } => if stmt.format is Some {
                    complains(step, "avro ocf sinks cannot specify a format"@)
                } else if stmt.with_options@.len() > 0 {
                    complains(step, "avro ocf sinks do not support WITH options"@)
                } else {
                    replies.is_directory == Some(true) ==> complains(
                        step,
                        "avro ocf sink cannot write to a directory"@,
                    )
                },
                Connector::Kafka { .. } => match stmt.format {
                    Some(Format::Avro(AvroSchema::CsrUrl { url, seed, with_options })) => if seed
                        is Some {
                        complains(step, "SEED option does not make sense with sinks"@)
                    } else if with_options@.len() > 0 {
                        lacks(
                            step,
                            "CONFLUENT SCHEMA REGISTRY ... WITH options in CREATE SINK"@,
                        )
                    } else if url_of(url@) is Err {
                        step == StepView::<PlanView>::Done(
                            Err(ErrorView { kind: ErrorKind::Url, text: url_of(url@)->Err_0 }),
                        )
                    } else if !may_be_switch(options, "consistency"@) {
                        complains(step, "consistency must be a boolean"@)
                    } else if options.contains_key("replication_factor"@) {
                        match options["replication_factor"@] {
                            ValueView::Number(digits) => match read_unsigned(
                                digits,
                                u32::MAX as nat,
                            ) {
                                Ok(n) => n == 0 ==> complains(
                                    step,
                                    "replication factor for sink topics has to be greater than zero"@,
                                ),
                                Err(e) => step == StepView::<PlanView>::Done(
                                    Err(ErrorView { kind: ErrorKind::Integer, text: reason(e) }),
                                ),
                            },
                            _ => complains(
                                step,
                                "replication factor for sink topics has to be a positive integer"@,
                            ),
                        }
                    } else {
                        true
                    },
                    _ => lacks(step, "non-confluent schema registry avro sinks"@),
                },
            }
        }),
{
}

/// A system that started before the epoch has no sinks.
pub proof fn complaints_about_the_clock(
    catalog: CatalogModel,
    stmt: CreateSinkStatement,
    replies: Replies,
)
    requires
        catalog.startup_secs < 0,
        replies.create_sql matches Some(Ok(_)),
        1 <= stmt.name.0@.len() <= 3,
        item_of(catalog, stmt.from) is Ok,
    ensures
        create_sink(catalog, stmt, replies) == StepView::<PlanView>::Done(
            Err(
                ErrorView {
                    kind: ErrorKind::Clock,
                    text: "second time provided was later than self"@,
                },
            ),
        ),
{
}

} // verus!
