//! What holds of planned drops, renames and settings, in terms of the statements
//! that ask for them.
use vstd::prelude::*;
use vstd::string::*;

use crate::alter::{
    alter_index_options, alter_object_rename, first_unrecognized, renamed_to, window_parameter,
};
use crate::ast::{
    AlterIndexOptionsList, AlterIndexOptionsStatement, AlterObjectRenameStatement,
    DropDatabaseStatement, DropObjectsStatement, ObjectType, SetVariableStatement,
    SetVariableValue, ShowVariableStatement, Statement,
};
use crate::catalog::{CatalogItemType, CatalogModel, PlanContext};
use crate::context::{item_of, schema_of};
use crate::drop::{
    blocks, drop_database, drop_objects, items_are_dropped_where_they_may_be, may_be_dropped,
};
use crate::engine::{ParamsView, Replies, StepView};
use crate::error::{ErrorKind, ErrorView};
use crate::external::{duration_of, same_but_for_case, small_letter};
use crate::names::{FullNameView, ObjectName};
use crate::plan::{LogicalCompactionWindow, PlanView};
use crate::statement::plan_of;
use crate::value::{settings, SqlOption, Value, ValueView};
use crate::variable::{set_variable, show_variable};

verus! {

// Drops.

/// A database that is found is dropped. One that is not is an error, unless the
/// statement says `IF EXISTS`: then no database is dropped.
pub proof fn databases_are_dropped_where_found(catalog: CatalogModel, stmt: DropDatabaseStatement)
    ensures
        match (catalog.databases)(stmt.name.value@) {
            Ok(_) => drop_database(catalog, stmt) matches Ok(plan) && plan is DropDatabase
                && plan->DropDatabase_name == stmt.name.value@,
            Err(e) => if stmt.if_exists {
                drop_database(catalog, stmt) matches Ok(plan) && plan is DropDatabase
                    && plan->DropDatabase_name.len() == 0
            } else {
                drop_database(catalog, stmt) == Err::<PlanView, ErrorView>(e)
            },
        },
{
}

/// The schema of a name is dropped where it is in a named database, and is empty
/// or is to be dropped with what is in it. Where there is none, that is an error,
/// unless the statement says `IF EXISTS`: then no schema of a named database is
/// dropped.
pub proof fn schemas_are_dropped_where_they_may_be(
    catalog: CatalogModel,
    stmt: DropObjectsStatement,
)
    requires
        stmt.object_type == ObjectType::Schema,
    ensures
        stmt.names@.len() != 1 ==> (drop_objects(catalog, stmt) matches Err(e) && e.kind
            == ErrorKind::Unsupported),
        stmt.names@.len() == 1 ==> match schema_of(catalog, stmt.names@[0]) {
            Ok((Some(database), schema)) => if stmt.cascade || (catalog.contents)(
                Some(database),
                schema.name,
            ).len() == 0 {
                drop_objects(catalog, stmt) matches Ok(plan) && plan is DropSchema
                    && plan->DropSchema_database_name == Some(database)
                    && plan->DropSchema_schema_name == schema.name
            } else {
                drop_objects(catalog, stmt) matches Err(e) && e.kind == ErrorKind::Invalid
            },
            Ok((None, _)) => drop_objects(catalog, stmt) matches Err(e) && e.kind
                == ErrorKind::Invalid,
            Err(e) => if stmt.if_exists {
                drop_objects(catalog, stmt) matches Ok(plan) && plan is DropSchema
                    && plan->DropSchema_database_name is None && plan->DropSchema_schema_name
                    == "noexist"@
            } else {
                drop_objects(catalog, stmt) == Err::<PlanView, ErrorView>(e)
            },
        },
{
}

/// Whether an item of this type is what a statement calls it by. A source may be
/// called a table.
pub open spec fn is_called(item_type: CatalogItemType, named: ObjectType) -> bool {
    ||| item_type == CatalogItemType::Table && named == ObjectType::Table
    ||| item_type == CatalogItemType::Source && named == ObjectType::Source
    ||| item_type == CatalogItemType::Source && named == ObjectType::Table
    ||| item_type == CatalogItemType::View && named == ObjectType::View
    ||| item_type == CatalogItemType::Sink && named == ObjectType::Sink
    ||| item_type == CatalogItemType::Index && named == ObjectType::Index
}

/// Whether the item of a name is dropped by a statement like this one: it is not
/// the system's, it is what the statement calls it, and nothing but indexes depend
/// on it, or what depends on it is dropped as well.
pub open spec fn is_droppable(
    catalog: CatalogModel,
    stmt: DropObjectsStatement,
    name: FullNameView,
) -> bool {
    let item = catalog.items[name];
    &&& item.id is User
    &&& is_called(item.item_type, stmt.object_type)
    &&& stmt.cascade || forall|i: int|
        0 <= i < item.used_by@.len()
            ==> catalog.items_by_id[#[trigger] item.used_by@[i]].item_type == CatalogItemType::Index
}

proof fn droppable_items_are_dropped(
    catalog: CatalogModel,
    stmt: DropObjectsStatement,
    name: FullNameView,
)
    ensures
        may_be_dropped(catalog, stmt.object_type, name, stmt.cascade) <==> is_droppable(
            catalog,
            stmt,
            name,
        ),
{
    let used_by = catalog.items[name].used_by@;
    if may_be_dropped(catalog, stmt.object_type, name, stmt.cascade) && !stmt.cascade {
        assert forall|i: int| 0 <= i < used_by.len() implies catalog.items_by_id[#[trigger] used_by[i]].item_type
            == CatalogItemType::Index by {
            assert(!blocks(catalog, used_by[i]));
        }
    }
}

/// Items are dropped one after the other, in the order of the statement. For a
/// statement of no names nothing is. With one more name its item is dropped too,
/// where it may be; where it may not be, or is not found, the statement is
/// refused, but with `IF EXISTS` a name that is not found changes nothing. What is
/// refused for the names before stays refused.
pub proof fn items_are_dropped_in_turn(
    catalog: CatalogModel,
    stmt: DropObjectsStatement,
    before: DropObjectsStatement,
)
    requires
        stmt.object_type != ObjectType::Schema,
        stmt.names@.len() > 0,
        before.names@ == stmt.names@.drop_last(),
        before.object_type == stmt.object_type,
        before.if_exists == stmt.if_exists,
        before.cascade == stmt.cascade,
    ensures
        before.names@.len() == 0 ==> (drop_objects(catalog, before) matches Ok(plan) && plan
            is DropItems && plan->items.len() == 0 && plan->ty == stmt.object_type),
        match drop_objects(catalog, before) {
            Err(e) => drop_objects(catalog, stmt) == Err::<PlanView, ErrorView>(e),
            Ok(others) => {
                &&& others is DropItems
                &&& match item_of(catalog, stmt.names@[stmt.names@.len() - 1]) {
                    Ok(name) => if is_droppable(catalog, stmt, name) {
                        &&& drop_objects(catalog, stmt) matches Ok(plan)
                        &&& plan is DropItems
                        &&& plan->ty == stmt.object_type
                        &&& plan->items == others->items.push(catalog.items[name].id)
                    } else {
                        drop_objects(catalog, stmt) matches Err(e) && e.kind == ErrorKind::Invalid
                    },
                    Err(e) => if stmt.if_exists {
                        drop_objects(catalog, stmt) == drop_objects(catalog, before)
                    } else {
                        drop_objects(catalog, stmt) == Err::<PlanView, ErrorView>(e)
                    },
                }
            },
        },
{
    assert(stmt.names@.last() == stmt.names@[stmt.names@.len() - 1]);
    if let Ok(name) = item_of(catalog, stmt.names@.last()) {
        droppable_items_are_dropped(catalog, stmt, name);
        items_are_dropped_where_they_may_be(catalog, stmt.object_type, name, stmt.cascade);
    }
}

// Renames.

/// An item that is found is renamed to the name of the statement where it is what
/// the statement calls it and nothing stands under the new name beside it. One
/// that is not found is an error, unless the statement says `IF EXISTS`: then
/// nothing is renamed.
pub proof fn items_are_renamed_where_they_may_be(
    catalog: CatalogModel,
    stmt: AlterObjectRenameStatement,
    new_name: ObjectName,
)
    requires
        stmt.name.0@.len() > 0,
        new_name.0@.len() == stmt.name.0@.len(),
        forall|i: int| 0 <= i < stmt.name.0@.len() - 1 ==> new_name.0@[i] == stmt.name.0@[i],
        new_name.0@[new_name.0@.len() - 1] == stmt.to_item_name,
    ensures
        match item_of(catalog, stmt.name) {
            Ok(name) => if is_called(catalog.items[name].item_type, stmt.object_type) && item_of(
                catalog,
                new_name,
            ) is Err {
                &&& alter_object_rename(catalog, stmt) matches Ok(plan)
                &&& plan is AlterItemRename
                &&& plan->AlterItemRename_id == Some(catalog.items[name].id)
                &&& plan->AlterItemRename_to_name == stmt.to_item_name.value@
                &&& plan->AlterItemRename_object_type == stmt.object_type
            } else {
                alter_object_rename(catalog, stmt) matches Err(e) && e.kind == ErrorKind::Invalid
            },
            Err(e) => if stmt.if_exists {
                &&& alter_object_rename(catalog, stmt) matches Ok(plan)
                &&& plan is AlterItemRename
                &&& plan->AlterItemRename_id is None
                &&& plan->AlterItemRename_to_name == stmt.to_item_name.value@
                &&& plan->AlterItemRename_object_type == stmt.object_type
            } else {
                alter_object_rename(catalog, stmt) == Err::<PlanView, ErrorView>(e)
            },
        },
{
    assert(new_name.0@ =~= stmt.name.0@.drop_last().push(stmt.to_item_name));
    assert(renamed_to(new_name, stmt.name, stmt.to_item_name));
    assert forall|other: ObjectName|
        renamed_to(other, stmt.name, stmt.to_item_name) implies #[trigger] item_of(catalog, other)
        is Ok == item_of(catalog, new_name) is Ok by {
        assert(other.parts() =~= new_name.parts());
    }
}

// Settings of indexes.

/// Whether this is how a statement leaves the compaction window of an index:
/// nothing where it does not speak of it.
pub open spec fn leaves_window(
    options: AlterIndexOptionsList,
    window: Option<LogicalCompactionWindow>,
) -> bool {
    match options {
        AlterIndexOptionsList::Reset(names) => match window {
            Some(window) => window is Default && exists|i: int|
                0 <= i < names@.len() && (#[trigger] names@[i]).value@
                    == "logical_compaction_window"@,
            None => forall|i: int|
                0 <= i < names@.len() ==> (#[trigger] names@[i]).value@
                    != "logical_compaction_window"@,
        },
        AlterIndexOptionsList::Change(list) => {
            let options = settings(list@);
            &&& forall|i: int|
                0 <= i < list@.len() ==> (#[trigger] list@[i]).name.value@
                    == "logical_compaction_window"@
            &&& match window {
                None => list@.len() == 0,
                Some(LogicalCompactionWindow::Off) => options["logical_compaction_window"@]
                    == ValueView::String("off"@),
                Some(LogicalCompactionWindow::Custom(duration)) => {
                    &&& options["logical_compaction_window"@] is String
                    &&& options["logical_compaction_window"@]->String_0 != "off"@
                    &&& duration_of(options["logical_compaction_window"@]->String_0) == Ok::<
                        (u64, u32),
                        Seq<char>,
                    >((duration.secs, duration.nanos))
                },
                Some(LogicalCompactionWindow::Default) => false,
            }
        },
    }
}

proof fn recognized_parameters_are_windows(list: Seq<SqlOption>)
    ensures
        first_unrecognized(list) is None <==> forall|i: int|
            0 <= i < list.len() ==> (#[trigger] list[i]).name.value@ == "logical_compaction_window"@,
    decreases list.len(),
{
    if list.len() > 0 {
        let rest = list.skip(1);
        recognized_parameters_are_windows(rest);
        if list[0].name.value@ == window_parameter() {
            if first_unrecognized(list) is None {
                assert forall|i: int| 0 <= i < list.len() implies (#[trigger] list[i]).name.value@
                    == "logical_compaction_window"@ by {
                    if i > 0 {
                        assert(rest[i - 1].name.value@ == "logical_compaction_window"@);
                    }
                }
            } else if forall|i: int|
                0 <= i < list.len() ==> (#[trigger] list[i]).name.value@
                    == "logical_compaction_window"@ {
                assert forall|i: int| 0 <= i < rest.len() implies (#[trigger] rest[i]).name.value@
                    == "logical_compaction_window"@ by {
                    assert(rest[i] == list[i + 1]);
                }
            }
        }
    }
}

/// The compaction window of an index that is found is left as the statement says:
/// given its default back, switched off, or set to a duration. What is not an
/// index is refused. One that is not found is an error, unless the statement says
/// `IF EXISTS`: then nothing is changed.
pub proof fn windows_are_as_stated(catalog: CatalogModel, stmt: AlterIndexOptionsStatement)
    ensures
        match item_of(catalog, stmt.index_name) {
            Ok(name) => {
                let item = catalog.items[name];
                &&& item.item_type != CatalogItemType::Index ==> (alter_index_options(
                    catalog,
                    stmt,
                ) matches Err(e) && e.kind == ErrorKind::Invalid)
                &&& alter_index_options(catalog, stmt) matches Ok(plan) ==> match plan {
                    PlanView::AlterIndexLogicalCompactionWindow(Some(change)) => change.index
                        == item.id && leaves_window(
                        stmt.options,
                        Some(change.logical_compaction_window),
                    ),
                    PlanView::AlterIndexLogicalCompactionWindow(None) => leaves_window(
                        stmt.options,
                        None,
                    ),
                    _ => false,
                }
            },
            Err(e) => if stmt.if_exists {
                alter_index_options(catalog, stmt) == Ok::<PlanView, ErrorView>(
                    PlanView::AlterIndexLogicalCompactionWindow(None),
                )
            } else {
                alter_index_options(catalog, stmt) == Err::<PlanView, ErrorView>(e)
            },
        },
{
    if let AlterIndexOptionsList::Change(list) = stmt.options {
        recognized_parameters_are_windows(list@);
        if first_unrecognized(list@) is None {
            window_is_set_where_named(list@);
        }
    }
}

proof fn window_is_set_where_named(list: Seq<SqlOption>)
    requires
        forall|i: int|
            0 <= i < list.len() ==> (#[trigger] list[i]).name.value@ == "logical_compaction_window"@,
    ensures
        settings(list).contains_key("logical_compaction_window"@) <==> list.len() > 0,
{
    if list.len() > 0 {
        assert(list.last() == list[list.len() - 1]);
    }
}

/// The compaction window of an index is changed wherever the statement speaks of
/// nothing else and says of it what makes sense: resetting it always does, and
/// setting it does to `off` and to any duration.
pub proof fn sensible_windows_are_planned(
    catalog: CatalogModel,
    stmt: AlterIndexOptionsStatement,
    name: FullNameView,
    window: Option<LogicalCompactionWindow>,
)
    requires
        item_of(catalog, stmt.index_name) == Ok::<FullNameView, ErrorView>(name),
        catalog.items[name].item_type == CatalogItemType::Index,
        leaves_window(stmt.options, window),
    ensures
        alter_index_options(catalog, stmt) is Ok,
{
    if let AlterIndexOptionsList::Change(list) = stmt.options {
        recognized_parameters_are_windows(list@);
        window_is_set_where_named(list@);
    }
}

// Variables.

/// Setting a variable gives it the text of the statement: that of a string or of
/// an identifier as it is, and any other literal as it is written. `SET LOCAL` is
/// refused.
pub proof fn variables_are_set_as_stated(stmt: SetVariableStatement)
    ensures
        stmt.local ==> (set_variable(stmt) matches Err(e) && e.kind == ErrorKind::Unsupported),
        !stmt.local ==> (set_variable(stmt) matches Ok(plan) && {
            &&& plan is SetVariable
            &&& plan->SetVariable_name == stmt.variable.sql@
            &&& plan->SetVariable_value == match stmt.value {
                SetVariableValue::Ident(ident) => ident.value@,
                SetVariableValue::Literal(Value::String(text)) => text@,
                SetVariableValue::Literal(Value::Number(text)) => text@,
                SetVariableValue::Literal(Value::Other(text)) => text@,
                SetVariableValue::Literal(Value::Boolean(true)) => "true"@,
                SetVariableValue::Literal(Value::Boolean(false)) => "false"@,
            }
        }),
{
}

/// Whether a text is the word `all`, whatever the case of its letters.
pub open spec fn is_word_all(text: Seq<char>) -> bool {
    &&& text.len() == 3
    &&& text[0] == 'a' || text[0] == 'A'
    &&& text[1] == 'l' || text[1] == 'L'
    &&& text[2] == 'l' || text[2] == 'L'
}

/// All variables are shown for the word `all`, and for any other word the variable
/// of that name.
pub proof fn variables_are_shown_as_stated(stmt: ShowVariableStatement)
    ensures
        is_word_all(stmt.variable.value@) ==> show_variable(stmt) is ShowAllVariables,
        !is_word_all(stmt.variable.value@) ==> show_variable(stmt) == PlanView::ShowVariable(
            stmt.variable.sql@,
        ),
{
    let text = stmt.variable.value@;
    reveal_strlit("ALL");
    let all = "ALL"@;
    assert(all.len() == 3 && all[0] == 'A' && all[1] == 'L' && all[2] == 'L');
    if same_but_for_case(text, all) {
        assert(small_letter(text[0]) == small_letter(all[0]));
        assert(small_letter(text[1]) == small_letter(all[1]));
        assert(small_letter(text[2]) == small_letter(all[2]));
        small_letters(text[0], 'a', 'A');
        small_letters(text[1], 'l', 'L');
        small_letters(text[2], 'l', 'L');
    } else if is_word_all(text) {
        assert(small_letter('A') == 'a' && small_letter('L') == 'l');
        assert(small_letter('a') == 'a' && small_letter('l') == 'l');
    }
}

proof fn small_letters(c: char, small: char, capital: char)
    requires
        small == 'a' && capital == 'A' || small == 'l' && capital == 'L',
    ensures
        small_letter(c) == small_letter(capital) ==> c == small || c == capital,
{
    if 'A' <= c && c <= 'Z' {
        assert(small_letter(c) as u32 == c as u32 + 32);
        assert(small_letter(capital) as u32 == capital as u32 + 32);
    } else {
        assert(small_letter(capital) as u32 == capital as u32 + 32);
    }
}

// Transactions, and what is refused.

/// Transactions are started, committed and rolled back as stated; the statements
/// that change rows in place, copy them or set up transactions are refused.
pub proof fn transactions_are_as_stated(
    catalog: CatalogModel,
    pcx: PlanContext,
    params: ParamsView,
    replies: Replies,
)
    ensures
        plan_of(catalog, pcx, Statement::StartTransaction, params, replies) == StepView::Done(
            Ok(PlanView::StartTransaction),
        ),
        plan_of(catalog, pcx, Statement::Commit, params, replies) == StepView::Done(
            Ok(PlanView::CommitTransaction),
        ),
        plan_of(catalog, pcx, Statement::Rollback, params, replies) == StepView::Done(
            Ok(PlanView::AbortTransaction),
        ),
        plan_of(catalog, pcx, Statement::Update, params, replies) matches StepView::Done(Err(_)),
        plan_of(catalog, pcx, Statement::Delete, params, replies) matches StepView::Done(Err(_)),
        plan_of(catalog, pcx, Statement::Copy, params, replies) matches StepView::Done(Err(_)),
        plan_of(catalog, pcx, Statement::SetTransaction, params, replies) matches StepView::Done(
            Err(_),
        ),
{
}

} // verus!
