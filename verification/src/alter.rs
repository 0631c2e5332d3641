//! Planning of `ALTER`.
use vstd::prelude::*;
use vstd::string::*;

use crate::ast::{
    object_type_text, AlterIndexOptionsList, AlterIndexOptionsStatement,
    AlterObjectRenameStatement,
};
use crate::catalog::{item_type_text, type_matches, Catalog, CatalogItemType, CatalogModel};
use crate::context::{item_of, StatementContext};
use crate::error::{invalid, viewed, ErrorKind, ErrorView, PlanError};
use crate::external::{duration_of, parse_duration, Duration};
use crate::names::{clone_idents, Ident, ObjectName};
use crate::normalize;
use crate::plan::{
    AlterIndexLogicalCompactionWindow, LogicalCompactionWindow, Plan, PlanView,
};
use crate::text::text_eq;
use crate::value::{setting, settings, SqlOption, Value, ValueView};

verus! {

// Renaming.

/// Whether a name differs from another at most in the last component, which is
/// that of an identifier.
pub open spec fn renamed_to(name: ObjectName, from: ObjectName, last: Ident) -> bool {
    name.0@ == from.0@.drop_last().push(last)
}

/// Whether an item would have the name of another one if it were renamed.
pub open spec fn new_name_is_taken(catalog: CatalogModel, from: ObjectName, to: Ident) -> bool {
    exists|name: ObjectName|
        renamed_to(name, from, to) && (#[trigger] item_of(catalog, name)) is Ok
}

/// The plan for `ALTER ... RENAME`.
pub open spec fn alter_object_rename(
    catalog: CatalogModel,
    stmt: AlterObjectRenameStatement,
) -> Result<PlanView, ErrorView> {
    match item_of(catalog, stmt.name) {
        Ok(from_name) => {
            let entry = catalog.items[from_name];
            if !type_matches(entry.item_type, stmt.object_type) {
                Err(
                    invalid(
                        stmt.name.sql() + " is a "@ + item_type_text(entry.item_type) + " not a "@
                            + object_type_text(stmt.object_type),
                    ),
                )
            } else if new_name_is_taken(catalog, stmt.name, stmt.to_item_name) {
                Err(
                    invalid(stmt.to_item_name.sql@ + " is already taken by item in schema"@),
                )
            } else {
                Ok(
                    PlanView::AlterItemRename {
                        id: Some(entry.id),
                        to_name: stmt.to_item_name.value@,
                        object_type: stmt.object_type,
                    },
                )
            }
        },
        Err(e) => if stmt.if_exists {
            Ok(
                PlanView::AlterItemRename {
                    id: None,
                    to_name: stmt.to_item_name.value@,
                    object_type: stmt.object_type,
                },
            )
        } else {
            Err(e)
        },
    }
}

/// Names with the same components stand for the same item.
proof fn same_components_same_item(catalog: CatalogModel, a: ObjectName, b: ObjectName)
    requires
        a.0@ == b.0@,
    ensures
        item_of(catalog, a) == item_of(catalog, b),
{
}

/// Plans `ALTER ... RENAME`.
pub fn handle_alter_object_rename<C: Catalog>(
    scx: &StatementContext<C>,
    stmt: &AlterObjectRenameStatement,
) -> (r: Result<Plan, PlanError>)
    ensures
        viewed(r) == alter_object_rename(scx.catalog.model(), *stmt),
{
    let id = match scx.resolve_item(stmt.name.clone()) {
        Ok(from_name) => {
            let entry = scx.catalog.get_item(&from_name);
            if entry.item_type != stmt.object_type {
                return Err(
                    PlanError::invalid(
                        stmt.name.to_sql().concat(" is a ").concat(
                            entry.item_type.to_text(),
                        ).concat(" not a ").concat(stmt.object_type.to_text()),
                    ),
                );
            }
            let mut parts = clone_idents(&stmt.name.0);
            let _ = parts.pop();
            parts.push(stmt.to_item_name.clone());
            let proposed_name = ObjectName(parts);
            let ghost proposed = proposed_name;
            let taken = scx.resolve_item(proposed_name).is_ok();
            proof {
                assert(renamed_to(proposed, stmt.name, stmt.to_item_name));
                assert forall|name: ObjectName| renamed_to(name, stmt.name, stmt.to_item_name) implies (
                #[trigger] item_of(scx.catalog.model(), name)) == item_of(
                    scx.catalog.model(),
                    proposed,
                ) by {
                    same_components_same_item(scx.catalog.model(), name, proposed);
                }
            }
            if taken {
                return Err(
                    PlanError::invalid(
                        stmt.to_item_name.sql.clone().concat(" is already taken by item in schema"),
                    ),
                );
            }
            Some(entry.id)
        },
        Err(e) => {
            if !stmt.if_exists {
                return Err(e);
            }
            None
        },
    };
    Ok(
        Plan::AlterItemRename {
            id,
            to_name: normalize::ident(stmt.to_item_name.clone()),
            object_type: stmt.object_type,
        },
    )
}

/// An item is renamed only if it is of the type that the statement says, and
/// never to a name that an item has.
pub proof fn items_are_renamed_to_free_names(
    catalog: CatalogModel,
    stmt: AlterObjectRenameStatement,
    new_name: ObjectName,
)
    requires
        renamed_to(new_name, stmt.name, stmt.to_item_name),
        alter_object_rename(catalog, stmt) is Ok,
        alter_object_rename(catalog, stmt)->Ok_0->AlterItemRename_id is Some,
    ensures
        item_of(catalog, stmt.name) is Ok,
        type_matches(catalog.items[item_of(catalog, stmt.name)->Ok_0].item_type, stmt.object_type),
        item_of(catalog, new_name) is Err,
{
    if item_of(catalog, new_name) is Ok {
        assert(new_name_is_taken(catalog, stmt.name, stmt.to_item_name));
    }
}

// Options of indexes.

/// The name of the one parameter that indexes have.
pub open spec fn window_parameter() -> Seq<char> {
    "logical_compaction_window"@
}

/// Whether an identifier is among others.
pub open spec fn names_window(list: Seq<Ident>) -> bool {
    exists|i: int| 0 <= i < list.len() && (#[trigger] list[i]).value@ == window_parameter()
}

fn has_window(list: &Vec<Ident>) -> (r: bool)
    ensures
        r == names_window(list@),
{
    let mut i: usize = 0;
    while i < list.len()
        invariant
            i <= list.len(),
            forall|k: int| 0 <= k < i ==> (#[trigger] list@[k]).value@ != window_parameter(),
        decreases list.len() - i,
    {
        if text_eq(list[i].value.as_str(), "logical_compaction_window") {
            return true;
        }
        i = i + 1;
    }
    false
}

/// The compaction window of a duration, if the text of it is one.
pub open spec fn custom_window(parsed: Result<(u64, u32), Seq<char>>) -> Result<
    LogicalCompactionWindow,
    ErrorView,
> {
    match parsed {
        Ok((secs, nanos)) => Ok(LogicalCompactionWindow::Custom(Duration { secs, nanos })),
        Err(message) => Err(ErrorView { kind: ErrorKind::Duration, text: message }),
    }
}

/// The compaction window of a duration, if the text of it is one.
pub fn make_custom_window(parsed: Result<Duration, String>) -> (r: Result<
    LogicalCompactionWindow,
    PlanError,
>)
    ensures
        match (parsed, r) {
            (Ok(duration), Ok(window)) => custom_window(Ok((duration.secs, duration.nanos)))
                == Ok::<LogicalCompactionWindow, ErrorView>(window),
            (Err(message), Err(e)) => custom_window(Err(message@)) == Err::<
                LogicalCompactionWindow,
                ErrorView,
            >(e@),
            _ => false,
        },
{
    match parsed {
        Ok(duration) => Ok(LogicalCompactionWindow::Custom(duration)),
        Err(text) => Err(PlanError { kind: ErrorKind::Duration, text }),
    }
}

/// The compaction window that options set, if they do.
pub open spec fn window_setting(options: Map<Seq<char>, ValueView>) -> Result<
    Option<LogicalCompactionWindow>,
    ErrorView,
> {
    if !options.contains_key(window_parameter()) {
        Ok(None)
    } else {
        match options[window_parameter()] {
            ValueView::String(text) => if text == "off"@ {
                Ok(Some(LogicalCompactionWindow::Off))
            } else {
                match custom_window(duration_of(text)) {
                    Ok(window) => Ok(Some(window)),
                    Err(e) => Err(e),
                }
            },
            _ => Err(invalid("\"logical_compaction_window\" must be a string"@)),
        }
    }
}

fn read_window(list: &Vec<SqlOption>) -> (r: Result<Option<LogicalCompactionWindow>, PlanError>)
    ensures
        match r {
            Ok(window) => window_setting(settings(list@)) == Ok::<
                Option<LogicalCompactionWindow>,
                ErrorView,
            >(window),
            Err(e) => window_setting(settings(list@)) == Err::<
                Option<LogicalCompactionWindow>,
                ErrorView,
            >(e@),
        },
{
    match setting(list, "logical_compaction_window") {
        None => Ok(None),
        Some(Value::String(text)) => {
            if text_eq(text.as_str(), "off") {
                return Ok(Some(LogicalCompactionWindow::Off));
            }
            match make_custom_window(parse_duration(text.as_str())) {
                Ok(window) => Ok(Some(window)),
                Err(e) => Err(e),
            }
        },
        Some(_) => Err(
            PlanError::invalid("\"logical_compaction_window\" must be a string".to_owned()),
        ),
    }
}

/// The name of the first option that sets another parameter than the window.
pub open spec fn first_unrecognized(list: Seq<SqlOption>) -> Option<Seq<char>>
    decreases list.len(),
{
    if list.len() == 0 {
        None
    } else if list[0].name.value@ != window_parameter() {
        Some(list[0].name.value@)
    } else {
        first_unrecognized(list.skip(1))
    }
}

fn find_unrecognized(list: &Vec<SqlOption>) -> (name: Option<String>)
    ensures
        match name {
            Some(name) => first_unrecognized(list@) == Some(name@),
            None => first_unrecognized(list@) is None,
        },
{
    let mut i: usize = 0;
    assert(list@.skip(0) =~= list@);
    while i < list.len()
        invariant
            i <= list.len(),
            first_unrecognized(list@) == first_unrecognized(list@.skip(i as int)),
        decreases list.len() - i,
    {
        assert(list@.skip(i as int)[0] == list@[i as int]);
        assert(list@.skip(i as int).skip(1) =~= list@.skip(i + 1));
        if !text_eq(list[i].name.value.as_str(), "logical_compaction_window") {
            return Some(list[i].name.value.clone());
        }
        i = i + 1;
    }
    None
}

/// The change of the compaction window that a statement asks for. Resetting
/// passes over parameters that are not there; setting complains of them.
pub open spec fn window_change(options: AlterIndexOptionsList) -> Result<
    Option<LogicalCompactionWindow>,
    ErrorView,
> {
    match options {
        AlterIndexOptionsList::Reset(list) => if names_window(list@) {
            Ok(Some(LogicalCompactionWindow::Default))
        } else {
            Ok(None)
        },
        AlterIndexOptionsList::Change(list) => match window_setting(settings(list@)) {
            Err(e) => Err(e),
            Ok(window) => match first_unrecognized(list@) {
                Some(name) => Err(
                    invalid(
                        "unrecognized parameter: \""@ + name
                            + "\". Only \"logical_compaction_window\" is currently supported."@,
                    ),
                ),
                None => Ok(window),
            },
        },
    }
}

fn read_window_change(options: &AlterIndexOptionsList) -> (r: Result<
    Option<LogicalCompactionWindow>,
    PlanError,
>)
    ensures
        match r {
            Ok(window) => window_change(*options) == Ok::<
                Option<LogicalCompactionWindow>,
                ErrorView,
            >(window),
            Err(e) => window_change(*options) == Err::<Option<LogicalCompactionWindow>, ErrorView>(
                e@,
            ),
        },
{
    match options {
        AlterIndexOptionsList::Reset(list) => {
            if has_window(list) {
                Ok(Some(LogicalCompactionWindow::Default))
            } else {
                Ok(None)
            }
        },
        AlterIndexOptionsList::Change(list) => {
            let window = match read_window(list) {
                Ok(window) => window,
                Err(e) => {
                    return Err(e);
                },
            };
            match find_unrecognized(list) {
                Some(name) => Err(
                    PlanError::invalid(
                        "unrecognized parameter: \"".to_owned().concat(name.as_str()).concat(
                            "\". Only \"logical_compaction_window\" is currently supported.",
                        ),
                    ),
                ),
                None => Ok(window),
            }
        },
    }
}

/// The plan for `ALTER INDEX` of options.
pub open spec fn alter_index_options(
    catalog: CatalogModel,
    stmt: AlterIndexOptionsStatement,
) -> Result<PlanView, ErrorView> {
    match item_of(catalog, stmt.index_name) {
        Ok(name) => {
            let entry = catalog.items[name];
            if entry.item_type != CatalogItemType::Index {
                Err(
                    invalid(
                        name.shown() + " is a "@ + item_type_text(entry.item_type)
                            + " not a index"@,
                    ),
                )
            } else {
                match window_change(stmt.options) {
                    Err(e) => Err(e),
                    Ok(None) => Ok(PlanView::AlterIndexLogicalCompactionWindow(None)),
                    Ok(Some(logical_compaction_window)) => Ok(
                        PlanView::AlterIndexLogicalCompactionWindow(
                            Some(
                                AlterIndexLogicalCompactionWindow {
                                    index: entry.id,
                                    logical_compaction_window,
                                },
                            ),
                        ),
                    ),
                }
            }
        },
        Err(e) => if stmt.if_exists {
            Ok(PlanView::AlterIndexLogicalCompactionWindow(None))
        } else {
            Err(e)
        },
    }
}

/// Plans `ALTER INDEX` of options.
pub fn handle_alter_index_options<C: Catalog>(
    scx: &StatementContext<C>,
    stmt: &AlterIndexOptionsStatement,
) -> (r: Result<Plan, PlanError>)
    ensures
        viewed(r) == alter_index_options(scx.catalog.model(), *stmt),
{
    match scx.resolve_item(stmt.index_name.clone()) {
        Ok(name) => {
            let entry = scx.catalog.get_item(&name);
            if entry.item_type != CatalogItemType::Index {
                return Err(
                    PlanError::invalid(
                        name.to_text().concat(" is a ").concat(entry.item_type.to_text()).concat(
                            " not a index",
                        ),
                    ),
                );
            }
            match read_window_change(&stmt.options) {
                Err(e) => Err(e),
                Ok(None) => Ok(Plan::AlterIndexLogicalCompactionWindow(None)),
                Ok(Some(logical_compaction_window)) => Ok(
                    Plan::AlterIndexLogicalCompactionWindow(
                        Some(
                            AlterIndexLogicalCompactionWindow {
                                index: entry.id,
                                logical_compaction_window,
                            },
                        ),
                    ),
                ),
            }
        },
        Err(e) => {
            if stmt.if_exists {
                Ok(Plan::AlterIndexLogicalCompactionWindow(None))
            } else {
                Err(e)
            }
        },
    }
}

proof fn recognized_options_name_the_window(list: Seq<SqlOption>)
    ensures
        first_unrecognized(list) is None <==> forall|i: int|
            0 <= i < list.len() ==> (#[trigger] list[i]).name.value@ == window_parameter(),
    decreases list.len(),
{
    if list.len() > 0 {
        let rest = list.skip(1);
        recognized_options_name_the_window(rest);
        assert forall|i: int| 0 <= i < rest.len() implies rest[i] == #[trigger] list[i + 1] by {}
        if list[0].name.value@ == window_parameter() {
            assert forall|i: int|
                (forall|k: int|
                    0 <= k < rest.len() ==> (#[trigger] rest[k]).name.value@ == window_parameter())
                    && 0 <= i < list.len() implies (#[trigger] list[i]).name.value@
                == window_parameter() by {
                if i > 0 {
                    assert(rest[i - 1] == list[i]);
                }
            }
        }
    }
}

/// Resetting parameters never fails, whatever parameters are named. Setting
/// parameters fails where any other than the compaction window is among them.
pub proof fn only_setting_complains_of_parameters(options: AlterIndexOptionsList)
    ensures
        options is Reset ==> window_change(options) is Ok,
        options matches AlterIndexOptionsList::Change(list) ==> (window_change(options) is Ok
            ==> forall|i: int|
            0 <= i < list@.len() ==> (#[trigger] list@[i]).name.value@ == window_parameter()),
{
    if let AlterIndexOptionsList::Change(list) = options {
        recognized_options_name_the_window(list@);
    }
}

} // verus!
