//! What holds of names, options and texts, on which all planning rests.
use vstd::prelude::*;
use vstd::string::*;

use crate::catalog::CatalogModel;
use crate::context::{
    allocated_name, database_of, default_database, default_schema, item_of, schema_of,
    temporary_name,
};
use crate::error::{ErrorKind, ErrorView};
use crate::names::{database_text, FullNameView, ObjectName, PartialNameView, SchemaView};
use crate::text::{after_prefix, joined, literal};
use crate::value::{settings, SqlOption, ValueView};

verus! {

// Names.

/// An item is found by the last component of a name, and by the schema and the
/// database before it where they are given. A name has one to three components,
/// or is refused as it is written; what the catalog does not find is not found.
pub proof fn items_are_found_by_name(catalog: CatalogModel, name: ObjectName)
    ensures
        ({
            let parts = name.0@;
            if parts.len() == 1 {
                item_of(catalog, name) == (catalog.names)(
                    PartialNameView { database: None, schema: None, item: parts[0].value@ },
                )
            } else if parts.len() == 2 {
                item_of(catalog, name) == (catalog.names)(
                    PartialNameView {
                        database: None,
                        schema: Some(parts[0].value@),
                        item: parts[1].value@,
                    },
                )
            } else if parts.len() == 3 {
                item_of(catalog, name) == (catalog.names)(
                    PartialNameView {
                        database: Some(parts[0].value@),
                        schema: Some(parts[1].value@),
                        item: parts[2].value@,
                    },
                )
            } else {
                item_of(catalog, name) matches Err(e) && e.kind == ErrorKind::MisqualifiedName
                    && e.text == name.sql()
            }
        }),
{
}

/// A schema is found by the last component of a name, and by the database before
/// it where one is given. A name has no more than two components, or is refused as
/// it is written.
pub proof fn schemas_are_found_by_name(catalog: CatalogModel, name: ObjectName)
    requires
        name.0@.len() > 0,
    ensures
        ({
            let parts = name.0@;
            if parts.len() == 1 {
                schema_of(catalog, name) == (catalog.schemas)(None, parts[0].value@)
            } else if parts.len() == 2 {
                schema_of(catalog, name) == (catalog.schemas)(
                    Some(parts[0].value@),
                    parts[1].value@,
                )
            } else {
                schema_of(catalog, name) matches Err(e) && e.kind
                    == ErrorKind::OverqualifiedSchemaName && e.text == name.sql()
            }
        }),
{
}

/// A database is found by a name of one component, and is the one of that name.
/// Any other name is refused as it is written.
pub proof fn databases_are_found_by_name(catalog: CatalogModel, name: ObjectName)
    ensures
        if name.0@.len() == 1 {
            match (catalog.databases)(name.0@[0].value@) {
                Ok(_) => database_of(catalog, name) == Ok::<Seq<char>, ErrorView>(
                    name.0@[0].value@,
                ),
                Err(e) => database_of(catalog, name) == Err::<Seq<char>, ErrorView>(e),
            }
        } else {
            database_of(catalog, name) matches Err(e) && e.kind
                == ErrorKind::OverqualifiedDatabaseName && e.text == name.sql()
        },
{
}

/// Without a name, the database is the default one and the schema is the one that
/// the catalog finds under `public`.
pub proof fn defaults_are_found(catalog: CatalogModel)
    ensures
        match (catalog.databases)(catalog.default_database) {
            Ok(_) => default_database(catalog) == Ok::<Option<Seq<char>>, ErrorView>(
                Some(catalog.default_database),
            ),
            Err(e) => default_database(catalog) == Err::<Option<Seq<char>>, ErrorView>(e),
        },
        match (catalog.schemas)(None, "public"@) {
            Ok((_, schema)) => default_schema(catalog) == Ok::<SchemaView, ErrorView>(schema),
            Err(e) => default_schema(catalog) == Err::<SchemaView, ErrorView>(e),
        },
{
}

/// A new item is in the database and in the schema that its name says. Without
/// them it is in the default database, and in the schema `public`. A temporary one
/// is in no named database, and without a schema in `mz_temp`.
pub proof fn new_names_keep_what_is_given(catalog: CatalogModel, name: PartialNameView)
    ensures
        allocated_name(catalog, name).item == name.item,
        temporary_name(name).item == name.item,
        temporary_name(name).database is None,
        match name.database {
            Some(database) => allocated_name(catalog, name).database == Some(database),
            None => allocated_name(catalog, name).database == Some(catalog.default_database),
        },
        match name.schema {
            Some(schema) => allocated_name(catalog, name).schema == schema && temporary_name(
                name,
            ).schema == schema,
            None => allocated_name(catalog, name).schema == "public"@ && temporary_name(name).schema
                == "mz_temp"@,
        },
{
}

/// A full name is shown as its components with points between them; the database
/// that has no name is left out.
pub proof fn full_names_are_shown_by_component(name: FullNameView)
    ensures
        name.database matches Some(database) ==> name.shown() == joined(
            seq![database, name.schema, name.item],
            "."@,
        ),
        name.database is None ==> name.shown() == joined(seq![name.schema, name.item], "."@),
{
    let two = seq![name.schema, name.item];
    assert(two.drop_last() =~= seq![name.schema]);
    reveal_with_fuel(joined, 3);
    if let Some(database) = name.database {
        let three = seq![database, name.schema, name.item];
        assert(three.drop_last() =~= seq![database, name.schema]);
        assert(three.drop_last().drop_last() =~= seq![database]);
        assert(name.shown() =~= joined(three, "."@));
    } else {
        assert(name.shown() =~= joined(two, "."@));
    }
}

// Texts.

/// Joining puts the separator between parts, and nowhere else: one part is as it
/// is, and two lists of parts are joined by joining each.
pub proof fn joining_is_by_parts(a: Seq<Seq<char>>, b: Seq<Seq<char>>, separator: Seq<char>)
    ensures
        a.len() == 0 ==> joined(a, separator).len() == 0,
        a.len() == 1 ==> joined(a, separator) == a[0],
        a.len() > 0 && b.len() > 0 ==> joined(a + b, separator) == joined(a, separator) + separator
            + joined(b, separator),
    decreases b.len(),
{
    if a.len() > 0 && b.len() > 0 {
        assert((a + b).drop_last() =~= a + b.drop_last());
        assert((a + b).last() == b.last());
        if b.len() == 1 {
            assert(a + b.drop_last() =~= a);
        } else {
            joining_is_by_parts(a, b.drop_last(), separator);
            assert(joined(a + b, separator) =~= joined(a, separator) + separator + joined(
                b,
                separator,
            ));
        }
    }
}

/// What follows a prefix is what the text is made of it with.
pub proof fn prefixes_are_put_back(text: Seq<char>, prefix: Seq<char>, rest: Seq<char>)
    ensures
        after_prefix(text, prefix) == Some(rest) <==> text == prefix + rest,
        after_prefix(text, prefix) is None <==> !prefix.is_prefix_of(text),
{
    if after_prefix(text, prefix) == Some(rest) {
        assert(text =~= prefix + rest);
    }
    if text == prefix + rest {
        assert(prefix =~= text.take(prefix.len() as int));
        assert(rest =~= text.skip(prefix.len() as int));
    }
}

// Options.

/// An option is set where its name occurs, and to what it says where its name
/// occurs last.
pub proof fn later_options_hold(list: Seq<SqlOption>, name: Seq<char>)
    ensures
        settings(list).contains_key(name) <==> exists|i: int|
            0 <= i < list.len() && (#[trigger] list[i]).name.value@ == name,
        forall|i: int|
            0 <= i < list.len() && (#[trigger] list[i]).name.value@ == name && (forall|j: int|
                i < j < list.len() ==> (#[trigger] list[j]).name.value@ != name) ==> settings(
                list,
            )[name] == list[i].value@,
    decreases list.len(),
{
    if list.len() > 0 {
        let before = list.drop_last();
        later_options_hold(before, name);
        assert(list.last() == list[list.len() - 1]);
        if settings(list).contains_key(name) && list.last().name.value@ != name {
            let i = choose|i: int|
                0 <= i < before.len() && (#[trigger] before[i]).name.value@ == name;
            assert(list[i].name.value@ == name);
        }
        if exists|i: int| 0 <= i < list.len() && (#[trigger] list[i]).name.value@ == name {
            let i = choose|i: int| 0 <= i < list.len() && (#[trigger] list[i]).name.value@ == name;
            if i < before.len() {
                assert(before[i].name.value@ == name);
            }
        }
        assert forall|i: int|
            0 <= i < list.len() && (#[trigger] list[i]).name.value@ == name && (forall|j: int|
                i < j < list.len() ==> (#[trigger] list[j]).name.value@ != name) implies settings(
            list,
        )[name] == list[i].value@ by {
            if i < before.len() {
                assert(before[i] == list[i]);
                assert(list[list.len() - 1].name.value@ != name);
                assert forall|j: int| i < j < before.len() implies (#[trigger] before[j]).name.value@
                    != name by {
                    assert(list[j].name.value@ != name);
                }
            }
        }
    }
}

/// A literal is written as it stands; that of a string in quotes.
pub proof fn literals_are_written_as_they_stand(value: ValueView)
    ensures
        match value {
            ValueView::Number(text) => value.sql() == text,
            ValueView::Other(text) => value.sql() == text,
            ValueView::Boolean(on) => value.sql() == if on {
                "true"@
            } else {
                "false"@
            },
            ValueView::String(text) => value.sql() == literal(text),
        },
{
}

/// A database is shown by its name; the one that has none is shown as such.
pub proof fn databases_are_shown_by_name(database: Option<Seq<char>>)
    ensures
        match database {
            Some(name) => database_text(database) == name,
            None => database_text(database) == "<none>"@,
        },
{
}

} // verus!
