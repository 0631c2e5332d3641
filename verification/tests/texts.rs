use sql_plan::ast::ObjectType;
use sql_plan::catalog::{CatalogItemType, GlobalId};
use sql_plan::columns::maybe_rename_columns;
use sql_plan::error::ErrorKind;
use sql_plan::names::{DatabaseSpecifier, FullName, Ident, ObjectName};
use sql_plan::normalize::object_name;
use sql_plan::number::{parse_i64, parse_u32, parse_u64, IntError};
use sql_plan::relation::{ColumnType, RelationDesc, RelationType, ScalarType};
use sql_plan::source::extract_timestamp_frequency_option;
use sql_plan::text::{
    i64_text, join, quote_literal, strip_prefix, text_eq, u64_text, usize_text,
};
use sql_plan::value::{clone_options, read_switch, read_text, setting, SqlOption, Value};

#[test]
fn numerals() {
    assert_eq!(u64_text(0), "0");
    assert_eq!(u64_text(u64::MAX), u64::MAX.to_string());
    assert_eq!(usize_text(1203), "1203");
    assert_eq!(i64_text(-1), "-1");
    assert_eq!(i64_text(i64::MIN), i64::MIN.to_string());
    assert_eq!(i64_text(i64::MAX), i64::MAX.to_string());
}

#[test]
fn integers_are_read_as_by_the_standard_library() {
    for s in vec![
        "", "0", "007", "+5", "-5", "+", "-", "4294967295", "4294967296", "18446744073709551615",
        "18446744073709551616", "9223372036854775807", "9223372036854775808",
        "-9223372036854775808", "-9223372036854775809", "1_000", " 1", "1 ", "1.5", "1e3", "\u{663}",
        "99999999999999999999999x", "-0",
    ] {
        match (parse_u32(s), s.parse::<u32>()) {
            (Ok(a), Ok(b)) => assert_eq!(a, b),
            (Err(a), Err(b)) => assert_eq!(a.message(), b.to_string(), "{}", s),
            (a, b) => panic!("{}: {:?} {:?}", s, a, b),
        }
        match (parse_u64(s), s.parse::<u64>()) {
            (Ok(a), Ok(b)) => assert_eq!(a, b),
            (Err(a), Err(b)) => assert_eq!(a.message(), b.to_string(), "{}", s),
            (a, b) => panic!("{}: {:?} {:?}", s, a, b),
        }
        match (parse_i64(s), s.parse::<i64>()) {
            (Ok(a), Ok(b)) => assert_eq!(a, b),
            (Err(a), Err(b)) => assert_eq!(a.message(), b.to_string(), "{}", s),
            (a, b) => panic!("{}: {:?} {:?}", s, a, b),
        }
    }
    assert!(matches!(parse_u32(""), Err(IntError::Empty)));
    assert!(matches!(parse_i64("-9223372036854775809"), Err(IntError::NegOverflow)));
}

#[test]
fn literals_double_their_quotes() {
    assert_eq!(quote_literal(""), "''");
    assert_eq!(quote_literal("a"), "'a'");
    assert_eq!(quote_literal("it's"), "'it''s'");
    assert_eq!(quote_literal("''"), "''''''");
}

#[test]
fn texts_are_taken_apart_and_put_together() {
    assert!(text_eq("a", "a"));
    assert!(!text_eq("a", "b"));
    assert_eq!(strip_prefix("stream/x", "stream/"), Some("x".to_string()));
    assert_eq!(strip_prefix("stream", "stream/"), None);
    assert_eq!(strip_prefix("stream/", "stream/"), Some("".to_string()));
    assert_eq!(strip_prefix("\u{e9}t\u{e9}", "\u{e9}"), Some("t\u{e9}".to_string()));
    let parts = vec!["a".to_string(), "".to_string(), "b".to_string()];
    assert_eq!(join(&parts, "_"), "a__b");
    assert_eq!(join(&vec![], "_"), "");
}

#[test]
fn names_are_shown() {
    let name = FullName {
        database: DatabaseSpecifier::Name("d".to_string()),
        schema: "s".to_string(),
        item: "i".to_string(),
    };
    assert_eq!(name.to_text(), "d.s.i");
    let ambient = FullName { database: DatabaseSpecifier::Ambient, ..name.clone() };
    assert_eq!(ambient.to_text(), "s.i");
    assert!(!ambient.same(&name));
    assert!(name.clone().same(&name));
    assert_eq!(DatabaseSpecifier::Ambient.to_text(), "<none>");
    assert_eq!(ambient.to_partial().database, None);
    assert_eq!(name.to_partial().schema, Some("s".to_string()));
}

#[test]
fn object_names_have_one_to_three_components() {
    let name = |n: usize| ObjectName((0..n).map(|i| Ident::new(&format!("p{}", i))).collect());
    let p = object_name(name(1)).unwrap();
    assert_eq!((p.database, p.schema, p.item), (None, None, "p0".to_string()));
    let p = object_name(name(3)).unwrap();
    assert_eq!(
        (p.database, p.schema, p.item),
        (Some("p0".to_string()), Some("p1".to_string()), "p2".to_string())
    );
    assert_eq!(object_name(name(0)).unwrap_err().kind, ErrorKind::MisqualifiedName);
    assert_eq!(object_name(name(4)).unwrap_err().text, "p0.p1.p2.p3");
}

#[test]
fn the_timestamp_frequency_is_taken_out() {
    let option = |name: &str, value| SqlOption { name: Ident::new(name), value };
    let number = |digits: &str| Value::Number(digits.to_string());
    let mut list = vec![
        option("timestamp_frequency_ms", number("x")),
        option("other", Value::Boolean(true)),
        option("timestamp_frequency_ms", number("2001")),
    ];
    let d = extract_timestamp_frequency_option(&mut list).unwrap();
    assert_eq!((d.secs, d.nanos), (2, 1_000_000));
    assert_eq!(list.len(), 1);
    assert_eq!(list[0].name.value, "other");
    let d = extract_timestamp_frequency_option(&mut list).unwrap();
    assert_eq!((d.secs, d.nanos), (1, 0));
    assert_eq!(list.len(), 1);
    // It is taken out even where it cannot be read.
    let mut list = vec![option("timestamp_frequency_ms", number("-1"))];
    let e = extract_timestamp_frequency_option(&mut list).unwrap_err();
    assert_eq!(e.text, "timestamp_frequency_ms must be an u64");
    assert!(list.is_empty());
}

fn option(name: &str, value: Value) -> SqlOption {
    SqlOption { name: Ident::new(name), value }
}

#[test]
fn the_last_of_equal_options_holds() {
    let list = vec![
        option("a", Value::Boolean(true)),
        option("b", Value::String("x".to_string())),
        option("a", Value::Boolean(false)),
    ];
    assert!(matches!(setting(&list, "a"), Some(Value::Boolean(false))));
    assert!(setting(&list, "c").is_none());
    assert_eq!(read_switch(&list, "a", "no").unwrap(), false);
    assert_eq!(read_switch(&list, "c", "no").unwrap(), false);
    assert_eq!(read_switch(&list, "b", "no").unwrap_err().text, "no");
    assert_eq!(read_text(&list, "b", "no").unwrap(), Some("x".to_string()));
    assert_eq!(read_text(&list, "c", "no").unwrap(), None);
    assert_eq!(read_text(&list, "a", "no").unwrap_err().text, "no");
    assert_eq!(clone_options(&list).len(), 3);
}

#[test]
fn literals_are_written() {
    assert_eq!(Value::Number("1.50".to_string()).to_sql(), "1.50");
    assert_eq!(Value::String("a'b".to_string()).to_sql(), "'a''b'");
    assert_eq!(Value::Boolean(false).to_sql(), "false");
    assert_eq!(Value::Other("NULL".to_string()).to_sql(), "NULL");
}

fn relation() -> RelationDesc {
    RelationDesc {
        typ: RelationType {
            column_types: vec![
                ColumnType { scalar_type: ScalarType::Bool, nullable: true },
                ColumnType { scalar_type: ScalarType::Int64, nullable: false },
            ],
            keys: vec![vec![1]],
        },
        names: vec![None, Some("b".to_string())],
    }
}

#[test]
fn renaming_keeps_types_and_keys() {
    let r = maybe_rename_columns("view v", relation(), &vec![]).unwrap();
    assert_eq!(r.names, vec![None, Some("b".to_string())]);
    let r = maybe_rename_columns("view v", relation(), &vec![Ident::new("x"), Ident::new("y")])
        .unwrap();
    assert_eq!(r.names, vec![Some("x".to_string()), Some("y".to_string())]);
    assert_eq!(r.typ.keys, vec![vec![1]]);
    assert_eq!(r.typ.column_types, relation().typ.column_types);
    let e = maybe_rename_columns("view v", relation(), &vec![Ident::new("x")]).unwrap_err();
    assert_eq!(e.kind, ErrorKind::Invalid);
    assert_eq!(e.text, "view v definition names 1 columns, but view v has 2 columns");
}

#[test]
fn relations_have_names_and_keys() {
    let r = relation();
    assert_eq!(r.arity(), 2);
    assert_eq!(r.default_key(), vec![1]);
    assert_eq!(r.clone().without_keys().default_key(), vec![0, 1]);
    assert_eq!(r.get_unambiguous_name(0), None);
    assert_eq!(r.get_unambiguous_name(1), Some("b".to_string()));
    let twice = r.with_column("b", ScalarType::Bool.nullable(false));
    assert_eq!(twice.get_unambiguous_name(1), None);
    assert_eq!(twice.arity(), 3);
    let mut empty_key = relation();
    empty_key.typ.keys = vec![vec![]];
    assert_eq!(empty_key.default_key(), vec![0, 1]);
}

#[test]
fn words_for_types() {
    assert_eq!(ObjectType::Index.to_text(), "INDEX");
    assert_eq!(CatalogItemType::Index.to_text(), "index");
    assert!(GlobalId::System(1).is_system());
    assert!(!GlobalId::User(1).is_system());
}
