//! Literals, and the options that a statement gives after `WITH`.
use vstd::prelude::*;
use vstd::string::*;

use crate::error::{invalid, viewed, ErrorView, PlanError};
use crate::names::{text_option, Ident};
use crate::text::{literal, quote_literal, text_eq};

verus! {

/// A literal of a statement.
#[derive(Debug)]
pub enum Value {
    /// A number, as it is written.
    Number(String),
    /// A string, without its quotes.
    String(String),
    Boolean(bool),
    /// Any other literal, as it is written.
    Other(String),
}

/// The contents of a [`Value`].
#[verifier::ext_equal]
pub enum ValueView {
    Number(Seq<char>),
    String(Seq<char>),
    Boolean(bool),
    Other(Seq<char>),
}

impl View for Value {
    type V = ValueView;

    open spec fn view(&self) -> ValueView {
        match self {
            Value::Number(text) => ValueView::Number(text@),
            Value::String(text) => ValueView::String(text@),
            Value::Boolean(b) => ValueView::Boolean(*b),
            Value::Other(text) => ValueView::Other(text@),
        }
    }
}

impl Clone for Value {
    fn clone(&self) -> (copy: Value)
        ensures
            copy@ == self@,
    {
        match self {
            Value::Number(text) => Value::Number(text.clone()),
            Value::String(text) => Value::String(text.clone()),
            Value::Boolean(b) => Value::Boolean(*b),
            Value::Other(text) => Value::Other(text.clone()),
        }
    }
}

impl ValueView {
    /// How the literal is written in SQL.
    pub open spec fn sql(self) -> Seq<char> {
        match self {
            ValueView::Number(text) => text,
            ValueView::String(text) => literal(text),
            ValueView::Boolean(b) => if b {
                "true"@
            } else {
                "false"@
            },
            ValueView::Other(text) => text,
        }
    }
}

impl Value {
    /// How the literal is written in SQL.
    pub fn to_sql(&self) -> (text: String)
        ensures
            text@ == self@.sql(),
    {
        match self {
            Value::Number(text) => text.clone(),
            Value::String(text) => quote_literal(text.as_str()),
            Value::Boolean(b) => if *b {
                "true".to_owned()
            } else {
                "false".to_owned()
            },
            Value::Other(text) => text.clone(),
        }
    }
}

/// An option `name = value`.
#[derive(Debug)]
pub struct SqlOption {
    pub name: Ident,
    pub value: Value,
}

/// What a list of options sets: where a name occurs twice, the later one holds.
pub open spec fn settings(list: Seq<SqlOption>) -> Map<Seq<char>, ValueView>
    decreases list.len(),
{
    if list.len() == 0 {
        Map::empty()
    } else {
        settings(list.drop_last()).insert(list.last().name.value@, list.last().value@)
    }
}

/// Copies a list of options.
pub fn clone_options(list: &Vec<SqlOption>) -> (copy: Vec<SqlOption>)
    ensures
        settings(copy@) == settings(list@),
{
    let mut copy: Vec<SqlOption> = Vec::new();
    let mut i: usize = 0;
    while i < list.len()
        invariant
            i <= list.len(),
            settings(copy@) == settings(list@.take(i as int)),
        decreases list.len() - i,
    {
        let ghost before = copy@;
        copy.push(SqlOption { name: list[i].name.clone(), value: list[i].value.clone() });
        i = i + 1;
        assert(copy@.drop_last() =~= before);
        assert(list@.take(i as int).drop_last() =~= list@.take(i - 1));
    }
    assert(list@.take(i as int) =~= list@);
    copy
}

/// The value that a list of options gives to a name.
pub fn setting(list: &Vec<SqlOption>, name: &str) -> (value: Option<Value>)
    ensures
        match value {
            Some(v) => settings(list@).contains_key(name@) && v@ == settings(list@)[name@],
            None => !settings(list@).contains_key(name@),
        },
{
    let mut i: usize = list.len();
    assert(list@.take(i as int) =~= list@);
    while i > 0
        invariant
            i <= list.len(),
            settings(list@.take(i as int)).contains_key(name@) == settings(list@).contains_key(
                name@,
            ),
            settings(list@.take(i as int)).contains_key(name@) ==> settings(
                list@.take(i as int),
            )[name@] == settings(list@)[name@],
        decreases i,
    {
        assert(list@.take(i as int).drop_last() =~= list@.take(i - 1));
        i = i - 1;
        if text_eq(list[i].name.value.as_str(), name) {
            return Some(list[i].value.clone());
        }
    }
    None
}

/// Takes the value that a list of options gives to a name out of it.
pub fn take_setting(list: &mut Vec<SqlOption>, name: &str) -> (value: Option<Value>)
    ensures
        settings(final(list)@) == settings(old(list)@).remove(name@),
        match value {
            Some(v) => settings(old(list)@).contains_key(name@) && v@ == settings(
                old(list)@,
            )[name@],
            None => !settings(old(list)@).contains_key(name@),
        },
{
    let value = setting(list, name);
    let mut rest: Vec<SqlOption> = Vec::new();
    let mut i: usize = 0;
    assert(settings(rest@) =~= settings(list@.take(0)).remove(name@));
    while i < list.len()
        invariant
            i <= list.len(),
            settings(rest@) == settings(list@.take(i as int)).remove(name@),
        decreases list.len() - i,
    {
        let ghost before = rest@;
        assert(list@.take(i + 1).drop_last() =~= list@.take(i as int));
        if !text_eq(list[i].name.value.as_str(), name) {
            rest.push(SqlOption { name: list[i].name.clone(), value: list[i].value.clone() });
            assert(rest@.drop_last() =~= before);
        }
        assert(settings(rest@) =~= settings(list@.take(i + 1)).remove(name@));
        i = i + 1;
    }
    assert(list@.take(i as int) =~= list@);
    *list = rest;
    value
}

/// What a list of options says of a switch that is off by default.
pub open spec fn switch(
    options: Map<Seq<char>, ValueView>,
    name: Seq<char>,
    complaint: Seq<char>,
) -> Result<bool, ErrorView> {
    if !options.contains_key(name) {
        Ok(false)
    } else {
        match options[name] {
            ValueView::Boolean(on) => Ok(on),
            _ => Err(invalid(complaint)),
        }
    }
}

/// Whether a switch is on.
pub fn read_switch(list: &Vec<SqlOption>, name: &str, complaint: &str) -> (r: Result<
    bool,
    PlanError,
>)
    ensures
        viewed(r) == switch(settings(list@), name@, complaint@),
{
    match setting(list, name) {
        None => Ok(false),
        Some(Value::Boolean(on)) => Ok(on),
        Some(_) => Err(PlanError::invalid(complaint.to_owned())),
    }
}

/// What a list of options says of a text that may be left out.
pub open spec fn optional_text(
    options: Map<Seq<char>, ValueView>,
    name: Seq<char>,
    complaint: Seq<char>,
) -> Result<Option<Seq<char>>, ErrorView> {
    if !options.contains_key(name) {
        Ok(None)
    } else {
        match options[name] {
            ValueView::String(text) => Ok(Some(text)),
            _ => Err(invalid(complaint)),
        }
    }
}

/// The text that an option holds, if it is there.
pub fn read_text(list: &Vec<SqlOption>, name: &str, complaint: &str) -> (r: Result<
    Option<String>,
    PlanError,
>)
    ensures
        match r {
            Ok(text) => optional_text(settings(list@), name@, complaint@) == Ok::<
                Option<Seq<char>>,
                ErrorView,
            >(text_option(text)),
            Err(e) => optional_text(settings(list@), name@, complaint@) == Err::<
                Option<Seq<char>>,
                ErrorView,
            >(e@),
        },
{
    match setting(list, name) {
        None => Ok(None),
        Some(Value::String(text)) => Ok(Some(text)),
        Some(_) => Err(PlanError::invalid(complaint.to_owned())),
    }
}

} // verus!
