//! Names of databases, schemas and items.
use vstd::prelude::*;
use vstd::string::*;

use crate::text::{join, joined, texts};

verus! {

/// An identifier of a statement: the name it stands for, and how it is written in SQL.
#[derive(Debug)]
pub struct Ident {
    pub value: String,
    pub sql: String,
}

impl Ident {
    /// An identifier that is written as it stands.
    pub fn new(value: &str) -> (ident: Ident)
        ensures
            ident.value@ == value@,
            ident.sql@ == value@,
    {
        Ident { value: value.to_owned(), sql: value.to_owned() }
    }
}

impl Clone for Ident {
    fn clone(&self) -> (copy: Ident)
        ensures
            copy == *self,
    {
        Ident { value: self.value.clone(), sql: self.sql.clone() }
    }
}

/// A possibly qualified name of a statement, such as `db.schema.item`.
#[derive(Debug)]
pub struct ObjectName(pub Vec<Ident>);

impl ObjectName {
    /// The names of the components.
    pub open spec fn parts(self) -> Seq<Seq<char>> {
        self.0@.map_values(|i: Ident| i.value@)
    }

    /// How the components are written.
    pub open spec fn written(self) -> Seq<Seq<char>> {
        self.0@.map_values(|i: Ident| i.sql@)
    }

    /// How the name is written.
    pub open spec fn sql(self) -> Seq<char> {
        joined(self.written(), "."@)
    }

    /// How the name is written.
    pub fn to_sql(&self) -> (text: String)
        ensures
            text@ == self.sql(),
    {
        let mut parts: Vec<String> = Vec::new();
        let mut i: usize = 0;
        while i < self.0.len()
            invariant
                i <= self.0.len(),
                parts.len() == i,
                forall|k: int| 0 <= k < i ==> parts@[k]@ == self.0@[k].sql@,
            decreases self.0.len() - i,
        {
            parts.push(self.0[i].sql.clone());
            i = i + 1;
        }
        assert(texts(parts@) =~= self.written());
        join(&parts, ".")
    }
}

/// Copies a list of identifiers.
pub fn clone_idents(list: &Vec<Ident>) -> (copy: Vec<Ident>)
    ensures
        copy@ == list@,
{
    let mut copy: Vec<Ident> = Vec::new();
    let mut i: usize = 0;
    while i < list.len()
        invariant
            i <= list.len(),
            copy@ == list@.take(i as int),
        decreases list.len() - i,
    {
        copy.push(list[i].clone());
        i = i + 1;
        assert(copy@ =~= list@.take(i as int));
    }
    assert(list@.take(i as int) =~= list@);
    copy
}

impl Clone for ObjectName {
    fn clone(&self) -> (copy: ObjectName)
        ensures
            copy.0@ == self.0@,
    {
        ObjectName(clone_idents(&self.0))
    }
}

/// A database: a named one, or the ambient one that holds the system's own schemas.
#[derive(Debug)]
pub enum DatabaseSpecifier {
    Ambient,
    Name(String),
}

impl View for DatabaseSpecifier {
    type V = Option<Seq<char>>;

    open spec fn view(&self) -> Option<Seq<char>> {
        match self {
            DatabaseSpecifier::Ambient => None,
            DatabaseSpecifier::Name(name) => Some(name@),
        }
    }
}

impl Clone for DatabaseSpecifier {
    fn clone(&self) -> (copy: DatabaseSpecifier)
        ensures
            copy@ == self@,
    {
        match self {
            DatabaseSpecifier::Ambient => DatabaseSpecifier::Ambient,
            DatabaseSpecifier::Name(name) => DatabaseSpecifier::Name(name.clone()),
        }
    }
}

/// How a database is shown.
pub open spec fn database_text(database: Option<Seq<char>>) -> Seq<char> {
    match database {
        None => "<none>"@,
        Some(name) => name,
    }
}

impl DatabaseSpecifier {
    /// How the database is shown.
    pub fn to_text(&self) -> (text: String)
        ensures
            text@ == database_text(self@),
    {
        match self {
            DatabaseSpecifier::Ambient => "<none>".to_owned(),
            DatabaseSpecifier::Name(name) => name.clone(),
        }
    }
}

/// A schema: its name, and the number that the catalog knows it by.
#[derive(Debug)]
pub struct SchemaSpecifier {
    pub name: String,
    pub id: i64,
}

/// The contents of a [`SchemaSpecifier`].
#[verifier::ext_equal]
pub struct SchemaView {
    pub name: Seq<char>,
    pub id: i64,
}

impl View for SchemaSpecifier {
    type V = SchemaView;

    open spec fn view(&self) -> SchemaView {
        SchemaView { name: self.name@, id: self.id }
    }
}

/// The name of an item, of which all but the last component may be left out.
#[derive(Debug)]
pub struct PartialName {
    pub database: Option<String>,
    pub schema: Option<String>,
    pub item: String,
}

/// The contents of a [`PartialName`].
#[verifier::ext_equal]
pub struct PartialNameView {
    pub database: Option<Seq<char>>,
    pub schema: Option<Seq<char>>,
    pub item: Seq<char>,
}

/// The contents of an optional text.
pub open spec fn text_option(text: Option<String>) -> Option<Seq<char>> {
    match text {
        None => None,
        Some(s) => Some(s@),
    }
}

impl View for PartialName {
    type V = PartialNameView;

    open spec fn view(&self) -> PartialNameView {
        PartialNameView {
            database: text_option(self.database),
            schema: text_option(self.schema),
            item: self.item@,
        }
    }
}

/// The name of an item in full.
#[derive(Debug)]
pub struct FullName {
    pub database: DatabaseSpecifier,
    pub schema: String,
    pub item: String,
}

/// The contents of a [`FullName`].
#[verifier::ext_equal]
pub struct FullNameView {
    pub database: Option<Seq<char>>,
    pub schema: Seq<char>,
    pub item: Seq<char>,
}

impl View for FullName {
    type V = FullNameView;

    open spec fn view(&self) -> FullNameView {
        FullNameView { database: self.database@, schema: self.schema@, item: self.item@ }
    }
}

impl Clone for FullName {
    fn clone(&self) -> (copy: FullName)
        ensures
            copy@ == self@,
    {
        FullName {
            database: self.database.clone(),
            schema: self.schema.clone(),
            item: self.item.clone(),
        }
    }
}

impl FullNameView {
    /// How the name is shown.
    pub open spec fn shown(self) -> Seq<char> {
        match self.database {
            Some(database) => database + "."@ + self.schema + "."@ + self.item,
            None => self.schema + "."@ + self.item,
        }
    }

    /// The name with its components as optional ones. The ambient database has no name of its own.
    pub open spec fn partial(self) -> PartialNameView {
        PartialNameView { database: self.database, schema: Some(self.schema), item: self.item }
    }
}

impl FullName {
    /// How the name is shown.
    pub fn to_text(&self) -> (text: String)
        ensures
            text@ == self@.shown(),
    {
        match &self.database {
            DatabaseSpecifier::Name(database) => database.clone().concat(".").concat(
                self.schema.as_str(),
            ).concat(".").concat(self.item.as_str()),
            DatabaseSpecifier::Ambient => self.schema.clone().concat(".").concat(self.item.as_str()),
        }
    }

    /// The name with its components as optional ones.
    pub fn to_partial(&self) -> (name: PartialName)
        ensures
            name@ == self@.partial(),
    {
        PartialName {
            database: match &self.database {
                DatabaseSpecifier::Ambient => None,
                DatabaseSpecifier::Name(database) => Some(database.clone()),
            },
            schema: Some(self.schema.clone()),
            item: self.item.clone(),
        }
    }

    /// Whether two names are the same.
    pub fn same(&self, other: &FullName) -> (same: bool)
        ensures
            same == (self@ == other@),
    {
        let databases: bool = match (&self.database, &other.database) {
            (DatabaseSpecifier::Ambient, DatabaseSpecifier::Ambient) => true,
            (DatabaseSpecifier::Name(a), DatabaseSpecifier::Name(b)) => *a == *b,
            _ => false,
        };
        databases && self.schema == other.schema && self.item == other.item
    }
}

} // verus!
