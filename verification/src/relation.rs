//! The shape of a relation: its columns, their types and names, and its keys.
use vstd::prelude::*;
use vstd::string::*;

verus! {

/// The type of a scalar.
#[derive(Clone, Copy, PartialEq, Eq, Structural, Debug)]
pub enum ScalarType {
    Bool,
    Int32,
    Int64,
    Float32,
    Float64,
    Decimal { precision: u8, scale: u8 },
    Date,
    Time,
    Timestamp,
    TimestampTz,
    Interval,
    Bytes,
    String,
    Jsonb,
    Uuid,
}

/// The type of a column.
#[derive(Clone, Copy, PartialEq, Eq, Structural, Debug)]
pub struct ColumnType {
    pub scalar_type: ScalarType,
    pub nullable: bool,
}

/// The column type of a scalar type.
pub open spec fn column(scalar_type: ScalarType, nullable: bool) -> ColumnType {
    ColumnType { scalar_type, nullable }
}

impl ScalarType {
    /// The column type of a scalar type.
    pub fn nullable(self, nullable: bool) -> (typ: ColumnType)
        ensures
            typ == column(self, nullable),
    {
        ColumnType { scalar_type: self, nullable }
    }
}

/// The columns of a relation, and sets of columns that are keys of it.
#[derive(Debug)]
pub struct RelationType {
    pub column_types: Vec<ColumnType>,
    pub keys: Vec<Vec<usize>>,
}

/// A relation type with names for the columns.
#[derive(Debug)]
pub struct RelationDesc {
    pub typ: RelationType,
    pub names: Vec<Option<String>>,
}

/// The contents of a [`RelationDesc`].
#[verifier::ext_equal]
pub struct RelationView {
    pub types: Seq<ColumnType>,
    pub names: Seq<Option<Seq<char>>>,
    pub keys: Seq<Seq<usize>>,
}

/// The contents of a list of optional texts.
pub open spec fn name_list(names: Seq<Option<String>>) -> Seq<Option<Seq<char>>> {
    names.map_values(|n: Option<String>| crate::names::text_option(n))
}

/// The contents of a list of keys.
pub open spec fn key_list(keys: Seq<Vec<usize>>) -> Seq<Seq<usize>> {
    keys.map_values(|k: Vec<usize>| k@)
}

impl View for RelationDesc {
    type V = RelationView;

    open spec fn view(&self) -> RelationView {
        RelationView {
            types: self.typ.column_types@,
            names: name_list(self.names@),
            keys: key_list(self.typ.keys@),
        }
    }
}

impl RelationView {
    /// The relation without columns.
    pub open spec fn empty() -> RelationView {
        RelationView { types: Seq::empty(), names: Seq::empty(), keys: Seq::empty() }
    }

    /// The relation with one more column.
    pub open spec fn with_column(self, name: Seq<char>, typ: ColumnType) -> RelationView {
        RelationView { types: self.types.push(typ), names: self.names.push(Some(name)), ..self }
    }

    /// The relation with other names for its columns.
    pub open spec fn with_names(self, names: Seq<Option<Seq<char>>>) -> RelationView {
        RelationView { names, ..self }
    }

    /// The relation without its keys.
    pub open spec fn without_keys(self) -> RelationView {
        RelationView { keys: Seq::empty(), ..self }
    }

    /// Every column has a place for a name, and the keys speak of columns that are there.
    pub open spec fn wf(self) -> bool {
        &&& self.names.len() == self.types.len()
        &&& forall|i: int, j: int|
            0 <= i < self.keys.len() && 0 <= j < self.keys[i].len() ==> #[trigger] self.keys[i][j]
                < self.types.len()
    }

    /// The name of a column, where it has one that no other column has.
    pub open spec fn unambiguous_name(self, i: int) -> Option<Seq<char>> {
        if exists|j: int|
            0 <= j < self.names.len() && j != i && #[trigger] self.names[j] == self.names[i] {
            None
        } else {
            self.names[i]
        }
    }

    /// The first key, or all the columns where there is no key or it is empty.
    pub open spec fn default_key(self) -> Seq<usize> {
        if self.keys.len() > 0 && self.keys[0].len() > 0 {
            self.keys[0]
        } else {
            Seq::new(self.types.len(), |i: int| i as usize)
        }
    }
}

fn clone_names(names: &Vec<Option<String>>) -> (copy: Vec<Option<String>>)
    ensures
        name_list(copy@) == name_list(names@),
{
    let mut copy: Vec<Option<String>> = Vec::new();
    let mut i: usize = 0;
    while i < names.len()
        invariant
            i <= names.len(),
            copy.len() == i,
            forall|k: int|
                0 <= k < i ==> crate::names::text_option(#[trigger] copy@[k])
                    == crate::names::text_option(names@[k]),
        decreases names.len() - i,
    {
        let name: Option<String> = match &names[i] {
            Some(name) => Some(name.clone()),
            None => None,
        };
        copy.push(name);
        i = i + 1;
    }
    assert(name_list(copy@) =~= name_list(names@));
    copy
}

fn clone_keys(keys: &Vec<Vec<usize>>) -> (copy: Vec<Vec<usize>>)
    ensures
        key_list(copy@) == key_list(keys@),
{
    let mut copy: Vec<Vec<usize>> = Vec::new();
    let mut i: usize = 0;
    while i < keys.len()
        invariant
            i <= keys.len(),
            copy.len() == i,
            forall|k: int| 0 <= k < i ==> (#[trigger] copy@[k])@ == keys@[k]@,
        decreases keys.len() - i,
    {
        let key = keys[i].clone();
        assert(key@ =~= keys@[i as int]@);
        copy.push(key);
        i = i + 1;
    }
    assert(key_list(copy@) =~= key_list(keys@));
    copy
}

impl Clone for RelationDesc {
    fn clone(&self) -> (copy: RelationDesc)
        ensures
            copy@ == self@,
    {
        let column_types = self.typ.column_types.clone();
        assert(column_types@ =~= self.typ.column_types@);
        RelationDesc {
            typ: RelationType { column_types, keys: clone_keys(&self.typ.keys) },
            names: clone_names(&self.names),
        }
    }
}

impl RelationDesc {
    /// The relation without columns.
    pub fn empty() -> (desc: RelationDesc)
        ensures
            desc@ == RelationView::empty(),
    {
        let desc = RelationDesc {
            typ: RelationType { column_types: Vec::new(), keys: Vec::new() },
            names: Vec::new(),
        };
        assert(desc@ =~= RelationView::empty());
        desc
    }

    /// A relation of columns with these types and names, and without keys.
    pub fn new(column_types: Vec<ColumnType>, names: Vec<Option<String>>) -> (desc: RelationDesc)
        requires
            column_types.len() == names.len(),
        ensures
            desc@.types == column_types@,
            desc@.names == name_list(names@),
            desc@.keys == Seq::<Seq<usize>>::empty(),
    {
        let desc = RelationDesc { typ: RelationType { column_types, keys: Vec::new() }, names };
        assert(desc@.keys =~= Seq::<Seq<usize>>::empty());
        desc
    }

    /// The relation with one more column.
    pub fn with_column(self, name: &str, typ: ColumnType) -> (desc: RelationDesc)
        ensures
            desc@ == self@.with_column(name@, typ),
    {
        let mut desc = self;
        desc.typ.column_types.push(typ);
        desc.names.push(Some(name.to_owned()));
        assert(desc@.names =~= self@.names.push(Some(name@)));
        desc
    }

    /// The relation with other names for its columns.
    pub fn with_names(self, names: Vec<Option<String>>) -> (desc: RelationDesc)
        requires
            names.len() == self@.types.len(),
        ensures
            desc@ == self@.with_names(name_list(names@)),
    {
        RelationDesc { typ: self.typ, names }
    }

    /// The relation without its keys.
    pub fn without_keys(self) -> (desc: RelationDesc)
        ensures
            desc@ == self@.without_keys(),
    {
        let desc = RelationDesc {
            typ: RelationType { column_types: self.typ.column_types, keys: Vec::new() },
            names: self.names,
        };
        assert(desc@.keys =~= Seq::<Seq<usize>>::empty());
        desc
    }

    /// How many columns there are.
    pub fn arity(&self) -> (n: usize)
        ensures
            n == self@.types.len(),
    {
        self.typ.column_types.len()
    }

    /// The names of the columns.
    pub fn column_names(&self) -> (names: Vec<Option<String>>)
        ensures
            name_list(names@) == self@.names,
    {
        clone_names(&self.names)
    }

    /// The name of a column, where it has one that no other column has.
    pub fn get_unambiguous_name(&self, i: usize) -> (name: Option<String>)
        requires
            i < self@.names.len(),
        ensures
            crate::names::text_option(name) == self@.unambiguous_name(i as int),
    {
        assert(self@.names[i as int] == crate::names::text_option(self.names@[i as int]));
        let wanted: String = match &self.names[i] {
            Some(name) => name.clone(),
            None => {
                return None;
            },
        };
        let mut j: usize = 0;
        while j < self.names.len()
            invariant
                i < self.names.len(),
                j <= self.names.len(),
                self@.names[i as int] == Some(wanted@),
                forall|k: int|
                    0 <= k < j && k != i ==> #[trigger] self@.names[k] != self@.names[i as int],
            decreases self.names.len() - j,
        {
            assert(self@.names[j as int] == crate::names::text_option(self.names@[j as int]));
            if j != i {
                match &self.names[j] {
                    Some(name) => {
                        if *name == wanted {
                            return None;
                        }
                    },
                    None => {},
                }
            }
            j = j + 1;
        }
        Some(wanted)
    }

    /// The first key, or all the columns where there is no key or it is empty.
    pub fn default_key(&self) -> (key: Vec<usize>)
        ensures
            key@ == self@.default_key(),
    {
        if self.typ.keys.len() > 0 {
            assert(self@.keys[0] == self.typ.keys@[0]@);
            if self.typ.keys[0].len() > 0 {
                let key = self.typ.keys[0].clone();
                assert(key@ =~= self.typ.keys@[0]@);
                return key;
            }
        }
        let mut key: Vec<usize> = Vec::new();
        let mut i: usize = 0;
        while i < self.typ.column_types.len()
            invariant
                i <= self.typ.column_types.len(),
                key.len() == i,
                forall|k: int| 0 <= k < i ==> #[trigger] key@[k] == k as usize,
            decreases self.typ.column_types.len() - i,
        {
            key.push(i);
            i = i + 1;
        }
        assert(key@ =~= self@.default_key());
        key
    }
}

} // verus!
