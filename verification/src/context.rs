//! The circumstances in which a statement is planned.
use std::collections::BTreeMap;

use vstd::prelude::*;
use vstd::string::*;

use crate::catalog::{Catalog, CatalogModel, PlanContext};
use crate::error::{invalid, viewed, ErrorKind, ErrorView, PlanError};
use crate::names::{
    DatabaseSpecifier, FullName, FullNameView, Ident, ObjectName, PartialName, PartialNameView,
    SchemaSpecifier, SchemaView,
};
use crate::normalize;
use crate::relation::ScalarType;
use crate::text::{decimal, usize_text};

verus! {

/// Immutable state that applies to the planning of an entire statement.
pub struct StatementContext<'a, C: Catalog> {
    pub pcx: &'a PlanContext,
    pub catalog: &'a C,
    /// The types of the parameters of the statement, by their numbers.
    pub param_types: BTreeMap<usize, ScalarType>,
}

/// The full name for a new item: by default in the default database and in the schema `public`.
pub open spec fn allocated_name(catalog: CatalogModel, name: PartialNameView) -> FullNameView {
    FullNameView {
        database: match name.database {
            Some(database) => Some(database),
            None => Some(catalog.default_database),
        },
        schema: match name.schema {
            Some(schema) => schema,
            None => "public"@,
        },
        item: name.item,
    }
}

/// The full name for a new temporary item: in the ambient database, and by
/// default in the schema `mz_temp`.
pub open spec fn temporary_name(name: PartialNameView) -> FullNameView {
    FullNameView {
        database: None,
        schema: match name.schema {
            Some(schema) => schema,
            None => "mz_temp"@,
        },
        item: name.item,
    }
}

/// The database of a name.
pub open spec fn database_named(catalog: CatalogModel, name: Seq<char>) -> Result<
    Seq<char>,
    ErrorView,
> {
    match (catalog.databases)(name) {
        Ok(()) => Ok(name),
        Err(error) => Err(error),
    }
}

/// The default database.
pub open spec fn default_database(catalog: CatalogModel) -> Result<Option<Seq<char>>, ErrorView> {
    match database_named(catalog, catalog.default_database) {
        Ok(name) => Ok(Some(name)),
        Err(error) => Err(error),
    }
}

/// The database that an object name of one component stands for.
pub open spec fn database_of(catalog: CatalogModel, name: ObjectName) -> Result<
    Seq<char>,
    ErrorView,
> {
    if name.0@.len() != 1 {
        Err(ErrorView { kind: ErrorKind::OverqualifiedDatabaseName, text: name.sql() })
    } else {
        database_named(catalog, name.parts()[0])
    }
}

/// The schema that an object name of one or two components stands for.
pub open spec fn schema_of(catalog: CatalogModel, name: ObjectName) -> Result<
    (Option<Seq<char>>, SchemaView),
    ErrorView,
> {
    let parts = name.parts();
    if parts.len() > 2 {
        Err(ErrorView { kind: ErrorKind::OverqualifiedSchemaName, text: name.sql() })
    } else if parts.len() == 2 {
        (catalog.schemas)(Some(parts[0]), parts[1])
    } else {
        (catalog.schemas)(None, parts[0])
    }
}

/// The schema that counts where a statement names none.
pub open spec fn default_schema(catalog: CatalogModel) -> Result<SchemaView, ErrorView> {
    match (catalog.schemas)(None, "public"@) {
        Ok(found) => Ok(found.1),
        Err(error) => Err(error),
    }
}

/// The item that an object name of one to three components stands for.
pub open spec fn item_of(catalog: CatalogModel, name: ObjectName) -> Result<
    FullNameView,
    ErrorView,
> {
    match normalize::item_name(name) {
        Ok(partial) => (catalog.names)(partial),
        Err(error) => Err(error),
    }
}

/// Why a feature may not be used: experimental mode is off.
pub open spec fn experimental_error(feature_name: Seq<char>) -> ErrorView {
    invalid(
        feature_name
            + " requires experimental mode; see https://materialize.io/docs/cli/#experimental-mode"@,
    )
}

/// Whether the parameters are numbered from one, without a gap.
pub open spec fn numbered_from_one(types: Map<usize, ScalarType>) -> bool {
    forall|n: usize| #[trigger] types.contains_key(n) <==> 1 <= n <= types.len()
}

/// Whether `n` is the first number, from one, that no parameter has.
pub open spec fn first_missing(types: Map<usize, ScalarType>, n: nat) -> bool {
    &&& 1 <= n <= usize::MAX
    &&& !types.contains_key(n as usize)
    &&& forall|k: usize| 1 <= k < n ==> #[trigger] types.contains_key(k)
}

/// The types of parameters in the order of their numbers, which run from one
/// without a gap. A parameter of the number zero is in the place of the first.
pub open spec fn finalized(types: Map<usize, ScalarType>) -> Result<Seq<ScalarType>, ErrorView> {
    if numbered_from_one(types) {
        Ok(Seq::new(types.len(), |i: int| types[(i + 1) as usize]))
    } else {
        let n = if types.contains_key(0) {
            1
        } else {
            choose|n: nat| first_missing(types, n)
        };
        Err(invalid("unable to infer type for parameter $"@ + decimal(n)))
    }
}

proof fn count_from_one(n: usize)
    ensures
        Set::new(|k: usize| 1 <= k <= n).finite(),
        Set::new(|k: usize| 1 <= k <= n).len() == n,
    decreases n,
{
    let all = Set::new(|k: usize| 1 <= k <= n);
    if n == 0 {
        assert(all =~= Set::<usize>::empty());
    } else {
        let m = (n - 1) as usize;
        count_from_one(m);
        assert(all =~= Set::new(|k: usize| 1 <= k <= m).insert(n));
    }
}

proof fn first_missing_is_unique(types: Map<usize, ScalarType>, a: nat, b: nat)
    requires
        first_missing(types, a),
        first_missing(types, b),
    ensures
        a == b,
{
    if a < b {
        assert(types.contains_key(a as usize));
    } else if b < a {
        assert(types.contains_key(b as usize));
    }
}

impl<'a, C: Catalog> StatementContext<'a, C> {
    /// The full name for a new item.
    pub fn allocate_name(&self, name: PartialName) -> (full: FullName)
        ensures
            full@ == allocated_name(self.catalog.model(), name@),
    {
        FullName {
            database: match name.database {
                Some(name) => DatabaseSpecifier::Name(name),
                None => DatabaseSpecifier::Name(self.catalog.default_database().to_owned()),
            },
            schema: match name.schema {
                Some(schema) => schema,
                None => "public".to_owned(),
            },
            item: name.item,
        }
    }

    /// The full name for a new temporary item.
    pub fn allocate_temporary_name(&self, name: PartialName) -> (full: FullName)
        ensures
            full@ == temporary_name(name@),
    {
        FullName {
            database: DatabaseSpecifier::Ambient,
            schema: match name.schema {
                Some(schema) => schema,
                None => "mz_temp".to_owned(),
            },
            item: name.item,
        }
    }

    /// The default database.
    pub fn resolve_default_database(&self) -> (r: Result<DatabaseSpecifier, PlanError>)
        ensures
            viewed(r) == default_database(self.catalog.model()),
    {
        let name = self.catalog.default_database();
        match self.catalog.resolve_database(name) {
            Ok(()) => Ok(DatabaseSpecifier::Name(name.to_owned())),
            Err(e) => Err(e),
        }
    }

    /// The schema that counts where a statement names none.
    pub fn resolve_default_schema(&self) -> (r: Result<SchemaSpecifier, PlanError>)
        ensures
            viewed(r) == default_schema(self.catalog.model()),
    {
        let mut parts: Vec<Ident> = Vec::new();
        parts.push(Ident::new("public"));
        match self.resolve_schema(ObjectName(parts)) {
            Ok(found) => Ok(found.1),
            Err(e) => Err(e),
        }
    }

    /// The database that an object name of one component stands for.
    pub fn resolve_database(&self, name: ObjectName) -> (r: Result<String, PlanError>)
        ensures
            viewed(r) == database_of(self.catalog.model(), name),
    {
        if name.0.len() != 1 {
            return Err(
                PlanError { kind: ErrorKind::OverqualifiedDatabaseName, text: name.to_sql() },
            );
        }
        self.resolve_database_ident(name.0[0].clone())
    }

    /// The database that an identifier stands for.
    pub fn resolve_database_ident(&self, name: Ident) -> (r: Result<String, PlanError>)
        ensures
            viewed(r) == database_named(self.catalog.model(), name.value@),
    {
        let name = normalize::ident(name);
        match self.catalog.resolve_database(name.as_str()) {
            Ok(()) => Ok(name),
            Err(e) => Err(e),
        }
    }

    /// The schema that an object name of one or two components stands for.
    pub fn resolve_schema(&self, name: ObjectName) -> (r: Result<
        (DatabaseSpecifier, SchemaSpecifier),
        PlanError,
    >)
        requires
            name.0@.len() > 0,
        ensures
            viewed(r) == schema_of(self.catalog.model(), name),
    {
        let n: usize = name.0.len();
        if n > 2 {
            return Err(
                PlanError { kind: ErrorKind::OverqualifiedSchemaName, text: name.to_sql() },
            );
        }
        let schema_name = normalize::ident(name.0[n - 1].clone());
        let database_spec = if n == 2 {
            Some(normalize::ident(name.0[0].clone()))
        } else {
            None
        };
        self.catalog.resolve_schema(database_spec, schema_name.as_str())
    }

    /// The item that an object name of one to three components stands for.
    pub fn resolve_item(&self, name: ObjectName) -> (r: Result<FullName, PlanError>)
        ensures
            viewed(r) == item_of(self.catalog.model(), name),
            r matches Ok(found) ==> self.catalog.model().items.contains_key(found@),
    {
        match normalize::object_name(name) {
            Ok(partial) => self.catalog.resolve_item(&partial),
            Err(e) => Err(e),
        }
    }

    /// Whether experimental features are on.
    pub fn experimental_mode(&self) -> (on: bool)
        ensures
            on == self.catalog.model().experimental,
    {
        self.catalog.experimental_mode()
    }

    /// Refuses a feature unless experimental features are on.
    pub fn require_experimental_mode(&self, feature_name: &str) -> (r: Result<(), PlanError>)
        ensures
            viewed(r) == if self.catalog.model().experimental {
                Ok::<(), ErrorView>(())
            } else {
                Err(experimental_error(feature_name@))
            },
    {
        if !self.experimental_mode() {
            return Err(
                PlanError::invalid(
                    feature_name.to_owned().concat(
                        " requires experimental mode; see https://materialize.io/docs/cli/#experimental-mode",
                    ),
                ),
            );
        }
        Ok(())
    }

    /// The types of the parameters in the order of their numbers.
    pub fn finalize_param_types(self) -> (r: Result<Vec<ScalarType>, PlanError>)
        ensures
            viewed(r) == finalized(self.param_types@),
    {
        let ghost types = self.param_types@;
        let n: usize = self.param_types.len();
        if self.param_types.contains_key(&0) {
            assert(types.contains_key(0));
            return Err(
                PlanError::invalid(
                    "unable to infer type for parameter $".to_owned().concat(
                        usize_text(1).as_str(),
                    ),
                ),
            );
        }
        let mut out: Vec<ScalarType> = Vec::new();
        let mut i: usize = 0;
        while i < n
            invariant
                i <= n,
                n == types.len(),
                types == self.param_types@,
                !types.contains_key(0),
                out.len() == i,
                forall|k: usize| 1 <= k <= i ==> #[trigger] types.contains_key(k),
                forall|k: int| 0 <= k < i ==> #[trigger] out@[k] == types[(k + 1) as usize],
            decreases n - i,
        {
            match self.param_types.get(&(i + 1)) {
                Some(typ) => {
                    out.push(*typ);
                },
                None => {
                    proof {
                        assert(!types.contains_key((i + 1) as usize));
                        assert(first_missing(types, (i + 1) as nat));
                        let chosen = choose|m: nat| first_missing(types, m);
                        first_missing_is_unique(types, chosen, (i + 1) as nat);
                    }
                    return Err(
                        PlanError::invalid(
                            "unable to infer type for parameter $".to_owned().concat(
                                usize_text(i + 1).as_str(),
                            ),
                        ),
                    );
                },
            }
            i = i + 1;
        }
        proof {
            count_from_one(n);
            let all = Set::new(|k: usize| 1 <= k <= n);
            assert(all.subset_of(types.dom()));
            vstd::set_lib::lemma_subset_equality(all, types.dom());
            assert forall|k: usize| #[trigger] types.contains_key(k) <==> 1 <= k <= types.len() by {
                assert(all.contains(k) == types.dom().contains(k));
            }
            assert(out@ =~= Seq::new(types.len(), |i: int| types[(i + 1) as usize]));
        }
        Ok(out)
    }
}

} // verus!
