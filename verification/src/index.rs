//! Planning of `CREATE INDEX`.
use vstd::prelude::*;
use vstd::string::*;

use crate::ast::{key_parts_view, CreateIndexStatement, KeyPart, KeyPartView};
use crate::catalog::{item_type_text, Catalog, CatalogItem, CatalogItemType, CatalogModel};
use crate::context::{item_of, StatementContext};
use crate::engine::{failed, Question, QuestionView, Replies, ScalarExpr, Step, StepView};
use crate::error::{invalid, PlanError};
use crate::names::{FullName, FullNameView};
use crate::normalize;
use crate::plan::{Index, Plan, PlanView};
use crate::relation::{RelationDesc, RelationView};
use crate::text::{decimal, decimal_is_injective, join, joined, texts, usize_text};

verus! {

// Keys.

/// The key part that stands for a column: by its name where that is
/// unambiguous, else by its number, counted from one.
pub open spec fn column_key_part(desc: RelationView, column: usize) -> KeyPartView {
    match desc.unambiguous_name(column as int) {
        Some(name) => KeyPartView::Column(name),
        None => KeyPartView::Number(decimal((column + 1) as nat)),
    }
}

/// The key parts of an index: those of the statement, or the default key of the relation.
pub open spec fn filled_key_parts(stmt: CreateIndexStatement, desc: RelationView) -> Seq<
    KeyPartView,
> {
    match stmt.key_parts {
        Some(parts) => key_parts_view(parts@),
        None => desc.default_key().map_values(|c: usize| column_key_part(desc, c)),
    }
}

fn fill_key_parts(stmt: &CreateIndexStatement, desc: &RelationDesc) -> (parts: Vec<KeyPart>)
    requires
        desc@.wf(),
    ensures
        key_parts_view(parts@) == filled_key_parts(*stmt, desc@),
{
    let mut parts: Vec<KeyPart> = Vec::new();
    match &stmt.key_parts {
        Some(given) => {
            let mut i: usize = 0;
            while i < given.len()
                invariant
                    i <= given.len(),
                    parts.len() == i,
                    forall|k: int| 0 <= k < i ==> (#[trigger] parts@[k])@ == given@[k]@,
                decreases given.len() - i,
            {
                parts.push(given[i].clone());
                i = i + 1;
            }
            assert(key_parts_view(parts@) =~= key_parts_view(given@));
        },
        None => {
            let key = desc.default_key();
            assert forall|k: int| 0 <= k < key@.len() implies #[trigger] key@[k]
                < desc@.types.len() by {
                if desc@.keys.len() > 0 && desc@.keys[0].len() > 0 {
                    assert(desc@.keys[0][k] < desc@.types.len());
                }
            }
            let arity: usize = desc.arity();
            let mut i: usize = 0;
            while i < key.len()
                invariant
                    arity == desc@.types.len(),
                    desc@.wf(),
                    key@ == desc@.default_key(),
                    forall|k: int| 0 <= k < key@.len() ==> #[trigger] key@[k] < desc@.types.len(),
                    i <= key.len(),
                    parts.len() == i,
                    forall|k: int|
                        0 <= k < i ==> (#[trigger] parts@[k])@ == column_key_part(desc@, key@[k]),
                decreases key.len() - i,
            {
                let column: usize = key[i];
                match desc.get_unambiguous_name(column) {
                    Some(name) => {
                        parts.push(KeyPart::Column(name));
                    },
                    None => {
                        parts.push(KeyPart::Number(usize_text(column + 1)));
                    },
                }
                i = i + 1;
            }
            assert(key_parts_view(parts@) =~= filled_key_parts(*stmt, desc@));
        },
    }
    parts
}

// Names.

/// How a key is called in the name of an index: by the name of a column where
/// that is unambiguous, else by its number; `expr` for what is not a column.
pub open spec fn key_text(desc: RelationView, key: ScalarExpr) -> Seq<char> {
    match key {
        ScalarExpr::Column(column) => match desc.unambiguous_name(column as int) {
            Some(name) => name,
            None => decimal((column + 1) as nat),
        },
        ScalarExpr::Other(_) => "expr"@,
    }
}

/// Whether the columns among the keys are columns of the relation.
pub open spec fn keys_fit(keys: Seq<ScalarExpr>, desc: RelationView) -> bool {
    forall|i: int|
        0 <= i < keys.len() ==> (#[trigger] keys[i] matches ScalarExpr::Column(c) ==> c
            < desc.types.len())
}

/// The name of an index by its table and its keys: `<table>_<keys>_idx`, or
/// `<table>_primary_idx` for the default index.
pub open spec fn base_name(
    on: FullNameView,
    desc: RelationView,
    keys: Seq<ScalarExpr>,
    is_default: bool,
) -> FullNameView {
    FullNameView {
        item: if is_default {
            on.item + "_primary_idx"@
        } else {
            on.item + "_"@ + joined(keys.map_values(|k: ScalarExpr| key_text(desc, k)), "_"@)
                + "_idx"@
        },
        ..on
    }
}

fn make_base_name(on: &FullName, desc: &RelationDesc, keys: &Vec<ScalarExpr>, is_default: bool) -> (
name: FullName)
    requires
        desc@.wf(),
        !is_default ==> keys_fit(keys@, desc@),
    ensures
        name@ == base_name(on@, desc@, keys@, is_default),
{
    let item: String = if is_default {
        on.item.clone().concat("_primary_idx")
    } else {
        let arity: usize = desc.arity();
        let mut parts: Vec<String> = Vec::new();
        let mut i: usize = 0;
        while i < keys.len()
            invariant
                desc@.wf(),
                keys_fit(keys@, desc@),
                arity == desc@.types.len(),
                i <= keys.len(),
                parts.len() == i,
                forall|k: int| 0 <= k < i ==> (#[trigger] parts@[k])@ == key_text(desc@, keys@[k]),
            decreases keys.len() - i,
        {
            match keys[i] {
                ScalarExpr::Column(column) => {
                    match desc.get_unambiguous_name(column) {
                        Some(name) => {
                            parts.push(name);
                        },
                        None => {
                            parts.push(usize_text(column + 1));
                        },
                    }
                },
                ScalarExpr::Other(_) => {
                    parts.push("expr".to_owned());
                },
            }
            i = i + 1;
        }
        assert(texts(parts@) =~= keys@.map_values(|k: ScalarExpr| key_text(desc@, k)));
        on.item.clone().concat("_").concat(join(&parts, "_").as_str()).concat("_idx")
    };
    FullName { database: on.database.clone(), schema: on.schema.clone(), item }
}

/// The versions of a name, in the order in which they are tried.
pub open spec fn version(base: FullNameView, k: nat) -> FullNameView {
    if k == 0 {
        base
    } else {
        FullNameView { item: base.item + decimal(k), ..base }
    }
}

/// Whether an item has this name.
pub open spec fn taken(items: Seq<CatalogItem>, name: FullNameView) -> bool {
    exists|i: int| 0 <= i < items.len() && (#[trigger] items[i]).name@ == name
}

/// Whether `k` is the first version of a name that no item has.
pub open spec fn first_free(items: Seq<CatalogItem>, base: FullNameView, k: nat) -> bool {
    &&& !taken(items, version(base, k))
    &&& forall|j: nat| j < k ==> taken(items, #[trigger] version(base, j))
}

/// The version of a name to use: the first that is free, unless an index of
/// that name may be there already.
pub open spec fn unused_name(
    items: Seq<CatalogItem>,
    base: FullNameView,
    if_not_exists: bool,
) -> FullNameView {
    if if_not_exists {
        base
    } else {
        version(base, choose|k: nat| first_free(items, base, k))
    }
}

proof fn versions_differ(base: FullNameView, a: nat, b: nat)
    requires
        a < b,
    ensures
        version(base, a) != version(base, b),
{
    if version(base, a) == version(base, b) {
        let x = version(base, a).item;
        let y = version(base, b).item;
        let n = base.item.len() as int;
        assert(y.skip(n) =~= decimal(b));
        assert(decimal(b).len() > 0);
        if a == 0 {
            assert(y.len() == n + decimal(b).len());
        } else {
            assert(x.skip(n) =~= decimal(a));
            decimal_is_injective(a, b);
        }
    }
}

/// Where the first versions of a name are all taken, there are at least as many items.
proof fn taken_versions_are_items(items: Seq<CatalogItem>, base: FullNameView, k: nat)
    requires
        forall|j: nat| j < k ==> taken(items, #[trigger] version(base, j)),
    ensures
        k <= items.len(),
{
    let versions = Seq::new(k, |j: int| version(base, j as nat));
    let names = items.map_values(|i: CatalogItem| i.name@);
    assert(versions.no_duplicates()) by {
        assert forall|a: int, b: int| 0 <= a < versions.len() && 0 <= b < versions.len() && a
            != b implies versions[a] != versions[b] by {
            if a < b {
                versions_differ(base, a as nat, b as nat);
            } else {
                versions_differ(base, b as nat, a as nat);
            }
        }
    }
    versions.unique_seq_to_set();
    names.lemma_cardinality_of_set();
    assert(versions.to_set().subset_of(names.to_set())) by {
        assert forall|v: FullNameView| versions.to_set().contains(v) implies names.to_set().contains(
            v,
        ) by {
            let j = versions.index_of(v);
            assert(versions.contains(v));
            assert(taken(items, version(base, j as nat)));
            let i = choose|i: int| 0 <= i < items.len() && (#[trigger] items[i]).name@ == v;
            assert(names[i] == v);
        }
    }
    vstd::set_lib::lemma_len_subset(versions.to_set(), names.to_set());
}

proof fn first_free_is_unique(items: Seq<CatalogItem>, base: FullNameView, a: nat, b: nat)
    requires
        first_free(items, base, a),
        first_free(items, base, b),
    ensures
        a == b,
{
    if a < b {
        assert(taken(items, version(base, a)));
    } else if b < a {
        assert(taken(items, version(base, b)));
    }
}

fn is_taken(items: &Vec<&CatalogItem>, name: &FullName, Ghost(model): Ghost<Seq<CatalogItem>>) -> (r:
    bool)
    requires
        items@.len() == model.len(),
        forall|i: int| 0 <= i < items@.len() ==> *(#[trigger] items@[i]) == model[i],
    ensures
        r == taken(model, name@),
{
    let mut i: usize = 0;
    while i < items.len()
        invariant
            items@.len() == model.len(),
            forall|i: int| 0 <= i < items@.len() ==> *(#[trigger] items@[i]) == model[i],
            i <= items.len(),
            forall|k: int| 0 <= k < i ==> (#[trigger] model[k]).name@ != name@,
        decreases items.len() - i,
    {
        assert(*items@[i as int] == model[i as int]);
        if items[i].name.same(name) {
            return true;
        }
        i = i + 1;
    }
    false
}

/// Finds the version of a name to use.
fn find_unused_name<C: Catalog>(
    scx: &StatementContext<C>,
    base: &FullName,
    if_not_exists: bool,
) -> (name: FullName)
    ensures
        name@ == unused_name(
            (scx.catalog.model().contents)(base@.database, base@.schema),
            base@,
            if_not_exists,
        ),
{
    let mut name = base.clone();
    if if_not_exists {
        return name;
    }
    let items = scx.catalog.list_items(&base.database, base.schema.as_str());
    let ghost model = (scx.catalog.model().contents)(base@.database, base@.schema);
    let n: usize = items.len();
    let mut i: usize = 0;
    while is_taken(&items, &name, Ghost(model))
        invariant
            n == items@.len(),
            items@.len() == model.len(),
            forall|i: int| 0 <= i < items@.len() ==> *(#[trigger] items@[i]) == model[i],
            i <= items@.len(),
            name@ == version(base@, i as nat),
            forall|j: nat| j < i ==> taken(model, #[trigger] version(base@, j)),
        decreases items@.len() - i,
    {
        proof {
            taken_versions_are_items(model, base@, (i + 1) as nat);
        }
        i = i + 1;
        name = FullName {
            database: base.database.clone(),
            schema: base.schema.clone(),
            item: base.item.clone().concat(usize_text(i).as_str()),
        };
    }
    proof {
        assert(first_free(model, base@, i as nat));
        let k = choose|k: nat| first_free(model, base@, k);
        first_free_is_unique(model, base@, k, i as nat);
    }
    name
}

// Plans.

/// Whether an item can have indexes.
pub open spec fn can_be_indexed(typ: CatalogItemType) -> bool {
    typ == CatalogItemType::View || typ == CatalogItemType::Source || typ
        == CatalogItemType::Table
}

/// The name of an index.
pub open spec fn index_name(
    catalog: CatalogModel,
    stmt: CreateIndexStatement,
    on: FullNameView,
    desc: RelationView,
    keys: Seq<ScalarExpr>,
) -> FullNameView {
    match stmt.name {
        Some(name) => FullNameView { item: name.value@, ..on },
        None => unused_name(
            (catalog.contents)(on.database, on.schema),
            base_name(on, desc, keys, stmt.key_parts is None),
            stmt.if_not_exists,
        ),
    }
}

/// Whether the answer on the keys of an index speaks of columns of the relation,
/// where the index is named by them.
pub open spec fn index_keys_fit(
    catalog: CatalogModel,
    stmt: CreateIndexStatement,
    replies: Replies,
) -> bool {
    stmt.name is None && stmt.key_parts is Some ==> (item_of(catalog, stmt.on_name) matches Ok(on)
        ==> (catalog.items[on].desc matches Ok(desc) ==> (replies.index_keys matches Some(Ok(keys))
        ==> keys_fit(keys@, desc@))))
}

/// The plan for `CREATE INDEX`.
pub open spec fn create_index(
    catalog: CatalogModel,
    stmt: CreateIndexStatement,
    replies: Replies,
) -> StepView<PlanView> {
    match item_of(catalog, stmt.on_name) {
        Err(e) => failed(e),
        Ok(on) => {
            let entry = catalog.items[on];
            if !can_be_indexed(entry.item_type) {
                failed(
                    invalid(
                        "index cannot be created on "@ + on.shown() + " because it is a "@
                            + item_type_text(entry.item_type),
                    ),
                )
            } else {
                match entry.desc {
                    Err(e) => failed(e@),
                    Ok(desc) => {
                        let key_parts = filled_key_parts(stmt, desc@);
                        match replies.index_keys {
                            None => StepView::Ask(
                                QuestionView::PlanIndexKeys { desc: desc@, key_parts },
                            ),
                            Some(Err(e)) => failed(e@),
                            Some(Ok(keys)) => {
                                let name = index_name(catalog, stmt, on, desc@, keys@);
                                match replies.create_sql {
                                    None => StepView::Ask(
                                        QuestionView::CreateIndexSql {
                                            name: name.item,
                                            key_parts,
                                        },
                                    ),
                                    Some(Err(e)) => failed(e@),
                                    Some(Ok(create_sql)) => StepView::Done(
                                        Ok(
                                            PlanView::CreateIndex {
                                                name,
                                                create_sql: create_sql@,
                                                on: entry.id,
                                                keys: keys@,
                                                if_not_exists: stmt.if_not_exists,
                                            },
                                        ),
                                    ),
                                }
                            },
                        }
                    },
                }
            }
        },
    }
}

/// Plans `CREATE INDEX`.
pub fn handle_create_index<C: Catalog>(
    scx: &StatementContext<C>,
    stmt: &CreateIndexStatement,
    replies: &Replies,
) -> (step: Step<Plan>)
    requires
        index_keys_fit(scx.catalog.model(), *stmt, *replies),
    ensures
        step@ == create_index(scx.catalog.model(), *stmt, *replies),
{
    let on_name = match scx.resolve_item(stmt.on_name.clone()) {
        Ok(name) => name,
        Err(e) => {
            return Step::Done(Err(e));
        },
    };
    let catalog_entry = scx.catalog.get_item(&on_name);
    if catalog_entry.item_type != CatalogItemType::View && catalog_entry.item_type
        != CatalogItemType::Source && catalog_entry.item_type != CatalogItemType::Table {
        return Step::Done(
            Err(
                PlanError::invalid(
                    "index cannot be created on ".to_owned().concat(
                        on_name.to_text().as_str(),
                    ).concat(" because it is a ").concat(catalog_entry.item_type.to_text()),
                ),
            ),
        );
    }
    let on_desc = match &catalog_entry.desc {
        Ok(desc) => desc,
        Err(e) => {
            return Step::Done(Err(e.clone()));
        },
    };
    let filled_key_parts = fill_key_parts(stmt, on_desc);
    let keys = match &replies.index_keys {
        None => {
            return Step::Ask(
                Question::PlanIndexKeys { desc: on_desc.clone(), key_parts: filled_key_parts },
            );
        },
        Some(Err(e)) => {
            return Step::Done(Err(e.clone()));
        },
        Some(Ok(keys)) => {
            let copy = keys.clone();
            assert(copy@ =~= keys@);
            copy
        },
    };
    let index_name = match &stmt.name {
        Some(name) => FullName {
            database: on_name.database.clone(),
            schema: on_name.schema.clone(),
            item: normalize::ident(name.clone()),
        },
        None => {
            let base = make_base_name(&on_name, on_desc, &keys, stmt.key_parts.is_none());
            find_unused_name(scx, &base, stmt.if_not_exists)
        },
    };
    let create_sql = match &replies.create_sql {
        None => {
            return Step::Ask(
                Question::CreateIndexSql { name: index_name.item, key_parts: filled_key_parts },
            );
        },
        Some(Err(e)) => {
            return Step::Done(Err(e.clone()));
        },
        Some(Ok(sql)) => sql.clone(),
    };
    Step::Done(
        Ok(
            Plan::CreateIndex {
                name: index_name,
                index: Index { create_sql, on: catalog_entry.id, keys },
                if_not_exists: stmt.if_not_exists,
            },
        ),
    )
}

/// The default index is the index on the default key: a statement that names
/// the index and gives no key parts, and one that is the same but for the
/// default key written out in it, are planned alike, with every answer that may
/// come. They ask the same questions, and end the same.
pub proof fn default_indexes_are_on_the_default_key(
    catalog: CatalogModel,
    stmt: CreateIndexStatement,
    written_out: CreateIndexStatement,
    replies: Replies,
)
    requires
        stmt.name is Some,
        stmt.key_parts is None,
        written_out.key_parts is Some,
        written_out == (CreateIndexStatement { key_parts: written_out.key_parts, ..stmt }),
        item_of(catalog, stmt.on_name) matches Ok(on) ==> (catalog.items[on].desc matches Ok(desc)
            ==> key_parts_view(written_out.key_parts->0@) == desc@.default_key().map_values(
            |c: usize| column_key_part(desc@, c),
        )),
    ensures
        create_index(catalog, written_out, replies) == create_index(catalog, stmt, replies),
{
}

/// A name that is made for an index is that of no item in the schema, unless
/// the index may be there already, and every version of the name before it is taken.
pub proof fn made_index_names_are_unused(items: Seq<CatalogItem>, base: FullNameView)
    ensures
        !taken(items, unused_name(items, base, false)),
        exists|k: nat|
            k <= items.len() && unused_name(items, base, false) == version(base, k)
                && #[trigger] first_free(items, base, k),
{
    free_version_exists(items, base, 0);
    let k = choose|k: nat| first_free(items, base, k);
    taken_versions_are_items(items, base, k);
}

proof fn free_version_exists(items: Seq<CatalogItem>, base: FullNameView, k: nat)
    requires
        forall|j: nat| j < k ==> taken(items, #[trigger] version(base, j)),
    ensures
        exists|k: nat| first_free(items, base, k),
    decreases items.len() + 1 - k,
{
    taken_versions_are_items(items, base, k);
    if taken(items, version(base, k)) {
        taken_versions_are_items(items, base, k + 1);
        free_version_exists(items, base, k + 1);
    } else {
        assert(first_free(items, base, k));
    }
}

} // verus!
