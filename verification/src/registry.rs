//! Static schema registry: which fields of each entity may be filtered on
//! or updated, and what kind of value each holds.
//!
//! Field names here exactly match the storage column names; a request
//! naming anything else is rejected before any query text is produced.
//! This whitelist is what keeps arbitrary column names out of the
//! generated SQL.

use vstd::prelude::*;
use crate::template::count_placeholders;

verus! {

/// The kind of value a field holds.
pub enum FieldKind {
    Text,
    NullableText,
    Number,
    EnumText(Vec<String>),
}

/// The mathematical value of a field kind.
pub ghost enum FieldKindV {
    Text,
    NullableText,
    Number,
    EnumText(Seq<Seq<char>>),
}

impl DeepView for FieldKind {
    type V = FieldKindV;

    open spec fn deep_view(&self) -> FieldKindV {
        match self {
            FieldKind::Text => FieldKindV::Text,
            FieldKind::NullableText => FieldKindV::NullableText,
            FieldKind::Number => FieldKindV::Number,
            FieldKind::EnumText(vals) => FieldKindV::EnumText(vals.deep_view()),
        }
    }
}

/// One updatable/filterable field of an entity.
pub struct FieldSpec {
    pub name: String,
    pub kind: FieldKind,
}

/// The mathematical value of a field declaration.
pub ghost struct FieldSpecV {
    pub name: Seq<char>,
    pub kind: FieldKindV,
}

impl DeepView for FieldSpec {
    type V = FieldSpecV;

    open spec fn deep_view(&self) -> FieldSpecV {
        FieldSpecV { name: self.name@, kind: self.kind.deep_view() }
    }
}

/// The entities this store holds.
#[derive(Clone, Copy, PartialEq, Eq, Structural)]
pub enum Entity {
    Transactions,
    Users,
    UserActivity,
}

/// Registry contents, in declaration order. This order also fixes the
/// order of fields in generated SET clauses.
pub open spec fn spec_fields(e: Entity) -> Seq<FieldSpecV> {
    match e {
        Entity::Transactions => seq![
            FieldSpecV { name: "person_name"@, kind: FieldKindV::Text },
            FieldSpecV { name: "person_avatar"@, kind: FieldKindV::NullableText },
            FieldSpecV { name: "category"@, kind: FieldKindV::Text },
            FieldSpecV { name: "amount"@, kind: FieldKindV::Number },
            FieldSpecV {
                name: "transaction_type"@,
                kind: FieldKindV::EnumText(seq!["income"@, "expense"@]),
            },
            FieldSpecV { name: "reason"@, kind: FieldKindV::Text },
            FieldSpecV { name: "responsible_person"@, kind: FieldKindV::NullableText },
        ],
        Entity::Users => seq![
            FieldSpecV { name: "username"@, kind: FieldKindV::Text },
            FieldSpecV { name: "full_name"@, kind: FieldKindV::Text },
            FieldSpecV { name: "role"@, kind: FieldKindV::Text },
            FieldSpecV { name: "status"@, kind: FieldKindV::Text },
            FieldSpecV { name: "avatar"@, kind: FieldKindV::NullableText },
            FieldSpecV { name: "password"@, kind: FieldKindV::Text },
            FieldSpecV { name: "department"@, kind: FieldKindV::NullableText },
        ],
        Entity::UserActivity => seq![
            FieldSpecV { name: "username"@, kind: FieldKindV::Text },
            FieldSpecV { name: "activity"@, kind: FieldKindV::Text },
        ],
    }
}

/// A field name stands in the registry of `e`.
pub open spec fn field_allowed(e: Entity, name: Seq<char>) -> bool {
    exists|i: int| 0 <= i < spec_fields(e).len() && spec_fields(e)[i].name == name
}

/// The declared fields of an entity, in declaration order.
pub fn fields_of(e: Entity) -> (r: Vec<FieldSpec>)
    ensures
        r.deep_view() == spec_fields(e),
{
    let mut v: Vec<FieldSpec> = Vec::new();
    match e {
        Entity::Transactions => {
            v.push(FieldSpec { name: "person_name".to_owned(), kind: FieldKind::Text });
            v.push(FieldSpec { name: "person_avatar".to_owned(), kind: FieldKind::NullableText });
            v.push(FieldSpec { name: "category".to_owned(), kind: FieldKind::Text });
            v.push(FieldSpec { name: "amount".to_owned(), kind: FieldKind::Number });
            let kinds = vec!["income".to_owned(), "expense".to_owned()];
            assert(kinds.deep_view() =~= seq!["income"@, "expense"@]);
            v.push(FieldSpec { name: "transaction_type".to_owned(), kind: FieldKind::EnumText(kinds) });
            v.push(FieldSpec { name: "reason".to_owned(), kind: FieldKind::Text });
            v.push(FieldSpec { name: "responsible_person".to_owned(), kind: FieldKind::NullableText });
        },
        Entity::Users => {
            v.push(FieldSpec { name: "username".to_owned(), kind: FieldKind::Text });
            v.push(FieldSpec { name: "full_name".to_owned(), kind: FieldKind::Text });
            v.push(FieldSpec { name: "role".to_owned(), kind: FieldKind::Text });
            v.push(FieldSpec { name: "status".to_owned(), kind: FieldKind::Text });
            v.push(FieldSpec { name: "avatar".to_owned(), kind: FieldKind::NullableText });
            v.push(FieldSpec { name: "password".to_owned(), kind: FieldKind::Text });
            v.push(FieldSpec { name: "department".to_owned(), kind: FieldKind::NullableText });
        },
        Entity::UserActivity => {
            v.push(FieldSpec { name: "username".to_owned(), kind: FieldKind::Text });
            v.push(FieldSpec { name: "activity".to_owned(), kind: FieldKind::Text });
        },
    }
    assert(v.deep_view() =~= spec_fields(e));
    v
}

/// Registry names are column identifiers: none holds a `?` placeholder,
/// so a whitelisted name may stand in a query template without changing
/// its placeholder count.
pub proof fn lemma_registry_names_clean(e: Entity)
    ensures
        forall|i: int|
            0 <= i < spec_fields(e).len() ==> count_placeholders(
                #[trigger] spec_fields(e)[i].name,
            ) == 0,
{
    reveal_strlit("person_name");
    reveal_strlit("person_avatar");
    reveal_strlit("category");
    reveal_strlit("amount");
    reveal_strlit("transaction_type");
    reveal_strlit("reason");
    reveal_strlit("responsible_person");
    reveal_strlit("username");
    reveal_strlit("full_name");
    reveal_strlit("role");
    reveal_strlit("status");
    reveal_strlit("avatar");
    reveal_strlit("password");
    reveal_strlit("department");
    reveal_strlit("activity");
    reveal_with_fuel(count_placeholders, 20);
    assert(count_placeholders("person_name"@) == 0);
    assert(count_placeholders("person_avatar"@) == 0);
    assert(count_placeholders("category"@) == 0);
    assert(count_placeholders("amount"@) == 0);
    assert(count_placeholders("transaction_type"@) == 0);
    assert(count_placeholders("reason"@) == 0);
    assert(count_placeholders("responsible_person"@) == 0);
    assert(count_placeholders("username"@) == 0);
    assert(count_placeholders("full_name"@) == 0);
    assert(count_placeholders("role"@) == 0);
    assert(count_placeholders("status"@) == 0);
    assert(count_placeholders("avatar"@) == 0);
    assert(count_placeholders("password"@) == 0);
    assert(count_placeholders("department"@) == 0);
    assert(count_placeholders("activity"@) == 0);
}

/// Whether `name` is a declared field of `e`.
pub fn is_allowed_field(e: Entity, name: &String) -> (b: bool)
    ensures
        b == field_allowed(e, name@),
{
    let fields = fields_of(e);
    let mut i: usize = 0;
    while i < fields.len()
        invariant
            0 <= i <= fields.len(),
            fields.deep_view() == spec_fields(e),
            forall|j: int| 0 <= j < i ==> spec_fields(e)[j].name != name@,
        decreases fields.len() - i,
    {
        assert(fields.deep_view()[i as int] == spec_fields(e)[i as int]);
        if fields[i].name == *name {
            return true;
        }
        i = i + 1;
    }
    false
}

} // verus!
