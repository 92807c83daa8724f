//! Patch builder: a sparse partial update in, parameterized SET fragment
//! plus ordered bound values out.
//!
//! An empty patch is an error, not a silent no-op update. Every field
//! name is whitelisted against the registry. The generated clause lists
//! fields in registry declaration order, not request order, so two
//! patches over the same field set always produce identical template
//! text; when a request names a field twice, the last value given wins.

use vstd::prelude::*;
use crate::errors::QueryError;
use crate::registry::{
    field_allowed, fields_of, lemma_registry_names_clean, spec_fields, Entity, FieldSpecV,
};
use crate::template::{count_placeholders, BoundQuery, QueryBuf};
use crate::values::{Value, ValueV};

verus! {

/// One field to change and the value to change it to.
pub struct PatchEntry {
    pub field: String,
    pub value: Value,
}

/// The mathematical value of one patch entry.
pub ghost struct PatchEntryV {
    pub field: Seq<char>,
    pub value: ValueV,
}

impl DeepView for PatchEntry {
    type V = PatchEntryV;

    open spec fn deep_view(&self) -> PatchEntryV {
        PatchEntryV { field: self.field@, value: self.value@ }
    }
}

/// A sparse partial update: only the named fields change.
pub struct PatchRequest {
    pub entries: Vec<PatchEntry>,
}

/// The request names `name` at least once.
pub open spec fn patch_has(es: Seq<PatchEntryV>, name: Seq<char>) -> bool {
    exists|i: int| 0 <= i < es.len() && (#[trigger] es[i]).field == name
}

/// The value bound for `name`: the last one the request gives it.
pub open spec fn last_value(es: Seq<PatchEntryV>, name: Seq<char>) -> ValueV
    decreases es.len(),
{
    if es.len() == 0 {
        ValueV::Null
    } else if es[es.len() - 1].field == name {
        es[es.len() - 1].value
    } else {
        last_value(es.drop_last(), name)
    }
}

/// Every entry names a declared field.
pub open spec fn entries_allowed(e: Entity, es: Seq<PatchEntryV>) -> bool {
    forall|i: int| 0 <= i < es.len() ==> field_allowed(e, (#[trigger] es[i]).field)
}

/// The name of the first entry whose field is not declared.
pub open spec fn first_disallowed_entry(e: Entity, es: Seq<PatchEntryV>) -> Seq<char>
    decreases es.len(),
{
    if es.len() == 0 {
        Seq::<char>::empty()
    } else if !field_allowed(e, es[0].field) {
        es[0].field
    } else {
        first_disallowed_entry(e, es.skip(1))
    }
}

/// SET-clause text over the registry fields still to consider; `first`
/// says whether no assignment has been emitted yet (so no `, ` is owed).
pub open spec fn set_frag(es: Seq<PatchEntryV>, fields: Seq<FieldSpecV>, first: bool) -> Seq<char>
    decreases fields.len(),
{
    if fields.len() == 0 {
        Seq::<char>::empty()
    } else if patch_has(es, fields[0].name) {
        (if first {
            Seq::<char>::empty()
        } else {
            ", "@
        }) + fields[0].name + " = ?"@ + set_frag(es, fields.skip(1), false)
    } else {
        set_frag(es, fields.skip(1), first)
    }
}

/// Bound values over the registry fields still to consider, in clause
/// order.
pub open spec fn set_params(es: Seq<PatchEntryV>, fields: Seq<FieldSpecV>) -> Seq<ValueV>
    decreases fields.len(),
{
    if fields.len() == 0 {
        Seq::<ValueV>::empty()
    } else if patch_has(es, fields[0].name) {
        seq![last_value(es, fields[0].name)] + set_params(es, fields.skip(1))
    } else {
        set_params(es, fields.skip(1))
    }
}

/// The whole SET fragment for `req`.
pub open spec fn spec_set_template(e: Entity, es: Seq<PatchEntryV>) -> Seq<char> {
    "SET "@ + set_frag(es, spec_fields(e), true)
}

/// The bound values for `req`, in the order their placeholders appear.
pub open spec fn spec_set_params(e: Entity, es: Seq<PatchEntryV>) -> Seq<ValueV> {
    set_params(es, spec_fields(e))
}

proof fn lemma_first_disallowed_entry(e: Entity, es: Seq<PatchEntryV>, i: int)
    requires
        0 <= i < es.len(),
        forall|j: int| 0 <= j < i ==> field_allowed(e, (#[trigger] es[j]).field),
        !field_allowed(e, es[i].field),
    ensures
        first_disallowed_entry(e, es) == es[i].field,
    decreases i,
{
    if i > 0 {
        assert(field_allowed(e, es[0].field));
        assert(forall|j: int| 0 <= j < i - 1 ==> (#[trigger] es.skip(1)[j]) == es[j + 1]);
        lemma_first_disallowed_entry(e, es.skip(1), i - 1);
    }
}

proof fn lemma_patch_fragment_counts()
    ensures
        count_placeholders("SET "@) == 0,
        count_placeholders(", "@) == 0,
        count_placeholders(" = ?"@) == 1,
{
    reveal_strlit("SET ");
    reveal_strlit(", ");
    reveal_strlit(" = ?");
    reveal_with_fuel(count_placeholders, 6);
    assert(count_placeholders("SET "@) == 0);
    assert(count_placeholders(", "@) == 0);
    assert(count_placeholders(" = ?"@) == 1);
}

/// Whether the request names `name`.
fn patch_contains(req: &PatchRequest, name: &String) -> (b: bool)
    ensures
        b == patch_has(req.entries.deep_view(), name@),
{
    let mut i: usize = 0;
    while i < req.entries.len()
        invariant
            0 <= i <= req.entries.len(),
            forall|j: int| 0 <= j < i ==> (#[trigger] req.entries.deep_view()[j]).field != name@,
        decreases req.entries.len() - i,
    {
        proof {
            assert(req.entries.deep_view()[i as int] == req.entries@[i as int].deep_view());
        }
        if req.entries[i].field == *name {
            return true;
        }
        i = i + 1;
    }
    false
}

/// The last value the request gives `name`.
fn find_last_value(req: &PatchRequest, name: &String) -> (r: Value)
    requires
        patch_has(req.entries.deep_view(), name@),
    ensures
        r@ == last_value(req.entries.deep_view(), name@),
{
    let mut found: Option<Value> = None;
    let mut i: usize = 0;
    while i < req.entries.len()
        invariant
            0 <= i <= req.entries.len(),
            patch_has(req.entries.deep_view().take(i as int), name@) <==> found is Some,
            found matches Some(v) ==> v@ == last_value(
                req.entries.deep_view().take(i as int),
                name@,
            ),
        decreases req.entries.len() - i,
    {
        let ghost before = req.entries.deep_view().take(i as int);
        let e = &req.entries[i];
        if e.field == *name {
            found = Some(e.value.duplicate());
        }
        proof {
            let after = req.entries.deep_view().take(i + 1 as int);
            assert(after.drop_last() =~= before);
            assert(after[after.len() - 1] == req.entries.deep_view()[i as int]);
            if req.entries.deep_view()[i as int].field != name@ {
                if patch_has(before, name@) {
                    let w = choose|w: int|
                        0 <= w < before.len() && (#[trigger] before[w]).field == name@;
                    assert(after[w].field == name@);
                }
                if patch_has(after, name@) {
                    let w = choose|w: int|
                        0 <= w < after.len() && (#[trigger] after[w]).field == name@;
                    assert(w < before.len() && before[w] == after[w]);
                }
            } else {
                assert(patch_has(after, name@));
            }
        }
        i = i + 1;
    }
    proof {
        assert(req.entries.deep_view().take(req.entries.deep_view().len() as int)
            =~= req.entries.deep_view());
    }
    match found {
        Some(v) => v,
        None => {
            proof {
                assert(false);
            }
            Value::Null
        },
    }
}

/// Build the SET fragment and its bound values for `req` against the
/// registry of `e`.
///
/// Fails with `EmptyPatch` on a request with no entries, and with
/// `Validation` naming the first undeclared field. On success the
/// fragment lists the requested fields in registry order, one `?` per
/// bound value, the last requested value winning for a repeated field.
pub fn build_set(e: Entity, req: &PatchRequest) -> (r: Result<BoundQuery, QueryError>)
    ensures
        r is Ok <==> req.entries@.len() > 0 && entries_allowed(e, req.entries.deep_view()),
        r matches Ok(q) ==> q.wf() && q.template@ == spec_set_template(e, req.entries.deep_view())
            && q.model().params == spec_set_params(e, req.entries.deep_view()),
        req.entries@.len() == 0 ==> r matches Err(QueryError::EmptyPatch),
        req.entries@.len() > 0 && !entries_allowed(e, req.entries.deep_view()) ==> (r matches Err(
            er,
        ) && er matches QueryError::Validation(name)
            && name@ == first_disallowed_entry(e, req.entries.deep_view())),
{
    if req.entries.len() == 0 {
        return Err(QueryError::EmptyPatch);
    }
    let mut i: usize = 0;
    while i < req.entries.len()
        invariant
            0 <= i <= req.entries.len(),
            forall|j: int|
                0 <= j < i ==> field_allowed(e, (#[trigger] req.entries.deep_view()[j]).field),
        decreases req.entries.len() - i,
    {
        let entry = &req.entries[i];
        if !crate::registry::is_allowed_field(e, &entry.field) {
            proof {
                lemma_first_disallowed_entry(e, req.entries.deep_view(), i as int);
            }
            return Err(QueryError::Validation(entry.field.clone()));
        }
        i = i + 1;
    }
    proof {
        lemma_patch_fragment_counts();
        lemma_registry_names_clean(e);
    }
    let fields = fields_of(e);
    let mut buf = QueryBuf::new();
    buf.push_sql("SET ");
    let mut first: bool = true;
    let mut k: usize = 0;
    proof {
        assert(spec_fields(e).skip(0) =~= spec_fields(e));
        assert(buf.template() =~= "SET "@);
        assert(buf.params() =~= Seq::<ValueV>::empty());
        assert(buf.params() + set_params(req.entries.deep_view(), spec_fields(e)) =~= set_params(
            req.entries.deep_view(),
            spec_fields(e),
        ));
    }
    while k < fields.len()
        invariant
            0 <= k <= fields.len(),
            fields.deep_view() == spec_fields(e),
            buf.wf(),
            "SET "@ + set_frag(req.entries.deep_view(), spec_fields(e), true) == buf.template()
                + set_frag(req.entries.deep_view(), spec_fields(e).skip(k as int), first),
            set_params(req.entries.deep_view(), spec_fields(e)) == buf.params() + set_params(
                req.entries.deep_view(),
                spec_fields(e).skip(k as int),
            ),
        decreases fields.len() - k,
    {
        proof {
            lemma_patch_fragment_counts();
            lemma_registry_names_clean(e);
            assert(fields.deep_view()[k as int] == spec_fields(e)[k as int]);
            assert(spec_fields(e).skip(k as int)[0] == spec_fields(e)[k as int]);
            assert(spec_fields(e).skip(k as int).skip(1) =~= spec_fields(e).skip(k + 1 as int));
        }
        let name = &fields[k].name;
        if patch_contains(req, name) {
            let v = find_last_value(req, name);
            if first {
                buf.push_sql(name.as_str());
            } else {
                buf.push_sql(", ");
                buf.push_sql(name.as_str());
            }
            buf.push_param_sql(" = ?", v);
            first = false;
        }
        k = k + 1;
    }
    proof {
        assert(spec_fields(e).skip(spec_fields(e).len() as int)
            =~= Seq::<FieldSpecV>::empty());
        assert(buf.template() =~= spec_set_template(e, req.entries.deep_view()));
        assert(buf.params() =~= spec_set_params(e, req.entries.deep_view()));
    }
    Ok(buf.finish())
}

/// The generated SET clause depends only on which registry fields the
/// request names, never on the values: two requests over the same field
/// set share one template, so the statement shape is stable and
/// cacheable. Only the bound values differ.
pub proof fn lemma_set_template_same_fields(e: Entity, es1: Seq<PatchEntryV>, es2: Seq<PatchEntryV>)
    requires
        forall|n: Seq<char>| #[trigger] patch_has(es1, n) <==> patch_has(es2, n),
    ensures
        spec_set_template(e, es1) == spec_set_template(e, es2),
{
    lemma_set_frag_same_fields(es1, es2, spec_fields(e), true);
}

proof fn lemma_set_frag_same_fields(
    es1: Seq<PatchEntryV>,
    es2: Seq<PatchEntryV>,
    fields: Seq<FieldSpecV>,
    first: bool,
)
    requires
        forall|n: Seq<char>| #[trigger] patch_has(es1, n) <==> patch_has(es2, n),
    ensures
        set_frag(es1, fields, first) == set_frag(es2, fields, first),
    decreases fields.len(),
{
    if fields.len() > 0 {
        assert(patch_has(es1, fields[0].name) <==> patch_has(es2, fields[0].name));
        if patch_has(es1, fields[0].name) {
            lemma_set_frag_same_fields(es1, es2, fields.skip(1), false);
        } else {
            lemma_set_frag_same_fields(es1, es2, fields.skip(1), first);
        }
    }
}

} // verus!
