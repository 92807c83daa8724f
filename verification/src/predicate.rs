//! Predicate builder: sparse optional filter criteria in, parameterized
//! WHERE fragment plus ordered bound values out.
//!
//! The fragment always starts with the sentinel `1=1`, so it can stand
//! alone after `WHERE` even when no criterion is present. Predicates are
//! appended with `AND`, in this order: the free-text OR-group, the
//! scoped-date predicate, then the per-field criteria in declared order.
//! An unrecognized `filter_type` deliberately contributes no predicate
//! (a pass-through for filter types this builder does not know), while a
//! field criterion naming an undeclared field is a validation error.

use vstd::prelude::*;
use crate::errors::QueryError;
use crate::like::{like_pattern, like_pattern_chars, spec_trim, str_chars, str_eq, trim_chars, wrap_like};
use crate::models::TransactionFilter;
use crate::registry::{field_allowed, lemma_registry_names_clean, spec_fields, Entity};
use crate::template::{count_placeholders, BoundQuery, QueryBuf};
use crate::values::{Value, ValueV};

verus! {

/// One predicate on one declared field.
pub enum FieldPredicate {
    /// `field = ?`
    Equals(Value),
    /// `field LIKE ? ESCAPE '\'`, the text escaped and wrapped in `%`.
    Contains(String),
    /// `DATE(field) = DATE(?)`
    SameDay(String),
    /// `strftime('%Y-%m', field) = strftime('%Y-%m', ?)`
    SameMonth(String),
}

/// A per-field criterion: the field name is checked against the registry
/// before any query text is produced.
pub struct FieldCriterion {
    pub field: String,
    pub predicate: FieldPredicate,
}

/// Sparse filter criteria for one read.
pub struct FilterCriteria {
    /// Free text searched across the entity's two search columns.
    pub search_query: Option<String>,
    /// `"day"` or `"month"` scopes the read to `date`; anything else
    /// contributes no predicate.
    pub filter_type: Option<String>,
    /// The date the scoped filter compares against.
    pub date: Option<String>,
    /// Per-field predicates, applied in declared order.
    pub fields: Vec<FieldCriterion>,
}

/// First of the two columns the free-text search spans.
pub open spec fn search_col1(e: Entity) -> Seq<char> {
    match e {
        Entity::Transactions => "person_name"@,
        Entity::Users => "username"@,
        Entity::UserActivity => "username"@,
    }
}

/// Second of the two columns the free-text search spans.
pub open spec fn search_col2(e: Entity) -> Seq<char> {
    match e {
        Entity::Transactions => "reason"@,
        Entity::Users => "full_name"@,
        Entity::UserActivity => "activity"@,
    }
}

pub open spec fn like_frag() -> Seq<char> {
    " LIKE ? ESCAPE '\\'"@
}

/// Template text the free-text criterion contributes.
pub open spec fn search_frag(e: Entity, q: Option<String>) -> Seq<char> {
    match q {
        Some(s) => if spec_trim(s@).len() > 0 {
            " AND ("@ + search_col1(e) + like_frag() + " OR "@ + search_col2(e) + like_frag()
                + ")"@
        } else {
            Seq::<char>::empty()
        },
        None => Seq::<char>::empty(),
    }
}

/// Bound values the free-text criterion contributes: the same wrapped,
/// escaped pattern once per searched column.
pub open spec fn search_params(q: Option<String>) -> Seq<ValueV> {
    match q {
        Some(s) => if spec_trim(s@).len() > 0 {
            seq![
                ValueV::Text(wrap_like(spec_trim(s@))),
                ValueV::Text(wrap_like(spec_trim(s@))),
            ]
        } else {
            Seq::<ValueV>::empty()
        },
        None => Seq::<ValueV>::empty(),
    }
}

/// Template text the scoped-date criterion contributes.
pub open spec fn scoped_frag(ft: Option<String>, date: Option<String>) -> Seq<char> {
    match (ft, date) {
        (Some(t), Some(d)) => if t@ == "day"@ {
            " AND DATE(created_at) = DATE(?)"@
        } else if t@ == "month"@ {
            " AND strftime('%Y-%m', created_at)"@ + " = strftime('%Y-%m', ?)"@
        } else {
            Seq::<char>::empty()
        },
        _ => Seq::<char>::empty(),
    }
}

/// Bound values the scoped-date criterion contributes: the raw date string.
pub open spec fn scoped_params(ft: Option<String>, date: Option<String>) -> Seq<ValueV> {
    match (ft, date) {
        (Some(t), Some(d)) => if t@ == "day"@ || t@ == "month"@ {
            seq![ValueV::Text(d@)]
        } else {
            Seq::<ValueV>::empty()
        },
        _ => Seq::<ValueV>::empty(),
    }
}

/// Template text one per-field criterion contributes.
pub open spec fn pred_frag(c: FieldCriterion) -> Seq<char> {
    match c.predicate {
        FieldPredicate::Equals(_) => " AND "@ + c.field@ + " = ?"@,
        FieldPredicate::Contains(_) => " AND "@ + c.field@ + like_frag(),
        FieldPredicate::SameDay(_) => " AND DATE("@ + c.field@ + ") = DATE(?)"@,
        FieldPredicate::SameMonth(_) => " AND strftime('%Y-%m', "@ + c.field@
            + ") = strftime('%Y-%m', ?)"@,
    }
}

/// The one bound value a per-field criterion contributes.
pub open spec fn pred_param(c: FieldCriterion) -> ValueV {
    match c.predicate {
        FieldPredicate::Equals(v) => v@,
        FieldPredicate::Contains(s) => ValueV::Text(wrap_like(s@)),
        FieldPredicate::SameDay(d) => ValueV::Text(d@),
        FieldPredicate::SameMonth(d) => ValueV::Text(d@),
    }
}

pub open spec fn fields_frag(fs: Seq<FieldCriterion>) -> Seq<char>
    decreases fs.len(),
{
    if fs.len() == 0 {
        Seq::<char>::empty()
    } else {
        pred_frag(fs[0]) + fields_frag(fs.skip(1))
    }
}

pub open spec fn fields_params(fs: Seq<FieldCriterion>) -> Seq<ValueV>
    decreases fs.len(),
{
    if fs.len() == 0 {
        Seq::<ValueV>::empty()
    } else {
        seq![pred_param(fs[0])] + fields_params(fs.skip(1))
    }
}

/// Every per-field criterion names a declared field.
pub open spec fn fields_allowed(e: Entity, fs: Seq<FieldCriterion>) -> bool {
    forall|i: int| 0 <= i < fs.len() ==> field_allowed(e, (#[trigger] fs[i]).field@)
}

/// The name of the first criterion whose field is not declared.
pub open spec fn first_disallowed_name(e: Entity, fs: Seq<FieldCriterion>) -> Seq<char>
    decreases fs.len(),
{
    if fs.len() == 0 {
        Seq::<char>::empty()
    } else if !field_allowed(e, fs[0].field@) {
        fs[0].field@
    } else {
        first_disallowed_name(e, fs.skip(1))
    }
}

/// Two per-field criteria have the same shape when they name the same
/// field with the same kind of predicate; the value compared against is
/// free to differ.
pub open spec fn same_criterion_shape(c1: FieldCriterion, c2: FieldCriterion) -> bool {
    &&& c1.field@ == c2.field@
    &&& match (c1.predicate, c2.predicate) {
        (FieldPredicate::Equals(_), FieldPredicate::Equals(_)) => true,
        (FieldPredicate::Contains(_), FieldPredicate::Contains(_)) => true,
        (FieldPredicate::SameDay(_), FieldPredicate::SameDay(_)) => true,
        (FieldPredicate::SameMonth(_), FieldPredicate::SameMonth(_)) => true,
        _ => false,
    }
}

proof fn lemma_fields_frag_shape(fs1: Seq<FieldCriterion>, fs2: Seq<FieldCriterion>)
    requires
        fs1.len() == fs2.len(),
        forall|i: int| 0 <= i < fs1.len() ==> same_criterion_shape(
            #[trigger] fs1[i],
            #[trigger] fs2[i],
        ),
    ensures
        fields_frag(fs1) == fields_frag(fs2),
    decreases fs1.len(),
{
    if fs1.len() > 0 {
        assert(same_criterion_shape(fs1[0], fs2[0]));
        assert(pred_frag(fs1[0]) == pred_frag(fs2[0]));
        assert(forall|i: int|
            0 <= i < fs1.skip(1).len() ==> #[trigger] fs1.skip(1)[i] == fs1[i + 1]
                && #[trigger] fs2.skip(1)[i] == fs2[i + 1]);
        lemma_fields_frag_shape(fs1.skip(1), fs2.skip(1));
    }
}

/// No user payload ever reaches the template text: the generated WHERE
/// fragment depends only on the shape of the criteria — whether a
/// free-text search is active, which scoped-date filter is chosen and
/// whether a date is present, and which fields are tested how — never on
/// the search text, the date value, or the values compared against.
/// Those travel exclusively as bound parameters.
pub proof fn lemma_where_template_value_independent(
    e: Entity,
    f1: FilterCriteria,
    f2: FilterCriteria,
)
    requires
        (f1.search_query matches Some(s1) && spec_trim(s1@).len() > 0) <==> (
        f2.search_query matches Some(s2) && spec_trim(s2@).len() > 0),
        f1.filter_type == f2.filter_type,
        f1.date is Some <==> f2.date is Some,
        f1.fields@.len() == f2.fields@.len(),
        forall|i: int| 0 <= i < f1.fields@.len() ==> same_criterion_shape(
            #[trigger] f1.fields@[i],
            #[trigger] f2.fields@[i],
        ),
    ensures
        spec_where_template(e, f1) == spec_where_template(e, f2),
{
    assert(search_frag(e, f1.search_query) == search_frag(e, f2.search_query));
    assert(scoped_frag(f1.filter_type, f1.date) == scoped_frag(f2.filter_type, f2.date));
    lemma_fields_frag_shape(f1.fields@, f2.fields@);
}

/// What the bound free-text value means at the store: the pattern built
/// from a search text matches a stored text exactly when that text holds
/// the trimmed search text literally, wildcard characters included.
pub proof fn lemma_search_value_matches_literally(s: Seq<char>, t: Seq<char>)
    ensures
        crate::like::like_matches(wrap_like(spec_trim(s)), t) <==> crate::like::contains_seq(
            t,
            spec_trim(s),
        ),
{
    crate::like::lemma_like_pattern_literal(spec_trim(s), t);
}

/// The whole WHERE fragment for `f`, when all field names are declared.
pub open spec fn spec_where_template(e: Entity, f: FilterCriteria) -> Seq<char> {
    "1=1"@ + search_frag(e, f.search_query) + scoped_frag(f.filter_type, f.date) + fields_frag(
        f.fields@,
    )
}

/// The bound values for `f`, in the order their placeholders appear.
pub open spec fn spec_where_params(e: Entity, f: FilterCriteria) -> Seq<ValueV> {
    search_params(f.search_query) + scoped_params(f.filter_type, f.date) + fields_params(
        f.fields@,
    )
}

proof fn lemma_fields_frag_snoc(fs: Seq<FieldCriterion>, c: FieldCriterion)
    ensures
        fields_frag(fs.push(c)) == fields_frag(fs) + pred_frag(c),
        fields_params(fs.push(c)) == fields_params(fs) + seq![pred_param(c)],
    decreases fs.len(),
{
    reveal_with_fuel(fields_frag, 2);
    reveal_with_fuel(fields_params, 2);
    if fs.len() == 0 {
        assert(fs.push(c)[0] == c);
        assert(fs.push(c).skip(1) =~= Seq::<FieldCriterion>::empty());
        assert(fields_frag(fs) =~= Seq::<char>::empty());
        assert(fields_params(fs) =~= Seq::<ValueV>::empty());
        assert(fields_frag(fs.push(c)) =~= fields_frag(fs) + pred_frag(c));
        assert(fields_params(fs.push(c)) =~= fields_params(fs) + seq![pred_param(c)]);
    } else {
        assert(fs.push(c)[0] == fs[0]);
        assert(fs.push(c).skip(1) =~= fs.skip(1).push(c));
        lemma_fields_frag_snoc(fs.skip(1), c);
        assert(fields_frag(fs.push(c)) == pred_frag(fs[0]) + (fields_frag(fs.skip(1))
            + pred_frag(c)));
        assert(fields_frag(fs.push(c)) =~= fields_frag(fs) + pred_frag(c));
        assert(fields_params(fs.push(c)) == seq![pred_param(fs[0])] + (fields_params(fs.skip(1))
            + seq![pred_param(c)]));
        assert(fields_params(fs.push(c)) =~= fields_params(fs) + seq![pred_param(c)]);
    }
}

proof fn lemma_first_disallowed(e: Entity, fs: Seq<FieldCriterion>, i: int)
    requires
        0 <= i < fs.len(),
        forall|j: int| 0 <= j < i ==> field_allowed(e, (#[trigger] fs[j]).field@),
        !field_allowed(e, fs[i].field@),
    ensures
        first_disallowed_name(e, fs) == fs[i].field@,
    decreases i,
{
    if i > 0 {
        assert(field_allowed(e, fs[0].field@));
        assert(forall|j: int|
            0 <= j < i - 1 ==> (#[trigger] fs.skip(1)[j]) == fs[j + 1]);
        lemma_first_disallowed(e, fs.skip(1), i - 1);
    }
}

/// Placeholder counts of every literal fragment the builders use.
#[verifier::rlimit(100)]
proof fn lemma_fragment_counts()
    ensures
        count_placeholders("1=1"@) == 0,
        count_placeholders(" AND ("@) == 0,
        count_placeholders(like_frag()) == 1,
        count_placeholders(" OR "@) == 0,
        count_placeholders(")"@) == 0,
        count_placeholders(" AND DATE(created_at) = DATE(?)"@) == 1,
        count_placeholders(" AND strftime('%Y-%m', created_at)"@) == 0,
        count_placeholders(" = strftime('%Y-%m', ?)"@) == 1,
        count_placeholders(" AND "@) == 0,
        count_placeholders(" = ?"@) == 1,
        count_placeholders(" AND DATE("@) == 0,
        count_placeholders(") = DATE(?)"@) == 1,
        count_placeholders(" AND strftime('%Y-%m', "@) == 0,
        count_placeholders(") = strftime('%Y-%m', ?)"@) == 1,
{
    reveal_strlit("1=1");
    reveal_strlit(" AND (");
    reveal_strlit(" LIKE ? ESCAPE '\\'");
    reveal_strlit(" OR ");
    reveal_strlit(")");
    reveal_strlit(" AND DATE(created_at) = DATE(?)");
    reveal_strlit(" AND strftime('%Y-%m', created_at)");
    reveal_strlit(" = strftime('%Y-%m', ?)");
    reveal_strlit(" AND ");
    reveal_strlit(" = ?");
    reveal_strlit(" AND DATE(");
    reveal_strlit(") = DATE(?)");
    reveal_strlit(" AND strftime('%Y-%m', ");
    reveal_strlit(") = strftime('%Y-%m', ?)");
    reveal_with_fuel(count_placeholders, 60);
    assert(count_placeholders("1=1"@) == 0);
    assert(count_placeholders(" AND ("@) == 0);
    assert(count_placeholders(" LIKE ? ESCAPE '\\'"@) == 1);
    assert(count_placeholders(" OR "@) == 0);
    assert(count_placeholders(")"@) == 0);
    assert(count_placeholders(" AND DATE(created_at) = DATE(?)"@) == 1);
    assert(count_placeholders(" AND strftime('%Y-%m', created_at)"@) == 0);
    assert(count_placeholders(" = strftime('%Y-%m', ?)"@) == 1);
    assert(count_placeholders(" AND "@) == 0);
    assert(count_placeholders(" = ?"@) == 1);
    assert(count_placeholders(" AND DATE("@) == 0);
    assert(count_placeholders(") = DATE(?)"@) == 1);
    assert(count_placeholders(" AND strftime('%Y-%m', "@) == 0);
    assert(count_placeholders(") = strftime('%Y-%m', ?)"@) == 1);
}

/// The two column names the free-text search of `e` spans.
fn search_column_names(e: Entity) -> (r: (&'static str, &'static str))
    ensures
        r.0@ == search_col1(e),
        r.1@ == search_col2(e),
        count_placeholders(search_col1(e)) == 0,
        count_placeholders(search_col2(e)) == 0,
{
    proof {
        lemma_registry_names_clean(Entity::Transactions);
        lemma_registry_names_clean(Entity::Users);
        lemma_registry_names_clean(Entity::UserActivity);
        assert(spec_fields(Entity::Transactions)[0].name == "person_name"@);
        assert(spec_fields(Entity::Transactions)[5].name == "reason"@);
        assert(spec_fields(Entity::Users)[0].name == "username"@);
        assert(spec_fields(Entity::Users)[1].name == "full_name"@);
        assert(spec_fields(Entity::UserActivity)[1].name == "activity"@);
    }
    match e {
        Entity::Transactions => ("person_name", "reason"),
        Entity::Users => ("username", "full_name"),
        Entity::UserActivity => ("username", "activity"),
    }
}

/// Build the WHERE fragment and its bound values for `f` against the
/// registry of `e`.
///
/// Succeeds exactly when every per-field criterion names a declared
/// field; the first undeclared name is returned in the error. On
/// success the fragment's placeholder count equals the number of bound
/// values, and both follow `f` exactly.
pub fn build_where(e: Entity, f: &FilterCriteria) -> (r: Result<BoundQuery, QueryError>)
    ensures
        r is Ok <==> fields_allowed(e, f.fields@),
        r matches Ok(q) ==> q.wf() && q.template@ == spec_where_template(e, *f)
            && q.model().params == spec_where_params(e, *f),
        r matches Err(er) ==> er matches QueryError::Validation(name)
            && name@ == first_disallowed_name(e, f.fields@),
{
    proof {
        lemma_fragment_counts();
    }
    let mut buf = QueryBuf::new();
    buf.push_sql("1=1");
    match &f.search_query {
        Some(s) => {
            let tc = trim_chars(str_chars(s.as_str()));
            if tc.len() > 0 {
                let pat1 = like_pattern_chars(&tc);
                let pat2 = pat1.clone();
                let cols = search_column_names(e);
                buf.push_sql(" AND (");
                buf.push_sql(cols.0);
                buf.push_param_sql(" LIKE ? ESCAPE '\\'", Value::Text(pat1));
                buf.push_sql(" OR ");
                buf.push_sql(cols.1);
                buf.push_param_sql(" LIKE ? ESCAPE '\\'", Value::Text(pat2));
                buf.push_sql(")");
            }
        },
        None => {},
    }
    assert(buf.template() =~= "1=1"@ + search_frag(e, f.search_query));
    assert(buf.params() =~= search_params(f.search_query));
    match &f.filter_type {
        Some(t) => {
            match &f.date {
                Some(d) => {
                    if str_eq(t.as_str(), "day") {
                        buf.push_param_sql(
                            " AND DATE(created_at) = DATE(?)",
                            Value::Text(d.clone()),
                        );
                    } else if str_eq(t.as_str(), "month") {
                        buf.push_sql(" AND strftime('%Y-%m', created_at)");
                        buf.push_param_sql(" = strftime('%Y-%m', ?)", Value::Text(d.clone()));
                    }
                },
                None => {},
            }
        },
        None => {},
    }
    assert(buf.template() =~= "1=1"@ + search_frag(e, f.search_query) + scoped_frag(
        f.filter_type,
        f.date,
    ));
    assert(buf.params() =~= search_params(f.search_query) + scoped_params(f.filter_type, f.date));
    let mut i: usize = 0;
    while i < f.fields.len()
        invariant
            0 <= i <= f.fields.len(),
            buf.wf(),
            buf.template() == "1=1"@ + search_frag(e, f.search_query) + scoped_frag(
                f.filter_type,
                f.date,
            ) + fields_frag(f.fields@.take(i as int)),
            buf.params() == search_params(f.search_query) + scoped_params(f.filter_type, f.date)
                + fields_params(f.fields@.take(i as int)),
            forall|j: int| 0 <= j < i ==> field_allowed(e, (#[trigger] f.fields@[j]).field@),
        decreases f.fields.len() - i,
    {
        proof {
            lemma_fragment_counts();
        }
        let c = &f.fields[i];
        if !crate::registry::is_allowed_field(e, &c.field) {
            proof {
                lemma_first_disallowed(e, f.fields@, i as int);
            }
            return Err(QueryError::Validation(c.field.clone()));
        }
        proof {
            lemma_registry_names_clean(e);
            let k = choose|k: int|
                0 <= k < spec_fields(e).len() && spec_fields(e)[k].name == c.field@;
            assert(count_placeholders(spec_fields(e)[k].name) == 0);
        }
        match &c.predicate {
            FieldPredicate::Equals(v) => {
                buf.push_sql(" AND ");
                buf.push_sql(c.field.as_str());
                buf.push_param_sql(" = ?", v.duplicate());
            },
            FieldPredicate::Contains(text) => {
                buf.push_sql(" AND ");
                buf.push_sql(c.field.as_str());
                buf.push_param_sql(" LIKE ? ESCAPE '\\'", Value::Text(like_pattern(text.as_str())));
            },
            FieldPredicate::SameDay(d) => {
                buf.push_sql(" AND DATE(");
                buf.push_sql(c.field.as_str());
                buf.push_param_sql(") = DATE(?)", Value::Text(d.clone()));
            },
            FieldPredicate::SameMonth(d) => {
                buf.push_sql(" AND strftime('%Y-%m', ");
                buf.push_sql(c.field.as_str());
                buf.push_param_sql(") = strftime('%Y-%m', ?)", Value::Text(d.clone()));
            },
        }
        proof {
            assert(f.fields@.take(i + 1 as int) =~= f.fields@.take(i as int).push(
                f.fields@[i as int],
            ));
            lemma_fields_frag_snoc(f.fields@.take(i as int), f.fields@[i as int]);
            assert(buf.template() =~= "1=1"@ + search_frag(e, f.search_query) + scoped_frag(
                f.filter_type,
                f.date,
            ) + fields_frag(f.fields@.take(i + 1 as int)));
            assert(buf.params() =~= search_params(f.search_query) + scoped_params(
                f.filter_type,
                f.date,
            ) + fields_params(f.fields@.take(i + 1 as int)));
        }
        i = i + 1;
    }
    proof {
        assert(f.fields@.take(f.fields@.len() as int) =~= f.fields@);
    }
    Ok(buf.finish())
}

/// The filter shape the front-end sends, lifted to full criteria: free
/// text plus the scoped-date filter, no per-field predicates.
pub fn criteria_of_filter(f: &TransactionFilter) -> (r: FilterCriteria)
    ensures
        r.search_query == f.search_query,
        r.filter_type == f.filter_type,
        r.date == f.date,
        r.fields@ == Seq::<FieldCriterion>::empty(),
{
    FilterCriteria {
        search_query: clone_opt(&f.search_query),
        filter_type: clone_opt(&f.filter_type),
        date: clone_opt(&f.date),
        fields: Vec::new(),
    }
}

/// A copy of an optional string.
pub fn clone_opt(s: &Option<String>) -> (r: Option<String>)
    ensures
        r == *s,
{
    match s {
        Some(x) => Some(x.clone()),
        None => None,
    }
}

} // verus!
