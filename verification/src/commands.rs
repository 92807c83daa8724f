//! Per-command query construction and result interpretation.
//!
//! Each command of the application maps to one function here that builds
//! the exact bound query the executor runs, and where the store's answer
//! needs interpreting (a missing row, an affected-row count), to a
//! function that interprets it. The functions that read the clock hand
//! the timestamp to a fully specified constructor, so everything past
//! the clock is pinned down.

use vstd::prelude::*;
use crate::errors::QueryError;
use crate::models::{DailyStats, NewTransaction, NewUser, TransactionFilter, UpdateUser};
use crate::patch::{
    build_set, entries_allowed, spec_set_params, spec_set_template, PatchEntry, PatchEntryV,
    PatchRequest,
};
use crate::predicate::{build_where, criteria_of_filter, scoped_frag, scoped_params, search_frag, search_params};
use crate::registry::{field_allowed, spec_fields, Entity};
use crate::template::{count_placeholders, BoundQuery, QueryBuf};
use crate::values::{Value, ValueV};

verus! {

/// The daily budget, in cents.
pub const DAILY_BUDGET_CENTS: i64 = 200000;

/// What an optional text field binds as: its text, or NULL.
pub open spec fn opt_text(o: Option<String>) -> ValueV {
    match o {
        Some(s) => ValueV::Text(s@),
        None => ValueV::Null,
    }
}

/// The bound value for an optional text field.
pub fn opt_value(o: &Option<String>) -> (r: Value)
    ensures
        r@ == opt_text(*o),
{
    match o {
        Some(s) => Value::Text(s.clone()),
        None => Value::Null,
    }
}

#[verifier::rlimit(100)]
proof fn lemma_command_fragment_counts()
    ensures
        count_placeholders("SELECT COALESCE(SUM(amount), 0)"@) == 0,
        count_placeholders(" FROM transactions"@) == 0,
        count_placeholders(" WHERE transaction_type = 'expense'"@) == 0,
        count_placeholders(" AND DATE(created_at) = DATE(?)"@) == 1,
        count_placeholders("SELECT * FROM transactions"@) == 0,
        count_placeholders(" WHERE DATE(created_at) = DATE(?)"@) == 1,
        count_placeholders(" ORDER BY created_at DESC"@) == 0,
        count_placeholders("INSERT INTO transactions"@) == 0,
        count_placeholders(" (person_name, person_avatar, category,"@) == 0,
        count_placeholders(" amount, transaction_type, reason,"@) == 0,
        count_placeholders(" responsible_person, created_at)"@) == 0,
        count_placeholders(" VALUES ("@) == 0,
        count_placeholders("?"@) == 1,
        count_placeholders(", ?"@) == 1,
        count_placeholders(")"@) == 0,
        count_placeholders(" RETURNING *"@) == 0,
        count_placeholders("SELECT * FROM transactions WHERE "@) == 0,
        count_placeholders("SELECT * FROM users"@) == 0,
        count_placeholders("INSERT INTO users"@) == 0,
        count_placeholders(" (username, full_name, role,"@) == 0,
        count_placeholders(" password, department, created_at)"@) == 0,
        count_placeholders("UPDATE users "@) == 0,
        count_placeholders(" WHERE id = ?"@) == 1,
        count_placeholders("DELETE FROM users WHERE id = ?"@) == 1,
        count_placeholders("SELECT * FROM user_activity"@) == 0,
        count_placeholders(" ORDER BY created_at DESC LIMIT 20"@) == 0,
{
    reveal_strlit("SELECT COALESCE(SUM(amount), 0)");
    reveal_strlit(" FROM transactions");
    reveal_strlit(" WHERE transaction_type = 'expense'");
    reveal_strlit(" AND DATE(created_at) = DATE(?)");
    reveal_strlit("SELECT * FROM transactions");
    reveal_strlit(" WHERE DATE(created_at) = DATE(?)");
    reveal_strlit(" ORDER BY created_at DESC");
    reveal_strlit("INSERT INTO transactions");
    reveal_strlit(" (person_name, person_avatar, category,");
    reveal_strlit(" amount, transaction_type, reason,");
    reveal_strlit(" responsible_person, created_at)");
    reveal_strlit(" VALUES (");
    reveal_strlit("?");
    reveal_strlit(", ?");
    reveal_strlit(")");
    reveal_strlit(" RETURNING *");
    reveal_strlit("SELECT * FROM transactions WHERE ");
    reveal_strlit("SELECT * FROM users");
    reveal_strlit("INSERT INTO users");
    reveal_strlit(" (username, full_name, role,");
    reveal_strlit(" password, department, created_at)");
    reveal_strlit("UPDATE users ");
    reveal_strlit(" WHERE id = ?");
    reveal_strlit("DELETE FROM users WHERE id = ?");
    reveal_strlit("SELECT * FROM user_activity");
    reveal_strlit(" ORDER BY created_at DESC LIMIT 20");
    reveal_with_fuel(count_placeholders, 41);
    assert(count_placeholders("SELECT COALESCE(SUM(amount), 0)"@) == 0);
    assert(count_placeholders(" FROM transactions"@) == 0);
    assert(count_placeholders(" WHERE transaction_type = 'expense'"@) == 0);
    assert(count_placeholders(" AND DATE(created_at) = DATE(?)"@) == 1);
    assert(count_placeholders("SELECT * FROM transactions"@) == 0);
    assert(count_placeholders(" WHERE DATE(created_at) = DATE(?)"@) == 1);
    assert(count_placeholders(" ORDER BY created_at DESC"@) == 0);
    assert(count_placeholders("INSERT INTO transactions"@) == 0);
    assert(count_placeholders(" (person_name, person_avatar, category,"@) == 0);
    assert(count_placeholders(" amount, transaction_type, reason,"@) == 0);
    assert(count_placeholders(" responsible_person, created_at)"@) == 0);
    assert(count_placeholders(" VALUES ("@) == 0);
    assert(count_placeholders("?"@) == 1);
    assert(count_placeholders(", ?"@) == 1);
    assert(count_placeholders(")"@) == 0);
    assert(count_placeholders(" RETURNING *"@) == 0);
    assert(count_placeholders("SELECT * FROM transactions WHERE "@) == 0);
    assert(count_placeholders("SELECT * FROM users"@) == 0);
    assert(count_placeholders("INSERT INTO users"@) == 0);
    assert(count_placeholders(" (username, full_name, role,"@) == 0);
    assert(count_placeholders(" password, department, created_at)"@) == 0);
    assert(count_placeholders("UPDATE users "@) == 0);
    assert(count_placeholders(" WHERE id = ?"@) == 1);
    assert(count_placeholders("DELETE FROM users WHERE id = ?"@) == 1);
    assert(count_placeholders("SELECT * FROM user_activity"@) == 0);
    assert(count_placeholders(" ORDER BY created_at DESC LIMIT 20"@) == 0);
}

pub open spec fn daily_expenses_template() -> Seq<char> {
    "SELECT COALESCE(SUM(amount), 0)"@ + " FROM transactions"@
        + " WHERE transaction_type = 'expense'"@ + " AND DATE(created_at) = DATE(?)"@
}

/// The sum of today's expenses: one bound parameter, the day.
pub fn daily_expenses_query(today: &str) -> (q: BoundQuery)
    ensures
        q.wf(),
        q.template@ == daily_expenses_template(),
        q.model().params == seq![ValueV::Text(today@)],
{
    proof {
        lemma_command_fragment_counts();
    }
    let mut buf = QueryBuf::new();
    buf.push_sql("SELECT COALESCE(SUM(amount), 0)");
    buf.push_sql(" FROM transactions");
    buf.push_sql(" WHERE transaction_type = 'expense'");
    buf.push_param_sql(" AND DATE(created_at) = DATE(?)", Value::Text(today.to_owned()));
    proof {
        assert(buf.template() =~= daily_expenses_template());
        assert(buf.params() =~= seq![ValueV::Text(today@)]);
    }
    buf.finish()
}

pub open spec fn today_transactions_template() -> Seq<char> {
    "SELECT * FROM transactions"@ + " WHERE DATE(created_at) = DATE(?)"@
        + " ORDER BY created_at DESC"@
}

/// All transactions of one day, newest first: one bound parameter, the day.
pub fn today_transactions_query(today: &str) -> (q: BoundQuery)
    ensures
        q.wf(),
        q.template@ == today_transactions_template(),
        q.model().params == seq![ValueV::Text(today@)],
{
    proof {
        lemma_command_fragment_counts();
    }
    let mut buf = QueryBuf::new();
    buf.push_sql("SELECT * FROM transactions");
    buf.push_param_sql(" WHERE DATE(created_at) = DATE(?)", Value::Text(today.to_owned()));
    buf.push_sql(" ORDER BY created_at DESC");
    proof {
        assert(buf.template() =~= today_transactions_template());
        assert(buf.params() =~= seq![ValueV::Text(today@)]);
    }
    buf.finish()
}

pub open spec fn insert_transaction_template() -> Seq<char> {
    "INSERT INTO transactions"@ + " (person_name, person_avatar, category,"@
        + " amount, transaction_type, reason,"@ + " responsible_person, created_at)"@
        + " VALUES ("@ + "?"@ + ", ?"@ + ", ?"@ + ", ?"@ + ", ?"@ + ", ?"@ + ", ?"@ + ", ?"@
        + ")"@ + " RETURNING *"@
}

/// The values an insert of `t` binds, in column order, ending with the
/// creation timestamp.
pub open spec fn insert_transaction_params(t: NewTransaction, created_at: Seq<char>) -> Seq<
    ValueV,
> {
    seq![
        ValueV::Text(t.person_name@),
        opt_text(t.person_avatar),
        ValueV::Text(t.category@),
        ValueV::Int(t.amount_cents as int),
        ValueV::Text(t.transaction_type@),
        ValueV::Text(t.reason@),
        opt_text(t.responsible_person),
        ValueV::Text(created_at),
    ]
}

/// Insert `t`, stamped `created_at`, returning the stored row.
pub fn add_transaction_query(t: &NewTransaction, created_at: &str) -> (q: BoundQuery)
    ensures
        q.wf(),
        q.template@ == insert_transaction_template(),
        q.model().params == insert_transaction_params(*t, created_at@),
{
    proof {
        lemma_command_fragment_counts();
    }
    let mut buf = QueryBuf::new();
    buf.push_sql("INSERT INTO transactions");
    buf.push_sql(" (person_name, person_avatar, category,");
    buf.push_sql(" amount, transaction_type, reason,");
    buf.push_sql(" responsible_person, created_at)");
    buf.push_sql(" VALUES (");
    buf.push_param_sql("?", Value::Text(t.person_name.clone()));
    buf.push_param_sql(", ?", opt_value(&t.person_avatar));
    buf.push_param_sql(", ?", Value::Text(t.category.clone()));
    buf.push_param_sql(", ?", Value::Int(t.amount_cents));
    buf.push_param_sql(", ?", Value::Text(t.transaction_type.clone()));
    buf.push_param_sql(", ?", Value::Text(t.reason.clone()));
    buf.push_param_sql(", ?", opt_value(&t.responsible_person));
    buf.push_param_sql(", ?", Value::Text(created_at.to_owned()));
    buf.push_sql(")");
    buf.push_sql(" RETURNING *");
    proof {
        assert(buf.template() =~= insert_transaction_template());
        assert(buf.params() =~= insert_transaction_params(*t, created_at@));
    }
    buf.finish()
}

/// The filtered search over transactions: free text and the scoped-date
/// filter, newest first. Cannot fail: the filter shape references no
/// field names of its own.
pub fn search_transactions_query(f: &TransactionFilter) -> (q: BoundQuery)
    ensures
        q.wf(),
        q.template@ == "SELECT * FROM transactions WHERE "@ + "1=1"@ + search_frag(
            Entity::Transactions,
            f.search_query,
        ) + scoped_frag(f.filter_type, f.date) + " ORDER BY created_at DESC"@,
        q.model().params == search_params(f.search_query) + scoped_params(f.filter_type, f.date),
{
    proof {
        lemma_command_fragment_counts();
    }
    let criteria = criteria_of_filter(f);
    let where_part = build_where(Entity::Transactions, &criteria);
    match where_part {
        Ok(w) => {
            let mut buf = QueryBuf::new();
            buf.push_sql("SELECT * FROM transactions WHERE ");
            buf.push_bound(w);
            buf.push_sql(" ORDER BY created_at DESC");
            proof {
                assert(crate::predicate::fields_frag(criteria.fields@)
                    =~= Seq::<char>::empty());
                assert(crate::predicate::fields_params(criteria.fields@)
                    =~= Seq::<ValueV>::empty());
                assert(buf.template() =~= "SELECT * FROM transactions WHERE "@ + "1=1"@
                    + search_frag(Entity::Transactions, f.search_query) + scoped_frag(
                    f.filter_type,
                    f.date,
                ) + " ORDER BY created_at DESC"@);
                assert(buf.params() =~= search_params(f.search_query) + scoped_params(
                    f.filter_type,
                    f.date,
                ));
            }
            buf.finish()
        },
        Err(_) => {
            proof {
                assert(false);
            }
            QueryBuf::new().finish()
        },
    }
}

pub open spec fn all_users_template() -> Seq<char> {
    "SELECT * FROM users"@ + " ORDER BY created_at DESC"@
}

/// All users, newest first. No bound values.
pub fn all_users_query() -> (q: BoundQuery)
    ensures
        q.wf(),
        q.template@ == all_users_template(),
        q.model().params == Seq::<ValueV>::empty(),
{
    proof {
        lemma_command_fragment_counts();
    }
    let mut buf = QueryBuf::new();
    buf.push_sql("SELECT * FROM users");
    buf.push_sql(" ORDER BY created_at DESC");
    proof {
        assert(buf.template() =~= all_users_template());
    }
    buf.finish()
}

pub open spec fn insert_user_template() -> Seq<char> {
    "INSERT INTO users"@ + " (username, full_name, role,"@
        + " password, department, created_at)"@ + " VALUES ("@ + "?"@ + ", ?"@ + ", ?"@ + ", ?"@
        + ", ?"@ + ", ?"@ + ")"@ + " RETURNING *"@
}

/// The values an insert of `u` binds, in column order.
pub open spec fn insert_user_params(u: NewUser, created_at: Seq<char>) -> Seq<ValueV> {
    seq![
        ValueV::Text(u.username@),
        ValueV::Text(u.full_name@),
        ValueV::Text(u.role@),
        ValueV::Text(u.password@),
        opt_text(u.department),
        ValueV::Text(created_at),
    ]
}

/// Insert `u`, stamped `created_at`, returning the stored row.
pub fn add_user_query(u: &NewUser, created_at: &str) -> (q: BoundQuery)
    ensures
        q.wf(),
        q.template@ == insert_user_template(),
        q.model().params == insert_user_params(*u, created_at@),
{
    proof {
        lemma_command_fragment_counts();
    }
    let mut buf = QueryBuf::new();
    buf.push_sql("INSERT INTO users");
    buf.push_sql(" (username, full_name, role,");
    buf.push_sql(" password, department, created_at)");
    buf.push_sql(" VALUES (");
    buf.push_param_sql("?", Value::Text(u.username.clone()));
    buf.push_param_sql(", ?", Value::Text(u.full_name.clone()));
    buf.push_param_sql(", ?", Value::Text(u.role.clone()));
    buf.push_param_sql(", ?", Value::Text(u.password.clone()));
    buf.push_param_sql(", ?", opt_value(&u.department));
    buf.push_param_sql(", ?", Value::Text(created_at.to_owned()));
    buf.push_sql(")");
    buf.push_sql(" RETURNING *");
    proof {
        assert(buf.template() =~= insert_user_template());
        assert(buf.params() =~= insert_user_params(*u, created_at@));
    }
    buf.finish()
}

/// The patch entries a sparse user update stands for, in the field order
/// of the update shape.
pub open spec fn opt_entry(name: Seq<char>, o: Option<String>) -> Seq<PatchEntryV> {
    match o {
        Some(s) => seq![PatchEntryV { field: name, value: ValueV::Text(s@) }],
        None => Seq::<PatchEntryV>::empty(),
    }
}

pub open spec fn update_patch_entries(p: UpdateUser) -> Seq<PatchEntryV> {
    opt_entry("full_name"@, p.full_name) + opt_entry("role"@, p.role) + opt_entry(
        "status"@,
        p.status,
    ) + opt_entry("department"@, p.department) + opt_entry("password"@, p.password)
}

/// The patch request a sparse user update stands for.
pub fn user_patch(p: &UpdateUser) -> (r: PatchRequest)
    ensures
        r.entries.deep_view() == update_patch_entries(*p),
{
    let mut entries: Vec<PatchEntry> = Vec::new();
    match &p.full_name {
        Some(s) => entries.push(
            PatchEntry { field: "full_name".to_owned(), value: Value::Text(s.clone()) },
        ),
        None => {},
    }
    assert(entries.deep_view() =~= opt_entry("full_name"@, p.full_name));
    match &p.role {
        Some(s) => entries.push(
            PatchEntry { field: "role".to_owned(), value: Value::Text(s.clone()) },
        ),
        None => {},
    }
    assert(entries.deep_view() =~= opt_entry("full_name"@, p.full_name) + opt_entry(
        "role"@,
        p.role,
    ));
    match &p.status {
        Some(s) => entries.push(
            PatchEntry { field: "status".to_owned(), value: Value::Text(s.clone()) },
        ),
        None => {},
    }
    assert(entries.deep_view() =~= opt_entry("full_name"@, p.full_name) + opt_entry(
        "role"@,
        p.role,
    ) + opt_entry("status"@, p.status));
    match &p.department {
        Some(s) => entries.push(
            PatchEntry { field: "department".to_owned(), value: Value::Text(s.clone()) },
        ),
        None => {},
    }
    assert(entries.deep_view() =~= opt_entry("full_name"@, p.full_name) + opt_entry(
        "role"@,
        p.role,
    ) + opt_entry("status"@, p.status) + opt_entry("department"@, p.department));
    match &p.password {
        Some(s) => entries.push(
            PatchEntry { field: "password".to_owned(), value: Value::Text(s.clone()) },
        ),
        None => {},
    }
    assert(entries.deep_view() =~= update_patch_entries(*p));
    PatchRequest { entries }
}

/// Every field a user update can name is declared in the registry.
proof fn lemma_update_entries_allowed(p: UpdateUser)
    ensures
        entries_allowed(Entity::Users, update_patch_entries(p)),
{
    let es = update_patch_entries(p);
    assert(spec_fields(Entity::Users)[1].name == "full_name"@);
    assert(spec_fields(Entity::Users)[2].name == "role"@);
    assert(spec_fields(Entity::Users)[3].name == "status"@);
    assert(spec_fields(Entity::Users)[6].name == "department"@);
    assert(spec_fields(Entity::Users)[5].name == "password"@);
    assert(field_allowed(Entity::Users, "full_name"@));
    assert(field_allowed(Entity::Users, "role"@));
    assert(field_allowed(Entity::Users, "status"@));
    assert(field_allowed(Entity::Users, "department"@));
    assert(field_allowed(Entity::Users, "password"@));
    assert forall|i: int| 0 <= i < es.len() implies field_allowed(
        Entity::Users,
        (#[trigger] es[i]).field,
    ) by {
        assert(es[i].field == "full_name"@ || es[i].field == "role"@ || es[i].field == "status"@
            || es[i].field == "department"@ || es[i].field == "password"@);
    }
}

/// Apply the sparse update `p` to the user with `id`, returning the
/// stored row. Fails with `EmptyPatch` exactly when `p` names no field;
/// the SET clause lists fields in registry order.
pub fn update_user_query(id: i64, p: &UpdateUser) -> (r: Result<BoundQuery, QueryError>)
    ensures
        r is Ok <==> update_patch_entries(*p).len() > 0,
        r matches Err(er) ==> er matches QueryError::EmptyPatch,
        r matches Ok(q) ==> q.wf() && q.template@ == "UPDATE users "@ + spec_set_template(
            Entity::Users,
            update_patch_entries(*p),
        ) + " WHERE id = ?"@ + " RETURNING *"@ && q.model().params == spec_set_params(
            Entity::Users,
            update_patch_entries(*p),
        ).push(ValueV::Int(id as int)),
{
    proof {
        lemma_command_fragment_counts();
        lemma_update_entries_allowed(*p);
    }
    let req = user_patch(p);
    match build_set(Entity::Users, &req) {
        Ok(set_part) => {
            let mut buf = QueryBuf::new();
            buf.push_sql("UPDATE users ");
            buf.push_bound(set_part);
            buf.push_param_sql(" WHERE id = ?", Value::Int(id));
            buf.push_sql(" RETURNING *");
            proof {
                assert(buf.template() =~= "UPDATE users "@ + spec_set_template(
                    Entity::Users,
                    update_patch_entries(*p),
                ) + " WHERE id = ?"@ + " RETURNING *"@);
                assert(buf.params() =~= spec_set_params(
                    Entity::Users,
                    update_patch_entries(*p),
                ).push(ValueV::Int(id as int)));
            }
            Ok(buf.finish())
        },
        Err(er) => Err(er),
    }
}

pub open spec fn delete_user_template() -> Seq<char> {
    "DELETE FROM users WHERE id = ?"@
}

/// Delete the user with `id`: one bound parameter, the id.
pub fn delete_user_query(id: i64) -> (q: BoundQuery)
    ensures
        q.wf(),
        q.template@ == delete_user_template(),
        q.model().params == seq![ValueV::Int(id as int)],
{
    proof {
        lemma_command_fragment_counts();
    }
    let mut buf = QueryBuf::new();
    buf.push_param_sql("DELETE FROM users WHERE id = ?", Value::Int(id));
    proof {
        assert(buf.template() =~= delete_user_template());
        assert(buf.params() =~= seq![ValueV::Int(id as int)]);
    }
    buf.finish()
}

pub open spec fn user_activity_template() -> Seq<char> {
    "SELECT * FROM user_activity"@ + " ORDER BY created_at DESC LIMIT 20"@
}

/// The twenty most recent recorded actions. No bound values.
pub fn user_activity_query() -> (q: BoundQuery)
    ensures
        q.wf(),
        q.template@ == user_activity_template(),
        q.model().params == Seq::<ValueV>::empty(),
{
    proof {
        lemma_command_fragment_counts();
    }
    let mut buf = QueryBuf::new();
    buf.push_sql("SELECT * FROM user_activity");
    buf.push_sql(" ORDER BY created_at DESC LIMIT 20");
    proof {
        assert(buf.template() =~= user_activity_template());
    }
    buf.finish()
}

/// A targeted read-one/update that matched no row is `NotFound`, kept
/// apart from store-level failures.
pub fn require_found<T>(o: Option<T>) -> (r: Result<T, QueryError>)
    ensures
        o matches Some(v) ==> r matches Ok(rv) && rv == v,
        o is None ==> r matches Err(QueryError::NotFound),
{
    match o {
        Some(v) => Ok(v),
        None => Err(QueryError::NotFound),
    }
}

/// A targeted delete that affected no row is `NotFound`.
pub fn delete_outcome(affected: u64) -> (r: Result<(), QueryError>)
    ensures
        r is Ok <==> affected > 0,
        affected == 0 ==> r matches Err(QueryError::NotFound),
{
    if affected == 0 {
        Err(QueryError::NotFound)
    } else {
        Ok(())
    }
}

/// The configured daily budget, in cents.
pub fn daily_budget_cents() -> (r: i64)
    ensures
        r == DAILY_BUDGET_CENTS,
{
    DAILY_BUDGET_CENTS
}

/// Budget figures for expenses of `expenses_cents` against the daily
/// budget; a negative expense total counts as nothing spent.
pub fn daily_stats(expenses_cents: i64) -> (s: DailyStats)
    ensures
        s.total_budget_cents == DAILY_BUDGET_CENTS,
        s.total_expenses_cents == expenses_cents,
        expenses_cents >= 0 ==> s.spending_percent_hundredths == expenses_cents * 10000
            / (DAILY_BUDGET_CENTS as int),
        expenses_cents < 0 ==> s.spending_percent_hundredths == 0,
{
    let percent: i64 = if expenses_cents >= 0 {
        // hundredths of a percent of the budget: e * 10000 / 200000 == e / 20
        proof {
            assert(expenses_cents / 20 == expenses_cents * 10000 / (DAILY_BUDGET_CENTS as int))
                by (nonlinear_arith)
                requires
                    expenses_cents >= 0,
            ;
        }
        expenses_cents / 20
    } else {
        0
    };
    DailyStats {
        total_budget_cents: DAILY_BUDGET_CENTS,
        total_expenses_cents: expenses_cents,
        spending_percent_hundredths: percent,
    }
}

/// Re-running a filtered read with identical criteria yields the
/// identical bound query: the contract pins template and bound values as
/// functions of the criteria alone, and the template ends with the fixed
/// `ORDER BY created_at DESC`, so against an unchanged store the same
/// rows come back in the same order.
pub proof fn lemma_search_query_deterministic(
    f1: TransactionFilter,
    f2: TransactionFilter,
    q1: BoundQuery,
    q2: BoundQuery,
)
    requires
        f1.search_query == f2.search_query,
        f1.filter_type == f2.filter_type,
        f1.date == f2.date,
        q1.template@ == "SELECT * FROM transactions WHERE "@ + "1=1"@ + search_frag(
            Entity::Transactions,
            f1.search_query,
        ) + scoped_frag(f1.filter_type, f1.date) + " ORDER BY created_at DESC"@,
        q1.model().params == search_params(f1.search_query) + scoped_params(
            f1.filter_type,
            f1.date,
        ),
        q2.template@ == "SELECT * FROM transactions WHERE "@ + "1=1"@ + search_frag(
            Entity::Transactions,
            f2.search_query,
        ) + scoped_frag(f2.filter_type, f2.date) + " ORDER BY created_at DESC"@,
        q2.model().params == search_params(f2.search_query) + scoped_params(
            f2.filter_type,
            f2.date,
        ),
    ensures
        q1.template@ == q2.template@,
        q1.model().params == q2.model().params,
{
}

/// Relies on chrono: `Utc::now().format("%Y-%m-%d")` renders the current
/// UTC date. Nothing is assumed of the returned text.
#[verifier::external_body]
fn today_date() -> (r: String) {
    chrono::Utc::now().format("%Y-%m-%d").to_string()
}

/// Relies on chrono: `Utc::now().to_rfc3339()` renders the current UTC
/// instant. Nothing is assumed of the returned text.
#[verifier::external_body]
fn now_rfc3339() -> (r: String) {
    chrono::Utc::now().to_rfc3339()
}

/// Today's expense sum, for the current date: whatever day the clock
/// gives, the query is the fixed template with that one day bound.
pub fn daily_expenses_query_now() -> (q: BoundQuery)
    ensures
        q.wf(),
        q.template@ == daily_expenses_template(),
        q.model().params.len() == 1,
        q.model().params[0] is Text,
{
    let d = today_date();
    daily_expenses_query(d.as_str())
}

/// Today's transactions, for the current date.
pub fn today_transactions_query_now() -> (q: BoundQuery)
    ensures
        q.wf(),
        q.template@ == today_transactions_template(),
        q.model().params.len() == 1,
        q.model().params[0] is Text,
{
    let d = today_date();
    today_transactions_query(d.as_str())
}

/// Insert `t` stamped with the current instant: whatever timestamp the
/// clock gives, the other seven bound values follow `t` exactly.
pub fn add_transaction_query_now(t: &NewTransaction) -> (q: BoundQuery)
    ensures
        q.wf(),
        q.template@ == insert_transaction_template(),
        exists|now: Seq<char>| q.model().params == insert_transaction_params(*t, now),
{
    let now = now_rfc3339();
    let q = add_transaction_query(t, now.as_str());
    proof {
        assert(q.model().params == insert_transaction_params(*t, now@));
    }
    q
}

/// Insert `u` stamped with the current instant.
pub fn add_user_query_now(u: &NewUser) -> (q: BoundQuery)
    ensures
        q.wf(),
        q.template@ == insert_user_template(),
        exists|now: Seq<char>| q.model().params == insert_user_params(*u, now),
{
    let now = now_rfc3339();
    let q = add_user_query(u, now.as_str());
    proof {
        assert(q.model().params == insert_user_params(*u, now@));
    }
    q
}

} // verus!
