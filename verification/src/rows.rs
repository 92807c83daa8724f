//! Row-to-entity mapping.
//!
//! The executor hands each result row over as named columns of plain
//! values; the mappers here coerce them field by field into the entity
//! records. A missing column, or a value of the wrong kind, fails with
//! `Mapping` naming the column.

use vstd::prelude::*;
use crate::errors::QueryError;
use crate::models::{Transaction, User, UserActivity};
use crate::values::{Value, ValueV};

verus! {

/// One named column of a result row.
pub struct Column {
    pub name: String,
    pub value: Value,
}

/// The mathematical value of a column.
pub ghost struct ColumnV {
    pub name: Seq<char>,
    pub value: ValueV,
}

impl DeepView for Column {
    type V = ColumnV;

    open spec fn deep_view(&self) -> ColumnV {
        ColumnV { name: self.name@, value: self.value@ }
    }
}

/// One result row, as the store returned it.
pub struct Row {
    pub cols: Vec<Column>,
}

/// The value of the first column named `name`, if any.
pub open spec fn lookup(cols: Seq<ColumnV>, name: Seq<char>) -> Option<ValueV>
    decreases cols.len(),
{
    if cols.len() == 0 {
        None
    } else if cols[0].name == name {
        Some(cols[0].value)
    } else {
        lookup(cols.skip(1), name)
    }
}

/// The column is present and holds text.
pub open spec fn is_text_col(v: Option<ValueV>) -> bool {
    v matches Some(ValueV::Text(_))
}

/// The column is present and holds an integer.
pub open spec fn is_int_col(v: Option<ValueV>) -> bool {
    v matches Some(ValueV::Int(_))
}

/// The column is present and holds text or NULL.
pub open spec fn is_opt_text_col(v: Option<ValueV>) -> bool {
    v matches Some(w) && (w is Text || w is Null)
}

/// A nullable text column coerces to this optional string.
pub open spec fn opt_text_is(v: Option<ValueV>, o: Option<String>) -> bool {
    match o {
        Some(s) => v == Some(ValueV::Text(s@)),
        None => v == Some(ValueV::Null),
    }
}

/// The value of the first column named `name`, if any.
fn col_value(row: &Row, name: &str) -> (r: Option<Value>)
    ensures
        match lookup(row.cols.deep_view(), name@) {
            Some(v) => r matches Some(rv) && rv@ == v,
            None => r is None,
        },
{
    let ghost dv = row.cols.deep_view();
    proof {
        assert(dv.skip(0) =~= dv);
    }
    let mut i: usize = 0;
    while i < row.cols.len()
        invariant
            0 <= i <= row.cols.len(),
            dv == row.cols.deep_view(),
            lookup(dv, name@) == lookup(dv.skip(i as int), name@),
        decreases row.cols.len() - i,
    {
        proof {
            assert(dv.skip(i as int)[0] == dv[i as int]);
            assert(dv[i as int] == row.cols@[i as int].deep_view());
            assert(dv.skip(i as int).skip(1) =~= dv.skip(i + 1 as int));
        }
        let col = &row.cols[i];
        if crate::like::str_eq(col.name.as_str(), name) {
            return Some(col.value.duplicate());
        }
        i = i + 1;
    }
    proof {
        assert(dv.skip(dv.len() as int) =~= Seq::<ColumnV>::empty());
    }
    None
}

/// The text in column `name`, or `Mapping` naming it.
pub fn get_text(row: &Row, name: &str) -> (r: Result<String, QueryError>)
    ensures
        r is Ok <==> is_text_col(lookup(row.cols.deep_view(), name@)),
        r matches Ok(s) ==> lookup(row.cols.deep_view(), name@) == Some(ValueV::Text(s@)),
        r matches Err(er) ==> er matches QueryError::Mapping(c) && c@ == name@,
{
    match col_value(row, name) {
        Some(Value::Text(s)) => Ok(s),
        _ => Err(QueryError::Mapping(name.to_owned())),
    }
}

/// The text or NULL in column `name`, or `Mapping` naming it.
pub fn get_opt_text(row: &Row, name: &str) -> (r: Result<Option<String>, QueryError>)
    ensures
        r is Ok <==> is_opt_text_col(lookup(row.cols.deep_view(), name@)),
        r matches Ok(o) ==> opt_text_is(lookup(row.cols.deep_view(), name@), o),
        r matches Err(er) ==> er matches QueryError::Mapping(c) && c@ == name@,
{
    match col_value(row, name) {
        Some(Value::Text(s)) => Ok(Some(s)),
        Some(Value::Null) => Ok(None),
        _ => Err(QueryError::Mapping(name.to_owned())),
    }
}

/// The integer in column `name`, or `Mapping` naming it.
pub fn get_int(row: &Row, name: &str) -> (r: Result<i64, QueryError>)
    ensures
        r is Ok <==> is_int_col(lookup(row.cols.deep_view(), name@)),
        r matches Ok(n) ==> lookup(row.cols.deep_view(), name@) == Some(ValueV::Int(n as int)),
        r matches Err(er) ==> er matches QueryError::Mapping(c) && c@ == name@,
{
    match col_value(row, name) {
        Some(Value::Int(n)) => Ok(n),
        _ => Err(QueryError::Mapping(name.to_owned())),
    }
}

/// A row holds every column a `User` needs, each of the right kind.
pub open spec fn user_row_ok(cols: Seq<ColumnV>) -> bool {
    &&& is_int_col(lookup(cols, "id"@))
    &&& is_text_col(lookup(cols, "username"@))
    &&& is_text_col(lookup(cols, "full_name"@))
    &&& is_text_col(lookup(cols, "role"@))
    &&& is_text_col(lookup(cols, "status"@))
    &&& is_opt_text_col(lookup(cols, "avatar"@))
    &&& is_text_col(lookup(cols, "password"@))
    &&& is_opt_text_col(lookup(cols, "department"@))
    &&& is_text_col(lookup(cols, "created_at"@))
    &&& is_opt_text_col(lookup(cols, "last_login"@))
}

/// The first user column that is missing or of the wrong kind, in the
/// order the mapper reads them.
pub open spec fn user_bad_column(cols: Seq<ColumnV>) -> Seq<char> {
    if !is_int_col(lookup(cols, "id"@)) {
        "id"@
    } else if !is_text_col(lookup(cols, "username"@)) {
        "username"@
    } else if !is_text_col(lookup(cols, "full_name"@)) {
        "full_name"@
    } else if !is_text_col(lookup(cols, "role"@)) {
        "role"@
    } else if !is_text_col(lookup(cols, "status"@)) {
        "status"@
    } else if !is_opt_text_col(lookup(cols, "avatar"@)) {
        "avatar"@
    } else if !is_text_col(lookup(cols, "password"@)) {
        "password"@
    } else if !is_opt_text_col(lookup(cols, "department"@)) {
        "department"@
    } else if !is_text_col(lookup(cols, "created_at"@)) {
        "created_at"@
    } else if !is_opt_text_col(lookup(cols, "last_login"@)) {
        "last_login"@
    } else {
        Seq::<char>::empty()
    }
}

/// Coerce a row into a `User`, field by field, in column order.
pub fn map_user_row(row: &Row) -> (r: Result<User, QueryError>)
    ensures
        r is Ok <==> user_row_ok(row.cols.deep_view()),
        r matches Ok(u) ==> {
            let cols = row.cols.deep_view();
            &&& lookup(cols, "id"@) == Some(ValueV::Int(u.id as int))
            &&& lookup(cols, "username"@) == Some(ValueV::Text(u.username@))
            &&& lookup(cols, "full_name"@) == Some(ValueV::Text(u.full_name@))
            &&& lookup(cols, "role"@) == Some(ValueV::Text(u.role@))
            &&& lookup(cols, "status"@) == Some(ValueV::Text(u.status@))
            &&& opt_text_is(lookup(cols, "avatar"@), u.avatar)
            &&& lookup(cols, "password"@) == Some(ValueV::Text(u.password@))
            &&& opt_text_is(lookup(cols, "department"@), u.department)
            &&& lookup(cols, "created_at"@) == Some(ValueV::Text(u.created_at@))
            &&& opt_text_is(lookup(cols, "last_login"@), u.last_login)
        },
        r matches Err(er) ==> er matches QueryError::Mapping(c) && c@ == user_bad_column(
            row.cols.deep_view(),
        ),
{
    let id = match get_int(row, "id") {
        Ok(v) => v,
        Err(er) => return Err(er),
    };
    let username = match get_text(row, "username") {
        Ok(v) => v,
        Err(er) => return Err(er),
    };
    let full_name = match get_text(row, "full_name") {
        Ok(v) => v,
        Err(er) => return Err(er),
    };
    let role = match get_text(row, "role") {
        Ok(v) => v,
        Err(er) => return Err(er),
    };
    let status = match get_text(row, "status") {
        Ok(v) => v,
        Err(er) => return Err(er),
    };
    let avatar = match get_opt_text(row, "avatar") {
        Ok(v) => v,
        Err(er) => return Err(er),
    };
    let password = match get_text(row, "password") {
        Ok(v) => v,
        Err(er) => return Err(er),
    };
    let department = match get_opt_text(row, "department") {
        Ok(v) => v,
        Err(er) => return Err(er),
    };
    let created_at = match get_text(row, "created_at") {
        Ok(v) => v,
        Err(er) => return Err(er),
    };
    let last_login = match get_opt_text(row, "last_login") {
        Ok(v) => v,
        Err(er) => return Err(er),
    };
    Ok(
        User {
            id,
            username,
            full_name,
            role,
            status,
            avatar,
            password,
            department,
            created_at,
            last_login,
        },
    )
}

/// A row holds every column a `Transaction` needs, each of the right kind.
pub open spec fn transaction_row_ok(cols: Seq<ColumnV>) -> bool {
    &&& is_int_col(lookup(cols, "id"@))
    &&& is_text_col(lookup(cols, "person_name"@))
    &&& is_opt_text_col(lookup(cols, "person_avatar"@))
    &&& is_text_col(lookup(cols, "category"@))
    &&& is_int_col(lookup(cols, "amount"@))
    &&& is_text_col(lookup(cols, "transaction_type"@))
    &&& is_text_col(lookup(cols, "reason"@))
    &&& is_opt_text_col(lookup(cols, "responsible_person"@))
    &&& is_text_col(lookup(cols, "created_at"@))
}

/// The first transaction column that is missing or of the wrong kind.
pub open spec fn transaction_bad_column(cols: Seq<ColumnV>) -> Seq<char> {
    if !is_int_col(lookup(cols, "id"@)) {
        "id"@
    } else if !is_text_col(lookup(cols, "person_name"@)) {
        "person_name"@
    } else if !is_opt_text_col(lookup(cols, "person_avatar"@)) {
        "person_avatar"@
    } else if !is_text_col(lookup(cols, "category"@)) {
        "category"@
    } else if !is_int_col(lookup(cols, "amount"@)) {
        "amount"@
    } else if !is_text_col(lookup(cols, "transaction_type"@)) {
        "transaction_type"@
    } else if !is_text_col(lookup(cols, "reason"@)) {
        "reason"@
    } else if !is_opt_text_col(lookup(cols, "responsible_person"@)) {
        "responsible_person"@
    } else if !is_text_col(lookup(cols, "created_at"@)) {
        "created_at"@
    } else {
        Seq::<char>::empty()
    }
}

/// Coerce a row into a `Transaction`, the amount in cents.
pub fn map_transaction_row(row: &Row) -> (r: Result<Transaction, QueryError>)
    ensures
        r is Ok <==> transaction_row_ok(row.cols.deep_view()),
        r matches Ok(t) ==> {
            let cols = row.cols.deep_view();
            &&& lookup(cols, "id"@) == Some(ValueV::Int(t.id as int))
            &&& lookup(cols, "person_name"@) == Some(ValueV::Text(t.person_name@))
            &&& opt_text_is(lookup(cols, "person_avatar"@), t.person_avatar)
            &&& lookup(cols, "category"@) == Some(ValueV::Text(t.category@))
            &&& lookup(cols, "amount"@) == Some(ValueV::Int(t.amount_cents as int))
            &&& lookup(cols, "transaction_type"@) == Some(ValueV::Text(t.transaction_type@))
            &&& lookup(cols, "reason"@) == Some(ValueV::Text(t.reason@))
            &&& opt_text_is(lookup(cols, "responsible_person"@), t.responsible_person)
            &&& lookup(cols, "created_at"@) == Some(ValueV::Text(t.created_at@))
        },
        r matches Err(er) ==> er matches QueryError::Mapping(c) && c@ == transaction_bad_column(
            row.cols.deep_view(),
        ),
{
    let id = match get_int(row, "id") {
        Ok(v) => v,
        Err(er) => return Err(er),
    };
    let person_name = match get_text(row, "person_name") {
        Ok(v) => v,
        Err(er) => return Err(er),
    };
    let person_avatar = match get_opt_text(row, "person_avatar") {
        Ok(v) => v,
        Err(er) => return Err(er),
    };
    let category = match get_text(row, "category") {
        Ok(v) => v,
        Err(er) => return Err(er),
    };
    let amount_cents = match get_int(row, "amount") {
        Ok(v) => v,
        Err(er) => return Err(er),
    };
    let transaction_type = match get_text(row, "transaction_type") {
        Ok(v) => v,
        Err(er) => return Err(er),
    };
    let reason = match get_text(row, "reason") {
        Ok(v) => v,
        Err(er) => return Err(er),
    };
    let responsible_person = match get_opt_text(row, "responsible_person") {
        Ok(v) => v,
        Err(er) => return Err(er),
    };
    let created_at = match get_text(row, "created_at") {
        Ok(v) => v,
        Err(er) => return Err(er),
    };
    Ok(
        Transaction {
            id,
            person_name,
            person_avatar,
            category,
            amount_cents,
            transaction_type,
            reason,
            responsible_person,
            created_at,
        },
    )
}

/// A row holds every column a `UserActivity` needs.
pub open spec fn activity_row_ok(cols: Seq<ColumnV>) -> bool {
    &&& is_int_col(lookup(cols, "id"@))
    &&& is_text_col(lookup(cols, "username"@))
    &&& is_text_col(lookup(cols, "activity"@))
    &&& is_text_col(lookup(cols, "created_at"@))
}

/// The first activity column that is missing or of the wrong kind.
pub open spec fn activity_bad_column(cols: Seq<ColumnV>) -> Seq<char> {
    if !is_int_col(lookup(cols, "id"@)) {
        "id"@
    } else if !is_text_col(lookup(cols, "username"@)) {
        "username"@
    } else if !is_text_col(lookup(cols, "activity"@)) {
        "activity"@
    } else if !is_text_col(lookup(cols, "created_at"@)) {
        "created_at"@
    } else {
        Seq::<char>::empty()
    }
}

/// Coerce a row into a `UserActivity`.
pub fn map_activity_row(row: &Row) -> (r: Result<UserActivity, QueryError>)
    ensures
        r is Ok <==> activity_row_ok(row.cols.deep_view()),
        r matches Ok(a) ==> {
            let cols = row.cols.deep_view();
            &&& lookup(cols, "id"@) == Some(ValueV::Int(a.id as int))
            &&& lookup(cols, "username"@) == Some(ValueV::Text(a.username@))
            &&& lookup(cols, "activity"@) == Some(ValueV::Text(a.activity@))
            &&& lookup(cols, "created_at"@) == Some(ValueV::Text(a.created_at@))
        },
        r matches Err(er) ==> er matches QueryError::Mapping(c) && c@ == activity_bad_column(
            row.cols.deep_view(),
        ),
{
    let id = match get_int(row, "id") {
        Ok(v) => v,
        Err(er) => return Err(er),
    };
    let username = match get_text(row, "username") {
        Ok(v) => v,
        Err(er) => return Err(er),
    };
    let activity = match get_text(row, "activity") {
        Ok(v) => v,
        Err(er) => return Err(er),
    };
    let created_at = match get_text(row, "created_at") {
        Ok(v) => v,
        Err(er) => return Err(er),
    };
    Ok(UserActivity { id, username, activity, created_at })
}

} // verus!
