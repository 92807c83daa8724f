//! Entity records and request shapes.
//!
//! Entities are plain records owned by the store; the application holds
//! transient copies. Monetary amounts are carried in minor units (cents)
//! so that they stay exact integers; the boundary that talks to the
//! store converts.

use vstd::prelude::*;

verus! {

/// A persisted income/expense record.
pub struct Transaction {
    pub id: i64,
    pub person_name: String,
    pub person_avatar: Option<String>,
    pub category: String,
    pub amount_cents: i64,
    pub transaction_type: String,
    pub reason: String,
    pub responsible_person: Option<String>,
    pub created_at: String,
}

/// A transaction to insert; the store assigns `id` and the caller
/// supplies `created_at` at insertion time.
pub struct NewTransaction {
    pub person_name: String,
    pub person_avatar: Option<String>,
    pub category: String,
    pub amount_cents: i64,
    pub transaction_type: String,
    pub reason: String,
    pub responsible_person: Option<String>,
}

/// Budget figures for one day: amounts in cents, the spent share in
/// hundredths of a percent.
pub struct DailyStats {
    pub total_budget_cents: i64,
    pub total_expenses_cents: i64,
    pub spending_percent_hundredths: i64,
}

/// The filter shape the front-end sends for transaction searches.
pub struct TransactionFilter {
    pub search_query: Option<String>,
    pub filter_type: Option<String>,
    pub date: Option<String>,
}

/// A persisted user record.
pub struct User {
    pub id: i64,
    pub username: String,
    pub full_name: String,
    pub role: String,
    pub status: String,
    pub avatar: Option<String>,
    pub password: String,
    pub department: Option<String>,
    pub created_at: String,
    pub last_login: Option<String>,
}

/// A user to insert.
pub struct NewUser {
    pub username: String,
    pub full_name: String,
    pub role: String,
    pub password: String,
    pub department: Option<String>,
}

/// A sparse partial update of a user: only the present fields change.
pub struct UpdateUser {
    pub full_name: Option<String>,
    pub role: Option<String>,
    pub status: Option<String>,
    pub department: Option<String>,
    pub password: Option<String>,
}

/// One recorded user action.
pub struct UserActivity {
    pub id: i64,
    pub username: String,
    pub activity: String,
    pub created_at: String,
}

} // verus!
