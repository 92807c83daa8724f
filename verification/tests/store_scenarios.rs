use invio_core::commands::{
    add_transaction_query, require_found, search_transactions_query, update_user_query,
};
use invio_core::errors::QueryError;
use invio_core::models::{NewTransaction, TransactionFilter, UpdateUser};
use invio_core::rows::{map_transaction_row, Column as CoreColumn, Row as CoreRow};
use invio_core::template::BoundQuery;
use invio_core::values::Value;

use sqlx::sqlite::{SqlitePool, SqlitePoolOptions, SqliteRow};
use sqlx::{Column, Row};

fn block_on<F: std::future::Future>(f: F) -> F::Output {
    tokio::runtime::Builder::new_current_thread()
        .enable_all()
        .build()
        .unwrap()
        .block_on(f)
}

async fn memory_store() -> SqlitePool {
    let pool = SqlitePoolOptions::new().connect("sqlite::memory:").await.unwrap();
    sqlx::query(
        "CREATE TABLE transactions (
            id INTEGER PRIMARY KEY AUTOINCREMENT,
            person_name TEXT NOT NULL,
            person_avatar TEXT,
            category TEXT NOT NULL,
            amount INTEGER NOT NULL,
            transaction_type TEXT NOT NULL,
            reason TEXT NOT NULL,
            responsible_person TEXT,
            created_at TEXT NOT NULL
        )",
    )
    .execute(&pool)
    .await
    .unwrap();
    sqlx::query(
        "CREATE TABLE users (
            id INTEGER PRIMARY KEY AUTOINCREMENT,
            username TEXT NOT NULL,
            full_name TEXT NOT NULL,
            role TEXT NOT NULL,
            status TEXT NOT NULL,
            avatar TEXT,
            password TEXT NOT NULL,
            department TEXT,
            created_at TEXT NOT NULL,
            last_login TEXT
        )",
    )
    .execute(&pool)
    .await
    .unwrap();
    pool
}

async fn fetch_rows(pool: &SqlitePool, q: &BoundQuery) -> Vec<SqliteRow> {
    let mut query = sqlx::query(sqlx::AssertSqlSafe(q.template.clone()));
    for v in &q.params {
        query = match v {
            Value::Text(s) => query.bind(s.clone()),
            Value::Int(i) => query.bind(*i),
            Value::Null => query.bind(Option::<String>::None),
        };
    }
    query.fetch_all(pool).await.unwrap()
}

async fn fetch_optional(pool: &SqlitePool, q: &BoundQuery) -> Option<SqliteRow> {
    let mut query = sqlx::query(sqlx::AssertSqlSafe(q.template.clone()));
    for v in &q.params {
        query = match v {
            Value::Text(s) => query.bind(s.clone()),
            Value::Int(i) => query.bind(*i),
            Value::Null => query.bind(Option::<String>::None),
        };
    }
    query.fetch_optional(pool).await.unwrap()
}

fn to_core_row(row: &SqliteRow) -> CoreRow {
    let mut cols: Vec<CoreColumn> = Vec::new();
    for (i, col) in row.columns().iter().enumerate() {
        let value = if let Ok(Some(n)) = row.try_get::<Option<i64>, _>(i) {
            Value::Int(n)
        } else if let Ok(Some(s)) = row.try_get::<Option<String>, _>(i) {
            Value::Text(s)
        } else {
            Value::Null
        };
        cols.push(CoreColumn { name: col.name().to_string(), value });
    }
    CoreRow { cols }
}

fn sample_transaction(reason: &str, created_at: &str) -> BoundQuery {
    let t = NewTransaction {
        person_name: "Alice".to_string(),
        person_avatar: None,
        category: "Food".to_string(),
        amount_cents: 4250,
        transaction_type: "expense".to_string(),
        reason: reason.to_string(),
        responsible_person: None,
    };
    add_transaction_query(&t, created_at)
}

#[test]
fn store_search_finds_literal_percent() {
    block_on(async {
        let pool = memory_store().await;
        let added = fetch_optional(&pool, &sample_transaction("Lunch 50% off", "2024-03-15T12:00:00+00:00"))
            .await
            .expect("insert returns the row");
        let added = map_transaction_row(&to_core_row(&added)).unwrap();
        assert_eq!(added.reason, "Lunch 50% off");
        assert_eq!(added.amount_cents, 4250);
        fetch_optional(&pool, &sample_transaction("Dinner, full price", "2024-03-16T12:00:00+00:00"))
            .await
            .expect("insert returns the row");

        let filter = TransactionFilter {
            search_query: Some("50%".to_string()),
            filter_type: None,
            date: None,
        };
        let rows = fetch_rows(&pool, &search_transactions_query(&filter)).await;
        assert_eq!(rows.len(), 1);
        let hit = map_transaction_row(&to_core_row(&rows[0])).unwrap();
        assert_eq!(hit.reason, "Lunch 50% off");
    });
}

#[test]
fn store_month_filter_returns_only_that_month() {
    block_on(async {
        let pool = memory_store().await;
        fetch_optional(&pool, &sample_transaction("march lunch", "2024-03-05T09:00:00+00:00"))
            .await
            .unwrap();
        fetch_optional(&pool, &sample_transaction("another march lunch", "2024-03-28T09:00:00+00:00"))
            .await
            .unwrap();
        fetch_optional(&pool, &sample_transaction("april lunch", "2024-04-02T09:00:00+00:00"))
            .await
            .unwrap();

        let filter = TransactionFilter {
            search_query: None,
            filter_type: Some("month".to_string()),
            date: Some("2024-03-15".to_string()),
        };
        let rows = fetch_rows(&pool, &search_transactions_query(&filter)).await;
        assert_eq!(rows.len(), 2);
        for row in &rows {
            let t = map_transaction_row(&to_core_row(row)).unwrap();
            assert!(t.created_at.starts_with("2024-03"));
        }
    });
}

#[test]
fn store_repeated_search_returns_same_order() {
    block_on(async {
        let pool = memory_store().await;
        fetch_optional(&pool, &sample_transaction("first", "2024-03-01T09:00:00+00:00"))
            .await
            .unwrap();
        fetch_optional(&pool, &sample_transaction("second", "2024-03-02T09:00:00+00:00"))
            .await
            .unwrap();
        fetch_optional(&pool, &sample_transaction("third", "2024-03-03T09:00:00+00:00"))
            .await
            .unwrap();

        let filter = TransactionFilter { search_query: None, filter_type: None, date: None };
        let ids = |rows: Vec<SqliteRow>| -> Vec<i64> {
            rows.iter()
                .map(|r| map_transaction_row(&to_core_row(r)).unwrap().id)
                .collect()
        };
        let first_run = ids(fetch_rows(&pool, &search_transactions_query(&filter)).await);
        let second_run = ids(fetch_rows(&pool, &search_transactions_query(&filter)).await);
        assert_eq!(first_run, second_run);
        // newest first
        let reasons: Vec<String> = fetch_rows(&pool, &search_transactions_query(&filter))
            .await
            .iter()
            .map(|r| map_transaction_row(&to_core_row(r)).unwrap().reason)
            .collect();
        assert_eq!(reasons, vec!["third", "second", "first"]);
    });
}

#[test]
fn store_update_missing_user_is_not_found() {
    block_on(async {
        let pool = memory_store().await;
        let patch = UpdateUser {
            full_name: None,
            role: Some("admin".to_string()),
            status: None,
            department: None,
            password: None,
        };
        let q = update_user_query(12345, &patch).unwrap();
        let row = fetch_optional(&pool, &q).await;
        assert_eq!(require_found(row).err(), Some(QueryError::NotFound));
    });
}
