use invio_core::commands::{
    add_transaction_query, add_transaction_query_now, add_user_query, all_users_query,
    daily_budget_cents, daily_expenses_query, daily_expenses_query_now, daily_stats,
    delete_outcome, delete_user_query, require_found, search_transactions_query,
    today_transactions_query, today_transactions_query_now, update_user_query,
    user_activity_query,
};
use invio_core::errors::QueryError;
use invio_core::models::{NewTransaction, NewUser, TransactionFilter, UpdateUser};
use invio_core::patch::{build_set, PatchEntry, PatchRequest};
use invio_core::predicate::{build_where, FieldCriterion, FieldPredicate, FilterCriteria};
use invio_core::registry::Entity;
use invio_core::values::Value;

fn question_marks(template: &str) -> usize {
    template.chars().filter(|c| *c == '?').count()
}

fn plain_filter() -> FilterCriteria {
    FilterCriteria { search_query: None, filter_type: None, date: None, fields: Vec::new() }
}

#[test]
fn where_clause_empty_criteria_is_sentinel() {
    let q = build_where(Entity::Transactions, &plain_filter()).unwrap();
    assert_eq!(q.template, "1=1");
    assert!(q.params.is_empty());
}

#[test]
fn where_clause_search_is_parameterized() {
    let mut f = plain_filter();
    f.search_query = Some("50%".to_string());
    let q = build_where(Entity::Transactions, &f).unwrap();
    assert_eq!(
        q.template,
        "1=1 AND (person_name LIKE ? ESCAPE '\\' OR reason LIKE ? ESCAPE '\\')"
    );
    assert_eq!(
        q.params,
        vec![
            Value::Text("%50\\%%".to_string()),
            Value::Text("%50\\%%".to_string()),
        ]
    );
}

#[test]
fn where_clause_blank_search_adds_nothing() {
    let mut f = plain_filter();
    f.search_query = Some("   ".to_string());
    let q = build_where(Entity::Transactions, &f).unwrap();
    assert_eq!(q.template, "1=1");
    assert!(q.params.is_empty());
}

#[test]
fn where_clause_search_is_trimmed() {
    let mut f = plain_filter();
    f.search_query = Some("  x \n".to_string());
    let q = build_where(Entity::Transactions, &f).unwrap();
    assert_eq!(q.params[0], Value::Text("%x%".to_string()));
}

#[test]
fn where_clause_day_filter_binds_date() {
    let mut f = plain_filter();
    f.filter_type = Some("day".to_string());
    f.date = Some("2024-03-15".to_string());
    let q = build_where(Entity::Transactions, &f).unwrap();
    assert_eq!(q.template, "1=1 AND DATE(created_at) = DATE(?)");
    assert_eq!(q.params, vec![Value::Text("2024-03-15".to_string())]);
}

#[test]
fn where_clause_unknown_filter_type_passes_through() {
    let mut f = plain_filter();
    f.filter_type = Some("person".to_string());
    f.date = Some("2024-03-15".to_string());
    let q = build_where(Entity::Transactions, &f).unwrap();
    assert_eq!(q.template, "1=1");
    assert!(q.params.is_empty());
}

#[test]
fn where_clause_day_filter_without_date_adds_nothing() {
    let mut f = plain_filter();
    f.filter_type = Some("day".to_string());
    let q = build_where(Entity::Transactions, &f).unwrap();
    assert_eq!(q.template, "1=1");
}

#[test]
fn where_clause_field_criteria_follow_declared_order() {
    let mut f = plain_filter();
    f.fields = vec![
        FieldCriterion {
            field: "category".to_string(),
            predicate: FieldPredicate::Equals(Value::Text("Food".to_string())),
        },
        FieldCriterion {
            field: "reason".to_string(),
            predicate: FieldPredicate::Contains("off".to_string()),
        },
    ];
    let q = build_where(Entity::Transactions, &f).unwrap();
    assert_eq!(
        q.template,
        "1=1 AND category = ? AND reason LIKE ? ESCAPE '\\'"
    );
    assert_eq!(
        q.params,
        vec![
            Value::Text("Food".to_string()),
            Value::Text("%off%".to_string()),
        ]
    );
}

#[test]
fn where_clause_unknown_field_is_validation_error() {
    let mut f = plain_filter();
    f.fields = vec![FieldCriterion {
        field: "no_such_column".to_string(),
        predicate: FieldPredicate::Equals(Value::Int(1)),
    }];
    let r = build_where(Entity::Transactions, &f);
    assert_eq!(r.err(), Some(QueryError::Validation("no_such_column".to_string())));
}

#[test]
fn where_clause_placeholders_match_parameter_count() {
    let mut f = plain_filter();
    f.search_query = Some("a_b".to_string());
    f.filter_type = Some("month".to_string());
    f.date = Some("2024-05-01".to_string());
    f.fields = vec![FieldCriterion {
        field: "amount".to_string(),
        predicate: FieldPredicate::Equals(Value::Int(4250)),
    }];
    let q = build_where(Entity::Transactions, &f).unwrap();
    assert_eq!(question_marks(&q.template), q.params.len());
    assert_eq!(q.params.len(), 4);
}

#[test]
fn where_template_is_value_independent() {
    let mut f1 = plain_filter();
    f1.search_query = Some("coffee".to_string());
    f1.filter_type = Some("day".to_string());
    f1.date = Some("2024-03-15".to_string());
    f1.fields = vec![FieldCriterion {
        field: "category".to_string(),
        predicate: FieldPredicate::Equals(Value::Text("Food".to_string())),
    }];
    let mut f2 = plain_filter();
    f2.search_query = Some("%_\\".to_string());
    f2.filter_type = Some("day".to_string());
    f2.date = Some("1999-12-31".to_string());
    f2.fields = vec![FieldCriterion {
        field: "category".to_string(),
        predicate: FieldPredicate::Equals(Value::Text("Travel".to_string())),
    }];
    let q1 = build_where(Entity::Transactions, &f1).unwrap();
    let q2 = build_where(Entity::Transactions, &f2).unwrap();
    assert_eq!(q1.template, q2.template);
    assert_ne!(q1.params, q2.params);
}

#[test]
fn patch_empty_request_is_rejected() {
    let req = PatchRequest { entries: Vec::new() };
    assert_eq!(build_set(Entity::Users, &req).err(), Some(QueryError::EmptyPatch));
}

#[test]
fn patch_unknown_field_is_validation_error() {
    let req = PatchRequest {
        entries: vec![PatchEntry {
            field: "shoe_size".to_string(),
            value: Value::Int(43),
        }],
    };
    assert_eq!(build_set(Entity::Users, &req).err(), Some(QueryError::Validation("shoe_size".to_string())));
}

#[test]
fn patch_fields_come_out_in_registry_order() {
    let req = PatchRequest {
        entries: vec![
            PatchEntry { field: "password".to_string(), value: Value::Text("s3".to_string()) },
            PatchEntry { field: "full_name".to_string(), value: Value::Text("Ada".to_string()) },
        ],
    };
    let q = build_set(Entity::Users, &req).unwrap();
    assert_eq!(q.template, "SET full_name = ?, password = ?");
    assert_eq!(
        q.params,
        vec![Value::Text("Ada".to_string()), Value::Text("s3".to_string())]
    );
}

#[test]
fn patch_same_field_set_gives_identical_template() {
    let req1 = PatchRequest {
        entries: vec![
            PatchEntry { field: "role".to_string(), value: Value::Text("admin".to_string()) },
            PatchEntry { field: "status".to_string(), value: Value::Text("active".to_string()) },
        ],
    };
    let req2 = PatchRequest {
        entries: vec![
            PatchEntry { field: "status".to_string(), value: Value::Text("locked".to_string()) },
            PatchEntry { field: "role".to_string(), value: Value::Text("viewer".to_string()) },
        ],
    };
    let q1 = build_set(Entity::Users, &req1).unwrap();
    let q2 = build_set(Entity::Users, &req2).unwrap();
    assert_eq!(q1.template, q2.template);
    assert_ne!(q1.params, q2.params);
}

#[test]
fn patch_repeated_field_takes_last_value() {
    let req = PatchRequest {
        entries: vec![
            PatchEntry { field: "role".to_string(), value: Value::Text("first".to_string()) },
            PatchEntry { field: "role".to_string(), value: Value::Text("second".to_string()) },
        ],
    };
    let q = build_set(Entity::Users, &req).unwrap();
    assert_eq!(q.template, "SET role = ?");
    assert_eq!(q.params, vec![Value::Text("second".to_string())]);
}

#[test]
fn search_query_is_deterministic() {
    let f = TransactionFilter {
        search_query: Some("tea".to_string()),
        filter_type: Some("day".to_string()),
        date: Some("2024-03-15".to_string()),
    };
    let q1 = search_transactions_query(&f);
    let q2 = search_transactions_query(&f);
    assert_eq!(q1.template, q2.template);
    assert_eq!(q1.params, q2.params);
    assert!(q1.template.ends_with(" ORDER BY created_at DESC"));
}

#[test]
fn search_month_filter_scopes_by_year_month() {
    let f = TransactionFilter {
        search_query: None,
        filter_type: Some("month".to_string()),
        date: Some("2024-03-15".to_string()),
    };
    let q = search_transactions_query(&f);
    assert_eq!(
        q.template,
        "SELECT * FROM transactions WHERE 1=1 AND strftime('%Y-%m', created_at) = strftime('%Y-%m', ?) ORDER BY created_at DESC"
    );
    assert_eq!(q.params, vec![Value::Text("2024-03-15".to_string())]);
}

#[test]
fn add_transaction_binds_every_column() {
    let t = NewTransaction {
        person_name: "Alice".to_string(),
        person_avatar: None,
        category: "Food".to_string(),
        amount_cents: 4250,
        transaction_type: "expense".to_string(),
        reason: "Lunch 50% off".to_string(),
        responsible_person: Some("Bob".to_string()),
    };
    let q = add_transaction_query(&t, "2024-03-15T12:00:00+00:00");
    assert_eq!(
        q.template,
        "INSERT INTO transactions (person_name, person_avatar, category, amount, transaction_type, reason, responsible_person, created_at) VALUES (?, ?, ?, ?, ?, ?, ?, ?) RETURNING *"
    );
    assert_eq!(
        q.params,
        vec![
            Value::Text("Alice".to_string()),
            Value::Null,
            Value::Text("Food".to_string()),
            Value::Int(4250),
            Value::Text("expense".to_string()),
            Value::Text("Lunch 50% off".to_string()),
            Value::Text("Bob".to_string()),
            Value::Text("2024-03-15T12:00:00+00:00".to_string()),
        ]
    );
}

#[test]
fn add_user_binds_every_column() {
    let u = NewUser {
        username: "ada".to_string(),
        full_name: "Ada L".to_string(),
        role: "admin".to_string(),
        password: "pw-1234".to_string(),
        department: None,
    };
    let q = add_user_query(&u, "2024-03-15T12:00:00+00:00");
    assert_eq!(
        q.template,
        "INSERT INTO users (username, full_name, role, password, department, created_at) VALUES (?, ?, ?, ?, ?, ?) RETURNING *"
    );
    assert_eq!(question_marks(&q.template), q.params.len());
    assert_eq!(q.params[4], Value::Null);
}

#[test]
fn update_user_role_patch_is_parameterized() {
    let p = UpdateUser {
        full_name: None,
        role: Some("admin".to_string()),
        status: None,
        department: None,
        password: None,
    };
    let q = update_user_query(5, &p).unwrap();
    assert_eq!(q.template, "UPDATE users SET role = ? WHERE id = ? RETURNING *");
    assert_eq!(q.params, vec![Value::Text("admin".to_string()), Value::Int(5)]);
}

#[test]
fn update_user_empty_patch_is_rejected() {
    let p = UpdateUser {
        full_name: None,
        role: None,
        status: None,
        department: None,
        password: None,
    };
    assert_eq!(update_user_query(5, &p).err(), Some(QueryError::EmptyPatch));
}

#[test]
fn missing_row_is_not_found() {
    assert_eq!(require_found::<i64>(None).err(), Some(QueryError::NotFound));
    assert_eq!(require_found(Some(7i64)).ok(), Some(7));
    assert_eq!(delete_outcome(0).err(), Some(QueryError::NotFound));
    assert!(delete_outcome(1).is_ok());
}

#[test]
fn fixed_queries_have_expected_shape() {
    let q = daily_expenses_query("2024-03-15");
    assert_eq!(
        q.template,
        "SELECT COALESCE(SUM(amount), 0) FROM transactions WHERE transaction_type = 'expense' AND DATE(created_at) = DATE(?)"
    );
    assert_eq!(q.params, vec![Value::Text("2024-03-15".to_string())]);

    let q = today_transactions_query("2024-03-15");
    assert_eq!(
        q.template,
        "SELECT * FROM transactions WHERE DATE(created_at) = DATE(?) ORDER BY created_at DESC"
    );

    let q = all_users_query();
    assert_eq!(q.template, "SELECT * FROM users ORDER BY created_at DESC");
    assert!(q.params.is_empty());

    let q = user_activity_query();
    assert_eq!(q.template, "SELECT * FROM user_activity ORDER BY created_at DESC LIMIT 20");

    let q = delete_user_query(9);
    assert_eq!(q.template, "DELETE FROM users WHERE id = ?");
    assert_eq!(q.params, vec![Value::Int(9)]);
}

#[test]
fn daily_stats_are_exact() {
    assert_eq!(daily_budget_cents(), 200000);
    let s = daily_stats(50000);
    assert_eq!(s.total_budget_cents, 200000);
    assert_eq!(s.total_expenses_cents, 50000);
    assert_eq!(s.spending_percent_hundredths, 2500);
    let s = daily_stats(-10);
    assert_eq!(s.spending_percent_hundredths, 0);
}

#[test]
fn clock_backed_queries_keep_their_shape() {
    let q = daily_expenses_query_now();
    assert_eq!(question_marks(&q.template), 1);
    assert_eq!(q.params.len(), 1);
    assert!(matches!(q.params[0], Value::Text(_)));

    let q = today_transactions_query_now();
    assert!(q.template.starts_with("SELECT * FROM transactions"));
    assert_eq!(q.params.len(), 1);

    let t = NewTransaction {
        person_name: "Alice".to_string(),
        person_avatar: None,
        category: "Food".to_string(),
        amount_cents: 4250,
        transaction_type: "expense".to_string(),
        reason: "Lunch".to_string(),
        responsible_person: None,
    };
    let q = add_transaction_query_now(&t);
    assert_eq!(question_marks(&q.template), 8);
    assert_eq!(q.params.len(), 8);
    assert_eq!(q.params[0], Value::Text("Alice".to_string()));
    // the last bound value is the clock's timestamp
    assert!(matches!(q.params[7], Value::Text(_)));
}
