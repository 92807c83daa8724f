use invio_core::errors::QueryError;
use invio_core::like::{like_match, like_pattern, str_eq, str_chars, trim_chars};
use invio_core::predicate::{build_where, FilterCriteria};
use invio_core::registry::{fields_of, is_allowed_field, Entity};
use invio_core::rows::{map_transaction_row, map_user_row, map_activity_row, Column, Row};
use invio_core::values::Value;

fn search_pattern(text: &str) -> String {
    let f = FilterCriteria {
        search_query: Some(text.to_string()),
        filter_type: None,
        date: None,
        fields: Vec::new(),
    };
    let q = build_where(Entity::Transactions, &f).unwrap();
    match q.params.into_iter().next().unwrap() {
        Value::Text(s) => s,
        _ => panic!("search binds a text pattern"),
    }
}

#[test]
fn percent_in_search_text_is_literal() {
    let p = search_pattern("50%");
    assert_eq!(p, "%50\\%%");
    assert!(like_match(&p, "Lunch 50% off"));
    assert!(!like_match(&p, "Lunch 50 off"));
    assert!(!like_match(&p, "half price"));
}

#[test]
fn underscore_in_search_text_is_literal() {
    let p = search_pattern("a_b");
    assert!(like_match(&p, "xx a_b yy"));
    assert!(!like_match(&p, "xx axb yy"));
}

#[test]
fn backslash_in_search_text_is_literal() {
    let p = search_pattern("a\\b");
    assert_eq!(p, "%a\\\\b%");
    assert!(like_match(&p, "a\\b"));
    assert!(!like_match(&p, "ab"));
}

#[test]
fn unescaped_wildcards_still_work_in_raw_patterns() {
    assert!(like_match("a%b", "acdeb"));
    assert!(like_match("a_b", "acb"));
    assert!(!like_match("a_b", "acdb"));
    assert!(like_match("%", ""));
    assert!(!like_match("_", ""));
}

#[test]
fn like_pattern_wraps_and_escapes() {
    assert_eq!(like_pattern("tea"), "%tea%");
    assert_eq!(like_pattern("100%_sure"), "%100\\%\\_sure%");
    assert_eq!(like_pattern(""), "%%");
}

#[test]
fn add_then_search_scenario_matches_the_new_row() {
    // the row being inserted
    let reason = "Lunch 50% off";
    // the pattern a search for "50%" binds
    let p = search_pattern("50%");
    // the search's predicate accepts exactly the rows holding "50%" literally
    assert!(like_match(&p, reason));
    assert!(!like_match(&p, "Dinner, full price"));
}

#[test]
fn string_helpers_behave() {
    assert!(str_eq("abc", "abc"));
    assert!(!str_eq("abc", "abd"));
    assert!(!str_eq("abc", "ab"));
    assert_eq!(str_chars("héllo").len(), 5);
    let trimmed = trim_chars(str_chars("  a b \t"));
    let trimmed: String = trimmed.into_iter().collect();
    assert_eq!(trimmed, "a b");
}

#[test]
fn registry_whitelists_declared_fields_only() {
    let names: Vec<String> = fields_of(Entity::Users).into_iter().map(|f| f.name).collect();
    assert_eq!(
        names,
        vec!["username", "full_name", "role", "status", "avatar", "password", "department"]
    );
    assert!(is_allowed_field(Entity::Transactions, &"amount".to_string()));
    assert!(!is_allowed_field(Entity::Transactions, &"username".to_string()));
    assert!(is_allowed_field(Entity::UserActivity, &"activity".to_string()));
}

fn text_col(name: &str, v: &str) -> Column {
    Column { name: name.to_string(), value: Value::Text(v.to_string()) }
}

fn int_col(name: &str, v: i64) -> Column {
    Column { name: name.to_string(), value: Value::Int(v) }
}

fn null_col(name: &str) -> Column {
    Column { name: name.to_string(), value: Value::Null }
}

fn user_row() -> Row {
    Row {
        cols: vec![
            int_col("id", 7),
            text_col("username", "ada"),
            text_col("full_name", "Ada L"),
            text_col("role", "admin"),
            text_col("status", "active"),
            null_col("avatar"),
            text_col("password", "pw-1234"),
            text_col("department", "Research"),
            text_col("created_at", "2024-03-15T12:00:00+00:00"),
            null_col("last_login"),
        ],
    }
}

#[test]
fn user_row_maps_field_by_field() {
    let u = map_user_row(&user_row()).unwrap();
    assert_eq!(u.id, 7);
    assert_eq!(u.username, "ada");
    assert_eq!(u.full_name, "Ada L");
    assert_eq!(u.role, "admin");
    assert_eq!(u.status, "active");
    assert_eq!(u.avatar, None);
    assert_eq!(u.department, Some("Research".to_string()));
    assert_eq!(u.last_login, None);
}

#[test]
fn user_row_missing_column_names_it() {
    let mut row = user_row();
    row.cols.retain(|c| c.name != "password");
    assert_eq!(
        map_user_row(&row).err(),
        Some(QueryError::Mapping("password".to_string()))
    );
}

#[test]
fn user_row_wrong_kind_names_the_column() {
    let mut row = user_row();
    for c in row.cols.iter_mut() {
        if c.name == "role" {
            c.value = Value::Int(3);
        }
    }
    assert_eq!(map_user_row(&row).err(), Some(QueryError::Mapping("role".to_string())));
}

#[test]
fn transaction_row_maps_amount_as_cents() {
    let row = Row {
        cols: vec![
            int_col("id", 1),
            text_col("person_name", "Alice"),
            null_col("person_avatar"),
            text_col("category", "Food"),
            int_col("amount", 4250),
            text_col("transaction_type", "expense"),
            text_col("reason", "Lunch 50% off"),
            null_col("responsible_person"),
            text_col("created_at", "2024-03-15T12:00:00+00:00"),
        ],
    };
    let t = map_transaction_row(&row).unwrap();
    assert_eq!(t.amount_cents, 4250);
    assert_eq!(t.reason, "Lunch 50% off");
}

#[test]
fn activity_row_maps() {
    let row = Row {
        cols: vec![
            int_col("id", 2),
            text_col("username", "ada"),
            text_col("activity", "logged in"),
            text_col("created_at", "2024-03-15T12:00:00+00:00"),
        ],
    };
    let a = map_activity_row(&row).unwrap();
    assert_eq!(a.activity, "logged in");
}

#[test]
fn error_messages_are_classified() {
    assert_eq!(
        QueryError::Validation("nope".to_string()).message(),
        "unknown field: nope"
    );
    assert_eq!(QueryError::NotFound.message(), "not found");
    assert_eq!(
        QueryError::Mapping("role".to_string()).message(),
        "could not map column: role"
    );
    assert_eq!(
        QueryError::EmptyPatch.message(),
        "empty patch: at least one field is required"
    );
    assert_eq!(
        QueryError::Store("busy".to_string()).message(),
        "store error: busy"
    );
}
