use record_service::Db;
use record_service::MyTableInsert;
use record_service::MyTableUpdate;
use record_service::Table;
use record_service::create_mytable;
use record_service::delete_mytable;
use record_service::delete_query;
use record_service::error_response;
use record_service::get_by_id_query;
use record_service::get_mytable;
use record_service::getall_mytable;
use record_service::getall_query;
use record_service::health_checker_handler;
use record_service::insert_query;
use record_service::update_mytable;
use record_service::update_query;

fn insert_payload(nama: &str, alamat: &str) -> MyTableInsert {
    MyTableInsert { nama: nama.to_string(), alamat: alamat.to_string() }
}

fn update_payload(nama: &str, alamat: &str) -> MyTableUpdate {
    MyTableUpdate { nama: nama.to_string(), alamat: alamat.to_string() }
}

#[test]
fn health_check_returns_fixed_success_payload() {
    let r = health_checker_handler();
    assert_eq!(r.status, "success");
    assert_eq!(r.message, "Simple CRUD API with Rust, SQLX, MySQL,and Axum");
}

#[test]
fn health_check_is_independent_of_database_state() {
    // The handler takes no database input at all; it answers the same whether
    // the storage layer is reachable or not.
    let first = health_checker_handler();
    let second = health_checker_handler();
    assert_eq!(first.status, second.status);
    assert_eq!(first.message, second.message);
}

#[test]
fn create_scenario_alice_street_one() {
    let db = Db::Up(Table::new());
    let (db, r) = create_mytable(db, insert_payload("Alice", "Street 1"), 3);
    assert_eq!(r.expect("create must succeed").msg, "Data inserted successfully");
    let rows = getall_mytable(&db).expect("list must succeed");
    assert_eq!(rows.len(), 1);
    assert_eq!(rows[0].nama, "Alice");
    assert_eq!(rows[0].alamat, "Street 1");
    assert_eq!(rows[0].nomer, 1);
}

#[test]
fn create_adds_exactly_one_matching_row_to_list() {
    let db = Db::Up(Table::new());
    let (db, _) = create_mytable(db, insert_payload("first", "one"), 1);
    let before = getall_mytable(&db).expect("list must succeed");
    let (db, r) = create_mytable(db, insert_payload("second", "two"), 5);
    assert!(r.is_ok());
    let after = getall_mytable(&db).expect("list must succeed");
    assert_eq!(after.len(), before.len() + 1);
    for (a, b) in before.iter().zip(after.iter()) {
        assert_eq!(a.nomer, b.nomer);
        assert_eq!(a.nama, b.nama);
    }
    let added = after.last().expect("one row was added");
    assert_eq!(added.nama, "second");
    assert_eq!(added.alamat, "two");
    let created = added.created_at.expect("created_at is set on insert");
    let updated = added.updated_at.expect("updated_at is set on insert");
    assert!(created <= updated);
}

#[test]
fn get_by_id_with_zero_matches_returns_empty_success() {
    let db = Db::Up(Table::new());
    let (db, _) = create_mytable(db, insert_payload("only", "row"), 2);
    let rows = get_mytable(&db, 42).expect("a miss is a success, not an error");
    assert!(rows.is_empty());
}

#[test]
fn update_scenario_bob_street_two() {
    let db = Db::Up(Table::new());
    let (db, _) = create_mytable(db, insert_payload("Alice", "Street 1"), 3);
    let (db, r) = update_mytable(db, 1, update_payload("Bob", "Street 2"), 8);
    assert_eq!(r.expect("update must succeed").msg, "Data updated successfully");
    let rows = get_mytable(&db, 1).expect("read back must succeed");
    assert_eq!(rows.len(), 1);
    assert_eq!(rows[0].nama, "Bob");
    assert_eq!(rows[0].alamat, "Street 2");
}

#[test]
fn update_advances_updated_at_and_keeps_created_at() {
    let db = Db::Up(Table::new());
    let (db, _) = create_mytable(db, insert_payload("Alice", "Street 1"), 3);
    let before = get_mytable(&db, 1).expect("read back must succeed");
    let created_before = before[0].created_at;
    let updated_before = before[0].updated_at.expect("set on insert");
    let (db, _) = update_mytable(db, 1, update_payload("Bob", "Street 2"), 9);
    let after = get_mytable(&db, 1).expect("read back must succeed");
    assert_eq!(after[0].created_at, created_before);
    let updated_after = after[0].updated_at.expect("still set after update");
    assert!(updated_after >= updated_before);
}

#[test]
fn update_of_missing_id_changes_nothing_but_still_confirms() {
    let db = Db::Up(Table::new());
    let (db, _) = create_mytable(db, insert_payload("Alice", "Street 1"), 3);
    let (db, r) = update_mytable(db, 77, update_payload("Bob", "Street 2"), 9);
    assert_eq!(r.expect("no not-found signal").msg, "Data updated successfully");
    let rows = getall_mytable(&db).expect("list must succeed");
    assert_eq!(rows.len(), 1);
    assert_eq!(rows[0].nama, "Alice");
    assert_eq!(rows[0].alamat, "Street 1");
}

#[test]
fn delete_removes_the_row_and_get_finds_nothing_after() {
    let db = Db::Up(Table::new());
    let (db, _) = create_mytable(db, insert_payload("Alice", "Street 1"), 1);
    let (db, _) = create_mytable(db, insert_payload("Carol", "Street 3"), 2);
    let (db, r) = delete_mytable(db, 1);
    assert!(r.expect("delete must succeed").is_empty());
    let rows = getall_mytable(&db).expect("list must succeed");
    assert_eq!(rows.len(), 1);
    let hits = get_mytable(&db, 1).expect("read back must succeed");
    assert!(hits.is_empty());
}

#[test]
fn delete_scenario_missing_id_is_a_success() {
    let db = Db::Up(Table::new());
    let (db, _) = create_mytable(db, insert_payload("Alice", "Street 1"), 1);
    let (db, r) = delete_mytable(db, 999);
    assert!(r.expect("no error for a missing id").is_empty());
    let rows = getall_mytable(&db).expect("list must succeed");
    assert_eq!(rows.len(), 1);
}

#[test]
fn creates_receive_unique_server_assigned_ids() {
    let mut db = Db::Up(Table::new());
    let payloads = [("a", "1"), ("b", "2"), ("c", "3"), ("d", "4"), ("e", "5")];
    for (i, (nama, alamat)) in payloads.iter().enumerate() {
        let (next, r) = create_mytable(db, insert_payload(nama, alamat), i as i64);
        assert!(r.is_ok());
        db = next;
    }
    let rows = getall_mytable(&db).expect("list must succeed");
    assert_eq!(rows.len(), payloads.len());
    for i in 0..rows.len() {
        for j in 0..rows.len() {
            if i != j {
                assert_ne!(rows[i].nomer, rows[j].nomer);
            }
        }
    }
}

#[test]
fn unreachable_database_turns_every_data_operation_into_500() {
    let msg = || "connection refused".to_string();

    let r = getall_mytable(&Db::Down(msg()));
    let (code, body) = r.expect_err("list must fail");
    assert_eq!(code, 500);
    assert_eq!(body, "Error is: connection refused");

    let r = get_mytable(&Db::Down(msg()), 1);
    let (code, body) = r.expect_err("get must fail");
    assert_eq!(code, 500);
    assert!(!body.is_empty());

    let (db, r) = create_mytable(Db::Down(msg()), insert_payload("x", "y"), 0);
    let (code, body) = r.expect_err("create must fail");
    assert_eq!(code, 500);
    assert!(!body.is_empty());
    assert!(matches!(db, Db::Down(_)));

    let (_, r) = update_mytable(Db::Down(msg()), 1, update_payload("x", "y"), 0);
    let (code, _) = r.expect_err("update must fail");
    assert_eq!(code, 500);

    let (_, r) = delete_mytable(Db::Down(msg()), 1);
    let (code, body) = r.expect_err("delete must fail");
    assert_eq!(code, 500);
    assert!(!body.is_empty());

    // The health check still answers with its fixed success payload.
    let health = health_checker_handler();
    assert_eq!(health.status, "success");
}

#[test]
fn error_response_prefixes_the_underlying_message() {
    let (code, body) = error_response("boom".to_string());
    assert_eq!(code, 500);
    assert_eq!(body, "Error is: boom");
}

#[test]
fn error_response_is_non_empty_even_for_an_empty_message() {
    let (code, body) = error_response(String::new());
    assert_eq!(code, 500);
    assert!(!body.is_empty());
}

#[test]
fn statement_texts_match_the_operations() {
    assert_eq!(getall_query(), "SELECT * FROM mytable");
    assert_eq!(get_by_id_query(), "SELECT * FROM mytable WHERE nomer = ?");
    assert_eq!(insert_query(), "INSERT INTO mytable (nama,alamat) VALUES (?, ?)");
    assert_eq!(update_query(), "UPDATE mytable SET nama = ?, alamat = ? WHERE nomer = ?");
    assert_eq!(delete_query(), "DELETE FROM mytable WHERE nomer = ?");
}

#[test]
fn empty_table_lists_as_empty_sequence_not_error() {
    let db = Db::Up(Table::new());
    let rows = getall_mytable(&db).expect("empty list is a success");
    assert!(rows.is_empty());
}
