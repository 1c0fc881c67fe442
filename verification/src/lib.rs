//! A verified core for a small CRUD service over one relational table.
//!
//! The service is a thin translation layer: an HTTP request is mapped onto one
//! parameterized SQL statement, and the statement's outcome is mapped back to
//! an HTTP response. This crate holds everything in that layer that computes:
//! the record and payload types, a model of the table that the statements act
//! on, the statement texts, and the request handlers as functions from the
//! database state to the response. The unverified binary around it only moves
//! bytes: it extracts requests, executes the statements, and serializes the
//! values this crate hands back.

mod handlers;
mod record;
mod sql;
mod table;

pub use handlers::Db;
pub use handlers::HealthResponse;
pub use handlers::MsgResponse;
pub use handlers::create_mytable;
pub use handlers::delete_mytable;
pub use handlers::error_body;
pub use handlers::error_response;
pub use handlers::get_mytable;
pub use handlers::getall_mytable;
pub use handlers::health_checker_handler;
pub use handlers::insert_success;
pub use handlers::update_mytable;
pub use handlers::update_success;
pub use record::MyTable;
pub use record::MyTableInsert;
pub use record::MyTableUpdate;
pub use record::RecV;
pub use sql::delete_query;
pub use sql::get_by_id_query;
pub use sql::getall_query;
pub use sql::insert_query;
pub use sql::update_query;
pub use table::Table;
pub use table::deleted_rows;
pub use table::lemma_create_then_list;
pub use table::lemma_delete_removes_the_only_match;
pub use table::lemma_insert_ids_fresh_and_distinct;
pub use table::lemma_update_advances_updated_at;
pub use table::new_rec;
pub use table::rows_view;
pub use table::updated_rows;
