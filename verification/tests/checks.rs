use std::borrow::Cow;
use std::fmt;

use asset_portal::checks::{DbErrbExt, DbErrorInfo, RuntimeErrorInfo, ValidationErrorsExt};
use sea_orm::{DbErr, RuntimeErr};
use validator::{ValidationError, ValidationErrors};

#[derive(Debug)]
struct CodedError(&'static str);

impl fmt::Display for CodedError {
    fn fmt(&self, f: &mut fmt::Formatter<'_>) -> fmt::Result {
        f.write_str("database error ")?;
        f.write_str(self.0)
    }
}

impl std::error::Error for CodedError {}

impl sqlx::error::DatabaseError for CodedError {
    fn message(&self) -> &str {
        "database error"
    }

    fn code(&self) -> Option<Cow<'_, str>> {
        Some(Cow::Borrowed(self.0))
    }

    fn as_error(&self) -> &(dyn std::error::Error + Send + Sync + 'static) {
        self
    }

    fn as_error_mut(&mut self) -> &mut (dyn std::error::Error + Send + Sync + 'static) {
        self
    }

    fn into_error(self: Box<Self>) -> Box<dyn std::error::Error + Send + Sync + 'static> {
        self
    }
}

fn exec_error(code: &'static str) -> DbErr {
    DbErr::Exec(RuntimeErr::SqlxError(sqlx::Error::Database(Box::new(CodedError(code)))))
}

#[test]
fn unique_key_codes() {
    assert!(exec_error("23505").is_unique_key_constraint());
    assert!(exec_error("2067").is_unique_key_constraint());
    assert!(!exec_error("23503").is_unique_key_constraint());
}

#[test]
fn foreign_key_codes() {
    assert!(exec_error("23503").is_foreign_key_constraint());
    assert!(exec_error("787").is_foreign_key_constraint());
    assert!(!exec_error("23505").is_foreign_key_constraint());
}

#[test]
fn other_database_errors_are_no_constraint() {
    let query = DbErr::Query(RuntimeErr::SqlxError(sqlx::Error::Database(Box::new(CodedError(
        "23505",
    )))));
    assert!(!query.is_unique_key_constraint());
    assert!(!DbErr::Custom("x".to_string()).is_foreign_key_constraint());
    assert!(!DbErr::Exec(RuntimeErr::Internal("x".to_string())).is_unique_key_constraint());
}

fn database(code: Option<&str>) -> RuntimeErrorInfo {
    RuntimeErrorInfo::Database(code.map(|c| c.to_string()))
}

#[test]
fn constraint_checks_on_plain_info() {
    assert!(DbErrorInfo::Exec(database(Some("23505"))).is_unique_key_violation());
    assert!(DbErrorInfo::Exec(database(Some("2067"))).is_unique_key_violation());
    assert!(!DbErrorInfo::Exec(database(None)).is_unique_key_violation());
    assert!(!DbErrorInfo::Other.is_foreign_key_violation());
    assert!(DbErrorInfo::Exec(database(Some("787"))).is_foreign_key_violation());
    assert!(!DbErrorInfo::Exec(database(Some("787"))).is_unique_key_violation());
}

#[test]
fn only_execution_errors_raised_by_the_database_count() {
    assert!(!DbErrorInfo::Conn(database(Some("23505"))).is_unique_key_violation());
    assert!(!DbErrorInfo::Query(database(Some("23503"))).is_foreign_key_violation());
    assert!(!DbErrorInfo::Exec(RuntimeErrorInfo::OtherSqlx).is_unique_key_violation());
    assert!(!DbErrorInfo::Exec(RuntimeErrorInfo::Internal).is_foreign_key_violation());
}

#[test]
fn connection_errors_with_codes_are_no_constraint() {
    let conn = DbErr::Conn(RuntimeErr::SqlxError(sqlx::Error::Database(Box::new(CodedError(
        "23503",
    )))));
    assert!(!conn.is_foreign_key_constraint());
    assert!(!DbErr::Exec(RuntimeErr::SqlxError(sqlx::Error::RowNotFound)).is_unique_key_constraint());
}

#[test]
fn invalid_fields_of_validation_errors() {
    let mut errors = ValidationErrors::new();
    errors.add("email", ValidationError::new("email"));
    errors.add("name", ValidationError::new("length"));
    assert!(errors.is_field_invalid("email"));
    assert!(errors.is_field_invalid("name"));
    assert!(!errors.is_field_invalid("password"));
    assert!(!ValidationErrors::new().is_field_invalid("email"));
}
