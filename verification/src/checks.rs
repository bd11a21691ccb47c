//! Questions asked of errors raised by outside crates: whether a database
//! error is a violated constraint, and whether a form field failed
//! validation.

use vstd::prelude::*;
use vstd::string::StringExecFns;

verus! {

#[verifier::external_type_specification]
#[verifier::external_body]
pub struct ExDbErr(sea_orm::DbErr);

#[verifier::external_type_specification]
#[verifier::external_body]
pub struct ExValidationErrors(validator::ValidationErrors);

/// Which variant of `sea_orm::DbErr` an error is; the ones that carry no
/// runtime error are `Other`.
#[derive(Clone, Copy, Debug, PartialEq, Eq, Structural)]
pub enum DbErrorOrigin {
    Exec,
    Conn,
    Query,
    Other,
}

/// Which kind of runtime error a `Conn`, `Exec` or `Query` error carries.
#[derive(Clone, Copy, Debug, PartialEq, Eq, Structural)]
pub enum RuntimeErrorOrigin {
    /// A `sqlx` error raised by the database itself.
    Database,
    /// Any other `sqlx` error.
    OtherSqlx,
    /// An error raised inside SeaORM.
    Internal,
}

/// The runtime error carried by a `Conn`, `Exec` or `Query` database error.
pub enum RuntimeErrorInfo {
    /// Raised by the database, with the code the database gave, if any.
    Database(Option<String>),
    /// Any other `sqlx` error.
    OtherSqlx,
    /// An error raised inside SeaORM.
    Internal,
}

/// What the constraint checks read of a database error.
pub enum DbErrorInfo {
    Exec(RuntimeErrorInfo),
    Conn(RuntimeErrorInfo),
    Query(RuntimeErrorInfo),
    /// Any database error that carries no runtime error.
    Other,
}

/// A runtime error as its kind and, for a database error, its code.
pub type RuntimeReading = (RuntimeErrorOrigin, Option<Seq<char>>);

/// A database error as its variant and, where it has one, its runtime error.
pub type DbErrorReading = (DbErrorOrigin, Option<RuntimeReading>);

impl RuntimeErrorInfo {
    pub open spec fn reading(&self) -> RuntimeReading {
        match self {
            RuntimeErrorInfo::Database(code) => (
                RuntimeErrorOrigin::Database,
                match code {
                    Some(c) => Some(c@),
                    None => None,
                },
            ),
            RuntimeErrorInfo::OtherSqlx => (RuntimeErrorOrigin::OtherSqlx, None),
            RuntimeErrorInfo::Internal => (RuntimeErrorOrigin::Internal, None),
        }
    }
}

impl DbErrorInfo {
    pub open spec fn reading(&self) -> DbErrorReading {
        match self {
            DbErrorInfo::Exec(r) => (DbErrorOrigin::Exec, Some(r.reading())),
            DbErrorInfo::Conn(r) => (DbErrorOrigin::Conn, Some(r.reading())),
            DbErrorInfo::Query(r) => (DbErrorOrigin::Query, Some(r.reading())),
            DbErrorInfo::Other => (DbErrorOrigin::Other, None),
        }
    }
}

/// The database codes of a violated unique key (SQLite, PostgreSQL).
pub open spec fn is_unique_key_code(code: Seq<char>) -> bool {
    code == "2067"@ || code == "23505"@
}

/// The database codes of a violated foreign key (SQLite, PostgreSQL).
pub open spec fn is_foreign_key_code(code: Seq<char>) -> bool {
    code == "787"@ || code == "23503"@
}

/// The error is an execution error raised by the database whose code
/// reports a violated unique key.
pub open spec fn reports_unique_key(e: DbErrorReading) -> bool {
    e matches (DbErrorOrigin::Exec, Some((RuntimeErrorOrigin::Database, Some(c))))
        && is_unique_key_code(c)
}

/// The error is an execution error raised by the database whose code
/// reports a violated foreign key.
pub open spec fn reports_foreign_key(e: DbErrorReading) -> bool {
    e matches (DbErrorOrigin::Exec, Some((RuntimeErrorOrigin::Database, Some(c))))
        && is_foreign_key_code(c)
}

/// No database error reports both a violated unique key and a violated
/// foreign key.
pub proof fn lemma_no_error_violates_both(e: DbErrorReading)
    ensures
        !(reports_unique_key(e) && reports_foreign_key(e)),
{
    reveal_strlit("2067");
    reveal_strlit("23505");
    reveal_strlit("787");
    reveal_strlit("23503");
    assert("2067"@.len() == 4);
    assert("787"@.len() == 3);
    assert("23505"@.len() == 5);
    assert("23503"@.len() == 5);
    assert("23505"@[4] != "23503"@[4]);
}

/// Only the SQLite code 2067 and the PostgreSQL code 23505 report a
/// violated unique key, and only the codes 787 and 23503 a violated foreign
/// key: for an execution error raised by the database with any other code,
/// both checks are false.
pub proof fn lemma_only_the_constraint_codes_count(c: Seq<char>)
    ensures
        reports_unique_key((DbErrorOrigin::Exec, Some((RuntimeErrorOrigin::Database, Some(c)))))
            <==> (c == "2067"@ || c == "23505"@),
        reports_foreign_key((DbErrorOrigin::Exec, Some((RuntimeErrorOrigin::Database, Some(c)))))
            <==> (c == "787"@ || c == "23503"@),
{
}

/// What `db_error_info` reads of a `sea_orm::DbErr`.
pub uninterp spec fn db_error_reading(e: sea_orm::DbErr) -> DbErrorReading;

/// Reads a `sea_orm::DbErr` variant by variant: `Exec`, `Conn` and `Query`
/// carry their `RuntimeErr`, read as a `sqlx` database error with its
/// `code()`, another `sqlx` error, or an internal error; every other variant
/// carries no runtime error. The claim is that the reading is a function of
/// the error.
#[verifier::external_body]
fn db_error_info(e: &sea_orm::DbErr) -> (r: DbErrorInfo)
    ensures
        r.reading() == db_error_reading(*e),
{
    let runtime = |r: &sea_orm::RuntimeErr| match r {
        sea_orm::RuntimeErr::SqlxError(sqlx::Error::Database(d)) => {
            RuntimeErrorInfo::Database(d.code().map(|c| c.to_string()))
        },
        sea_orm::RuntimeErr::SqlxError(_) => RuntimeErrorInfo::OtherSqlx,
        sea_orm::RuntimeErr::Internal(_) => RuntimeErrorInfo::Internal,
    };
    match e {
        sea_orm::DbErr::Exec(r) => DbErrorInfo::Exec(runtime(r)),
        sea_orm::DbErr::Conn(r) => DbErrorInfo::Conn(runtime(r)),
        sea_orm::DbErr::Query(r) => DbErrorInfo::Query(runtime(r)),
        _ => DbErrorInfo::Other,
    }
}

/// A database code is one of the given two.
fn code_is_one_of(c: &String, first: &str, second: &str) -> (r: bool)
    ensures
        r == (c@ == first@ || c@ == second@),
{
    *c == String::from_str(first) || *c == String::from_str(second)
}

impl DbErrorInfo {
    /// The error is an execution error raised by the database whose code
    /// reports a violated unique key.
    pub fn is_unique_key_violation(&self) -> (r: bool)
        ensures
            r == reports_unique_key(self.reading()),
            r ==> (self.reading() matches (
                DbErrorOrigin::Exec,
                Some((RuntimeErrorOrigin::Database, Some(c))),
            ) && (c == "2067"@ || c == "23505"@)),
    {
        match self {
            DbErrorInfo::Exec(RuntimeErrorInfo::Database(Some(c))) => code_is_one_of(
                c,
                "2067",
                "23505",
            ),
            _ => false,
        }
    }

    /// The error is an execution error raised by the database whose code
    /// reports a violated foreign key.
    pub fn is_foreign_key_violation(&self) -> (r: bool)
        ensures
            r == reports_foreign_key(self.reading()),
            r ==> (self.reading() matches (
                DbErrorOrigin::Exec,
                Some((RuntimeErrorOrigin::Database, Some(c))),
            ) && (c == "787"@ || c == "23503"@)),
    {
        match self {
            DbErrorInfo::Exec(RuntimeErrorInfo::Database(Some(c))) => code_is_one_of(
                c,
                "787",
                "23503",
            ),
            _ => false,
        }
    }
}

/// Constraint checks on database errors.
pub trait DbErrbExt {
    /// The error reports a violated unique key.
    fn is_unique_key_constraint(&self) -> bool;

    /// The error reports a violated foreign key.
    fn is_foreign_key_constraint(&self) -> bool;
}

impl DbErrbExt for sea_orm::DbErr {
    fn is_unique_key_constraint(&self) -> (r: bool)
        ensures
            r == reports_unique_key(db_error_reading(*self)),
            r ==> (db_error_reading(*self) matches (
                DbErrorOrigin::Exec,
                Some((RuntimeErrorOrigin::Database, Some(c))),
            ) && (c == "2067"@ || c == "23505"@)),
    {
        db_error_info(self).is_unique_key_violation()
    }

    fn is_foreign_key_constraint(&self) -> (r: bool)
        ensures
            r == reports_foreign_key(db_error_reading(*self)),
            r ==> (db_error_reading(*self) matches (
                DbErrorOrigin::Exec,
                Some((RuntimeErrorOrigin::Database, Some(c))),
            ) && (c == "787"@ || c == "23503"@)),
    {
        db_error_info(self).is_foreign_key_violation()
    }
}

/// The names of the fields that a set of validation errors holds errors for.
pub uninterp spec fn invalid_fields(errors: validator::ValidationErrors) -> Set<Seq<char>>;

/// The keys of `ValidationErrors::errors()`, the map from field name to that
/// field's errors, as strings; their order is that of the hash map.
#[verifier::external_body]
fn invalid_field_names(errors: &validator::ValidationErrors) -> (r: Vec<String>)
    ensures
        forall|f: Seq<char>|
            invalid_fields(*errors).contains(f) <==> exists|i: int|
                0 <= i < r@.len() && #[trigger] r@[i]@ == f,
{
    errors.errors().keys().map(|k| k.to_string()).collect()
}

/// Field checks on validation errors.
pub trait ValidationErrorsExt {
    /// The field has validation errors.
    fn is_field_invalid(&self, field: &str) -> bool;
}

impl ValidationErrorsExt for validator::ValidationErrors {
    fn is_field_invalid(&self, field: &str) -> (r: bool)
        ensures
            r == invalid_fields(*self).contains(field@),
    {
        let names = invalid_field_names(self);
        let key = String::from_str(field);
        let mut i: usize = 0;
        while i < names.len()
            invariant
                i <= names@.len(),
                key@ == field@,
                forall|f: Seq<char>|
                    invalid_fields(*self).contains(f) <==> exists|j: int|
                        0 <= j < names@.len() && #[trigger] names@[j]@ == f,
                forall|j: int| 0 <= j < i ==> #[trigger] names@[j]@ != field@,
            decreases names.len() - i,
        {
            if names[i] == key {
                proof {
                    assert(names@[i as int]@ == field@);
                }
                return true;
            }
            i = i + 1;
        }
        false
    }
}

} // verus!
