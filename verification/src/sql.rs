//! Statements for the database.

use crate::codec::is_date;
use crate::helpers::{Id, Timestamp};
use vstd::prelude::*;

verus! {

/// A value bound to a statement.
#[derive(Debug, PartialEq, Eq)]
pub enum SqlValue {
    Uuid(Id),
    /// A date without a time zone.
    DateTime(Timestamp),
    /// A date in UTC.
    DateTimeUtc(Timestamp),
    BigInt(i64),
    SmallInt(i16),
    Text(String),
}

impl SqlValue {
    /// A bound date is a date.
    pub open spec fn is_bindable(self) -> bool {
        match self {
            SqlValue::DateTime(t) => is_date(t),
            SqlValue::DateTimeUtc(t) => is_date(t),
            _ => true,
        }
    }
}

/// The statements that the database client takes.
#[verifier::external_type_specification]
#[verifier::external_body]
pub struct ExStatement(sea_orm::Statement);

/// The PostgreSQL statement with this text and these values.
pub uninterp spec fn statement(sql: Seq<char>, values: Seq<SqlValue>) -> sea_orm::Statement;

/// `sea_orm::Statement::from_sql_and_values` for PostgreSQL: the statement holds the
/// text and the values as given.
#[verifier::external_body]
pub(crate) fn postgres_statement(sql: &str, values: Vec<SqlValue>) -> (r: sea_orm::Statement)
    requires
        forall|i: int| 0 <= i < values@.len() ==> (#[trigger] values@[i]).is_bindable(),
    ensures
        r == statement(sql@, values@),
{
    let date = |t| chrono::DateTime::from_timestamp_micros(t).expect("date in range");
    let bound = values.into_iter().map(|v| match v {
        SqlValue::Uuid(u) => sea_orm::Value::from(uuid::Uuid::from_u128(u)),
        SqlValue::DateTime(t) => sea_orm::Value::from(date(t).naive_utc()),
        SqlValue::DateTimeUtc(t) => sea_orm::Value::from(date(t)),
        SqlValue::BigInt(n) => sea_orm::Value::from(n),
        SqlValue::SmallInt(n) => sea_orm::Value::from(n),
        SqlValue::Text(s) => sea_orm::Value::from(s),
    });
    sea_orm::Statement::from_sql_and_values(sea_orm::DatabaseBackend::Postgres, sql, bound)
}

} // verus!
