//! What the webhooks ask the database.

use crate::helpers::Id;
use crate::sql::{postgres_statement, statement, SqlValue};
use crate::text::{cat3, signed_decimal, to_signed_decimal};
use vstd::prelude::*;

verus! {

/// The text of [`active_triggers_stmt`], with the number of the trigger type.
///
/// Triggers are matched by the organization that owns the integration: each
/// organization has at most one inbound integration per forge, which the webhook
/// route has already picked.
pub open spec fn active_triggers_sql(trigger_type: i16) -> Seq<char> {
    "SELECT pt.* FROM project_trigger pt JOIN project p ON pt.project = p.id JOIN integration i ON i.organization = p.organization WHERE pt.active = true AND pt.trigger_type = "@
        + signed_decimal(trigger_type as int) + " AND i.id = $1"@
}

/// The statement that loads the active triggers of one type that belong to an
/// integration.
pub fn active_triggers_stmt(integration: Id, trigger_type: i16) -> (r: sea_orm::Statement)
    ensures
        r == statement(active_triggers_sql(trigger_type), seq![SqlValue::Uuid(integration)]),
{
    let number = to_signed_decimal(trigger_type as i64);
    let sql = cat3(
        "SELECT pt.* FROM project_trigger pt JOIN project p ON pt.project = p.id JOIN integration i ON i.organization = p.organization WHERE pt.active = true AND pt.trigger_type = ",
        number.as_str(),
        " AND i.id = $1",
    );
    let values: Vec<SqlValue> = vec![SqlValue::Uuid(integration)];
    assert(values@ =~= seq![SqlValue::Uuid(integration)]);
    postgres_statement(sql.as_str(), values)
}

/// The text of [`active_projects_stmt`].
pub const ACTIVE_PROJECTS_SQL: &'static str = "SELECT DISTINCT project FROM project_trigger WHERE active = true AND trigger_type = $1 AND (config->>'integration_id')::uuid = $2";

/// The statement that loads the projects with an active trigger of one type for an
/// integration.
pub fn active_projects_stmt(integration: Id, trigger_type: i16) -> (r: sea_orm::Statement)
    ensures
        r == statement(
            ACTIVE_PROJECTS_SQL@,
            seq![SqlValue::SmallInt(trigger_type), SqlValue::Uuid(integration)],
        ),
{
    let values: Vec<SqlValue> = vec![
        SqlValue::SmallInt(trigger_type),
        SqlValue::Uuid(integration),
    ];
    assert(values@ =~= seq![SqlValue::SmallInt(trigger_type), SqlValue::Uuid(integration)]);
    postgres_statement(ACTIVE_PROJECTS_SQL, values)
}

/// The text of [`evaluation_by_check_stmt`]. The checks of an evaluation are a map
/// from context names to identifiers, any of which can match.
pub const EVALUATION_BY_CHECK_SQL: &'static str = "SELECT id FROM evaluation
           WHERE check_run_ids IS NOT NULL
             AND EXISTS (
                 SELECT 1
                 FROM jsonb_each(check_run_ids) AS kv
                 WHERE (kv.value)::text::bigint = $1
             )
           LIMIT 1";

/// The statement that finds the evaluation to which a check belongs.
pub fn evaluation_by_check_stmt(check_id: i64) -> (r: sea_orm::Statement)
    ensures
        r == statement(EVALUATION_BY_CHECK_SQL@, seq![SqlValue::BigInt(check_id)]),
{
    let values: Vec<SqlValue> = vec![SqlValue::BigInt(check_id)];
    assert(values@ =~= seq![SqlValue::BigInt(check_id)]);
    postgres_statement(EVALUATION_BY_CHECK_SQL, values)
}

/// What is asked of the database: for the active triggers of a type in the organization of an
/// integration, for the projects with an active trigger of a type for an integration, and for
/// the evaluation that has a check.
pub proof fn law_webhook_queries(
    integration: Id,
    trigger_type: i16,
    check_id: i64,
    t: sea_orm::Statement,
    p: sea_orm::Statement,
    e: sea_orm::Statement,
)
    requires
        call_ensures(active_triggers_stmt, (integration, trigger_type), t),
        call_ensures(active_projects_stmt, (integration, trigger_type), p),
        call_ensures(evaluation_by_check_stmt, (check_id,), e),
    ensures
        t == statement(
            "SELECT pt.* FROM project_trigger pt JOIN project p ON pt.project = p.id JOIN integration i ON i.organization = p.organization WHERE pt.active = true AND pt.trigger_type = "@
                + signed_decimal(trigger_type as int) + " AND i.id = $1"@,
            seq![SqlValue::Uuid(integration)],
        ),
        p == statement(
            "SELECT DISTINCT project FROM project_trigger WHERE active = true AND trigger_type = $1 AND (config->>'integration_id')::uuid = $2"@,
            seq![SqlValue::SmallInt(trigger_type), SqlValue::Uuid(integration)],
        ),
        e == statement(
            "SELECT id FROM evaluation
           WHERE check_run_ids IS NOT NULL
             AND EXISTS (
                 SELECT 1
                 FROM jsonb_each(check_run_ids) AS kv
                 WHERE (kv.value)::text::bigint = $1
             )
           LIMIT 1"@,
            seq![SqlValue::BigInt(check_id)],
        ),
{
}

} // verus!
