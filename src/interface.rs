//! Capability traits for databases, connections and statements, and the
//! lifecycle every statement follows.
use vstd::prelude::*;

use arrow::datatypes::Schema;
use arrow::ffi_stream::FFI_ArrowArrayStream;
use arrow::ffi::{FFI_ArrowArray, FFI_ArrowSchema};

use crate::error::{fails_with, AdbcError, AdbcStatusCode};
use crate::ffi::AdbcObjectDepth;

verus! {

/// Relies on arrow: a table or parameter schema, carried through unopened.
#[verifier::external_type_specification]
#[verifier::external_body]
pub struct ExSchema(arrow::datatypes::Schema);

/// Relies on arrow's `Clone` for `Schema`, used when a partitioned result is
/// copied. Nothing is claimed of the copy.
pub assume_specification[ <arrow::datatypes::Schema as core::clone::Clone>::clone ](
    schema: &arrow::datatypes::Schema,
) -> arrow::datatypes::Schema;

/// Databases hold state shared by multiple connections: configuration,
/// caches, or the data itself for in-memory databases.
pub trait DatabaseApi {
    type Error;

    /// Set an option on the database.
    ///
    /// Some databases may not allow setting options after initialization.
    fn set_option(&self, key: &str, value: &str) -> Result<(), Self::Error>;
}

/// A single connection to a database. It is never accessed concurrently.
///
/// Connections start in autocommit mode; setting
/// `"adbc.connection.autocommit"` to `"false"` leaves it, after which
/// `commit` and `rollback` apply.
///
/// Result sets come back as record batch streams in the Arrow C stream form.
pub trait ConnectionApi {
    type Error;

    /// Set an option on the connection.
    fn set_option(&self, key: &str, value: &str) -> Result<(), Self::Error>;

    /// Metadata about the database and driver, one row per recognized code,
    /// with the columns `info_name: uint32 not null` and `info_value`, a
    /// dense union of string, bool, int64, int32 bitmask, list of strings
    /// and map from int32 to list of int32. Unrecognized codes are omitted.
    fn get_info(&self, info_codes: &[u32]) -> Result<FFI_ArrowArrayStream, Self::Error>;

    /// The hierarchy of catalogs, database schemas, tables and columns,
    /// populated down to `depth`. Each filter that is `None` does not
    /// filter; `catalog`, `db_schema`, `table_name` and `column_name` may be
    /// search patterns where `%` matches any run of characters and `_`
    /// matches one character.
    fn get_objects(
        &self,
        depth: AdbcObjectDepth,
        catalog: Option<&str>,
        db_schema: Option<&str>,
        table_name: Option<&str>,
        table_type: Option<&[&str]>,
        column_name: Option<&str>,
    ) -> Result<FFI_ArrowArrayStream, Self::Error>;

    /// The Arrow schema of a table. `catalog` and `db_schema` may be `None`
    /// when not applicable.
    fn get_table_schema(
        &self,
        catalog: Option<&str>,
        db_schema: Option<&str>,
        table_name: &str,
    ) -> Result<Schema, Self::Error>;

    /// The table types of the database, in order.
    fn get_table_types(&self) -> Result<Vec<String>, Self::Error>;

    /// Read one partition of a partitioned result set.
    fn read_partition(&self, partition: &[u8]) -> Result<FFI_ArrowArrayStream, Self::Error>;

    /// Commit any pending transactions. Only used if autocommit is disabled.
    fn commit(&self) -> Result<(), Self::Error>;

    /// Roll back any pending transactions. Only used if autocommit is disabled.
    fn rollback(&self) -> Result<(), Self::Error>;
}

/// Where a statement stands in its lifecycle.
#[derive(Debug, Clone, Copy, PartialEq, Eq, Structural)]
pub enum StatementState {
    /// No query has been set.
    Unprepared,
    /// A SQL query or a Substrait plan has been set.
    QueryConfigured,
    /// The configured query has been prepared.
    Prepared,
}

/// The operations of a statement, as far as its lifecycle is concerned.
#[derive(Debug, Clone, Copy, PartialEq, Eq, Structural)]
pub enum StatementAction {
    SetOption,
    SetSqlQuery,
    SetSubstraitPlan,
    Prepare,
    GetParamSchema,
    Bind,
    Execute,
}

/// `action` may be performed on a statement in `state`.
pub open spec fn statement_permits(state: StatementState, action: StatementAction) -> bool {
    match action {
        StatementAction::SetOption | StatementAction::SetSqlQuery | StatementAction::SetSubstraitPlan => true,
        StatementAction::GetParamSchema => state == StatementState::Prepared,
        StatementAction::Prepare | StatementAction::Bind | StatementAction::Execute => state
            != StatementState::Unprepared,
    }
}

/// The state a statement in `state` reaches once `action` succeeds. Setting
/// the query again discards any earlier query and preparation.
pub open spec fn statement_next(state: StatementState, action: StatementAction) -> StatementState {
    match action {
        StatementAction::SetSqlQuery | StatementAction::SetSubstraitPlan => StatementState::QueryConfigured,
        StatementAction::Prepare => StatementState::Prepared,
        _ => state,
    }
}

/// The query a statement is configured to execute: a SQL text or a
/// Substrait plan. Setting one replaces the other.
#[derive(Debug, Clone, PartialEq, Eq)]
pub enum QuerySpec {
    Sql(String),
    SubstraitPlan(Vec<u8>),
}

/// `query` is the SQL text `text`.
pub open spec fn is_sql_query(query: Option<QuerySpec>, text: Seq<char>) -> bool {
    match query {
        Some(QuerySpec::Sql(s)) => s@ == text,
        _ => false,
    }
}

/// `query` is the Substrait plan `plan`.
pub open spec fn is_substrait_plan(query: Option<QuerySpec>, plan: Seq<u8>) -> bool {
    match query {
        Some(QuerySpec::SubstraitPlan(p)) => p@ == plan,
        _ => false,
    }
}

/// `action` sets the query, replacing any earlier one.
pub open spec fn replaces_query(action: StatementAction) -> bool {
    action == StatementAction::SetSqlQuery || action == StatementAction::SetSubstraitPlan
}

/// One call of `action` on a statement followed its lifecycle: it was
/// refused with `InvalidState` exactly where the lifecycle forbids it; on
/// success the statement moved to the next state and kept its query unless
/// the action sets one; on failure nothing changed.
pub open spec fn lifecycle_step(
    action: StatementAction,
    before: StatementState,
    after: StatementState,
    query_before: Option<QuerySpec>,
    query_after: Option<QuerySpec>,
    succeeded: bool,
    refused: bool,
) -> bool {
    &&& refused <==> !statement_permits(before, action)
    &&& refused ==> !succeeded
    &&& succeeded ==> after == statement_next(before, action)
    &&& succeeded && !replaces_query(action) ==> query_after == query_before
    &&& !succeeded ==> after == before && query_after == query_before
}

impl StatementState {
    /// Check `action` against this state: the next state where it is
    /// permitted, `InvalidState` where it is not.
    pub fn apply(&self, action: StatementAction) -> (r: Result<StatementState, AdbcStatusCode>)
        ensures
            statement_permits(*self, action) ==> r == Ok::<StatementState, AdbcStatusCode>(
                statement_next(*self, action),
            ),
            !statement_permits(*self, action) ==> r == Err::<StatementState, AdbcStatusCode>(
                AdbcStatusCode::InvalidState,
            ),
    {
        match action {
            StatementAction::SetOption => Ok(*self),
            StatementAction::SetSqlQuery | StatementAction::SetSubstraitPlan => Ok(
                StatementState::QueryConfigured,
            ),
            StatementAction::GetParamSchema => match self {
                StatementState::Prepared => Ok(StatementState::Prepared),
                _ => Err(AdbcStatusCode::InvalidState),
            },
            StatementAction::Prepare => match self {
                StatementState::Unprepared => Err(AdbcStatusCode::InvalidState),
                _ => Ok(StatementState::Prepared),
            },
            StatementAction::Bind | StatementAction::Execute => match self {
                StatementState::Unprepared => Err(AdbcStatusCode::InvalidState),
                _ => Ok(*self),
            },
        }
    }
}

/// Asking for the parameter schema of a statement that is not prepared is
/// refused with `InvalidState` and changes nothing.
pub proof fn lemma_param_schema_needs_prepare(
    state: StatementState,
    after: StatementState,
    query: Option<QuerySpec>,
    query_after: Option<QuerySpec>,
    succeeded: bool,
    refused: bool,
)
    requires
        state != StatementState::Prepared,
        lifecycle_step(StatementAction::GetParamSchema, state, after, query, query_after, succeeded, refused),
    ensures
        refused,
        !succeeded,
        after == state,
        query_after == query,
{
}

/// Executing right after a SQL query was set, with no preparation, is not
/// refused.
pub proof fn lemma_execute_needs_no_prepare(
    s0: StatementState,
    s1: StatementState,
    s2: StatementState,
    q0: Option<QuerySpec>,
    q1: Option<QuerySpec>,
    q2: Option<QuerySpec>,
    set_refused: bool,
    executed: bool,
    execute_refused: bool,
)
    requires
        lifecycle_step(StatementAction::SetSqlQuery, s0, s1, q0, q1, true, set_refused),
        lifecycle_step(StatementAction::Execute, s1, s2, q1, q2, executed, execute_refused),
    ensures
        s1 == StatementState::QueryConfigured,
        !execute_refused,
{
}

/// Setting the SQL query again, whatever the state before (prepared
/// included), returns the statement to `QueryConfigured`: the parameter
/// schema is refused with `InvalidState` until the statement is prepared
/// anew, and is no longer refused once it is.
pub proof fn lemma_set_query_resets_preparation(
    s0: StatementState,
    s1: StatementState,
    s2: StatementState,
    s3: StatementState,
    s4: StatementState,
    q0: Option<QuerySpec>,
    q1: Option<QuerySpec>,
    q2: Option<QuerySpec>,
    q3: Option<QuerySpec>,
    q4: Option<QuerySpec>,
    set_refused: bool,
    early_ok: bool,
    early_refused: bool,
    prepare_refused: bool,
    late_ok: bool,
    late_refused: bool,
)
    requires
        lifecycle_step(StatementAction::SetSqlQuery, s0, s1, q0, q1, true, set_refused),
        lifecycle_step(StatementAction::GetParamSchema, s1, s2, q1, q2, early_ok, early_refused),
        lifecycle_step(StatementAction::Prepare, s2, s3, q2, q3, true, prepare_refused),
        lifecycle_step(StatementAction::GetParamSchema, s3, s4, q3, q4, late_ok, late_refused),
    ensures
        s1 == StatementState::QueryConfigured,
        early_refused,
        !early_ok,
        s3 == StatementState::Prepared,
        q3 == q1,
        !late_refused,
{
}

/// A statement: states `Unprepared`, `QueryConfigured` and `Prepared`, as
/// `statement_permits` and `statement_next` lay down. Every operation follows
/// `lifecycle_step`: it fails with `InvalidState` exactly where its lifecycle
/// forbids it, moves the statement to the next state when it succeeds, and
/// changes nothing when it fails.
pub trait StatementApi {
    type Error: AdbcError;

    /// Where the statement stands in its lifecycle.
    spec fn lifecycle(&self) -> StatementState;

    /// The query the statement is configured to execute, if any.
    spec fn configured_query(&self) -> Option<QuerySpec>;

    /// Turn this statement into a prepared statement to be executed multiple
    /// times. Fails before a query is set.
    fn prepare(&mut self) -> (r: Result<(), Self::Error>)
        ensures
            lifecycle_step(
                StatementAction::Prepare,
                old(self).lifecycle(),
                final(self).lifecycle(),
                old(self).configured_query(),
                final(self).configured_query(),
                r is Ok,
                fails_with(r, AdbcStatusCode::InvalidState),
            ),
    ;

    /// Set a string option on the statement.
    fn set_option(&mut self, key: &str, value: &str) -> (r: Result<(), Self::Error>)
        ensures
            lifecycle_step(
                StatementAction::SetOption,
                old(self).lifecycle(),
                final(self).lifecycle(),
                old(self).configured_query(),
                final(self).configured_query(),
                r is Ok,
                fails_with(r, AdbcStatusCode::InvalidState),
            ),
    ;

    /// Set the SQL query to execute, replacing any earlier query or plan.
    fn set_sql_query(&mut self, query: &str) -> (r: Result<(), Self::Error>)
        ensures
            lifecycle_step(
                StatementAction::SetSqlQuery,
                old(self).lifecycle(),
                final(self).lifecycle(),
                old(self).configured_query(),
                final(self).configured_query(),
                r is Ok,
                fails_with(r, AdbcStatusCode::InvalidState),
            ),
            r is Ok ==> is_sql_query(final(self).configured_query(), query@),
    ;

    /// Set the Substrait plan to execute, replacing any earlier query or plan.
    fn set_substrait_plan(&mut self, plan: &[u8]) -> (r: Result<(), Self::Error>)
        ensures
            lifecycle_step(
                StatementAction::SetSubstraitPlan,
                old(self).lifecycle(),
                final(self).lifecycle(),
                old(self).configured_query(),
                final(self).configured_query(),
                r is Ok,
                fails_with(r, AdbcStatusCode::InvalidState),
            ),
            r is Ok ==> is_substrait_plan(final(self).configured_query(), plan@),
    ;

    /// The schema of the bound parameters, one field per parameter in
    /// ordinal order. An unnamed parameter has an empty name; a parameter of
    /// unknown type has the null type. Fails before `prepare`.
    fn get_param_schema(&mut self) -> (r: Result<Schema, Self::Error>)
        ensures
            lifecycle_step(
                StatementAction::GetParamSchema,
                old(self).lifecycle(),
                final(self).lifecycle(),
                old(self).configured_query(),
                final(self).configured_query(),
                r is Ok,
                fails_with(r, AdbcStatusCode::InvalidState),
            ),
    ;

    /// Bind one batch, given as its column values and their schema, for bulk
    /// insertion or as parameters.
    fn bind_data(&mut self, values: FFI_ArrowArray, schema: FFI_ArrowSchema) -> (r: Result<(), Self::Error>)
        ensures
            lifecycle_step(
                StatementAction::Bind,
                old(self).lifecycle(),
                final(self).lifecycle(),
                old(self).configured_query(),
                final(self).configured_query(),
                r is Ok,
                fails_with(r, AdbcStatusCode::InvalidState),
            ),
    ;

    /// Bind a stream of batches, for bulk insertion or as parameters.
    fn bind_stream(&mut self, stream: FFI_ArrowArrayStream) -> (r: Result<(), Self::Error>)
        ensures
            lifecycle_step(
                StatementAction::Bind,
                old(self).lifecycle(),
                final(self).lifecycle(),
                old(self).configured_query(),
                final(self).configured_query(),
                r is Ok,
                fails_with(r, AdbcStatusCode::InvalidState),
            ),
    ;

    /// Execute the statement and get its results. No `prepare` is needed.
    fn execute(&mut self) -> (r: Result<StatementResult, Self::Error>)
        ensures
            lifecycle_step(
                StatementAction::Execute,
                old(self).lifecycle(),
                final(self).lifecycle(),
                old(self).configured_query(),
                final(self).configured_query(),
                r is Ok,
                fails_with(r, AdbcStatusCode::InvalidState),
            ),
            r matches Ok(res) ==> res.rows_affected >= -1,
    ;

    /// Execute a statement that has no result set; the number of rows
    /// affected, or -1 if unknown.
    fn execute_update(&mut self) -> (r: Result<i64, Self::Error>)
        ensures
            lifecycle_step(
                StatementAction::Execute,
                old(self).lifecycle(),
                final(self).lifecycle(),
                old(self).configured_query(),
                final(self).configured_query(),
                r is Ok,
                fails_with(r, AdbcStatusCode::InvalidState),
            ),
            r matches Ok(n) ==> n >= -1,
    ;

    /// Execute a statement whose result set is split into partitions, for
    /// backends that partition results internally. Each partition identifier
    /// is later read through a connection's `read_partition`.
    fn execute_partitioned(&mut self) -> (r: Result<PartitionedStatementResult, Self::Error>)
        ensures
            lifecycle_step(
                StatementAction::Execute,
                old(self).lifecycle(),
                final(self).lifecycle(),
                old(self).configured_query(),
                final(self).configured_query(),
                r is Ok,
                fails_with(r, AdbcStatusCode::InvalidState),
            ),
            r matches Ok(res) ==> res.rows_affected >= -1,
    ;
}

/// Result of `StatementApi::execute`. `result` is `None` when there is no
/// meaningful result; `rows_affected` is -1 when unknown or not applicable.
pub struct StatementResult {
    pub result: Option<FFI_ArrowArrayStream>,
    pub rows_affected: i64,
}

/// Result of `StatementApi::execute_partitioned`: the schema of the result,
/// one opaque identifier per partition, to be read through
/// `ConnectionApi::read_partition`, possibly from other threads or
/// processes, and the rows affected, -1 when unknown.
#[derive(Debug, Clone)]
pub struct PartitionedStatementResult {
    pub schema: Schema,
    pub partition_ids: Vec<Vec<u8>>,
    pub rows_affected: i64,
}

} // verus!
