//! The driver function table: one operation per slot, each answering
//! `NotImplemented` unless the driver supplies its own.
use vstd::prelude::*;

use arrow::ffi::{FFI_ArrowArray, FFI_ArrowSchema};
use arrow::ffi_stream::FFI_ArrowArrayStream;

use crate::error::{AdbcStatusCode, FFI_AdbcError};
use crate::ffi::{AdbcObjectDepth, FFI_AdbcConnection, FFI_AdbcDatabase, FFI_AdbcStatement};
use crate::interface::{is_sql_query, is_substrait_plan, lifecycle_step, QuerySpec, StatementAction, StatementState};
use crate::partitions::FFI_AdbcPartitions;

verus! {

/// The slots of the driver function table.
#[derive(Debug, Clone, Copy, PartialEq, Eq, Structural)]
pub enum DriverOperation {
    DriverRelease,
    DatabaseInit,
    DatabaseNew,
    DatabaseSetOption,
    DatabaseRelease,
    ConnectionCommit,
    ConnectionGetInfo,
    ConnectionGetObjects,
    ConnectionGetTableSchema,
    ConnectionGetTableTypes,
    ConnectionInit,
    ConnectionNew,
    ConnectionSetOption,
    ConnectionReadPartition,
    ConnectionRelease,
    ConnectionRollback,
    StatementBind,
    StatementBindStream,
    StatementExecuteQuery,
    StatementExecutePartitions,
    StatementGetParameterSchema,
    StatementNew,
    StatementPrepare,
    StatementRelease,
    StatementSetOption,
    StatementSetSqlQuery,
    StatementSetSubstraitPlan,
}

/// A driver's function table. Every operation slot has a default that
/// reports `AdbcStatusCode::NotImplemented` and touches nothing, so a driver
/// supplies only the operations it supports and callers never test whether a
/// slot is filled. The release slots have no default: each driver says what
/// releasing its resources reports, through the `*_release_status` functions. The table is read, never written, once the driver is built.
///
/// `overrides` names the slots a table fills itself; each slot's contract
/// says what every other slot does.
pub trait DriverFunctions: Sized {
    /// This table supplies its own implementation of `op`. A statement slot
    /// may still answer `NotImplemented`, meaning the operation is not
    /// supported; every other answer follows the statement's lifecycle.
    spec fn overrides(op: DriverOperation) -> bool;

    /// The status `driver_release` reports for a driver in this state whose
    /// opaque state is `private_data`.
    spec fn driver_release_status(&self, private_data: usize) -> AdbcStatusCode;

    /// The status `database_release` reports for `database`.
    spec fn database_release_status(&self, database: FFI_AdbcDatabase<Self>) -> AdbcStatusCode;

    /// The status `connection_release` reports for `connection`.
    spec fn connection_release_status(&self, connection: FFI_AdbcConnection<Self>) -> AdbcStatusCode;

    /// The status `statement_release` reports for `statement`.
    spec fn statement_release_status(&self, statement: FFI_AdbcStatement<Self>) -> AdbcStatusCode;

    /// Where `statement` stands in its lifecycle, as this driver tracks it.
    spec fn statement_lifecycle(&self, statement: FFI_AdbcStatement<Self>) -> StatementState;

    /// The query `statement` is configured to execute, as this driver tracks it.
    spec fn statement_query(&self, statement: FFI_AdbcStatement<Self>) -> Option<QuerySpec>;

    /// Release the driver itself and clear its opaque state.
    fn driver_release(&mut self, private_data: &mut usize, error: &mut FFI_AdbcError) -> (status: AdbcStatusCode)
        ensures
            status == old(self).driver_release_status(*old(private_data)),
            status == AdbcStatusCode::Success ==> *final(private_data) == 0,
            !Self::overrides(DriverOperation::DriverRelease) ==> (status == AdbcStatusCode::Success
                && *final(self) == *old(self) && *final(error) == *old(error)),
    ;


    /// Finish setting up a database once its options are set.
    fn database_init(&self, database: &mut FFI_AdbcDatabase<Self>, error: &mut FFI_AdbcError) -> (status: AdbcStatusCode)
        ensures
            !Self::overrides(DriverOperation::DatabaseInit) ==> (status == AdbcStatusCode::NotImplemented
                && *final(database) == *old(database) && *final(error) == *old(error)),
    {
        AdbcStatusCode::NotImplemented
    }

    /// Allocate the driver state of a new database.
    fn database_new(&self, database: &mut FFI_AdbcDatabase<Self>, error: &mut FFI_AdbcError) -> (status: AdbcStatusCode)
        ensures
            !Self::overrides(DriverOperation::DatabaseNew) ==> (status == AdbcStatusCode::NotImplemented
                && *final(database) == *old(database) && *final(error) == *old(error)),
    {
        AdbcStatusCode::NotImplemented
    }

    /// Set an option on a database.
    fn database_set_option(&self, database: &mut FFI_AdbcDatabase<Self>, key: &str, value: &str, error: &mut FFI_AdbcError) -> (status: AdbcStatusCode)
        ensures
            !Self::overrides(DriverOperation::DatabaseSetOption) ==> (status == AdbcStatusCode::NotImplemented
                && *final(database) == *old(database) && *final(error) == *old(error)),
    {
        AdbcStatusCode::NotImplemented
    }

    /// Release the driver state of a database.
    fn database_release(&self, database: &mut FFI_AdbcDatabase<Self>, error: &mut FFI_AdbcError) -> (status: AdbcStatusCode)
        ensures
            status == self.database_release_status(*old(database)),
            status == AdbcStatusCode::Success ==> final(database).private_data == 0,
            !Self::overrides(DriverOperation::DatabaseRelease) ==> (status == AdbcStatusCode::NotImplemented
                && *final(database) == *old(database) && *final(error) == *old(error)),
    ;

    /// Commit pending transactions on a connection.
    fn connection_commit(&self, connection: &mut FFI_AdbcConnection<Self>, error: &mut FFI_AdbcError) -> (status: AdbcStatusCode)
        ensures
            !Self::overrides(DriverOperation::ConnectionCommit) ==> (status == AdbcStatusCode::NotImplemented
                && *final(connection) == *old(connection) && *final(error) == *old(error)),
    {
        AdbcStatusCode::NotImplemented
    }

    /// Stream metadata about the database and driver for the given codes.
    fn connection_get_info(&self, connection: &mut FFI_AdbcConnection<Self>, info_codes: &[u32], out: &mut FFI_ArrowArrayStream, error: &mut FFI_AdbcError) -> (status: AdbcStatusCode)
        ensures
            !Self::overrides(DriverOperation::ConnectionGetInfo) ==> (status == AdbcStatusCode::NotImplemented
                && *final(connection) == *old(connection) && *final(out) == *old(out) && *final(error) == *old(error)),
    {
        AdbcStatusCode::NotImplemented
    }

    /// Stream the hierarchy of catalogs, schemas, tables and columns.
    fn connection_get_objects(&self, connection: &mut FFI_AdbcConnection<Self>, depth: AdbcObjectDepth, catalog: Option<&str>, db_schema: Option<&str>, table_name: Option<&str>, table_type: Option<&[&str]>, column_name: Option<&str>, out: &mut FFI_ArrowArrayStream, error: &mut FFI_AdbcError) -> (status: AdbcStatusCode)
        ensures
            !Self::overrides(DriverOperation::ConnectionGetObjects) ==> (status == AdbcStatusCode::NotImplemented
                && *final(connection) == *old(connection) && *final(out) == *old(out) && *final(error) == *old(error)),
    {
        AdbcStatusCode::NotImplemented
    }

    /// Describe the columns of one table.
    fn connection_get_table_schema(&self, connection: &mut FFI_AdbcConnection<Self>, catalog: Option<&str>, db_schema: Option<&str>, table_name: &str, schema: &mut FFI_ArrowSchema, error: &mut FFI_AdbcError) -> (status: AdbcStatusCode)
        ensures
            !Self::overrides(DriverOperation::ConnectionGetTableSchema) ==> (status == AdbcStatusCode::NotImplemented
                && *final(connection) == *old(connection) && *final(schema) == *old(schema) && *final(error) == *old(error)),
    {
        AdbcStatusCode::NotImplemented
    }

    /// Stream the table types the database knows.
    fn connection_get_table_types(&self, connection: &mut FFI_AdbcConnection<Self>, out: &mut FFI_ArrowArrayStream, error: &mut FFI_AdbcError) -> (status: AdbcStatusCode)
        ensures
            !Self::overrides(DriverOperation::ConnectionGetTableTypes) ==> (status == AdbcStatusCode::NotImplemented
                && *final(connection) == *old(connection) && *final(out) == *old(out) && *final(error) == *old(error)),
    {
        AdbcStatusCode::NotImplemented
    }

    /// Finish setting up a connection to a database.
    fn connection_init(&self, connection: &mut FFI_AdbcConnection<Self>, database: &mut FFI_AdbcDatabase<Self>, error: &mut FFI_AdbcError) -> (status: AdbcStatusCode)
        ensures
            !Self::overrides(DriverOperation::ConnectionInit) ==> (status == AdbcStatusCode::NotImplemented
                && *final(connection) == *old(connection) && *final(database) == *old(database) && *final(error) == *old(error)),
    {
        AdbcStatusCode::NotImplemented
    }

    /// Allocate the driver state of a new connection.
    fn connection_new(&self, connection: &mut FFI_AdbcConnection<Self>, error: &mut FFI_AdbcError) -> (status: AdbcStatusCode)
        ensures
            !Self::overrides(DriverOperation::ConnectionNew) ==> (status == AdbcStatusCode::NotImplemented
                && *final(connection) == *old(connection) && *final(error) == *old(error)),
    {
        AdbcStatusCode::NotImplemented
    }

    /// Set an option on a connection.
    fn connection_set_option(&self, connection: &mut FFI_AdbcConnection<Self>, key: &str, value: &str, error: &mut FFI_AdbcError) -> (status: AdbcStatusCode)
        ensures
            !Self::overrides(DriverOperation::ConnectionSetOption) ==> (status == AdbcStatusCode::NotImplemented
                && *final(connection) == *old(connection) && *final(error) == *old(error)),
    {
        AdbcStatusCode::NotImplemented
    }

    /// Stream the rows of one previously issued partition.
    fn connection_read_partition(&self, connection: &mut FFI_AdbcConnection<Self>, partition: &[u8], out: &mut FFI_ArrowArrayStream, error: &mut FFI_AdbcError) -> (status: AdbcStatusCode)
        ensures
            !Self::overrides(DriverOperation::ConnectionReadPartition) ==> (status == AdbcStatusCode::NotImplemented
                && *final(connection) == *old(connection) && *final(out) == *old(out) && *final(error) == *old(error)),
    {
        AdbcStatusCode::NotImplemented
    }

    /// Release the driver state of a connection.
    fn connection_release(&self, connection: &mut FFI_AdbcConnection<Self>, error: &mut FFI_AdbcError) -> (status: AdbcStatusCode)
        ensures
            status == self.connection_release_status(*old(connection)),
            status == AdbcStatusCode::Success ==> final(connection).private_data == 0,
            !Self::overrides(DriverOperation::ConnectionRelease) ==> (status == AdbcStatusCode::NotImplemented
                && *final(connection) == *old(connection) && *final(error) == *old(error)),
    ;

    /// Roll back pending transactions on a connection.
    fn connection_rollback(&self, connection: &mut FFI_AdbcConnection<Self>, error: &mut FFI_AdbcError) -> (status: AdbcStatusCode)
        ensures
            !Self::overrides(DriverOperation::ConnectionRollback) ==> (status == AdbcStatusCode::NotImplemented
                && *final(connection) == *old(connection) && *final(error) == *old(error)),
    {
        AdbcStatusCode::NotImplemented
    }

    /// Bind one batch of values to a statement.
    fn statement_bind(&self, statement: &mut FFI_AdbcStatement<Self>, values: &mut FFI_ArrowArray, schema: &mut FFI_ArrowSchema, error: &mut FFI_AdbcError) -> (status: AdbcStatusCode)
        ensures
            status != AdbcStatusCode::NotImplemented ==> lifecycle_step(
                StatementAction::Bind,
                self.statement_lifecycle(*old(statement)),
                self.statement_lifecycle(*final(statement)),
                self.statement_query(*old(statement)),
                self.statement_query(*final(statement)),
                status == AdbcStatusCode::Success,
                status == AdbcStatusCode::InvalidState,
            ),
            !Self::overrides(DriverOperation::StatementBind) ==> (status == AdbcStatusCode::NotImplemented
                && *final(statement) == *old(statement) && *final(values) == *old(values) && *final(schema) == *old(schema) && *final(error) == *old(error)),
    {
        AdbcStatusCode::NotImplemented
    }

    /// Bind a stream of batches to a statement.
    fn statement_bind_stream(&self, statement: &mut FFI_AdbcStatement<Self>, stream: &mut FFI_ArrowArrayStream, error: &mut FFI_AdbcError) -> (status: AdbcStatusCode)
        ensures
            status != AdbcStatusCode::NotImplemented ==> lifecycle_step(
                StatementAction::Bind,
                self.statement_lifecycle(*old(statement)),
                self.statement_lifecycle(*final(statement)),
                self.statement_query(*old(statement)),
                self.statement_query(*final(statement)),
                status == AdbcStatusCode::Success,
                status == AdbcStatusCode::InvalidState,
            ),
            !Self::overrides(DriverOperation::StatementBindStream) ==> (status == AdbcStatusCode::NotImplemented
                && *final(statement) == *old(statement) && *final(stream) == *old(stream) && *final(error) == *old(error)),
    {
        AdbcStatusCode::NotImplemented
    }

    /// Execute a statement, streaming its result and counting affected rows.
    fn statement_execute_query(&self, statement: &mut FFI_AdbcStatement<Self>, out: &mut FFI_ArrowArrayStream, rows_affected: &mut i64, error: &mut FFI_AdbcError) -> (status: AdbcStatusCode)
        ensures
            status != AdbcStatusCode::NotImplemented ==> lifecycle_step(
                StatementAction::Execute,
                self.statement_lifecycle(*old(statement)),
                self.statement_lifecycle(*final(statement)),
                self.statement_query(*old(statement)),
                self.statement_query(*final(statement)),
                status == AdbcStatusCode::Success,
                status == AdbcStatusCode::InvalidState,
            ),
            status == AdbcStatusCode::Success ==> *final(rows_affected) >= -1,
            !Self::overrides(DriverOperation::StatementExecuteQuery) ==> (status == AdbcStatusCode::NotImplemented
                && *final(statement) == *old(statement) && *final(out) == *old(out) && *final(rows_affected) == *old(rows_affected) && *final(error) == *old(error)),
    {
        AdbcStatusCode::NotImplemented
    }

    /// Execute a statement whose result is split into partitions.
    fn statement_execute_partitions(&self, statement: &mut FFI_AdbcStatement<Self>, schema: &mut FFI_ArrowSchema, partitions: &mut FFI_AdbcPartitions, rows_affected: &mut i64, error: &mut FFI_AdbcError) -> (status: AdbcStatusCode)
        ensures
            status != AdbcStatusCode::NotImplemented ==> lifecycle_step(
                StatementAction::Execute,
                self.statement_lifecycle(*old(statement)),
                self.statement_lifecycle(*final(statement)),
                self.statement_query(*old(statement)),
                self.statement_query(*final(statement)),
                status == AdbcStatusCode::Success,
                status == AdbcStatusCode::InvalidState,
            ),
            status == AdbcStatusCode::Success ==> (final(partitions).wf() && final(partitions).is_attached()
                && *final(rows_affected) >= -1),
            !Self::overrides(DriverOperation::StatementExecutePartitions) ==> (status == AdbcStatusCode::NotImplemented
                && *final(statement) == *old(statement) && *final(schema) == *old(schema) && *final(partitions) == *old(partitions) && *final(rows_affected) == *old(rows_affected) && *final(error) == *old(error)),
    {
        AdbcStatusCode::NotImplemented
    }

    /// Describe the parameters of a prepared statement.
    fn statement_get_parameter_schema(&self, statement: &mut FFI_AdbcStatement<Self>, schema: &mut FFI_ArrowSchema, error: &mut FFI_AdbcError) -> (status: AdbcStatusCode)
        ensures
            status != AdbcStatusCode::NotImplemented ==> lifecycle_step(
                StatementAction::GetParamSchema,
                self.statement_lifecycle(*old(statement)),
                self.statement_lifecycle(*final(statement)),
                self.statement_query(*old(statement)),
                self.statement_query(*final(statement)),
                status == AdbcStatusCode::Success,
                status == AdbcStatusCode::InvalidState,
            ),
            !Self::overrides(DriverOperation::StatementGetParameterSchema) ==> (status == AdbcStatusCode::NotImplemented
                && *final(statement) == *old(statement) && *final(schema) == *old(schema) && *final(error) == *old(error)),
    {
        AdbcStatusCode::NotImplemented
    }

    /// Allocate the driver state of a new statement on a connection.
    fn statement_new(&self, connection: &mut FFI_AdbcConnection<Self>, statement: &mut FFI_AdbcStatement<Self>, error: &mut FFI_AdbcError) -> (status: AdbcStatusCode)
        ensures
            !Self::overrides(DriverOperation::StatementNew) ==> (status == AdbcStatusCode::NotImplemented
                && *final(connection) == *old(connection) && *final(statement) == *old(statement) && *final(error) == *old(error)),
    {
        AdbcStatusCode::NotImplemented
    }

    /// Turn a statement into a prepared statement.
    fn statement_prepare(&self, statement: &mut FFI_AdbcStatement<Self>, error: &mut FFI_AdbcError) -> (status: AdbcStatusCode)
        ensures
            status != AdbcStatusCode::NotImplemented ==> lifecycle_step(
                StatementAction::Prepare,
                self.statement_lifecycle(*old(statement)),
                self.statement_lifecycle(*final(statement)),
                self.statement_query(*old(statement)),
                self.statement_query(*final(statement)),
                status == AdbcStatusCode::Success,
                status == AdbcStatusCode::InvalidState,
            ),
            !Self::overrides(DriverOperation::StatementPrepare) ==> (status == AdbcStatusCode::NotImplemented
                && *final(statement) == *old(statement) && *final(error) == *old(error)),
    {
        AdbcStatusCode::NotImplemented
    }

    /// Release the driver state of a statement.
    fn statement_release(&self, statement: &mut FFI_AdbcStatement<Self>, error: &mut FFI_AdbcError) -> (status: AdbcStatusCode)
        ensures
            status == self.statement_release_status(*old(statement)),
            status == AdbcStatusCode::Success ==> final(statement).private_data == 0,
            !Self::overrides(DriverOperation::StatementRelease) ==> (status == AdbcStatusCode::NotImplemented
                && *final(statement) == *old(statement) && *final(error) == *old(error)),
    ;

    /// Set an option on a statement.
    fn statement_set_option(&self, statement: &mut FFI_AdbcStatement<Self>, key: &str, value: &str, error: &mut FFI_AdbcError) -> (status: AdbcStatusCode)
        ensures
            status != AdbcStatusCode::NotImplemented ==> lifecycle_step(
                StatementAction::SetOption,
                self.statement_lifecycle(*old(statement)),
                self.statement_lifecycle(*final(statement)),
                self.statement_query(*old(statement)),
                self.statement_query(*final(statement)),
                status == AdbcStatusCode::Success,
                status == AdbcStatusCode::InvalidState,
            ),
            !Self::overrides(DriverOperation::StatementSetOption) ==> (status == AdbcStatusCode::NotImplemented
                && *final(statement) == *old(statement) && *final(error) == *old(error)),
    {
        AdbcStatusCode::NotImplemented
    }

    /// Set the SQL query a statement executes.
    fn statement_set_sql_query(&self, statement: &mut FFI_AdbcStatement<Self>, query: &str, error: &mut FFI_AdbcError) -> (status: AdbcStatusCode)
        ensures
            status != AdbcStatusCode::NotImplemented ==> lifecycle_step(
                StatementAction::SetSqlQuery,
                self.statement_lifecycle(*old(statement)),
                self.statement_lifecycle(*final(statement)),
                self.statement_query(*old(statement)),
                self.statement_query(*final(statement)),
                status == AdbcStatusCode::Success,
                status == AdbcStatusCode::InvalidState,
            ),
            status == AdbcStatusCode::Success ==> is_sql_query(self.statement_query(*final(statement)), query@),
            !Self::overrides(DriverOperation::StatementSetSqlQuery) ==> (status == AdbcStatusCode::NotImplemented
                && *final(statement) == *old(statement) && *final(error) == *old(error)),
    {
        AdbcStatusCode::NotImplemented
    }

    /// Set the Substrait plan a statement executes.
    fn statement_set_substrait_plan(&self, statement: &mut FFI_AdbcStatement<Self>, plan: &[u8], error: &mut FFI_AdbcError) -> (status: AdbcStatusCode)
        ensures
            status != AdbcStatusCode::NotImplemented ==> lifecycle_step(
                StatementAction::SetSubstraitPlan,
                self.statement_lifecycle(*old(statement)),
                self.statement_lifecycle(*final(statement)),
                self.statement_query(*old(statement)),
                self.statement_query(*final(statement)),
                status == AdbcStatusCode::Success,
                status == AdbcStatusCode::InvalidState,
            ),
            status == AdbcStatusCode::Success ==> is_substrait_plan(self.statement_query(*final(statement)), plan@),
            !Self::overrides(DriverOperation::StatementSetSubstraitPlan) ==> (status == AdbcStatusCode::NotImplemented
                && *final(statement) == *old(statement) && *final(error) == *old(error)),
    {
        AdbcStatusCode::NotImplemented
    }

}

/// The fully stubbed table: every operation reports `NotImplemented`.
#[derive(Debug, Clone, Copy, PartialEq, Eq, Structural)]
pub struct DriverFunctionStubs;

impl DriverFunctions for DriverFunctionStubs {
    open spec fn overrides(op: DriverOperation) -> bool {
        false
    }

    open spec fn driver_release_status(&self, private_data: usize) -> AdbcStatusCode {
        AdbcStatusCode::Success
    }

    open spec fn database_release_status(&self, database: FFI_AdbcDatabase<Self>) -> AdbcStatusCode {
        AdbcStatusCode::NotImplemented
    }

    open spec fn connection_release_status(&self, connection: FFI_AdbcConnection<Self>) -> AdbcStatusCode {
        AdbcStatusCode::NotImplemented
    }

    open spec fn statement_release_status(&self, statement: FFI_AdbcStatement<Self>) -> AdbcStatusCode {
        AdbcStatusCode::NotImplemented
    }

    open spec fn statement_lifecycle(&self, statement: FFI_AdbcStatement<Self>) -> StatementState {
        StatementState::Unprepared
    }

    open spec fn statement_query(&self, statement: FFI_AdbcStatement<Self>) -> Option<QuerySpec> {
        None
    }

    /// Nothing to release but the opaque state.
    fn driver_release(&mut self, private_data: &mut usize, error: &mut FFI_AdbcError) -> (status: AdbcStatusCode) {
        *private_data = 0;
        AdbcStatusCode::Success
    }

    /// The stub: reports `NotImplemented`.
    fn database_release(&self, database: &mut FFI_AdbcDatabase<Self>, error: &mut FFI_AdbcError) -> (status: AdbcStatusCode) {
        AdbcStatusCode::NotImplemented
    }

    /// The stub: reports `NotImplemented`.
    fn connection_release(&self, connection: &mut FFI_AdbcConnection<Self>, error: &mut FFI_AdbcError) -> (status: AdbcStatusCode) {
        AdbcStatusCode::NotImplemented
    }

    /// The stub: reports `NotImplemented`.
    fn statement_release(&self, statement: &mut FFI_AdbcStatement<Self>, error: &mut FFI_AdbcError) -> (status: AdbcStatusCode) {
        AdbcStatusCode::NotImplemented
    }
}

/// The stubbed table supplies no operation of its own: every slot answers
/// `NotImplemented` and changes neither the handle it is given nor the error
/// slot, and releasing the driver only clears its opaque state.
pub proof fn lemma_stub_table_supplies_nothing()
    ensures
        forall|op: DriverOperation| !#[trigger] DriverFunctionStubs::overrides(op),
{
}

} // verus!
