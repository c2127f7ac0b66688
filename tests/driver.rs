use std::sync::Arc;

use arrow::ffi::{FFI_ArrowArray, FFI_ArrowSchema};
use arrow::ffi_stream::FFI_ArrowArrayStream;
use arrow_adbc::driver_functions::{DriverFunctionStubs, DriverFunctions, DriverOperation};
use arrow_adbc::error::{release_outcome, AdbcError, AdbcStatusCode, FFI_AdbcError};
use arrow_adbc::ffi::{
    AdbcObjectDepth, FFI_AdbcConnection, FFI_AdbcDatabase, FFI_AdbcDriver, FFI_AdbcStatement,
};
use arrow_adbc::interface::{QuerySpec, StatementState};
use arrow_adbc::partitions::{drop_adbc_partitions, FFI_AdbcPartitions};

fn blank(error: &FFI_AdbcError) -> bool {
    error.message.is_empty() && error.vendor_code == 0 && error.sqlstate == [0u8; 5]
}

#[test]
fn stub_table_reports_not_implemented_everywhere() {
    let driver = Arc::new(FFI_AdbcDriver::empty());
    let t = &driver.functions;
    let ni = AdbcStatusCode::NotImplemented;
    let mut db = FFI_AdbcDatabase { private_data: 11, private_driver: Some(driver.clone()) };
    let mut conn = FFI_AdbcConnection { private_data: 12, private_driver: Some(driver.clone()) };
    let mut stmt = FFI_AdbcStatement { private_data: 13, private_driver: Some(driver.clone()) };
    let mut e = FFI_AdbcError::empty();
    let mut stream = FFI_ArrowArrayStream::empty();
    let mut schema = FFI_ArrowSchema::empty();
    let mut array = FFI_ArrowArray::empty();
    let mut parts = FFI_AdbcPartitions::empty();
    let mut rows: i64 = 5;

    assert_eq!(t.database_init(&mut db, &mut e), ni);
    assert_eq!(t.database_new(&mut db, &mut e), ni);
    assert_eq!(t.database_set_option(&mut db, "k", "v", &mut e), ni);
    assert_eq!(t.database_release(&mut db, &mut e), ni);
    assert_eq!(t.connection_commit(&mut conn, &mut e), ni);
    assert_eq!(t.connection_get_info(&mut conn, &[0, 1], &mut stream, &mut e), ni);
    assert_eq!(
        t.connection_get_objects(
            &mut conn,
            AdbcObjectDepth::All,
            Some("c"),
            None,
            Some("t%"),
            Some(&["table"]),
            None,
            &mut stream,
            &mut e
        ),
        ni
    );
    assert_eq!(t.connection_get_table_schema(&mut conn, None, None, "t", &mut schema, &mut e), ni);
    assert_eq!(t.connection_get_table_types(&mut conn, &mut stream, &mut e), ni);
    assert_eq!(t.connection_init(&mut conn, &mut db, &mut e), ni);
    assert_eq!(t.connection_new(&mut conn, &mut e), ni);
    assert_eq!(t.connection_set_option(&mut conn, "k", "v", &mut e), ni);
    assert_eq!(t.connection_read_partition(&mut conn, &[1, 2], &mut stream, &mut e), ni);
    assert_eq!(t.connection_release(&mut conn, &mut e), ni);
    assert_eq!(t.connection_rollback(&mut conn, &mut e), ni);
    assert_eq!(t.statement_bind(&mut stmt, &mut array, &mut schema, &mut e), ni);
    assert_eq!(t.statement_bind_stream(&mut stmt, &mut stream, &mut e), ni);
    assert_eq!(t.statement_execute_query(&mut stmt, &mut stream, &mut rows, &mut e), ni);
    assert_eq!(
        t.statement_execute_partitions(&mut stmt, &mut schema, &mut parts, &mut rows, &mut e),
        ni
    );
    assert_eq!(t.statement_get_parameter_schema(&mut stmt, &mut schema, &mut e), ni);
    assert_eq!(t.statement_new(&mut conn, &mut stmt, &mut e), ni);
    assert_eq!(t.statement_prepare(&mut stmt, &mut e), ni);
    assert_eq!(t.statement_release(&mut stmt, &mut e), ni);
    assert_eq!(t.statement_set_option(&mut stmt, "k", "v", &mut e), ni);
    assert_eq!(t.statement_set_sql_query(&mut stmt, "SELECT 1", &mut e), ni);
    assert_eq!(t.statement_set_substrait_plan(&mut stmt, &[1, 2, 3], &mut e), ni);

    assert_eq!(db.private_data, 11);
    assert_eq!(conn.private_data, 12);
    assert_eq!(stmt.private_data, 13);
    assert_eq!(rows, 5);
    assert!(parts.release.is_none());
    assert!(blank(&e));
}

#[test]
fn status_codes_have_fixed_values() {
    assert_eq!(AdbcStatusCode::Success.code(), 0);
    assert_eq!(AdbcStatusCode::NotImplemented.code(), 2);
    assert_eq!(AdbcStatusCode::InvalidArgument.code(), 5);
    assert_eq!(AdbcStatusCode::InvalidState.code(), 6);
    assert_eq!(AdbcStatusCode::Internal.code(), 9);
    assert_eq!(AdbcStatusCode::IO.code(), 10);
    assert_eq!(AdbcStatusCode::Unauthorized.code(), 14);
}

#[test]
fn object_depths_have_fixed_values() {
    assert_eq!(AdbcObjectDepth::All.code(), 0);
    assert_eq!(AdbcObjectDepth::Catalogs.code(), 1);
    assert_eq!(AdbcObjectDepth::DBSchemas.code(), 2);
    assert_eq!(AdbcObjectDepth::Tables.code(), 3);
}

/// A table that only supplies `database_set_option`, checking what it gets.
struct SetOptionOnly {
    expected_key: &'static str,
    expected_value: &'static str,
    fail_with: Option<&'static str>,
}

impl DriverFunctions for SetOptionOnly {
    fn overrides(op: DriverOperation) -> bool {
        op == DriverOperation::DatabaseSetOption
    }

    fn database_release_status(&self, _database: FFI_AdbcDatabase<Self>) -> AdbcStatusCode {
        AdbcStatusCode::NotImplemented
    }

    fn statement_release_status(&self, _statement: FFI_AdbcStatement<Self>) -> AdbcStatusCode {
        AdbcStatusCode::NotImplemented
    }

    fn statement_lifecycle(&self, _statement: FFI_AdbcStatement<Self>) -> StatementState {
        StatementState::Unprepared
    }

    fn statement_query(&self, _statement: FFI_AdbcStatement<Self>) -> Option<QuerySpec> {
        None
    }

    fn database_release(
        &self,
        _database: &mut FFI_AdbcDatabase<Self>,
        _error: &mut FFI_AdbcError,
    ) -> AdbcStatusCode {
        AdbcStatusCode::NotImplemented
    }

    fn statement_release(
        &self,
        _statement: &mut FFI_AdbcStatement<Self>,
        _error: &mut FFI_AdbcError,
    ) -> AdbcStatusCode {
        AdbcStatusCode::NotImplemented
    }

    fn connection_release_status(&self, _connection: FFI_AdbcConnection<Self>) -> AdbcStatusCode {
        AdbcStatusCode::NotImplemented
    }

    fn driver_release_status(&self, _private_data: usize) -> AdbcStatusCode {
        AdbcStatusCode::Success
    }

    fn connection_release(
        &self,
        _connection: &mut FFI_AdbcConnection<Self>,
        _error: &mut FFI_AdbcError,
    ) -> AdbcStatusCode {
        AdbcStatusCode::NotImplemented
    }

    fn driver_release(&mut self, private_data: &mut usize, _error: &mut FFI_AdbcError) -> AdbcStatusCode {
        *private_data = 0;
        AdbcStatusCode::Success
    }

    fn database_set_option(
        &self,
        _database: &mut FFI_AdbcDatabase<Self>,
        key: &str,
        value: &str,
        error: &mut FFI_AdbcError,
    ) -> AdbcStatusCode {
        if let Some(message) = self.fail_with {
            error.message = message.to_string();
            return AdbcStatusCode::Internal;
        }
        assert_eq!(key, self.expected_key);
        assert_eq!(value, self.expected_value);
        AdbcStatusCode::Success
    }
}

#[test]
fn only_set_option_overridden() {
    let driver = Arc::new(FFI_AdbcDriver::with_functions(SetOptionOnly {
        expected_key: "k",
        expected_value: "v",
        fail_with: None,
    }));
    let mut db = FFI_AdbcDatabase::empty();
    db.private_driver = Some(driver.clone());
    let mut e = FFI_AdbcError::empty();
    assert_eq!(driver.functions.database_set_option(&mut db, "k", "v", &mut e), AdbcStatusCode::Success);
    assert_eq!(driver.functions.database_init(&mut db, &mut e), AdbcStatusCode::NotImplemented);
    assert_eq!(driver.functions.database_new(&mut db, &mut e), AdbcStatusCode::NotImplemented);
    assert_eq!(driver.functions.database_release(&mut db, &mut e), AdbcStatusCode::NotImplemented);
    let mut conn = FFI_AdbcConnection::empty();
    assert_eq!(
        driver.functions.connection_set_option(&mut conn, "k", "v", &mut e),
        AdbcStatusCode::NotImplemented
    );
    let mut stmt = FFI_AdbcStatement::empty();
    assert_eq!(driver.functions.statement_prepare(&mut stmt, &mut e), AdbcStatusCode::NotImplemented);
    assert!(blank(&e));
}

#[test]
fn test_database_set_option() {
    let driver = Arc::new(FFI_AdbcDriver::with_functions(SetOptionOnly {
        expected_key: "test_key",
        expected_value: "test value 😬",
        fail_with: None,
    }));
    let mut e = FFI_AdbcError::empty();
    let mut builder = FFI_AdbcDatabase::empty();
    builder.private_driver = Some(driver.clone());
    let status = driver.functions.database_set_option(&mut builder, "test_key", "test value 😬", &mut e);
    assert_eq!(status, AdbcStatusCode::Success);
    let mut db = FFI_AdbcDatabase { private_data: 1, private_driver: Some(driver.clone()) };
    let status = driver.functions.database_set_option(&mut db, "test_key", "test value 😬", &mut e);
    assert_eq!(status, AdbcStatusCode::Success);

    let failing = Arc::new(FFI_AdbcDriver::with_functions(SetOptionOnly {
        expected_key: "",
        expected_value: "",
        fail_with: Some("hello world"),
    }));
    let mut db = FFI_AdbcDatabase { private_data: 1, private_driver: Some(failing.clone()) };
    let mut e = FFI_AdbcError::empty();
    let status = failing.functions.database_set_option(&mut db, "key", "value", &mut e);
    assert!(status != AdbcStatusCode::Success);
    assert_eq!(e.message, "hello world");
}

/// A table whose connection slots set options and release state.
struct ConnectionDriver;

impl DriverFunctions for ConnectionDriver {
    fn overrides(op: DriverOperation) -> bool {
        matches!(
            op,
            DriverOperation::ConnectionSetOption
                | DriverOperation::ConnectionRelease
                | DriverOperation::DriverRelease
        )
    }

    fn database_release_status(&self, _database: FFI_AdbcDatabase<Self>) -> AdbcStatusCode {
        AdbcStatusCode::NotImplemented
    }

    fn statement_release_status(&self, _statement: FFI_AdbcStatement<Self>) -> AdbcStatusCode {
        AdbcStatusCode::NotImplemented
    }

    fn statement_lifecycle(&self, _statement: FFI_AdbcStatement<Self>) -> StatementState {
        StatementState::Unprepared
    }

    fn statement_query(&self, _statement: FFI_AdbcStatement<Self>) -> Option<QuerySpec> {
        None
    }

    fn database_release(
        &self,
        _database: &mut FFI_AdbcDatabase<Self>,
        _error: &mut FFI_AdbcError,
    ) -> AdbcStatusCode {
        AdbcStatusCode::NotImplemented
    }

    fn statement_release(
        &self,
        _statement: &mut FFI_AdbcStatement<Self>,
        _error: &mut FFI_AdbcError,
    ) -> AdbcStatusCode {
        AdbcStatusCode::NotImplemented
    }

    fn connection_release_status(&self, _connection: FFI_AdbcConnection<Self>) -> AdbcStatusCode {
        AdbcStatusCode::Success
    }

    fn driver_release_status(&self, private_data: usize) -> AdbcStatusCode {
        if private_data == 99 {
            AdbcStatusCode::Internal
        } else {
            AdbcStatusCode::Success
        }
    }

    fn connection_set_option(
        &self,
        _connection: &mut FFI_AdbcConnection<Self>,
        key: &str,
        value: &str,
        error: &mut FFI_AdbcError,
    ) -> AdbcStatusCode {
        if key == "test_key" {
            assert_eq!(value, "test value 😬");
            AdbcStatusCode::Success
        } else {
            error.message = "hello world".to_string();
            AdbcStatusCode::InvalidArgument
        }
    }

    fn connection_release(
        &self,
        connection: &mut FFI_AdbcConnection<Self>,
        _error: &mut FFI_AdbcError,
    ) -> AdbcStatusCode {
        connection.private_data = 0;
        AdbcStatusCode::Success
    }

    fn driver_release(&mut self, private_data: &mut usize, error: &mut FFI_AdbcError) -> AdbcStatusCode {
        if *private_data == 99 {
            error.message = "still in use".to_string();
            return AdbcStatusCode::Internal;
        }
        *private_data = 0;
        AdbcStatusCode::Success
    }
}

#[test]
fn test_connection_set_option() {
    let driver = Arc::new(FFI_AdbcDriver::with_functions(ConnectionDriver));
    let mut conn = FFI_AdbcConnection { private_data: 3, private_driver: Some(driver.clone()) };
    let mut e = FFI_AdbcError::empty();
    assert_eq!(
        driver.functions.connection_set_option(&mut conn, "test_key", "test value 😬", &mut e),
        AdbcStatusCode::Success
    );
    let status = driver.functions.connection_set_option(&mut conn, "key", "value", &mut e);
    assert_eq!(status, AdbcStatusCode::InvalidArgument);
    assert_eq!(e.message, "hello world");
}

#[test]
fn handle_release_runs_the_slot_once() {
    let driver = Arc::new(FFI_AdbcDriver::with_functions(ConnectionDriver));
    let mut conn = FFI_AdbcConnection { private_data: 3, private_driver: Some(driver.clone()) };
    assert!(conn.release().is_ok());
    assert_eq!(conn.private_data, 0);
    assert!(conn.private_driver.is_none());
    assert_eq!(Arc::strong_count(&driver), 1);
    assert!(conn.release().is_ok());
    assert!(conn.private_driver.is_none());
}

#[test]
fn stubbed_release_is_a_lifecycle_fault() {
    let driver = Arc::new(FFI_AdbcDriver::empty());
    let mut db = FFI_AdbcDatabase { private_data: 4, private_driver: Some(driver.clone()) };
    let failure = db.release().unwrap_err();
    assert_eq!(failure.status, AdbcStatusCode::NotImplemented);
    assert!(blank(&failure.error));
    assert_eq!(db.private_data, 4);
    assert!(db.private_driver.is_none());
    assert!(db.release().is_ok());

    let mut stmt = FFI_AdbcStatement { private_data: 5, private_driver: Some(driver) };
    assert_eq!(stmt.release().unwrap_err().status, AdbcStatusCode::NotImplemented);
}

#[test]
fn releasing_an_empty_handle_does_nothing() {
    let mut db: FFI_AdbcDatabase<DriverFunctionStubs> = FFI_AdbcDatabase::empty();
    assert!(db.release().is_ok());
    assert_eq!(db.private_data, 0);
    let mut stmt: FFI_AdbcStatement<DriverFunctionStubs> = FFI_AdbcStatement::empty();
    assert!(stmt.release().is_ok());
}

#[test]
fn driver_release_runs_once() {
    let mut driver = FFI_AdbcDriver::with_functions(ConnectionDriver);
    driver.private_data = 8;
    assert!(driver.release);
    assert!(driver.release().is_ok());
    assert_eq!(driver.private_data, 0);
    assert!(!driver.release);
    driver.private_data = 99;
    assert!(driver.release().is_ok());
    assert_eq!(driver.private_data, 99);
}

#[test]
fn failed_driver_release_reports_the_error() {
    let mut driver = FFI_AdbcDriver::with_functions(ConnectionDriver);
    driver.private_data = 99;
    let failure = driver.release().unwrap_err();
    assert_eq!(failure.status, AdbcStatusCode::Internal);
    assert_eq!(failure.error.message, "still in use");
    assert_eq!(failure.message(), "still in use");
    assert_eq!(failure.status_code(), AdbcStatusCode::Internal);
    assert!(!driver.release);
}

#[test]
fn empty_driver_has_nothing_to_release() {
    let mut driver = FFI_AdbcDriver::empty();
    assert!(!driver.release);
    assert!(driver.release().is_ok());
    let mut error = FFI_AdbcError::empty();
    let mut data = 6usize;
    assert_eq!(driver.functions.driver_release(&mut data, &mut error), AdbcStatusCode::Success);
    assert_eq!(data, 0);
}

#[test]
fn release_outcome_maps_the_status() {
    assert!(release_outcome(AdbcStatusCode::Success, FFI_AdbcError::empty()).is_ok());
    let mut error = FFI_AdbcError::empty();
    error.message = "busy".to_string();
    error.vendor_code = 7;
    let failure = release_outcome(AdbcStatusCode::IO, error).unwrap_err();
    assert_eq!(failure.status, AdbcStatusCode::IO);
    assert_eq!(failure.error.message, "busy");
    assert_eq!(failure.error.vendor_code, 7);
}

/// A table whose statement slots keep the statement's lifecycle and hand out
/// partitions.
struct StatementDriver {
    state: std::cell::Cell<StatementState>,
}

impl StatementDriver {
    fn step(&self, next: Option<StatementState>) -> AdbcStatusCode {
        match next {
            Some(state) => {
                self.state.set(state);
                AdbcStatusCode::Success
            }
            None => AdbcStatusCode::InvalidState,
        }
    }
}

impl DriverFunctions for StatementDriver {
    fn overrides(op: DriverOperation) -> bool {
        matches!(
            op,
            DriverOperation::StatementSetSqlQuery
                | DriverOperation::StatementPrepare
                | DriverOperation::StatementGetParameterSchema
                | DriverOperation::StatementExecutePartitions
        )
    }

    fn database_release_status(&self, _database: FFI_AdbcDatabase<Self>) -> AdbcStatusCode {
        AdbcStatusCode::NotImplemented
    }

    fn statement_release_status(&self, _statement: FFI_AdbcStatement<Self>) -> AdbcStatusCode {
        AdbcStatusCode::NotImplemented
    }

    fn statement_lifecycle(&self, _statement: FFI_AdbcStatement<Self>) -> StatementState {
        self.state.get()
    }

    fn statement_query(&self, _statement: FFI_AdbcStatement<Self>) -> Option<QuerySpec> {
        None
    }

    fn database_release(
        &self,
        _database: &mut FFI_AdbcDatabase<Self>,
        _error: &mut FFI_AdbcError,
    ) -> AdbcStatusCode {
        AdbcStatusCode::NotImplemented
    }

    fn statement_release(
        &self,
        _statement: &mut FFI_AdbcStatement<Self>,
        _error: &mut FFI_AdbcError,
    ) -> AdbcStatusCode {
        AdbcStatusCode::NotImplemented
    }

    fn connection_release_status(&self, _connection: FFI_AdbcConnection<Self>) -> AdbcStatusCode {
        AdbcStatusCode::NotImplemented
    }

    fn driver_release_status(&self, _private_data: usize) -> AdbcStatusCode {
        AdbcStatusCode::Success
    }

    fn connection_release(
        &self,
        _connection: &mut FFI_AdbcConnection<Self>,
        _error: &mut FFI_AdbcError,
    ) -> AdbcStatusCode {
        AdbcStatusCode::NotImplemented
    }

    fn driver_release(&mut self, private_data: &mut usize, _error: &mut FFI_AdbcError) -> AdbcStatusCode {
        *private_data = 0;
        AdbcStatusCode::Success
    }

    fn statement_set_sql_query(
        &self,
        _statement: &mut FFI_AdbcStatement<Self>,
        _query: &str,
        _error: &mut FFI_AdbcError,
    ) -> AdbcStatusCode {
        self.step(Some(StatementState::QueryConfigured))
    }

    fn statement_prepare(&self, _statement: &mut FFI_AdbcStatement<Self>, _error: &mut FFI_AdbcError) -> AdbcStatusCode {
        let next = match self.state.get() {
            StatementState::Unprepared => None,
            _ => Some(StatementState::Prepared),
        };
        self.step(next)
    }

    fn statement_get_parameter_schema(
        &self,
        _statement: &mut FFI_AdbcStatement<Self>,
        _schema: &mut FFI_ArrowSchema,
        _error: &mut FFI_AdbcError,
    ) -> AdbcStatusCode {
        let next = match self.state.get() {
            StatementState::Prepared => Some(StatementState::Prepared),
            _ => None,
        };
        self.step(next)
    }

    fn statement_execute_partitions(
        &self,
        _statement: &mut FFI_AdbcStatement<Self>,
        _schema: &mut FFI_ArrowSchema,
        partitions: &mut FFI_AdbcPartitions,
        rows_affected: &mut i64,
        _error: &mut FFI_AdbcError,
    ) -> AdbcStatusCode {
        if self.state.get() == StatementState::Unprepared {
            return AdbcStatusCode::InvalidState;
        }
        *partitions = FFI_AdbcPartitions::from(vec![vec![1u8], vec![2u8, 3]]);
        *rows_affected = -1;
        AdbcStatusCode::Success
    }
}

#[test]
fn statement_slots_follow_the_lifecycle() {
    let driver = Arc::new(FFI_AdbcDriver::with_functions(StatementDriver {
        state: std::cell::Cell::new(StatementState::Unprepared),
    }));
    let t = &driver.functions;
    let mut stmt = FFI_AdbcStatement { private_data: 1, private_driver: Some(driver.clone()) };
    let mut e = FFI_AdbcError::empty();
    let mut schema = FFI_ArrowSchema::empty();
    let mut parts = FFI_AdbcPartitions::empty();
    let mut rows: i64 = 0;
    assert_eq!(t.statement_prepare(&mut stmt, &mut e), AdbcStatusCode::InvalidState);
    assert_eq!(
        t.statement_execute_partitions(&mut stmt, &mut schema, &mut parts, &mut rows, &mut e),
        AdbcStatusCode::InvalidState
    );
    assert_eq!(t.statement_set_sql_query(&mut stmt, "SELECT ?", &mut e), AdbcStatusCode::Success);
    assert_eq!(
        t.statement_get_parameter_schema(&mut stmt, &mut schema, &mut e),
        AdbcStatusCode::InvalidState
    );
    assert_eq!(t.statement_prepare(&mut stmt, &mut e), AdbcStatusCode::Success);
    assert_eq!(t.statement_get_parameter_schema(&mut stmt, &mut schema, &mut e), AdbcStatusCode::Success);
    assert_eq!(t.statement_set_sql_query(&mut stmt, "SELECT 1", &mut e), AdbcStatusCode::Success);
    assert_eq!(
        t.statement_get_parameter_schema(&mut stmt, &mut schema, &mut e),
        AdbcStatusCode::InvalidState
    );
    assert_eq!(
        t.statement_execute_partitions(&mut stmt, &mut schema, &mut parts, &mut rows, &mut e),
        AdbcStatusCode::Success
    );
    assert_eq!(rows, -1);
    assert_eq!(drop_adbc_partitions(&mut parts), vec![vec![1u8], vec![2u8, 3]]);
    assert_eq!(t.statement_bind_stream(&mut stmt, &mut FFI_ArrowArrayStream::empty(), &mut e), AdbcStatusCode::NotImplemented);
}
