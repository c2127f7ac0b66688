//! Handle types shared with drivers, and the release protocol that tears
//! each of them down exactly once.
use vstd::prelude::*;

use std::sync::Arc;

use crate::driver_functions::{DriverFunctionStubs, DriverFunctions, DriverOperation};
use crate::error::{release_outcome, AdbcStatusCode, FFI_AdbcError, ReleaseFailure};

verus! {

/// Relies on arrow: the C data interface stream of record batches, carried
/// through unopened.
#[verifier::external_type_specification]
#[verifier::external_body]
pub struct ExArrowArrayStream(arrow::ffi_stream::FFI_ArrowArrayStream);

/// Relies on arrow: the C data interface schema, carried through unopened.
#[verifier::external_type_specification]
#[verifier::external_body]
pub struct ExArrowSchema(arrow::ffi::FFI_ArrowSchema);

/// Relies on arrow: the C data interface array, carried through unopened.
#[verifier::external_type_specification]
#[verifier::external_body]
pub struct ExArrowArray(arrow::ffi::FFI_ArrowArray);

/// Depth parameter of `get_objects`: how many levels of the catalog
/// hierarchy are populated.
#[derive(Debug, Clone, Copy, PartialEq, Eq, Structural)]
pub enum AdbcObjectDepth {
    /// Metadata on catalogs, schemas, tables, and columns.
    All,
    /// Metadata on catalogs only.
    Catalogs,
    /// Metadata on catalogs and schemas.
    DBSchemas,
    /// Metadata on catalogs, schemas, and tables.
    Tables,
}

/// The value of a depth as drivers exchange it.
pub open spec fn object_depth_value(depth: AdbcObjectDepth) -> i32 {
    match depth {
        AdbcObjectDepth::All => 0,
        AdbcObjectDepth::Catalogs => 1,
        AdbcObjectDepth::DBSchemas => 2,
        AdbcObjectDepth::Tables => 3,
    }
}

impl AdbcObjectDepth {
    /// The value of this depth as drivers exchange it.
    pub fn code(&self) -> (r: i32)
        ensures
            r == object_depth_value(*self),
    {
        match self {
            AdbcObjectDepth::All => 0,
            AdbcObjectDepth::Catalogs => 1,
            AdbcObjectDepth::DBSchemas => 2,
            AdbcObjectDepth::Tables => 3,
        }
    }
}

/// An instance of a database.
///
/// Must be kept alive as long as any connections exist.
pub struct FFI_AdbcDatabase<F> {
    /// Opaque driver-defined state; zero iff the handle is uninitialized or
    /// released.
    pub private_data: usize,
    /// The driver this handle belongs to; `None` before initialization and
    /// after teardown.
    pub private_driver: Option<Arc<FFI_AdbcDriver<F>>>,
}

impl<F> FFI_AdbcDatabase<F> {
    /// A handle with no state and no driver.
    pub fn empty() -> (r: Self)
        ensures
            r.private_data == 0,
            r.private_driver is None,
    {
        FFI_AdbcDatabase { private_data: 0, private_driver: None }
    }
}

impl<F: DriverFunctions> FFI_AdbcDatabase<F> {
    /// Tear the handle down: call the driver's release slot once, with a
    /// fresh error slot, and drop the reference to the driver so that any
    /// later teardown does nothing. An `Err` is a lifecycle fault, not a
    /// recoverable error: the caller must stop.
    pub fn release(&mut self) -> (r: Result<(), ReleaseFailure>)
        ensures
            final(self).private_driver is None,
            old(self).private_driver is None ==> r is Ok && *final(self) == *old(self),
            old(self).private_driver matches Some(driver) ==> {
                let status = driver.functions.database_release_status(*old(self));
                &&& (r is Ok) == (status == AdbcStatusCode::Success)
                &&& r matches Err(f) ==> f.status == status
                &&& r is Ok ==> final(self).private_data == 0
            },
            old(self).private_driver is Some && !F::overrides(DriverOperation::DatabaseRelease) ==> (r matches Err(f)
                && f.status == AdbcStatusCode::NotImplemented && f.error.is_blank()
                && final(self).private_data == old(self).private_data),
    {
        let driver = match &self.private_driver {
            None => return Ok(()),
            Some(driver) => driver.clone(),
        };
        let mut error = FFI_AdbcError::empty();
        let status = driver.functions.database_release(self, &mut error);
        self.private_driver = None;
        release_outcome(status, error)
    }
}

/// An active database connection.
///
/// Provides query execution, prepared statements, transactions and metadata.
/// A connection is not safe to use from several execution contexts at once:
/// callers serialize their accesses.
pub struct FFI_AdbcConnection<F> {
    /// Opaque driver-defined state; zero iff the handle is uninitialized or
    /// released.
    pub private_data: usize,
    /// The driver this handle belongs to; `None` before initialization and
    /// after teardown.
    pub private_driver: Option<Arc<FFI_AdbcDriver<F>>>,
}

impl<F> FFI_AdbcConnection<F> {
    /// A handle with no state and no driver.
    pub fn empty() -> (r: Self)
        ensures
            r.private_data == 0,
            r.private_driver is None,
    {
        FFI_AdbcConnection { private_data: 0, private_driver: None }
    }
}

impl<F: DriverFunctions> FFI_AdbcConnection<F> {
    /// Tear the handle down: call the driver's release slot once, with a
    /// fresh error slot, and drop the reference to the driver so that any
    /// later teardown does nothing. An `Err` is a lifecycle fault, not a
    /// recoverable error: the caller must stop.
    pub fn release(&mut self) -> (r: Result<(), ReleaseFailure>)
        ensures
            final(self).private_driver is None,
            old(self).private_driver is None ==> r is Ok && *final(self) == *old(self),
            old(self).private_driver matches Some(driver) ==> {
                let status = driver.functions.connection_release_status(*old(self));
                &&& (r is Ok) == (status == AdbcStatusCode::Success)
                &&& r matches Err(f) ==> f.status == status
                &&& r is Ok ==> final(self).private_data == 0
            },
            old(self).private_driver is Some && !F::overrides(DriverOperation::ConnectionRelease) ==> (r matches Err(f)
                && f.status == AdbcStatusCode::NotImplemented && f.error.is_blank()
                && final(self).private_data == old(self).private_data),
    {
        let driver = match &self.private_driver {
            None => return Ok(()),
            Some(driver) => driver.clone(),
        };
        let mut error = FFI_AdbcError::empty();
        let status = driver.functions.connection_release(self, &mut error);
        self.private_driver = None;
        release_outcome(status, error)
    }
}

/// All state needed to execute a query: the query itself, parameters of
/// prepared statements, driver options.
///
/// A statement may be reconfigured and executed again; executing it
/// invalidates the result streams it produced before.
pub struct FFI_AdbcStatement<F> {
    /// Opaque driver-defined state; zero iff the handle is uninitialized or
    /// released.
    pub private_data: usize,
    /// The driver this handle belongs to; `None` before initialization and
    /// after teardown.
    pub private_driver: Option<Arc<FFI_AdbcDriver<F>>>,
}

impl<F> FFI_AdbcStatement<F> {
    /// A handle with no state and no driver.
    pub fn empty() -> (r: Self)
        ensures
            r.private_data == 0,
            r.private_driver is None,
    {
        FFI_AdbcStatement { private_data: 0, private_driver: None }
    }
}

impl<F: DriverFunctions> FFI_AdbcStatement<F> {
    /// Tear the handle down: call the driver's release slot once, with a
    /// fresh error slot, and drop the reference to the driver so that any
    /// later teardown does nothing. An `Err` is a lifecycle fault, not a
    /// recoverable error: the caller must stop.
    pub fn release(&mut self) -> (r: Result<(), ReleaseFailure>)
        ensures
            final(self).private_driver is None,
            old(self).private_driver is None ==> r is Ok && *final(self) == *old(self),
            old(self).private_driver matches Some(driver) ==> {
                let status = driver.functions.statement_release_status(*old(self));
                &&& (r is Ok) == (status == AdbcStatusCode::Success)
                &&& r matches Err(f) ==> f.status == status
                &&& r is Ok ==> final(self).private_data == 0
            },
            old(self).private_driver is Some && !F::overrides(DriverOperation::StatementRelease) ==> (r matches Err(f)
                && f.status == AdbcStatusCode::NotImplemented && f.error.is_blank()
                && final(self).private_data == old(self).private_data),
    {
        let driver = match &self.private_driver {
            None => return Ok(()),
            Some(driver) => driver.clone(),
        };
        let mut error = FFI_AdbcError::empty();
        let status = driver.functions.statement_release(self, &mut error);
        self.private_driver = None;
        release_outcome(status, error)
    }
}

/// An initialized database driver: its function table and its opaque state.
///
/// Shared by every handle created under it, which all hold it by reference
/// count, so it outlives them. The table is only read once built, so the
/// driver may be read from several threads.
pub struct FFI_AdbcDriver<F> {
    /// Opaque driver-defined state; zero when uninitialized or released.
    pub private_data: usize,
    /// Opaque driver-manager-defined state; zero when unused.
    pub private_manager: usize,
    /// The driver's own release routine is bound and has not run yet.
    pub release: bool,
    /// The function table.
    pub functions: F,
}

impl FFI_AdbcDriver<DriverFunctionStubs> {
    /// A driver whose every slot is the stub that reports `NotImplemented`,
    /// with no release routine bound.
    pub fn empty() -> (r: Self)
        ensures
            r.private_data == 0,
            r.private_manager == 0,
            !r.release,
            r.functions == DriverFunctionStubs,
    {
        FFI_AdbcDriver { private_data: 0, private_manager: 0, release: false, functions: DriverFunctionStubs }
    }
}

impl<F: DriverFunctions> FFI_AdbcDriver<F> {
    /// A driver built on `functions`, with its release routine bound.
    pub fn with_functions(functions: F) -> (r: Self)
        ensures
            r.private_data == 0,
            r.private_manager == 0,
            r.release,
            r.functions == functions,
    {
        FFI_AdbcDriver { private_data: 0, private_manager: 0, release: true, functions }
    }

    /// Release the driver: run its release routine once, with a fresh error
    /// slot, and unbind it so that any later release does nothing. An `Err`
    /// is a lifecycle fault, not a recoverable error: the caller must stop.
    pub fn release(&mut self) -> (r: Result<(), ReleaseFailure>)
        ensures
            !final(self).release,
            !old(self).release ==> r is Ok && *final(self) == *old(self),
            old(self).release ==> {
                let status = old(self).functions.driver_release_status(old(self).private_data);
                &&& (r is Ok) == (status == AdbcStatusCode::Success)
                &&& r matches Err(f) ==> f.status == status
                &&& r is Ok ==> final(self).private_data == 0
            },
            old(self).release && !F::overrides(DriverOperation::DriverRelease) ==> (r is Ok
                && final(self).functions == old(self).functions),
            final(self).private_manager == old(self).private_manager,
    {
        if !self.release {
            return Ok(());
        }
        let mut error = FFI_AdbcError::empty();
        let status = self.functions.driver_release(&mut self.private_data, &mut error);
        self.release = false;
        release_outcome(status, error)
    }
}

} // verus!
