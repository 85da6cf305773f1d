//! The one slot every long-running install, uninstall or initialization run
//! occupies while it runs: what is running, and the handle that aborts it.
use vstd::prelude::*;
use crate::error::{ErrorView, IpcError};
use crate::text::concat;

verus! {

/// A handle that aborts a spawned task.
#[verifier::external_type_specification]
#[verifier::external_body]
pub struct ExAbortHandle(tokio::task::AbortHandle);

/// `AbortHandle::abort`: asks the runtime to cancel the task. Nothing is
/// claimed of its effect; a finished task is left as it is.
#[verifier::external_body]
fn abort_task(handle: &tokio::task::AbortHandle) {
    handle.abort()
}

/// `AbortHandle::clone`: another handle to the same task. Nothing is claimed
/// of the result.
#[verifier::external_body]
fn clone_handle(handle: &tokio::task::AbortHandle) -> tokio::task::AbortHandle {
    handle.clone()
}

/// Which engine a run is for.
#[derive(Debug, Clone, Copy, PartialEq, Eq, Structural)]
pub enum InstallKind {
    Php,
    Mysql,
    Mariadb,
}

/// What a run is doing: putting a package on the machine, taking one off,
/// or setting one up.
#[derive(Debug, Clone, Copy, PartialEq, Eq, Structural)]
pub enum PackageOperation {
    Install,
    Uninstall,
    Initialize,
}

/// Wire-safe copy of [`InstallKind`].
#[derive(Debug, Clone, Copy, PartialEq, Eq, Structural)]
pub enum InstallKindDto {
    Php,
    Mysql,
    Mariadb,
}

/// Wire-safe copy of [`PackageOperation`].
#[derive(Debug, Clone, Copy, PartialEq, Eq, Structural)]
pub enum PackageOperationDto {
    Install,
    Uninstall,
    Initialize,
}

/// The wire copy of `kind`.
pub open spec fn kind_dto(kind: InstallKind) -> InstallKindDto {
    match kind {
        InstallKind::Php => InstallKindDto::Php,
        InstallKind::Mysql => InstallKindDto::Mysql,
        InstallKind::Mariadb => InstallKindDto::Mariadb,
    }
}

/// The wire copy of `op`.
pub open spec fn operation_dto(op: PackageOperation) -> PackageOperationDto {
    match op {
        PackageOperation::Install => PackageOperationDto::Install,
        PackageOperation::Uninstall => PackageOperationDto::Uninstall,
        PackageOperation::Initialize => PackageOperationDto::Initialize,
    }
}

impl InstallKindDto {
    /// The wire copy of `kind`.
    pub fn from_kind(kind: InstallKind) -> (r: InstallKindDto)
        ensures
            r == kind_dto(kind),
    {
        match kind {
            InstallKind::Php => InstallKindDto::Php,
            InstallKind::Mysql => InstallKindDto::Mysql,
            InstallKind::Mariadb => InstallKindDto::Mariadb,
        }
    }
}

impl PackageOperationDto {
    /// The wire copy of `op`.
    pub fn from_operation(op: PackageOperation) -> (r: PackageOperationDto)
        ensures
            r == operation_dto(op),
    {
        match op {
            PackageOperation::Install => PackageOperationDto::Install,
            PackageOperation::Uninstall => PackageOperationDto::Uninstall,
            PackageOperation::Initialize => PackageOperationDto::Initialize,
        }
    }
}

/// The pair a PHP install run (either route) is tagged with, and the pair
/// PHP's cancel fires on.
pub const PHP_INSTALL_RUN: (InstallKind, PackageOperation) = (
    InstallKind::Php,
    PackageOperation::Install,
);

/// The pair a MySQL install run is tagged with, and the pair the Databases
/// page's MySQL cancel fires on.
pub const MYSQL_INSTALL_RUN: (InstallKind, PackageOperation) = (
    InstallKind::Mysql,
    PackageOperation::Install,
);

/// The pair a MySQL datadir initialization is tagged with: distinct from
/// [`MYSQL_INSTALL_RUN`], so the install cancel cannot reach it.
pub const MYSQL_INIT_RUN: (InstallKind, PackageOperation) = (
    InstallKind::Mysql,
    PackageOperation::Initialize,
);

/// The pair a MariaDB install run is tagged with, and the pair the MariaDB
/// cancel fires on: distinct from MySQL's by kind.
pub const MARIADB_INSTALL_RUN: (InstallKind, PackageOperation) = (
    InstallKind::Mariadb,
    PackageOperation::Install,
);

/// The pair a MariaDB datadir initialization is tagged with.
pub const MARIADB_INIT_RUN: (InstallKind, PackageOperation) = (
    InstallKind::Mariadb,
    PackageOperation::Initialize,
);

/// What the quit dialog is told about the run occupying the slot.
#[derive(Debug, Clone)]
pub struct PendingInstallDto {
    pub kind: InstallKindDto,
    pub operation: PackageOperationDto,
    pub label: String,
}

/// The run occupying the slot.
pub struct RunningInstall {
    pub kind: InstallKind,
    pub operation: PackageOperation,
    pub label: String,
    pub abort: tokio::task::AbortHandle,
}

/// The slot: empty, or the one run in flight.
pub struct InstallSlot {
    running: Option<RunningInstall>,
}

impl InstallSlot {
    /// What occupies the slot: its kind, operation and label.
    pub closed spec fn occupant(&self) -> Option<(InstallKind, PackageOperation, Seq<char>)> {
        match &self.running {
            Some(r) => Some((r.kind, r.operation, r.label@)),
            None => None,
        }
    }

    /// An empty slot.
    pub fn new() -> (s: InstallSlot)
        ensures
            s.occupant() is None,
    {
        InstallSlot { running: None }
    }

    /// Records the run now occupying the slot, replacing any before it.
    pub fn set_running(
        &mut self,
        kind: InstallKind,
        operation: PackageOperation,
        label: String,
        abort: tokio::task::AbortHandle,
    )
        ensures
            final(self).occupant() == Some((kind, operation, label@)),
    {
        self.running = Some(RunningInstall { kind, operation, label, abort });
    }

    /// Empties the slot.
    pub fn clear_running(&mut self)
        ensures
            final(self).occupant() is None,
    {
        self.running = None;
    }

    /// The kind, operation and label of the run in the slot, whatever its
    /// kind; `None` only when nothing is running.
    pub fn running_install(&self) -> (r: Option<(InstallKind, PackageOperation, String)>)
        ensures
            match r {
                Some((k, o, l)) => self.occupant() == Some((k, o, l@)),
                None => self.occupant() is None,
            },
    {
        match &self.running {
            Some(r) => Some((r.kind, r.operation, r.label.clone())),
            None => None,
        }
    }

    /// A handle to abort the run in the slot, whatever its kind; `None` only
    /// when nothing is running.
    pub fn running_abort_handle(&self) -> (r: Option<tokio::task::AbortHandle>)
        ensures
            r is Some <==> self.occupant() is Some,
    {
        match &self.running {
            Some(r) => Some(clone_handle(&r.abort)),
            None => None,
        }
    }

    /// Aborts the run in the slot only if it is of `kind` and doing
    /// `operation` (both must match; the label is never consulted), and
    /// reports whether it did. The slot itself is left as it is.
    pub fn abort_running_if(&self, kind: InstallKind, operation: PackageOperation) -> (r: bool)
        ensures
            r <==> (self.occupant() matches Some((k, o, _)) && k == kind && o == operation),
    {
        match &self.running {
            Some(running) => {
                let is_target = running.kind == kind && running.operation == operation;
                if is_target {
                    abort_task(&running.abort);
                }
                is_target
            },
            None => false,
        }
    }
}

/// What the quit dialog is told of the run in `slot`, if any.
pub fn pending_install(slot: &InstallSlot) -> (r: Option<PendingInstallDto>)
    ensures
        match r {
            Some(p) => slot.occupant() matches Some((k, o, l)) && p.kind == kind_dto(k)
                && p.operation == operation_dto(o) && p.label@ == l,
            None => slot.occupant() is None,
        },
{
    match slot.running_install() {
        Some((kind, operation, label)) => Some(
            PendingInstallDto {
                kind: InstallKindDto::from_kind(kind),
                operation: PackageOperationDto::from_operation(operation),
                label,
            },
        ),
        None => None,
    }
}

/// Tags the slot as a MySQL datadir initialization for `major`, labelled
/// `MySQL <major>`.
pub fn set_running_mysql_init(slot: &mut InstallSlot, major: &str, abort: tokio::task::AbortHandle)
    ensures
        final(slot).occupant() == Some((MYSQL_INIT_RUN.0, MYSQL_INIT_RUN.1, "MySQL "@ + major@)),
{
    let (kind, operation) = MYSQL_INIT_RUN;
    slot.set_running(kind, operation, concat("MySQL ", major), abort);
}

/// Tags the slot as a MariaDB datadir initialization for `series`, labelled
/// `MariaDB <series>`.
pub fn set_running_mariadb_init(slot: &mut InstallSlot, series: &str, abort: tokio::task::AbortHandle)
    ensures
        final(slot).occupant() == Some((MARIADB_INIT_RUN.0, MARIADB_INIT_RUN.1, "MariaDB "@ + series@)),
{
    let (kind, operation) = MARIADB_INIT_RUN;
    slot.set_running(kind, operation, concat("MariaDB ", series), abort);
}

/// How an install run ends when its spawned task did not finish normally:
/// `None` when the task was cancelled (its future was dropped, so the run
/// answers `Cancelled`), otherwise the `Proc` error carrying how the task
/// ended, `failure`.
pub fn interrupted_install(cancelled: bool, failure: &str) -> (r: Option<IpcError>)
    ensures
        cancelled ==> r is None,
        !cancelled ==> (r matches Some(e) && e@ == (ErrorView::Proc {
            message: "the install task ended unexpectedly: "@ + failure@,
        })),
{
    if cancelled {
        None
    } else {
        Some(IpcError::Proc { message: concat("the install task ended unexpectedly: ", failure) })
    }
}

/// The error a datadir initialization run ends with when its spawned task did
/// not finish normally: the quit notice when the task was cancelled (only a
/// quit aborts an initialization), otherwise how the task ended, `failure`.
pub fn interrupted_init(cancelled: bool, failure: &str) -> (e: IpcError)
    ensures
        e@ == (if cancelled {
            ErrorView::Proc { message: "the initialization was aborted because the app is quitting"@ }
        } else {
            ErrorView::Proc { message: "the initialization task ended unexpectedly: "@ + failure@ }
        }),
{
    if cancelled {
        IpcError::Proc {
            message: String::from_str("the initialization was aborted because the app is quitting"),
        }
    } else {
        IpcError::Proc { message: concat("the initialization task ended unexpectedly: ", failure) }
    }
}

} // verus!
