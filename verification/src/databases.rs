//! The Databases page: the wire shapes of MySQL's and MariaDB's datadir,
//! init, reset and connection outcomes, and the decisions that turn a client
//! run's raw output into one of them.
use vstd::prelude::*;
use crate::error::{ErrorView, IpcError, debug_quote, debug_text};
use crate::redaction::{redact, redact_all, redact_all_spec, redaction_marker};
use crate::store::{DbHandle, unavailable_message, unavailable_text};
use crate::text::{
    chars_of, concat, contains, contains_str, copy_range, find, find_from_exec, first_line,
    first_line_bounds, lemma_find_from, nonblank_or, nonblank_or_exec, parse_u32, parse_u32_exec,
    replace, string_from_chars, trim, trim_bounds,
};

verus! {

// ---------------------------------------------------------------------------
// MySQL wire shapes
// ---------------------------------------------------------------------------

/// A MySQL datadir as read from disk: empty, initialized, or something this
/// app must not touch.
#[derive(Debug, Clone)]
pub enum MysqlDatadirStateDto {
    NotInitialized,
    Initialized,
    Foreign { detail: String },
}

/// The step of MySQL's staged initialization a failure happened in.
#[derive(Debug, Clone, Copy, PartialEq, Eq, Structural)]
pub enum MysqlInitStepDto {
    Render,
    Validate,
    Initialize,
    StartTempServer,
    SetPassword,
    Shutdown,
    Finalize,
}

/// What a MySQL initialization achieved.
#[derive(Debug, Clone)]
pub enum MysqlInitOutcomeDto {
    Initialized,
    AlreadyInitialized,
    Foreign { detail: String },
    Failed { step: MysqlInitStepDto, reason: String },
}

/// A [`MysqlInitOutcomeDto`] with its strings taken as character sequences.
pub enum InitOutcomeView {
    Initialized,
    AlreadyInitialized,
    Foreign { detail: Seq<char> },
    Failed { step: MysqlInitStepDto, reason: Seq<char> },
}

impl View for MysqlInitOutcomeDto {
    type V = InitOutcomeView;

    open spec fn view(&self) -> InitOutcomeView {
        match self {
            MysqlInitOutcomeDto::Initialized => InitOutcomeView::Initialized,
            MysqlInitOutcomeDto::AlreadyInitialized => InitOutcomeView::AlreadyInitialized,
            MysqlInitOutcomeDto::Foreign { detail } => InitOutcomeView::Foreign { detail: detail@ },
            MysqlInitOutcomeDto::Failed { step, reason } => InitOutcomeView::Failed {
                step: *step,
                reason: reason@,
            },
        }
    }
}

/// What a root-password reset achieved. A stale stored credential is an
/// expected, renderable outcome, not an error.
#[derive(Debug, Clone)]
pub enum MysqlResetOutcomeDto {
    Reset,
    AuthFailed { detail: String },
}

/// What a connection check proved: the server's version and port, an
/// authentication failure, or any other failure, always with a detail.
#[derive(Debug, Clone)]
pub enum MysqlConnectionProofDto {
    Connected { version: String, port: u32 },
    AuthFailed { detail: String },
    Failed { detail: String },
}

/// A connection proof with its strings taken as character sequences.
pub enum ProofView {
    Connected { version: Seq<char>, port: u32 },
    AuthFailed { detail: Seq<char> },
    Failed { detail: Seq<char> },
}

impl View for MysqlConnectionProofDto {
    type V = ProofView;

    open spec fn view(&self) -> ProofView {
        match self {
            MysqlConnectionProofDto::Connected { version, port } => ProofView::Connected {
                version: version@,
                port: *port,
            },
            MysqlConnectionProofDto::AuthFailed { detail } => ProofView::AuthFailed {
                detail: detail@,
            },
            MysqlConnectionProofDto::Failed { detail } => ProofView::Failed { detail: detail@ },
        }
    }
}

/// One line of a MySQL package operation's output, forwarded live.
#[derive(Debug, Clone)]
pub struct MysqlInstallLogEvent {
    pub major: String,
    pub ts_ms: u64,
    pub stream: String,
    pub line: String,
}

/// One line of a MySQL initialization's staged sequence, forwarded live.
#[derive(Debug, Clone)]
pub struct MysqlInitLogEvent {
    pub major: String,
    pub ts_ms: u64,
    pub stream: String,
    pub line: String,
}

// ---------------------------------------------------------------------------
// MariaDB wire shapes
// ---------------------------------------------------------------------------

/// MariaDB's datadir as read from disk.
#[derive(Debug, Clone)]
pub enum MariadbDatadirStateDto {
    NotInitialized,
    Initialized { version: String },
    Foreign { detail: String },
}

/// The step of MariaDB's initialization a failure happened in. MariaDB has no
/// configuration check, so there is no `Validate`.
#[derive(Debug, Clone, Copy, PartialEq, Eq, Structural)]
pub enum MariadbInitStepDto {
    Render,
    Initialize,
    StartTempServer,
    SetPassword,
    Shutdown,
    Finalize,
}

/// What a MariaDB initialization achieved.
#[derive(Debug, Clone)]
pub enum MariadbInitOutcomeDto {
    Initialized,
    AlreadyInitialized,
    Foreign { detail: String },
    Failed { step: MariadbInitStepDto, reason: String },
}

/// A [`MariadbInitOutcomeDto`] with its strings taken as character sequences.
pub enum MariadbOutcomeView {
    Initialized,
    AlreadyInitialized,
    Foreign { detail: Seq<char> },
    Failed { step: MariadbInitStepDto, reason: Seq<char> },
}

impl View for MariadbInitOutcomeDto {
    type V = MariadbOutcomeView;

    open spec fn view(&self) -> MariadbOutcomeView {
        match self {
            MariadbInitOutcomeDto::Initialized => MariadbOutcomeView::Initialized,
            MariadbInitOutcomeDto::AlreadyInitialized => MariadbOutcomeView::AlreadyInitialized,
            MariadbInitOutcomeDto::Foreign { detail } => MariadbOutcomeView::Foreign {
                detail: detail@,
            },
            MariadbInitOutcomeDto::Failed { step, reason } => MariadbOutcomeView::Failed {
                step: *step,
                reason: reason@,
            },
        }
    }
}

/// What a MariaDB root-password reset achieved.
#[derive(Debug, Clone)]
pub enum MariadbResetOutcomeDto {
    Reset,
    AuthFailed { detail: String },
}

/// What a MariaDB connection check proved.
#[derive(Debug, Clone)]
pub enum MariadbConnectionProofDto {
    Connected { version: String, port: u32 },
    AuthFailed { detail: String },
    Failed { detail: String },
}

impl View for MariadbConnectionProofDto {
    type V = ProofView;

    open spec fn view(&self) -> ProofView {
        match self {
            MariadbConnectionProofDto::Connected { version, port } => ProofView::Connected {
                version: version@,
                port: *port,
            },
            MariadbConnectionProofDto::AuthFailed { detail } => ProofView::AuthFailed {
                detail: detail@,
            },
            MariadbConnectionProofDto::Failed { detail } => ProofView::Failed { detail: detail@ },
        }
    }
}

/// One line of a MariaDB package operation's output. This build ships one
/// series, so the event names none.
#[derive(Debug, Clone)]
pub struct MariadbInstallLogEvent {
    pub ts_ms: u64,
    pub stream: String,
    pub line: String,
}

/// One line of a failed MariaDB initialization, relayed once the run ends.
#[derive(Debug, Clone)]
pub struct MariadbInitLogEvent {
    pub ts_ms: u64,
    pub stream: String,
    pub line: String,
}

// ---------------------------------------------------------------------------
// Reading a client's output
// ---------------------------------------------------------------------------

/// MySQL's wording for any grant or authentication failure.
pub open spec fn is_auth_failure(stderr: Seq<char>) -> bool {
    contains(stderr, "Access denied"@)
}

/// Whether `stderr` reads as an authentication failure: the one heuristic
/// that tells a stale stored credential from every other failure.
pub fn looks_like_auth_failure(stderr: &str) -> (r: bool)
    ensures
        r == is_auth_failure(stderr@),
{
    contains_str(stderr, "Access denied")
}

/// The tab, as a one-character pattern.
pub open spec fn tab() -> Seq<char> {
    seq!['\t']
}

/// The text of `s` before its first tab, or all of it when it has none.
pub open spec fn first_column(s: Seq<char>) -> Seq<char> {
    match find(s, tab()) {
        Some(j) => s.subrange(0, j),
        None => s,
    }
}

/// The version and port in the first line of a `SELECT VERSION(), @@port`
/// batch run: two tab-separated columns, each trimmed; the port a `u32`, the
/// version not empty.
pub open spec fn version_and_port(stdout: Seq<char>) -> Option<(Seq<char>, u32)> {
    match first_line(stdout) {
        None => None,
        Some(line) => match find(line, tab()) {
            None => None,
            Some(i) => {
                let version = trim(line.subrange(0, i));
                let rest = line.subrange(i + 1, line.len() as int);
                match parse_u32(trim(first_column(rest))) {
                    None => None,
                    Some(port) => if version.len() == 0 {
                        None
                    } else {
                        Some((version, port))
                    },
                }
            },
        },
    }
}

/// The position of the first tab in `s`, as `find` has it.
fn find_tab(s: &[char]) -> (r: Option<usize>)
    ensures
        match r {
            Some(i) => find(s@, tab()) == Some(i as int) && i < s@.len(),
            None => find(s@, tab()) is None,
        },
{
    let t = vec!['\t'];
    let ts = t.as_slice();
    assert(ts@ =~= tab());
    proof {
        lemma_find_from(s@, tab(), 0);
    }
    find_from_exec(s, ts, 0)
}

/// Pulls the version and port out of a batch run's output: see
/// [`version_and_port`].
pub fn parse_version_and_port(stdout: &str) -> (r: Option<(String, u32)>)
    ensures
        match r {
            Some((v, p)) => version_and_port(stdout@) == Some((v@, p)),
            None => version_and_port(stdout@) is None,
        },
{
    let c = chars_of(stdout);
    let (a, b) = match first_line_bounds(c.as_slice()) {
        Some(bounds) => bounds,
        None => return None,
    };
    let line = copy_range(c.as_slice(), a, b);
    let i = match find_tab(line.as_slice()) {
        Some(i) => i,
        None => return None,
    };
    let (va, vb) = trim_bounds(line.as_slice(), 0, i);
    let rest = copy_range(line.as_slice(), i + 1, line.len());
    let end = match find_tab(rest.as_slice()) {
        Some(j) => j,
        None => rest.len(),
    };
    assert(rest@.subrange(0, end as int) == first_column(rest@)) by {
        if find(rest@, tab()) is None {
            assert(rest@.subrange(0, rest@.len() as int) =~= rest@);
        }
    }
    let (pa, pb) = trim_bounds(rest.as_slice(), 0, end);
    let port = match parse_u32_exec(rest.as_slice(), pa, pb) {
        Some(p) => p,
        None => return None,
    };
    if va == vb {
        return None;
    }
    let version = copy_range(line.as_slice(), va, vb);
    Some((string_from_chars(version.as_slice()), port))
}

// ---------------------------------------------------------------------------
// Decisions over a client run
// ---------------------------------------------------------------------------

/// What a `mysql`/`mariadb` client run reported: whether it succeeded, and
/// what it wrote.
#[derive(Debug, Clone)]
pub struct ClientReport {
    pub ok: bool,
    pub stdout: String,
    pub stderr: String,
}

/// The connection proof for a `SELECT VERSION(), @@port` run authenticated
/// with `secret`: see [`connection_proof`].
pub open spec fn proof_of(result: Result<ClientReport, String>, secret: Seq<char>) -> ProofView {
    match result {
        Err(e) => ProofView::Failed { detail: replace(e@, secret, redaction_marker()) },
        Ok(report) => if !report.ok {
            if is_auth_failure(report.stderr@) {
                ProofView::AuthFailed {
                    detail: replace(report.stderr@, secret, redaction_marker()),
                }
            } else {
                ProofView::Failed {
                    detail: replace(
                        nonblank_or(report.stderr@, "the connection attempt failed"@),
                        secret,
                        redaction_marker(),
                    ),
                }
            }
        } else {
            match version_and_port(report.stdout@) {
                Some((version, port)) => ProofView::Connected { version, port },
                None => ProofView::Failed {
                    detail: replace(
                        "could not parse a version/port from: "@ + debug_text(report.stdout@),
                        secret,
                        redaction_marker(),
                    ),
                },
            }
        },
    }
}

/// Turns a `SELECT VERSION(), @@port` run into a connection proof: the
/// version and port when it succeeded and they parse, `AuthFailed` when it was
/// refused on credentials, `Failed` otherwise. Every detail has the stored
/// credential `secret` redacted out of it.
pub fn connection_proof(result: Result<ClientReport, String>, secret: &str) -> (r:
    MysqlConnectionProofDto)
    ensures
        r@ == proof_of(result, secret@),
{
    match result {
        Err(e) => MysqlConnectionProofDto::Failed { detail: redact(e.as_str(), secret) },
        Ok(report) => {
            if !report.ok {
                if looks_like_auth_failure(report.stderr.as_str()) {
                    MysqlConnectionProofDto::AuthFailed {
                        detail: redact(report.stderr.as_str(), secret),
                    }
                } else {
                    let d = nonblank_or_exec(report.stderr, "the connection attempt failed");
                    MysqlConnectionProofDto::Failed { detail: redact(d.as_str(), secret) }
                }
            } else {
                match parse_version_and_port(report.stdout.as_str()) {
                    Some((version, port)) => MysqlConnectionProofDto::Connected { version, port },
                    None => {
                        let mut d = String::from_str("could not parse a version/port from: ");
                        d.append(debug_quote(report.stdout.as_str()).as_str());
                        MysqlConnectionProofDto::Failed { detail: redact(d.as_str(), secret) }
                    },
                }
            }
        },
    }
}

/// The same proof, in MariaDB's wire shape.
pub fn mariadb_connection_proof(p: MysqlConnectionProofDto) -> (r: MariadbConnectionProofDto)
    ensures
        r@ == p@,
{
    match p {
        MysqlConnectionProofDto::Connected { version, port } => MariadbConnectionProofDto::Connected {
            version,
            port,
        },
        MysqlConnectionProofDto::AuthFailed { detail } => MariadbConnectionProofDto::AuthFailed {
            detail,
        },
        MysqlConnectionProofDto::Failed { detail } => MariadbConnectionProofDto::Failed { detail },
    }
}

/// The store a connection check reads its credential from or, when the store
/// is down, the `Failed` proof naming the store and the reason: a check that
/// cannot reach its credential is reported as a failed check, not as a
/// command error.
pub fn credential_store<D>(db: &DbHandle<D>) -> (r: Result<&D, MysqlConnectionProofDto>)
    ensures
        match db {
            DbHandle::Ready(d) => r == Ok::<&D, MysqlConnectionProofDto>(d),
            DbHandle::Unavailable { reason } => r matches Err(p) && p@ == (ProofView::Failed {
                detail: unavailable_text(reason@),
            }),
        },
{
    match db {
        DbHandle::Ready(d) => Ok(d),
        DbHandle::Unavailable { reason } => Err(
            MysqlConnectionProofDto::Failed { detail: unavailable_message(reason.as_str()) },
        ),
    }
}

/// The proof given when no credential is stored for `instance` (such as
/// `MySQL 8.4`).
pub fn missing_credential_proof(instance: &str) -> (r: MysqlConnectionProofDto)
    ensures
        r@ == (ProofView::Failed {
            detail: "no stored root password for "@ + instance@
                + " — initialize it, or reset the password if the folder is already initialized"@,
        }),
{
    let mut d = String::from_str("no stored root password for ");
    d.append(instance);
    d.append(" — initialize it, or reset the password if the folder is already initialized");
    MysqlConnectionProofDto::Failed { detail: d }
}

/// What a password-reset run decides: see [`reset_decision`].
pub open spec fn reset_of(result: Result<ClientReport, String>, secrets: Seq<Seq<char>>) -> Result<
    bool,
    ErrorView,
> {
    match result {
        Err(e) => Err(ErrorView::Core { message: redact_all_spec(e@, secrets) }),
        Ok(report) => if report.ok {
            Ok(true)
        } else if is_auth_failure(report.stderr@) {
            Ok(false)
        } else {
            Err(
                ErrorView::Core {
                    message: redact_all_spec(nonblank_or(report.stderr@, "ALTER USER failed"@), secrets),
                },
            )
        },
    }
}

/// Decides what a root-password reset run means. `Ok(Reset)` when the new
/// password took, which the caller must persist before answering;
/// `Ok(AuthFailed)` when the stored credential was refused; an error
/// otherwise. Every detail has every secret in `secrets` (the current and the
/// new password) redacted out of it.
pub fn reset_decision(result: Result<ClientReport, String>, secrets: &[&str]) -> (r: Result<
    MysqlResetOutcomeDto,
    IpcError,
>)
    ensures
        match reset_of(result, secrets@.map_values(|s: &str| s@)) {
            Ok(true) => r matches Ok(MysqlResetOutcomeDto::Reset),
            Ok(false) => r matches Ok(MysqlResetOutcomeDto::AuthFailed { detail })
                && result matches Ok(report) && detail@ == redact_all_spec(
                report.stderr@,
                secrets@.map_values(|s: &str| s@),
            ),
            Err(e) => r matches Err(x) && x@ == e,
        },
{
    match result {
        Err(e) => Err(IpcError::Core { message: redact_all(e.as_str(), secrets) }),
        Ok(report) => {
            if report.ok {
                Ok(MysqlResetOutcomeDto::Reset)
            } else if looks_like_auth_failure(report.stderr.as_str()) {
                Ok(MysqlResetOutcomeDto::AuthFailed { detail: redact_all(report.stderr.as_str(), secrets) })
            } else {
                let d = nonblank_or_exec(report.stderr, "ALTER USER failed");
                Err(IpcError::Core { message: redact_all(d.as_str(), secrets) })
            }
        },
    }
}

/// The same reset outcome, in MariaDB's wire shape.
pub fn mariadb_reset_outcome(o: MysqlResetOutcomeDto) -> (r: MariadbResetOutcomeDto)
    ensures
        match o {
            MysqlResetOutcomeDto::Reset => r matches MariadbResetOutcomeDto::Reset,
            MysqlResetOutcomeDto::AuthFailed { detail } => r matches MariadbResetOutcomeDto::AuthFailed {
                detail: d,
            } && d@ == detail@,
        },
{
    match o {
        MysqlResetOutcomeDto::Reset => MariadbResetOutcomeDto::Reset,
        MysqlResetOutcomeDto::AuthFailed { detail } => MariadbResetOutcomeDto::AuthFailed { detail },
    }
}

/// A MariaDB init outcome with `password` scrubbed out of a failure's
/// reason: see [`redact_mariadb_init_outcome`].
pub open spec fn mariadb_outcome_redacted(o: MariadbOutcomeView, password: Option<Seq<char>>) -> MariadbOutcomeView {
    match o {
        MariadbOutcomeView::Failed { step, reason } => MariadbOutcomeView::Failed {
            step,
            reason: match password {
                Some(p) => replace(reason, p, redaction_marker()),
                None => reason,
            },
        },
        other => other,
    }
}

/// Scrubs a freshly generated `password` out of a `Failed` outcome's reason
/// before it can reach a log event or the returned outcome; every other
/// outcome passes through unchanged.
pub fn redact_mariadb_init_outcome(outcome: MariadbInitOutcomeDto, password: Option<&str>) -> (r:
    MariadbInitOutcomeDto)
    ensures
        r@ == mariadb_outcome_redacted(outcome@, match password {
            Some(p) => Some(p@),
            None => None,
        }),
{
    match outcome {
        MariadbInitOutcomeDto::Initialized => MariadbInitOutcomeDto::Initialized,
        MariadbInitOutcomeDto::AlreadyInitialized => MariadbInitOutcomeDto::AlreadyInitialized,
        MariadbInitOutcomeDto::Foreign { detail } => MariadbInitOutcomeDto::Foreign { detail },
        MariadbInitOutcomeDto::Failed { step, reason } => MariadbInitOutcomeDto::Failed {
            step,
            reason: match password {
                Some(p) => redact(reason.as_str(), p),
                None => reason,
            },
        },
    }
}

} // verus!
