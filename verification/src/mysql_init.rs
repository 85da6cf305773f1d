//! MySQL's staged datadir initialization, as a machine that decides, after
//! each piece of outside work, what to do next: render and validate a
//! `my.cnf`, initialize a staging datadir, start a network-less temporary
//! server, set a generated root password, shut the server down, and move the
//! staging datadir into place. On any failure it says which step failed and
//! why, and what must be cleaned up: the staging directory once it exists,
//! the temporary server while it may be running. Reasons built from what a
//! client printed after the password exists have the password redacted.
use vstd::prelude::*;
use crate::databases::{InitOutcomeView, MysqlInitOutcomeDto, MysqlInitStepDto};
use crate::redaction::{hideable, law_redact_leaves_no_secret, redact, redaction_marker};
use crate::text::{concat, contains, i32_text, int_text, nonblank_or, nonblank_or_exec, replace};

verus! {

/// One piece of outside work the initialization asks for, in the order a
/// successful run performs them.
#[derive(Debug, Clone, Copy, PartialEq, Eq, Structural)]
pub enum InitWork {
    /// Find the runtime's plugin, charset and message directories.
    LocateDirs,
    /// Generate the `my.cnf` and write it.
    Render,
    /// Run `mysqld --validate-config` over it.
    Validate,
    /// Create the staging directory.
    CreateStaging,
    /// Restrict the staging directory to its owner.
    LockStaging,
    /// Run `mysqld --initialize-insecure` into the staging directory.
    RunInitialize,
    /// Create the directory the temporary server's socket lives in.
    CreateRunDir,
    /// Start the temporary server.
    SpawnServer,
    /// Wait for the temporary server to answer `mysqladmin ping`.
    PollReady,
    /// Generate the root password.
    GeneratePassword,
    /// Set the root password over the temporary server's socket.
    AlterPassword,
    /// Write the ephemeral credential file `mysqladmin shutdown` reads.
    WriteDefaults,
    /// Run `mysqladmin shutdown`.
    ShutdownServer,
    /// Wait for the temporary server to exit.
    AwaitExit,
    /// Move the staging datadir into place.
    Finalize,
}

/// What a piece of outside work reported.
#[derive(Debug, Clone)]
pub enum InitEvent {
    /// It succeeded.
    Done,
    /// It failed; `error` is the failure, rendered.
    Failed { error: String },
    /// The answer to a yes-or-no question (were the directories found; did
    /// the server become reachable; did it exit in time).
    Answer { yes: bool },
    /// A child ran to completion: whether it reported success, and its
    /// standard error.
    Report { ok: bool, stderr: String },
    /// `mysqld --initialize-insecure` exited with `code`, or by a signal.
    Exited { code: Option<i32> },
    /// The generated root password.
    Password { secret: String },
    /// What moving the staging datadir into place achieved.
    Finalized { outcome: MysqlInitOutcomeDto },
}

/// What the caller must do next.
#[derive(Debug, Clone)]
pub enum InitAction {
    /// Emit `log` (when there is one) on standard output, then perform `work`
    /// and report its event.
    Perform { log: Option<String>, work: InitWork },
    /// The run is over. Kill (and reap) the temporary server when
    /// `kill_server`, remove the staging directory when `remove_staging`, emit
    /// `log` when there is one, and answer `outcome` with `password`.
    Stop {
        outcome: MysqlInitOutcomeDto,
        kill_server: bool,
        remove_staging: bool,
        password: Option<String>,
        log: Option<String>,
    },
}

/// A run of the staged initialization.
#[derive(Debug, Clone)]
pub struct MysqlInit {
    /// The work in flight; `None` once the run has stopped.
    pub work: Option<InitWork>,
    /// The `mysqld` binary, as a path for messages.
    pub mysqld: String,
    /// The staging datadir, as a path.
    pub staging: String,
    /// The directory of the temporary server's socket, as a path.
    pub run_dir: String,
    /// The staging directory exists and is this run's to remove.
    pub staging_created: bool,
    /// The temporary server may still be running.
    pub server_live: bool,
    /// The generated root password, once it exists.
    pub secret: Option<String>,
}

/// Where `w` stands in a successful run.
pub open spec fn rank(w: InitWork) -> int {
    match w {
        InitWork::LocateDirs => 0,
        InitWork::Render => 1,
        InitWork::Validate => 2,
        InitWork::CreateStaging => 3,
        InitWork::LockStaging => 4,
        InitWork::RunInitialize => 5,
        InitWork::CreateRunDir => 6,
        InitWork::SpawnServer => 7,
        InitWork::PollReady => 8,
        InitWork::GeneratePassword => 9,
        InitWork::AlterPassword => 10,
        InitWork::WriteDefaults => 11,
        InitWork::ShutdownServer => 12,
        InitWork::AwaitExit => 13,
        InitWork::Finalize => 14,
    }
}

/// The step of the initialization `w` belongs to.
pub open spec fn work_step(w: InitWork) -> MysqlInitStepDto {
    match w {
        InitWork::LocateDirs | InitWork::Render => MysqlInitStepDto::Render,
        InitWork::Validate => MysqlInitStepDto::Validate,
        InitWork::CreateStaging | InitWork::LockStaging | InitWork::RunInitialize =>
            MysqlInitStepDto::Initialize,
        InitWork::CreateRunDir | InitWork::SpawnServer | InitWork::PollReady =>
            MysqlInitStepDto::StartTempServer,
        InitWork::GeneratePassword | InitWork::AlterPassword => MysqlInitStepDto::SetPassword,
        InitWork::WriteDefaults | InitWork::ShutdownServer | InitWork::AwaitExit =>
            MysqlInitStepDto::Shutdown,
        InitWork::Finalize => MysqlInitStepDto::Finalize,
    }
}

/// The work a successful `w` leads to; `None` after the last.
pub open spec fn next_work(w: InitWork) -> Option<InitWork> {
    match w {
        InitWork::LocateDirs => Some(InitWork::Render),
        InitWork::Render => Some(InitWork::Validate),
        InitWork::Validate => Some(InitWork::CreateStaging),
        InitWork::CreateStaging => Some(InitWork::LockStaging),
        InitWork::LockStaging => Some(InitWork::RunInitialize),
        InitWork::RunInitialize => Some(InitWork::CreateRunDir),
        InitWork::CreateRunDir => Some(InitWork::SpawnServer),
        InitWork::SpawnServer => Some(InitWork::PollReady),
        InitWork::PollReady => Some(InitWork::GeneratePassword),
        InitWork::GeneratePassword => Some(InitWork::AlterPassword),
        InitWork::AlterPassword => Some(InitWork::WriteDefaults),
        InitWork::WriteDefaults => Some(InitWork::ShutdownServer),
        InitWork::ShutdownServer => Some(InitWork::AwaitExit),
        InitWork::AwaitExit => Some(InitWork::Finalize),
        InitWork::Finalize => None,
    }
}

/// The line logged as `w` begins, when a step opens with one.
pub open spec fn opening_line(w: InitWork, staging: Seq<char>) -> Option<Seq<char>> {
    match w {
        InitWork::LocateDirs => Some("rendering my.cnf"@),
        InitWork::Validate => Some("validating my.cnf"@),
        InitWork::CreateStaging => Some("initializing datadir at "@ + staging),
        InitWork::CreateRunDir => Some("starting the temporary server for password setup"@),
        InitWork::PollReady => Some("waiting for the temporary server to become reachable"@),
        InitWork::GeneratePassword => Some("setting the root password"@),
        InitWork::WriteDefaults => Some("shutting down the temporary server"@),
        InitWork::Finalize => Some("finalizing"@),
        _ => None,
    }
}

/// The event `w` reports is of the kind `w` produces.
pub open spec fn fits(w: InitWork, e: InitEvent) -> bool {
    match w {
        InitWork::LocateDirs | InitWork::PollReady | InitWork::AwaitExit => e is Answer,
        InitWork::Validate | InitWork::AlterPassword | InitWork::ShutdownServer => e is Report
            || e is Failed,
        InitWork::RunInitialize => e is Exited || e is Failed,
        InitWork::GeneratePassword => e is Password,
        InitWork::Finalize => e is Finalized,
        _ => e is Done || e is Failed,
    }
}

/// `w` succeeded.
pub open spec fn succeeded(e: InitEvent) -> bool {
    match e {
        InitEvent::Done => true,
        InitEvent::Failed { .. } => false,
        InitEvent::Answer { yes } => yes,
        InitEvent::Report { ok, .. } => ok,
        InitEvent::Exited { code } => code == Some(0i32),
        InitEvent::Password { .. } => true,
        InitEvent::Finalized { .. } => true,
    }
}

/// Whether the staging directory exists, the server may be running, and the
/// password exists while `w` is in flight.
pub open spec fn holds_during(w: InitWork) -> (bool, bool, bool) {
    (rank(w) >= 4, 8 <= rank(w) <= 13, rank(w) >= 10)
}

/// `text` with `secret` redacted out of it, once there is a secret.
pub open spec fn scrubbed(text: Seq<char>, secret: Option<Seq<char>>) -> Seq<char> {
    match secret {
        Some(s) => replace(text, s, redaction_marker()),
        None => text,
    }
}

/// The view of an optional string.
pub open spec fn opt_view(s: Option<String>) -> Option<Seq<char>> {
    match s {
        Some(t) => Some(t@),
        None => None,
    }
}

/// The reason `w` failed with `e`.
pub open spec fn failure_reason(m: MysqlInit, w: InitWork, e: InitEvent) -> Seq<char> {
    let secret = opt_view(m.secret);
    match (w, e) {
        (InitWork::LocateDirs, _) => m.mysqld@
            + " does not look like a usable MySQL install: could not locate its plugin, charset and message directories"@,
        (InitWork::Validate, InitEvent::Report { stderr, .. }) => nonblank_or(
            stderr@,
            "mysqld --validate-config rejected the generated my.cnf"@,
        ),
        (InitWork::CreateStaging, InitEvent::Failed { error }) => "failed to create staging directory "@
            + m.staging@ + ": "@ + error@,
        (InitWork::LockStaging, InitEvent::Failed { error }) =>
            "failed to lock down staging directory permissions: "@ + error@,
        (InitWork::RunInitialize, InitEvent::Exited { code: Some(c) }) =>
            "mysqld --initialize-insecure exited "@ + int_text(c as int),
        (InitWork::RunInitialize, InitEvent::Exited { code: None }) =>
            "mysqld --initialize-insecure was terminated by a signal"@,
        (InitWork::RunInitialize, InitEvent::Failed { error }) =>
            "failed to run mysqld --initialize-insecure: "@ + error@,
        (InitWork::CreateRunDir, InitEvent::Failed { error }) => "failed to create "@ + m.run_dir@
            + ": "@ + error@,
        (InitWork::SpawnServer, InitEvent::Failed { error }) =>
            "failed to start the temporary server: "@ + error@,
        (InitWork::PollReady, _) => "the temporary server never became reachable via mysqladmin ping"@,
        (InitWork::AlterPassword, InitEvent::Report { stderr, .. }) => scrubbed(
            nonblank_or(stderr@, "ALTER USER failed"@),
            secret,
        ),
        (InitWork::AlterPassword, InitEvent::Failed { error }) => scrubbed(error@, secret),
        (InitWork::WriteDefaults, InitEvent::Failed { error }) =>
            "failed to write the ephemeral credential file: "@ + error@,
        (InitWork::ShutdownServer, InitEvent::Report { stderr, .. }) => scrubbed(
            nonblank_or(stderr@, "mysqladmin shutdown failed"@),
            secret,
        ),
        (InitWork::ShutdownServer, InitEvent::Failed { error }) => scrubbed(error@, secret),
        (InitWork::AwaitExit, _) =>
            "the temporary server did not exit after mysqladmin shutdown succeeded"@,
        (_, InitEvent::Failed { error }) => error@,
        _ => Seq::empty(),
    }
}

impl MysqlInit {
    /// The run is consistent: while work is in flight, the staging directory,
    /// the server and the password are exactly what that point of a run has;
    /// once stopped, none of them is held.
    pub open spec fn wf(self) -> bool {
        match self.work {
            Some(w) => holds_during(w) == (self.staging_created, self.server_live, self.secret
                is Some),
            None => !self.staging_created && !self.server_live && self.secret is None,
        }
    }

    /// Starts a run for the `mysqld` at `mysqld`, staging into `staging`,
    /// with the temporary server's socket under `run_dir`.
    pub fn start(mysqld: String, staging: String, run_dir: String) -> (r: (MysqlInit, InitAction))
        ensures
            r.0.wf(),
            r.0.work == Some(InitWork::LocateDirs),
            r.0.mysqld == mysqld && r.0.staging == staging && r.0.run_dir == run_dir,
            r.1 matches InitAction::Perform { log, work } && work == InitWork::LocateDirs
                && opt_view(log) == opening_line(InitWork::LocateDirs, staging@),
    {
        (
            MysqlInit {
                work: Some(InitWork::LocateDirs),
                mysqld,
                staging,
                run_dir,
                staging_created: false,
                server_live: false,
                secret: None,
            },
            InitAction::Perform {
                log: Some(String::from_str("rendering my.cnf")),
                work: InitWork::LocateDirs,
            },
        )
    }

    /// The opening line of `w`.
    fn opening(&self, w: InitWork) -> (r: Option<String>)
        ensures
            opt_view(r) == opening_line(w, self.staging@),
    {
        match w {
            InitWork::LocateDirs => Some(String::from_str("rendering my.cnf")),
            InitWork::Validate => Some(String::from_str("validating my.cnf")),
            InitWork::CreateStaging => Some(
                concat("initializing datadir at ", self.staging.as_str()),
            ),
            InitWork::CreateRunDir => Some(
                String::from_str("starting the temporary server for password setup"),
            ),
            InitWork::PollReady => Some(
                String::from_str("waiting for the temporary server to become reachable"),
            ),
            InitWork::GeneratePassword => Some(String::from_str("setting the root password")),
            InitWork::WriteDefaults => Some(String::from_str("shutting down the temporary server")),
            InitWork::Finalize => Some(String::from_str("finalizing")),
            _ => None,
        }
    }

    /// `text` with the password redacted, once there is one.
    fn scrub(&self, text: String) -> (r: String)
        ensures
            r@ == scrubbed(text@, opt_view(self.secret)),
    {
        match &self.secret {
            Some(s) => redact(text.as_str(), s.as_str()),
            None => text,
        }
    }

    /// The reason `w` failed with `e`.
    fn reason(&self, w: InitWork, e: InitEvent) -> (r: String)
        requires
            fits(w, e),
            !succeeded(e),
        ensures
            r@ == failure_reason(*self, w, e),
    {
        match (w, e) {
            (InitWork::LocateDirs, _) => concat(
                self.mysqld.as_str(),
                " does not look like a usable MySQL install: could not locate its plugin, charset and message directories",
            ),
            (InitWork::Validate, InitEvent::Report { stderr, .. }) => nonblank_or_exec(
                stderr,
                "mysqld --validate-config rejected the generated my.cnf",
            ),
            (InitWork::CreateStaging, InitEvent::Failed { error }) => {
                let mut r = concat("failed to create staging directory ", self.staging.as_str());
                r.append(": ");
                r.append(error.as_str());
                r
            },
            (InitWork::LockStaging, InitEvent::Failed { error }) => concat(
                "failed to lock down staging directory permissions: ",
                error.as_str(),
            ),
            (InitWork::RunInitialize, InitEvent::Exited { code: Some(c) }) => concat(
                "mysqld --initialize-insecure exited ",
                i32_text(c).as_str(),
            ),
            (InitWork::RunInitialize, InitEvent::Exited { code: None }) => String::from_str(
                "mysqld --initialize-insecure was terminated by a signal",
            ),
            (InitWork::RunInitialize, InitEvent::Failed { error }) => concat(
                "failed to run mysqld --initialize-insecure: ",
                error.as_str(),
            ),
            (InitWork::CreateRunDir, InitEvent::Failed { error }) => {
                let mut r = concat("failed to create ", self.run_dir.as_str());
                r.append(": ");
                r.append(error.as_str());
                r
            },
            (InitWork::SpawnServer, InitEvent::Failed { error }) => concat(
                "failed to start the temporary server: ",
                error.as_str(),
            ),
            (InitWork::PollReady, _) => String::from_str(
                "the temporary server never became reachable via mysqladmin ping",
            ),
            (InitWork::AlterPassword, InitEvent::Report { stderr, .. }) => self.scrub(
                nonblank_or_exec(stderr, "ALTER USER failed"),
            ),
            (InitWork::AlterPassword, InitEvent::Failed { error }) => self.scrub(error),
            (InitWork::WriteDefaults, InitEvent::Failed { error }) => concat(
                "failed to write the ephemeral credential file: ",
                error.as_str(),
            ),
            (InitWork::ShutdownServer, InitEvent::Report { stderr, .. }) => self.scrub(
                nonblank_or_exec(stderr, "mysqladmin shutdown failed"),
            ),
            (InitWork::ShutdownServer, InitEvent::Failed { error }) => self.scrub(error),
            (InitWork::AwaitExit, _) => String::from_str(
                "the temporary server did not exit after mysqladmin shutdown succeeded",
            ),
            (_, InitEvent::Failed { error }) => error,
            _ => String::new(),
        }
    }

    /// Takes the event the work in flight reported and decides what to do
    /// next: the next work when it succeeded, or the end of the run.
    ///
    /// A failure ends the run as `Failed` in the step the work belongs to,
    /// removing the staging directory exactly when it exists and killing the
    /// server exactly while it may be running. The last work's outcome ends
    /// it too: `Initialized` hands back the password, a `Failed` removes the
    /// staging directory, and the password is never handed back otherwise.
    #[verifier::rlimit(40)]
    pub fn step(&mut self, event: InitEvent) -> (r: InitAction)
        requires
            old(self).wf(),
            old(self).work matches Some(w) && fits(w, event),
        ensures
            final(self).wf(),
            final(self).mysqld == old(self).mysqld,
            final(self).staging == old(self).staging,
            final(self).run_dir == old(self).run_dir,
            ({
                let w = old(self).work->0;
                if succeeded(event) && w != InitWork::Finalize {
                    let n = next_work(w)->0;
                    &&& final(self).work == Some(n)
                    &&& rank(n) == rank(w) + 1
                    &&& r matches InitAction::Perform { log, work } && work == n && opt_view(log)
                        == opening_line(n, old(self).staging@)
                    &&& event matches InitEvent::Password { secret } ==> final(self).secret
                        == Some(secret)
                    &&& !(event is Password) ==> final(self).secret == old(self).secret
                } else if !succeeded(event) {
                    &&& final(self).work is None
                    &&& r matches InitAction::Stop { outcome, kill_server, remove_staging, password, log }
                        && outcome@ == (InitOutcomeView::Failed {
                        step: work_step(w),
                        reason: failure_reason(*old(self), w, event),
                    }) && kill_server == old(self).server_live && remove_staging
                        == old(self).staging_created && password is None && log is None
                } else {
                    &&& final(self).work is None
                    &&& event matches InitEvent::Finalized { outcome: done }
                    &&& r matches InitAction::Stop { outcome, kill_server, remove_staging, password, log }
                        && outcome@ == done@ && !kill_server && remove_staging == (done@ is Failed)
                        && (done@ is Initialized ==> password == old(self).secret && opt_view(log)
                        == Some("root password set; datadir initialized"@)) && (!(done@ is Initialized)
                        ==> password is None && log is None)
                }
            }),
    {
        let w = match self.work {
            Some(w) => w,
            None => {
                assert(false);
                return InitAction::Perform { log: None, work: InitWork::LocateDirs };
            },
        };
        let ok = match &event {
            InitEvent::Done => true,
            InitEvent::Failed { .. } => false,
            InitEvent::Answer { yes } => *yes,
            InitEvent::Report { ok, .. } => *ok,
            InitEvent::Exited { code } => match code {
                Some(c) => *c == 0,
                None => false,
            },
            InitEvent::Password { .. } => true,
            InitEvent::Finalized { .. } => true,
        };
        if !ok {
            let reason = self.reason(w, event);
            let kill_server = self.server_live;
            let remove_staging = self.staging_created;
            self.work = None;
            self.server_live = false;
            self.staging_created = false;
            self.secret = None;
            return InitAction::Stop {
                outcome: MysqlInitOutcomeDto::Failed { step: step_of(w), reason },
                kill_server,
                remove_staging,
                password: None,
                log: None,
            };
        }
        match event {
            InitEvent::Finalized { outcome } => {
                let password = self.secret.take();
                self.work = None;
                self.server_live = false;
                self.staging_created = false;
                self.secret = None;
                match outcome {
                    MysqlInitOutcomeDto::Initialized => InitAction::Stop {
                        outcome: MysqlInitOutcomeDto::Initialized,
                        kill_server: false,
                        remove_staging: false,
                        password,
                        log: Some(String::from_str("root password set; datadir initialized")),
                    },
                    MysqlInitOutcomeDto::Failed { step, reason } => InitAction::Stop {
                        outcome: MysqlInitOutcomeDto::Failed { step, reason },
                        kill_server: false,
                        remove_staging: true,
                        password: None,
                        log: None,
                    },
                    other => InitAction::Stop {
                        outcome: other,
                        kill_server: false,
                        remove_staging: false,
                        password: None,
                        log: None,
                    },
                }
            },
            InitEvent::Password { secret } => {
                self.secret = Some(secret);
                self.work = Some(InitWork::AlterPassword);
                InitAction::Perform { log: None, work: InitWork::AlterPassword }
            },
            _ => {
                let n = advance(w);
                if n == InitWork::LockStaging {
                    self.staging_created = true;
                }
                if n == InitWork::PollReady {
                    self.server_live = true;
                }
                if n == InitWork::Finalize {
                    self.server_live = false;
                }
                self.work = Some(n);
                InitAction::Perform { log: self.opening(n), work: n }
            },
        }
    }
}

/// The work after `w` in a successful run (the last work stays put).
fn advance(w: InitWork) -> (r: InitWork)
    ensures
        w != InitWork::Finalize ==> next_work(w) == Some(r),
{
    match w {
        InitWork::LocateDirs => InitWork::Render,
        InitWork::Render => InitWork::Validate,
        InitWork::Validate => InitWork::CreateStaging,
        InitWork::CreateStaging => InitWork::LockStaging,
        InitWork::LockStaging => InitWork::RunInitialize,
        InitWork::RunInitialize => InitWork::CreateRunDir,
        InitWork::CreateRunDir => InitWork::SpawnServer,
        InitWork::SpawnServer => InitWork::PollReady,
        InitWork::PollReady => InitWork::GeneratePassword,
        InitWork::GeneratePassword => InitWork::AlterPassword,
        InitWork::AlterPassword => InitWork::WriteDefaults,
        InitWork::WriteDefaults => InitWork::ShutdownServer,
        InitWork::ShutdownServer => InitWork::AwaitExit,
        InitWork::AwaitExit => InitWork::Finalize,
        InitWork::Finalize => InitWork::Finalize,
    }
}

/// The step `w` belongs to.
fn step_of(w: InitWork) -> (r: MysqlInitStepDto)
    ensures
        r == work_step(w),
{
    match w {
        InitWork::LocateDirs | InitWork::Render => MysqlInitStepDto::Render,
        InitWork::Validate => MysqlInitStepDto::Validate,
        InitWork::CreateStaging | InitWork::LockStaging | InitWork::RunInitialize =>
            MysqlInitStepDto::Initialize,
        InitWork::CreateRunDir | InitWork::SpawnServer | InitWork::PollReady =>
            MysqlInitStepDto::StartTempServer,
        InitWork::GeneratePassword | InitWork::AlterPassword => MysqlInitStepDto::SetPassword,
        InitWork::WriteDefaults | InitWork::ShutdownServer | InitWork::AwaitExit =>
            MysqlInitStepDto::Shutdown,
        InitWork::Finalize => MysqlInitStepDto::Finalize,
    }
}

/// Once the root password exists, a failure reason built from what the
/// password-setting or shutdown client printed, or from how running it
/// failed, never holds the password (for any password the marker can hide).
pub proof fn law_client_failures_never_reveal_the_password(m: MysqlInit, w: InitWork, e: InitEvent)
    requires
        m.wf(),
        m.work == Some(w),
        w == InitWork::AlterPassword || w == InitWork::ShutdownServer,
        fits(w, e),
        !succeeded(e),
        m.secret matches Some(s) && hideable(s@),
    ensures
        !contains(failure_reason(m, w, e), m.secret->0@),
{
    let s = m.secret->0@;
    match e {
        InitEvent::Report { stderr, .. } => {
            let fallback = if w == InitWork::AlterPassword {
                "ALTER USER failed"@
            } else {
                "mysqladmin shutdown failed"@
            };
            law_redact_leaves_no_secret(nonblank_or(stderr@, fallback), s);
        },
        InitEvent::Failed { error } => {
            law_redact_leaves_no_secret(error@, s);
        },
        _ => {},
    }
}

/// While work is in flight, the staging directory is the run's to remove
/// exactly from the moment it was created (its lock-down on), and the
/// temporary server may be running exactly from its start until it was seen
/// to exit; a failure's cleanup (see [`MysqlInit::step`]) follows these.
pub proof fn law_cleanup_follows_progress(m: MysqlInit, w: InitWork)
    requires
        m.wf(),
        m.work == Some(w),
    ensures
        m.staging_created <==> rank(w) > rank(InitWork::CreateStaging),
        m.server_live <==> rank(InitWork::SpawnServer) < rank(w) && rank(w) < rank(
            InitWork::Finalize,
        ),
        m.secret is Some <==> rank(w) > rank(InitWork::GeneratePassword),
{
}

} // verus!
