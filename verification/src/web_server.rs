//! The Web Server page: which brands exist, which can be operated, the rows
//! the page lists, the validator invocation for a brand, and the editable
//! nginx settings' save decision.
use vstd::prelude::*;
use crate::error::{ConfFailure, ErrorView, IpcError, from_conf_failure};
use crate::text::{
    char_is_numeric, chars_of, contains, copy_range, find, find_from_exec, first_containing,
    first_line_containing, is_numeric_char, lemma_find_from, lemma_find_iff_contains, lines,
    rfind, rfind_exec, string_from_chars, trim, trim_bounds,
};

verus! {

/// The web servers this app knows about: a closed list, so a client sends
/// only an id and never a path.
#[derive(Debug, Clone, Copy, PartialEq, Eq, Structural)]
pub enum WebServerBrand {
    Nginx,
    Apache,
}

/// The paths of the managed stack: the home, the nginx binary when one was
/// found, and the live nginx config.
#[derive(Debug, Clone)]
pub struct StackPaths {
    pub home: String,
    pub nginx_bin: Option<String>,
    pub nginx_conf: String,
}

/// A validator invocation, resolved as one unit from the brand: binary,
/// config, error log and prefix directory belong together.
#[derive(Debug, Clone)]
pub enum ValidationTarget {
    /// `<bin> -e <err_log> -p <home> -t -c <conf>`.
    NginxT { bin: String, conf: String, err_log: String, home: String },
}

/// The brand an id names, if any: exact match only.
pub open spec fn brand_of(id: Seq<char>) -> Option<WebServerBrand> {
    if id == "nginx"@ {
        Some(WebServerBrand::Nginx)
    } else if id == "apache"@ {
        Some(WebServerBrand::Apache)
    } else {
        None
    }
}

/// The brand's name as the product spells it.
pub open spec fn brand_name(b: WebServerBrand) -> Seq<char> {
    match b {
        WebServerBrand::Nginx => "nginx"@,
        WebServerBrand::Apache => "Apache"@,
    }
}

/// Whether this app can operate the brand end to end.
pub open spec fn brand_supported(b: WebServerBrand) -> bool {
    b == WebServerBrand::Nginx
}

/// The refusal for an unsupported brand, naming the brand asked for.
pub open spec fn unsupported_refusal(b: WebServerBrand) -> ErrorView {
    ErrorView::Validation {
        field: "id"@,
        message: "OpenVHost cannot serve "@ + brand_name(b) + " sites yet — it only generates nginx config"@,
    }
}

impl WebServerBrand {
    /// The brand `s` names. An unknown id is a validation error on `id`,
    /// never a fallback to another brand.
    pub fn parse(s: &str) -> (r: Result<WebServerBrand, IpcError>)
        ensures
            match brand_of(s@) {
                Some(b) => r == Ok::<WebServerBrand, IpcError>(b),
                None => r matches Err(e) && e@ == (ErrorView::Validation {
                    field: "id"@,
                    message: "unknown web server "@ + crate::error::debug_text(s@),
                }),
            },
    {
        if crate::text::str_eq(s, "nginx") {
            Ok(WebServerBrand::Nginx)
        } else if crate::text::str_eq(s, "apache") {
            Ok(WebServerBrand::Apache)
        } else {
            let mut message = String::from_str("unknown web server ");
            message.append(crate::error::debug_quote(s).as_str());
            Err(crate::error::validation("id", message))
        }
    }

    /// The brand's name as the product spells it: `nginx`, `Apache`.
    pub fn display_name(self) -> (r: &'static str)
        ensures
            r@ == brand_name(self),
    {
        match self {
            WebServerBrand::Nginx => "nginx",
            WebServerBrand::Apache => "Apache",
        }
    }

    /// Whether this app can operate the brand end to end (only nginx).
    pub fn supported(self) -> (r: bool)
        ensures
            r == brand_supported(self),
    {
        match self {
            WebServerBrand::Nginx => true,
            WebServerBrand::Apache => false,
        }
    }

    /// Refuses an unsupported brand before any path is derived, naming the
    /// brand that was asked for.
    pub fn require_supported(self) -> (r: Result<(), IpcError>)
        ensures
            brand_supported(self) ==> r is Ok,
            !brand_supported(self) ==> (r matches Err(e) && e@ == unsupported_refusal(self)),
    {
        if self.supported() {
            return Ok(());
        }
        let mut message = String::from_str("OpenVHost cannot serve ");
        message.append(self.display_name());
        message.append(" sites yet — it only generates nginx config");
        Err(crate::error::validation("id", message))
    }

    /// The live config file of this brand, out of the managed paths: the
    /// only way a config path is obtained. An unsupported brand is refused
    /// first.
    pub fn live_config_path(self, paths: &StackPaths) -> (r: Result<&String, IpcError>)
        ensures
            brand_supported(self) ==> (r matches Ok(p) && p@ == paths.nginx_conf@),
            !brand_supported(self) ==> (r matches Err(e) && e@ == unsupported_refusal(self)),
    {
        match self.require_supported() {
            Ok(()) => {},
            Err(e) => return Err(e),
        }
        match self {
            WebServerBrand::Nginx => Ok(&paths.nginx_conf),
            WebServerBrand::Apache => Err(
                crate::error::core_error(
                    String::from_str("no live configuration path is known for Apache"),
                ),
            ),
        }
    }

    /// The whole validator invocation for this brand. For nginx: its binary
    /// and config from the managed paths, with `err_log` (nginx's own error
    /// log under the home) and `prefix` (the dedicated `-p` directory, never
    /// the home itself). An unsupported brand is refused first; an nginx
    /// with no binary is refused honestly.
    pub fn validation_target(self, paths: &StackPaths, err_log: String, prefix: String) -> (r:
        Result<ValidationTarget, IpcError>)
        ensures
            !brand_supported(self) ==> (r matches Err(e) && e@ == unsupported_refusal(self)),
            brand_supported(self) && paths.nginx_bin is None ==> (r matches Err(e) && e@
                == (ErrorView::Core { message: "no nginx binary was found on this machine"@ })),
            brand_supported(self) && paths.nginx_bin is Some ==> (r matches Ok(
                ValidationTarget::NginxT { bin, conf, err_log: e, home },
            ) && bin@ == paths.nginx_bin->0@ && conf@ == paths.nginx_conf@ && e@ == err_log@
                && home@ == prefix@),
    {
        match self.require_supported() {
            Ok(()) => {},
            Err(e) => return Err(e),
        }
        match self {
            WebServerBrand::Nginx => {
                let bin = match &paths.nginx_bin {
                    Some(b) => b.clone(),
                    None => {
                        return Err(
                            crate::error::core_error(
                                String::from_str("no nginx binary was found on this machine"),
                            ),
                        );
                    },
                };
                Ok(
                    ValidationTarget::NginxT {
                        bin,
                        conf: paths.nginx_conf.clone(),
                        err_log,
                        home: prefix,
                    },
                )
            },
            WebServerBrand::Apache => Err(
                crate::error::core_error(
                    String::from_str("no validator invocation is known for Apache"),
                ),
            ),
        }
    }
}

/// The managed stack paths, or the refusal given when no stack is configured
/// for this platform.
pub fn stack_paths(paths: &Option<StackPaths>) -> (r: Result<&StackPaths, IpcError>)
    ensures
        match paths {
            Some(p) => r == Ok::<&StackPaths, IpcError>(p),
            None => r matches Err(e) && e@ == (ErrorView::Core {
                message: "no web server stack is configured for this platform"@,
            }),
        },
{
    match paths {
        Some(p) => Ok(p),
        None => Err(
            crate::error::core_error(
                String::from_str("no web server stack is configured for this platform"),
            ),
        ),
    }
}

// ---------------------------------------------------------------------------
// The page's rows
// ---------------------------------------------------------------------------

/// Where a listed nginx binary came from: OpenVHost's own package tree (with
/// its exact version), or Homebrew (whose version is not known without
/// running it).
#[derive(Debug, Clone, PartialEq, Eq)]
pub enum NginxRuntimeSourceDto {
    Packaged { version: String },
    Homebrew,
}

/// One row on the Web Server page.
#[derive(Debug, Clone)]
pub struct WebServerDto {
    pub id: String,
    pub display_name: String,
    pub supported: bool,
    pub service_id: Option<String>,
    pub binary_path: Option<String>,
    pub version: Option<String>,
    pub source: Option<NginxRuntimeSourceDto>,
    pub supports_hot_reload: bool,
    pub config_path: Option<String>,
    /// Whether a file exists at `config_path`: confirmed present, confirmed
    /// absent, or `None` when the check could not be performed.
    pub config_exists: Option<bool>,
}

/// The view of an optional string.
pub open spec fn opt_text(s: Option<String>) -> Option<Seq<char>> {
    match s {
        Some(t) => Some(t@),
        None => None,
    }
}

/// `row` is the Apache row: listed, not supported, with no service, binary,
/// version, source or config, and a config that is confirmed absent (there
/// is no path a file could exist at).
pub open spec fn is_apache_row(row: WebServerDto) -> bool {
    &&& row.id@ == "apache"@
    &&& row.display_name@ == "Apache"@
    &&& !row.supported
    &&& row.service_id is None
    &&& row.binary_path is None
    &&& row.version is None
    &&& row.source is None
    &&& !row.supports_hot_reload
    &&& row.config_path is None
    &&& row.config_exists == Some(false)
}

impl WebServerDto {
    /// The Apache row: listed so the page can say plainly that it is not
    /// available.
    pub fn apache() -> (r: WebServerDto)
        ensures
            is_apache_row(r),
    {
        WebServerDto {
            id: String::from_str("apache"),
            display_name: String::from_str("Apache"),
            supported: false,
            service_id: None,
            binary_path: None,
            version: None,
            source: None,
            supports_hot_reload: false,
            config_path: None,
            config_exists: Some(false),
        }
    }
}

/// The page's rows, nginx then Apache. nginx's row reports the managed
/// paths verbatim (no binary when none was found) and the probed `version`,
/// `config_exists`, `source` and `supports_hot_reload` as given.
pub fn web_server_rows(
    p: &StackPaths,
    version: Option<String>,
    config_exists: Option<bool>,
    source: Option<NginxRuntimeSourceDto>,
    supports_hot_reload: bool,
) -> (r: Vec<WebServerDto>)
    ensures
        r@.len() == 2,
        r@[0].id@ == "nginx"@ && r@[0].display_name@ == "nginx"@ && r@[0].supported,
        opt_text(r@[0].service_id) == Some("nginx"@),
        opt_text(r@[0].binary_path) == opt_text(p.nginx_bin),
        opt_text(r@[0].version) == opt_text(version),
        r@[0].source == source,
        r@[0].supports_hot_reload == supports_hot_reload,
        opt_text(r@[0].config_path) == Some(p.nginx_conf@),
        r@[0].config_exists == config_exists,
        is_apache_row(r@[1]),
{
    let binary_path = match &p.nginx_bin {
        Some(b) => Some(b.clone()),
        None => None,
    };
    let nginx = WebServerDto {
        id: String::from_str("nginx"),
        display_name: String::from_str("nginx"),
        supported: true,
        service_id: Some(String::from_str("nginx")),
        binary_path,
        version,
        source,
        supports_hot_reload,
        config_path: Some(p.nginx_conf.clone()),
        config_exists,
    };
    let mut rows: Vec<WebServerDto> = Vec::new();
    rows.push(nginx);
    rows.push(WebServerDto::apache());
    rows
}

/// What a live validation reported.
#[derive(Debug, Clone)]
pub struct ValidationReportDto {
    pub ok: bool,
    pub stderr: String,
}

// ---------------------------------------------------------------------------
// Editable nginx settings
// ---------------------------------------------------------------------------

/// The editable nginx settings as they cross IPC.
#[derive(Debug, Clone, PartialEq, Eq)]
pub struct WebServerSettingsDto {
    pub worker_connections: u32,
    pub client_max_body_size: String,
    pub keepalive_timeout: u32,
    pub tcp_nodelay: bool,
    pub fastcgi_connect_timeout: u32,
    pub fastcgi_send_timeout: u32,
    pub fastcgi_read_timeout: u32,
    pub gzip: bool,
    pub gzip_comp_level: u32,
    pub gzip_types: String,
}

/// The real settings check: `nginx -t` over a candidate render, written
/// inside the app's own home.
#[derive(Debug, Clone)]
pub struct NginxSettingsChecker {
    pub bin: String,
    pub scratch_root: String,
}

/// The settings checker for the managed stack: one runs only when a stack
/// is configured and it has an nginx binary, writing its candidates under
/// the home's `run` directory.
pub fn settings_checker(paths: &Option<StackPaths>) -> (r: Option<NginxSettingsChecker>)
    ensures
        match paths {
            Some(p) => match p.nginx_bin {
                Some(bin) => r matches Some(c) && c.bin@ == bin@ && c.scratch_root@
                    == crate::text::path_join(p.home@, "run"@),
                None => r is None,
            },
            None => r is None,
        },
{
    match paths {
        Some(p) => match &p.nginx_bin {
            Some(bin) => Some(
                NginxSettingsChecker {
                    bin: bin.clone(),
                    scratch_root: crate::text::join_path(p.home.as_str(), "run"),
                },
            ),
            None => None,
        },
        None => None,
    }
}

/// How the nginx row learns its version.
#[derive(Debug, Clone)]
pub enum VersionPlan {
    /// Already known: a packaged nginx's version is its tree's, and nothing
    /// runs to learn it.
    Known(String),
    /// Ask this Homebrew binary (`nginx -v`): its patch release cannot be
    /// known any other way.
    Probe(String),
    /// No nginx: nothing to ask, and no version.
    Unknown,
}

/// Decides how the nginx row learns its version from where the binary came
/// from: a packaged nginx's version is known without running anything; a
/// Homebrew nginx is probed, when its binary exists; with no source there is
/// nothing to probe.
pub fn nginx_version_plan(source: &Option<NginxRuntimeSourceDto>, bin: &Option<String>) -> (r:
    VersionPlan)
    ensures
        match source {
            Some(NginxRuntimeSourceDto::Packaged { version }) => r matches VersionPlan::Known(v) && v@
                == version@,
            Some(NginxRuntimeSourceDto::Homebrew) => match bin {
                Some(b) => r matches VersionPlan::Probe(p) && p@ == b@,
                None => r is Unknown,
            },
            None => r is Unknown,
        },
{
    match source {
        Some(NginxRuntimeSourceDto::Packaged { version }) => VersionPlan::Known(version.clone()),
        Some(NginxRuntimeSourceDto::Homebrew) => match bin {
            Some(b) => VersionPlan::Probe(b.clone()),
            None => VersionPlan::Unknown,
        },
        None => VersionPlan::Unknown,
    }
}

/// The `[emerg]` marker of nginx's fatal diagnostics.
pub open spec fn emerg() -> Seq<char> {
    "[emerg]"@
}

/// The text of `line` after its first `p`, up to the next `p` (the second
/// piece of `line.split(p)`); `line` itself when it holds no `p`.
pub open spec fn second_piece(line: Seq<char>, p: Seq<char>) -> Seq<char> {
    match find(line, p) {
        None => line,
        Some(i) => {
            let rest = line.skip(i + p.len());
            match find(rest, p) {
                Some(j) => rest.take(j),
                None => rest,
            }
        },
    }
}

/// `reason` without a trailing ` in <path>:<line>` location: cut at its
/// last ` in `, when the text ends with a digit.
pub open spec fn strip_location(reason: Seq<char>) -> Seq<char> {
    match rfind(reason, " in "@) {
        Some(i) => if is_numeric_char(reason.last()) {
            reason.take(i)
        } else {
            reason
        },
        None => reason,
    }
}

/// The part of nginx's stderr worth putting beside a form field: the reason
/// on the first `[emerg]` line, without the throwaway location; or, when no
/// line is `[emerg]`, the whole stderr, trimmed.
pub open spec fn rejection_text(stderr: Seq<char>) -> Seq<char> {
    match first_containing(lines(stderr), emerg()) {
        None => trim(stderr),
        Some(line) => "nginx rejected this value: "@ + strip_location(
            trim(second_piece(line, emerg())),
        ),
    }
}

/// The line [`first_containing`] picks holds the pattern.
proof fn lemma_first_containing_holds(ls: Seq<Seq<char>>, p: Seq<char>)
    ensures
        first_containing(ls, p) matches Some(l) ==> contains(l, p),
    decreases ls.len(),
{
    if ls.len() > 0 && !contains(ls[0], p) {
        lemma_first_containing_holds(ls.skip(1), p);
    }
}

/// The position of `p` in `s`, as `find` has it.
fn find_in(s: &[char], p: &[char]) -> (r: Option<usize>)
    ensures
        match r {
            Some(i) => find(s@, p@) == Some(i as int) && i + p@.len() <= s@.len(),
            None => find(s@, p@) is None,
        },
{
    proof {
        lemma_find_from(s@, p@, 0);
    }
    find_from_exec(s, p, 0)
}

/// The message shown when nginx rejects a setting: see [`rejection_text`].
/// Anything unrecognised is passed through whole rather than swallowed.
pub fn rejection_message(stderr: &str) -> (r: String)
    ensures
        r@ == rejection_text(stderr@),
{
    let c = chars_of(stderr);
    let em = chars_of("[emerg]");
    proof {
        reveal_strlit("[emerg]");
    }
    let (a, b) = match first_line_containing(c.as_slice(), em.as_slice()) {
        Some(bounds) => bounds,
        None => {
            let (ta, tb) = trim_bounds(c.as_slice(), 0, c.len());
            assert(c@.subrange(0, c@.len() as int) =~= c@);
            let t = copy_range(c.as_slice(), ta, tb);
            return string_from_chars(t.as_slice());
        },
    };
    let line = copy_range(c.as_slice(), a, b);
    proof {
        lemma_first_containing_holds(lines(stderr@), emerg());
        lemma_find_iff_contains(line@, emerg());
    }
    let i = match find_in(line.as_slice(), em.as_slice()) {
        Some(i) => i,
        None => {
            assert(false);
            return String::new();
        },
    };
    let rest = copy_range(line.as_slice(), i + em.len(), line.len());
    assert(rest@ =~= line@.skip(i + emerg().len()));
    let end = match find_in(rest.as_slice(), em.as_slice()) {
        Some(j) => j,
        None => rest.len(),
    };
    let piece = copy_range(rest.as_slice(), 0, end);
    assert(piece@ == second_piece(line@, emerg())) by {
        if find(rest@, emerg()) is None {
            assert(rest@.subrange(0, rest@.len() as int) =~= rest@);
        } else {
            assert(rest@.subrange(0, end as int) =~= rest@.take(end as int));
        }
    }
    let (ra, rb) = trim_bounds(piece.as_slice(), 0, piece.len());
    assert(piece@.subrange(0, piece@.len() as int) =~= piece@);
    let reason = copy_range(piece.as_slice(), ra, rb);
    let sep = chars_of(" in ");
    proof {
        reveal_strlit(" in ");
        crate::text::lemma_rfind_at_or_before(reason@, " in "@, reason@.len() - 4);
    }
    let cut = match rfind_exec(reason.as_slice(), sep.as_slice()) {
        Some(k) => if reason.len() > 0 && char_is_numeric(reason[reason.len() - 1]) {
            k
        } else {
            reason.len()
        },
        None => reason.len(),
    };
    let kept = copy_range(reason.as_slice(), 0, cut);
    assert(kept@ == strip_location(reason@)) by {
        if cut == reason.len() {
            assert(reason@.subrange(0, reason@.len() as int) =~= reason@);
        } else {
            assert(reason@.subrange(0, cut as int) =~= reason@.take(cut as int));
        }
    }
    let mut out = String::from_str("nginx rejected this value: ");
    out.append(string_from_chars(kept.as_slice()).as_str());
    out
}

/// What the settings check answered about a candidate.
#[derive(Debug, Clone)]
pub enum SettingsVerdict {
    Accepted,
    /// nginx refused it: `field` names the setting when the refusal could be
    /// traced to one, and `stderr` is what nginx printed.
    Rejected { field: Option<String>, stderr: String },
}

/// How running the settings check went.
#[derive(Debug, Clone)]
pub enum SettingsCheckResult {
    /// The check ran and answered.
    Answered(SettingsVerdict),
    /// The recorded nginx binary would not run (removed or moved since).
    SpawnFailed,
    /// Anything else, a timeout included.
    Failed(ConfFailure),
}

/// Whether a validated settings candidate may be stored, given the check's
/// result (`None` when no nginx is installed): `Ok` to store, or the error
/// that refuses it.
pub open spec fn settings_save_allowed(check: Option<SettingsCheckResult>) -> Result<(), ErrorView> {
    match check {
        None => Ok(()),
        Some(SettingsCheckResult::SpawnFailed) => Ok(()),
        Some(SettingsCheckResult::Answered(SettingsVerdict::Accepted)) => Ok(()),
        Some(SettingsCheckResult::Answered(SettingsVerdict::Rejected { field, stderr })) => Err(
            match field {
                Some(f) => ErrorView::Validation { field: f@, message: rejection_text(stderr@) },
                None => ErrorView::Core { message: rejection_text(stderr@) },
            },
        ),
        Some(SettingsCheckResult::Failed(f)) => Err(crate::error::conf_error(f)),
    }
}

/// Decides whether a validated candidate is stored. With no nginx, or an
/// nginx that will not run, the save proceeds unchecked (with no runnable
/// nginx there is no apply to trap). An accepted candidate is stored. A
/// rejection stores nothing: it marks the field when nginx's complaint
/// could be traced to one, and is a banner otherwise. Any other check
/// failure, a timeout included, stores nothing either.
pub fn settings_save_decision(check: Option<SettingsCheckResult>) -> (r: Result<(), IpcError>)
    ensures
        match settings_save_allowed(check) {
            Ok(()) => r is Ok,
            Err(v) => r matches Err(e) && e@ == v,
        },
{
    match check {
        None => Ok(()),
        Some(SettingsCheckResult::SpawnFailed) => Ok(()),
        Some(SettingsCheckResult::Failed(f)) => Err(from_conf_failure(f)),
        Some(SettingsCheckResult::Answered(SettingsVerdict::Accepted)) => Ok(()),
        Some(SettingsCheckResult::Answered(SettingsVerdict::Rejected { field, stderr })) => {
            let message = rejection_message(stderr.as_str());
            Err(
                match field {
                    Some(f) => IpcError::Validation { field: f, message },
                    None => IpcError::Core { message },
                },
            )
        },
    }
}

} // verus!
