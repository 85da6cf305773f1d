//! The Logs page: a log's identity as it crosses IPC, the live-catalogue
//! check a source must pass before any path is derived, the confinement of a
//! derived path, the filter-query cap, and the catalogue of sources.
use vstd::prelude::*;
use crate::error::{ErrorView, IpcError, debug_quote, debug_text};
use crate::store::{DbHandle, unavailable_message, unavailable_text};
use crate::text::{concat, list_contains, views};

verus! {

/// The only way a log's identity crosses IPC: a closed, tagged set.
#[derive(Debug, Clone)]
pub enum LogSourceDto {
    NginxError,
    NginxAccess,
    PhpFpm { major: String },
    SiteAccess { domain: String },
    SiteError { domain: String },
    ServiceRing { id: String },
}

/// A [`LogSourceDto`] with its strings taken as character sequences.
pub enum SourceView {
    NginxError,
    NginxAccess,
    PhpFpm { major: Seq<char> },
    SiteAccess { domain: Seq<char> },
    SiteError { domain: Seq<char> },
    ServiceRing { id: Seq<char> },
}

impl View for LogSourceDto {
    type V = SourceView;

    open spec fn view(&self) -> SourceView {
        match self {
            LogSourceDto::NginxError => SourceView::NginxError,
            LogSourceDto::NginxAccess => SourceView::NginxAccess,
            LogSourceDto::PhpFpm { major } => SourceView::PhpFpm { major: major@ },
            LogSourceDto::SiteAccess { domain } => SourceView::SiteAccess { domain: domain@ },
            LogSourceDto::SiteError { domain } => SourceView::SiteError { domain: domain@ },
            LogSourceDto::ServiceRing { id } => SourceView::ServiceRing { id: id@ },
        }
    }
}

/// A log source after ingress parsing: every major and domain has passed
/// its validated type's parse, so a path may be derived from it.
#[derive(Debug, Clone)]
pub enum LogSource {
    NginxError,
    NginxAccess,
    PhpFpm(String),
    SiteAccess(String),
    SiteError(String),
    ServiceRing(String),
}

/// How a log file was reset since the last read.
#[derive(Debug, Clone, Copy, PartialEq, Eq, Structural)]
pub enum LogResetDto {
    Rotated,
    Truncated,
}

/// How a source is read: a file through the window reader, or a service's
/// ring buffer through its own tail command.
#[derive(Debug, Clone, Copy, PartialEq, Eq, Structural)]
pub enum LogSourceKindDto {
    File,
    Ring,
}

/// One row of the log-source catalogue.
#[derive(Debug, Clone)]
pub struct LogSourceRowDto {
    pub source: LogSourceDto,
    pub label: String,
    pub kind: LogSourceKindDto,
    pub exists: bool,
    /// `None` for a ring row, and for a file row whose file does not exist
    /// yet.
    pub size_bytes: Option<u64>,
    /// The supervisor id to read a ring row with; `None` for a file row.
    pub service_id: Option<String>,
}

// ---------------------------------------------------------------------------
// The live-catalogue check
// ---------------------------------------------------------------------------

/// What the catalogue check decided.
#[derive(Debug, Clone)]
pub enum CatalogueCheck {
    /// The source names something that exists; proceed.
    Pass,
    /// Refused with this error; no path is to be derived.
    Refuse(IpcError),
    /// A site source: proceed only if `domain` is one of the store's sites
    /// (see [`confirm_site`]).
    LookUpSite { domain: String },
}

/// The refusal of a site source when the store is down, carrying why.
pub open spec fn site_refusal_text(reason: Seq<char>) -> Seq<char> {
    unavailable_text(reason) + ", so no site's log can be confirmed as one of yours"@
}

/// Checks that `source` names something that exists right now, before any
/// path is derived. nginx's globals and a ring pass (nothing in the store
/// names them). A php-fpm pool passes only if its major is installed. A site
/// needs the store: with the store down it is refused with the reason, since
/// the store is the only thing that says which domains are the user's;
/// otherwise its domain must be looked up among the sites.
pub fn check_catalogue<D>(source: &LogSource, db: &DbHandle<D>, installed_php: &[String]) -> (r:
    CatalogueCheck)
    ensures
        match source {
            LogSource::NginxError | LogSource::NginxAccess | LogSource::ServiceRing(_) => r
                is Pass,
            LogSource::PhpFpm(major) => if views(installed_php@).contains(major@) {
                r is Pass
            } else {
                r matches CatalogueCheck::Refuse(e) && e@ == (ErrorView::Validation {
                    field: "php_version"@,
                    message: "PHP "@ + major@ + " is not installed"@,
                })
            },
            LogSource::SiteAccess(domain) | LogSource::SiteError(domain) => match db {
                DbHandle::Unavailable { reason } => r matches CatalogueCheck::Refuse(e) && e@
                    == (ErrorView::Core { message: site_refusal_text(reason@) }),
                DbHandle::Ready(_) => r matches CatalogueCheck::LookUpSite { domain: d } && d@
                    == domain@,
            },
        },
{
    match source {
        LogSource::NginxError | LogSource::NginxAccess | LogSource::ServiceRing(_) =>
            CatalogueCheck::Pass,
        LogSource::PhpFpm(major) => {
            if list_contains(installed_php, major.as_str()) {
                CatalogueCheck::Pass
            } else {
                let mut message = concat("PHP ", major.as_str());
                message.append(" is not installed");
                CatalogueCheck::Refuse(crate::error::validation("php_version", message))
            }
        },
        LogSource::SiteAccess(domain) | LogSource::SiteError(domain) => match db {
            DbHandle::Unavailable { reason } => {
                let mut message = unavailable_message(reason.as_str());
                message.append(", so no site's log can be confirmed as one of yours");
                CatalogueCheck::Refuse(IpcError::Core { message })
            },
            DbHandle::Ready(_) => CatalogueCheck::LookUpSite { domain: domain.clone() },
        },
    }
}

/// The second half of a site source's check: its domain must be one of the
/// store's sites.
pub fn confirm_site(domain: &str, known_domains: &[String]) -> (r: Result<(), IpcError>)
    ensures
        views(known_domains@).contains(domain@) ==> r is Ok,
        !views(known_domains@).contains(domain@) ==> (r matches Err(e) && e@
            == (ErrorView::Validation {
            field: "domain"@,
            message: "no site named "@ + domain@ + " exists"@,
        })),
{
    if list_contains(known_domains, domain) {
        Ok(())
    } else {
        let mut message = concat("no site named ", domain);
        message.append(" exists");
        Err(crate::error::validation("domain", message))
    }
}

// ---------------------------------------------------------------------------
// Deriving and confining a path
// ---------------------------------------------------------------------------

/// Whether `path` lies under `root`, compared whole component by whole
/// component, as `Path::starts_with` answers it.
pub uninterp spec fn path_starts_with(path: Seq<char>, root: Seq<char>) -> bool;

/// `Path::starts_with`. Claims only that its answer is the component-wise
/// prefix test named by [`path_starts_with`].
#[verifier::external_body]
pub(crate) fn starts_with_path(path: &str, root: &str) -> (r: bool)
    ensures
        r == path_starts_with(path@, root@),
{
    std::path::Path::new(path).starts_with(root)
}

/// The refusal of a derived path that escaped `root`.
pub open spec fn escape_text(path: Seq<char>, root: Seq<char>) -> Seq<char> {
    "internal error: derived log path "@ + path + " escaped "@ + root
}

/// `path`, if it lies under `root`; an honest internal error otherwise,
/// never a panic.
pub fn confined(path: String, root: &str) -> (r: Result<String, IpcError>)
    ensures
        path_starts_with(path@, root@) ==> (r matches Ok(p) && p@ == path@),
        !path_starts_with(path@, root@) ==> (r matches Err(e) && e@ == (ErrorView::Core {
            message: escape_text(path@, root@),
        })),
{
    if starts_with_path(path.as_str(), root) {
        Ok(path)
    } else {
        let mut message = concat("internal error: derived log path ", path.as_str());
        message.append(" escaped ");
        message.append(root);
        Err(IpcError::Core { message })
    }
}

/// The refusal of a ring source by a command that reads files.
pub open spec fn ring_refusal(id: Seq<char>) -> ErrorView {
    ErrorView::Validation {
        field: "source"@,
        message: "ring source "@ + debug_text(id)
            + " is read through service_log_tail, not this command"@,
    }
}

/// The only place a source becomes a path. A ring source has none and is
/// refused as the wrong command; every other source's path, as `locate`
/// derives it, must lie under `root`.
pub fn derive_path<F: Fn(&LogSource) -> String>(source: &LogSource, locate: F, root: &str) -> (r:
    Result<String, IpcError>)
    requires
        call_requires(locate, (source,)),
    ensures
        source matches LogSource::ServiceRing(id) ==> (r matches Err(e) && e@ == ring_refusal(
            id@,
        )),
        !(source is ServiceRing) ==> exists|p: String|
            #[trigger] call_ensures(locate, (source,), p) && (if path_starts_with(p@, root@) {
                r matches Ok(q) && q@ == p@
            } else {
                r matches Err(e) && e@ == (ErrorView::Core { message: escape_text(p@, root@) })
            }),
{
    match source {
        LogSource::ServiceRing(id) => {
            let mut message = concat("ring source ", debug_quote(id.as_str()).as_str());
            message.append(" is read through service_log_tail, not this command");
            Err(crate::error::validation("source", message))
        },
        _ => {
            let p = locate(source);
            let ghost g = p;
            let r = confined(p, root);
            assert(call_ensures(locate, (source,), g));
            r
        },
    }
}

/// The folder to reveal for a log at `path`: its parent directory, or a
/// refusal when it has none.
pub fn log_folder(path: String) -> (r: Result<String, IpcError>)
    ensures
        match crate::text::path_parent(path@) {
            Some(p) => r matches Ok(f) && f@ == p,
            None => r matches Err(e) && e@ == (ErrorView::Core {
                message: path@ + " has no parent directory"@,
            }),
        },
{
    match crate::text::parent_path(path.as_str()) {
        Some(p) => Ok(p),
        None => Err(IpcError::Core { message: concat(path.as_str(), " has no parent directory") }),
    }
}

// ---------------------------------------------------------------------------
// The filter query
// ---------------------------------------------------------------------------

/// The cap on a log filter query, in bytes.
pub const LOG_NEEDLE_MAX_BYTES: usize = 256;

/// A filter query no longer than [`LOG_NEEDLE_MAX_BYTES`] bytes: obtainable
/// only through [`LogNeedle::parse`].
pub struct LogNeedle(String);

impl LogNeedle {
    /// The needle's text.
    pub closed spec fn text(&self) -> Seq<char> {
        self.0@
    }

    /// Accepts `s` as a needle when it is at most the cap in bytes; a longer
    /// one is a validation error on `needle`.
    pub fn parse(s: &str) -> (r: Result<LogNeedle, IpcError>)
        ensures
            s.len() <= LOG_NEEDLE_MAX_BYTES ==> (r matches Ok(n) && n.text() == s@),
            s.len() > LOG_NEEDLE_MAX_BYTES ==> (r matches Err(e) && e@
                == (ErrorView::Validation { field: "needle"@, message: "must be at most 256 bytes"@ })),
    {
        if s.len() > LOG_NEEDLE_MAX_BYTES {
            return Err(
                crate::error::validation("needle", String::from_str("must be at most 256 bytes")),
            );
        }
        Ok(LogNeedle(String::from_str(s)))
    }

    /// The needle's text.
    pub fn into_inner(self) -> (r: String)
        ensures
            r@ == self.text(),
    {
        self.0
    }
}

// ---------------------------------------------------------------------------
// The catalogue
// ---------------------------------------------------------------------------

/// A catalogue row with its strings taken as character sequences: source,
/// label, kind, exists, size, service id.
pub type RowView = (SourceView, Seq<char>, LogSourceKindDto, bool, Option<u64>, Option<Seq<char>>);

/// The view of a row.
pub open spec fn row_view(r: LogSourceRowDto) -> RowView {
    (
        r.source@,
        r.label@,
        r.kind,
        r.exists,
        r.size_bytes,
        match r.service_id {
            Some(s) => Some(s@),
            None => None,
        },
    )
}

/// A file row: it exists exactly when its regular file had a size to report.
pub open spec fn file_row_view(source: SourceView, label: Seq<char>, size: Option<u64>) -> RowView {
    (source, label, LogSourceKindDto::File, size is Some, size, None)
}

/// A ring row for the service `id` shown as `name`.
pub open spec fn ring_row_view(id: Seq<char>, name: Seq<char>) -> RowView {
    (SourceView::ServiceRing { id }, name + " output"@, LogSourceKindDto::Ring, true, None, Some(id))
}

/// Law: a file row is listed as existing exactly when its file reported a
/// size, whatever that size is (an empty file, `Some(0)`, exists), and it
/// shows that size unchanged, as a file, with no service behind it.
pub proof fn law_a_file_row_exists_exactly_when_it_has_a_size(
    source: SourceView,
    label: Seq<char>,
    size: Option<u64>,
)
    ensures
        file_row_view(source, label, size).3 <==> (exists|n: u64| size == Some(n)),
        file_row_view(source, label, size).4 == size,
        file_row_view(source, label, size).2 == LogSourceKindDto::File,
        file_row_view(source, label, size).5 is None,
        file_row_view(source, label, size).0 == source,
        file_row_view(source, label, size).1 == label,
{
    if let Some(n) = size {
        assert(size == Some(n));
    }
}

/// A file row for `source`, labelled `label`, whose regular file has `size`
/// bytes (`None` when there is no regular file there).
pub fn file_row(source: LogSourceDto, label: String, size: Option<u64>) -> (r: LogSourceRowDto)
    ensures
        row_view(r) == file_row_view(source@, label@, size),
        r.exists == size.is_some(),
        r.size_bytes == size,
        r.kind == LogSourceKindDto::File,
        r.service_id is None,
{
    proof {
        law_a_file_row_exists_exactly_when_it_has_a_size(source@, label@, size);
    }
    LogSourceRowDto {
        source,
        label,
        kind: LogSourceKindDto::File,
        exists: size.is_some(),
        size_bytes: size,
        service_id: None,
    }
}

/// A ring row for the supervised service `id`, shown as `display_name`.
pub fn ring_row(id: &String, display_name: &str) -> (r: LogSourceRowDto)
    ensures
        row_view(r) == ring_row_view(id@, display_name@),
{
    LogSourceRowDto {
        source: LogSourceDto::ServiceRing { id: id.clone() },
        label: concat(display_name, " output"),
        kind: LogSourceKindDto::Ring,
        exists: true,
        size_bytes: None,
        service_id: Some(id.clone()),
    }
}

/// An installed php-fpm major whose pool log is listed, with its log's size.
#[derive(Debug, Clone)]
pub struct PoolLog {
    pub major: String,
    pub size: Option<u64>,
}

/// A site from the store, with the sizes of its access and error logs.
#[derive(Debug, Clone)]
pub struct SiteLogs {
    pub domain: String,
    pub access_size: Option<u64>,
    pub error_size: Option<u64>,
}

/// A supervised service, by id and display name.
#[derive(Debug, Clone)]
pub struct ServiceName {
    pub id: String,
    pub display_name: String,
}

/// The rows for the php-fpm pools.
pub open spec fn pool_rows(pools: Seq<PoolLog>) -> Seq<RowView>
    decreases pools.len(),
{
    if pools.len() == 0 {
        Seq::empty()
    } else {
        let p = pools.last();
        pool_rows(pools.drop_last()).push(
            file_row_view(SourceView::PhpFpm { major: p.major@ }, "PHP "@ + p.major@ + " pool log"@, p.size),
        )
    }
}

/// The rows for the sites: access, then error, per site.
pub open spec fn site_rows(sites: Seq<SiteLogs>) -> Seq<RowView>
    decreases sites.len(),
{
    if sites.len() == 0 {
        Seq::empty()
    } else {
        let s = sites.last();
        site_rows(sites.drop_last()).push(
            file_row_view(
                SourceView::SiteAccess { domain: s.domain@ },
                s.domain@ + " access log"@,
                s.access_size,
            ),
        ).push(
            file_row_view(SourceView::SiteError { domain: s.domain@ }, s.domain@ + " error log"@, s.error_size),
        )
    }
}

/// The rows for the supervised services' rings.
pub open spec fn service_rows(services: Seq<ServiceName>) -> Seq<RowView>
    decreases services.len(),
{
    if services.len() == 0 {
        Seq::empty()
    } else {
        let s = services.last();
        service_rows(services.drop_last()).push(ring_row_view(s.id@, s.display_name@))
    }
}

/// The whole catalogue: nginx's error and access logs (always listed), one
/// row per installed php-fpm pool, two per site (only when the store is
/// available), and one ring row per supervised service.
pub open spec fn catalogue(
    nginx_error_size: Option<u64>,
    nginx_access_size: Option<u64>,
    pools: Seq<PoolLog>,
    sites: Option<Seq<SiteLogs>>,
    services: Seq<ServiceName>,
) -> Seq<RowView> {
    seq![
        file_row_view(SourceView::NginxError, "nginx error log"@, nginx_error_size),
        file_row_view(SourceView::NginxAccess, "nginx access log"@, nginx_access_size),
    ] + pool_rows(pools) + match sites {
        Some(s) => site_rows(s),
        None => Seq::empty(),
    } + service_rows(services)
}

/// Builds the log-source catalogue (see [`catalogue`]). `sites` is `None`
/// when the store is down: the catalogue then keeps every row the store was
/// not the source of.
pub fn log_source_rows(
    nginx_error_size: Option<u64>,
    nginx_access_size: Option<u64>,
    pools: &[PoolLog],
    sites: Option<&[SiteLogs]>,
    services: &[ServiceName],
) -> (r: Vec<LogSourceRowDto>)
    ensures
        r@.map_values(|x: LogSourceRowDto| row_view(x)) == catalogue(
            nginx_error_size,
            nginx_access_size,
            pools@,
            match sites {
                Some(s) => Some(s@),
                None => None,
            },
            services@,
        ),
{
    let mut rows: Vec<LogSourceRowDto> = Vec::new();
    rows.push(file_row(LogSourceDto::NginxError, String::from_str("nginx error log"), nginx_error_size));
    rows.push(
        file_row(LogSourceDto::NginxAccess, String::from_str("nginx access log"), nginx_access_size),
    );
    let ghost head = rows@.map_values(|x: LogSourceRowDto| row_view(x));
    assert(head =~= seq![
        file_row_view(SourceView::NginxError, "nginx error log"@, nginx_error_size),
        file_row_view(SourceView::NginxAccess, "nginx access log"@, nginx_access_size),
    ]);
    let mut k: usize = 0;
    while k < pools.len()
        invariant
            0 <= k <= pools@.len(),
            rows@.map_values(|x: LogSourceRowDto| row_view(x)) == head + pool_rows(
                pools@.take(k as int),
            ),
        decreases pools.len() - k,
    {
        let ghost before = rows@.map_values(|x: LogSourceRowDto| row_view(x));
        let mut label = concat("PHP ", pools[k].major.as_str());
        label.append(" pool log");
        rows.push(
            file_row(LogSourceDto::PhpFpm { major: pools[k].major.clone() }, label, pools[k].size),
        );
        assert(pools@.take(k + 1).drop_last() =~= pools@.take(k as int));
        assert(rows@.map_values(|x: LogSourceRowDto| row_view(x)) =~= before.push(
            row_view(rows@.last()),
        ));
        k += 1;
    }
    assert(pools@.take(pools@.len() as int) =~= pools@);
    let ghost with_pools = rows@.map_values(|x: LogSourceRowDto| row_view(x));
    match sites {
        Some(list) => {
            let mut j: usize = 0;
            while j < list.len()
                invariant
                    0 <= j <= list@.len(),
                    rows@.map_values(|x: LogSourceRowDto| row_view(x)) == with_pools + site_rows(
                        list@.take(j as int),
                    ),
                decreases list.len() - j,
            {
                let ghost before = rows@.map_values(|x: LogSourceRowDto| row_view(x));
                let site = &list[j];
                rows.push(
                    file_row(
                        LogSourceDto::SiteAccess { domain: site.domain.clone() },
                        concat(site.domain.as_str(), " access log"),
                        site.access_size,
                    ),
                );
                let ghost mid = rows@.map_values(|x: LogSourceRowDto| row_view(x));
                assert(mid =~= before.push(row_view(rows@.last())));
                rows.push(
                    file_row(
                        LogSourceDto::SiteError { domain: site.domain.clone() },
                        concat(site.domain.as_str(), " error log"),
                        site.error_size,
                    ),
                );
                assert(rows@.map_values(|x: LogSourceRowDto| row_view(x)) =~= mid.push(
                    row_view(rows@.last()),
                ));
                assert(list@.take(j + 1).drop_last() =~= list@.take(j as int));
                j += 1;
            }
            assert(list@.take(list@.len() as int) =~= list@);
        },
        None => {
            assert(with_pools + Seq::<RowView>::empty() =~= with_pools);
        },
    }
    let ghost with_sites = rows@.map_values(|x: LogSourceRowDto| row_view(x));
    let mut i: usize = 0;
    while i < services.len()
        invariant
            0 <= i <= services@.len(),
            rows@.map_values(|x: LogSourceRowDto| row_view(x)) == with_sites + service_rows(
                services@.take(i as int),
            ),
        decreases services.len() - i,
    {
        let ghost before = rows@.map_values(|x: LogSourceRowDto| row_view(x));
        rows.push(ring_row(&services[i].id, services[i].display_name.as_str()));
        assert(rows@.map_values(|x: LogSourceRowDto| row_view(x)) =~= before.push(
            row_view(rows@.last()),
        ));
        assert(services@.take(i + 1).drop_last() =~= services@.take(i as int));
        i += 1;
    }
    assert(services@.take(services@.len() as int) =~= services@);
    rows
}

} // verus!
