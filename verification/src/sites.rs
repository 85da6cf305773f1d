//! Sites as they cross IPC, and what scaffolding a site's folder achieved.
use vstd::prelude::*;
use crate::error::{ErrorView, IpcError};
use crate::text::concat;

verus! {

/// A site as it crosses IPC: plain strings.
#[derive(Debug, Clone)]
pub struct SiteDto {
    pub id: String,
    pub name: String,
    pub domain: String,
    pub docroot: String,
    pub web_server: String,
    pub php_version: String,
    pub enabled: bool,
    pub created_at: i64,
    pub updated_at: i64,
}

/// Client-supplied site fields. There is no id and no timestamps: those are
/// server-owned and never taken from the client.
#[derive(Debug, Clone)]
pub struct SiteInput {
    pub name: String,
    pub domain: String,
    pub docroot: String,
    pub web_server: String,
    pub php_version: String,
    pub enabled: bool,
}

/// Which step of scaffolding a site's folder failed.
#[derive(Debug, Clone, Copy, PartialEq, Eq, Structural)]
pub enum ScaffoldStepDto {
    CreateDir,
    Inspect,
    WritePlaceholder,
}

/// What scaffolding a site's folder achieved.
#[derive(Debug, Clone)]
pub enum ScaffoldOutcomeDto {
    Created,
    KeptExisting { existing: String },
    Failed { step: ScaffoldStepDto, reason: String },
}

/// The result of creating a site: the stored site, and what scaffolding did
/// (`None` when it was not requested, never a fourth outcome).
#[derive(Debug, Clone)]
pub struct CreateSiteResult {
    pub site: SiteDto,
    pub scaffold: Option<ScaffoldOutcomeDto>,
}

/// The refusal for a site id the store does not hold.
pub fn site_not_found(id: &str) -> (e: IpcError)
    ensures
        e@ == (ErrorView::Core { message: "site "@ + id@ + " not found"@ }),
{
    let mut message = concat("site ", id);
    message.append(" not found");
    IpcError::Core { message }
}

} // verus!
