//! The managed store handle: a store that opened, or the reason it did not.
use vstd::prelude::*;
use crate::error::{ErrorView, IpcError, debug_text, error_debug_text};
use crate::text::{concat, contains, contains_str};

verus! {

/// The reason a test's store is down: a sentinel no other string can collide
/// with, in the shape of sqlite's real "unable to open database file".
pub const STORE_DOWN_REASON: &'static str = "openvhost-test-sentinel: unable to open database file (os error 14)";

/// The shared sentence naming what is unavailable when the store is down.
pub const STORE_UNAVAILABLE: &'static str = "the state database (state.db) is unavailable";

/// The managed store: one that opened, or the reason it did not.
pub enum DbHandle<D> {
    Ready(D),
    Unavailable { reason: String },
}

/// The refusal shown when the store is down: the shared sentence, then the
/// reason.
pub open spec fn unavailable_text(reason: Seq<char>) -> Seq<char> {
    STORE_UNAVAILABLE@ + ": "@ + reason
}

/// The refusal shown when the store is down, carrying `reason`.
pub fn unavailable_message(reason: &str) -> (r: String)
    ensures
        r@ == unavailable_text(reason@),
{
    let mut r = String::from_str(STORE_UNAVAILABLE);
    r.append(": ");
    r.append(reason);
    r
}

impl<D> DbHandle<D> {
    /// The store, or a `Core` refusal that names the store and carries the
    /// reason it is down.
    pub fn require(&self) -> (r: Result<&D, IpcError>)
        ensures
            match self {
                DbHandle::Ready(d) => r == Ok::<&D, IpcError>(d),
                DbHandle::Unavailable { reason } => r matches Err(e)
                    && e@ == (ErrorView::Core { message: unavailable_text(reason@) }),
            },
    {
        match self {
            DbHandle::Ready(d) => Ok(d),
            DbHandle::Unavailable { reason } => Err(
                IpcError::Core { message: unavailable_message(reason.as_str()) },
            ),
        }
    }

    /// The store if it opened; `None` if it did not.
    pub fn optional(&self) -> (r: Option<&D>)
        ensures
            match self {
                DbHandle::Ready(d) => r == Some(d),
                DbHandle::Unavailable { .. } => r is None,
            },
    {
        match self {
            DbHandle::Ready(d) => Some(d),
            DbHandle::Unavailable { .. } => None,
        }
    }
}

/// A handle for a store that failed to open, carrying [`STORE_DOWN_REASON`].
pub fn store_down<D>() -> (h: DbHandle<D>)
    ensures
        h matches DbHandle::Unavailable { reason } && reason@ == STORE_DOWN_REASON@,
{
    DbHandle::Unavailable { reason: String::from_str(STORE_DOWN_REASON) }
}

/// `e` is a command's typed store refusal: a `Core` error that carries the
/// reason the store is down, names `state.db`, and never tells a user to call
/// a Rust API.
pub open spec fn is_store_refusal(e: ErrorView) -> bool {
    &&& e is Core
    &&& contains(e->Core_message, STORE_DOWN_REASON@)
    &&& contains(e->Core_message, "state.db"@)
    &&& !contains(e->Core_message, ".manage()"@)
}

/// Checks that `err` is a command's typed store refusal (see
/// [`is_store_refusal`]); on failure, says which claim broke, prefixed with
/// `what`, the command under test.
pub fn assert_store_refusal(err: &IpcError, what: &str) -> (r: Result<(), String>)
    ensures
        r is Ok <==> is_store_refusal(err@),
        r matches Err(m) ==> (!(err@ is Core) ==> m@ == what@
            + ": expected IpcError::Core, got "@ + error_debug_text(err@)),
        r matches Err(m) ==> (err@ matches ErrorView::Core { message } ==> m@ == what@ + (if !contains(
            message,
            STORE_DOWN_REASON@,
        ) {
            ": the refusal must carry the reason the store is unavailable, got "@
        } else if !contains(message, "state.db"@) {
            ": the refusal must name what is unavailable, got "@
        } else {
            ": a user must never be told to call a Rust API, got "@
        }) + debug_text(message)),
{
    let message = match err {
        IpcError::Core { message } => message,
        _ => {
            let mut m = concat(what, ": expected IpcError::Core, got ");
            m.append(err.debug_string().as_str());
            return Err(m);
        },
    };
    let claim = if !contains_str(message.as_str(), STORE_DOWN_REASON) {
        ": the refusal must carry the reason the store is unavailable, got "
    } else if !contains_str(message.as_str(), "state.db") {
        ": the refusal must name what is unavailable, got "
    } else if contains_str(message.as_str(), ".manage()") {
        ": a user must never be told to call a Rust API, got "
    } else {
        return Ok(());
    };
    let mut m = concat(what, claim);
    m.append(crate::error::debug_quote(message.as_str()).as_str());
    Err(m)
}

} // verus!
