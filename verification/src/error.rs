//! The error every command returns, and how the failures of the layers below
//! the command surface become one.
use vstd::prelude::*;

verus! {

/// The serializable command error: every command returns `Result<_, IpcError>`
/// and the UI renders failures.
#[derive(Debug, Clone)]
pub enum IpcError {
    /// Dev-only simulated failure used to exercise the UI error path.
    Simulated,
    /// An error bubbled up from the core layer.
    Core { message: String },
    /// An error bubbled up from the process supervisor.
    Proc { message: String },
    /// A domain value failed validation; `field` names the offending input so
    /// the UI can mark it instead of showing a generic banner.
    Validation { field: String, message: String },
}

/// An [`IpcError`] with its strings taken as character sequences.
pub enum ErrorView {
    Simulated,
    Core { message: Seq<char> },
    Proc { message: Seq<char> },
    Validation { field: Seq<char>, message: Seq<char> },
}

impl View for IpcError {
    type V = ErrorView;

    open spec fn view(&self) -> ErrorView {
        match self {
            IpcError::Simulated => ErrorView::Simulated,
            IpcError::Core { message } => ErrorView::Core { message: message@ },
            IpcError::Proc { message } => ErrorView::Proc { message: message@ },
            IpcError::Validation { field, message } => ErrorView::Validation {
                field: field@,
                message: message@,
            },
        }
    }
}

/// The sentence a user is shown for `e`.
pub open spec fn error_text(e: ErrorView) -> Seq<char> {
    match e {
        ErrorView::Simulated => "simulated failure (dev only)"@,
        ErrorView::Core { message } => message,
        ErrorView::Proc { message } => message,
        ErrorView::Validation { message, .. } => message,
    }
}

impl IpcError {
    /// The sentence a user is shown for this error.
    pub fn text(&self) -> (r: String)
        ensures
            r@ == error_text(self@),
    {
        match self {
            IpcError::Simulated => String::from_str("simulated failure (dev only)"),
            IpcError::Core { message } => message.clone(),
            IpcError::Proc { message } => message.clone(),
            IpcError::Validation { message, .. } => message.clone(),
        }
    }
}

/// A `Validation` error naming `field`.
pub fn validation(field: &str, message: String) -> (e: IpcError)
    ensures
        e@ == (ErrorView::Validation { field: field@, message: message@ }),
{
    IpcError::Validation { field: String::from_str(field), message }
}

/// A `Core` error carrying `message`.
pub fn core_error(message: String) -> (e: IpcError)
    ensures
        e@ == (ErrorView::Core { message: message@ }),
{
    IpcError::Core { message }
}

// ---------------------------------------------------------------------------
// Failures of the layers below
// ---------------------------------------------------------------------------

/// How `value` reads under Rust's `Debug` formatting of a string: quoted, with
/// quotes, backslashes and control characters escaped.
pub uninterp spec fn debug_text(value: Seq<char>) -> Seq<char>;

/// `format!("{value:?}")`. Claims only that the result is the `Debug`
/// rendering of `value`, named by [`debug_text`].
#[verifier::external_body]
pub(crate) fn debug_quote(value: &str) -> (r: String)
    ensures
        r@ == debug_text(value@),
{
    format!("{value:?}")
}

/// How `e` reads under its derived `Debug` formatting: the variant's name,
/// then, in braces, each field as its name, `: ` and its quoted value.
pub open spec fn error_debug_text(e: ErrorView) -> Seq<char> {
    match e {
        ErrorView::Simulated => "Simulated"@,
        ErrorView::Core { message } => "Core { message: "@ + debug_text(message) + " }"@,
        ErrorView::Proc { message } => "Proc { message: "@ + debug_text(message) + " }"@,
        ErrorView::Validation { field, message } => "Validation { field: "@ + debug_text(field)
            + ", message: "@ + debug_text(message) + " }"@,
    }
}

impl IpcError {
    /// This error as its derived `Debug` formatting renders it (see
    /// [`error_debug_text`]).
    pub fn debug_string(&self) -> (r: String)
        ensures
            r@ == error_debug_text(self@),
    {
        match self {
            IpcError::Simulated => String::from_str("Simulated"),
            IpcError::Core { message } => {
                let mut r = String::from_str("Core { message: ");
                r.append(debug_quote(message.as_str()).as_str());
                r.append(" }");
                r
            },
            IpcError::Proc { message } => {
                let mut r = String::from_str("Proc { message: ");
                r.append(debug_quote(message.as_str()).as_str());
                r.append(" }");
                r
            },
            IpcError::Validation { field, message } => {
                let mut r = String::from_str("Validation { field: ");
                r.append(debug_quote(field.as_str()).as_str());
                r.append(", message: ");
                r.append(debug_quote(message.as_str()).as_str());
                r.append(" }");
                r
            },
        }
    }
}

/// What the command layer reads of a configuration-layer failure: a setting
/// the form can mark (`InvalidField`), or anything else, already rendered.
#[derive(Debug, Clone)]
pub enum ConfFailure {
    InvalidField { field: String, value: String, reason: String },
    Other { message: String },
}

/// What the command layer reads of a core-layer failure: a validation failure
/// naming its field, or anything else, already rendered.
#[derive(Debug, Clone)]
pub enum CoreFailure {
    Validation { field: String, reason: String },
    Other { message: String },
}

/// The error a configuration-layer failure becomes.
pub open spec fn conf_error(f: ConfFailure) -> ErrorView {
    match f {
        ConfFailure::InvalidField { field, value, reason } => ErrorView::Validation {
            field: field@,
            message: debug_text(value@) + " "@ + reason@,
        },
        ConfFailure::Other { message } => ErrorView::Core { message: message@ },
    }
}

/// A rejected setting becomes a field-shaped error the form can mark (the
/// offending value quoted, then the reason); anything else becomes a banner.
pub fn from_conf_failure(f: ConfFailure) -> (e: IpcError)
    ensures
        e@ == conf_error(f),
{
    match f {
        ConfFailure::InvalidField { field, value, reason } => {
            let mut message = debug_quote(value.as_str());
            message.append(" ");
            message.append(reason.as_str());
            IpcError::Validation { field, message }
        },
        ConfFailure::Other { message } => IpcError::Core { message },
    }
}

/// A core validation failure keeps its field and reason; anything else
/// becomes a banner.
pub fn from_core_failure(f: CoreFailure) -> (e: IpcError)
    ensures
        match f {
            CoreFailure::Validation { field, reason } => e@ == (ErrorView::Validation {
                field: field@,
                message: reason@,
            }),
            CoreFailure::Other { message } => e@ == (ErrorView::Core { message: message@ }),
        },
{
    match f {
        CoreFailure::Validation { field, reason } => IpcError::Validation { field, message: reason },
        CoreFailure::Other { message } => IpcError::Core { message },
    }
}

/// A core validation failure re-labelled to name `field` (the column the
/// value is stored in) rather than the newtype's own field name; anything
/// else converts as [`from_core_failure`] does.
pub fn relabel_core_failure(f: CoreFailure, field: &str) -> (e: IpcError)
    ensures
        match f {
            CoreFailure::Validation { reason, .. } => e@ == (ErrorView::Validation {
                field: field@,
                message: reason@,
            }),
            CoreFailure::Other { message } => e@ == (ErrorView::Core { message: message@ }),
        },
{
    match f {
        CoreFailure::Validation { reason, .. } => validation(field, reason),
        CoreFailure::Other { message } => IpcError::Core { message },
    }
}

} // verus!
