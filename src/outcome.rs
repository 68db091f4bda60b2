//! The uniform response envelope that every operation ends in.
use vstd::prelude::*;
use vstd::string::*;

verus! {

/// How an operation ended: one success kind and the error kinds of the
/// taxonomy (missing input, resource not ready, missing path, failed I/O,
/// unknown action, no open page).
#[derive(Clone, Copy, Debug, PartialEq, Eq, Structural)]
pub enum OutcomeKind {
    Success,
    InvalidInput,
    NotReady,
    NotFound,
    IoError,
    Unsupported,
    NoPagesOpen,
}

/// A response envelope: its kind, a human-readable message and an optional
/// payload.
#[derive(Debug)]
pub struct Outcome {
    pub kind: OutcomeKind,
    pub message: String,
    pub data: Option<String>,
}

/// The mathematical value of an [`Outcome`].
pub struct OutcomeView {
    pub kind: OutcomeKind,
    pub message: Seq<char>,
    pub data: Option<Seq<char>>,
}

pub open spec fn outcome_view(
    kind: OutcomeKind,
    message: Seq<char>,
    data: Option<Seq<char>>,
) -> OutcomeView {
    OutcomeView { kind, message, data }
}

pub open spec fn opt_view(o: Option<String>) -> Option<Seq<char>> {
    match o {
        Some(s) => Some(s@),
        None => None,
    }
}

/// The `status` field of the wire envelope.
pub open spec fn status_text(kind: OutcomeKind) -> Seq<char> {
    if kind == OutcomeKind::Success {
        "success"@
    } else {
        "error"@
    }
}

impl View for Outcome {
    type V = OutcomeView;

    open spec fn view(&self) -> OutcomeView {
        outcome_view(self.kind, self.message@, opt_view(self.data))
    }
}

impl Outcome {
    /// An outcome without payload whose message is `message`.
    pub fn plain(kind: OutcomeKind, message: &str) -> (r: Outcome)
        ensures
            r@ == outcome_view(kind, message@, None),
    {
        Outcome { kind, message: String::from_str(message), data: None }
    }

    /// An outcome without payload whose message is `prefix` followed by `detail`.
    pub fn tagged(kind: OutcomeKind, prefix: &str, detail: &str) -> (r: Outcome)
        ensures
            r@ == outcome_view(kind, prefix@ + detail@, None),
    {
        let mut message = String::from_str(prefix);
        message.append(detail);
        Outcome { kind, message, data: None }
    }

    pub fn is_success(&self) -> (r: bool)
        ensures
            r == (self.kind == OutcomeKind::Success),
    {
        self.kind == OutcomeKind::Success
    }

    /// `"success"` or `"error"`, as the wire envelope writes it.
    pub fn status(&self) -> (r: &'static str)
        ensures
            r@ == status_text(self.kind),
    {
        if self.is_success() {
            "success"
        } else {
            "error"
        }
    }
}

} // verus!
