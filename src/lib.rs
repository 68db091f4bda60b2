//! Decision logic of a small action server: a lifecycle guard over one shared
//! resource (a base directory, or a browser session), a dispatcher that turns a
//! generic action envelope into a validated operation, and the mapping of each
//! operation's result to a uniform outcome envelope.


pub mod browser;
pub mod files;
pub mod outcome;
pub mod text;

use vstd::prelude::*;

verus! {

use crate::outcome::{Outcome, OutcomeKind, outcome_view, OutcomeView};

/// What the liveness probe reports.
pub open spec fn status_view() -> OutcomeView {
    outcome_view(OutcomeKind::Success, "Server is running"@, None)
}

/// Liveness probe: always a success, whatever the state of any resource.
pub fn status() -> (r: Outcome)
    ensures
        r@ == status_view(),
{
    Outcome::plain(OutcomeKind::Success, "Server is running")
}

} // verus!
