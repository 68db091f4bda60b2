//! The browser service: a lazily launched browser session, and the three page
//! actions dispatched against it. The engine itself is driven by the caller;
//! this module decides what to do and what to answer.
use vstd::prelude::*;
use vstd::string::*;

use crate::outcome::{opt_view, outcome_view, Outcome, OutcomeKind, OutcomeView};
use crate::text::{eq_ignore_ascii_case, matches_ignore_ascii_case};

verus! {

/// The actions that the browser service understands.
#[derive(Clone, Copy, Debug, PartialEq, Eq, Structural)]
pub enum BrowserAction {
    Navigate,
    Click,
    Type,
}

/// The action that `name` denotes, if any; names are matched without regard
/// to ASCII case.
pub open spec fn browser_action_of(name: Seq<char>) -> Option<BrowserAction> {
    if eq_ignore_ascii_case(name, "navigate"@) {
        Some(BrowserAction::Navigate)
    } else if eq_ignore_ascii_case(name, "click"@) {
        Some(BrowserAction::Click)
    } else if eq_ignore_ascii_case(name, "type"@) {
        Some(BrowserAction::Type)
    } else {
        None
    }
}

pub fn parse_browser_action(name: &str) -> (r: Option<BrowserAction>)
    ensures
        r == browser_action_of(name@),
{
    if matches_ignore_ascii_case(name, "navigate") {
        Some(BrowserAction::Navigate)
    } else if matches_ignore_ascii_case(name, "click") {
        Some(BrowserAction::Click)
    } else if matches_ignore_ascii_case(name, "type") {
        Some(BrowserAction::Type)
    } else {
        None
    }
}

/// An action envelope of the browser service.
#[derive(Debug)]
pub struct BrowserRequest {
    pub action: String,
    pub url: Option<String>,
    pub selector: Option<String>,
    pub text: Option<String>,
}

pub struct BrowserRequestView {
    pub action: Seq<char>,
    pub url: Option<Seq<char>>,
    pub selector: Option<Seq<char>>,
    pub text: Option<Seq<char>>,
}

impl View for BrowserRequest {
    type V = BrowserRequestView;

    open spec fn view(&self) -> BrowserRequestView {
        BrowserRequestView {
            action: self.action@,
            url: opt_view(self.url),
            selector: opt_view(self.selector),
            text: opt_view(self.text),
        }
    }
}

/// A validated page command.
#[derive(Debug)]
pub enum BrowserCommand {
    Navigate { url: String },
    Click { selector: String },
    Type { selector: String, text: String },
}

pub enum BrowserCommandView {
    Navigate { url: Seq<char> },
    Click { selector: Seq<char> },
    Type { selector: Seq<char>, text: Seq<char> },
}

impl View for BrowserCommand {
    type V = BrowserCommandView;

    open spec fn view(&self) -> BrowserCommandView {
        match self {
            BrowserCommand::Navigate { url } => BrowserCommandView::Navigate { url: url@ },
            BrowserCommand::Click { selector } => BrowserCommandView::Click {
                selector: selector@,
            },
            BrowserCommand::Type { selector, text } => BrowserCommandView::Type {
                selector: selector@,
                text: text@,
            },
        }
    }
}

/// What the dispatcher decided: answer at once, or run one command.
#[derive(Debug)]
pub enum BrowserPlan {
    Respond(Outcome),
    Perform(BrowserCommand),
}

pub enum BrowserPlanView {
    Respond(OutcomeView),
    Perform(BrowserCommandView),
}

impl View for BrowserPlan {
    type V = BrowserPlanView;

    open spec fn view(&self) -> BrowserPlanView {
        match self {
            BrowserPlan::Respond(o) => BrowserPlanView::Respond(o@),
            BrowserPlan::Perform(c) => BrowserPlanView::Perform(c@),
        }
    }
}

pub open spec fn not_ready_view() -> OutcomeView {
    outcome_view(OutcomeKind::NotReady, "Browser not initialized"@, None)
}

pub open spec fn missing_field(message: Seq<char>) -> BrowserPlanView {
    BrowserPlanView::Respond(outcome_view(OutcomeKind::InvalidInput, message, None))
}

/// The dispatcher's decision for `req`, where `ready` tells whether a browser
/// session is open. Readiness is checked before the action is even looked at.
pub open spec fn browser_plan_of(ready: bool, req: BrowserRequestView) -> BrowserPlanView {
    if !ready {
        BrowserPlanView::Respond(not_ready_view())
    } else {
        match browser_action_of(req.action) {
            None => BrowserPlanView::Respond(
                outcome_view(OutcomeKind::Unsupported, "Unsupported action: "@ + req.action, None),
            ),
            Some(BrowserAction::Navigate) => match req.url {
                Some(u) => BrowserPlanView::Perform(BrowserCommandView::Navigate { url: u }),
                None => missing_field("URL is required for navigation"@),
            },
            Some(BrowserAction::Click) => match req.selector {
                Some(s) => BrowserPlanView::Perform(BrowserCommandView::Click { selector: s }),
                None => missing_field("Selector is required for clicking"@),
            },
            Some(BrowserAction::Type) => match (req.selector, req.text) {
                (Some(s), Some(t)) => BrowserPlanView::Perform(
                    BrowserCommandView::Type { selector: s, text: t },
                ),
                _ => missing_field("Selector and text are required for typing"@),
            },
        }
    }
}

pub fn plan_browser_action(ready: bool, req: &BrowserRequest) -> (r: BrowserPlan)
    ensures
        r@ == browser_plan_of(ready, req@),
{
    if !ready {
        return BrowserPlan::Respond(
            Outcome::plain(OutcomeKind::NotReady, "Browser not initialized"),
        );
    }
    match parse_browser_action(req.action.as_str()) {
        None => BrowserPlan::Respond(
            Outcome::tagged(OutcomeKind::Unsupported, "Unsupported action: ", req.action.as_str()),
        ),
        Some(BrowserAction::Navigate) => match &req.url {
            Some(u) => BrowserPlan::Perform(BrowserCommand::Navigate { url: u.clone() }),
            None => BrowserPlan::Respond(
                Outcome::plain(OutcomeKind::InvalidInput, "URL is required for navigation"),
            ),
        },
        Some(BrowserAction::Click) => match &req.selector {
            Some(s) => BrowserPlan::Perform(BrowserCommand::Click { selector: s.clone() }),
            None => BrowserPlan::Respond(
                Outcome::plain(OutcomeKind::InvalidInput, "Selector is required for clicking"),
            ),
        },
        Some(BrowserAction::Type) => match (&req.selector, &req.text) {
            (Some(s), Some(t)) => BrowserPlan::Perform(
                BrowserCommand::Type { selector: s.clone(), text: t.clone() },
            ),
            _ => BrowserPlan::Respond(
                Outcome::plain(
                    OutcomeKind::InvalidInput,
                    "Selector and text are required for typing",
                ),
            ),
        },
    }
}

/// Why a page command failed: the fresh context had no page, or a step of the
/// engine failed with the given description.
#[derive(Debug)]
pub enum BrowserFailure {
    NoPagesOpen,
    Engine(String),
}

pub enum BrowserFailureView {
    NoPagesOpen,
    Engine(Seq<char>),
}

impl View for BrowserFailure {
    type V = BrowserFailureView;

    open spec fn view(&self) -> BrowserFailureView {
        match self {
            BrowserFailure::NoPagesOpen => BrowserFailureView::NoPagesOpen,
            BrowserFailure::Engine(e) => BrowserFailureView::Engine(e@),
        }
    }
}

pub open spec fn command_outcome_of(
    cmd: BrowserCommandView,
    failure: Option<BrowserFailureView>,
) -> OutcomeView {
    match failure {
        Some(BrowserFailureView::NoPagesOpen) => outcome_view(
            OutcomeKind::NoPagesOpen,
            "No pages open"@,
            None,
        ),
        Some(BrowserFailureView::Engine(e)) => outcome_view(
            OutcomeKind::IoError,
            "Browser operation failed: "@ + e,
            None,
        ),
        None => match cmd {
            BrowserCommandView::Navigate { url } => outcome_view(
                OutcomeKind::Success,
                "Navigated to: "@ + url,
                None,
            ),
            BrowserCommandView::Click { selector } => outcome_view(
                OutcomeKind::Success,
                "Clicked element: "@ + selector,
                None,
            ),
            BrowserCommandView::Type { selector, .. } => outcome_view(
                OutcomeKind::Success,
                "Typed text into: "@ + selector,
                None,
            ),
        },
    }
}

/// The outcome of running `cmd`, given how it ended.
pub fn command_outcome(cmd: &BrowserCommand, result: Result<(), BrowserFailure>) -> (r: Outcome)
    ensures
        r@ == command_outcome_of(
            cmd@,
            match result {
                Ok(_) => None,
                Err(f) => Some(f@),
            },
        ),
{
    match result {
        Err(BrowserFailure::NoPagesOpen) => Outcome::plain(OutcomeKind::NoPagesOpen, "No pages open"),
        Err(BrowserFailure::Engine(e)) => Outcome::tagged(
            OutcomeKind::IoError,
            "Browser operation failed: ",
            e.as_str(),
        ),
        Ok(_) => match cmd {
            BrowserCommand::Navigate { url } => Outcome::tagged(
                OutcomeKind::Success,
                "Navigated to: ",
                url.as_str(),
            ),
            BrowserCommand::Click { selector } => Outcome::tagged(
                OutcomeKind::Success,
                "Clicked element: ",
                selector.as_str(),
            ),
            BrowserCommand::Type { selector, .. } => Outcome::tagged(
                OutcomeKind::Success,
                "Typed text into: ",
                selector.as_str(),
            ),
        },
    }
}

pub open spec fn already_initialized_view() -> OutcomeView {
    outcome_view(OutcomeKind::Success, "Browser already initialized"@, None)
}

pub open spec fn initialized_view() -> OutcomeView {
    outcome_view(OutcomeKind::Success, "Browser initialized"@, None)
}

/// The first step of an initialization request: answer at once, or launch.
#[derive(Debug)]
pub enum InitStep {
    AlreadyReady(Outcome),
    Launch,
}

pub enum InitStepView {
    AlreadyReady(OutcomeView),
    Launch,
}

impl View for InitStep {
    type V = InitStepView;

    open spec fn view(&self) -> InitStepView {
        match self {
            InitStep::AlreadyReady(o) => InitStepView::AlreadyReady(o@),
            InitStep::Launch => InitStepView::Launch,
        }
    }
}

/// An open session is never launched again; only an absent one is.
pub open spec fn init_step_of(ready: bool) -> InitStepView {
    if ready {
        InitStepView::AlreadyReady(already_initialized_view())
    } else {
        InitStepView::Launch
    }
}

/// The slot after a launch that ended in `launched`: an open session is kept,
/// an absent one takes the new handle, and a failed launch leaves it absent.
pub open spec fn slot_after_launch<H>(slot: Option<H>, launched: Result<H, Seq<char>>) -> Option<H> {
    match slot {
        Some(h) => Some(h),
        None => match launched {
            Ok(h) => Some(h),
            Err(_) => None,
        },
    }
}

/// The answer to a launch that ended in `launched`; `Err` is an
/// infrastructure failure carrying the engine's description.
pub open spec fn launch_outcome_of<H>(slot: Option<H>, launched: Result<H, Seq<char>>) -> Result<OutcomeView, Seq<char>> {
    match slot {
        Some(_) => Ok(already_initialized_view()),
        None => match launched {
            Ok(_) => Ok(initialized_view()),
            Err(e) => Err(e),
        },
    }
}

/// The lifecycle guard of the browser service: one slot that holds the
/// handle of the launched engine and browser, or nothing. The handle is
/// stored whole, so the slot is never half filled.
#[derive(Debug)]
pub struct BrowserSession<H> {
    slot: Option<H>,
}

impl<H> View for BrowserSession<H> {
    type V = Option<H>;

    closed spec fn view(&self) -> Option<H> {
        self.slot
    }
}

impl<H> BrowserSession<H> {
    pub fn new() -> (r: BrowserSession<H>)
        ensures
            r@ is None,
    {
        BrowserSession { slot: None }
    }

    pub fn is_ready(&self) -> (r: bool)
        ensures
            r == self@ is Some,
    {
        self.slot.is_some()
    }

    /// The open session's handle, if any.
    pub fn handle(&self) -> (r: Option<&H>)
        ensures
            r == match self@ {
                Some(h) => Some(&h),
                None => None::<&H>,
            },
    {
        match &self.slot {
            Some(h) => Some(h),
            None => None,
        }
    }

    /// Whether an initialization request has to launch a browser.
    pub fn begin_initialize(&self) -> (r: InitStep)
        ensures
            r@ == init_step_of(self@ is Some),
    {
        if self.slot.is_some() {
            InitStep::AlreadyReady(Outcome::plain(OutcomeKind::Success, "Browser already initialized"))
        } else {
            InitStep::Launch
        }
    }

    /// Records how a launch ended. A session that is already open is kept and
    /// the new handle is dropped; a failed launch leaves the slot empty, so a
    /// later request may try again.
    pub fn complete_initialize(&mut self, launched: Result<H, String>) -> (r: Result<Outcome, String>)
        ensures
            final(self)@ == slot_after_launch(old(self)@, launched_view(launched)),
            match (r, launch_outcome_of(old(self)@, launched_view(launched))) {
                (Ok(o), Ok(v)) => o@ == v,
                (Err(e), Err(v)) => e@ == v,
                _ => false,
            },
    {
        if self.slot.is_some() {
            return Ok(Outcome::plain(OutcomeKind::Success, "Browser already initialized"));
        }
        match launched {
            Ok(h) => {
                self.slot = Some(h);
                Ok(Outcome::plain(OutcomeKind::Success, "Browser initialized"))
            },
            Err(e) => Err(e),
        }
    }

    /// Dispatches `req` against this session.
    pub fn plan(&self, req: &BrowserRequest) -> (r: BrowserPlan)
        ensures
            r@ == browser_plan_of(self@ is Some, req@),
    {
        plan_browser_action(self.slot.is_some(), req)
    }
}

pub open spec fn launched_view<H>(launched: Result<H, String>) -> Result<H, Seq<char>> {
    match launched {
        Ok(h) => Ok(h),
        Err(e) => Err(e@),
    }
}

/// Initializing twice never launches a second browser: whatever the slot
/// held, once one initialization has succeeded the next one is answered as
/// already initialized, and any launch result handed in later changes nothing.
pub proof fn lemma_initialize_idempotent<H>(slot: Option<H>, first: H, later: Result<H, Seq<char>>)
    ensures
        ({
            let after = match init_step_of(slot is Some) {
                InitStepView::Launch => slot_after_launch(slot, Ok(first)),
                InitStepView::AlreadyReady(_) => slot,
            };
            &&& after is Some
            &&& init_step_of(after is Some) == InitStepView::AlreadyReady(already_initialized_view())
            &&& slot_after_launch(after, later) == after
            &&& launch_outcome_of(after, later) == Ok::<OutcomeView, Seq<char>>(already_initialized_view())
        }),
{
}

/// Before initialization every request, whatever its action and fields, is
/// answered as not initialized and yields no command for the engine.
pub proof fn lemma_not_ready_guard(req: BrowserRequestView)
    ensures
        browser_plan_of(false, req) == BrowserPlanView::Respond(not_ready_view()),
{
}

/// On an open session an unknown action is answered with an
/// unsupported-action outcome naming it, and yields no command.
pub proof fn lemma_unknown_browser_action(req: BrowserRequestView)
    requires
        browser_action_of(req.action) is None,
    ensures
        browser_plan_of(true, req) == BrowserPlanView::Respond(
            outcome_view(OutcomeKind::Unsupported, "Unsupported action: "@ + req.action, None),
        ),
{
}

} // verus!
