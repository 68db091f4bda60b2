use action_server::browser::{
    command_outcome, parse_browser_action, plan_browser_action, BrowserAction, BrowserCommand,
    BrowserFailure, BrowserPlan, BrowserRequest, BrowserSession, InitStep,
};
use action_server::outcome::OutcomeKind;
use action_server::status;

fn request(action: &str, url: Option<&str>, selector: Option<&str>, text: Option<&str>) -> BrowserRequest {
    BrowserRequest {
        action: action.to_string(),
        url: url.map(|s| s.to_string()),
        selector: selector.map(|s| s.to_string()),
        text: text.map(|s| s.to_string()),
    }
}

fn responded(plan: BrowserPlan) -> (OutcomeKind, String) {
    match plan {
        BrowserPlan::Respond(o) => (o.kind, o.message),
        other => panic!("unexpected plan {:?}", other),
    }
}

#[test]
fn status_reports_running() {
    let o = status();
    assert_eq!(o.kind, OutcomeKind::Success);
    assert_eq!(o.status(), "success");
    assert_eq!(o.message, "Server is running");
    assert!(o.data.is_none());
}

#[test]
fn initialize_twice_launches_once() {
    let mut s: BrowserSession<u32> = BrowserSession::new();
    assert!(!s.is_ready());
    assert!(matches!(s.begin_initialize(), InitStep::Launch));
    let first = s.complete_initialize(Ok(1)).unwrap();
    assert_eq!(first.kind, OutcomeKind::Success);
    assert_eq!(first.message, "Browser initialized");
    assert!(s.is_ready());
    match s.begin_initialize() {
        InitStep::AlreadyReady(o) => {
            assert_eq!(o.kind, OutcomeKind::Success);
            assert_eq!(o.message, "Browser already initialized");
        }
        InitStep::Launch => panic!("a second launch was asked for"),
    }
    let again = s.complete_initialize(Ok(2)).unwrap();
    assert_eq!(again.message, "Browser already initialized");
    assert_eq!(s.handle(), Some(&1));
}

#[test]
fn failed_launch_leaves_slot_empty() {
    let mut s: BrowserSession<u32> = BrowserSession::new();
    assert_eq!(s.complete_initialize(Err("no executable".to_string())).unwrap_err(), "no executable");
    assert!(!s.is_ready());
    assert_eq!(s.handle(), None);
    assert!(matches!(s.begin_initialize(), InitStep::Launch));
    assert!(s.complete_initialize(Ok(7)).is_ok());
    assert_eq!(s.handle(), Some(&7));
}

#[test]
fn not_ready_guard_answers_every_action() {
    let s: BrowserSession<u32> = BrowserSession::new();
    for req in [
        request("navigate", Some("https://example.com"), None, None),
        request("click", None, Some("#go"), None),
        request("type", None, Some("#q"), Some("hi")),
        request("frobnicate", None, None, None),
    ] {
        let (kind, message) = responded(s.plan(&req));
        assert_eq!(kind, OutcomeKind::NotReady);
        assert_eq!(message, "Browser not initialized");
    }
}

#[test]
fn unknown_browser_action_is_unsupported() {
    let (kind, message) = responded(plan_browser_action(true, &request("frobnicate", None, None, None)));
    assert_eq!(kind, OutcomeKind::Unsupported);
    assert_eq!(message, "Unsupported action: frobnicate");
}

#[test]
fn browser_actions_need_their_fields() {
    let cases = [
        (request("navigate", None, Some("s"), Some("t")), "URL is required for navigation"),
        (request("click", Some("u"), None, None), "Selector is required for clicking"),
        (request("type", None, Some("s"), None), "Selector and text are required for typing"),
        (request("type", None, None, Some("t")), "Selector and text are required for typing"),
    ];
    for (req, expected) in cases {
        let (kind, message) = responded(plan_browser_action(true, &req));
        assert_eq!(kind, OutcomeKind::InvalidInput);
        assert_eq!(message, expected);
    }
}

#[test]
fn ready_session_plans_commands() {
    let mut s: BrowserSession<u32> = BrowserSession::new();
    s.complete_initialize(Ok(3)).unwrap();
    match s.plan(&request("NAVIGATE", Some("https://example.com"), None, None)) {
        BrowserPlan::Perform(BrowserCommand::Navigate { url }) => assert_eq!(url, "https://example.com"),
        other => panic!("unexpected plan {:?}", other),
    }
    match s.plan(&request("Type", None, Some("#q"), Some("rust"))) {
        BrowserPlan::Perform(BrowserCommand::Type { selector, text }) => {
            assert_eq!((selector.as_str(), text.as_str()), ("#q", "rust"));
        }
        other => panic!("unexpected plan {:?}", other),
    }
}

#[test]
fn browser_action_names() {
    assert_eq!(parse_browser_action("click"), Some(BrowserAction::Click));
    assert_eq!(parse_browser_action("CLICK"), Some(BrowserAction::Click));
    assert_eq!(parse_browser_action("type"), Some(BrowserAction::Type));
    assert_eq!(parse_browser_action("clicks"), None);
}

#[test]
fn command_outcomes() {
    let nav = BrowserCommand::Navigate { url: "https://example.com".to_string() };
    let o = command_outcome(&nav, Ok(()));
    assert_eq!(o.kind, OutcomeKind::Success);
    assert_eq!(o.message, "Navigated to: https://example.com");
    let click = BrowserCommand::Click { selector: "#go".to_string() };
    assert_eq!(command_outcome(&click, Ok(())).message, "Clicked element: #go");
    let typed = BrowserCommand::Type { selector: "#q".to_string(), text: "x".to_string() };
    assert_eq!(command_outcome(&typed, Ok(())).message, "Typed text into: #q");
    let none = command_outcome(&click, Err(BrowserFailure::NoPagesOpen));
    assert_eq!(none.kind, OutcomeKind::NoPagesOpen);
    assert_eq!(none.message, "No pages open");
    let failed = command_outcome(&typed, Err(BrowserFailure::Engine("timeout".to_string())));
    assert_eq!(failed.kind, OutcomeKind::IoError);
    assert_eq!(failed.status(), "error");
    assert_eq!(failed.message, "Browser operation failed: timeout");
}
