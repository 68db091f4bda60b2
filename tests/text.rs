use action_server::outcome::{Outcome, OutcomeKind};
use action_server::text::matches_ignore_ascii_case;

#[test]
fn ascii_case_is_ignored() {
    assert!(matches_ignore_ascii_case("Read_File", "read_file"));
    assert!(matches_ignore_ascii_case("", ""));
    assert!(!matches_ignore_ascii_case("read", "read_file"));
    assert!(!matches_ignore_ascii_case("réad", "read"));
    assert!(!matches_ignore_ascii_case("[", "{"));
}

#[test]
fn tagged_outcome_joins_prefix_and_detail() {
    let o = Outcome::tagged(OutcomeKind::NotFound, "Path does not exist: ", "/x");
    assert_eq!(o.message, "Path does not exist: /x");
    assert!(!o.is_success());
    assert!(Outcome::plain(OutcomeKind::Success, "ok").is_success());
}
