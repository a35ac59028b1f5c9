use acorns::config::tracker::Service;
use acorns::extra_fields::{DocTextStatus, DocsContact};
use acorns::status_report::{Checks, Grade, Status};
use acorns::ticket_abstraction::{AbstractTicket, TicketId};

fn names(list: &[&str]) -> Vec<String> {
    list.iter().map(|name| name.to_string()).collect()
}

fn error(message: &str) -> Status {
    Status::Error(message.to_string())
}

fn warning(message: &str) -> Status {
    Status::Warning(message.to_string())
}

fn ready_ticket() -> AbstractTicket {
    AbstractTicket {
        id: TicketId { key: "1".to_string(), tracker: Service::Bugzilla },
        summary: "Summary".to_string(),
        description: None,
        doc_type: Some("Bug Fix".to_string()),
        doc_text: Some(".A title\n\nThe text.".to_string()),
        docs_contact: DocsContact(Some("writer@example.com".to_string())),
        status: "VERIFIED".to_string(),
        is_open: true,
        priority: "low".to_string(),
        url: String::new(),
        assignee: "dev@example.com".to_string(),
        components: vec![],
        product: "RHEL".to_string(),
        labels: None,
        flags: None,
        target_releases: names(&["9.0"]),
        subsystems: vec![],
        groups: None,
        public: true,
        doc_text_status: DocTextStatus::Approved,
        duplicates: vec![],
    }
}

#[test]
fn target_release_that_matches_is_okay() {
    let status = Status::from_target_release(&names(&["9.0"]), Some("9.0"), "Bug Fix");
    assert_eq!(status, Status::Okay);
}

#[test]
fn exempt_doc_type_needs_no_target_release() {
    let status = Status::from_target_release(&[], Some("9.0"), "Known Issue");
    assert_eq!(status, Status::Okay);
}

#[test]
fn other_target_release_warns() {
    let status = Status::from_target_release(&names(&["8.0"]), Some("9.0"), "Bug Fix");
    assert_eq!(status, warning("Check target release."));
}

#[test]
fn no_likely_release_is_okay() {
    assert_eq!(Status::from_target_release(&names(&["8.0"]), None, "Bug Fix"), Status::Okay);
    assert_eq!(Status::from_target_release(&[], None, ""), Status::Okay);
}

#[test]
fn exempt_doc_types_in_any_case() {
    for doc_type in [
        "known issue",
        "KNOWN ISSUE",
        "Technology Preview",
        "technology preview",
        "Deprecated Functionality",
    ] {
        assert_eq!(Status::from_target_release(&[], Some("9.0"), doc_type), Status::Okay);
    }
    for doc_type in ["Known Issues", "Enhancement", "", "Rebase: Bug Fixes Only"] {
        assert_eq!(
            Status::from_target_release(&[], Some("9.0"), doc_type),
            warning("Check target release.")
        );
    }
}

#[test]
fn target_release_among_several() {
    let releases = names(&["8.8", "9.0", "9.2"]);
    assert_eq!(Status::from_target_release(&releases, Some("9.2"), "Bug Fix"), Status::Okay);
    assert_eq!(
        Status::from_target_release(&releases, Some("9"), "Bug Fix"),
        warning("Check target release.")
    );
}

#[test]
fn lowercase_doc_type_is_taken_as_given() {
    assert_eq!(
        Status::from_target_release_lowercase(&[], Some("9.0"), "Known Issue"),
        warning("Check target release.")
    );
    assert_eq!(
        Status::from_target_release_lowercase(&[], Some("9.0"), "known issue"),
        Status::Okay
    );
}

#[test]
fn early_development_warns() {
    for status in ["to do", "To Do", "NEW", "new", "ASSIGNED", "Modified", "MODIFIED"] {
        assert_eq!(Status::from_devel_status(status), warning("Early development."));
    }
    for status in ["ON_QA", "VERIFIED", "CLOSED", "In Progress", "", "todo", "new "] {
        assert_eq!(Status::from_devel_status(status), Status::Okay);
    }
}

#[test]
fn lowercase_devel_status_is_taken_as_given() {
    assert_eq!(Status::from_lowercase_devel_status("new"), warning("Early development."));
    assert_eq!(Status::from_lowercase_devel_status("NEW"), Status::Okay);
}

#[test]
fn unset_doc_type_is_bad() {
    assert_eq!(Status::from_doc_type("If docs needed, set a value"), error("Bad doc type."));
    assert_eq!(Status::from_doc_type("if docs needed, set a value"), Status::Okay);
    assert_eq!(Status::from_doc_type("Bug Fix"), Status::Okay);
    assert_eq!(Status::from_doc_type(""), Status::Okay);
}

#[test]
fn doc_text_status_decides() {
    assert_eq!(Status::from_doc_text_status(DocTextStatus::Approved), Status::Okay);
    assert_eq!(
        Status::from_doc_text_status(DocTextStatus::InProgress),
        error("Release note not approved.")
    );
    assert_eq!(
        Status::from_doc_text_status(DocTextStatus::NoDocumentation),
        error("Release note disabled.")
    );
}

#[test]
fn title_on_first_line_is_okay() {
    assert_eq!(Status::from_title(".A title\n\nText."), Status::Okay);
    assert_eq!(Status::from_title(".Title"), Status::Okay);
    assert_eq!(Status::from_title(".Title\r\n\r\nText.\r\n"), Status::Okay);
}

#[test]
fn text_without_title_is_an_error() {
    assert_eq!(Status::from_title("A title\n\nText."), error("First line is not a title."));
    assert_eq!(Status::from_title(". A title"), error("First line is not a title."));
    assert_eq!(Status::from_title("."), error("First line is not a title."));
    assert_eq!(Status::from_title("Text.\n.Title"), error("First line is not a title."));
    assert_eq!(Status::from_title("Sentence. "), error("First line is not a title."));
}

#[test]
fn title_marker_may_stand_anywhere_in_the_line() {
    assert_eq!(Status::from_title("See .gitignore"), Status::Okay);
    assert_eq!(Status::from_title("Version 9.1"), Status::Okay);
}

#[test]
fn blank_lines_and_comments_before_the_title_are_skipped() {
    assert_eq!(Status::from_title("\n\n.Title"), Status::Okay);
    assert_eq!(Status::from_title("   \n\t\n.Title"), Status::Okay);
    assert_eq!(Status::from_title("// A comment\n.Title"), Status::Okay);
    assert_eq!(Status::from_title("// .Commented title\nText"), error("First line is not a title."));
    assert_eq!(Status::from_title("\r\n//\r\n\r\n.Title\r\n"), Status::Okay);
    assert_eq!(Status::from_title("\u{a0}\u{2003}\n.Title"), Status::Okay);
    assert_eq!(Status::from_title(" // no comment\n.Title"), error("First line is not a title."));
    assert_eq!(Status::from_title("/ .Title"), Status::Okay);
}

#[test]
fn empty_release_note_is_an_error() {
    assert_eq!(Status::from_title(""), error("The release note is empty."));
    assert_eq!(Status::from_title("\n\n"), error("The release note is empty."));
    assert_eq!(Status::from_title("  \n// comment\n\t"), error("The release note is empty."));
    assert_eq!(Status::from_title("// only a comment"), error("The release note is empty."));
}

#[test]
fn first_line_verdict() {
    assert_eq!(Status::from_first_line(false, false), error("The release note is empty."));
    assert_eq!(Status::from_first_line(false, true), error("The release note is empty."));
    assert_eq!(Status::from_first_line(true, true), Status::Okay);
    assert_eq!(Status::from_first_line(true, false), error("First line is not a title."));
}

#[test]
fn status_message_and_color() {
    assert_eq!(Status::Okay.message(), "OK");
    assert_eq!(Status::Okay.color(), "green");
    assert_eq!(warning("Careful.").message(), "Careful.");
    assert_eq!(warning("Careful.").color(), "orange");
    assert_eq!(error("Broken.").message(), "Broken.");
    assert_eq!(error("Broken.").color(), "red");
    assert_eq!(Status::default(), Status::Okay);
    assert_eq!(error("Broken.").clone(), error("Broken."));
}

#[test]
fn status_grades() {
    assert_eq!(Status::Okay.grade(), Grade::Complete);
    assert_eq!(warning("w").grade(), Grade::Warning);
    assert_eq!(error("e").grade(), Grade::Incomplete);
}

#[test]
fn overall_of_clean_checks_is_okay() {
    assert_eq!(Checks::default().overall(), Status::Okay);
}

#[test]
fn overall_joins_errors_in_fixed_order() {
    let checks = Checks {
        development: error("development"),
        doc_type: error("doc type"),
        doc_status: error("doc status"),
        title_and_text: error("title"),
        target_release: error("target release"),
    };
    assert_eq!(checks.overall(), error("doc type title doc status development target release"));
}

#[test]
fn overall_error_hides_warnings() {
    let checks = Checks {
        development: warning("Early development."),
        doc_type: Status::Okay,
        doc_status: error("Release note not approved."),
        title_and_text: Status::Okay,
        target_release: warning("Check target release."),
    };
    assert_eq!(checks.overall(), error("Release note not approved."));
}

#[test]
fn overall_joins_warnings_when_no_error() {
    let checks = Checks {
        development: warning("Early development."),
        doc_type: Status::Okay,
        doc_status: Status::Okay,
        title_and_text: Status::Okay,
        target_release: warning("Check target release."),
    };
    assert_eq!(checks.overall(), warning("Early development. Check target release."));
    let single = Checks { target_release: warning("Check target release."), ..Checks::default() };
    assert_eq!(single.overall(), warning("Check target release."));
}

#[test]
fn ready_ticket_passes_all_checks() {
    let checks = ready_ticket().checks(&names(&["9.0", "8.8"]));
    assert_eq!(checks, Checks::default());
    assert_eq!(checks.overall(), Status::Okay);
}

#[test]
fn ticket_checks_use_the_first_release() {
    let checks = ready_ticket().checks(&names(&["8.8", "9.0"]));
    assert_eq!(checks.target_release, warning("Check target release."));
    assert_eq!(ready_ticket().checks(&[]).target_release, Status::Okay);
}

#[test]
fn ticket_checks_each_category() {
    let mut ticket = ready_ticket();
    ticket.status = "New".to_string();
    ticket.doc_type = Some("If docs needed, set a value".to_string());
    ticket.doc_text = Some("No title here".to_string());
    ticket.doc_text_status = DocTextStatus::NoDocumentation;
    ticket.target_releases = vec![];
    let checks = ticket.checks(&names(&["9.0"]));
    assert_eq!(
        checks,
        Checks {
            development: warning("Early development."),
            doc_type: error("Bad doc type."),
            doc_status: error("Release note disabled."),
            title_and_text: error("First line is not a title."),
            target_release: warning("Check target release."),
        }
    );
    assert_eq!(
        checks.overall(),
        error("Bad doc type. First line is not a title. Release note disabled.")
    );
}

#[test]
fn ticket_without_doc_text_has_empty_release_note() {
    let mut ticket = ready_ticket();
    ticket.doc_text = None;
    ticket.doc_type = None;
    let checks = ticket.checks(&names(&["9.0"]));
    assert_eq!(checks.title_and_text, error("The release note is empty."));
    assert_eq!(checks.doc_type, Status::Okay);
    assert_eq!(checks.target_release, Status::Okay);
    ticket.target_releases = vec![];
    assert_eq!(ticket.checks(&names(&["9.0"])).target_release, warning("Check target release."));
}
