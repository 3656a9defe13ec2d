use icie_judge::error::{Cause, Context, Error};
use icie_judge::model::{Language, RejectionCause, Score, Submission, TaskDetails, Verdict};
use icie_judge::query::{Attribute, Element, Selection};
use icie_judge::session::{Cookie, Session};
use icie_judge::spoj::pages::StatusRow;
use icie_judge::spoj::SPOJ;
use icie_judge::transport::{Field, Part, Payload, Request};

fn element(selector: &str, text: &str, attributes: &[(&str, &str)]) -> Element {
    Element {
        selector: selector.to_string(),
        text: text.to_string(),
        attributes: attributes
            .iter()
            .map(|(name, value)| Attribute { name: name.to_string(), value: value.to_string() })
            .collect(),
        snapshot: String::new(),
    }
}

fn selection(selector: &str, matches: Vec<Element>) -> Selection {
    Selection { selector: selector.to_string(), scope: "page".to_string(), matches }
}

fn not_found(selector: &str) -> Error {
    Error::UnexpectedHTML(Context {
        cause: Cause::NotFound,
        selector: selector.to_string(),
        detail: String::new(),
        snapshot: "page".to_string(),
    })
}

fn number(token: &str) -> Option<Score> {
    token.parse::<f64>().ok().map(|value| Score::from_bits(value.to_bits()))
}

fn row(id: &str, status: &str) -> StatusRow {
    StatusRow {
        cells: selection("tr > *", vec![element("tr > *", "", &[]), element("tr > *", id, &[])]),
        status: selection(".statusres", vec![element(".statusres", status, &[])]),
        score: number(SPOJ.verdict_token(status)),
    }
}

fn logged_in(user: &str) -> Session {
    let mut session = Session::new();
    session.insert(Cookie {
        domain: "spoj.com".to_string(),
        path: "/".to_string(),
        name: "autologin_login".to_string(),
        value: user.to_string(),
    });
    session
}

#[test]
fn selectors_are_the_sites() {
    assert_eq!(SPOJ.title_selector(), ".breadcrumb > .active");
    assert_eq!(SPOJ.languages_selector(), "#lang > option");
    assert_eq!(SPOJ.rows_selector(), "table.newstatus > tbody > tr");
    assert_eq!(SPOJ.status_selector(), ".statusres");
    assert_eq!(SPOJ.page_title_selector(), "title");
    assert_eq!(SPOJ.receipt_selector(), "#content > input");
}

#[test]
fn details_request_names_the_task() {
    assert_eq!(
        SPOJ.details_request("TEST"),
        Request {
            post: false,
            url: "https://www.spoj.com/problems/TEST/".to_string(),
            headers: vec![],
            payload: Payload::Nothing,
        }
    );
}

#[test]
fn languages_request_names_the_task() {
    assert_eq!(SPOJ.languages_request("TEST").url, "https://www.spoj.com/submit/TEST/");
    assert!(!SPOJ.languages_request("TEST").post);
}

#[test]
fn details_take_the_title_from_the_page() {
    let title = selection(".breadcrumb > .active", vec![element("", "Life, the Universe", &[])]);
    assert_eq!(
        SPOJ.task_details("TEST", &title),
        Ok(TaskDetails {
            symbol: "TEST".to_string(),
            title: "Life, the Universe".to_string(),
            contest_id: "problems".to_string(),
            site_short: "spoj".to_string(),
            examples: None,
        })
    );
}

#[test]
fn details_fail_without_a_title() {
    let title = selection(".breadcrumb > .active", vec![]);
    assert_eq!(SPOJ.task_details("TEST", &title), Err(not_found(".breadcrumb > .active")));
}

#[test]
fn languages_are_read_in_order() {
    let options = selection(
        "#lang > option",
        vec![
            element("#lang > option", "C++ (gcc 8.3)", &[("value", "41")]),
            element("#lang > option", "Rust (1.56)", &[("value", "93")]),
        ],
    );
    assert_eq!(
        SPOJ.task_languages(&options),
        Ok(vec![
            Language { id: "41".to_string(), name: "C++ (gcc 8.3)".to_string() },
            Language { id: "93".to_string(), name: "Rust (1.56)".to_string() },
        ])
    );
}

#[test]
fn no_options_are_no_languages() {
    assert_eq!(SPOJ.task_languages(&selection("#lang > option", vec![])), Ok(vec![]));
}

#[test]
fn an_option_without_value_fails_the_list() {
    let options = selection(
        "#lang > option",
        vec![
            element("#lang > option", "C++", &[("value", "41")]),
            element("#lang > option", "Rust", &[]),
            element("#lang > option", "Go", &[]),
        ],
    );
    match SPOJ.task_languages(&options) {
        Err(Error::UnexpectedHTML(context)) => {
            assert_eq!(context.cause, Cause::MissingAttribute);
            assert_eq!(context.detail, "value");
            assert_eq!(context.selector, "#lang > option");
        }
        other => panic!("not a missing attribute: {:?}", other),
    }
}

#[test]
fn submissions_are_read_row_by_row() {
    let rows = vec![
        row("24000001", "accepted\n  edit  ideone it"),
        row("24000000", "wrong answer"),
        row("23999999", "running.."),
        row("23999998", "42.5"),
    ];
    let found = SPOJ.task_submissions(&logged_in("alice"), &rows).unwrap();
    assert_eq!(found.len(), 4);
    assert_eq!(found[0], Submission { id: "24000001".to_string(), verdict: Verdict::Accepted });
    assert_eq!(
        found[1],
        Submission {
            id: "24000000".to_string(),
            verdict: Verdict::Rejected { cause: Some(RejectionCause::WrongAnswer), test: None },
        }
    );
    assert_eq!(
        found[2],
        Submission { id: "23999999".to_string(), verdict: Verdict::Pending { test: None } }
    );
    assert_eq!(
        found[3],
        Submission {
            id: "23999998".to_string(),
            verdict: Verdict::Scored {
                score: Score::from_bits(42.5f64.to_bits()),
                max: None,
                cause: None,
                test: None,
            },
        }
    );
}

#[test]
fn a_submitted_id_is_listed_with_its_verdict() {
    let receipt = selection("#content > input", vec![element("", "", &[("value", "24000002")])]);
    let title = selection("title", vec![element("", "SPOJ.com - Submit a solution", &[])]);
    let id = SPOJ.task_submit(&title, &receipt).unwrap();
    let rows = vec![row("24000002", "waiting.."), row("24000001", "accepted")];
    let found = SPOJ.task_submissions(&logged_in("alice"), &rows).unwrap();
    let entry = found.iter().find(|submission| submission.id == id).unwrap();
    assert_eq!(entry.verdict, Verdict::Pending { test: None });
}

#[test]
fn submissions_without_login_are_denied() {
    let rows = vec![row("1", "accepted")];
    assert_eq!(SPOJ.task_submissions(&Session::new(), &rows), Err(Error::AccessDenied));
    assert_eq!(SPOJ.task_submissions(&Session::new(), &vec![]), Err(Error::AccessDenied));
}

#[test]
fn no_rows_are_no_submissions() {
    assert_eq!(SPOJ.task_submissions(&logged_in("alice"), &vec![]), Ok(vec![]));
}

#[test]
fn an_unknown_verdict_fails_the_list() {
    let rows = vec![row("3", "accepted"), row("2", "bogus-token"), row("1", "also bogus")];
    assert_eq!(
        SPOJ.task_submissions(&logged_in("alice"), &rows),
        Err(Error::UnexpectedVerdict("bogus-token".to_string()))
    );
}

#[test]
fn a_row_without_id_cell_fails_the_list() {
    let mut broken = row("1", "accepted");
    broken.cells.matches.truncate(1);
    assert_eq!(
        SPOJ.task_submissions(&logged_in("alice"), &vec![broken]),
        Err(not_found("tr > *"))
    );
}

#[test]
fn a_row_without_status_fails_the_list() {
    let mut broken = row("1", "accepted");
    broken.status.matches.clear();
    assert_eq!(
        SPOJ.task_submissions(&logged_in("alice"), &vec![broken]),
        Err(not_found(".statusres"))
    );
}

#[test]
fn a_row_with_two_status_cells_fails_the_list() {
    let mut broken = row("1", "accepted");
    broken.status.matches.push(element(".statusres", "accepted", &[]));
    assert_eq!(
        SPOJ.task_submissions(&logged_in("alice"), &vec![broken]),
        Err(not_found(".statusres"))
    );
}

#[test]
fn submissions_url_names_the_user() {
    assert_eq!(
        SPOJ.submissions_url(&logged_in("alice")),
        Ok("https://www.spoj.com/status/alice/".to_string())
    );
    assert_eq!(SPOJ.submissions_url(&Session::new()), Err(Error::AccessDenied));
}

#[test]
fn submit_request_carries_code_language_and_task() {
    let language = Language { id: "41".to_string(), name: "C++".to_string() };
    let request = SPOJ.submit_request("TEST", &language, "int main(){}");
    assert_eq!(
        request,
        Request {
            post: true,
            url: "https://www.spoj.com/submit/complete/".to_string(),
            headers: vec![
                Field { name: "origin".to_string(), value: "https://www.spoj.com".to_string() },
                Field {
                    name: "referer".to_string(),
                    value: "https://www.spoj.com/submit/TEST/".to_string(),
                },
            ],
            payload: Payload::Multipart(vec![
                Part {
                    name: "subm_file".to_string(),
                    content: String::new(),
                    file_name: Some(String::new()),
                    mime: Some("application/octet-stream".to_string()),
                },
                Part {
                    name: "file".to_string(),
                    content: "int main(){}".to_string(),
                    file_name: None,
                    mime: None,
                },
                Part { name: "lang".to_string(), content: "41".to_string(), file_name: None, mime: None },
                Part {
                    name: "problemcode".to_string(),
                    content: "TEST".to_string(),
                    file_name: None,
                    mime: None,
                },
                Part {
                    name: "submit".to_string(),
                    content: "Submit!".to_string(),
                    file_name: None,
                    mime: None,
                },
            ]),
        }
    );
}

#[test]
fn submit_gives_the_new_id() {
    let title = selection("title", vec![element("", "SPOJ.com - Submit a solution", &[])]);
    let receipt = selection("#content > input", vec![element("", "", &[("value", "24000002")])]);
    assert_eq!(SPOJ.task_submit(&title, &receipt), Ok("24000002".to_string()));
}

#[test]
fn submit_without_login_is_denied() {
    let title = selection("title", vec![element("", "SPOJ.com - Authorisation required", &[])]);
    let receipt = selection("#content > input", vec![]);
    assert_eq!(SPOJ.task_submit(&title, &receipt), Err(Error::AccessDenied));
}

#[test]
fn submit_without_title_is_unexpected() {
    let title = selection("title", vec![]);
    let receipt = selection("#content > input", vec![element("", "", &[("value", "1")])]);
    assert_eq!(SPOJ.task_submit(&title, &receipt), Err(not_found("title")));
}

#[test]
fn submit_without_receipt_is_unexpected() {
    let title = selection("title", vec![element("", "SPOJ.com", &[])]);
    assert_eq!(
        SPOJ.task_submit(&title, &selection("#content > input", vec![])),
        Err(not_found("#content > input"))
    );
    let bare = selection("#content > input", vec![element("#content > input", "", &[])]);
    match SPOJ.task_submit(&title, &bare) {
        Err(Error::UnexpectedHTML(context)) => assert_eq!(context.cause, Cause::MissingAttribute),
        other => panic!("not a missing attribute: {:?}", other),
    }
}

#[test]
fn a_row_that_shows_no_number_is_never_scored() {
    let rows = vec![row("2", "accepted"), row("1", "NaN")];
    assert!(rows[1].score.is_some());
    assert_eq!(
        SPOJ.task_submissions(&logged_in("alice"), &rows),
        Err(Error::UnexpectedVerdict("NaN".to_string()))
    );
    let rows = vec![row("1", "inf\n  edit")];
    assert_eq!(
        SPOJ.task_submissions(&logged_in("alice"), &rows),
        Err(Error::UnexpectedVerdict("inf".to_string()))
    );
}
