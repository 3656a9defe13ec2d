//! What SPOJ's pages hold: task details, languages, submissions, and the receipt
//! for a submission.

use vstd::prelude::*;
use crate::error::{Error, ErrorView};
use crate::model::{
    Language, LanguageView, Score, Submission, SubmissionView, TaskDetails, TaskDetailsView,
    VerdictView,
};
use crate::query::{Element, ElementView, Selection, SelectionView};
use crate::session::Session;
use crate::spoj::auth::{login_user, site_headers};
use crate::spoj::{lemma_no_silent_verdict, verdict_of, SPOJ};
use crate::text::{
    contains_text, first_line, first_line_of, is_bare_number, join3, occurs_in,
};
use crate::transport::{
    field, file_part, get_of, text_part, Part, Payload, PayloadView, Request, RequestView,
};

verus! {

/// The selector of the element that holds a task's title, on the task's page.
pub open spec fn title_selector() -> Seq<char> {
    ".breadcrumb > .active"@
}

/// The selector of the languages offered, on the page where a task is submitted.
pub open spec fn languages_selector() -> Seq<char> {
    "#lang > option"@
}

/// The selector of the rows of the status table, one row for each submission.
pub open spec fn rows_selector() -> Seq<char> {
    "table.newstatus > tbody > tr"@
}

/// The selector, within a row of the status table, of the cell with the verdict.
pub open spec fn status_selector() -> Seq<char> {
    ".statusres"@
}

/// The selector of the page title, on the page that answers a submission.
pub open spec fn page_title_selector() -> Seq<char> {
    "title"@
}

/// The selector of the field that holds the new submission's identifier.
pub open spec fn receipt_selector() -> Seq<char> {
    "#content > input"@
}

/// The address of a task's page.
pub open spec fn details_url_of(task: Seq<char>) -> Seq<char> {
    "https://www.spoj.com/problems/"@ + task + "/"@
}

/// The address of the page where a task is submitted.
pub open spec fn languages_url_of(task: Seq<char>) -> Seq<char> {
    "https://www.spoj.com/submit/"@ + task + "/"@
}

/// What the site says of a task whose page shows `title`.
pub open spec fn details_of(task: Seq<char>, title: Seq<char>) -> TaskDetailsView {
    TaskDetailsView {
        symbol: task,
        title,
        contest_id: "problems"@,
        site_short: "spoj"@,
        examples: None,
    }
}

/// The details of a task, read from the matches of the title selector.
pub open spec fn task_details_of(task: Seq<char>, title: SelectionView) -> Result<
    TaskDetailsView,
    ErrorView,
> {
    match title.find() {
        Ok(element) => Ok(details_of(task, element.text)),
        Err(context) => Err(ErrorView::UnexpectedHTML(context)),
    }
}

/// The language that one option of the language list stands for.
pub open spec fn language_of(option: ElementView) -> Result<LanguageView, ErrorView> {
    match option.attr("value"@) {
        Ok(id) => Ok(LanguageView { id, name: option.text }),
        Err(context) => Err(ErrorView::UnexpectedHTML(context)),
    }
}

/// One row of the status table, as far as this adapter reads it.
#[derive(Clone, Debug, PartialEq, Eq)]
pub struct StatusRow {
    /// The row's children, in document order.
    pub cells: Selection,
    /// The matches of the status selector within the row.
    pub status: Selection,
    /// The number that the first line of the status text was read as, if it was
    /// read as one.
    pub score: Option<Score>,
}

pub struct StatusRowView {
    pub cells: SelectionView,
    pub status: SelectionView,
    pub score: Option<Score>,
}

impl View for StatusRow {
    type V = StatusRowView;

    open spec fn view(&self) -> StatusRowView {
        StatusRowView { cells: self.cells@, status: self.status@, score: self.score }
    }
}

impl DeepView for StatusRow {
    type V = StatusRowView;

    open spec fn deep_view(&self) -> StatusRowView {
        self@
    }
}

/// The submission that one row of the status table shows. The identifier is the
/// text of the row's second child; the verdict is read from the first line of the
/// status cell. Whatever is missing fails the row.
pub open spec fn submission_of(row: StatusRowView) -> Result<SubmissionView, ErrorView> {
    match row.cells.find_nth(1) {
        Err(context) => Err(ErrorView::UnexpectedHTML(context)),
        Ok(id) => match row.status.find() {
            Err(context) => Err(ErrorView::UnexpectedHTML(context)),
            Ok(status) => match verdict_of(first_line_of(status.text), row.score) {
                Err(error) => Err(error),
                Ok(verdict) => Ok(SubmissionView { id: id.text, verdict }),
            },
        },
    }
}

/// A submission that the status page lists is reported: where every row of the page
/// could be read, the row that shows `id` has an entry of its own in the result, at
/// the row's place, with `id` and with the verdict that the row shows, pending or
/// final. Whether the site lists a new submission at once is the site's affair.
pub proof fn lemma_listed_submission_is_reported(
    rows: Seq<StatusRowView>,
    found: Seq<SubmissionView>,
    k: int,
    id: Seq<char>,
)
    requires
        found.len() == rows.len(),
        forall|i: int|
            0 <= i < rows.len() ==> submission_of(#[trigger] rows[i]) == Ok::<
                SubmissionView,
                ErrorView,
            >(found[i]),
        0 <= k < rows.len(),
        rows[k].cells.find_nth(1) matches Ok(cell) && cell.text == id,
    ensures
        found[k].id == id,
        rows[k].status.find() matches Ok(status) && verdict_of(
            first_line_of(status.text),
            rows[k].score,
        ) == Ok::<VerdictView, ErrorView>(found[k].verdict),
        found[k].verdict is Pending || found[k].verdict.is_terminal(),
{
    assert(submission_of(rows[k]) == Ok::<SubmissionView, ErrorView>(found[k]));
}

/// A submission is reported with a score only where the first line of its status
/// cell is a bare number outside the lexicon and the score is finite; such a verdict
/// carries the score and nothing else.
pub proof fn lemma_reported_score_is_a_number(row: StatusRowView, submission: SubmissionView)
    requires
        submission_of(row) == Ok::<SubmissionView, ErrorView>(submission),
        submission.verdict is Scored,
    ensures
        row.status.find() matches Ok(status) && is_bare_number(first_line_of(status.text)),
        submission.verdict matches VerdictView::Scored { score, max, cause, test } && score.finite()
            && row.score == Some(score) && max is None && cause is None && test is None,
{
    let status = row.status.find()->Ok_0;
    lemma_no_silent_verdict(first_line_of(status.text), row.score);
}

/// What answers a submission: the new submission's identifier, or the reason why
/// there is none. A page titled as a request for authorisation means that the
/// session is not logged in.
pub open spec fn receipt_of(title: SelectionView, receipt: SelectionView) -> Result<
    Seq<char>,
    ErrorView,
> {
    match title.find() {
        Err(context) => Err(ErrorView::UnexpectedHTML(context)),
        Ok(heading) => if occurs_in(heading.text, "Authorisation required"@) {
            Err(ErrorView::AccessDenied)
        } else {
            match receipt.find() {
                Err(context) => Err(ErrorView::UnexpectedHTML(context)),
                Ok(input) => match input.attr("value"@) {
                    Err(context) => Err(ErrorView::UnexpectedHTML(context)),
                    Ok(id) => Ok(id),
                },
            }
        },
    }
}

/// The request that submits `code` in the language `language` for `task`.
pub open spec fn submit_request_of(task: Seq<char>, language: Seq<char>, code: Seq<char>)
    -> RequestView {
    RequestView {
        post: true,
        url: "https://www.spoj.com/submit/complete/"@,
        headers: seq![
            field("origin"@, "https://www.spoj.com"@),
            field("referer"@, "https://www.spoj.com/submit/TEST/"@),
        ],
        payload: PayloadView::Multipart(
            seq![
                file_part("subm_file"@, ""@, ""@, "application/octet-stream"@),
                text_part("file"@, code),
                text_part("lang"@, language),
                text_part("problemcode"@, task),
                text_part("submit"@, "Submit!"@),
            ],
        ),
    }
}

fn language_from(option: &Element) -> (language: Result<Language, Error>)
    ensures
        match language {
            Ok(found) => language_of(option@) == Ok::<LanguageView, ErrorView>(found@),
            Err(error) => language_of(option@) == Err::<LanguageView, ErrorView>(error@),
        },
{
    match option.attr("value") {
        Ok(id) => Ok(Language { id: id.to_owned(), name: option.text().to_owned() }),
        Err(context) => Err(Error::UnexpectedHTML(context)),
    }
}

fn submission_from(adapter: &SPOJ, row: &StatusRow) -> (submission: Result<Submission, Error>)
    ensures
        match submission {
            Ok(found) => submission_of(row@) == Ok::<SubmissionView, ErrorView>(found@),
            Err(error) => submission_of(row@) == Err::<SubmissionView, ErrorView>(error@),
        },
{
    let id = match row.cells.find_nth(1) {
        Ok(cell) => cell.text().to_owned(),
        Err(context) => {
            return Err(Error::UnexpectedHTML(context));
        },
    };
    let status = match row.status.find() {
        Ok(cell) => cell,
        Err(context) => {
            return Err(Error::UnexpectedHTML(context));
        },
    };
    match adapter.verdict(first_line(status.text()), row.score) {
        Ok(verdict) => Ok(Submission { id, verdict }),
        Err(error) => Err(error),
    }
}

impl SPOJ {
    /// The selector to run on a task's page for `task_details`.
    pub fn title_selector(&self) -> (selector: &'static str)
        ensures
            selector@ == title_selector(),
    {
        ".breadcrumb > .active"
    }

    /// The selector to run on the submit page for `task_languages`.
    pub fn languages_selector(&self) -> (selector: &'static str)
        ensures
            selector@ == languages_selector(),
    {
        "#lang > option"
    }

    /// The selector to run on the status page for the rows of `task_submissions`.
    pub fn rows_selector(&self) -> (selector: &'static str)
        ensures
            selector@ == rows_selector(),
    {
        "table.newstatus > tbody > tr"
    }

    /// The selector to run within each row of the status table for its verdict cell.
    pub fn status_selector(&self) -> (selector: &'static str)
        ensures
            selector@ == status_selector(),
    {
        ".statusres"
    }

    /// The selector to run on the page that answers a submission for its title.
    pub fn page_title_selector(&self) -> (selector: &'static str)
        ensures
            selector@ == page_title_selector(),
    {
        "title"
    }

    /// The selector to run on the page that answers a submission for the receipt.
    pub fn receipt_selector(&self) -> (selector: &'static str)
        ensures
            selector@ == receipt_selector(),
    {
        "#content > input"
    }

    /// What stands for the verdict in a status cell: the first line of what it shows.
    pub fn verdict_token<'a>(&self, status: &'a str) -> (token: &'a str)
        ensures
            token@ == first_line_of(status@),
    {
        first_line(status)
    }

    /// The request for a task's page.
    pub fn details_request(&self, task: &str) -> (request: Request)
        ensures
            request@ == get_of(details_url_of(task@)),
    {
        Request::get(join3("https://www.spoj.com/problems/", task, "/"))
    }

    /// The request for the page where a task is submitted, which lists the languages.
    pub fn languages_request(&self, task: &str) -> (request: Request)
        ensures
            request@ == get_of(languages_url_of(task@)),
    {
        Request::get(join3("https://www.spoj.com/submit/", task, "/"))
    }

    /// The details of `task`. `title` holds what the title selector matched on the
    /// task's page: exactly one element is expected, and its text is the title.
    pub fn task_details(&self, task: &str, title: &Selection) -> (details: Result<
        TaskDetails,
        Error,
    >)
        ensures
            match details {
                Ok(found) => task_details_of(task@, title@) == Ok::<TaskDetailsView, ErrorView>(
                    found@,
                ),
                Err(error) => task_details_of(task@, title@) == Err::<TaskDetailsView, ErrorView>(
                    error@,
                ),
            },
    {
        match title.find() {
            Ok(element) => Ok(
                TaskDetails {
                    symbol: task.to_owned(),
                    title: element.text().to_owned(),
                    contest_id: "problems".to_owned(),
                    site_short: "spoj".to_owned(),
                    examples: None,
                },
            ),
            Err(context) => Err(Error::UnexpectedHTML(context)),
        }
    }

    /// The languages in which a task can be submitted. `options` holds what the
    /// language selector matched. Every option becomes a language, in document
    /// order; the first option without a `value` attribute fails the whole call.
    pub fn task_languages(&self, options: &Selection) -> (languages: Result<Vec<Language>, Error>)
        ensures
            match languages {
                Ok(found) => {
                    &&& found.deep_view().len() == options@.matches.len()
                    &&& forall|i: int|
                        0 <= i < options@.matches.len() ==> language_of(
                            #[trigger] options@.matches[i],
                        ) == Ok::<LanguageView, ErrorView>(found.deep_view()[i])
                },
                Err(error) => exists|k: int|
                    {
                        &&& 0 <= k < options@.matches.len()
                        &&& language_of(#[trigger] options@.matches[k]) == Err::<
                            LanguageView,
                            ErrorView,
                        >(error@)
                        &&& forall|i: int|
                            0 <= i < k ==> language_of(#[trigger] options@.matches[i]) is Ok
                    },
            },
    {
        let all = options.find_all();
        let mut found: Vec<Language> = Vec::new();
        let mut i: usize = 0;
        while i < all.len()
            invariant
                i <= all.len(),
                all.deep_view() == options@.matches,
                found@.len() == i,
                forall|j: int|
                    0 <= j < i ==> language_of(#[trigger] options@.matches[j]) == Ok::<
                        LanguageView,
                        ErrorView,
                    >(found@[j]@),
            decreases all.len() - i,
        {
            assert(all.deep_view()[i as int] == all@[i as int]@);
            match language_from(&all[i]) {
                Ok(language) => {
                    found.push(language);
                },
                Err(error) => {
                    return Err(error);
                },
            }
            i = i + 1;
        }
        Ok(found)
    }

    /// The submissions that the status page lists, each with the verdict that the
    /// page shows now. `rows` holds the rows of the status table in document order.
    /// A session that is not logged in fails as `AccessDenied` before any row is
    /// read. Otherwise every row becomes a submission, and the first row that
    /// cannot be read fails the whole call: no row is left out or guessed.
    pub fn task_submissions(&self, session: &Session, rows: &Vec<StatusRow>) -> (submissions:
        Result<Vec<Submission>, Error>)
        ensures
            login_user(session@) is None ==> (submissions matches Err(error) && error@
                == ErrorView::AccessDenied),
            login_user(session@) is Some ==> match submissions {
                Ok(found) => {
                    &&& found.deep_view().len() == rows.deep_view().len()
                    &&& forall|i: int|
                        0 <= i < rows.deep_view().len() ==> submission_of(
                            #[trigger] rows.deep_view()[i],
                        ) == Ok::<SubmissionView, ErrorView>(found.deep_view()[i])
                },
                Err(error) => exists|k: int|
                    {
                        &&& 0 <= k < rows.deep_view().len()
                        &&& submission_of(#[trigger] rows.deep_view()[k]) == Err::<
                            SubmissionView,
                            ErrorView,
                        >(error@)
                        &&& forall|i: int|
                            0 <= i < k ==> submission_of(#[trigger] rows.deep_view()[i]) is Ok
                    },
            },
    {
        match self.submissions_url(session) {
            Ok(_) => {},
            Err(error) => {
                return Err(error);
            },
        }
        let mut found: Vec<Submission> = Vec::new();
        let mut i: usize = 0;
        while i < rows.len()
            invariant
                login_user(session@) is Some,
                i <= rows.len(),
                found@.len() == i,
                forall|j: int|
                    0 <= j < i ==> submission_of(#[trigger] rows.deep_view()[j]) == Ok::<
                        SubmissionView,
                        ErrorView,
                    >(found@[j]@),
            decreases rows.len() - i,
        {
            assert(rows.deep_view()[i as int] == rows@[i as int]@);
            match submission_from(self, &rows[i]) {
                Ok(submission) => {
                    found.push(submission);
                },
                Err(error) => {
                    return Err(error);
                },
            }
            i = i + 1;
        }
        Ok(found)
    }

    /// The request that submits `code` for `task` in `language`.
    pub fn submit_request(&self, task: &str, language: &Language, code: &str) -> (request: Request)
        ensures
            request@ == submit_request_of(task@, language@.id, code@),
    {
        let mut parts: Vec<Part> = Vec::new();
        parts.push(Part::file("subm_file", "", "", "application/octet-stream"));
        parts.push(Part::text("file", code));
        parts.push(Part::text("lang", language.id.as_str()));
        parts.push(Part::text("problemcode", task));
        parts.push(Part::text("submit", "Submit!"));
        assert(parts.deep_view() =~= seq![
            file_part("subm_file"@, ""@, ""@, "application/octet-stream"@),
            text_part("file"@, code@),
            text_part("lang"@, language@.id),
            text_part("problemcode"@, task@),
            text_part("submit"@, "Submit!"@),
        ]);
        Request {
            post: true,
            url: "https://www.spoj.com/submit/complete/".to_owned(),
            headers: site_headers("https://www.spoj.com/submit/TEST/"),
            payload: Payload::Multipart(parts),
        }
    }

    /// Reads the answer to a submission. `title` holds what the page title selector
    /// matched, `receipt` what the receipt selector matched. The result is the new
    /// submission's identifier; a page that asks for authorisation is
    /// `AccessDenied`.
    pub fn task_submit(&self, title: &Selection, receipt: &Selection) -> (id: Result<String, Error>)
        ensures
            match id {
                Ok(found) => receipt_of(title@, receipt@) == Ok::<Seq<char>, ErrorView>(found@),
                Err(error) => receipt_of(title@, receipt@) == Err::<Seq<char>, ErrorView>(error@),
            },
    {
        let heading = match title.find() {
            Ok(element) => element,
            Err(context) => {
                return Err(Error::UnexpectedHTML(context));
            },
        };
        if contains_text(heading.text(), "Authorisation required") {
            return Err(Error::AccessDenied);
        }
        let input = match receipt.find() {
            Ok(element) => element,
            Err(context) => {
                return Err(Error::UnexpectedHTML(context));
            },
        };
        match input.attr("value") {
            Ok(value) => Ok(value.to_owned()),
            Err(context) => Err(Error::UnexpectedHTML(context)),
        }
    }
}

} // verus!
