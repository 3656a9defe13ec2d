//! The adapter for SPOJ.

use vstd::prelude::*;

pub mod auth;
pub mod pages;

use crate::error::{Error, ErrorView};
use crate::model::{RejectionCause, Score, Verdict, VerdictView};
use crate::text::{bare_number, is_bare_number, same_text};

verus! {

/// The adapter for `www.spoj.com`.
#[derive(Clone, Copy, Debug, PartialEq, Eq, Structural)]
pub struct SPOJ;

/// The only host that this adapter accepts.
pub open spec fn spoj_host() -> Seq<char> {
    "www.spoj.com"@
}

/// The characters of each segment of a path.
pub open spec fn path_view(segments: Seq<&str>) -> Seq<Seq<char>> {
    segments.map_values(|segment: &str| segment@)
}

/// The task that a path names: the path must be `problems` followed by the task's symbol.
pub open spec fn task_of(path: Seq<Seq<char>>) -> Option<Seq<char>> {
    if path.len() == 2 && path[0] == "problems"@ {
        Some(path[1])
    } else {
        None
    }
}

/// A rejection for the given cause, with nothing known of the failing test.
pub open spec fn rejected(cause: RejectionCause) -> VerdictView {
    VerdictView::Rejected { cause: Some(cause), test: None }
}

/// A verdict that is still to come, with nothing known of the running test.
pub open spec fn pending() -> VerdictView {
    VerdictView::Pending { test: None }
}

/// A bare score, with nothing else known.
pub open spec fn scored(score: Score) -> VerdictView {
    VerdictView::Scored { score, max: None, cause: None, test: None }
}

/// The verdict texts that the site is known to print, each with what it means.
pub open spec fn lexicon(token: Seq<char>) -> Option<VerdictView> {
    if token == "accepted"@ {
        Some(VerdictView::Accepted)
    } else if token == "wrong answer"@ {
        Some(rejected(RejectionCause::WrongAnswer))
    } else if token == "time limit exceeded"@ {
        Some(rejected(RejectionCause::TimeLimitExceeded))
    } else if token == "compilation error"@ {
        Some(rejected(RejectionCause::CompilationError))
    } else if token == "runtime error    (SIGFPE)"@ || token == "runtime error    (SIGSEGV)"@
        || token == "runtime error    (SIGABRT)"@ || token == "runtime error    (NZEC)"@ {
        Some(rejected(RejectionCause::RuntimeError))
    } else if token == "internal error"@ {
        Some(rejected(RejectionCause::SystemError))
    } else if token == "waiting.."@ || token == "compiling.."@ || token == "running judge.."@
        || token == "running.."@ {
        Some(pending())
    } else {
        None
    }
}

/// What a verdict text means. `score` is the number that the text was read as, if
/// it was read as one. A text of the lexicon means what the lexicon says. Any other
/// text is a score only where it is a bare number and the number is finite; every
/// other text is a failure that carries the text. No text falls back to pending or
/// accepted, and nothing that merely reads as a number is taken for a score.
pub open spec fn verdict_of(token: Seq<char>, score: Option<Score>) -> Result<
    VerdictView,
    ErrorView,
> {
    match lexicon(token) {
        Some(verdict) => Ok(verdict),
        None => match score {
            Some(score) if is_bare_number(token) && score.finite() => Ok(scored(score)),
            _ => Err(ErrorView::UnexpectedVerdict(token)),
        },
    }
}

/// No text is taken for pending or for accepted unless the lexicon says so, and none
/// for a score unless it is a bare number outside the lexicon and the score is
/// finite. Whatever is neither in the lexicon nor such a number fails, whatever
/// else it looks like.
pub proof fn lemma_no_silent_verdict(token: Seq<char>, score: Option<Score>)
    ensures
        verdict_of(token, score) matches Ok(VerdictView::Pending { .. }) ==> lexicon(token) == Some(
            pending(),
        ),
        verdict_of(token, score) == Ok::<VerdictView, ErrorView>(VerdictView::Accepted) ==> token
            == "accepted"@,
        verdict_of(token, score) matches Ok(VerdictView::Scored { score: given, max, cause, test })
            ==> {
            &&& lexicon(token) is None
            &&& is_bare_number(token)
            &&& score == Some(given)
            &&& given.finite()
            &&& max is None
            &&& cause is None
            &&& test is None
        },
        lexicon(token) is None && !is_bare_number(token) ==> verdict_of(token, score) == Err::<
            VerdictView,
            ErrorView,
        >(ErrorView::UnexpectedVerdict(token)),
        lexicon(token) is None && !(score matches Some(given) && given.finite()) ==> verdict_of(
            token,
            score,
        ) == Err::<VerdictView, ErrorView>(ErrorView::UnexpectedVerdict(token)),
{
}

/// The views of a verdict or of the failure in its place.
pub open spec fn verdict_result_view(r: Result<Verdict, Error>) -> Result<VerdictView, ErrorView> {
    match r {
        Ok(verdict) => Ok(verdict@),
        Err(error) => Err(error@),
    }
}

fn reject(cause: RejectionCause) -> (verdict: Verdict)
    ensures
        verdict@ == rejected(cause),
{
    Verdict::Rejected { cause: Some(cause), test: None }
}

impl SPOJ {
    /// The hosts whose task URLs belong to this adapter.
    pub fn accepted_domains(&self) -> (domains: &[&str])
        ensures
            domains@.len() == 1,
            domains@[0]@ == spoj_host(),
    {
        &["www.spoj.com"]
    }

    /// Reads the task out of the path of a task URL, given as its segments.
    /// Any path but `problems/<task>` is refused as `WrongTaskUrl`.
    pub fn deconstruct_task(&self, _domain: &str, segments: &[&str]) -> (task: Result<
        String,
        Error,
    >)
        ensures
            match task {
                Ok(symbol) => task_of(path_view(segments@)) == Some(symbol@),
                Err(error) => task_of(path_view(segments@)) is None && error@
                    == ErrorView::WrongTaskUrl,
            },
    {
        if segments.len() == 2 && same_text(segments[0], "problems") {
            Ok(segments[1].to_owned())
        } else {
            Err(Error::WrongTaskUrl)
        }
    }

    /// The meaning of a verdict text that the lexicon knows.
    pub fn lexicon(&self, token: &str) -> (verdict: Option<Verdict>)
        ensures
            verdict.deep_view() == lexicon(token@),
    {
        if same_text(token, "accepted") {
            Some(Verdict::Accepted)
        } else if same_text(token, "wrong answer") {
            Some(reject(RejectionCause::WrongAnswer))
        } else if same_text(token, "time limit exceeded") {
            Some(reject(RejectionCause::TimeLimitExceeded))
        } else if same_text(token, "compilation error") {
            Some(reject(RejectionCause::CompilationError))
        } else if same_text(token, "runtime error    (SIGFPE)") || same_text(
            token,
            "runtime error    (SIGSEGV)",
        ) || same_text(token, "runtime error    (SIGABRT)") || same_text(
            token,
            "runtime error    (NZEC)",
        ) {
            Some(reject(RejectionCause::RuntimeError))
        } else if same_text(token, "internal error") {
            Some(reject(RejectionCause::SystemError))
        } else if same_text(token, "waiting..") || same_text(token, "compiling..") || same_text(
            token,
            "running judge..",
        ) || same_text(token, "running..") {
            Some(Verdict::Pending { test: None })
        } else {
            None
        }
    }

    /// The verdict that a verdict text stands for. `score` is the number that the
    /// text was read as, if it was read as one; it is looked at only for a text that
    /// the lexicon does not know, and counts only where the text is a bare number
    /// and the score is finite. A text that is neither known nor such a number
    /// fails as `UnexpectedVerdict` and carries the text.
    pub fn verdict(&self, token: &str, score: Option<Score>) -> (verdict: Result<Verdict, Error>)
        ensures
            verdict_result_view(verdict) == verdict_of(token@, score),
    {
        match self.lexicon(token) {
            Some(verdict) => Ok(verdict),
            None => match score {
                Some(score) => {
                    if bare_number(token) && score.is_finite() {
                        Ok(Verdict::Scored { score, max: None, cause: None, test: None })
                    } else {
                        Err(Error::UnexpectedVerdict(token.to_owned()))
                    }
                },
                None => Err(Error::UnexpectedVerdict(token.to_owned())),
            },
        }
    }
}

} // verus!
