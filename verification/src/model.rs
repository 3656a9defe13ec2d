//! The shared data types into which every adapter's results are normalized.

use vstd::prelude::*;

verus! {

/// Why a judge rejected a submission.
#[derive(Clone, Copy, Debug, PartialEq, Eq, Structural)]
pub enum RejectionCause {
    WrongAnswer,
    RuntimeError,
    TimeLimitExceeded,
    MemoryLimitExceeded,
    RuleViolation,
    SystemError,
    CompilationError,
}

/// A score as the judge printed it, held as the bit pattern of the double-precision
/// number that the text denotes. The library moves scores and never computes on them.
#[derive(Clone, Copy, Debug, PartialEq, Eq, Structural)]
pub struct Score {
    pub bits: u64,
}

impl Score {
    /// The eleven bits that hold the number's exponent.
    pub open spec fn exponent_bits(self) -> u64 {
        (self.bits >> 52u64) & 0x7ffu64
    }

    /// Whether the bit pattern stands for a finite number. With every exponent bit
    /// set it stands for an infinity or for no number at all.
    pub open spec fn finite(self) -> bool {
        self.exponent_bits() != 0x7ffu64
    }

    /// Whether the score is a finite number.
    pub fn is_finite(&self) -> (finite: bool)
        ensures
            finite == self.finite(),
    {
        (self.bits >> 52u64) & 0x7ffu64 != 0x7ffu64
    }

    pub fn from_bits(bits: u64) -> (score: Score)
        ensures
            score.bits == bits,
    {
        Score { bits }
    }

    pub fn to_bits(&self) -> (bits: u64)
        ensures
            bits == self.bits,
    {
        self.bits
    }
}

/// The normalized outcome of a judged submission.
#[derive(Clone, Debug, PartialEq, Eq)]
pub enum Verdict {
    Accepted,
    Rejected { cause: Option<RejectionCause>, test: Option<String> },
    Pending { test: Option<String> },
    Scored { score: Score, max: Option<Score>, cause: Option<RejectionCause>, test: Option<String> },
}

pub enum VerdictView {
    Accepted,
    Rejected { cause: Option<RejectionCause>, test: Option<Seq<char>> },
    Pending { test: Option<Seq<char>> },
    Scored {
        score: Score,
        max: Option<Score>,
        cause: Option<RejectionCause>,
        test: Option<Seq<char>>,
    },
}

impl VerdictView {
    /// A verdict is either pending or final; nothing else.
    pub open spec fn is_terminal(self) -> bool {
        !(self is Pending)
    }
}

impl View for Verdict {
    type V = VerdictView;

    open spec fn view(&self) -> VerdictView {
        match self {
            Verdict::Accepted => VerdictView::Accepted,
            Verdict::Rejected { cause, test } => VerdictView::Rejected {
                cause: *cause,
                test: test.deep_view(),
            },
            Verdict::Pending { test } => VerdictView::Pending { test: test.deep_view() },
            Verdict::Scored { score, max, cause, test } => VerdictView::Scored {
                score: *score,
                max: *max,
                cause: *cause,
                test: test.deep_view(),
            },
        }
    }
}

impl DeepView for Verdict {
    type V = VerdictView;

    open spec fn deep_view(&self) -> VerdictView {
        self@
    }
}

impl Verdict {
    /// Whether the judge is done with the submission.
    pub fn is_terminal(&self) -> (terminal: bool)
        ensures
            terminal == self@.is_terminal(),
    {
        match self {
            Verdict::Pending { .. } => false,
            _ => true,
        }
    }
}

/// A language that a site offers for submissions.
#[derive(Clone, Debug, PartialEq, Eq)]
pub struct Language {
    pub id: String,
    pub name: String,
}

pub struct LanguageView {
    pub id: Seq<char>,
    pub name: Seq<char>,
}

impl View for Language {
    type V = LanguageView;

    open spec fn view(&self) -> LanguageView {
        LanguageView { id: self.id@, name: self.name@ }
    }
}

impl DeepView for Language {
    type V = LanguageView;

    open spec fn deep_view(&self) -> LanguageView {
        self@
    }
}

/// One submission as a site lists it: its identifier and the verdict read with it.
#[derive(Clone, Debug, PartialEq, Eq)]
pub struct Submission {
    pub id: String,
    pub verdict: Verdict,
}

pub struct SubmissionView {
    pub id: Seq<char>,
    pub verdict: VerdictView,
}

impl View for Submission {
    type V = SubmissionView;

    open spec fn view(&self) -> SubmissionView {
        SubmissionView { id: self.id@, verdict: self.verdict@ }
    }
}

impl DeepView for Submission {
    type V = SubmissionView;

    open spec fn deep_view(&self) -> SubmissionView {
        self@
    }
}

/// An example test of a task: an input and the output expected for it.
#[derive(Clone, Debug, PartialEq, Eq)]
pub struct Example {
    pub input: String,
    pub output: String,
}

pub struct ExampleView {
    pub input: Seq<char>,
    pub output: Seq<char>,
}

impl View for Example {
    type V = ExampleView;

    open spec fn view(&self) -> ExampleView {
        ExampleView { input: self.input@, output: self.output@ }
    }
}

impl DeepView for Example {
    type V = ExampleView;

    open spec fn deep_view(&self) -> ExampleView {
        self@
    }
}

/// What a site tells about a task.
#[derive(Clone, Debug, PartialEq, Eq)]
pub struct TaskDetails {
    pub symbol: String,
    pub title: String,
    pub contest_id: String,
    pub site_short: String,
    pub examples: Option<Vec<Example>>,
}

pub struct TaskDetailsView {
    pub symbol: Seq<char>,
    pub title: Seq<char>,
    pub contest_id: Seq<char>,
    pub site_short: Seq<char>,
    pub examples: Option<Seq<ExampleView>>,
}

impl View for TaskDetails {
    type V = TaskDetailsView;

    open spec fn view(&self) -> TaskDetailsView {
        TaskDetailsView {
            symbol: self.symbol@,
            title: self.title@,
            contest_id: self.contest_id@,
            site_short: self.site_short@,
            examples: self.examples.deep_view(),
        }
    }
}

impl DeepView for TaskDetails {
    type V = TaskDetailsView;

    open spec fn deep_view(&self) -> TaskDetailsView {
        self@
    }
}

} // verus!
