//! What is decided when a project is laid out for a task: which template to take,
//! how the files are called, and whether and how to ask for the project's directory.

use vstd::prelude::*;
use crate::model::{Example, ExampleView};
use crate::text::{join3, same_text};

verus! {

/// Why a project was not laid out.
#[derive(Clone, Debug, PartialEq, Eq)]
pub enum ScaffoldError {
    /// The user dismissed a question.
    Cancelled,
    /// No template has the name that is configured.
    NoTemplate(String),
}

pub enum ScaffoldErrorView {
    Cancelled,
    NoTemplate(Seq<char>),
}

impl View for ScaffoldError {
    type V = ScaffoldErrorView;

    open spec fn view(&self) -> ScaffoldErrorView {
        match self {
            ScaffoldError::Cancelled => ScaffoldErrorView::Cancelled,
            ScaffoldError::NoTemplate(name) => ScaffoldErrorView::NoTemplate(name@),
        }
    }
}

impl DeepView for ScaffoldError {
    type V = ScaffoldErrorView;

    open spec fn deep_view(&self) -> ScaffoldErrorView {
        self@
    }
}

/// `text` without the white space at its two ends.
pub uninterp spec fn trimmed(text: Seq<char>) -> Seq<char>;

/// `str::trim` of the standard library: the text without leading and trailing white
/// space. The result is named, and nothing else is claimed of it.
#[verifier::external_body]
fn trim(text: &str) -> (inner: &str)
    ensures
        inner@ == trimmed(text@),
{
    text.trim()
}

/// What the user's answer to the question for a task URL means, given the answer
/// and what is left of it without the white space at its ends.
pub open spec fn entered_url_of(answer: Option<Seq<char>>, inner: Seq<char>) -> Result<
    Option<Seq<char>>,
    ScaffoldErrorView,
> {
    match answer {
        None => Err(ScaffoldErrorView::Cancelled),
        Some(url) => if inner.len() == 0 {
            Ok(None)
        } else {
            Ok(Some(url))
        },
    }
}

/// Reads the user's answer to the question for a task URL, where `inner` is the
/// answer without the white space at its ends. A dismissed question cancels; an
/// answer of white space alone means that there is no task; any other answer is
/// the URL, as it was typed.
pub fn classify_url(answer: Option<String>, inner: &str) -> (url: Result<
    Option<String>,
    ScaffoldError,
>)
    ensures
        match url {
            Ok(found) => entered_url_of(answer.deep_view(), inner@) == Ok::<
                Option<Seq<char>>,
                ScaffoldErrorView,
            >(found.deep_view()),
            Err(error) => entered_url_of(answer.deep_view(), inner@) == Err::<
                Option<Seq<char>>,
                ScaffoldErrorView,
            >(error@),
        },
{
    match answer {
        None => Err(ScaffoldError::Cancelled),
        Some(url) => {
            if inner.unicode_len() == 0 {
                Ok(None)
            } else {
                Ok(Some(url))
            }
        },
    }
}

/// Reads the user's answer to the question for a task URL.
pub fn entered_url(answer: Option<String>) -> (url: Result<Option<String>, ScaffoldError>)
    ensures
        match url {
            Ok(found) => answer matches Some(typed) && entered_url_of(
                answer.deep_view(),
                trimmed(typed@),
            ) == Ok::<Option<Seq<char>>, ScaffoldErrorView>(found.deep_view()),
            Err(error) => answer is None && error@ == ScaffoldErrorView::Cancelled,
        },
{
    match answer {
        None => Err(ScaffoldError::Cancelled),
        Some(typed) => {
            let blank = trim(typed.as_str()).unicode_len() == 0;
            if blank {
                Ok(None)
            } else {
                Ok(Some(typed))
            }
        },
    }
}

/// A code template: its name, and where its file is.
#[derive(Clone, Debug, PartialEq, Eq)]
pub struct Template {
    pub id: String,
    pub path: String,
}

pub struct TemplateView {
    pub id: Seq<char>,
    pub path: Seq<char>,
}

impl View for Template {
    type V = TemplateView;

    open spec fn view(&self) -> TemplateView {
        TemplateView { id: self.id@, path: self.path@ }
    }
}

impl DeepView for Template {
    type V = TemplateView;

    open spec fn deep_view(&self) -> TemplateView {
        self@
    }
}

/// `at` is where the first template called `wanted` stands in `list`.
pub open spec fn is_first_named(list: Seq<TemplateView>, wanted: Seq<char>, at: int) -> bool {
    &&& 0 <= at < list.len()
    &&& list[at].id == wanted
    &&& forall|i: int| 0 <= i < at ==> list[i].id != wanted
}

/// What the user is told when the configured template does not exist.
pub open spec fn no_template_message(wanted: Seq<char>) -> Seq<char> {
    "template '"@ + wanted
        + "' does not exist; go to the settings(Ctrl+,), and either change the template(icie.init.solutionTemplate) or add a template with this name(icie.template.list)"@
}

impl ScaffoldError {
    /// The words in which the failure is told to the user.
    pub fn message(&self) -> (words: String)
        ensures
            match self@ {
                ScaffoldErrorView::Cancelled => words@ == "cancelled"@,
                ScaffoldErrorView::NoTemplate(wanted) => words@ == no_template_message(wanted),
            },
    {
        match self {
            ScaffoldError::Cancelled => "cancelled".to_owned(),
            ScaffoldError::NoTemplate(wanted) => join3(
                "template '",
                wanted.as_str(),
                "' does not exist; go to the settings(Ctrl+,), and either change the template(icie.init.solutionTemplate) or add a template with this name(icie.template.list)",
            ),
        }
    }
}

/// The file of the template called `wanted`: that of the first template of the
/// list with this name. Where the list has none, the failure names what was wanted.
pub fn find_template(list: &Vec<Template>, wanted: &str) -> (path: Result<String, ScaffoldError>)
    ensures
        match path {
            Ok(found) => exists|at: int|
                is_first_named(list.deep_view(), wanted@, at) && list.deep_view()[at].path
                    == found@,
            Err(error) => error@ == ScaffoldErrorView::NoTemplate(wanted@) && forall|i: int|
                0 <= i < list.deep_view().len() ==> (#[trigger] list.deep_view()[i]).id != wanted@,
        },
{
    let mut i: usize = 0;
    while i < list.len()
        invariant
            i <= list.len(),
            forall|j: int| 0 <= j < i ==> (#[trigger] list.deep_view()[j]).id != wanted@,
        decreases list.len() - i,
    {
        assert(list.deep_view()[i as int] == list@[i as int]@);
        if same_text(list[i].id.as_str(), wanted) {
            assert(is_first_named(list.deep_view(), wanted@, i as int));
            return Ok(list[i].path.clone());
        }
        i = i + 1;
    }
    Err(ScaffoldError::NoTemplate(wanted.to_owned()))
}

/// The name of the solution's file: the stem, a dot, and the extension.
pub fn solution_file(stem: &str, extension: &str) -> (name: String)
    ensures
        name@ == stem@ + "."@ + extension@,
{
    join3(stem, ".", extension)
}

/// The character that stands for a digit.
pub open spec fn digit_char(digit: nat) -> char {
    if digit == 0 {
        '0'
    } else if digit == 1 {
        '1'
    } else if digit == 2 {
        '2'
    } else if digit == 3 {
        '3'
    } else if digit == 4 {
        '4'
    } else if digit == 5 {
        '5'
    } else if digit == 6 {
        '6'
    } else if digit == 7 {
        '7'
    } else if digit == 8 {
        '8'
    } else {
        '9'
    }
}

/// A number written in decimal digits, without leading zeros.
pub open spec fn decimal_of(n: nat) -> Seq<char>
    decreases n,
{
    if n < 10 {
        seq![digit_char(n)]
    } else {
        decimal_of(n / 10).push(digit_char(n % 10))
    }
}

fn digit_text(digit: usize) -> (text: &'static str)
    requires
        digit < 10,
    ensures
        text@ == seq![digit_char(digit as nat)],
{
    proof {
        reveal_strlit("0");
        reveal_strlit("1");
        reveal_strlit("2");
        reveal_strlit("3");
        reveal_strlit("4");
        reveal_strlit("5");
        reveal_strlit("6");
        reveal_strlit("7");
        reveal_strlit("8");
        reveal_strlit("9");
    }
    let text = if digit == 0 {
        "0"
    } else if digit == 1 {
        "1"
    } else if digit == 2 {
        "2"
    } else if digit == 3 {
        "3"
    } else if digit == 4 {
        "4"
    } else if digit == 5 {
        "5"
    } else if digit == 6 {
        "6"
    } else if digit == 7 {
        "7"
    } else if digit == 8 {
        "8"
    } else {
        "9"
    };
    assert(text@ =~= seq![digit_char(digit as nat)]);
    text
}

/// A number written in decimal digits.
pub fn decimal(n: usize) -> (text: String)
    ensures
        text@ == decimal_of(n as nat),
    decreases n,
{
    if n < 10 {
        digit_text(n).to_owned()
    } else {
        let mut text = decimal(n / 10);
        text.append(digit_text(n % 10));
        assert(text@ =~= decimal_of((n / 10) as nat).push(digit_char((n % 10) as nat)));
        text
    }
}

/// A file to be written: its name and what it holds.
#[derive(Clone, Debug, PartialEq, Eq)]
pub struct NamedFile {
    pub name: String,
    pub content: String,
}

pub struct NamedFileView {
    pub name: Seq<char>,
    pub content: Seq<char>,
}

impl View for NamedFile {
    type V = NamedFileView;

    open spec fn view(&self) -> NamedFileView {
        NamedFileView { name: self.name@, content: self.content@ }
    }
}

impl DeepView for NamedFile {
    type V = NamedFileView;

    open spec fn deep_view(&self) -> NamedFileView {
        self@
    }
}

/// The file that holds the input of the example at `index`, counted from zero.
pub open spec fn input_file_of(index: nat, example: ExampleView) -> NamedFileView {
    NamedFileView { name: decimal_of(index + 1) + ".in"@, content: example.input }
}

/// The file that holds the expected output of the example at `index`.
pub open spec fn output_file_of(index: nat, example: ExampleView) -> NamedFileView {
    NamedFileView { name: decimal_of(index + 1) + ".out"@, content: example.output }
}

/// The files in which the examples of a task are kept: for each example its input
/// and then its output, numbered from 1 in the order of the examples.
pub fn example_files(examples: &Vec<Example>) -> (files: Vec<NamedFile>)
    ensures
        files.deep_view().len() == 2 * examples.deep_view().len(),
        forall|i: int|
            0 <= i < examples.deep_view().len() ==> {
                &&& files.deep_view()[2 * i] == input_file_of(
                    i as nat,
                    #[trigger] examples.deep_view()[i],
                )
                &&& files.deep_view()[2 * i + 1] == output_file_of(
                    i as nat,
                    examples.deep_view()[i],
                )
            },
{
    let mut files: Vec<NamedFile> = Vec::new();
    let mut i: usize = 0;
    while i < examples.len()
        invariant
            i <= examples.len(),
            files@.len() == 2 * i,
            forall|j: int|
                0 <= j < i ==> {
                    &&& files@[2 * j]@ == input_file_of(
                        j as nat,
                        #[trigger] examples.deep_view()[j],
                    )
                    &&& files@[2 * j + 1]@ == output_file_of(j as nat, examples.deep_view()[j])
                },
        decreases examples.len() - i,
    {
        let example = &examples[i];
        assert(examples.deep_view()[i as int] == example@);
        let mut input_name = decimal(i + 1);
        input_name.append(".in");
        let mut output_name = decimal(i + 1);
        output_name.append(".out");
        files.push(NamedFile { name: input_name, content: example.input.clone() });
        files.push(NamedFile { name: output_name, content: example.output.clone() });
        i = i + 1;
    }
    files
}

/// Whether, and how, the user is asked where a new project goes.
#[derive(Clone, Copy, Debug, PartialEq, Eq, Structural)]
pub enum PathDialog {
    /// The user is not asked.
    No,
    /// The user is asked in an input box.
    InputBox,
    /// The user is asked in a dialog of the system.
    SystemDialog,
}

/// What is to be done to learn a new project's directory.
#[derive(Clone, Debug, PartialEq, Eq)]
pub enum PathQuestion {
    /// Nothing: the directory is settled.
    Settled(String),
    /// Show an input box that holds `value`, with the bytes from `from` up to `to`
    /// selected, counted as the text is stored.
    InputBox { prompt: String, value: String, from: usize, to: usize },
    /// Show the system's dialog for choosing a directory.
    SystemDialog { action_label: String },
}

pub enum PathQuestionView {
    Settled(Seq<char>),
    InputBox { prompt: Seq<char>, value: Seq<char>, from: int, to: int },
    SystemDialog { action_label: Seq<char> },
}

impl View for PathQuestion {
    type V = PathQuestionView;

    open spec fn view(&self) -> PathQuestionView {
        match self {
            PathQuestion::Settled(path) => PathQuestionView::Settled(path@),
            PathQuestion::InputBox { prompt, value, from, to } => PathQuestionView::InputBox {
                prompt: prompt@,
                value: value@,
                from: *from as int,
                to: *to as int,
            },
            PathQuestion::SystemDialog { action_label } => PathQuestionView::SystemDialog {
                action_label: action_label@,
            },
        }
    }
}

impl DeepView for PathQuestion {
    type V = PathQuestionView;

    open spec fn deep_view(&self) -> PathQuestionView {
        self@
    }
}

/// `Path::join` of the standard library, on text. What it gives depends on the
/// platform's rules for paths, so nothing is claimed of the result.
#[verifier::external_body]
fn join_path(directory: &str, name: &str) -> (joined: String) {
    std::path::Path::new(directory).join(name).to_string_lossy().into_owned()
}

impl PathDialog {
    /// What is to be done to learn the directory, where `basic` is the directory
    /// proposed and `codename` its last part: in an input box the proposal is
    /// shown with the code name selected, so that typing replaces it.
    pub open spec fn question(self, basic: &str, codename: &str) -> PathQuestionView {
        match self {
            PathDialog::No => PathQuestionView::Settled(basic@),
            PathDialog::InputBox => PathQuestionView::InputBox {
                prompt: "New project directory"@,
                value: basic@,
                from: basic.len() - codename.len(),
                to: basic.len() as int,
            },
            PathDialog::SystemDialog => PathQuestionView::SystemDialog { action_label: "Init"@ },
        }
    }

    /// Whether the question can be put for the proposal `basic`. Only the input box
    /// asks anything of it: the code name is selected there, so it must fit.
    pub open spec fn can_ask(self, basic: &str, codename: &str) -> bool {
        self == PathDialog::InputBox ==> codename.len() <= basic.len()
    }

    /// What is to be done to learn the directory, given the directory proposed and
    /// the code name at its end.
    pub fn ask(&self, basic: &str, codename: &str) -> (question: PathQuestion)
        requires
            self.can_ask(basic, codename),
        ensures
            question@ == self.question(basic, codename),
    {
        match self {
            PathDialog::No => PathQuestion::Settled(basic.to_owned()),
            PathDialog::InputBox => PathQuestion::InputBox {
                prompt: "New project directory".to_owned(),
                value: basic.to_owned(),
                from: basic.len() - codename.len(),
                to: basic.len(),
            },
            PathDialog::SystemDialog => PathQuestion::SystemDialog {
                action_label: "Init".to_owned(),
            },
        }
    }

    /// What is to be done to learn the directory of a new project called `codename`
    /// under `directory`. The proposal is `directory` joined with `codename` as the
    /// platform joins paths. Without a dialog the proposal is the directory, and the
    /// system's dialog does not show it: both always give a question. The input box
    /// gives none where the proposal came out shorter than the code name, so that
    /// no part of it could be selected.
    pub fn query(&self, directory: &str, codename: &str) -> (question: Option<PathQuestion>)
        ensures
            *self != PathDialog::InputBox ==> question is Some,
            *self == PathDialog::SystemDialog ==> (question matches Some(asked) && asked@
                == PathQuestionView::SystemDialog { action_label: "Init"@ }),
            question matches Some(asked) ==> exists|basic: &str|
                self.can_ask(basic, codename) && asked@ == #[trigger] self.question(
                    basic,
                    codename,
                ),
    {
        let basic = join_path(directory, codename);
        match self {
            PathDialog::InputBox => {
                if codename.len() <= basic.as_str().len() {
                    Some(self.ask(basic.as_str(), codename))
                } else {
                    None
                }
            },
            _ => Some(self.ask(basic.as_str(), codename)),
        }
    }

    /// The directory that the user chose, or the cancellation where the question
    /// was dismissed.
    pub fn answer(&self, chosen: Option<String>) -> (path: Result<String, ScaffoldError>)
        ensures
            match path {
                Ok(found) => chosen == Some(found),
                Err(error) => chosen is None && error@ == ScaffoldErrorView::Cancelled,
            },
    {
        match chosen {
            Some(path) => Ok(path),
            None => Err(ScaffoldError::Cancelled),
        }
    }
}

} // verus!
