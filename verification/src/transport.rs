//! What an adapter asks of the transport, and what it gets back, as plain data.
//!
//! The adapters never send anything themselves. They describe the request, and
//! read the response that the caller's transport brought.

use vstd::prelude::*;

verus! {

/// A name with a value: a header, or a field of a form.
#[derive(Clone, Debug, PartialEq, Eq)]
pub struct Field {
    pub name: String,
    pub value: String,
}

pub struct FieldView {
    pub name: Seq<char>,
    pub value: Seq<char>,
}

impl View for Field {
    type V = FieldView;

    open spec fn view(&self) -> FieldView {
        FieldView { name: self.name@, value: self.value@ }
    }
}

impl DeepView for Field {
    type V = FieldView;

    open spec fn deep_view(&self) -> FieldView {
        self@
    }
}

/// The field called `name` with the value `value`.
pub open spec fn field(name: Seq<char>, value: Seq<char>) -> FieldView {
    FieldView { name, value }
}

impl Field {
    pub fn new(name: &str, value: &str) -> (made: Field)
        ensures
            made@ == field(name@, value@),
    {
        Field { name: name.to_owned(), value: value.to_owned() }
    }
}

/// One part of a multipart body. A part that stands for an uploaded file names the
/// file and its media type; a plain text part has neither.
#[derive(Clone, Debug, PartialEq, Eq)]
pub struct Part {
    pub name: String,
    pub content: String,
    pub file_name: Option<String>,
    pub mime: Option<String>,
}

pub struct PartView {
    pub name: Seq<char>,
    pub content: Seq<char>,
    pub file_name: Option<Seq<char>>,
    pub mime: Option<Seq<char>>,
}

impl View for Part {
    type V = PartView;

    open spec fn view(&self) -> PartView {
        PartView {
            name: self.name@,
            content: self.content@,
            file_name: self.file_name.deep_view(),
            mime: self.mime.deep_view(),
        }
    }
}

impl DeepView for Part {
    type V = PartView;

    open spec fn deep_view(&self) -> PartView {
        self@
    }
}

/// The text part called `name` that holds `content`.
pub open spec fn text_part(name: Seq<char>, content: Seq<char>) -> PartView {
    PartView { name, content, file_name: None, mime: None }
}

/// The file part called `name`: a file named `file_name` of type `mime` that holds `content`.
pub open spec fn file_part(
    name: Seq<char>,
    content: Seq<char>,
    file_name: Seq<char>,
    mime: Seq<char>,
) -> PartView {
    PartView { name, content, file_name: Some(file_name), mime: Some(mime) }
}

impl Part {
    pub fn text(name: &str, content: &str) -> (made: Part)
        ensures
            made@ == text_part(name@, content@),
    {
        Part { name: name.to_owned(), content: content.to_owned(), file_name: None, mime: None }
    }

    pub fn file(name: &str, content: &str, file_name: &str, mime: &str) -> (made: Part)
        ensures
            made@ == file_part(name@, content@, file_name@, mime@),
    {
        Part {
            name: name.to_owned(),
            content: content.to_owned(),
            file_name: Some(file_name.to_owned()),
            mime: Some(mime.to_owned()),
        }
    }
}

/// What a request carries in its body.
#[derive(Clone, Debug, PartialEq, Eq)]
pub enum Payload {
    Nothing,
    Form(Vec<Field>),
    Multipart(Vec<Part>),
}

pub enum PayloadView {
    Nothing,
    Form(Seq<FieldView>),
    Multipart(Seq<PartView>),
}

impl View for Payload {
    type V = PayloadView;

    open spec fn view(&self) -> PayloadView {
        match self {
            Payload::Nothing => PayloadView::Nothing,
            Payload::Form(fields) => PayloadView::Form(fields.deep_view()),
            Payload::Multipart(parts) => PayloadView::Multipart(parts.deep_view()),
        }
    }
}

impl DeepView for Payload {
    type V = PayloadView;

    open spec fn deep_view(&self) -> PayloadView {
        self@
    }
}

/// A request for the transport to send within a session.
#[derive(Clone, Debug, PartialEq, Eq)]
pub struct Request {
    /// `true` for POST, `false` for GET.
    pub post: bool,
    pub url: String,
    pub headers: Vec<Field>,
    pub payload: Payload,
}

pub struct RequestView {
    pub post: bool,
    pub url: Seq<char>,
    pub headers: Seq<FieldView>,
    pub payload: PayloadView,
}

impl View for Request {
    type V = RequestView;

    open spec fn view(&self) -> RequestView {
        RequestView {
            post: self.post,
            url: self.url@,
            headers: self.headers.deep_view(),
            payload: self.payload@,
        }
    }
}

impl DeepView for Request {
    type V = RequestView;

    open spec fn deep_view(&self) -> RequestView {
        self@
    }
}

/// A plain GET of `url`.
pub open spec fn get_of(url: Seq<char>) -> RequestView {
    RequestView { post: false, url, headers: Seq::empty(), payload: PayloadView::Nothing }
}

impl Request {
    /// A GET of `url`, without headers of its own.
    pub fn get(url: String) -> (request: Request)
        ensures
            request@ == get_of(url@),
    {
        let request = Request { post: false, url, headers: Vec::new(), payload: Payload::Nothing };
        assert(request.headers.deep_view() =~= Seq::<FieldView>::empty());
        request
    }
}

} // verus!
