//! Reading values out of what selectors located in a page.
//!
//! A `Selection` holds the elements that one selector matched, in document order.
//! The operations here decide what counts as found, and say what was looked for
//! whenever they fail: nothing is defaulted.

use vstd::prelude::*;
use crate::error::{Cause, Context, ContextView};
use crate::text::same_text;

verus! {

/// One attribute of an element.
#[derive(Clone, Debug, PartialEq, Eq)]
pub struct Attribute {
    pub name: String,
    pub value: String,
}

pub struct AttributeView {
    pub name: Seq<char>,
    pub value: Seq<char>,
}

impl View for Attribute {
    type V = AttributeView;

    open spec fn view(&self) -> AttributeView {
        AttributeView { name: self.name@, value: self.value@ }
    }
}

impl DeepView for Attribute {
    type V = AttributeView;

    open spec fn deep_view(&self) -> AttributeView {
        self@
    }
}

/// An element that a selector located.
#[derive(Clone, Debug, PartialEq, Eq)]
pub struct Element {
    /// The selector that located the element.
    pub selector: String,
    /// The element's rendered text.
    pub text: String,
    pub attributes: Vec<Attribute>,
    /// The element's markup.
    pub snapshot: String,
}

pub struct ElementView {
    pub selector: Seq<char>,
    pub text: Seq<char>,
    pub attributes: Seq<AttributeView>,
    pub snapshot: Seq<char>,
}

impl View for Element {
    type V = ElementView;

    open spec fn view(&self) -> ElementView {
        ElementView {
            selector: self.selector@,
            text: self.text@,
            attributes: self.attributes.deep_view(),
            snapshot: self.snapshot@,
        }
    }
}

impl DeepView for Element {
    type V = ElementView;

    open spec fn deep_view(&self) -> ElementView {
        self@
    }
}

/// All elements that a selector matched within some scope, in document order.
#[derive(Clone, Debug, PartialEq, Eq)]
pub struct Selection {
    pub selector: String,
    /// The markup that was searched.
    pub scope: String,
    pub matches: Vec<Element>,
}

pub struct SelectionView {
    pub selector: Seq<char>,
    pub scope: Seq<char>,
    pub matches: Seq<ElementView>,
}

impl View for Selection {
    type V = SelectionView;

    open spec fn view(&self) -> SelectionView {
        SelectionView {
            selector: self.selector@,
            scope: self.scope@,
            matches: self.matches.deep_view(),
        }
    }
}

impl DeepView for Selection {
    type V = SelectionView;

    open spec fn deep_view(&self) -> SelectionView {
        self@
    }
}

/// The value of the first attribute called `name`, if there is one.
pub open spec fn attribute_value(attributes: Seq<AttributeView>, name: Seq<char>) -> Option<
    Seq<char>,
>
    decreases attributes.len(),
{
    if attributes.len() == 0 {
        None
    } else if attributes[0].name == name {
        Some(attributes[0].value)
    } else {
        attribute_value(attributes.drop_first(), name)
    }
}

impl SelectionView {
    /// What is reported when the selection does not hold the element asked for.
    pub open spec fn not_found(self) -> ContextView {
        ContextView {
            cause: Cause::NotFound,
            selector: self.selector,
            detail: Seq::empty(),
            snapshot: self.scope,
        }
    }

    /// The single match, or the failure: none and several are both failures.
    pub open spec fn find(self) -> Result<ElementView, ContextView> {
        if self.matches.len() == 1 {
            Ok(self.matches[0])
        } else {
            Err(self.not_found())
        }
    }

    /// The match at `index` in document order, or the failure.
    pub open spec fn find_nth(self, index: int) -> Result<ElementView, ContextView> {
        if 0 <= index < self.matches.len() {
            Ok(self.matches[index])
        } else {
            Err(self.not_found())
        }
    }
}

impl ElementView {
    /// What is reported when the element lacks the attribute `name`.
    pub open spec fn missing(self, name: Seq<char>) -> ContextView {
        ContextView {
            cause: Cause::MissingAttribute,
            selector: self.selector,
            detail: name,
            snapshot: self.snapshot,
        }
    }

    /// The value of the attribute `name`, or the failure.
    pub open spec fn attr(self, name: Seq<char>) -> Result<Seq<char>, ContextView> {
        match attribute_value(self.attributes, name) {
            Some(value) => Ok(value),
            None => Err(self.missing(name)),
        }
    }
}

/// The views of a `Result` that holds a reference to an element.
pub open spec fn found_view(r: Result<&Element, Context>) -> Result<ElementView, ContextView> {
    match r {
        Ok(element) => Ok(element@),
        Err(context) => Err(context@),
    }
}

/// The views of a `Result` that holds text.
pub open spec fn text_view(r: Result<&str, Context>) -> Result<Seq<char>, ContextView> {
    match r {
        Ok(text) => Ok(text@),
        Err(context) => Err(context@),
    }
}

impl Selection {
    fn not_found(&self) -> (context: Context)
        ensures
            context@ == self@.not_found(),
    {
        Context {
            cause: Cause::NotFound,
            selector: self.selector.clone(),
            detail: String::new(),
            snapshot: self.scope.clone(),
        }
    }

    /// The one element that the selector matched. Fails with `NotFound` when it
    /// matched none or more than one.
    pub fn find(&self) -> (found: Result<&Element, Context>)
        ensures
            found_view(found) == self@.find(),
            found is Ok <==> self.matches.len() == 1,
    {
        if self.matches.len() == 1 {
            Ok(&self.matches[0])
        } else {
            Err(self.not_found())
        }
    }

    /// Every element that the selector matched, in document order.
    pub fn find_all(&self) -> (all: &Vec<Element>)
        ensures
            all.deep_view() == self@.matches,
            all == &self.matches,
    {
        &self.matches
    }

    /// The match at `index`, counted from zero in document order. Fails with
    /// `NotFound` when there are not that many.
    pub fn find_nth(&self, index: usize) -> (found: Result<&Element, Context>)
        ensures
            found_view(found) == self@.find_nth(index as int),
            found is Ok <==> index < self.matches.len(),
    {
        if index < self.matches.len() {
            Ok(&self.matches[index])
        } else {
            Err(self.not_found())
        }
    }
}

impl Element {
    /// The element's rendered text.
    pub fn text(&self) -> (text: &str)
        ensures
            text@ == self@.text,
    {
        self.text.as_str()
    }

    /// The value of the attribute `name`. Fails with `MissingAttribute` when the
    /// element has no attribute of that name.
    pub fn attr(&self, name: &str) -> (value: Result<&str, Context>)
        ensures
            text_view(value) == self@.attr(name@),
            value is Ok <==> attribute_value(self@.attributes, name@) is Some,
    {
        let ghost all = self.attributes.deep_view();
        assert(all.skip(0) =~= all);
        let mut i: usize = 0;
        while i < self.attributes.len()
            invariant
                i <= self.attributes.len(),
                all == self.attributes.deep_view(),
                attribute_value(all, name@) == attribute_value(all.skip(i as int), name@),
            decreases self.attributes.len() - i,
        {
            let attribute = &self.attributes[i];
            proof {
                let rest = all.skip(i as int);
                assert(rest[0] == attribute@);
                assert(rest.drop_first() =~= all.skip(i + 1));
            }
            if same_text(attribute.name.as_str(), name) {
                return Ok(attribute.value.as_str());
            }
            i = i + 1;
        }
        Err(
            Context {
                cause: Cause::MissingAttribute,
                selector: self.selector.clone(),
                detail: name.to_owned(),
                snapshot: self.snapshot.clone(),
            },
        )
    }
}

} // verus!
