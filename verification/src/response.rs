//! What an accepted command hands back: the outbound messages and the
//! attributes that describe what was done.

use crate::msg::{PalomaMsg, PalomaMsgView};
use vstd::prelude::*;

verus! {

/// A key and a value that describe what was done.
#[derive(Clone, Debug, PartialEq, Eq)]
pub struct Attribute {
    pub key: String,
    pub value: String,
}

/// What an [`Attribute`] denotes.
pub struct AttributeView {
    pub key: Seq<char>,
    pub value: Seq<char>,
}

impl View for Attribute {
    type V = AttributeView;

    open spec fn view(&self) -> AttributeView {
        AttributeView { key: self.key@, value: self.value@ }
    }
}

/// The result of an accepted command.
#[derive(Clone, Debug, PartialEq, Eq)]
pub struct Response {
    /// The outbound messages, in the order in which they were added.
    pub messages: Vec<PalomaMsg>,
    /// The attributes, in the order in which they were added.
    pub attributes: Vec<Attribute>,
}

/// What a [`Response`] denotes.
pub struct ResponseView {
    pub messages: Seq<PalomaMsgView>,
    pub attributes: Seq<AttributeView>,
}

impl View for Response {
    type V = ResponseView;

    open spec fn view(&self) -> ResponseView {
        ResponseView {
            messages: self.messages@.map_values(|m: PalomaMsg| m@),
            attributes: self.attributes@.map_values(|a: Attribute| a@),
        }
    }
}

impl Response {
    /// A response without messages or attributes.
    pub fn new() -> (response: Response)
        ensures
            response@ == (ResponseView { messages: Seq::empty(), attributes: Seq::empty() }),
    {
        let response = Response { messages: Vec::new(), attributes: Vec::new() };
        assert(response@.messages =~= Seq::empty());
        assert(response@.attributes =~= Seq::empty());
        response
    }

    /// The response with one more message at the end.
    pub fn add_message(self, msg: PalomaMsg) -> (response: Response)
        ensures
            response@ == (ResponseView { messages: self@.messages.push(msg@), ..self@ }),
    {
        let mut response = self;
        response.messages.push(msg);
        assert(response@.messages =~= self@.messages.push(msg@));
        response
    }

    /// The response with one more attribute at the end.
    pub fn add_attribute(self, key: &str, value: &str) -> (response: Response)
        ensures
            response@ == (ResponseView {
                attributes: self@.attributes.push(AttributeView { key: key@, value: value@ }),
                ..self@
            }),
    {
        let mut response = self;
        response.attributes.push(Attribute { key: key.to_owned(), value: value.to_owned() });
        assert(response@.attributes =~= self@.attributes.push(
            AttributeView { key: key@, value: value@ },
        ));
        response
    }
}

} // verus!
