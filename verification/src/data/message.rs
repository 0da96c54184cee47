use vstd::prelude::*;
use std::collections::HashMap;

verus! {

/// Who sent a message and who it is for.
#[derive(Debug)]
pub struct Header {
    source: String,
    target: String,
}

impl View for Header {
    /// The source and the target.
    type V = (Seq<char>, Seq<char>);

    closed spec fn view(&self) -> (Seq<char>, Seq<char>) {
        (self.source@, self.target@)
    }
}

impl Header {
    pub fn new(source: String, target: String) -> (h: Header)
        ensures
            h@ == (source@, target@),
    {
        Header { source, target }
    }

    pub fn source(&self) -> (s: &String)
        ensures
            s@ == self@.0,
    {
        &self.source
    }

    pub fn target(&self) -> (t: &String)
        ensures
            t@ == self@.1,
    {
        &self.target
    }
}

/// What a message asks for, and its argument.
#[derive(Debug)]
pub struct Body {
    pub command: String,
    pub payload: String,
}

/// A message between services: a header and a body.
#[derive(Debug)]
pub struct Message {
    pub header: Header,
    pub body: Body,
}

/// A message taken as characters: its header (source and target), its
/// command and its payload.
pub struct MessageView {
    pub header: (Seq<char>, Seq<char>),
    pub command: Seq<char>,
    pub payload: Seq<char>,
}

impl View for Message {
    type V = MessageView;

    open spec fn view(&self) -> MessageView {
        MessageView { header: self.header@, command: self.body.command@, payload: self.body.payload@ }
    }
}

/// Collects the attributes of a message's header and body.
pub struct MessageBuilder {
    header: HashMap<String, String>,
    body: HashMap<String, String>,
}

impl View for MessageBuilder {
    /// The header's attributes and the body's attributes.
    type V = (Map<String, String>, Map<String, String>);

    closed spec fn view(&self) -> (Map<String, String>, Map<String, String>) {
        (self.header@, self.body@)
    }
}

impl MessageBuilder {
    /// A builder with no attribute yet.
    pub fn new() -> (b: MessageBuilder)
        ensures
            b@.0 == Map::<String, String>::empty(),
            b@.1 == Map::<String, String>::empty(),
    {
        MessageBuilder { header: HashMap::new(), body: HashMap::new() }
    }
}

} // verus!
