//! The optional human-readable detail carried by every error.

use vstd::prelude::*;

verus! {

/// An error's detail text; empty text is held as no text at all.
#[derive(Debug, Default, Clone, PartialEq, Eq)]
pub struct Message(pub Option<String>);

/// The detail that text `s` becomes: none when `s` is empty.
pub open spec fn message_of(s: Seq<char>) -> Option<Seq<char>> {
    if s.len() == 0 {
        None
    } else {
        Some(s)
    }
}

impl View for Message {
    type V = Option<Seq<char>>;

    open spec fn view(&self) -> Option<Seq<char>> {
        match self.0 {
            Some(s) => Some(s@),
            None => None,
        }
    }
}

impl Message {
    /// Detail from text; empty text gives no detail.
    pub fn from_str(msg: &str) -> (r: Message)
        ensures
            r@ == message_of(msg@),
    {
        if msg.is_empty() {
            Message(None)
        } else {
            Message(Some(msg.to_owned()))
        }
    }

    /// Detail from an owned text; empty text gives no detail.
    pub fn from_string(msg: String) -> (r: Message)
        ensures
            r@ == message_of(msg@),
    {
        if msg.as_str().is_empty() {
            Message(None)
        } else {
            Message(Some(msg))
        }
    }

    /// Detail that keeps the text as given, even when it is empty.
    pub fn verbatim(msg: &str) -> (r: Message)
        ensures
            r@ == Some(msg@),
    {
        Message(Some(msg.to_owned()))
    }

    /// The detail as text; no detail reads as the empty text.
    pub fn to_text(&self) -> (r: String)
        ensures
            r@ == (match self@ {
                Some(s) => s,
                None => Seq::<char>::empty(),
            }),
    {
        match &self.0 {
            Some(s) => s.clone(),
            None => String::new(),
        }
    }
}

} // verus!
