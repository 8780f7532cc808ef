use vstd::prelude::*;

verus! {

/// An account of the chat service, as the remote API lists it.
#[derive(Debug, Clone, PartialEq, Eq)]
pub struct User {
    pub id: u64,
    pub name: String,
}

/// A file attached to a message: its name and the URL to fetch it from.
#[derive(Debug, Clone, PartialEq, Eq)]
pub struct Attachment {
    pub name: String,
    pub url: String,
}

/// One private message of a page.
#[derive(Debug, Clone, PartialEq, Eq)]
pub struct Message {
    /// The timestamp of the message, as the API gives it.
    pub date: String,
    /// The name of the sender, where the API names one.
    pub sender: Option<String>,
    pub body: String,
    pub attachment: Option<Attachment>,
}

} // verus!
