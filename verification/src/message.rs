//! The conversation: an ordered list of role-tagged messages.

use crate::context::Record;
use vstd::prelude::*;

verus! {

/// One turn of a conversation.
///
/// The role is an opaque string: nothing here folds its case or trims it.
#[derive(Debug)]
pub struct Message {
    pub role: String,
    pub content: String,
}

/// A message as mathematics: two character sequences.
pub ghost struct MessageView {
    pub role: Seq<char>,
    pub content: Seq<char>,
}

impl View for Message {
    type V = MessageView;

    open spec fn view(&self) -> MessageView {
        MessageView { role: self.role@, content: self.content@ }
    }
}

impl DeepView for Message {
    type V = MessageView;

    open spec fn deep_view(&self) -> MessageView {
        self@
    }
}

/// The message of the given role and content.
pub open spec fn said(role: Seq<char>, content: Seq<char>) -> MessageView {
    MessageView { role, content }
}

impl MessageView {
    /// The record a template sees for this message: its role under `role`,
    /// then its content under `content`.
    pub open spec fn record(self) -> Record {
        seq![("role"@, self.role), ("content"@, self.content)]
    }
}

/// The records a template sees for a conversation, in turn order.
pub open spec fn records_of(conversation: Seq<MessageView>) -> Seq<Record> {
    conversation.map_values(|m: MessageView| m.record())
}

impl Message {
    /// This message as a record of named strings.
    pub fn record(&self) -> (fields: Vec<(&str, &str)>)
        ensures
            fields.deep_view() == self@.record(),
    {
        let fields = vec![("role", self.role.as_str()), ("content", self.content.as_str())];
        assert(fields.deep_view() =~= self@.record());
        fields
    }
}

/// The conversation as a list of records, in turn order.
pub fn records(messages: &Vec<Message>) -> (list: Vec<Vec<(&str, &str)>>)
    ensures
        list.deep_view() == records_of(messages.deep_view()),
{
    let mut list: Vec<Vec<(&str, &str)>> = Vec::new();
    let mut i: usize = 0;
    while i < messages.len()
        invariant
            i <= messages.len(),
            list.len() == i,
            forall|j: int| 0 <= j < i ==> (#[trigger] list[j]).deep_view() == messages[j]@.record(),
        decreases messages.len() - i,
    {
        list.push(messages[i].record());
        i += 1;
    }
    assert(list.deep_view() =~= records_of(messages.deep_view()));
    list
}

} // verus!
