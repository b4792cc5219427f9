//! Entries of the conversation chain.
//!
//! An entry is an immutable node: a plain message, a provider completion,
//! or an error record. A stored node wraps an entry with its id (assigned
//! at store time) and the id of its parent, the entry that was head when
//! it was appended.

use vstd::prelude::*;
use crate::types::{
    clone_opt_string, clone_vec_dv, CompletionResponse, CompletionResponseView, Message,
    MessageContent, MessageContentView, MessageView, Role,
};

verus! {

/// An error recorded in the chain: a message and an optional code.
#[derive(Debug)]
pub struct ChatError {
    pub message: String,
    pub code: Option<String>,
}

/// Abstract value of a [`ChatError`].
pub struct ChatErrorView {
    pub message: Seq<char>,
    pub code: Option<Seq<char>>,
}

impl View for ChatError {
    type V = ChatErrorView;

    open spec fn view(&self) -> ChatErrorView {
        ChatErrorView { message: self.message@, code: self.code.deep_view() }
    }
}

impl DeepView for ChatError {
    type V = ChatErrorView;

    open spec fn deep_view(&self) -> ChatErrorView {
        self.view()
    }
}

impl Clone for ChatError {
    fn clone(&self) -> (r: Self)
        ensures
            r@ == self@,
    {
        ChatError { message: self.message.clone(), code: clone_opt_string(&self.code) }
    }
}

/// One immutable node of the conversation chain.
#[derive(Debug)]
pub enum ChatEntry {
    Message(Message),
    Completion(CompletionResponse),
    Error(ChatError),
}

/// Abstract value of a [`ChatEntry`].
pub enum ChatEntryView {
    Message(MessageView),
    Completion(CompletionResponseView),
    Error(ChatErrorView),
}

impl View for ChatEntry {
    type V = ChatEntryView;

    open spec fn view(&self) -> ChatEntryView {
        match self {
            ChatEntry::Message(m) => ChatEntryView::Message(m@),
            ChatEntry::Completion(c) => ChatEntryView::Completion(c@),
            ChatEntry::Error(e) => ChatEntryView::Error(e@),
        }
    }
}

impl DeepView for ChatEntry {
    type V = ChatEntryView;

    open spec fn deep_view(&self) -> ChatEntryView {
        self.view()
    }
}

impl Clone for ChatEntry {
    fn clone(&self) -> (r: Self)
        ensures
            r@ == self@,
    {
        match self {
            ChatEntry::Message(m) => ChatEntry::Message(m.clone()),
            ChatEntry::Completion(c) => ChatEntry::Completion(c.clone()),
            ChatEntry::Error(e) => ChatEntry::Error(e.clone()),
        }
    }
}

/// How an entry is projected down to a plain provider message: a message
/// stands as it is, a completion keeps its role and content blocks, and
/// an error becomes a user message whose text is the error's message.
pub open spec fn message_of_entry(e: ChatEntryView) -> MessageView {
    match e {
        ChatEntryView::Message(m) => m,
        ChatEntryView::Completion(c) => MessageView { role: c.role, content: c.content },
        ChatEntryView::Error(err) => MessageView {
            role: Role::User,
            content: seq![MessageContentView::Text { text: err.message }],
        },
    }
}

impl ChatEntry {
    /// Projects the entry down to a plain provider message, so the
    /// provider only ever sees a conversation of role/content pairs.
    pub fn to_message(&self) -> (r: Message)
        ensures
            r@ == message_of_entry(self@),
    {
        match self {
            ChatEntry::Message(m) => m.clone(),
            ChatEntry::Completion(c) => Message {
                role: c.role,
                content: clone_vec_dv(&c.content),
            },
            ChatEntry::Error(err) => {
                let mut content: Vec<MessageContent> = Vec::new();
                content.push(MessageContent::Text { text: err.message.clone() });
                let r = Message { role: Role::User, content };
                proof {
                    assert(r@.content =~= message_of_entry(self@).content);
                }
                r
            },
        }
    }
}

/// A stored node of the chain: the entry together with its id and the id
/// of its parent. The id is `None` only before the node is stored.
#[derive(Debug)]
pub struct ChatMessage {
    pub id: Option<usize>,
    pub parent_id: Option<usize>,
    pub entry: ChatEntry,
}

/// Abstract value of a [`ChatMessage`].
pub struct ChatMessageView {
    pub id: Option<int>,
    pub parent_id: Option<int>,
    pub entry: ChatEntryView,
}

/// Abstract value of an optional id.
pub open spec fn id_view(o: Option<usize>) -> Option<int> {
    match o {
        Some(i) => Some(i as int),
        None => None,
    }
}

impl View for ChatMessage {
    type V = ChatMessageView;

    open spec fn view(&self) -> ChatMessageView {
        ChatMessageView {
            id: id_view(self.id),
            parent_id: id_view(self.parent_id),
            entry: self.entry@,
        }
    }
}

impl DeepView for ChatMessage {
    type V = ChatMessageView;

    open spec fn deep_view(&self) -> ChatMessageView {
        self.view()
    }
}

impl Clone for ChatMessage {
    fn clone(&self) -> (r: Self)
        ensures
            r@ == self@,
    {
        ChatMessage { id: self.id, parent_id: self.parent_id, entry: self.entry.clone() }
    }
}

} // verus!
