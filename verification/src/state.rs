//! The conversation state and its chain operations.
//!
//! One `ChatState` owns one conversation: the append-only chain of stored
//! entries, the mutable head pointer, the single-flight pending-completion
//! token, the provider handles, the settings, and the subscribed channels.
//!
//! Entries are created only by appending and are never mutated or deleted.
//! An append stores the entry with the current head as its parent, under a
//! fresh id, and moves the head to the new entry; the chronological chain
//! is read back by walking parent ids from the head. Ids are the opaque
//! tokens the store assigns at store time, modeled here as the position
//! in the store's append order.

use vstd::prelude::*;
use crate::entry::{ChatEntry, ChatEntryView, ChatMessage, ChatMessageView};
use crate::errors::ChatStateError;
use crate::proxy::{Proxy, ProxyView};
use crate::settings::{ConversationSettings, ConversationSettingsView, McpServer, McpServerView};
use crate::types::Tool;
use vstd::pervasive::VecAdditionalExecFns;

verus! {

/// The chronological chain read from `messages` by walking parent ids
/// down from `head`: the entry at the head comes last. A dangling head
/// or parent id ends the walk (such a state is never well formed).
pub open spec fn chain_from(
    messages: Seq<ChatMessageView>,
    head: Option<int>,
) -> Seq<ChatMessageView>
    decreases (match head {
        Some(h) => h + 1,
        None => 0int,
    }),
{
    match head {
        None => Seq::empty(),
        Some(h) => {
            if 0 <= h < messages.len() {
                let m = messages[h];
                match m.parent_id {
                    Some(p) => {
                        if 0 <= p < h {
                            chain_from(messages, Some(p)).push(m)
                        } else {
                            seq![m]
                        }
                    },
                    None => seq![m],
                }
            } else {
                Seq::empty()
            }
        },
    }
}

/// Abstract value of a [`ChatState`].
#[verifier::ext_equal]
pub struct StateView {
    pub id: Seq<char>,
    pub conversation_id: Seq<char>,
    pub proxies: Seq<ProxyView>,
    pub messages: Seq<ChatMessageView>,
    pub settings: ConversationSettingsView,
    pub subscription_channels: Seq<Seq<char>>,
    pub store_id: Seq<char>,
    pub head: Option<int>,
    pub pending_completion: Option<Seq<char>>,
}

impl StateView {
    /// Well-formedness of the stored chain: each stored entry carries the
    /// id it was stored under, every parent id names an earlier stored
    /// entry, and the head, when set, names a stored entry.
    pub open spec fn wf(self) -> bool {
        &&& forall|i: int|
            0 <= i < self.messages.len() ==> (#[trigger] self.messages[i]).id == Some(i)
        &&& forall|i: int|
            0 <= i < self.messages.len() ==> match (#[trigger] self.messages[i]).parent_id {
                Some(p) => 0 <= p < i,
                None => true,
            }
        &&& match self.head {
            Some(h) => 0 <= h < self.messages.len(),
            None => true,
        }
    }

    /// The chronological chain of this state.
    pub open spec fn chain(self) -> Seq<ChatMessageView> {
        chain_from(self.messages, self.head)
    }

    /// The stored node an append of `e` creates: parent is the current
    /// head, id is the next store position.
    pub open spec fn appended_node(self, e: ChatEntryView) -> ChatMessageView {
        ChatMessageView {
            id: Some(self.messages.len() as int),
            parent_id: self.head,
            entry: e,
        }
    }

    /// The state after appending entry `e`: the node is stored under a
    /// fresh id, and the head moves to it. Nothing else changes.
    pub open spec fn append_model(self, e: ChatEntryView) -> StateView {
        StateView {
            messages: self.messages.push(self.appended_node(e)),
            head: Some(self.messages.len() as int),
            ..self
        }
    }
}

/// Appending never disturbs the chain read from an existing head: the
/// walk only visits stored positions below the head.
pub proof fn lemma_chain_frame(
    messages: Seq<ChatMessageView>,
    extra: ChatMessageView,
    head: Option<int>,
)
    requires
        match head {
            Some(h) => h < messages.len(),
            None => true,
        },
    ensures
        chain_from(messages.push(extra), head) == chain_from(messages, head),
    decreases (match head {
        Some(h) => h + 1,
        None => 0int,
    }),
{
    match head {
        None => {},
        Some(h) => {
            if 0 <= h < messages.len() {
                let m = messages[h];
                assert(messages.push(extra)[h] == m);
                match m.parent_id {
                    Some(p) => {
                        if 0 <= p < h {
                            lemma_chain_frame(messages, extra, Some(p));
                        }
                    },
                    None => {},
                }
            }
        },
    }
}

/// One append extends the chronological chain by exactly the new node,
/// and keeps the state well formed.
pub proof fn lemma_chain_append(s: StateView, e: ChatEntryView)
    requires
        s.wf(),
    ensures
        s.append_model(e).wf(),
        s.append_model(e).chain() == s.chain().push(s.appended_node(e)),
        s.append_model(e).head == Some(s.messages.len() as int),
{
    let n = s.messages.len() as int;
    let node = s.appended_node(e);
    let s2 = s.append_model(e);
    assert(s2.messages[n] == node);
    assert(forall|i: int| 0 <= i < n ==> s2.messages[i] == s.messages[i]);
    match s.head {
        Some(p) => {
            lemma_chain_frame(s.messages, node, Some(p));
        },
        None => {
            assert(s2.chain() =~= s.chain().push(node));
        },
    }
}

/// The channel list with every occurrence of one channel removed, the
/// other channels keeping their order.
pub open spec fn without_channel(channels: Seq<Seq<char>>, id: Seq<char>) -> Seq<Seq<char>>
    decreases channels.len(),
{
    if channels.len() == 0 {
        Seq::empty()
    } else {
        let rest = without_channel(channels.drop_last(), id);
        if channels.last() == id {
            rest
        } else {
            rest.push(channels.last())
        }
    }
}

/// One notification to one subscribed channel: either the new head or
/// the newly stored entry.
#[derive(Debug)]
pub enum Notice {
    Head { channel: String, head: Option<usize> },
    Entry { channel: String, message: ChatMessage },
}

/// Abstract value of a [`Notice`].
pub enum NoticeView {
    Head { channel: Seq<char>, head: Option<int> },
    Entry { channel: Seq<char>, message: ChatMessageView },
}

impl View for Notice {
    type V = NoticeView;

    open spec fn view(&self) -> NoticeView {
        match self {
            Notice::Head { channel, head } => NoticeView::Head {
                channel: channel@,
                head: crate::entry::id_view(*head),
            },
            Notice::Entry { channel, message } => NoticeView::Entry {
                channel: channel@,
                message: message@,
            },
        }
    }
}

impl DeepView for Notice {
    type V = NoticeView;

    open spec fn deep_view(&self) -> NoticeView {
        self.view()
    }
}

/// The fan-out an append owes its subscribers: for each subscribed
/// channel in order, first the head update, then the new entry.
pub open spec fn fanout_model(
    channels: Seq<Seq<char>>,
    head: Option<int>,
    message: ChatMessageView,
) -> Seq<NoticeView> {
    Seq::new(
        2 * channels.len(),
        |i: int|
            if i % 2 == 0 {
                NoticeView::Head { channel: channels[i / 2], head }
            } else {
                NoticeView::Entry { channel: channels[i / 2], message }
            },
    )
}

/// State of one conversation.
///
/// Only `add_message` (and the operations that append through it) and
/// `set_head` move the head: every other operation's contract leaves it
/// unchanged.
#[derive(Debug)]
pub struct ChatState {
    /// Runtime id of the actor hosting this conversation.
    pub id: String,
    /// Stable id of the conversation itself.
    pub conversation_id: String,
    /// Named handles to the registered completion providers.
    pub proxies: Vec<Proxy>,
    /// Every stored entry, in store order; a node's id is its position.
    pub messages: Vec<ChatMessage>,
    /// Conversation settings, including the configured tool servers.
    pub settings: ConversationSettings,
    /// Channels subscribed to head and entry notifications.
    pub subscription_channels: Vec<String>,
    /// Handle of the backing content store.
    pub store_id: String,
    /// Id of the most recently appended entry, if any.
    pub head: Option<usize>,
    /// Token of the in-flight completion cycle, if one is open.
    pub pending_completion: Option<String>,
}

impl View for ChatState {
    type V = StateView;

    open spec fn view(&self) -> StateView {
        StateView {
            id: self.id@,
            conversation_id: self.conversation_id@,
            proxies: self.proxies.deep_view(),
            messages: self.messages.deep_view(),
            settings: self.settings@,
            subscription_channels: self.subscription_channels.deep_view(),
            store_id: self.store_id@,
            head: crate::entry::id_view(self.head),
            pending_completion: self.pending_completion.deep_view(),
        }
    }
}

impl ChatState {
    /// Well-formedness of the state.
    pub open spec fn wf(&self) -> bool {
        self@.wf()
    }

    /// Initializes a fresh conversation: empty chain, no pending
    /// completion, no subscriptions.
    pub fn new(
        id: String,
        conversation_id: String,
        proxies: Vec<Proxy>,
        store_id: String,
        settings: ConversationSettings,
    ) -> (r: ChatState)
        ensures
            r.wf(),
            r@.id == id@,
            r@.conversation_id == conversation_id@,
            r@.proxies == proxies.deep_view(),
            r@.messages.len() == 0,
            r@.settings == settings@,
            r@.subscription_channels.len() == 0,
            r@.store_id == store_id@,
            r@.head is None,
            r@.pending_completion is None,
    {
        let r = ChatState {
            id,
            conversation_id,
            proxies,
            messages: Vec::new(),
            settings,
            subscription_channels: Vec::new(),
            store_id,
            head: None,
            pending_completion: None,
        };
        proof {
            assert(r@.messages =~= Seq::<ChatMessageView>::empty());
            assert(r@.subscription_channels =~= Seq::<Seq<char>>::empty());
        }
        r
    }

    /// The current head of the conversation.
    pub fn get_head(&self) -> (r: Option<usize>)
        ensures
            crate::entry::id_view(r) == self@.head,
    {
        self.head
    }

    /// Looks up a stored entry by id. An id no append has produced is
    /// simply not found.
    pub fn get_message(&self, id: usize) -> (r: Option<&ChatMessage>)
        ensures
            id < self@.messages.len() ==> (r matches Some(m) && m@ == self@.messages[id as int]),
            id >= self@.messages.len() ==> r is None,
    {
        if id < self.messages.len() {
            Some(&self.messages[id])
        } else {
            None
        }
    }

    /// Administrative head override. Fails with `HeadNotFound`, leaving
    /// the state unchanged, if a non-null target id is not a stored
    /// entry; otherwise moves the head there.
    pub fn set_head(&mut self, head: Option<usize>) -> (r: Result<(), ChatStateError>)
        requires
            old(self).wf(),
        ensures
            final(self).wf(),
            match head {
                Some(h) if h >= old(self)@.messages.len() => {
                    &&& r matches Err(ChatStateError::HeadNotFound { id }) && id == h
                    &&& final(self)@ == old(self)@
                },
                _ => {
                    &&& r is Ok
                    &&& final(self)@ == (StateView {
                        head: crate::entry::id_view(head),
                        ..old(self)@
                    })
                },
            },
    {
        if let Some(h) = head {
            if h >= self.messages.len() {
                return Err(ChatStateError::HeadNotFound { id: h });
            }
        }
        self.head = head;
        proof {
            assert(final(self)@ =~= (StateView { head: crate::entry::id_view(head), ..old(self)@ }));
        }
        Ok(())
    }

    /// Builds the notifications one stored entry owes the subscribed
    /// channels: for each channel in order, the head update first, then
    /// the entry itself.
    pub fn notify_subscribers(&self, message: &ChatMessage) -> (r: Vec<Notice>)
        ensures
            r.deep_view() == fanout_model(self@.subscription_channels, self@.head, message@),
    {
        let mut r: Vec<Notice> = Vec::new();
        let mut i: usize = 0;
        let ghost channels = self@.subscription_channels;
        while i < self.subscription_channels.len()
            invariant
                i <= self.subscription_channels.len(),
                channels == self@.subscription_channels,
                channels.len() == self.subscription_channels@.len(),
                r.deep_view() == fanout_model(channels.take(i as int), self@.head, message@),
            decreases self.subscription_channels.len() - i,
        {
            let channel = &self.subscription_channels[i];
            let ghost pre = r.deep_view();
            let n1 = Notice::Head { channel: channel.clone(), head: self.head };
            let n2 = Notice::Entry { channel: channel.clone(), message: message.clone() };
            let ghost v1 = n1@;
            let ghost v2 = n2@;
            r.push(n1);
            r.push(n2);
            i = i + 1;
            proof {
                assert(r.deep_view() =~= pre.push(v1).push(v2));
                let post = fanout_model(channels.take(i as int), self@.head, message@);
                assert(pre.len() == 2 * (i - 1));
                assert forall|j: int| 0 <= j < post.len() implies r.deep_view()[j] == post[j] by {
                    if j < 2 * (i - 1) {
                        assert(r.deep_view()[j] == pre[j]);
                        assert(channels.take(i - 1)[j / 2] == channels.take(i as int)[j / 2]);
                        assert(pre[j] == fanout_model(
                            channels.take(i - 1),
                            self@.head,
                            message@,
                        )[j]);
                    } else if j == 2 * (i - 1) {
                        assert(j % 2 == 0 && j / 2 == i - 1);
                        assert(r.deep_view()[j] == v1);
                        assert(channels.take(i as int)[i - 1] == channels[i - 1]);
                    } else {
                        assert(j == 2 * (i - 1) + 1);
                        assert(j % 2 == 1 && j / 2 == i - 1);
                        assert(r.deep_view()[j] == v2);
                        assert(channels.take(i as int)[i - 1] == channels[i - 1]);
                    }
                }
                assert(r.deep_view() =~= post);
            }
        }
        proof {
            assert(channels.take(channels.len() as int) =~= channels);
        }
        r
    }

    /// Appends an entry to the chain: stores it with the current head as
    /// parent under a fresh id, moves the head to it, and returns the id
    /// together with the notifications owed to the subscribed channels.
    pub fn add_message(&mut self, entry: ChatEntry) -> (r: (usize, Vec<Notice>))
        requires
            old(self).wf(),
            old(self)@.messages.len() < usize::MAX,
        ensures
            final(self).wf(),
            final(self)@ == old(self)@.append_model(entry@),
            r.0 == old(self)@.messages.len(),
            final(self)@.chain() == old(self)@.chain().push(old(self)@.appended_node(entry@)),
            r.1.deep_view() == fanout_model(
                old(self)@.subscription_channels,
                Some(r.0 as int),
                old(self)@.appended_node(entry@),
            ),
    {
        let id = self.messages.len();
        let node = ChatMessage { id: Some(id), parent_id: self.head, entry };
        self.messages.push(node);
        self.head = Some(id);
        proof {
            assert(final(self)@ =~= old(self)@.append_model(entry@));
            lemma_chain_append(old(self)@, entry@);
        }
        let notices = self.notify_subscribers(&self.messages[id]);
        (id, notices)
    }

    /// Reads the full chronological chain: the walk from the head via
    /// parent ids, reversed into append order. Empty when the head is
    /// unset.
    pub fn get_chain(&self) -> (r: Vec<ChatMessage>)
        requires
            self.wf(),
        ensures
            r.deep_view() == self@.chain(),
    {
        let mut backwards: Vec<ChatMessage> = Vec::new();
        let mut current: Option<usize> = self.head;
        let ghost msgs = self@.messages;
        while current.is_some()
            invariant
                self.wf(),
                msgs == self@.messages,
                match current {
                    Some(c) => c < self.messages.len(),
                    None => true,
                },
                chain_from(msgs, crate::entry::id_view(current)) + backwards.deep_view().reverse()
                    =~= self@.chain(),
            decreases (match current {
                Some(c) => c as int + 1,
                None => 0int,
            }),
        {
            let c = current.unwrap();
            let m = &self.messages[c];
            let ghost pre = backwards.deep_view();
            backwards.push(m.clone());
            proof {
                assert(backwards.deep_view() =~= pre.push(msgs[c as int]));
                assert(backwards.deep_view().reverse() =~= seq![msgs[c as int]] + pre.reverse());
            }
            current = m.parent_id;
            proof {
                let cur = crate::entry::id_view(current);
                assert(chain_from(msgs, Some(c as int)) == match cur {
                    Some(p) => chain_from(msgs, Some(p)).push(msgs[c as int]),
                    None => seq![msgs[c as int]],
                });
                assert(chain_from(msgs, cur) + backwards.deep_view().reverse() =~= self@.chain());
            }
        }
        let mut r: Vec<ChatMessage> = Vec::new();
        let mut i: usize = backwards.len();
        proof {
            assert(backwards.deep_view().reverse() =~= self@.chain());
        }
        while i > 0
            invariant
                i <= backwards.len(),
                backwards.deep_view().reverse() == self@.chain(),
                backwards.deep_view().len() == backwards@.len(),
                r.deep_view() =~= self@.chain().take((backwards@.len() - i) as int),
            decreases i,
        {
            i = i - 1;
            let ghost pre = r.deep_view();
            r.push(backwards[i].clone());
            proof {
                let n = backwards@.len() as int;
                assert(backwards.deep_view()[i as int] == self@.chain()[n - 1 - i]);
                assert(r.deep_view() =~= pre.push(self@.chain()[n - 1 - i]));
                assert(r.deep_view() =~= self@.chain().take(n - i));
            }
        }
        proof {
            assert(self@.chain().take(self@.chain().len() as int) =~= self@.chain());
        }
        r
    }

    /// Subscribes a channel; a channel already subscribed is kept once.
    pub fn add_subscription_channel(&mut self, channel_id: String)
        ensures
            old(self)@.subscription_channels.contains(channel_id@) ==> final(self)@ == old(self)@,
            !old(self)@.subscription_channels.contains(channel_id@) ==> final(self)@ == (StateView {
                subscription_channels: old(self)@.subscription_channels.push(channel_id@),
                ..old(self)@
            }),
    {
        let ghost channels = self@.subscription_channels;
        let mut i: usize = 0;
        while i < self.subscription_channels.len()
            invariant
                i <= self.subscription_channels.len(),
                channels == self@.subscription_channels,
                channels.len() == self.subscription_channels@.len(),
                self@ == old(self)@,
                forall|j: int| 0 <= j < i ==> channels[j] != channel_id@,
            decreases self.subscription_channels.len() - i,
        {
            proof {
                assert(channels[i as int] == self.subscription_channels@[i as int]@);
            }
            if self.subscription_channels[i] == channel_id {
                proof {
                    assert(channels.contains(channel_id@));
                }
                return ;
            }
            i = i + 1;
        }
        proof {
            assert(!channels.contains(channel_id@));
        }
        self.subscription_channels.push(channel_id);
        proof {
            assert(final(self)@ =~= (StateView {
                subscription_channels: old(self)@.subscription_channels.push(channel_id@),
                ..old(self)@
            }));
        }
    }

    /// Unsubscribes a closed channel; every other channel keeps its
    /// place.
    pub fn remove_subscription_channel(&mut self, channel_id: &String)
        ensures
            final(self)@ == (StateView {
                subscription_channels: without_channel(
                    old(self)@.subscription_channels,
                    channel_id@,
                ),
                ..old(self)@
            }),
    {
        let ghost channels = self@.subscription_channels;
        let mut kept: Vec<String> = Vec::new();
        let mut i: usize = 0;
        proof {
            assert(channels.take(0) =~= Seq::<Seq<char>>::empty());
            assert(kept.deep_view() =~= Seq::<Seq<char>>::empty());
        }
        while i < self.subscription_channels.len()
            invariant
                i <= self.subscription_channels.len(),
                channels == self@.subscription_channels,
                channels.len() == self.subscription_channels@.len(),
                self@ == old(self)@,
                kept.deep_view() == without_channel(channels.take(i as int), channel_id@),
            decreases self.subscription_channels.len() - i,
        {
            let ghost pre = kept.deep_view();
            proof {
                assert(channels[i as int] == self.subscription_channels@[i as int]@);
                assert(channels.take(i + 1).drop_last() =~= channels.take(i as int));
                assert(channels.take(i + 1).last() == channels[i as int]);
            }
            if !(self.subscription_channels[i] == *channel_id) {
                kept.push(self.subscription_channels[i].clone());
                proof {
                    assert(kept.deep_view() =~= pre.push(channels[i as int]));
                }
            }
            i = i + 1;
            proof {
                assert(kept.deep_view() == without_channel(
                    channels.take(i as int),
                    channel_id@,
                ));
            }
        }
        proof {
            assert(channels.take(channels.len() as int) =~= channels);
        }
        self.subscription_channels = kept;
        proof {
            assert(final(self)@ =~= (StateView {
                subscription_channels: without_channel(
                    old(self)@.subscription_channels,
                    channel_id@,
                ),
                ..old(self)@
            }));
        }
    }

    /// The conversation settings.
    pub fn get_settings(&self) -> (r: &ConversationSettings)
        ensures
            r@ == self@.settings,
    {
        &self.settings
    }

    /// Replaces the settings wholesale. The host must then bring up any
    /// newly configured tool servers (see `next_unstarted_server`) and
    /// persist the settings.
    pub fn update_settings(&mut self, settings: ConversationSettings)
        ensures
            final(self)@ == (StateView { settings: settings@, ..old(self)@ }),
    {
        self.settings = settings;
        proof {
            assert(final(self)@ =~= (StateView { settings: settings@, ..old(self)@ }));
        }
    }

    /// The first configured tool server that has no runtime handle yet,
    /// if any. A server is started at most once: one already carrying a
    /// handle is never offered again.
    pub fn next_unstarted_server(&self) -> (r: Option<usize>)
        ensures
            match r {
                Some(i) => {
                    &&& i < self@.settings.mcp_servers.len()
                    &&& self@.settings.mcp_servers[i as int].actor_id is None
                    &&& forall|j: int|
                        0 <= j < i ==> (#[trigger] self@.settings.mcp_servers[j]).actor_id is Some
                },
                None => forall|j: int|
                    0 <= j < self@.settings.mcp_servers.len() ==> (
                    #[trigger] self@.settings.mcp_servers[j]).actor_id is Some,
            },
    {
        let ghost servers = self@.settings.mcp_servers;
        let mut i: usize = 0;
        while i < self.settings.mcp_servers.len()
            invariant
                i <= self.settings.mcp_servers.len(),
                servers == self@.settings.mcp_servers,
                servers.len() == self.settings.mcp_servers@.len(),
                forall|j: int| 0 <= j < i ==> (#[trigger] servers[j]).actor_id is Some,
            decreases self.settings.mcp_servers.len() - i,
        {
            proof {
                assert(servers[i as int] == self.settings.mcp_servers@[i as int]@);
            }
            if self.settings.mcp_servers[i].actor_id.is_none() {
                return Some(i);
            }
            i = i + 1;
        }
        None
    }

    /// Records that the host has started one tool server: the server
    /// takes its runtime handle and its fetched tool list, which stays
    /// cached for the settings' lifetime. Nothing else changes.
    pub fn server_started(&mut self, index: usize, actor_id: String, tools: Vec<Tool>)
        requires
            index < old(self)@.settings.mcp_servers.len(),
        ensures
            final(self)@ == (StateView {
                settings: ConversationSettingsView {
                    mcp_servers: old(self)@.settings.mcp_servers.update(
                        index as int,
                        McpServerView {
                            actor_id: Some(actor_id@),
                            config: old(self)@.settings.mcp_servers[index as int].config,
                            tools: Some(tools.deep_view()),
                        },
                    ),
                    ..old(self)@.settings
                },
                ..old(self)@
            }),
    {
        let config = self.settings.mcp_servers[index].config.clone();
        let server = McpServer { actor_id: Some(actor_id), config, tools: Some(tools) };
        self.settings.mcp_servers.set(index, server);
        proof {
            assert(final(self)@.settings.mcp_servers =~= old(self)@.settings.mcp_servers.update(
                index as int,
                McpServerView {
                    actor_id: Some(actor_id@),
                    config: old(self)@.settings.mcp_servers[index as int].config,
                    tools: Some(tools.deep_view()),
                },
            ));
            assert(final(self)@ =~= (StateView {
                settings: ConversationSettingsView {
                    mcp_servers: old(self)@.settings.mcp_servers.update(
                        index as int,
                        McpServerView {
                            actor_id: Some(actor_id@),
                            config: old(self)@.settings.mcp_servers[index as int].config,
                            tools: Some(tools.deep_view()),
                        },
                    ),
                    ..old(self)@.settings
                },
                ..old(self)@
            }));
        }
    }
}

} // verus!
