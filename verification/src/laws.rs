//! Laws of the conversation core.
//!
//! Each proof function here states a property of the state machine over
//! the same models the executable contracts use: `append_model` is the
//! transition `add_message` ensures, the pending-token steps are the
//! transitions `generate_completion`, `continue_chain`,
//! `resolve_pending_completion` and `fail_completion` ensure, and the
//! tool rounds are the appends `add_message` and `submit_tool_results`
//! ensure during the tool-use loop.

use vstd::prelude::*;
use crate::entry::ChatEntryView;
use crate::orchestrator::{entry_is_terminal, results_content, ToolOutcomeView};
use crate::state::{lemma_chain_append, StateView};
use crate::types::{CompletionResponseView, MessageView, Role, StopReasonView};

verus! {

/// The state after a sequence of appends, in order.
pub open spec fn apply_appends(s: StateView, es: Seq<ChatEntryView>) -> StateView
    decreases es.len(),
{
    if es.len() == 0 {
        s
    } else {
        apply_appends(s, es.drop_last()).append_model(es.last())
    }
}

/// Appends land in the chain in the exact order appended: after any
/// sequence of appends the chronological chain is the old chain followed
/// by one node per appended entry, in order, each stored under the next
/// fresh id; and the head is the id of the last append. Appending never
/// touches the pending token or the subscriptions.
pub proof fn lemma_appends_in_order(s: StateView, es: Seq<ChatEntryView>)
    requires
        s.wf(),
    ensures
        apply_appends(s, es).wf(),
        apply_appends(s, es).messages.len() == s.messages.len() + es.len(),
        apply_appends(s, es).chain().len() == s.chain().len() + es.len(),
        forall|k: int|
            0 <= k < s.chain().len() ==> apply_appends(s, es).chain()[k] == s.chain()[k],
        forall|k: int|
            0 <= k < es.len() ==> (#[trigger] apply_appends(s, es).chain()[s.chain().len() + k]).entry
                == es[k],
        forall|k: int|
            0 <= k < es.len() ==> (#[trigger] apply_appends(s, es).chain()[s.chain().len() + k]).id
                == Some(s.messages.len() + k),
        es.len() > 0 ==> apply_appends(s, es).head == Some(
            s.messages.len() + es.len() - 1,
        ),
        es.len() == 0 ==> apply_appends(s, es) == s,
        apply_appends(s, es).pending_completion == s.pending_completion,
        apply_appends(s, es).subscription_channels == s.subscription_channels,
    decreases es.len(),
{
    if es.len() > 0 {
        lemma_appends_in_order(s, es.drop_last());
        let s1 = apply_appends(s, es.drop_last());
        lemma_chain_append(s1, es.last());
        assert(apply_appends(s, es) == s1.append_model(es.last()));
        assert(s1.append_model(es.last()).chain() == s1.chain().push(
            s1.appended_node(es.last()),
        ));
    }
}

/// Storing an entry and fetching it by the returned id yields the entry
/// back: the round trip through the store is the identity on the entry.
/// `add_message` ensures the append transition, and `get_message` returns
/// exactly the stored node of a stored id.
pub proof fn lemma_store_round_trip(s: StateView, e: ChatEntryView)
    requires
        s.wf(),
    ensures
        ({
            let s2 = s.append_model(e);
            let id = s.messages.len() as int;
            &&& 0 <= id < s2.messages.len()
            &&& s2.messages[id].entry == e
            &&& s2.messages[id].id == Some(id)
            &&& s2.head == Some(id)
        }),
{
}

/// One step of the continuation controller's token protocol.
pub enum PendingOp {
    /// A caller asks to open a cycle under its token: succeeds only while
    /// no cycle is open (`generate_completion`'s lock step).
    Begin(Seq<char>),
    /// The cycle is closed and the deferred reply delivered if one is
    /// owed (`resolve_pending_completion`, the terminal step of
    /// `continue_chain`, or `fail_completion`).
    Resolve,
}

/// Runs the token protocol: the resulting token state, the number of
/// begins that succeeded, and the number of replies delivered.
pub open spec fn run_pending(p: Option<Seq<char>>, ops: Seq<PendingOp>) -> (
    Option<Seq<char>>,
    nat,
    nat,
)
    decreases ops.len(),
{
    if ops.len() == 0 {
        (p, 0nat, 0nat)
    } else {
        let (q, b, r) = run_pending(p, ops.drop_last());
        match ops.last() {
            PendingOp::Begin(t) => if q is None {
                (Some(t), b + 1, r)
            } else {
                (q, b, r)
            },
            PendingOp::Resolve => if q is Some {
                (None, b, r + 1)
            } else {
                (None, b, r)
            },
        }
    }
}

/// Every begin is matched by exactly one resolve: over any sequence of
/// protocol steps, the number of replies delivered never exceeds the
/// number of begins that succeeded, falls short of it by exactly one
/// while a cycle is open, and equals it once the cycle is closed — in
/// particular after the terminal step of any terminating stop-reason
/// sequence.
pub proof fn lemma_begin_resolve_balance(p: Option<Seq<char>>, ops: Seq<PendingOp>)
    requires
        p is None,
    ensures
        ({
            let (q, b, r) = run_pending(p, ops);
            &&& r <= b
            &&& q is Some ==> r + 1 == b
            &&& q is None ==> r == b
        }),
    decreases ops.len(),
{
    if ops.len() > 0 {
        lemma_begin_resolve_balance(p, ops.drop_last());
    }
}

/// One round of the tool-use loop: the provider's tool-use completion is
/// appended, and the outcomes of its planned calls are appended as a
/// single user message of tool-result blocks (`submit_tool_results`).
pub open spec fn tool_round(
    s: StateView,
    completion: CompletionResponseView,
    outcomes: Seq<ToolOutcomeView>,
) -> StateView {
    s.append_model(ChatEntryView::Completion(completion)).append_model(
        ChatEntryView::Message(
            MessageView { role: Role::User, content: results_content(outcomes) },
        ),
    )
}

/// The state after a sequence of tool-use rounds, in order.
pub open spec fn run_tool_rounds(
    s: StateView,
    rounds: Seq<(CompletionResponseView, Seq<ToolOutcomeView>)>,
) -> StateView
    decreases rounds.len(),
{
    if rounds.len() == 0 {
        s
    } else {
        tool_round(
            run_tool_rounds(s, rounds.drop_last()),
            rounds.last().0,
            rounds.last().1,
        )
    }
}

/// Termination accounting of the tool-use loop: a cycle that sees a
/// sequence of tool-use completions and then one terminal completion
/// appends exactly one tool-result message per tool-use completion —
/// two entries per round, in round order — keeps the cycle open through
/// every round (no reply is delivered before the end), and reaches a
/// terminal head exactly once, after the last completion; the one
/// resolution then closes the cycle, per `continue_chain`'s contract.
pub proof fn lemma_tool_loop(
    s: StateView,
    rounds: Seq<(CompletionResponseView, Seq<ToolOutcomeView>)>,
    last: CompletionResponseView,
)
    requires
        s.wf(),
        s.pending_completion is Some,
        !(last.stop_reason is ToolUse),
    ensures
        ({
            let s1 = run_tool_rounds(s, rounds);
            let s2 = s1.append_model(ChatEntryView::Completion(last));
            &&& s1.wf() && s2.wf()
            &&& s1.messages.len() == s.messages.len() + 2 * rounds.len()
            &&& s1.pending_completion == s.pending_completion
            &&& s2.pending_completion == s.pending_completion
            &&& forall|k: int|
                0 <= k < rounds.len() ==> (#[trigger] s1.messages[s.messages.len() + 2 * k]).entry
                    == ChatEntryView::Completion(rounds[k].0)
            &&& forall|k: int|
                0 <= k < rounds.len() ==> (#[trigger] s1.messages[
                    s.messages.len() + 2 * k + 1
                ]).entry == ChatEntryView::Message(
                    MessageView { role: Role::User, content: results_content(rounds[k].1) },
                )
            &&& s2.head == Some(s2.messages.len() - 1)
            &&& entry_is_terminal(s2.messages[s2.messages.len() - 1].entry)
        }),
    decreases rounds.len(),
{
    if rounds.len() == 0 {
    } else {
        lemma_tool_loop(s, rounds.drop_last(), last);
        let s0 = run_tool_rounds(s, rounds.drop_last());
        lemma_chain_append(s0, ChatEntryView::Completion(rounds.last().0));
        let sa = s0.append_model(ChatEntryView::Completion(rounds.last().0));
        lemma_chain_append(
            sa,
            ChatEntryView::Message(
                MessageView { role: Role::User, content: results_content(rounds.last().1) },
            ),
        );
    }
}

} // verus!
