//! The broadcasting phase, as a machine that is told what the network
//! answered and says what to ask next.
//!
//! The caller performs each [`BroadcastAction`] and hands the answer back as a
//! [`BroadcastEvent`]. The machine never submits a transaction that the
//! network already holds, never submits to the wrong network, and gives up
//! after a fixed number of polls.

use crate::error::Error;
use crate::network::{
    receipt_wait, wait_for_receipt, NodeReceipt, ReceiptWait, ReceiptWaitView, MAX_ATTEMPTS,
};
use crate::types::{SignedTx, SignedTxView, TxHash, TxReceipt, TxReceiptView};
use vstd::prelude::*;

verus! {

/// What a transaction that is not yet submitted waits for.
#[derive(Clone, Copy, Debug, PartialEq, Eq, Structural)]
pub enum Pending {
    /// The word to start.
    Start,
    /// The connected network's chain id.
    ChainId,
    /// Whether the network already holds the transaction.
    Lookup,
    /// The network's answer to the submission.
    Submission,
}

/// Where a broadcast stands.
#[derive(Clone, Copy, Debug, PartialEq, Eq, Structural)]
pub enum BroadcastState {
    /// The network does not hold the transaction through this broadcast yet.
    NotSubmitted(Pending),
    /// The network holds the transaction; `attempts` polls went without a
    /// final receipt.
    Submitted { attempts: u32 },
    /// The receipt is there. Terminal.
    Confirmed,
    /// The polling budget is spent. Terminal.
    TimedOut,
    /// The broadcast failed. Terminal.
    Failed,
}

/// What the caller reports back.
#[derive(Clone, Copy, Debug, PartialEq, Eq)]
pub enum BroadcastEvent {
    /// The broadcast is to begin.
    Start,
    /// The chain id of the connected network.
    ChainId(u64),
    /// Whether the network knows a transaction of the looked-up hash.
    Known(bool),
    /// The network took the submission and knows it under this hash.
    Accepted(TxHash),
    /// The answer to a poll for the receipt.
    Receipt(Option<NodeReceipt>),
    /// The call to the node failed.
    RpcFailed,
}

/// What the caller is to do next.
#[derive(Clone, Debug, PartialEq, Eq)]
pub enum BroadcastAction {
    /// Ask the connected network for its chain id.
    GetChainId,
    /// Look the transaction up by this hash.
    LookUp(TxHash),
    /// Submit this signed encoding.
    Submit(Vec<u8>),
    /// Poll for the receipt of this hash.
    Poll(TxHash),
    /// Sleep for the polling interval, then poll for the receipt of this
    /// hash.
    WaitThenPoll(TxHash),
    /// Stop: the transaction is confirmed, with this receipt.
    Done(TxReceipt),
    /// Stop: the broadcast failed.
    Fail(Error),
}

/// [`BroadcastAction`] as a mathematical value.
pub enum BroadcastActionView {
    GetChainId,
    LookUp(Seq<u8>),
    Submit(Seq<u8>),
    Poll(Seq<u8>),
    WaitThenPoll(Seq<u8>),
    Done(TxReceiptView),
    Fail(Error),
}

impl View for BroadcastAction {
    type V = BroadcastActionView;

    open spec fn view(&self) -> BroadcastActionView {
        match self {
            BroadcastAction::GetChainId => BroadcastActionView::GetChainId,
            BroadcastAction::LookUp(h) => BroadcastActionView::LookUp(h@),
            BroadcastAction::Submit(raw) => BroadcastActionView::Submit(raw@),
            BroadcastAction::Poll(h) => BroadcastActionView::Poll(h@),
            BroadcastAction::WaitThenPoll(h) => BroadcastActionView::WaitThenPoll(h@),
            BroadcastAction::Done(t) => BroadcastActionView::Done(t@),
            BroadcastAction::Fail(e) => BroadcastActionView::Fail(*e),
        }
    }
}

/// Whether a state is terminal.
pub open spec fn is_terminal(state: BroadcastState) -> bool {
    state == BroadcastState::Confirmed || state == BroadcastState::TimedOut || state
        == BroadcastState::Failed
}

/// The answer to a poll that an event stands for: a receipt or none; a
/// failed call counts as none.
pub open spec fn poll_answer(event: BroadcastEvent) -> Option<Option<NodeReceipt>> {
    match event {
        BroadcastEvent::Receipt(answer) => Some(answer),
        BroadcastEvent::RpcFailed => Some(None),
        _ => None,
    }
}

/// The failure that ends a broadcast.
pub open spec fn failed(e: Error) -> (BroadcastState, BroadcastActionView) {
    (BroadcastState::Failed, BroadcastActionView::Fail(e))
}

/// One step of the broadcast.
///
/// 1. The chain id of the connected network has to be the one the
///    transaction was signed for; if not, the broadcast fails there.
/// 2. The transaction is looked up by its content hash. If the network holds
///    it, it is not submitted again.
/// 3. Otherwise the signed encoding is submitted; the hash the network
///    answers with has to be the content hash.
/// 4. The receipt is polled for. A receipt that is not final, no receipt and
///    a failed call each count as one attempt; the attempt that spends the
///    budget times the broadcast out.
///
/// A failed call anywhere but in the polling fails the broadcast. An event
/// that the state does not wait for fails it too.
pub open spec fn broadcast_step(signed: SignedTxView, state: BroadcastState, event: BroadcastEvent) -> (
    BroadcastState,
    BroadcastActionView,
) {
    match state {
        BroadcastState::NotSubmitted(Pending::Start) => match event {
            BroadcastEvent::Start => (
                BroadcastState::NotSubmitted(Pending::ChainId),
                BroadcastActionView::GetChainId,
            ),
            _ => failed(Error::UnexpectedEvent),
        },
        BroadcastState::NotSubmitted(Pending::ChainId) => match event {
            BroadcastEvent::ChainId(id) => if id == signed.metadata.network.chain_id {
                (
                    BroadcastState::NotSubmitted(Pending::Lookup),
                    BroadcastActionView::LookUp(signed.tx_hash),
                )
            } else {
                failed(
                    Error::ChainIdMismatch { expected: signed.metadata.network.chain_id, actual: id },
                )
            },
            BroadcastEvent::RpcFailed => failed(Error::Rpc),
            _ => failed(Error::UnexpectedEvent),
        },
        BroadcastState::NotSubmitted(Pending::Lookup) => match event {
            BroadcastEvent::Known(known) => if known {
                (BroadcastState::Submitted { attempts: 0 }, BroadcastActionView::Poll(signed.tx_hash))
            } else {
                (
                    BroadcastState::NotSubmitted(Pending::Submission),
                    BroadcastActionView::Submit(signed.signed_transaction),
                )
            },
            BroadcastEvent::RpcFailed => failed(Error::Rpc),
            _ => failed(Error::UnexpectedEvent),
        },
        BroadcastState::NotSubmitted(Pending::Submission) => match event {
            BroadcastEvent::Accepted(hash) => if hash@ == signed.tx_hash {
                (BroadcastState::Submitted { attempts: 0 }, BroadcastActionView::Poll(signed.tx_hash))
            } else {
                failed(Error::HashDivergence)
            },
            BroadcastEvent::RpcFailed => failed(Error::Rpc),
            _ => failed(Error::UnexpectedEvent),
        },
        BroadcastState::Submitted { attempts } => match poll_answer(event) {
            Some(answer) => match receipt_wait(attempts, answer) {
                ReceiptWaitView::Confirmed(receipt) => (
                    BroadcastState::Confirmed,
                    BroadcastActionView::Done(receipt),
                ),
                ReceiptWaitView::Pending { attempts } => (
                    BroadcastState::Submitted { attempts },
                    BroadcastActionView::WaitThenPoll(signed.tx_hash),
                ),
                ReceiptWaitView::TimedOut => (
                    BroadcastState::TimedOut,
                    BroadcastActionView::Fail(Error::Timeout),
                ),
            },
            None => failed(Error::UnexpectedEvent),
        },
        _ => (state, BroadcastActionView::Fail(Error::UnexpectedEvent)),
    }
}

/// The state in which every broadcast begins.
pub fn initial_state() -> (r: BroadcastState)
    ensures
        r == BroadcastState::NotSubmitted(Pending::Start),
{
    BroadcastState::NotSubmitted(Pending::Start)
}

/// A copy of the signed encoding.
fn raw_of(signed: &SignedTx) -> (r: Vec<u8>)
    ensures
        r@ == signed@.signed_transaction,
{
    let r = signed.signed_transaction.clone();
    assert(r@ =~= signed.signed_transaction@);
    r
}

/// Takes one event of the broadcast of `signed` in `state`, and gives the
/// next state and what to do.
pub fn execute(signed: &SignedTx, state: BroadcastState, event: BroadcastEvent) -> (r: (
    BroadcastState,
    BroadcastAction,
))
    ensures
        (r.0, r.1@) == broadcast_step(signed@, state, event),
{
    let unexpected = (BroadcastState::Failed, BroadcastAction::Fail(Error::UnexpectedEvent));
    let rpc_failed = (BroadcastState::Failed, BroadcastAction::Fail(Error::Rpc));
    match state {
        BroadcastState::NotSubmitted(Pending::Start) => match event {
            BroadcastEvent::Start => (
                BroadcastState::NotSubmitted(Pending::ChainId),
                BroadcastAction::GetChainId,
            ),
            _ => unexpected,
        },
        BroadcastState::NotSubmitted(Pending::ChainId) => match event {
            BroadcastEvent::ChainId(id) => {
                let expected = signed.metadata.network.chain_id;
                if id == expected {
                    (
                        BroadcastState::NotSubmitted(Pending::Lookup),
                        BroadcastAction::LookUp(signed.tx_hash),
                    )
                } else {
                    (
                        BroadcastState::Failed,
                        BroadcastAction::Fail(Error::ChainIdMismatch { expected, actual: id }),
                    )
                }
            },
            BroadcastEvent::RpcFailed => rpc_failed,
            _ => unexpected,
        },
        BroadcastState::NotSubmitted(Pending::Lookup) => match event {
            BroadcastEvent::Known(known) => {
                if known {
                    (BroadcastState::Submitted { attempts: 0 }, BroadcastAction::Poll(signed.tx_hash))
                } else {
                    (
                        BroadcastState::NotSubmitted(Pending::Submission),
                        BroadcastAction::Submit(raw_of(signed)),
                    )
                }
            },
            BroadcastEvent::RpcFailed => rpc_failed,
            _ => unexpected,
        },
        BroadcastState::NotSubmitted(Pending::Submission) => match event {
            BroadcastEvent::Accepted(hash) => {
                if hash.same_as(&signed.tx_hash) {
                    (BroadcastState::Submitted { attempts: 0 }, BroadcastAction::Poll(signed.tx_hash))
                } else {
                    (BroadcastState::Failed, BroadcastAction::Fail(Error::HashDivergence))
                }
            },
            BroadcastEvent::RpcFailed => rpc_failed,
            _ => unexpected,
        },
        BroadcastState::Submitted { attempts } => {
            let waited = match event {
                BroadcastEvent::Receipt(Some(node)) => wait_for_receipt(attempts, Some(&node)),
                BroadcastEvent::Receipt(None) => wait_for_receipt(attempts, None),
                BroadcastEvent::RpcFailed => wait_for_receipt(attempts, None),
                _ => {
                    return unexpected;
                },
            };
            match waited {
                ReceiptWait::Confirmed(receipt) => (
                    BroadcastState::Confirmed,
                    BroadcastAction::Done(receipt),
                ),
                ReceiptWait::Pending { attempts } => (
                    BroadcastState::Submitted { attempts },
                    BroadcastAction::WaitThenPoll(signed.tx_hash),
                ),
                ReceiptWait::TimedOut => (BroadcastState::TimedOut, BroadcastAction::Fail(Error::Timeout)),
            }
        },
        BroadcastState::Confirmed => (state, BroadcastAction::Fail(Error::UnexpectedEvent)),
        BroadcastState::TimedOut => (state, BroadcastAction::Fail(Error::UnexpectedEvent)),
        BroadcastState::Failed => (state, BroadcastAction::Fail(Error::UnexpectedEvent)),
    }
}

/// A whole broadcast: the events in the order they came, from `state` on.
/// Gives the state it ends in and the actions it asked for, one for each
/// event.
pub open spec fn broadcast_run(signed: SignedTxView, state: BroadcastState, events: Seq<BroadcastEvent>) -> (
    BroadcastState,
    Seq<BroadcastActionView>,
)
    decreases events.len(),
{
    if events.len() == 0 {
        (state, Seq::empty())
    } else {
        let (next, action) = broadcast_step(signed, state, events[0]);
        let (last, actions) = broadcast_run(signed, next, events.skip(1));
        (last, seq![action] + actions)
    }
}

/// An answer to a poll that does not confirm: no receipt, a receipt that is
/// not final, or a failed call.
pub open spec fn is_pending_answer(event: BroadcastEvent) -> bool {
    match poll_answer(event) {
        Some(answer) => !(answer is Some && answer->0.is_final()),
        None => false,
    }
}

/// A state from which nothing is submitted any more: the submission is under
/// way or done, or the broadcast has ended.
pub open spec fn past_lookup(state: BroadcastState) -> bool {
    state != BroadcastState::NotSubmitted(Pending::Start) && state != BroadcastState::NotSubmitted(
        Pending::ChainId,
    ) && state != BroadcastState::NotSubmitted(Pending::Lookup)
}

/// A run asks for as many actions as it was given events.
pub proof fn lemma_run_length(signed: SignedTxView, state: BroadcastState, events: Seq<BroadcastEvent>)
    ensures
        broadcast_run(signed, state, events).1.len() == events.len(),
    decreases events.len(),
{
    if events.len() > 0 {
        let next = broadcast_step(signed, state, events[0]).0;
        lemma_run_length(signed, next, events.skip(1));
    }
}

/// A run over two stretches of events is the run over the first, continued
/// over the second.
pub proof fn lemma_run_append(
    signed: SignedTxView,
    state: BroadcastState,
    first: Seq<BroadcastEvent>,
    second: Seq<BroadcastEvent>,
)
    ensures
        broadcast_run(signed, state, first + second).0 == broadcast_run(
            signed,
            broadcast_run(signed, state, first).0,
            second,
        ).0,
        broadcast_run(signed, state, first + second).1 == broadcast_run(signed, state, first).1
            + broadcast_run(signed, broadcast_run(signed, state, first).0, second).1,
    decreases first.len(),
{
    if first.len() == 0 {
        assert(first + second =~= second);
        assert(broadcast_run(signed, state, first).1 + broadcast_run(signed, state, second).1
            =~= broadcast_run(signed, state, second).1);
    } else {
        let whole = first + second;
        let (next, action) = broadcast_step(signed, state, first[0]);
        assert(whole[0] == first[0]);
        assert(whole.skip(1) =~= first.skip(1) + second);
        lemma_run_append(signed, next, first.skip(1), second);
        let mid = broadcast_run(signed, next, first.skip(1));
        let end = broadcast_run(signed, mid.0, second);
        assert(seq![action] + (mid.1 + end.1) =~= (seq![action] + mid.1) + end.1);
    }
}

/// Once the lookup is past, no run submits: a transaction is submitted at
/// most once in a broadcast.
pub proof fn lemma_no_submission_past_lookup(
    signed: SignedTxView,
    state: BroadcastState,
    events: Seq<BroadcastEvent>,
)
    requires
        past_lookup(state),
    ensures
        past_lookup(broadcast_run(signed, state, events).0),
        forall|i: int|
            0 <= i < events.len() ==> !(#[trigger] broadcast_run(signed, state, events).1[i]
                is Submit),
        state == BroadcastState::Failed ==> broadcast_run(signed, state, events).0
            == BroadcastState::Failed,
    decreases events.len(),
{
    lemma_run_length(signed, state, events);
    if events.len() > 0 {
        let (next, action) = broadcast_step(signed, state, events[0]);
        lemma_no_submission_past_lookup(signed, next, events.skip(1));
        lemma_run_length(signed, next, events.skip(1));
        let rest = broadcast_run(signed, next, events.skip(1)).1;
        let all = broadcast_run(signed, state, events).1;
        assert forall|i: int| 0 <= i < events.len() implies !(#[trigger] all[i] is Submit) by {
            if i > 0 {
                assert(all[i] == rest[i - 1]);
            }
        }
    }
}

/// A broadcast that finds itself connected to another network than the one
/// the transaction was signed for fails with the mismatch, and nothing is
/// ever submitted, whatever comes after.
pub proof fn lemma_chain_mismatch_aborts(signed: SignedTxView, actual: u64, rest: Seq<BroadcastEvent>)
    requires
        actual != signed.metadata.network.chain_id,
    ensures
        ({
            let events = seq![BroadcastEvent::Start, BroadcastEvent::ChainId(actual)] + rest;
            let run = broadcast_run(signed, BroadcastState::NotSubmitted(Pending::Start), events);
            &&& run.0 == BroadcastState::Failed
            &&& run.1[1] == BroadcastActionView::Fail(
                Error::ChainIdMismatch { expected: signed.metadata.network.chain_id, actual },
            )
            &&& forall|i: int| 0 <= i < events.len() ==> !(#[trigger] run.1[i] is Submit)
        }),
{
    let head = seq![BroadcastEvent::Start, BroadcastEvent::ChainId(actual)];
    let start = BroadcastState::NotSubmitted(Pending::Start);
    let events = head + rest;
    lemma_run_append(signed, start, head, rest);
    lemma_two_steps(signed, start, head);
    let first = broadcast_run(signed, start, head);
    assert(first.0 == BroadcastState::Failed);
    lemma_no_submission_past_lookup(signed, BroadcastState::Failed, rest);
    lemma_run_length(signed, start, head);
    lemma_run_length(signed, BroadcastState::Failed, rest);
    let run = broadcast_run(signed, start, events);
    let tail = broadcast_run(signed, BroadcastState::Failed, rest).1;
    assert forall|i: int| 0 <= i < events.len() implies !(#[trigger] run.1[i] is Submit) by {
        if i >= 2 {
            assert(run.1[i] == tail[i - 2]);
        }
    }
}

/// A run over two events is two steps.
proof fn lemma_two_steps(signed: SignedTxView, state: BroadcastState, events: Seq<BroadcastEvent>)
    requires
        events.len() == 2,
    ensures
        ({
            let (s1, a1) = broadcast_step(signed, state, events[0]);
            let (s2, a2) = broadcast_step(signed, s1, events[1]);
            broadcast_run(signed, state, events) == (s2, seq![a1, a2])
        }),
{
    let (s1, a1) = broadcast_step(signed, state, events[0]);
    let (s2, a2) = broadcast_step(signed, s1, events[1]);
    let e1 = events.skip(1);
    assert(e1.len() == 1);
    assert(e1[0] == events[1]);
    assert(e1.skip(1).len() == 0);
    assert(broadcast_run(signed, s2, e1.skip(1)) == (s2, Seq::<BroadcastActionView>::empty()));
    assert(broadcast_run(signed, s1, e1).1 =~= seq![a2]);
    assert(broadcast_run(signed, state, events).1 =~= seq![a1, a2]);
}

/// A run over three events is three steps.
proof fn lemma_three_steps(signed: SignedTxView, state: BroadcastState, events: Seq<BroadcastEvent>)
    requires
        events.len() == 3,
    ensures
        ({
            let (s1, a1) = broadcast_step(signed, state, events[0]);
            let (s2, a2) = broadcast_step(signed, s1, events[1]);
            let (s3, a3) = broadcast_step(signed, s2, events[2]);
            broadcast_run(signed, state, events) == (s3, seq![a1, a2, a3])
        }),
{
    let (s1, a1) = broadcast_step(signed, state, events[0]);
    let e1 = events.skip(1);
    assert(e1.len() == 2);
    assert(e1[0] == events[1] && e1[1] == events[2]);
    lemma_two_steps(signed, s1, e1);
    let (s2, a2) = broadcast_step(signed, s1, events[1]);
    let (s3, a3) = broadcast_step(signed, s2, events[2]);
    assert(seq![a1] + seq![a2, a3] =~= seq![a1, a2, a3]);
}

/// Polls that do not confirm, fewer than the budget allows, leave the
/// broadcast waiting: each is answered by a sleep and another poll.
pub proof fn lemma_pending_polls_wait(
    signed: SignedTxView,
    attempts: u32,
    answers: Seq<BroadcastEvent>,
)
    requires
        attempts + answers.len() < MAX_ATTEMPTS,
        forall|i: int| 0 <= i < answers.len() ==> is_pending_answer(#[trigger] answers[i]),
    ensures
        broadcast_run(signed, BroadcastState::Submitted { attempts }, answers).0
            == (BroadcastState::Submitted { attempts: (attempts + answers.len()) as u32 }),
        forall|i: int|
            0 <= i < answers.len() ==> #[trigger] broadcast_run(
                signed,
                BroadcastState::Submitted { attempts },
                answers,
            ).1[i] == BroadcastActionView::WaitThenPoll(signed.tx_hash),
    decreases answers.len(),
{
    let state = BroadcastState::Submitted { attempts };
    lemma_run_length(signed, state, answers);
    if answers.len() > 0 {
        assert(is_pending_answer(answers[0]));
        let (next, action) = broadcast_step(signed, state, answers[0]);
        assert(next == BroadcastState::Submitted { attempts: (attempts + 1) as u32 });
        let rest = answers.skip(1);
        assert forall|i: int| 0 <= i < rest.len() implies is_pending_answer(#[trigger] rest[i]) by {
            assert(rest[i] == answers[i + 1]);
        }
        lemma_pending_polls_wait(signed, (attempts + 1) as u32, rest);
        lemma_run_length(signed, next, rest);
        let all = broadcast_run(signed, state, answers).1;
        let tail = broadcast_run(signed, next, rest).1;
        assert forall|i: int| 0 <= i < answers.len() implies #[trigger] all[i]
            == BroadcastActionView::WaitThenPoll(signed.tx_hash) by {
            if i > 0 {
                assert(all[i] == tail[i - 1]);
            }
        }
    }
}

/// On a network that never mines the transaction the wait ends: after
/// exactly `MAX_ATTEMPTS` polls without a final receipt the broadcast has
/// timed out, and the last action reports the timeout.
pub proof fn lemma_unmined_times_out(signed: SignedTxView, answers: Seq<BroadcastEvent>)
    requires
        answers.len() == MAX_ATTEMPTS,
        forall|i: int| 0 <= i < answers.len() ==> is_pending_answer(#[trigger] answers[i]),
    ensures
        broadcast_run(signed, BroadcastState::Submitted { attempts: 0 }, answers).0
            == BroadcastState::TimedOut,
        broadcast_run(signed, BroadcastState::Submitted { attempts: 0 }, answers).1.last()
            == BroadcastActionView::Fail(Error::Timeout),
{
    let start = BroadcastState::Submitted { attempts: 0 };
    let waits = answers.drop_last();
    let last = seq![answers.last()];
    assert(answers =~= waits + last);
    assert forall|i: int| 0 <= i < waits.len() implies is_pending_answer(#[trigger] waits[i]) by {
        assert(waits[i] == answers[i]);
    }
    lemma_pending_polls_wait(signed, 0, waits);
    lemma_run_append(signed, start, waits, last);
    let mid = BroadcastState::Submitted { attempts: (MAX_ATTEMPTS - 1) as u32 };
    assert(broadcast_run(signed, start, waits).0 == mid);
    assert(is_pending_answer(answers[MAX_ATTEMPTS as int - 1]));
    lemma_one_step(signed, mid, last);
    lemma_run_length(signed, start, waits);
}

/// A run over one event is one step.
proof fn lemma_one_step(signed: SignedTxView, state: BroadcastState, events: Seq<BroadcastEvent>)
    requires
        events.len() == 1,
    ensures
        ({
            let (s1, a1) = broadcast_step(signed, state, events[0]);
            broadcast_run(signed, state, events) == (s1, seq![a1])
        }),
{
    let (s1, a1) = broadcast_step(signed, state, events[0]);
    assert(events.skip(1).len() == 0);
    assert(broadcast_run(signed, s1, events.skip(1)) == (s1, Seq::<BroadcastActionView>::empty()));
    assert(broadcast_run(signed, state, events).1 =~= seq![a1]);
}

/// The events of a broadcast that finds its transaction on the network
/// already: the right chain, the transaction known, some polls that do not
/// confirm, then the receipt.
pub open spec fn rebroadcast_events(
    signed: SignedTxView,
    waits: Seq<BroadcastEvent>,
    receipt: NodeReceipt,
) -> Seq<BroadcastEvent> {
    seq![
        BroadcastEvent::Start,
        BroadcastEvent::ChainId(signed.metadata.network.chain_id),
        BroadcastEvent::Known(true),
    ] + waits + seq![BroadcastEvent::Receipt(Some(receipt))]
}

/// Broadcasting again is safe. Let a first broadcast have ended with the
/// receipt that the network gave for the transaction. A second broadcast of
/// the same signed transaction then finds it on the network, submits nothing,
/// and ends with the same receipt.
pub proof fn lemma_rebroadcast_is_idempotent(
    signed: SignedTxView,
    first: Seq<BroadcastEvent>,
    waits: Seq<BroadcastEvent>,
    receipt: NodeReceipt,
)
    requires
        first.len() > 0,
        first.last() == BroadcastEvent::Receipt(Some(receipt)),
        broadcast_run(signed, BroadcastState::NotSubmitted(Pending::Start), first).1.last() is Done,
        waits.len() < MAX_ATTEMPTS,
        forall|i: int| 0 <= i < waits.len() ==> is_pending_answer(#[trigger] waits[i]),
    ensures
        ({
            let start = BroadcastState::NotSubmitted(Pending::Start);
            let second = rebroadcast_events(signed, waits, receipt);
            let again = broadcast_run(signed, start, second);
            &&& again.0 == BroadcastState::Confirmed
            &&& again.1.last() == broadcast_run(signed, start, first).1.last()
            &&& again.1.last() == BroadcastActionView::Done(crate::network::final_receipt(receipt))
            &&& forall|i: int| 0 <= i < second.len() ==> !(#[trigger] again.1[i] is Submit)
        }),
{
    let start = BroadcastState::NotSubmitted(Pending::Start);
    let confirming = seq![BroadcastEvent::Receipt(Some(receipt))];
    // The first broadcast: its last step took the receipt and confirmed.
    let before = first.drop_last();
    assert(first =~= before + confirming);
    lemma_run_append(signed, start, before, confirming);
    let reached = broadcast_run(signed, start, before).0;
    lemma_one_step(signed, reached, confirming);
    lemma_run_length(signed, start, before);
    assert(receipt.is_final());
    // The second broadcast.
    let head = seq![
        BroadcastEvent::Start,
        BroadcastEvent::ChainId(signed.metadata.network.chain_id),
        BroadcastEvent::Known(true),
    ];
    let second = rebroadcast_events(signed, waits, receipt);
    assert(second =~= head + (waits + confirming));
    lemma_three_steps(signed, start, head);
    let polling = BroadcastState::Submitted { attempts: 0 };
    assert(broadcast_run(signed, start, head).0 == polling);
    lemma_run_append(signed, start, head, waits + confirming);
    lemma_run_append(signed, polling, waits, confirming);
    lemma_pending_polls_wait(signed, 0, waits);
    let waited = BroadcastState::Submitted { attempts: waits.len() as u32 };
    lemma_one_step(signed, waited, confirming);
    lemma_run_length(signed, start, head);
    lemma_run_length(signed, polling, waits);
    lemma_no_submission_past_lookup(signed, polling, waits + confirming);
    lemma_run_length(signed, polling, waits + confirming);
    let again = broadcast_run(signed, start, second);
    let tail = broadcast_run(signed, polling, waits + confirming).1;
    assert forall|i: int| 0 <= i < second.len() implies !(#[trigger] again.1[i] is Submit) by {
        if i >= 3 {
            assert(again.1[i] == tail[i - 3]);
        }
    }
}

/// The events a broadcast takes at most from a state on before it has ended.
pub open spec fn steps_left(state: BroadcastState) -> nat {
    match state {
        BroadcastState::NotSubmitted(Pending::Start) => (MAX_ATTEMPTS + 4) as nat,
        BroadcastState::NotSubmitted(Pending::ChainId) => (MAX_ATTEMPTS + 3) as nat,
        BroadcastState::NotSubmitted(Pending::Lookup) => (MAX_ATTEMPTS + 2) as nat,
        BroadcastState::NotSubmitted(Pending::Submission) => (MAX_ATTEMPTS + 1) as nat,
        BroadcastState::Submitted { attempts } => if attempts < MAX_ATTEMPTS {
            (MAX_ATTEMPTS - attempts) as nat
        } else {
            1
        },
        _ => 0,
    }
}

/// Every broadcast ends, whatever the network answers: a terminal state is
/// never left, and from any state it is reached within `steps_left` events.
/// From the start that is the chain id, the lookup, the submission and at
/// most `MAX_ATTEMPTS` polls.
pub proof fn lemma_broadcast_ends(signed: SignedTxView, state: BroadcastState, events: Seq<BroadcastEvent>)
    requires
        events.len() >= steps_left(state),
    ensures
        is_terminal(broadcast_run(signed, state, events).0),
        is_terminal(state) ==> broadcast_run(signed, state, events).0 == state,
    decreases events.len(),
{
    if events.len() > 0 {
        let next = broadcast_step(signed, state, events[0]).0;
        assert(is_terminal(state) ==> next == state);
        assert(!is_terminal(state) ==> steps_left(next) + 1 <= steps_left(state));
        lemma_broadcast_ends(signed, next, events.skip(1));
    }
}

/// How many of the actions are submissions.
pub open spec fn submissions(actions: Seq<BroadcastActionView>) -> nat
    decreases actions.len(),
{
    if actions.len() == 0 {
        0
    } else {
        submissions(actions.drop_last()) + if actions.last() is Submit {
            1nat
        } else {
            0nat
        }
    }
}

/// Actions without a submission among them count none.
proof fn lemma_no_submissions(actions: Seq<BroadcastActionView>)
    requires
        forall|i: int| 0 <= i < actions.len() ==> !(#[trigger] actions[i] is Submit),
    ensures
        submissions(actions) == 0,
    decreases actions.len(),
{
    if actions.len() > 0 {
        let head = actions.drop_last();
        assert forall|i: int| 0 <= i < head.len() implies !(#[trigger] head[i] is Submit) by {
            assert(head[i] == actions[i]);
        }
        lemma_no_submissions(head);
    }
}

/// The submissions of two stretches of actions add up.
proof fn lemma_submissions_add(first: Seq<BroadcastActionView>, second: Seq<BroadcastActionView>)
    ensures
        submissions(first + second) == submissions(first) + submissions(second),
    decreases second.len(),
{
    if second.len() == 0 {
        assert(first + second =~= first);
    } else {
        assert((first + second).drop_last() =~= first + second.drop_last());
        assert((first + second).last() == second.last());
        lemma_submissions_add(first, second.drop_last());
    }
}

/// No broadcast submits its transaction twice, whatever events it is given:
/// from any state there is at most one submission, and none once the lookup
/// is past.
pub proof fn lemma_at_most_one_submission(
    signed: SignedTxView,
    state: BroadcastState,
    events: Seq<BroadcastEvent>,
)
    ensures
        submissions(broadcast_run(signed, state, events).1) <= 1,
        past_lookup(state) ==> submissions(broadcast_run(signed, state, events).1) == 0,
    decreases events.len(),
{
    lemma_run_length(signed, state, events);
    if past_lookup(state) {
        lemma_no_submission_past_lookup(signed, state, events);
        lemma_no_submissions(broadcast_run(signed, state, events).1);
    } else if events.len() == 0 {
        assert(submissions(Seq::<BroadcastActionView>::empty()) == 0);
    } else {
        let (next, action) = broadcast_step(signed, state, events[0]);
        let rest = broadcast_run(signed, next, events.skip(1)).1;
        lemma_at_most_one_submission(signed, next, events.skip(1));
        lemma_submissions_add(seq![action], rest);
        assert(seq![action].drop_last() =~= Seq::<BroadcastActionView>::empty());
        assert(submissions(seq![action]) == if action is Submit {
            1nat
        } else {
            0nat
        }) by {
            assert(submissions(seq![action].drop_last()) == 0);
        }
        if action is Submit {
            assert(past_lookup(next));
        }
    }
}

} // verus!
