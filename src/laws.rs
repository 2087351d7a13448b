//! Properties of a portal that hold across steps, proved over the spec
//! functions that the executable steps are held to.
use vstd::prelude::*;
use crate::codec::{spec_decode, spec_encode, DecodeError, MessageView};
use crate::receiver::{spec_receiver_step, ProcessorView, ReceiverStepView};
use crate::worker::{
    spec_handle_message, spec_initialize, spec_teardown, spec_write_failed, wf, ActionView,
    DisconnectionReason, PortalError, ReadHolder, StateView, WorkerView,
};

verus! {

/// How many receive processors a plan starts.
pub open spec fn starts(p: Seq<ActionView>) -> nat
    decreases p.len(),
{
    if p.len() == 0 {
        0
    } else {
        starts(p.drop_last()) + if p.last() is StartReceiver {
            1nat
        } else {
            0nat
        }
    }
}

proof fn lemma_starts_add(a: Seq<ActionView>, b: Seq<ActionView>)
    ensures
        starts(a + b) == starts(a) + starts(b),
    decreases b.len(),
{
    if b.len() == 0 {
        assert(a + b =~= a);
    } else {
        assert((a + b).drop_last() =~= a + b.drop_last());
        lemma_starts_add(a, b.drop_last());
    }
}

proof fn lemma_starts_none(p: Seq<ActionView>)
    requires
        forall|i: int| 0 <= i < p.len() ==> !(#[trigger] p[i] is StartReceiver),
    ensures
        starts(p) == 0,
    decreases p.len(),
{
    if p.len() > 0 {
        lemma_starts_none(p.drop_last());
    }
}

proof fn lemma_starts_one(a: ActionView)
    ensures
        starts(seq![a]) == if a is StartReceiver {
            1nat
        } else {
            0nat
        },
{
    assert(seq![a].drop_last() =~= Seq::<ActionView>::empty());
    assert(seq![a].last() == a);
    assert(starts(Seq::<ActionView>::empty()) == 0);
    reveal_with_fuel(starts, 2);
}

/// Whether a step left the handshake for `Initialized`.
pub open spec fn enters_initialized(before: WorkerView, after: WorkerView) -> bool {
    !(before.state is Initialized) && after.state is Initialized
}

/// Exactly one receive processor per session: a step that completes the
/// handshake starts exactly one, every other step starts none, and while a
/// worker is `Initialized` and not tearing down its processor holds the read
/// half.
pub proof fn lemma_one_receiver_per_session(
    w: WorkerView,
    onward: Seq<Seq<u8>>,
    ret: Seq<Seq<u8>>,
    payload: Seq<u8>,
)
    requires
        wf(w),
    ensures
        ({
            let (w2, r) = spec_initialize(w);
            &&& r is Ok ==> starts(r->Ok_0) == if enters_initialized(w, w2) {
                1nat
            } else {
                0nat
            }
            &&& w2.state is Initialized && !w2.disconnecting ==> w2.read_half
                == ReadHolder::Processor
        }),
        ({
            let (w2, r) = spec_handle_message(w, onward, ret, payload);
            &&& r is Ok ==> starts(r->Ok_0) == if enters_initialized(w, w2) {
                1nat
            } else {
                0nat
            }
            &&& w2.state is Initialized && !w2.disconnecting ==> w2.read_half
                == ReadHolder::Processor
        }),
        starts(spec_write_failed(w).1) == 0,
{
    let (w2, r) = spec_initialize(w);
    if let StateView::SendPong(route) = w.state {
        let head = seq![ActionView::Send(route, spec_encode(MessageView::Pong))] + (
        if w.has_write_half {
            Seq::<ActionView>::empty()
        } else {
            seq![ActionView::Dial(w.peer)]
        });
        lemma_starts_none(head);
        lemma_starts_add(head, seq![ActionView::StartReceiver(route)]);
        lemma_starts_one(ActionView::StartReceiver(route));
    } else if let StateView::SendPing(route) = w.state {
        lemma_starts_one(ActionView::Send(route, spec_encode(MessageView::Ping)));
    }
    let (w3, r3) = spec_handle_message(w, onward, ret, payload);
    if r3 is Ok {
        let p = r3->Ok_0;
        if w.state is ReceivePong && !w.disconnecting {
            lemma_starts_one(ActionView::StartReceiver(ret));
        } else {
            assert forall|i: int| 0 <= i < p.len() implies !(#[trigger] p[i] is StartReceiver) by {
            }
            lemma_starts_none(p);
        }
    }
    let failed_plan = spec_write_failed(w).1;
    assert forall|i: int| 0 <= i < failed_plan.len() implies !(#[trigger] failed_plan[i] is StartReceiver) by {}
    lemma_starts_none(failed_plan);
}

/// Teardown latches `disconnecting` in the state it returns, its plan
/// writes nothing to TCP and sends nothing but the peer's `Disconnect`, and
/// from then on no step plans any action at all.
pub proof fn lemma_quiet_after_teardown(
    w: WorkerView,
    reason: DisconnectionReason,
    onward: Seq<Seq<u8>>,
    ret: Seq<Seq<u8>>,
    payload: Seq<u8>,
)
    requires
        wf(w),
        w.state is Initialized,
        !w.disconnecting,
    ensures
        ({
            let (w2, p) = spec_teardown(w, reason);
            &&& w2.disconnecting
            &&& wf(w2)
            &&& forall|i: int| 0 <= i < p.len() ==> !(#[trigger] p[i] is Write)
            &&& forall|i: int|
                0 <= i < p.len() && #[trigger] p[i] is Send ==> p[i]->Send_1 == spec_encode(
                    MessageView::Disconnect,
                )
            &&& spec_handle_message(w2, onward, ret, payload) == (
                w2,
                Ok::<Seq<ActionView>, PortalError>(Seq::<ActionView>::empty()),
            )
            &&& spec_write_failed(w2) == (w2, Seq::<ActionView>::empty())
            &&& spec_initialize(w2) == (w2, Err::<Seq<ActionView>, PortalError>(
                PortalError::InvalidState,
            ))
        }),
{
}

/// Who holds the read half: the worker or no one during the handshake, the
/// processor while `Initialized`, and no one once a teardown for a dead read
/// half or for the peer has stopped the processor. Every step keeps the
/// worker's invariant.
pub proof fn lemma_read_half_holder(
    w: WorkerView,
    reason: DisconnectionReason,
    onward: Seq<Seq<u8>>,
    ret: Seq<Seq<u8>>,
    payload: Seq<u8>,
)
    requires
        wf(w),
    ensures
        !(w.state is Initialized) ==> w.read_half != ReadHolder::Processor,
        w.state is Initialized && !w.disconnecting ==> w.read_half == ReadHolder::Processor,
        wf(spec_initialize(w).0),
        wf(spec_handle_message(w, onward, ret, payload).0),
        wf(spec_write_failed(w).0),
        w.state is Initialized && !w.disconnecting && reason != DisconnectionReason::FailedTx
            ==> spec_teardown(w, reason).0.read_half == ReadHolder::Nobody,
{
}

/// An accepted `Pong` completes the handshake, with the `Pong`'s return
/// route as the route to the peer.
pub proof fn lemma_pong_sets_remote_route(w: WorkerView, ret: Seq<Seq<u8>>, payload: Seq<u8>)
    requires
        wf(w),
        w.state is ReceivePong,
        spec_decode(payload) == Ok::<MessageView, DecodeError>(MessageView::Pong),
    ensures
        ({
            let (w2, r) = spec_handle_message(w, seq![w.remote_address], ret, payload);
            &&& w2.state is Initialized
            &&& w2.remote_route == Some(ret)
            &&& r == Ok::<Seq<ActionView>, PortalError>(seq![ActionView::StartReceiver(ret)])
        }),
{
}

/// Bytes read on one side reach the other side's TCP stream unchanged: the
/// processor forwards a non-empty read as one frame on its route, and an
/// `Initialized` worker that receives that frame at its remote address plans
/// exactly one write of those bytes and stays as it was, so that successive
/// frames are written in the order they arrive.
pub proof fn lemma_payload_crosses(
    p: ProcessorView,
    w: WorkerView,
    bytes: Seq<u8>,
    ret: Seq<Seq<u8>>,
)
    requires
        wf(w),
        w.state is Initialized,
        !w.disconnecting,
        bytes.len() > 0,
    ensures
        ({
            let frame = spec_encode(MessageView::Payload(bytes));
            &&& spec_receiver_step(p, Some(bytes)) == ReceiverStepView::Forward(p.onward_route, frame)
            &&& spec_handle_message(w, seq![w.remote_address], ret, frame) == (
                w,
                Ok::<Seq<ActionView>, PortalError>(seq![ActionView::Write(bytes)]),
            )
        }),
{
    crate::codec::lemma_decode_encode(MessageView::Payload(bytes));
}

/// A second `Disconnect`, after a teardown has begun, is dropped without an
/// error and without any action.
pub proof fn lemma_second_disconnect_dropped(
    w: WorkerView,
    reason: DisconnectionReason,
    ret: Seq<Seq<u8>>,
)
    requires
        wf(w),
        w.state is Initialized,
        !w.disconnecting,
    ensures
        ({
            let w2 = spec_teardown(w, reason).0;
            spec_handle_message(w2, seq![w.remote_address], ret, spec_encode(MessageView::Disconnect))
                == (w2, Ok::<Seq<ActionView>, PortalError>(Seq::<ActionView>::empty()))
        }),
{
}

} // verus!
