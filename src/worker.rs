//! The portal worker: the handshake, the copying and the teardown of one
//! portal connection, as a machine from events to plans of actions.
//!
//! The caller owns the TCP halves and the overlay context. It hands each
//! event to the worker and performs the returned actions in order, sending
//! every frame from the worker's remote address.
use vstd::prelude::*;
use crate::codec::{
    spec_decode, spec_decode_internal, spec_encode, DecodeError, MessageView, PortalInternalMessage,
    PortalMessage,
};
use crate::route::{copy_address, copy_route, route_view, same_address, Address, Route};

verus! {

/// How long the worker waits before notifying its peer, and before stopping
/// its receive processor, so that a teardown started at both ends at once
/// does not hit an already stopped destination.
pub const GRACE_MILLIS: u64 = 1000;

/// Which end of a portal a worker is.
#[derive(PartialEq, Eq, Structural, Debug, Clone, Copy)]
pub enum Role {
    /// Accepts a local TCP client and starts the handshake.
    Inlet,
    /// Dials a local TCP server when asked by an inlet.
    Outlet,
}

/// Who holds the read half of the worker's TCP stream.
#[derive(PartialEq, Eq, Structural, Debug, Clone, Copy)]
pub enum ReadHolder {
    /// The worker itself, before the handshake completes.
    Worker,
    /// The receive processor, after the handshake completes.
    Processor,
    /// No one: no stream yet, or the processor was stopped.
    Nobody,
}

/// Why a worker tears down.
#[derive(PartialEq, Eq, Structural, Debug, Clone, Copy)]
pub enum DisconnectionReason {
    /// A write to the local TCP stream failed.
    FailedTx,
    /// The receive processor reported a dead read half.
    FailedRx,
    /// The peer worker sent `Disconnect`.
    Remote,
}

/// The errors a worker hands back to the overlay.
#[derive(PartialEq, Eq, Structural, Debug, Clone, Copy)]
pub enum PortalError {
    /// An event arrived in a state that forbids it.
    InvalidState,
    /// A frame whose variant is forbidden here, or that cannot be read.
    Protocol,
    /// The onward route does not end at this worker.
    UnknownRoute,
    /// An outlet could not connect to its upstream server.
    Dial,
}

/// The handshake state of a worker, without its data.
#[derive(PartialEq, Eq, Structural, Debug, Clone, Copy)]
pub enum Phase {
    SendPing,
    SendPong,
    ReceivePong,
    Initialized,
}

/// The phase of a state.
pub open spec fn spec_phase(s: StateView) -> Phase {
    match s {
        StateView::SendPing(_) => Phase::SendPing,
        StateView::SendPong(_) => Phase::SendPong,
        StateView::ReceivePong => Phase::ReceivePong,
        StateView::Initialized => Phase::Initialized,
    }
}

/// The handshake state of a worker.
#[derive(PartialEq, Eq, Debug, Clone)]
pub enum State {
    /// An inlet that has yet to send `Ping` along this route.
    SendPing { ping_route: Route },
    /// An outlet that has yet to answer `Pong` along this route.
    SendPong { pong_route: Route },
    /// An inlet waiting for `Pong`.
    ReceivePong,
    /// Bytes flow in both directions.
    Initialized,
}

pub enum StateView {
    SendPing(Seq<Seq<u8>>),
    SendPong(Seq<Seq<u8>>),
    ReceivePong,
    Initialized,
}

impl View for State {
    type V = StateView;

    open spec fn view(&self) -> StateView {
        match self {
            State::SendPing { ping_route } => StateView::SendPing(route_view(ping_route@)),
            State::SendPong { pong_route } => StateView::SendPong(route_view(pong_route@)),
            State::ReceivePong => StateView::ReceivePong,
            State::Initialized => StateView::Initialized,
        }
    }
}

/// One step for the caller to perform.
#[derive(PartialEq, Eq, Debug, Clone)]
pub enum Action {
    /// Send `frame` along `route`, from the worker's remote address.
    Send { route: Route, frame: Vec<u8> },
    /// Connect to the TCP address `peer` and give both halves to the worker.
    Dial { peer: Vec<u8> },
    /// Move the read half into a new receive processor, registered under the
    /// receiver address, that forwards along `onward`.
    StartReceiver { onward: Route },
    /// Write `bytes` to the TCP write half.
    Write { bytes: Vec<u8> },
    /// Wait this many milliseconds.
    Pause { millis: u64 },
    /// Stop the receive processor.
    StopReceiver,
    /// Unregister the worker's internal address, which stops the worker.
    StopWorker,
}

pub enum ActionView {
    Send(Seq<Seq<u8>>, Seq<u8>),
    Dial(Seq<u8>),
    StartReceiver(Seq<Seq<u8>>),
    Write(Seq<u8>),
    Pause(u64),
    StopReceiver,
    StopWorker,
}

impl View for Action {
    type V = ActionView;

    open spec fn view(&self) -> ActionView {
        match self {
            Action::Send { route, frame } => ActionView::Send(route_view(route@), frame@),
            Action::Dial { peer } => ActionView::Dial(peer@),
            Action::StartReceiver { onward } => ActionView::StartReceiver(route_view(onward@)),
            Action::Write { bytes } => ActionView::Write(bytes@),
            Action::Pause { millis } => ActionView::Pause(*millis),
            Action::StopReceiver => ActionView::StopReceiver,
            Action::StopWorker => ActionView::StopWorker,
        }
    }
}

/// The actions of a plan, in order.
pub open spec fn plan_view(p: Seq<Action>) -> Seq<ActionView> {
    p.map_values(|a: Action| a@)
}

/// The plan of a step, or its error.
pub open spec fn outcome_view(r: Result<Vec<Action>, PortalError>) -> Result<Seq<ActionView>, PortalError> {
    match r {
        Ok(p) => Ok(plan_view(p@)),
        Err(e) => Err(e),
    }
}

/// The mathematical form of a worker.
pub struct WorkerView {
    pub state: StateView,
    pub role: Role,
    pub peer: Seq<u8>,
    pub has_write_half: bool,
    pub read_half: ReadHolder,
    pub internal_address: Seq<u8>,
    pub remote_address: Seq<u8>,
    pub remote_route: Option<Seq<Seq<u8>>>,
    pub disconnecting: bool,
}

/// The worker for one portal connection.
pub struct PortalWorker {
    state: State,
    role: Role,
    peer: Vec<u8>,
    has_write_half: bool,
    read_half: ReadHolder,
    internal_address: Address,
    remote_address: Address,
    remote_route: Option<Route>,
    disconnecting: bool,
}

impl View for PortalWorker {
    type V = WorkerView;

    closed spec fn view(&self) -> WorkerView {
        WorkerView {
            state: self.state@,
            role: self.role,
            peer: self.peer@,
            has_write_half: self.has_write_half,
            read_half: self.read_half,
            internal_address: self.internal_address@,
            remote_address: self.remote_address@,
            remote_route: match self.remote_route {
                Some(r) => Some(route_view(r@)),
                None => None,
            },
            disconnecting: self.disconnecting,
        }
    }
}

/// The invariant of a worker.
pub open spec fn wf(w: WorkerView) -> bool {
    &&& w.internal_address != w.remote_address
    &&& (w.state is Initialized <==> w.remote_route is Some)
    &&& (w.state is Initialized && !w.disconnecting ==> w.read_half == ReadHolder::Processor
        && w.has_write_half)
    &&& (!(w.state is Initialized) ==> !w.disconnecting && w.read_half != ReadHolder::Processor)
    &&& (w.state is SendPing || w.state is ReceivePong ==> w.role == Role::Inlet && w.read_half
        == ReadHolder::Worker && w.has_write_half)
    &&& (w.state is SendPong ==> w.role == Role::Outlet && (w.read_half == ReadHolder::Worker
        <==> w.has_write_half))
}

/// A new inlet, holding both halves of the accepted stream.
pub open spec fn spec_new_inlet(
    peer: Seq<u8>,
    internal: Seq<u8>,
    remote: Seq<u8>,
    ping_route: Seq<Seq<u8>>,
) -> WorkerView {
    WorkerView {
        state: StateView::SendPing(ping_route),
        role: Role::Inlet,
        peer,
        has_write_half: true,
        read_half: ReadHolder::Worker,
        internal_address: internal,
        remote_address: remote,
        remote_route: None,
        disconnecting: false,
    }
}

/// A new outlet, with no stream yet.
pub open spec fn spec_new_outlet(
    peer: Seq<u8>,
    internal: Seq<u8>,
    remote: Seq<u8>,
    pong_route: Seq<Seq<u8>>,
) -> WorkerView {
    WorkerView {
        state: StateView::SendPong(pong_route),
        role: Role::Outlet,
        peer,
        has_write_half: false,
        read_half: ReadHolder::Nobody,
        internal_address: internal,
        remote_address: remote,
        remote_route: None,
        disconnecting: false,
    }
}

/// What the worker does once registered.
pub open spec fn spec_initialize(w: WorkerView) -> (WorkerView, Result<Seq<ActionView>, PortalError>) {
    match w.state {
        StateView::SendPing(r) => (
            WorkerView { state: StateView::ReceivePong, ..w },
            Ok(seq![ActionView::Send(r, spec_encode(MessageView::Ping))]),
        ),
        StateView::SendPong(r) => (
            WorkerView {
                state: StateView::Initialized,
                has_write_half: true,
                read_half: ReadHolder::Processor,
                remote_route: Some(r),
                ..w
            },
            Ok(
                seq![ActionView::Send(r, spec_encode(MessageView::Pong))] + (if w.has_write_half {
                    Seq::<ActionView>::empty()
                } else {
                    seq![ActionView::Dial(w.peer)]
                }) + seq![ActionView::StartReceiver(r)],
            ),
        ),
        _ => (w, Err(PortalError::InvalidState)),
    }
}

/// The wait and the `Disconnect` that tell the peer of a teardown.
pub open spec fn spec_notify(w: WorkerView) -> Seq<ActionView> {
    seq![ActionView::Pause(GRACE_MILLIS)] + match w.remote_route {
        Some(r) => seq![ActionView::Send(r, spec_encode(MessageView::Disconnect))],
        None => Seq::<ActionView>::empty(),
    }
}

/// The wait and the stop of the receive processor.
pub open spec fn spec_stop_receiver() -> Seq<ActionView> {
    seq![ActionView::Pause(GRACE_MILLIS), ActionView::StopReceiver]
}

/// The teardown of a worker for a reason.
pub open spec fn spec_teardown(w: WorkerView, reason: DisconnectionReason) -> (WorkerView, Seq<ActionView>) {
    (
        WorkerView {
            disconnecting: true,
            has_write_half: false,
            read_half: if reason == DisconnectionReason::FailedTx {
                w.read_half
            } else {
                ReadHolder::Nobody
            },
            ..w
        },
        match reason {
            DisconnectionReason::FailedTx => spec_notify(w) + seq![ActionView::StopWorker],
            DisconnectionReason::FailedRx => spec_notify(w) + spec_stop_receiver() + seq![
                ActionView::StopWorker,
            ],
            DisconnectionReason::Remote => spec_stop_receiver() + seq![ActionView::StopWorker],
        },
    )
}

/// What the worker does with a frame routed to it.
pub open spec fn spec_handle_message(
    w: WorkerView,
    onward: Seq<Seq<u8>>,
    ret: Seq<Seq<u8>>,
    payload: Seq<u8>,
) -> (WorkerView, Result<Seq<ActionView>, PortalError>) {
    if w.disconnecting {
        (w, Ok(Seq::<ActionView>::empty()))
    } else if onward.len() != 1 {
        (w, Err(PortalError::UnknownRoute))
    } else {
        let to_internal = onward[0] == w.internal_address;
        match w.state {
            StateView::ReceivePong => {
                if to_internal {
                    (w, Err(PortalError::InvalidState))
                } else if spec_decode(payload) != Ok::<MessageView, DecodeError>(MessageView::Pong) {
                    (w, Err(PortalError::Protocol))
                } else if w.read_half != ReadHolder::Worker {
                    (w, Err(PortalError::InvalidState))
                } else {
                    (
                        WorkerView {
                            state: StateView::Initialized,
                            read_half: ReadHolder::Processor,
                            remote_route: Some(ret),
                            ..w
                        },
                        Ok(seq![ActionView::StartReceiver(ret)]),
                    )
                }
            },
            StateView::Initialized => {
                if to_internal {
                    if spec_decode_internal(payload) is Ok {
                        let (w2, p) = spec_teardown(w, DisconnectionReason::FailedRx);
                        (w2, Ok(p))
                    } else {
                        (w, Err(PortalError::Protocol))
                    }
                } else {
                    match spec_decode(payload) {
                        Ok(MessageView::Payload(b)) => if w.has_write_half {
                            (w, Ok(seq![ActionView::Write(b)]))
                        } else {
                            (w, Err(PortalError::InvalidState))
                        },
                        Ok(MessageView::Disconnect) => {
                            let (w2, p) = spec_teardown(w, DisconnectionReason::Remote);
                            (w2, Ok(p))
                        },
                        _ => (w, Err(PortalError::Protocol)),
                    }
                }
            },
            _ => (w, Err(PortalError::InvalidState)),
        }
    }
}

/// What the worker does when a write to its TCP stream failed.
pub open spec fn spec_write_failed(w: WorkerView) -> (WorkerView, Seq<ActionView>) {
    if w.disconnecting || !(w.state is Initialized) {
        (w, Seq::<ActionView>::empty())
    } else {
        spec_teardown(w, DisconnectionReason::FailedTx)
    }
}

impl PortalWorker {
    /// An inlet for a TCP stream accepted from `peer`, that will send `Ping`
    /// along `ping_route`.
    pub fn new_inlet(
        peer: Vec<u8>,
        internal_address: Address,
        remote_address: Address,
        ping_route: Route,
    ) -> (w: PortalWorker)
        requires
            internal_address@ != remote_address@,
        ensures
            w@ == spec_new_inlet(
                peer@,
                internal_address@,
                remote_address@,
                route_view(ping_route@),
            ),
            wf(w@),
    {
        PortalWorker {
            state: State::SendPing { ping_route },
            role: Role::Inlet,
            peer,
            has_write_half: true,
            read_half: ReadHolder::Worker,
            internal_address,
            remote_address,
            remote_route: None,
            disconnecting: false,
        }
    }

    /// An outlet asked for by a `Ping`, that will answer `Pong` along
    /// `pong_route` and then dial its upstream server at `peer`.
    pub fn new_outlet(
        peer: Vec<u8>,
        internal_address: Address,
        remote_address: Address,
        pong_route: Route,
    ) -> (w: PortalWorker)
        requires
            internal_address@ != remote_address@,
        ensures
            w@ == spec_new_outlet(
                peer@,
                internal_address@,
                remote_address@,
                route_view(pong_route@),
            ),
            wf(w@),
    {
        PortalWorker {
            state: State::SendPong { pong_route },
            role: Role::Outlet,
            peer,
            has_write_half: false,
            read_half: ReadHolder::Nobody,
            internal_address,
            remote_address,
            remote_route: None,
            disconnecting: false,
        }
    }

    /// The first step of a registered worker: an inlet sends `Ping`; an
    /// outlet answers `Pong`, dials if it has no stream, and starts its
    /// receive processor on the `Pong` route.
    pub fn initialize(&mut self) -> (r: Result<Vec<Action>, PortalError>)
        requires
            wf(old(self)@),
        ensures
            wf(final(self)@),
            (final(self)@, outcome_view(r)) == spec_initialize(old(self)@),
    {
        let mut st = State::Initialized;
        core::mem::swap(&mut st, &mut self.state);
        match st {
            State::SendPing { ping_route } => {
                self.state = State::ReceivePong;
                let frame = PortalMessage::Ping.encode();
                let plan = vec![Action::Send { route: ping_route, frame }];
                assert(plan_view(plan@) =~= seq![
                    ActionView::Send(route_view(ping_route@), spec_encode(MessageView::Ping)),
                ]);
                Ok(plan)
            },
            State::SendPong { pong_route } => {
                let ghost r = route_view(pong_route@);
                let mut plan: Vec<Action> = Vec::new();
                let frame = PortalMessage::Pong.encode();
                plan.push(Action::Send { route: copy_route(&pong_route), frame });
                if !self.has_write_half {
                    plan.push(Action::Dial { peer: copy_address(&self.peer) });
                }
                plan.push(Action::StartReceiver { onward: copy_route(&pong_route) });
                assert(plan_view(plan@) =~= seq![
                    ActionView::Send(r, spec_encode(MessageView::Pong)),
                ] + (if old(self).has_write_half {
                    Seq::<ActionView>::empty()
                } else {
                    seq![ActionView::Dial(old(self).peer@)]
                }) + seq![ActionView::StartReceiver(r)]);
                self.has_write_half = true;
                self.read_half = ReadHolder::Processor;
                self.remote_route = Some(pong_route);
                Ok(plan)
            },
            other => {
                self.state = other;
                Err(PortalError::InvalidState)
            },
        }
    }

    /// Latches `disconnecting` and plans the teardown for `reason`.
    fn start_disconnection(&mut self, reason: DisconnectionReason) -> (r: Vec<Action>)
        requires
            wf(old(self)@),
            old(self)@.state is Initialized,
        ensures
            wf(final(self)@),
            (final(self)@, plan_view(r@)) == spec_teardown(old(self)@, reason),
    {
        self.disconnecting = true;
        self.has_write_half = false;
        if reason != DisconnectionReason::FailedTx {
            self.read_half = ReadHolder::Nobody;
        }
        let mut plan: Vec<Action> = Vec::new();
        let ghost w = old(self)@;
        if reason != DisconnectionReason::Remote {
            plan.push(Action::Pause { millis: GRACE_MILLIS });
            match &self.remote_route {
                Some(route) => {
                    let frame = PortalMessage::Disconnect.encode();
                    plan.push(Action::Send { route: copy_route(route), frame });
                },
                None => {},
            }
            assert(plan_view(plan@) =~= spec_notify(w));
        }
        let ghost notified = plan_view(plan@);
        if reason != DisconnectionReason::FailedTx {
            plan.push(Action::Pause { millis: GRACE_MILLIS });
            plan.push(Action::StopReceiver);
            assert(plan_view(plan@) =~= notified + spec_stop_receiver());
        }
        let ghost stopped = plan_view(plan@);
        plan.push(Action::StopWorker);
        assert(plan_view(plan@) =~= stopped + seq![ActionView::StopWorker]);
        assert(plan_view(plan@) =~= spec_teardown(w, reason).1);
        plan
    }

    /// Handles a frame routed to the worker. `onward` is the route the frame
    /// still had to travel: its only hop must be one of the worker's two
    /// addresses, and any other length is an unknown route. `return_route`
    /// is the route back to the sender. Once a teardown has begun every frame
    /// is dropped without an error.
    pub fn handle_message(&mut self, onward: &Route, return_route: Route, payload: &Vec<u8>) -> (r:
        Result<Vec<Action>, PortalError>)
        requires
            wf(old(self)@),
        ensures
            wf(final(self)@),
            (final(self)@, outcome_view(r)) == spec_handle_message(
                old(self)@,
                route_view(onward@),
                route_view(return_route@),
                payload@,
            ),
    {
        if self.disconnecting {
            let plan: Vec<Action> = Vec::new();
            assert(plan_view(plan@) =~= Seq::<ActionView>::empty());
            return Ok(plan);
        }
        if onward.len() != 1 {
            return Err(PortalError::UnknownRoute);
        }
        let to_internal = same_address(&onward[0], &self.internal_address);
        assert(route_view(onward@)[0] == onward@[0]@);
        match self.state {
            State::ReceivePong => {
                if to_internal {
                    return Err(PortalError::InvalidState);
                }
                match PortalMessage::decode(payload) {
                    Ok(PortalMessage::Pong) => {},
                    _ => {
                        return Err(PortalError::Protocol);
                    },
                }
                if self.read_half != ReadHolder::Worker {
                    return Err(PortalError::InvalidState);
                }
                let plan = vec![Action::StartReceiver { onward: copy_route(&return_route) }];
                assert(plan_view(plan@) =~= seq![
                    ActionView::StartReceiver(route_view(return_route@)),
                ]);
                self.read_half = ReadHolder::Processor;
                self.remote_route = Some(return_route);
                self.state = State::Initialized;
                Ok(plan)
            },
            State::Initialized => {
                if to_internal {
                    match PortalInternalMessage::decode(payload) {
                        Ok(_) => Ok(self.start_disconnection(DisconnectionReason::FailedRx)),
                        Err(_) => Err(PortalError::Protocol),
                    }
                } else {
                    match PortalMessage::decode(payload) {
                        Ok(PortalMessage::Payload(bytes)) => {
                            if self.has_write_half {
                                let plan = vec![Action::Write { bytes }];
                                assert(plan_view(plan@) =~= seq![ActionView::Write(bytes@)]);
                                Ok(plan)
                            } else {
                                Err(PortalError::InvalidState)
                            }
                        },
                        Ok(PortalMessage::Disconnect) => Ok(
                            self.start_disconnection(DisconnectionReason::Remote),
                        ),
                        _ => Err(PortalError::Protocol),
                    }
                }
            },
            _ => Err(PortalError::InvalidState),
        }
    }

    /// Tears down after a write to the TCP stream failed: the peer is told,
    /// then the worker stops. Does nothing once a teardown has begun.
    pub fn write_failed(&mut self) -> (r: Vec<Action>)
        requires
            wf(old(self)@),
        ensures
            wf(final(self)@),
            (final(self)@, plan_view(r@)) == spec_write_failed(old(self)@),
    {
        if self.disconnecting {
            return Vec::new();
        }
        match self.state {
            State::Initialized => self.start_disconnection(DisconnectionReason::FailedTx),
            _ => Vec::new(),
        }
    }
}

impl PortalWorker {
    /// The handshake phase.
    pub fn phase(&self) -> (r: Phase)
        ensures
            r == spec_phase(self@.state),
    {
        match self.state {
            State::SendPing { .. } => Phase::SendPing,
            State::SendPong { .. } => Phase::SendPong,
            State::ReceivePong => Phase::ReceivePong,
            State::Initialized => Phase::Initialized,
        }
    }

    /// Whether this worker is an inlet or an outlet.
    pub fn role(&self) -> (r: Role)
        ensures
            r == self@.role,
    {
        self.role
    }

    /// Whether a teardown has begun.
    pub fn is_disconnecting(&self) -> (r: bool)
        ensures
            r == self@.disconnecting,
    {
        self.disconnecting
    }

    /// Who holds the read half.
    pub fn read_half(&self) -> (r: ReadHolder)
        ensures
            r == self@.read_half,
    {
        self.read_half
    }

    /// The TCP address of the local end this worker bridges to.
    pub fn peer(&self) -> (r: &Vec<u8>)
        ensures
            r@ == self@.peer,
    {
        &self.peer
    }

    /// Whether the worker holds the write half.
    pub fn has_write_half(&self) -> (r: bool)
        ensures
            r == self@.has_write_half,
    {
        self.has_write_half
    }

    /// The address the receive processor reports to.
    pub fn internal_address(&self) -> (r: &Address)
        ensures
            r@ == self@.internal_address,
    {
        &self.internal_address
    }

    /// The address the peer worker sends to, and that frames are sent from.
    pub fn remote_address(&self) -> (r: &Address)
        ensures
            r@ == self@.remote_address,
    {
        &self.remote_address
    }

    /// The route to the peer worker, once the handshake is complete.
    pub fn remote_route(&self) -> (r: Option<&Route>)
        ensures
            match (r, self@.remote_route) {
                (Some(a), Some(b)) => route_view(a@) == b,
                (None, None) => true,
                _ => false,
            },
    {
        match &self.remote_route {
            Some(route) => Some(route),
            None => None,
        }
    }
}

} // verus!
