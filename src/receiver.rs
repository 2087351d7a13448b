//! The receive processor: what it does with each read of the TCP read half.
//!
//! The caller reads from the socket and performs the step returned; a
//! `Forward` is sent from the worker's remote address, so that replies reach
//! the peer worker. After a `Signal` the processor stops.
use vstd::prelude::*;
use crate::codec::{spec_encode, spec_encode_internal, MessageView, PortalInternalMessage, PortalMessage};
use crate::route::{copy_address, copy_route, route_view, Address, Route};

verus! {

/// What one read of the TCP read half gave.
#[derive(PartialEq, Eq, Debug, Clone)]
pub enum ReadOutcome {
    /// These bytes; none at all means end of stream.
    Bytes(Vec<u8>),
    /// The read failed.
    Failed,
}

/// What the processor does next.
#[derive(PartialEq, Eq, Debug, Clone)]
pub enum ReceiverStep {
    /// Send `frame` along `route` to the peer worker.
    Forward { route: Route, frame: Vec<u8> },
    /// Send `frame` to the worker at `to`, then stop.
    Signal { to: Address, frame: Vec<u8> },
}

pub enum ReceiverStepView {
    Forward(Seq<Seq<u8>>, Seq<u8>),
    Signal(Seq<u8>, Seq<u8>),
}

impl View for ReceiverStep {
    type V = ReceiverStepView;

    open spec fn view(&self) -> ReceiverStepView {
        match self {
            ReceiverStep::Forward { route, frame } => ReceiverStepView::Forward(
                route_view(route@),
                frame@,
            ),
            ReceiverStep::Signal { to, frame } => ReceiverStepView::Signal(to@, frame@),
        }
    }
}

/// The processor of one worker, reading its TCP stream.
pub struct ReceiveProcessor {
    internal_address: Address,
    onward_route: Route,
}

/// The mathematical form of a processor: its worker's internal address and
/// the route to the peer worker.
pub struct ProcessorView {
    pub internal_address: Seq<u8>,
    pub onward_route: Seq<Seq<u8>>,
}

impl View for ReceiveProcessor {
    type V = ProcessorView;

    closed spec fn view(&self) -> ProcessorView {
        ProcessorView {
            internal_address: self.internal_address@,
            onward_route: route_view(self.onward_route@),
        }
    }
}

/// The step after a read: non-empty bytes go to the peer as a `Payload`;
/// end of stream or a failure is reported to the worker.
pub open spec fn spec_receiver_step(p: ProcessorView, read: Option<Seq<u8>>) -> ReceiverStepView {
    match read {
        Some(b) => if b.len() > 0 {
            ReceiverStepView::Forward(p.onward_route, spec_encode(MessageView::Payload(b)))
        } else {
            ReceiverStepView::Signal(p.internal_address, spec_encode_internal())
        },
        None => ReceiverStepView::Signal(p.internal_address, spec_encode_internal()),
    }
}

/// A read as plain values: the bytes, or none for a failure.
pub open spec fn read_view(read: ReadOutcome) -> Option<Seq<u8>> {
    match read {
        ReadOutcome::Bytes(b) => Some(b@),
        ReadOutcome::Failed => None,
    }
}

impl ReceiveProcessor {
    /// A processor reporting to the worker at `internal_address` and
    /// forwarding along `onward_route`.
    pub fn new(internal_address: Address, onward_route: Route) -> (p: ReceiveProcessor)
        ensures
            p@ == (ProcessorView {
                internal_address: internal_address@,
                onward_route: route_view(onward_route@),
            }),
    {
        ReceiveProcessor { internal_address, onward_route }
    }

    /// The step after one read.
    pub fn on_read(&self, read: ReadOutcome) -> (r: ReceiverStep)
        ensures
            r@ == spec_receiver_step(self@, read_view(read)),
    {
        match read {
            ReadOutcome::Bytes(bytes) => {
                if bytes.len() > 0 {
                    let frame = PortalMessage::Payload(bytes).encode();
                    ReceiverStep::Forward { route: copy_route(&self.onward_route), frame }
                } else {
                    self.on_send_failed()
                }
            },
            ReadOutcome::Failed => self.on_send_failed(),
        }
    }

    /// The step after a `Forward` could not be sent: as for a dead socket,
    /// the worker is told and the processor stops.
    pub fn on_send_failed(&self) -> (r: ReceiverStep)
        ensures
            r@ == spec_receiver_step(self@, None),
    {
        let frame = PortalInternalMessage::Disconnect.encode();
        ReceiverStep::Signal { to: copy_address(&self.internal_address), frame }
    }
}

} // verus!
