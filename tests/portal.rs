use tcp_portal::codec::{PortalInternalMessage, PortalMessage};
use tcp_portal::receiver::{ReadOutcome, ReceiveProcessor, ReceiverStep};
use tcp_portal::worker::{
    Action, Phase, PortalError, PortalWorker, ReadHolder, Role, GRACE_MILLIS,
};

fn addr(s: &str) -> Vec<u8> {
    s.as_bytes().to_vec()
}

fn route(hops: &[&str]) -> Vec<Vec<u8>> {
    hops.iter().map(|h| addr(h)).collect()
}

fn starts(plan: &[Action]) -> usize {
    plan.iter().filter(|a| matches!(a, Action::StartReceiver { .. })).count()
}

fn inlet() -> PortalWorker {
    PortalWorker::new_inlet(
        addr("127.0.0.1:54001"),
        addr("inlet_internal"),
        addr("inlet_remote"),
        route(&["outlet_node", "outlet_addr"]),
    )
}

fn initialized_inlet() -> PortalWorker {
    let mut w = inlet();
    w.initialize().unwrap();
    let pong = PortalMessage::Pong.encode();
    w.handle_message(
        &route(&["inlet_remote"]),
        route(&["inlet_node", "outlet_remote_addr"]),
        &pong,
    )
    .unwrap();
    w
}

fn initialized_outlet() -> PortalWorker {
    let mut w = PortalWorker::new_outlet(
        addr("127.0.0.1:54001"),
        addr("outlet_internal"),
        addr("outlet_remote_addr"),
        route(&["outlet_node", "inlet_remote"]),
    );
    w.initialize().unwrap();
    w
}

#[test]
fn happy_path_handshake_and_payload() {
    let mut w = inlet();
    assert_eq!(w.role(), Role::Inlet);
    assert_eq!(w.phase(), Phase::SendPing);
    let plan = w.initialize().unwrap();
    assert_eq!(
        plan,
        vec![Action::Send {
            route: route(&["outlet_node", "outlet_addr"]),
            frame: PortalMessage::Ping.encode(),
        }]
    );
    assert_eq!(w.phase(), Phase::ReceivePong);
    assert_eq!(w.read_half(), ReadHolder::Worker);

    let back = route(&["inlet_node", "outlet_remote_addr"]);
    let plan = w
        .handle_message(&route(&["inlet_remote"]), back.clone(), &PortalMessage::Pong.encode())
        .unwrap();
    assert_eq!(plan, vec![Action::StartReceiver { onward: back.clone() }]);
    assert_eq!(w.phase(), Phase::Initialized);
    assert_eq!(w.read_half(), ReadHolder::Processor);
    assert_eq!(w.remote_route(), Some(&back));

    let receiver = ReceiveProcessor::new(addr("inlet_internal"), back.clone());
    let step = receiver.on_read(ReadOutcome::Bytes(vec![0x01, 0x02, 0x03]));
    let frame = match step {
        ReceiverStep::Forward { route: r, frame } => {
            assert_eq!(r, back);
            frame
        }
        other => panic!("unexpected step {:?}", other),
    };
    assert_eq!(
        PortalMessage::decode(&frame),
        Ok(PortalMessage::Payload(vec![0x01, 0x02, 0x03]))
    );

    let mut outlet = initialized_outlet();
    let plan = outlet
        .handle_message(&route(&["outlet_remote_addr"]), route(&["inlet_remote"]), &frame)
        .unwrap();
    assert_eq!(plan, vec![Action::Write { bytes: vec![0x01, 0x02, 0x03] }]);
    assert_eq!(outlet.phase(), Phase::Initialized);
}

#[test]
fn outlet_initialize_dials_and_starts_receiver() {
    let pong_route = route(&["outlet_node", "inlet_remote"]);
    let mut w = PortalWorker::new_outlet(
        addr("127.0.0.1:54001"),
        addr("outlet_internal"),
        addr("outlet_remote_addr"),
        pong_route.clone(),
    );
    assert_eq!(w.role(), Role::Outlet);
    assert_eq!(w.peer(), &addr("127.0.0.1:54001"));
    assert!(!w.has_write_half());
    assert_eq!(w.read_half(), ReadHolder::Nobody);
    let plan = w.initialize().unwrap();
    assert_eq!(
        plan,
        vec![
            Action::Send { route: pong_route.clone(), frame: PortalMessage::Pong.encode() },
            Action::Dial { peer: addr("127.0.0.1:54001") },
            Action::StartReceiver { onward: pong_route.clone() },
        ]
    );
    assert_eq!(starts(&plan), 1);
    assert_eq!(w.phase(), Phase::Initialized);
    assert!(w.has_write_half());
    assert_eq!(w.read_half(), ReadHolder::Processor);
    assert_eq!(w.remote_route(), Some(&pong_route));
}

#[test]
fn reverse_traffic_reaches_inlet() {
    let receiver = ReceiveProcessor::new(addr("outlet_internal"), route(&["outlet_node", "inlet_remote"]));
    let frame = match receiver.on_read(ReadOutcome::Bytes(vec![0xAA, 0xBB])) {
        ReceiverStep::Forward { frame, .. } => frame,
        other => panic!("unexpected step {:?}", other),
    };
    let mut w = initialized_inlet();
    let plan = w
        .handle_message(&route(&["inlet_remote"]), route(&["inlet_node", "outlet_remote_addr"]), &frame)
        .unwrap();
    assert_eq!(plan, vec![Action::Write { bytes: vec![0xAA, 0xBB] }]);
}

#[test]
fn remote_disconnect_stops_receiver_without_notifying() {
    let mut w = initialized_inlet();
    let plan = w
        .handle_message(
            &route(&["inlet_remote"]),
            route(&["inlet_node", "outlet_remote_addr"]),
            &PortalMessage::Disconnect.encode(),
        )
        .unwrap();
    assert_eq!(
        plan,
        vec![
            Action::Pause { millis: GRACE_MILLIS },
            Action::StopReceiver,
            Action::StopWorker,
        ]
    );
    assert!(w.is_disconnecting());
    assert_eq!(w.read_half(), ReadHolder::Nobody);
    assert!(!plan.iter().any(|a| matches!(a, Action::Send { .. })));
}

#[test]
fn write_failure_notifies_peer_then_stops() {
    let mut w = initialized_outlet();
    let plan = w.write_failed();
    assert_eq!(
        plan,
        vec![
            Action::Pause { millis: GRACE_MILLIS },
            Action::Send {
                route: route(&["outlet_node", "inlet_remote"]),
                frame: PortalMessage::Disconnect.encode(),
            },
            Action::StopWorker,
        ]
    );
    assert!(w.is_disconnecting());
    assert_eq!(w.read_half(), ReadHolder::Processor);
    assert!(w.write_failed().is_empty());
}

#[test]
fn receiver_eof_tears_down() {
    let receiver = ReceiveProcessor::new(addr("inlet_internal"), route(&["inlet_node", "outlet_remote_addr"]));
    let (to, frame) = match receiver.on_read(ReadOutcome::Bytes(vec![])) {
        ReceiverStep::Signal { to, frame } => (to, frame),
        other => panic!("unexpected step {:?}", other),
    };
    assert_eq!(to, addr("inlet_internal"));
    assert_eq!(frame, PortalInternalMessage::Disconnect.encode());

    let mut w = initialized_inlet();
    let plan = w
        .handle_message(&vec![to], route(&["inlet_node", "outlet_remote_addr"]), &frame)
        .unwrap();
    assert_eq!(
        plan,
        vec![
            Action::Pause { millis: GRACE_MILLIS },
            Action::Send {
                route: route(&["inlet_node", "outlet_remote_addr"]),
                frame: PortalMessage::Disconnect.encode(),
            },
            Action::Pause { millis: GRACE_MILLIS },
            Action::StopReceiver,
            Action::StopWorker,
        ]
    );
    assert!(w.is_disconnecting());
}

#[test]
fn receiver_read_failure_signals_worker() {
    let receiver = ReceiveProcessor::new(addr("i"), route(&["a"]));
    assert_eq!(
        receiver.on_read(ReadOutcome::Failed),
        ReceiverStep::Signal { to: addr("i"), frame: PortalInternalMessage::Disconnect.encode() }
    );
    assert_eq!(
        receiver.on_send_failed(),
        ReceiverStep::Signal { to: addr("i"), frame: PortalInternalMessage::Disconnect.encode() }
    );
}

#[test]
fn payload_while_waiting_for_pong_is_protocol_error() {
    let mut w = inlet();
    w.initialize().unwrap();
    let r = w.handle_message(
        &route(&["inlet_remote"]),
        route(&["inlet_node", "outlet_remote_addr"]),
        &PortalMessage::Payload(vec![0x00]).encode(),
    );
    assert_eq!(r, Err(PortalError::Protocol));
    assert_eq!(w.phase(), Phase::ReceivePong);
    assert_eq!(w.remote_route(), None);
    assert_eq!(w.read_half(), ReadHolder::Worker);
}

#[test]
fn second_disconnect_is_dropped() {
    let mut w = initialized_inlet();
    let here = route(&["inlet_remote"]);
    let back = route(&["inlet_node", "outlet_remote_addr"]);
    let d = PortalMessage::Disconnect.encode();
    assert_eq!(w.handle_message(&here, back.clone(), &d).unwrap().len(), 3);
    assert_eq!(w.handle_message(&here, back.clone(), &d), Ok(vec![]));
    let p = PortalMessage::Payload(vec![9]).encode();
    assert_eq!(w.handle_message(&here, back, &p), Ok(vec![]));
}

#[test]
fn unknown_route_is_rejected() {
    let mut w = initialized_inlet();
    let r = w.handle_message(
        &route(&["inlet_remote", "further"]),
        route(&["x"]),
        &PortalMessage::Payload(vec![1]).encode(),
    );
    assert_eq!(r, Err(PortalError::UnknownRoute));
    let r = w.handle_message(&vec![], route(&["x"]), &PortalMessage::Payload(vec![1]).encode());
    assert_eq!(r, Err(PortalError::UnknownRoute));
}

#[test]
fn invalid_state_errors() {
    let mut w = inlet();
    let r = w.handle_message(&route(&["inlet_remote"]), route(&["x"]), &PortalMessage::Pong.encode());
    assert_eq!(r, Err(PortalError::InvalidState));
    w.initialize().unwrap();
    assert_eq!(w.initialize(), Err(PortalError::InvalidState));
    let r = w.handle_message(&route(&["inlet_internal"]), route(&["x"]), &PortalMessage::Pong.encode());
    assert_eq!(r, Err(PortalError::InvalidState));
    assert_eq!(w.phase(), Phase::ReceivePong);
    let mut w = initialized_inlet();
    assert_eq!(w.initialize(), Err(PortalError::InvalidState));
}

#[test]
fn ping_or_pong_when_initialized_is_protocol_error() {
    let mut w = initialized_inlet();
    let here = route(&["inlet_remote"]);
    assert_eq!(
        w.handle_message(&here, route(&["x"]), &PortalMessage::Ping.encode()),
        Err(PortalError::Protocol)
    );
    assert_eq!(
        w.handle_message(&here, route(&["x"]), &PortalMessage::Pong.encode()),
        Err(PortalError::Protocol)
    );
    assert_eq!(
        w.handle_message(&here, route(&["x"]), &vec![7]),
        Err(PortalError::Protocol)
    );
    assert_eq!(
        w.handle_message(&route(&["inlet_internal"]), route(&["x"]), &vec![5]),
        Err(PortalError::Protocol)
    );
    assert!(!w.is_disconnecting());
    assert_eq!(w.phase(), Phase::Initialized);
}

#[test]
fn exactly_one_receiver_started_per_session() {
    let mut w = inlet();
    let mut total = starts(&w.initialize().unwrap());
    let back = route(&["inlet_node", "outlet_remote_addr"]);
    let here = route(&["inlet_remote"]);
    total += starts(&w.handle_message(&here, back.clone(), &PortalMessage::Pong.encode()).unwrap());
    total += starts(&w.handle_message(&here, back.clone(), &PortalMessage::Payload(vec![1]).encode()).unwrap());
    total += starts(&w.handle_message(&here, back, &PortalMessage::Disconnect.encode()).unwrap());
    assert_eq!(total, 1);
}

#[test]
fn pong_return_route_becomes_remote_route() {
    let mut w = inlet();
    w.initialize().unwrap();
    let back = route(&["n1", "n2", "peer"]);
    w.handle_message(&route(&["inlet_remote"]), back.clone(), &PortalMessage::Pong.encode())
        .unwrap();
    assert_eq!(w.remote_route(), Some(&back));
    assert_eq!(w.internal_address(), &addr("inlet_internal"));
    assert_eq!(w.remote_address(), &addr("inlet_remote"));
}

#[test]
fn payloads_are_written_in_order() {
    let mut w = initialized_inlet();
    let here = route(&["inlet_remote"]);
    let back = route(&["inlet_node", "outlet_remote_addr"]);
    let mut written: Vec<u8> = Vec::new();
    for chunk in [vec![1u8, 2], vec![3], vec![4, 5, 6]] {
        for a in w.handle_message(&here, back.clone(), &PortalMessage::Payload(chunk).encode()).unwrap() {
            match a {
                Action::Write { bytes } => written.extend(bytes),
                other => panic!("unexpected action {:?}", other),
            }
        }
    }
    assert_eq!(written, vec![1, 2, 3, 4, 5, 6]);
}
