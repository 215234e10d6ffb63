use network::context::{ActorContext, ScheduledEvent};
use network::event::NetEvent;
use network::model::ConstantLatencyModel;
use network::network_actor::{network_id, Network};

/// Take the earliest-scheduled event out of the queue (FIFO among equal
/// timestamps, matching an order-preserving substrate).
fn pop_earliest(queue: &mut Vec<ScheduledEvent>) -> Option<ScheduledEvent> {
    if queue.is_empty() {
        return None;
    }
    let mut best = 0;
    for i in 1..queue.len() {
        if queue[i].time < queue[best].time {
            best = i;
        }
    }
    Some(queue.remove(best))
}

fn stage_name(event: &NetEvent) -> &'static str {
    match event {
        NetEvent::MessageSend { .. } => "MessageSend",
        NetEvent::MessageReceive { .. } => "MessageReceive",
        NetEvent::MessageDelivery { .. } => "MessageDelivery",
        NetEvent::DataTransferRequest { .. } => "DataTransferRequest",
        NetEvent::StartDataTransfer { .. } => "StartDataTransfer",
        NetEvent::DataReceive { .. } => "DataReceive",
        NetEvent::DataTransferCompleted { .. } => "DataTransferCompleted",
    }
}

/// Run the event loop to quiescence: events addressed to the network actor
/// are handed to `on`; everything else is a delivery to some other actor.
/// Returns the delivered events and the trace of stages the network actor
/// processed.
fn drive(
    net: &mut Network<ConstantLatencyModel>,
    initial: Vec<ScheduledEvent>,
) -> (Vec<ScheduledEvent>, Vec<&'static str>) {
    let mut queue = initial;
    let mut delivered = Vec::new();
    let mut trace = Vec::new();
    let mut steps = 0;
    while let Some(ev) = pop_earliest(&mut queue) {
        steps += 1;
        assert!(steps < 100, "event loop did not quiesce");
        if ev.dest == "net" {
            trace.push(stage_name(&ev.event));
            let mut ctx = ActorContext::new(network_id(), ev.time);
            net.on(ev.event, &mut ctx);
            queue.extend(ctx.emitted);
        } else {
            delivered.push(ev);
        }
    }
    (delivered, trace)
}

#[test]
fn message_to_unbound_actor_charges_latency() {
    // Host "H1" registered, actor "A" bound to it, actor "B" unbound:
    // the actors are not co-located and delivery costs one latency hop.
    let mut net = Network::new(ConstantLatencyModel::new(7));
    net.add_host("H1");
    net.set_actor_host("A".to_string(), "H1");
    assert!(!net.check_same_host(&"A".to_string(), &"B".to_string()));

    let mut ctx = ActorContext::new("A".to_string(), 100);
    let id = net.send_msg("ping".to_string(), "B".to_string(), &mut ctx);
    assert_eq!(ctx.emitted.len(), 1);
    assert_eq!(ctx.emitted[0].time, 100);
    assert_eq!(ctx.emitted[0].dest, "net");

    let (delivered, _) = drive(&mut net, ctx.emitted);
    assert_eq!(delivered.len(), 1);
    assert_eq!(delivered[0].dest, "B");
    assert_eq!(delivered[0].time, 107);
    match &delivered[0].event {
        NetEvent::MessageDelivery { message } => {
            assert_eq!(message.id, id);
            assert_eq!(message.src, "A");
            assert_eq!(message.dest, "B");
            assert_eq!(message.data, "ping");
        }
        _ => panic!("expected a message delivery"),
    }
}

#[test]
fn co_located_message_adds_no_delay() {
    // Hosts "H1" and "H2" registered; "A" and "C" both on "H1": a message
    // from A to C is delivered at the very time it was sent.
    let mut net = Network::new(ConstantLatencyModel::new(7));
    net.add_host("H1");
    net.add_host("H2");
    net.set_actor_host("A".to_string(), "H1");
    net.set_actor_host("C".to_string(), "H1");
    assert!(net.check_same_host(&"A".to_string(), &"C".to_string()));

    let mut ctx = ActorContext::new("A".to_string(), 55);
    net.send_msg("hello".to_string(), "C".to_string(), &mut ctx);
    let (delivered, trace) = drive(&mut net, ctx.emitted);
    assert_eq!(delivered.len(), 1);
    assert_eq!(delivered[0].time, 55);
    assert_eq!(delivered[0].dest, "C");
    assert_eq!(trace, vec!["MessageSend", "MessageReceive"]);
}

#[test]
fn message_between_remote_hosts_charges_one_hop() {
    let mut net = Network::new(ConstantLatencyModel::new(3));
    net.add_host("H1");
    net.add_host("H2");
    net.set_actor_host("A".to_string(), "H1");
    net.set_actor_host("B".to_string(), "H2");

    let mut ctx = ActorContext::new("A".to_string(), 0);
    net.send_msg("x".to_string(), "B".to_string(), &mut ctx);
    let (delivered, _) = drive(&mut net, ctx.emitted);
    assert_eq!(delivered.len(), 1);
    assert_eq!(delivered[0].time, 3);
}

#[test]
fn transfer_notifies_declared_destination_once() {
    // request_transfer(src=A, dest=B, size=1000, notify=S) returns id k;
    // after the full lifecycle S receives exactly one completion event
    // referencing k with size 1000, src A, dest B — S, not B, is notified.
    let mut net = Network::new(ConstantLatencyModel::new(4));
    let mut ctx = ActorContext::new("A".to_string(), 10);
    let k = net.transfer_data(
        "A".to_string(),
        "B".to_string(),
        1000,
        "S".to_string(),
        &mut ctx,
    );
    let (delivered, trace) = drive(&mut net, ctx.emitted);
    assert_eq!(delivered.len(), 1);
    assert_eq!(delivered[0].dest, "S");
    match &delivered[0].event {
        NetEvent::DataTransferCompleted { data } => {
            assert_eq!(data.id, k);
            assert_eq!(data.src, "A");
            assert_eq!(data.dest, "B");
            assert_eq!(data.size, 1000);
            assert_eq!(data.notification_dest, "S");
        }
        _ => panic!("expected a transfer completion"),
    }
    assert_eq!(
        trace,
        vec!["DataTransferRequest", "StartDataTransfer", "DataReceive"]
    );
}

#[test]
fn zero_size_transfer_runs_full_lifecycle() {
    // A size-0 transfer still flows through Requested -> Started ->
    // Arrived -> notified: no short-circuited immediate completion.
    let mut net = Network::new(ConstantLatencyModel::new(5));
    let mut ctx = ActorContext::new("A".to_string(), 0);
    let k = net.transfer_data("A".to_string(), "B".to_string(), 0, "S".to_string(), &mut ctx);
    let (delivered, trace) = drive(&mut net, ctx.emitted);
    assert_eq!(
        trace,
        vec!["DataTransferRequest", "StartDataTransfer", "DataReceive"]
    );
    assert_eq!(delivered.len(), 1);
    assert_eq!(delivered[0].dest, "S");
    assert_eq!(delivered[0].time, 5);
    match &delivered[0].event {
        NetEvent::DataTransferCompleted { data } => {
            assert_eq!(data.id, k);
            assert_eq!(data.size, 0);
        }
        _ => panic!("expected a transfer completion"),
    }
}

#[test]
fn transfer_start_waits_one_latency_hop() {
    let mut net = Network::new(ConstantLatencyModel::new(9));
    let mut ctx = ActorContext::new("A".to_string(), 100);
    net.transfer_data("A".to_string(), "B".to_string(), 42, "A".to_string(), &mut ctx);
    let (delivered, _) = drive(&mut net, ctx.emitted);
    // the path is established after one hop; the constant model then
    // delivers immediately, so the completion lands at 100 + 9
    assert_eq!(delivered.len(), 1);
    assert_eq!(delivered[0].time, 109);
}

#[test]
fn send_event_is_a_direct_scheduling_shortcut() {
    let mut net = Network::new(ConstantLatencyModel::new(6));
    net.add_host("H1");
    net.set_actor_host("A".to_string(), "H1");
    net.set_actor_host("B".to_string(), "H1");

    // co-located: zero delay, delivered straight to the destination
    let mut ctx = ActorContext::new("A".to_string(), 20);
    let msg = network::event::Message {
        id: 0,
        src: "A".to_string(),
        dest: "B".to_string(),
        data: "direct".to_string(),
    };
    net.send_event(
        NetEvent::MessageDelivery { message: msg },
        "B".to_string(),
        &mut ctx,
    );
    assert_eq!(ctx.emitted.len(), 1);
    assert_eq!(ctx.emitted[0].time, 20);
    assert_eq!(ctx.emitted[0].dest, "B");

    // unknown binding: one latency hop
    let msg2 = network::event::Message {
        id: 0,
        src: "A".to_string(),
        dest: "Z".to_string(),
        data: "far".to_string(),
    };
    let mut ctx2 = ActorContext::new("A".to_string(), 20);
    net.send_event(
        NetEvent::MessageDelivery { message: msg2 },
        "Z".to_string(),
        &mut ctx2,
    );
    assert_eq!(ctx2.emitted[0].time, 26);
}

#[test]
fn sim_entry_points_inject_the_same_lifecycle() {
    let mut net = Network::new(ConstantLatencyModel::new(2));
    let mut sim = network::context::Simulation::new(30);
    let id1 = net.send_msg_from_sim(
        "boot".to_string(),
        "driver".to_string(),
        "B".to_string(),
        &mut sim,
    );
    let id2 = net.transfer_data_from_sim(
        "driver".to_string(),
        "B".to_string(),
        8,
        "driver".to_string(),
        &mut sim,
    );
    assert_ne!(id1, id2);
    assert_eq!(sim.queued.len(), 2);
    assert_eq!(sim.queued[0].time, 30);
    assert_eq!(sim.queued[0].src, "driver");
    assert_eq!(sim.queued[1].src, "net");

    let (delivered, _) = drive(&mut net, sim.queued);
    // one message delivery to B, one completion to the driver
    assert_eq!(delivered.len(), 2);
    let mut dests: Vec<String> = delivered.iter().map(|e| e.dest.clone()).collect();
    dests.sort();
    assert_eq!(dests, vec!["B".to_string(), "driver".to_string()]);
}
