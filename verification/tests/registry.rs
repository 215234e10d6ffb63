use network::context::ActorContext;
use network::model::{ConstantLatencyModel, NetworkModel};
use network::network_actor::{network_id, Network};

#[test]
fn network_actor_address_is_net() {
    assert_eq!(network_id(), "net");
}

#[test]
fn fresh_network_knows_nothing() {
    let net = Network::new(ConstantLatencyModel::new(1));
    assert!(net.get_hosts().is_empty());
    assert!(net.get_actor_host(&"A".to_string()).is_none());
    assert!(!net.check_same_host(&"A".to_string(), &"A".to_string()));
    assert!(net.is_active());
}

#[test]
fn get_hosts_keeps_registration_order() {
    let mut net = Network::new(ConstantLatencyModel::new(1));
    net.add_host("H2");
    net.add_host("H1");
    net.add_host("H3");
    assert_eq!(
        net.get_hosts(),
        vec!["H2".to_string(), "H1".to_string(), "H3".to_string()]
    );
}

#[test]
fn registering_a_host_twice_changes_nothing() {
    let mut net = Network::new(ConstantLatencyModel::new(1));
    net.add_host("H1");
    net.add_host("H2");
    net.set_actor_host("A".to_string(), "H1");
    net.set_actor_host("B".to_string(), "H1");
    let hosts_before = net.get_hosts();
    let co_before = net.check_same_host(&"A".to_string(), &"B".to_string());

    net.add_host("H1");
    assert_eq!(net.get_hosts(), hosts_before);
    assert_eq!(net.get_actor_host(&"A".to_string()), Some(&"H1".to_string()));
    assert_eq!(
        net.check_same_host(&"A".to_string(), &"B".to_string()),
        co_before
    );
}

#[test]
fn rebinding_to_the_same_host_changes_nothing() {
    let mut net = Network::new(ConstantLatencyModel::new(1));
    net.add_host("H1");
    net.set_actor_host("A".to_string(), "H1");
    net.set_actor_host("B".to_string(), "H1");

    net.set_actor_host("A".to_string(), "H1");
    assert_eq!(net.get_actor_host(&"A".to_string()), Some(&"H1".to_string()));
    assert!(net.check_same_host(&"A".to_string(), &"B".to_string()));
}

#[test]
fn rebinding_overwrites_the_previous_binding() {
    let mut net = Network::new(ConstantLatencyModel::new(1));
    net.add_host("H1");
    net.add_host("H2");
    net.set_actor_host("A".to_string(), "H1");
    net.set_actor_host("B".to_string(), "H1");
    assert!(net.check_same_host(&"A".to_string(), &"B".to_string()));

    net.set_actor_host("A".to_string(), "H2");
    assert_eq!(net.get_actor_host(&"A".to_string()), Some(&"H2".to_string()));
    assert_eq!(net.get_actor_host(&"B".to_string()), Some(&"H1".to_string()));
    assert!(!net.check_same_host(&"A".to_string(), &"B".to_string()));
}

#[test]
fn binding_an_unregistered_host_is_allowed_but_never_matched_wrongly() {
    // bind_actor_to_host does not validate the host name; the actors are
    // still co-located only when their bindings agree
    let mut net = Network::new(ConstantLatencyModel::new(1));
    net.set_actor_host("A".to_string(), "ghost");
    net.set_actor_host("B".to_string(), "ghost");
    assert!(net.check_same_host(&"A".to_string(), &"B".to_string()));
    assert!(!net.check_same_host(&"A".to_string(), &"C".to_string()));
    assert!(net.get_hosts().is_empty());
}

#[test]
fn bound_actor_is_co_located_with_itself() {
    let mut net = Network::new(ConstantLatencyModel::new(1));
    net.set_actor_host("A".to_string(), "H1");
    assert!(net.check_same_host(&"A".to_string(), &"A".to_string()));
}

#[test]
fn mixed_operations_return_pairwise_distinct_ids() {
    // messages and transfers share one allocator: ids never repeat
    let mut net = Network::new(ConstantLatencyModel::new(1));
    let mut ctx = ActorContext::new("A".to_string(), 0);
    let mut sim = network::context::Simulation::new(0);
    let mut ids = vec![
        net.send_msg("m1".to_string(), "B".to_string(), &mut ctx),
        net.transfer_data("A".to_string(), "B".to_string(), 5, "S".to_string(), &mut ctx),
        net.send_msg_from_sim("m2".to_string(), "A".to_string(), "B".to_string(), &mut sim),
        net.transfer_data_from_sim("A".to_string(), "B".to_string(), 0, "S".to_string(), &mut sim),
        net.send_msg("m3".to_string(), "C".to_string(), &mut ctx),
    ];
    ids.sort();
    ids.dedup();
    assert_eq!(ids.len(), 5);
    assert_eq!(ids, vec![1, 2, 3, 4, 5]);
}

#[test]
fn latency_query_reports_the_model() {
    let model = ConstantLatencyModel::new(11);
    assert_eq!(model.latency(), 11);
    let net = Network::new(ConstantLatencyModel::new(12));
    assert_eq!(net.network_model.latency(), 12);
}
