//! The pluggable network-model contract: a conforming implementation
//! supplies the propagation latency of one hop and owns the bandwidth
//! semantics of bulk transfers. The network actor calls `send_data` exactly
//! once per transfer when the transfer starts, and `receive_data` exactly
//! once when its arrival event is processed; the model is responsible for
//! eventually scheduling that arrival event back to the network actor.

use crate::context::ActorContext;
use crate::event::{Data, NetEvent};
use crate::network_actor::network_id;
use vstd::prelude::*;

verus! {

/// What every network model must provide. The contract the core relies on
/// is deliberately loose: a handler invocation may advance the model's own
/// state and schedule further events, but it runs at a fixed simulated
/// instant, on behalf of the network actor, and only ever appends to the
/// set of scheduled events.
pub trait NetworkModel: Sized {
    /// The propagation delay this model currently charges for one hop.
    spec fn model_latency(&self) -> u64;

    /// Query the current one-hop latency.
    fn latency(&self) -> (l: u64)
        ensures
            l == self.model_latency(),
    ;

    /// Begin a transfer: called exactly once per transfer, after the
    /// propagation delay has elapsed. The model must eventually cause one
    /// arrival (`DataReceive`) event for this transfer to reach the network
    /// actor, immediately or after further simulated delay.
    fn send_data(&mut self, data: &Data, ctx: &mut ActorContext)
        ensures
            final(ctx)@.id == old(ctx)@.id,
            final(ctx)@.time == old(ctx)@.time,
            old(ctx)@.emitted.is_prefix_of(final(ctx)@.emitted),
    ;

    /// End a transfer: called exactly once per transfer when its arrival
    /// event is processed, before the completion notification goes out;
    /// releases whatever capacity `send_data` reserved.
    fn receive_data(&mut self, data: &Data, ctx: &mut ActorContext)
        ensures
            final(ctx)@.id == old(ctx)@.id,
            final(ctx)@.time == old(ctx)@.time,
            old(ctx)@.emitted.is_prefix_of(final(ctx)@.emitted),
    ;
}

/// The simplest conforming model: a fixed per-hop latency and unlimited
/// bandwidth, so every transfer arrives the moment it starts. Useful as a
/// baseline and for driving the lifecycle in tests.
pub struct ConstantLatencyModel {
    pub latency: u64,
}

impl ConstantLatencyModel {
    /// A model charging `latency` time units per hop.
    pub fn new(latency: u64) -> (m: ConstantLatencyModel)
        ensures
            m.model_latency() == latency,
    {
        ConstantLatencyModel { latency }
    }
}

impl NetworkModel for ConstantLatencyModel {
    open spec fn model_latency(&self) -> u64 {
        self.latency
    }

    fn latency(&self) -> (l: u64) {
        self.latency
    }

    fn send_data(&mut self, data: &Data, ctx: &mut ActorContext) {
        let copy = Data {
            id: data.id,
            src: data.src.clone(),
            dest: data.dest.clone(),
            size: data.size,
            notification_dest: data.notification_dest.clone(),
        };
        ctx.emit_now(NetEvent::DataReceive { data: copy }, network_id());
    }

    fn receive_data(&mut self, data: &Data, ctx: &mut ActorContext) {
    }
}

} // verus!
