//! The network actor: the single process-wide coordinator for all
//! inter-actor communication. It owns the host/actor registry and the
//! identifier allocator, exposes the producer-facing send and transfer
//! operations, and advances the message and transfer state machines as the
//! substrate hands their lifecycle events back to it.

use crate::context::{ActorContext, ScheduledEventView, Simulation};
use crate::event::{Data, DataView, Message, MessageView, NetEvent, NetEventView};
use crate::model::NetworkModel;
use vstd::prelude::*;
use vstd::string::StringExecFns;

verus! {

/// All names in the sequence are pairwise distinct.
pub open spec fn distinct_names(s: Seq<Seq<char>>) -> bool {
    forall|i: int, j: int| 0 <= i < j < s.len() ==> s[i] != s[j]
}

/// No actor name appears twice among the binding keys.
pub open spec fn unique_keys(s: Seq<(Seq<char>, Seq<char>)>) -> bool {
    forall|i: int, j: int| 0 <= i < j < s.len() ==> s[i].0 != s[j].0
}

/// What registering a host named `name` does to the registered set: a name
/// already present is left where it is.
pub open spec fn spec_register(hosts: Seq<Seq<char>>, name: Seq<char>) -> Seq<Seq<char>> {
    if hosts.contains(name) {
        hosts
    } else {
        hosts.push(name)
    }
}

/// One allocation step of the identifier allocator: `id` is handed out and
/// the counter moves strictly past it. Every send and transfer operation
/// allocates exactly one id this way.
pub open spec fn allocates<M: NetworkModel>(pre: Network<M>, post: Network<M>, id: u64) -> bool {
    &&& id == pre.id_counter
    &&& post.id_counter == pre.id_counter + 1
}

/// The name under which the network actor itself is addressed.
pub open spec fn spec_network_id() -> Seq<char> {
    "net"@
}

/// The network actor's own address, for scheduling lifecycle events to it.
pub fn network_id() -> (s: String)
    ensures
        s@ == spec_network_id(),
{
    String::from_str("net")
}

/// The network coordinator: the registry of hosts and actor-host bindings,
/// the identifier allocator, and the pluggable network model that supplies
/// latency and bandwidth semantics.
pub struct Network<M: NetworkModel> {
    pub network_model: M,
    pub hosts: Vec<String>,
    pub actor_hosts: Vec<(String, String)>,
    pub id_counter: u64,
}

impl<M: NetworkModel> Network<M> {
    /// The registered hosts, by name, in registration order.
    pub open spec fn hosts_view(self) -> Seq<Seq<char>> {
        self.hosts@.map_values(|h: String| h@)
    }

    /// The actor-host bindings as (actor, host) name pairs.
    pub open spec fn bindings(self) -> Seq<(Seq<char>, Seq<char>)> {
        self.actor_hosts@.map_values(|p: (String, String)| (p.0@, p.1@))
    }

    /// Whether `actor` currently has a host binding.
    pub open spec fn has_binding(self, actor: Seq<char>) -> bool {
        exists|i: int| 0 <= i < self.bindings().len() && self.bindings()[i].0 == actor
    }

    /// The host `actor` is bound to, if any. An actor has at most one
    /// current binding; re-binding overwrites the previous one.
    pub open spec fn spec_host_of(self, actor: Seq<char>) -> Option<Seq<char>> {
        if self.has_binding(actor) {
            let i = choose|i: int|
                0 <= i < self.bindings().len() && self.bindings()[i].0 == actor;
            Some(self.bindings()[i].1)
        } else {
            None
        }
    }

    /// Two actors are co-located iff both have a binding and the bindings
    /// are equal; an actor with no binding is conservatively treated as
    /// remote (locality unknown means "always charge latency").
    pub open spec fn spec_co_located(self, a: Seq<char>, b: Seq<char>) -> bool {
        match (self.spec_host_of(a), self.spec_host_of(b)) {
            (Some(ha), Some(hb)) => ha == hb,
            _ => false,
        }
    }

    /// Structural invariant: host names are distinct, each actor has at
    /// most one binding, and the allocator has not been exhausted.
    pub open spec fn wf(self) -> bool {
        &&& distinct_names(self.hosts_view())
        &&& unique_keys(self.bindings())
        &&& self.id_counter >= 1
    }

    /// A fresh network: no hosts, no bindings, ids starting at 1, driven by
    /// the given model.
    pub fn new(network_model: M) -> (net: Network<M>)
        ensures
            net.wf(),
            net.hosts_view() == Seq::<Seq<char>>::empty(),
            forall|a: Seq<char>| net.spec_host_of(a) is None,
            net.id_counter == 1,
            net.network_model == network_model,
    {
        let net = Network {
            network_model,
            hosts: Vec::new(),
            actor_hosts: Vec::new(),
            id_counter: 1,
        };
        proof {
            assert(net.hosts_view() =~= Seq::<Seq<char>>::empty());
            assert(forall|a: Seq<char>| !net.has_binding(a));
        }
        net
    }

    /// Register a host by name. Idempotent: a name already present is left
    /// where it is, so registration order is stable.
    pub fn add_host(&mut self, host_id: &str)
        requires
            old(self).wf(),
        ensures
            final(self).wf(),
            final(self).hosts_view() == spec_register(old(self).hosts_view(), host_id@),
            final(self).actor_hosts == old(self).actor_hosts,
            forall|a: Seq<char>| final(self).spec_host_of(a) == old(self).spec_host_of(a),
            final(self).id_counter == old(self).id_counter,
            final(self).network_model == old(self).network_model,
    {
        let host = String::from_str(host_id);
        let n = self.hosts.len();
        let mut i: usize = 0;
        while i < n
            invariant
                *self == *old(self),
                self.wf(),
                n == self.hosts@.len(),
                0 <= i <= n,
                forall|j: int| 0 <= j < i ==> self.hosts@[j]@ != host_id@,
                host@ == host_id@,
            decreases n - i,
        {
            if self.hosts[i] == host {
                proof {
                    assert(old(self).hosts_view()[i as int] == host_id@);
                    assert(old(self).hosts_view().contains(host_id@));
                    lemma_host_of_congruence::<M>(*old(self), *self);
                }
                return ;
            }
            i += 1;
        }
        proof {
            assert(forall|j: int|
                0 <= j < old(self).hosts_view().len() ==> old(self).hosts_view()[j] != host_id@);
            assert(!old(self).hosts_view().contains(host_id@));
        }
        self.hosts.push(host);
        proof {
            assert(self.hosts_view() =~= old(self).hosts_view().push(host_id@));
            lemma_host_of_congruence::<M>(*old(self), *self);
        }
    }

    /// The index of `actor_id`'s binding in the table, if it has one.
    fn find_binding_index(&self, actor_id: &String) -> (r: Option<usize>)
        requires
            self.wf(),
        ensures
            match r {
                Some(i) => i < self.actor_hosts@.len() && self.bindings()[i as int].0
                    == actor_id@,
                None => !self.has_binding(actor_id@),
            },
    {
        let n = self.actor_hosts.len();
        let mut i: usize = 0;
        while i < n
            invariant
                self.wf(),
                n == self.actor_hosts@.len(),
                0 <= i <= n,
                forall|j: int| 0 <= j < i ==> self.bindings()[j].0 != actor_id@,
            decreases n - i,
        {
            if self.actor_hosts[i].0 == *actor_id {
                return Some(i);
            }
            i += 1;
        }
        None
    }

    /// Bind `actor_id` to `host_id`, overwriting any previous binding. The
    /// host need not have been registered: unregistered hosts are simply
    /// never matched by the co-location check.
    pub fn set_actor_host(&mut self, actor_id: String, host_id: &str)
        requires
            old(self).wf(),
        ensures
            final(self).wf(),
            forall|a: Seq<char>|
                final(self).spec_host_of(a) == (if a == actor_id@ {
                    Some(host_id@)
                } else {
                    old(self).spec_host_of(a)
                }),
            final(self).hosts == old(self).hosts,
            final(self).id_counter == old(self).id_counter,
            final(self).network_model == old(self).network_model,
    {
        let host = String::from_str(host_id);
        let ghost pre = *old(self);
        match self.find_binding_index(&actor_id) {
            Some(i) => {
                self.actor_hosts.remove(i);
                let ghost mid = self.actor_hosts@;
                self.actor_hosts.push((actor_id, host));
                proof {
                    pre.actor_hosts@.remove_ensures(i as int);
                    assert(self.bindings().len() == pre.bindings().len());
                    assert(self.bindings()[self.bindings().len() - 1] == (actor_id@, host_id@));
                    assert(forall|j: int|
                        0 <= j < i ==> self.bindings()[j] == pre.bindings()[j]);
                    assert(forall|j: int|
                        i <= j < pre.bindings().len() - 1 ==> self.bindings()[j]
                            == pre.bindings()[j + 1]);
                    lemma_host_of_update::<M>(pre, *self, Some(i as int), actor_id@, host_id@);
                }
            },
            None => {
                self.actor_hosts.push((actor_id, host));
                proof {
                    assert(forall|j: int|
                        0 <= j < pre.bindings().len() ==> pre.bindings()[j].0 != actor_id@);
                    assert(self.bindings()[self.bindings().len() - 1] == (actor_id@, host_id@));
                    assert(forall|j: int|
                        0 <= j < pre.bindings().len() ==> self.bindings()[j]
                            == pre.bindings()[j]);
                    lemma_host_of_update::<M>(pre, *self, None, actor_id@, host_id@);
                }
            },
        }
    }

    /// Look up the host an actor is bound to.
    pub fn get_actor_host(&self, actor_id: &String) -> (r: Option<&String>)
        requires
            self.wf(),
        ensures
            match r {
                Some(h) => self.spec_host_of(actor_id@) == Some(h@),
                None => self.spec_host_of(actor_id@) is None,
            },
    {
        let n = self.actor_hosts.len();
        let mut i: usize = 0;
        while i < n
            invariant
                self.wf(),
                n == self.actor_hosts@.len(),
                0 <= i <= n,
                forall|j: int| 0 <= j < i ==> self.bindings()[j].0 != actor_id@,
            decreases n - i,
        {
            if self.actor_hosts[i].0 == *actor_id {
                proof {
                    lemma_host_of_at::<M>(*self, actor_id@, i as int);
                }
                return Some(&self.actor_hosts[i].1);
            }
            i += 1;
        }
        proof {
            assert(!self.has_binding(actor_id@));
        }
        None
    }

    /// Whether two actors are provably on the same host: true iff both have
    /// a binding and the bindings agree.
    pub fn check_same_host(&self, actor1_id: &String, actor2_id: &String) -> (r: bool)
        requires
            self.wf(),
        ensures
            r == self.spec_co_located(actor1_id@, actor2_id@),
    {
        let h1 = self.get_actor_host(actor1_id);
        let h2 = self.get_actor_host(actor2_id);
        match (h1, h2) {
            (Some(a), Some(b)) => *a == *b,
            _ => false,
        }
    }

    /// The registered host names, in registration order.
    pub fn get_hosts(&self) -> (r: Vec<String>)
        ensures
            r@.map_values(|h: String| h@) == self.hosts_view(),
    {
        let n = self.hosts.len();
        let mut r: Vec<String> = Vec::new();
        let mut i: usize = 0;
        while i < n
            invariant
                n == self.hosts@.len(),
                0 <= i <= n,
                r@.len() == i,
                forall|j: int| 0 <= j < i ==> r@[j]@ == self.hosts@[j]@,
            decreases n - i,
        {
            r.push(self.hosts[i].clone());
            i += 1;
        }
        proof {
            assert(r@.map_values(|h: String| h@) =~= self.hosts_view());
        }
        r
    }

    /// The time at which a message sent at `now` is delivered: unchanged
    /// for co-located endpoints, one latency hop otherwise.
    pub open spec fn spec_delivery_time(self, message: MessageView, now: u64) -> u64 {
        if self.spec_co_located(message.src, message.dest) {
            now
        } else {
            (now + self.network_model.model_latency()) as u64
        }
    }

    /// The deterministic part of the lifecycle state machine, as a pure
    /// function from the event a handler running as `src` processes at time
    /// `now` to the single event it schedules in response. `None` for the
    /// stage whose timing the network model owns (`StartDataTransfer`) and
    /// for the terminal stages.
    pub open spec fn spec_step(
        self,
        event: NetEventView,
        now: u64,
        src: Seq<char>,
    ) -> Option<ScheduledEventView> {
        match event {
            NetEventView::MessageSend { message } => Some(
                ScheduledEventView {
                    event: NetEventView::MessageReceive { message },
                    src,
                    dest: spec_network_id(),
                    time: self.spec_delivery_time(message, now),
                },
            ),
            NetEventView::MessageReceive { message } => Some(
                ScheduledEventView {
                    event: NetEventView::MessageDelivery { message },
                    src,
                    dest: message.dest,
                    time: now,
                },
            ),
            NetEventView::DataTransferRequest { data } => Some(
                ScheduledEventView {
                    event: NetEventView::StartDataTransfer { data },
                    src,
                    dest: spec_network_id(),
                    time: (now + self.network_model.model_latency()) as u64,
                },
            ),
            NetEventView::DataReceive { data } => Some(
                ScheduledEventView {
                    event: NetEventView::DataTransferCompleted { data },
                    src,
                    dest: data.notification_dest,
                    time: now,
                },
            ),
            _ => None,
        }
    }

    /// Send `message` from the calling actor to `dest`: allocates the
    /// message id and schedules the lifecycle-start event to the network
    /// actor at the current time, returning the id for correlation.
    pub fn send_msg(&mut self, message: String, dest: String, ctx: &mut ActorContext) -> (msg_id:
        u64)
        requires
            old(self).wf(),
            old(self).id_counter < u64::MAX,
        ensures
            final(self).wf(),
            allocates(*old(self), *final(self), msg_id),
            final(self).hosts == old(self).hosts,
            final(self).actor_hosts == old(self).actor_hosts,
            forall|a: Seq<char>| final(self).spec_host_of(a) == old(self).spec_host_of(a),
            final(self).network_model == old(self).network_model,
            final(ctx)@.id == old(ctx)@.id,
            final(ctx)@.time == old(ctx)@.time,
            final(ctx)@.emitted == old(ctx)@.emitted.push(
                ScheduledEventView {
                    event: NetEventView::MessageSend {
                        message: MessageView {
                            id: msg_id,
                            src: old(ctx)@.id,
                            dest: dest@,
                            data: message@,
                        },
                    },
                    src: old(ctx)@.id,
                    dest: spec_network_id(),
                    time: old(ctx)@.time,
                },
            ),
    {
        let msg_id = self.id_counter;
        self.id_counter = self.id_counter + 1;
        let msg = Message { id: msg_id, src: ctx.id.clone(), dest, data: message };
        ctx.emit_now(NetEvent::MessageSend { message: msg }, network_id());
        proof {
            lemma_host_of_congruence::<M>(*old(self), *self);
        }
        msg_id
    }

    /// Schedule an arbitrary application event for delivery to `dest`,
    /// delayed by one latency hop unless the calling actor and `dest` are
    /// co-located, in which case it is delivered with zero delay. A direct
    /// scheduling shortcut that bypasses the message entity.
    pub fn send_event(&self, event: NetEvent, dest: String, ctx: &mut ActorContext)
        requires
            self.wf(),
            old(ctx).time + self.network_model.model_latency() <= u64::MAX,
        ensures
            final(ctx)@.id == old(ctx)@.id,
            final(ctx)@.time == old(ctx)@.time,
            final(ctx)@.emitted == old(ctx)@.emitted.push(
                ScheduledEventView {
                    event: event@,
                    src: old(ctx)@.id,
                    dest: dest@,
                    time: if self.spec_co_located(old(ctx)@.id, dest@) {
                        old(ctx)@.time
                    } else {
                        (old(ctx)@.time + self.network_model.model_latency()) as u64
                    },
                },
            ),
    {
        let co = self.check_same_host(&ctx.id, &dest);
        if !co {
            let delay = self.network_model.latency();
            ctx.emit(event, dest, delay);
        } else {
            ctx.emit(event, dest, 0);
        }
    }

    /// `send_msg` for callers outside any running actor, injecting the
    /// lifecycle-start event through the simulation's own queue instead of
    /// an actor context; behaviourally identical otherwise.
    pub fn send_msg_from_sim(
        &mut self,
        message: String,
        src: String,
        dest: String,
        sim: &mut Simulation,
    ) -> (msg_id: u64)
        requires
            old(self).wf(),
            old(self).id_counter < u64::MAX,
        ensures
            final(self).wf(),
            allocates(*old(self), *final(self), msg_id),
            final(self).hosts == old(self).hosts,
            final(self).actor_hosts == old(self).actor_hosts,
            forall|a: Seq<char>| final(self).spec_host_of(a) == old(self).spec_host_of(a),
            final(self).network_model == old(self).network_model,
            final(sim)@.time == old(sim)@.time,
            final(sim)@.queued == old(sim)@.queued.push(
                ScheduledEventView {
                    event: NetEventView::MessageSend {
                        message: MessageView {
                            id: msg_id,
                            src: src@,
                            dest: dest@,
                            data: message@,
                        },
                    },
                    src: src@,
                    dest: spec_network_id(),
                    time: old(sim)@.time,
                },
            ),
    {
        let msg_id = self.id_counter;
        self.id_counter = self.id_counter + 1;
        let msg = Message { id: msg_id, src: src.clone(), dest, data: message };
        sim.add_event_now(NetEvent::MessageSend { message: msg }, src, network_id());
        proof {
            lemma_host_of_congruence::<M>(*old(self), *self);
        }
        msg_id
    }

    /// Request a bulk transfer of `size` units from `src` to `dest`:
    /// allocates the transfer id and schedules the lifecycle-start event to
    /// the network actor at the current time. `notification_dest` is who is
    /// told when the transfer completes; it may differ from `dest`. A size
    /// of 0 flows through the full lifecycle like any other.
    pub fn transfer_data(
        &mut self,
        src: String,
        dest: String,
        size: u64,
        notification_dest: String,
        ctx: &mut ActorContext,
    ) -> (data_id: u64)
        requires
            old(self).wf(),
            old(self).id_counter < u64::MAX,
        ensures
            final(self).wf(),
            allocates(*old(self), *final(self), data_id),
            final(self).hosts == old(self).hosts,
            final(self).actor_hosts == old(self).actor_hosts,
            forall|a: Seq<char>| final(self).spec_host_of(a) == old(self).spec_host_of(a),
            final(self).network_model == old(self).network_model,
            final(ctx)@.id == old(ctx)@.id,
            final(ctx)@.time == old(ctx)@.time,
            final(ctx)@.emitted == old(ctx)@.emitted.push(
                ScheduledEventView {
                    event: NetEventView::DataTransferRequest {
                        data: DataView {
                            id: data_id,
                            src: src@,
                            dest: dest@,
                            size,
                            notification_dest: notification_dest@,
                        },
                    },
                    src: old(ctx)@.id,
                    dest: spec_network_id(),
                    time: old(ctx)@.time,
                },
            ),
    {
        let data_id = self.id_counter;
        self.id_counter = self.id_counter + 1;
        let data = Data { id: data_id, src, dest, size, notification_dest };
        ctx.emit_now(NetEvent::DataTransferRequest { data }, network_id());
        proof {
            lemma_host_of_congruence::<M>(*old(self), *self);
        }
        data_id
    }

    /// `transfer_data` for callers outside any running actor, injecting the
    /// lifecycle-start event through the simulation's own queue.
    pub fn transfer_data_from_sim(
        &mut self,
        src: String,
        dest: String,
        size: u64,
        notification_dest: String,
        sim: &mut Simulation,
    ) -> (data_id: u64)
        requires
            old(self).wf(),
            old(self).id_counter < u64::MAX,
        ensures
            final(self).wf(),
            allocates(*old(self), *final(self), data_id),
            final(self).hosts == old(self).hosts,
            final(self).actor_hosts == old(self).actor_hosts,
            forall|a: Seq<char>| final(self).spec_host_of(a) == old(self).spec_host_of(a),
            final(self).network_model == old(self).network_model,
            final(sim)@.time == old(sim)@.time,
            final(sim)@.queued == old(sim)@.queued.push(
                ScheduledEventView {
                    event: NetEventView::DataTransferRequest {
                        data: DataView {
                            id: data_id,
                            src: src@,
                            dest: dest@,
                            size,
                            notification_dest: notification_dest@,
                        },
                    },
                    src: spec_network_id(),
                    dest: spec_network_id(),
                    time: old(sim)@.time,
                },
            ),
    {
        let data_id = self.id_counter;
        self.id_counter = self.id_counter + 1;
        let data = Data { id: data_id, src, dest, size, notification_dest };
        sim.add_event_now(NetEvent::DataTransferRequest { data }, network_id(), network_id());
        proof {
            lemma_host_of_congruence::<M>(*old(self), *self);
        }
        data_id
    }

    /// Advance the state machine one stage: handle one lifecycle event
    /// delivered back to the network actor. Deterministic stages schedule
    /// exactly the event `spec_step` names; starting a transfer hands
    /// control to the network model, and a transfer arrival releases the
    /// model's capacity and then emits exactly one completion notification
    /// to the transfer's notification destination.
    pub fn on(&mut self, event: NetEvent, ctx: &mut ActorContext)
        requires
            old(self).wf(),
            old(ctx).time + old(self).network_model.model_latency() <= u64::MAX,
        ensures
            final(self).wf(),
            final(self).hosts == old(self).hosts,
            final(self).actor_hosts == old(self).actor_hosts,
            forall|a: Seq<char>| final(self).spec_host_of(a) == old(self).spec_host_of(a),
            final(self).id_counter == old(self).id_counter,
            final(ctx)@.id == old(ctx)@.id,
            final(ctx)@.time == old(ctx)@.time,
            match event@ {
                NetEventView::StartDataTransfer { data } => old(ctx)@.emitted.is_prefix_of(
                    final(ctx)@.emitted,
                ),
                NetEventView::DataReceive { data } => {
                    &&& final(ctx)@.emitted.len() > old(ctx)@.emitted.len()
                    &&& final(ctx)@.emitted.last() == ScheduledEventView {
                        event: NetEventView::DataTransferCompleted { data },
                        src: old(ctx)@.id,
                        dest: data.notification_dest,
                        time: old(ctx)@.time,
                    }
                    &&& old(ctx)@.emitted.is_prefix_of(final(ctx)@.emitted.drop_last())
                },
                _ => {
                    &&& final(self).network_model == old(self).network_model
                    &&& final(ctx)@.emitted == (match old(self).spec_step(
                        event@,
                        old(ctx)@.time,
                        old(ctx)@.id,
                    ) {
                        Some(se) => old(ctx)@.emitted.push(se),
                        None => old(ctx)@.emitted,
                    })
                },
            },
    {
        match event {
            NetEvent::MessageSend { message } => {
                let co = self.check_same_host(&message.src, &message.dest);
                let delay: u64 = if co {
                    0
                } else {
                    self.network_model.latency()
                };
                ctx.emit(NetEvent::MessageReceive { message }, network_id(), delay);
            },
            NetEvent::MessageReceive { message } => {
                let dest = message.dest.clone();
                ctx.emit_now(NetEvent::MessageDelivery { message }, dest);
            },
            NetEvent::DataTransferRequest { data } => {
                let delay = self.network_model.latency();
                ctx.emit(NetEvent::StartDataTransfer { data }, network_id(), delay);
            },
            NetEvent::StartDataTransfer { data } => {
                self.network_model.send_data(&data, ctx);
            },
            NetEvent::DataReceive { data } => {
                self.network_model.receive_data(&data, ctx);
                let ghost mid = ctx@.emitted;
                let notification_dest = data.notification_dest.clone();
                ctx.emit_now(NetEvent::DataTransferCompleted { data }, notification_dest);
                proof {
                    assert(ctx@.emitted.drop_last() =~= mid);
                }
            },
            NetEvent::MessageDelivery { .. } => {},
            NetEvent::DataTransferCompleted { .. } => {},
        }
        proof {
            lemma_host_of_congruence::<M>(*old(self), *self);
        }
    }

    /// The network actor never retires: it stays active for the whole run.
    pub fn is_active(&self) -> (r: bool)
        ensures
            r,
    {
        true
    }
}

/// Law: a message between co-located actors is delivered at the very time
/// it was sent, and a message between actors on different hosts, or whose
/// binding is unknown, is delivered at the send time plus exactly one
/// latency hop. Chains the two deterministic hops of the message
/// sub-machine: processing `MessageSend` schedules `MessageReceive` at the
/// delivery time, and processing that schedules `MessageDelivery` to the
/// message's destination at the same time (zero further delay).
pub proof fn lemma_message_delivery_time<M: NetworkModel>(
    net: Network<M>,
    message: MessageView,
    now: u64,
    src: Seq<char>,
)
    requires
        now + net.network_model.model_latency() <= u64::MAX,
    ensures
        net.spec_step(NetEventView::MessageSend { message }, now, src) == Some(
            ScheduledEventView {
                event: NetEventView::MessageReceive { message },
                src,
                dest: spec_network_id(),
                time: net.spec_delivery_time(message, now),
            },
        ),
        net.spec_step(
            NetEventView::MessageReceive { message },
            net.spec_delivery_time(message, now),
            src,
        ) == Some(
            ScheduledEventView {
                event: NetEventView::MessageDelivery { message },
                src,
                dest: message.dest,
                time: net.spec_delivery_time(message, now),
            },
        ),
        net.spec_co_located(message.src, message.dest) ==> net.spec_delivery_time(message, now)
            == now,
        !net.spec_co_located(message.src, message.dest) ==> net.spec_delivery_time(message, now)
            == now + net.network_model.model_latency(),
{
}

/// Law: the transfer lifecycle is uniform and complete for every record,
/// whatever its size — a zero-size transfer flows through the same full
/// stage sequence with the same timing and targets as any other, never a
/// short-circuited immediate completion. Processing the request schedules
/// the start after exactly one latency hop; the start stage schedules
/// nothing itself (the network model owns the timing until arrival); and
/// processing the arrival, whenever the model causes it, schedules the
/// completion notification with zero further delay.
pub proof fn lemma_transfer_lifecycle<M: NetworkModel>(
    net: Network<M>,
    data: DataView,
    now: u64,
    arrival: u64,
    src: Seq<char>,
)
    requires
        now + net.network_model.model_latency() <= u64::MAX,
    ensures
        net.spec_step(NetEventView::DataTransferRequest { data }, now, src) == Some(
            ScheduledEventView {
                event: NetEventView::StartDataTransfer { data },
                src,
                dest: spec_network_id(),
                time: (now + net.network_model.model_latency()) as u64,
            },
        ),
        net.spec_step(
            NetEventView::StartDataTransfer { data },
            (now + net.network_model.model_latency()) as u64,
            src,
        ) is None,
        net.spec_step(NetEventView::DataReceive { data }, arrival, src) == Some(
            ScheduledEventView {
                event: NetEventView::DataTransferCompleted { data },
                src,
                dest: data.notification_dest,
                time: arrival,
            },
        ),
{
}

/// Law: the state machine emits a completion notification exactly when it
/// processes a transfer arrival, then exactly one, addressed to the
/// transfer's declared notification destination — not its data destination
/// — and carrying the record unchanged.
pub proof fn lemma_completion_unique<M: NetworkModel>(
    net: Network<M>,
    event: NetEventView,
    now: u64,
    src: Seq<char>,
)
    ensures
        match (event, net.spec_step(event, now, src)) {
            (NetEventView::DataReceive { data }, Some(se)) => se == ScheduledEventView {
                event: NetEventView::DataTransferCompleted { data },
                src,
                dest: data.notification_dest,
                time: now,
            },
            (NetEventView::DataReceive { data }, None) => false,
            (_, Some(se)) => !(se.event is DataTransferCompleted),
            (_, None) => true,
        },
{
}

/// Along a chain in which each step allocates one identifier, the counters
/// increase strictly.
proof fn lemma_counter_monotonic<M: NetworkModel>(
    states: Seq<Network<M>>,
    ids: Seq<u64>,
    i: int,
    j: int,
)
    requires
        states.len() == ids.len() + 1,
        forall|k: int| 0 <= k < ids.len() ==> allocates(states[k], states[k + 1], ids[k]),
        0 <= i < j < states.len(),
    ensures
        states[i].id_counter < states[j].id_counter,
    decreases j - i,
{
    assert(allocates(states[i], states[i + 1], ids[i]));
    if i + 1 < j {
        lemma_counter_monotonic(states, ids, i + 1, j);
    }
}

/// Law: identifier uniqueness. For any sequence of send and transfer
/// operations, messages and transfers mixed — a chain of network states in
/// which each step allocates one id — the returned ids are pairwise
/// distinct.
pub proof fn lemma_ids_distinct<M: NetworkModel>(states: Seq<Network<M>>, ids: Seq<u64>)
    requires
        states.len() == ids.len() + 1,
        forall|k: int| 0 <= k < ids.len() ==> allocates(states[k], states[k + 1], ids[k]),
    ensures
        forall|i: int, j: int| 0 <= i < j < ids.len() ==> ids[i] != ids[j],
{
    assert forall|i: int, j: int| 0 <= i < j < ids.len() implies ids[i] != ids[j] by {
        assert(allocates(states[i], states[i + 1], ids[i]));
        assert(allocates(states[j], states[j + 1], ids[j]));
        lemma_counter_monotonic(states, ids, i, j);
    }
}

/// Law: registering the same host twice changes nothing the second time —
/// registration is idempotent on the registered set (and never touches the
/// bindings, so co-location answers are unaffected).
pub proof fn lemma_register_idempotent(hosts: Seq<Seq<char>>, name: Seq<char>)
    ensures
        spec_register(spec_register(hosts, name), name) == spec_register(hosts, name),
{
    if !hosts.contains(name) {
        assert(hosts.push(name)[hosts.len() as int] == name);
        assert(spec_register(hosts, name).contains(name));
    }
}

/// Law: re-binding an actor to the very host it is already bound to leaves
/// every `host_of` lookup and every co-location answer unchanged. `post` is
/// `pre` after such a re-binding, as `set_actor_host` describes it.
pub proof fn lemma_rebind_idempotent<M: NetworkModel>(
    pre: Network<M>,
    post: Network<M>,
    actor: Seq<char>,
    host: Seq<char>,
)
    requires
        pre.spec_host_of(actor) == Some(host),
        forall|a: Seq<char>|
            post.spec_host_of(a) == (if a == actor {
                Some(host)
            } else {
                pre.spec_host_of(a)
            }),
    ensures
        forall|a: Seq<char>| post.spec_host_of(a) == pre.spec_host_of(a),
        forall|a: Seq<char>, b: Seq<char>| post.spec_co_located(a, b) == pre.spec_co_located(a, b),
{
    assert forall|a: Seq<char>| post.spec_host_of(a) == pre.spec_host_of(a) by {
        assert(post.spec_host_of(a) == (if a == actor {
            Some(host)
        } else {
            pre.spec_host_of(a)
        }));
    }
}

/// If the binding table holds `actor` at index `i`, then `spec_host_of`
/// returns exactly that entry's host: binding keys are unique, so any
/// witness determines the result.
pub proof fn lemma_host_of_at<M: NetworkModel>(net: Network<M>, actor: Seq<char>, i: int)
    requires
        unique_keys(net.bindings()),
        0 <= i < net.bindings().len(),
        net.bindings()[i].0 == actor,
    ensures
        net.spec_host_of(actor) == Some(net.bindings()[i].1),
{
    assert(net.has_binding(actor));
    let j = choose|j: int| 0 <= j < net.bindings().len() && net.bindings()[j].0 == actor;
    if i < j {
        assert(net.bindings()[i].0 != net.bindings()[j].0);
        assert(false);
    } else if j < i {
        assert(net.bindings()[j].0 != net.bindings()[i].0);
        assert(false);
    }
}

/// Two networks with the same binding table answer every `host_of` lookup
/// alike.
pub proof fn lemma_host_of_congruence<M: NetworkModel>(pre: Network<M>, post: Network<M>)
    requires
        unique_keys(pre.bindings()),
        post.bindings() == pre.bindings(),
    ensures
        forall|a: Seq<char>| post.spec_host_of(a) == pre.spec_host_of(a),
{
    assert forall|a: Seq<char>| post.spec_host_of(a) == pre.spec_host_of(a) by {
        if pre.has_binding(a) {
            let k = choose|k: int|
                0 <= k < pre.bindings().len() && pre.bindings()[k].0 == a;
            lemma_host_of_at::<M>(pre, a, k);
            assert(post.bindings()[k].0 == a);
            lemma_host_of_at::<M>(post, a, k);
        } else {
            assert(!post.has_binding(a)) by {
                if post.has_binding(a) {
                    let k = choose|k: int|
                        0 <= k < post.bindings().len() && post.bindings()[k].0 == a;
                    assert(pre.bindings()[k].0 == a);
                }
            }
        }
    }
}

/// How `spec_host_of` changes when one binding is overwritten: `post`'s
/// binding table is `pre`'s with the entry for `actor` (at `removed`, if it
/// had one) replaced by a final `(actor, host)` entry. Then `post` maps
/// `actor` to `host` and every other actor exactly as `pre` did, and its
/// keys stay unique.
pub proof fn lemma_host_of_update<M: NetworkModel>(
    pre: Network<M>,
    post: Network<M>,
    removed: Option<int>,
    actor: Seq<char>,
    host: Seq<char>,
)
    requires
        unique_keys(pre.bindings()),
        post.bindings().len() >= 1,
        post.bindings()[post.bindings().len() - 1] == (actor, host),
        match removed {
            Some(i) => {
                &&& 0 <= i < pre.bindings().len()
                &&& pre.bindings()[i].0 == actor
                &&& post.bindings().len() == pre.bindings().len()
                &&& forall|j: int| 0 <= j < i ==> post.bindings()[j] == pre.bindings()[j]
                &&& forall|j: int|
                    i <= j < pre.bindings().len() - 1 ==> post.bindings()[j] == pre.bindings()[j
                        + 1]
            },
            None => {
                &&& forall|j: int|
                    0 <= j < pre.bindings().len() ==> pre.bindings()[j].0 != actor
                &&& post.bindings().len() == pre.bindings().len() + 1
                &&& forall|j: int|
                    0 <= j < pre.bindings().len() ==> post.bindings()[j] == pre.bindings()[j]
            },
        },
    ensures
        unique_keys(post.bindings()),
        forall|a: Seq<char>|
            post.spec_host_of(a) == (if a == actor {
                Some(host)
            } else {
                pre.spec_host_of(a)
            }),
{
    let pb = pre.bindings();
    let nb = post.bindings();
    let last = nb.len() - 1;
    assert forall|x: int, y: int| 0 <= x < y < nb.len() implies nb[x].0 != nb[y].0 by {
        match removed {
            Some(i) => {
                let mx = if x < i { x } else { x + 1 };
                assert(nb[x] == pb[mx]);
                if y < last {
                    let my = if y < i { y } else { y + 1 };
                    assert(nb[y] == pb[my]);
                } else {
                    if mx < i {
                        assert(pb[mx].0 != pb[i].0);
                    } else {
                        assert(pb[i].0 != pb[mx].0);
                    }
                }
            },
            None => {
                assert(nb[x] == pb[x]);
                if y < last {
                    assert(nb[y] == pb[y]);
                }
            },
        }
    }
    assert forall|a: Seq<char>|
        post.spec_host_of(a) == (if a == actor {
            Some(host)
        } else {
            pre.spec_host_of(a)
        }) by {
        if a == actor {
            lemma_host_of_at::<M>(post, a, last);
        } else {
            if pre.has_binding(a) {
                let k = choose|k: int| 0 <= k < pb.len() && pb[k].0 == a;
                lemma_host_of_at::<M>(pre, a, k);
                match removed {
                    Some(i) => {
                        let k2 = if k < i { k } else { k - 1 };
                        assert(nb[k2] == pb[k]);
                        lemma_host_of_at::<M>(post, a, k2);
                    },
                    None => {
                        assert(nb[k] == pb[k]);
                        lemma_host_of_at::<M>(post, a, k);
                    },
                }
            } else {
                assert(forall|j: int| 0 <= j < pb.len() ==> pb[j].0 != a);
                assert forall|j: int| 0 <= j < nb.len() implies nb[j].0 != a by {
                    if j < last {
                        match removed {
                            Some(i) => {
                                let mj = if j < i { j } else { j + 1 };
                                assert(nb[j] == pb[mj]);
                            },
                            None => {
                                assert(nb[j] == pb[j]);
                            },
                        }
                    }
                }
                assert(!post.has_binding(a));
            }
        }
    }
}

} // verus!
