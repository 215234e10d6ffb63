//! The scheduling surface of the discrete-event substrate, as the network
//! core sees it: an actor context collects the events a handler emits, each
//! stamped with its source, destination and delivery time. All delay is
//! declarative — the time offset at which the next event is scheduled.

use crate::event::{NetEvent, NetEventView};
use vstd::prelude::*;

verus! {

/// An event handed to the substrate for later delivery.
pub struct ScheduledEvent {
    pub event: NetEvent,
    pub src: String,
    pub dest: String,
    pub time: u64,
}

/// Mathematical model of a scheduled event; `time` is the absolute
/// simulated delivery time.
pub ghost struct ScheduledEventView {
    pub event: NetEventView,
    pub src: Seq<char>,
    pub dest: Seq<char>,
    pub time: u64,
}

impl View for ScheduledEvent {
    type V = ScheduledEventView;

    open spec fn view(&self) -> ScheduledEventView {
        ScheduledEventView {
            event: self.event@,
            src: self.src@,
            dest: self.dest@,
            time: self.time,
        }
    }
}

/// The context a running actor handles events in: its own identity, the
/// current simulated time, and the events it has emitted so far. Handlers
/// only append to `emitted`; they never reorder or retract.
pub struct ActorContext {
    pub id: String,
    pub time: u64,
    pub emitted: Vec<ScheduledEvent>,
}

/// Mathematical model of an actor context.
pub ghost struct ActorContextView {
    pub id: Seq<char>,
    pub time: u64,
    pub emitted: Seq<ScheduledEventView>,
}

impl View for ActorContext {
    type V = ActorContextView;

    open spec fn view(&self) -> ActorContextView {
        ActorContextView {
            id: self.id@,
            time: self.time,
            emitted: self.emitted@.map_values(|e: ScheduledEvent| e@),
        }
    }
}

impl ActorContext {
    /// A fresh context for the actor `id` at simulated time `time`, with
    /// nothing emitted yet.
    pub fn new(id: String, time: u64) -> (ctx: ActorContext)
        ensures
            ctx@.id == id@,
            ctx@.time == time,
            ctx@.emitted == Seq::<ScheduledEventView>::empty(),
    {
        let ctx = ActorContext { id, time, emitted: Vec::new() };
        proof {
            assert(ctx@.emitted =~= Seq::<ScheduledEventView>::empty());
        }
        ctx
    }

    /// Schedule `event` for delivery to `dest` after `delay` time units,
    /// with this actor as the source.
    pub fn emit(&mut self, event: NetEvent, dest: String, delay: u64)
        requires
            old(self).time + delay <= u64::MAX,
        ensures
            final(self)@.id == old(self)@.id,
            final(self)@.time == old(self)@.time,
            final(self)@.emitted == old(self)@.emitted.push(
                ScheduledEventView {
                    event: event@,
                    src: old(self)@.id,
                    dest: dest@,
                    time: (old(self)@.time + delay) as u64,
                },
            ),
    {
        let time: u64 = self.time + delay;
        let src = self.id.clone();
        self.emitted.push(ScheduledEvent { event, src, dest, time });
        proof {
            assert(self@.emitted =~= old(self)@.emitted.push(self.emitted@.last()@));
        }
    }

    /// Schedule `event` for immediate delivery to `dest` (zero delay).
    pub fn emit_now(&mut self, event: NetEvent, dest: String)
        ensures
            final(self)@.id == old(self)@.id,
            final(self)@.time == old(self)@.time,
            final(self)@.emitted == old(self)@.emitted.push(
                ScheduledEventView {
                    event: event@,
                    src: old(self)@.id,
                    dest: dest@,
                    time: old(self)@.time,
                },
            ),
    {
        self.emit(event, dest, 0);
    }
}

/// The simulation's top-level event injection point, for drivers that run
/// before any actor is scheduled: behaviourally identical to emitting from
/// an actor context, but the source actor is named explicitly.
pub struct Simulation {
    pub time: u64,
    pub queued: Vec<ScheduledEvent>,
}

/// Mathematical model of the simulation's injection queue.
pub ghost struct SimulationView {
    pub time: u64,
    pub queued: Seq<ScheduledEventView>,
}

impl View for Simulation {
    type V = SimulationView;

    open spec fn view(&self) -> SimulationView {
        SimulationView { time: self.time, queued: self.queued@.map_values(|e: ScheduledEvent| e@) }
    }
}

impl Simulation {
    /// A simulation poised at time `time` with an empty injection queue.
    pub fn new(time: u64) -> (sim: Simulation)
        ensures
            sim@.time == time,
            sim@.queued == Seq::<ScheduledEventView>::empty(),
    {
        let sim = Simulation { time, queued: Vec::new() };
        proof {
            assert(sim@.queued =~= Seq::<ScheduledEventView>::empty());
        }
        sim
    }

    /// Inject `event` from `src` to `dest` at the current simulated time.
    pub fn add_event_now(&mut self, event: NetEvent, src: String, dest: String)
        ensures
            final(self)@.time == old(self)@.time,
            final(self)@.queued == old(self)@.queued.push(
                ScheduledEventView {
                    event: event@,
                    src: src@,
                    dest: dest@,
                    time: old(self)@.time,
                },
            ),
    {
        let time: u64 = self.time;
        self.queued.push(ScheduledEvent { event, src, dest, time });
        proof {
            assert(self@.queued =~= old(self)@.queued.push(self.queued@.last()@));
        }
    }
}

} // verus!
