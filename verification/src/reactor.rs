//! Reactors: the drivers that own the components and route each event to the one it is for.
//!
//! A reactor is a state machine.  `Reactor::dispatch_event` takes one event, hands it to the
//! component that owns it and gives back that component's effects, lifted to the reactor's own
//! event type.  A `Runner` holds a reactor together with its queue of events and its random
//! source, and takes the events off the queue one at a time, in the order in which they came.

use std::collections::VecDeque;
use vstd::prelude::*;
use vstd::std_specs::convert::FromSpec;

use crate::components::Step;
use crate::effect::requests::Request;
use crate::effect::{
    Continuation, Effect, EffectBuilder, Effects, Multiple, Outcome, Responder, Work,
};
use crate::rng::NodeRng;

pub mod initializer;
pub mod validator;

verus! {

/// The handle to a reactor's event queue.  It says for which reactor's events an effect builder
/// works, and holds nothing else.
#[derive(Debug)]
pub struct EventQueueHandle<REv> {
    marker: core::marker::PhantomData<REv>,
}

impl<REv> Clone for EventQueueHandle<REv> {
    fn clone(&self) -> (cloned: Self)
        ensures
            cloned == *self,
    {
        EventQueueHandle { marker: core::marker::PhantomData }
    }
}

impl<REv> Copy for EventQueueHandle<REv> {

}

impl<REv> EventQueueHandle<REv> {
    /// A handle to the queue of a reactor with events `REv`.
    pub fn new() -> (handle: Self) {
        EventQueueHandle { marker: core::marker::PhantomData }
    }
}

/// The effects `effects`, each with its events mapped by `embedding`.
pub open spec fn lift<Ev, REv>(effects: Seq<Effect<Ev>>, embedding: spec_fn(Ev) -> REv) -> Seq<
    Effect<REv>,
> {
    Seq::new(effects.len(), |i: int| effects[i].map(embedding))
}

/// Whether whatever `wrap` returns for an event is what `embedding` says.
pub open spec fn computes<Ev, REv, F: Fn(Ev) -> REv>(wrap: F, embedding: spec_fn(Ev) -> REv) -> bool {
    forall|event: Ev, wrapped: REv| #[trigger]
        call_ensures(wrap, (event,), wrapped) ==> wrapped == embedding(event)
}

/// Whether `outer` is `inner` with its events mapped by calls of `wrap`.
pub open spec fn wraps<Ev, REv, F: Fn(Ev) -> REv>(wrap: F, inner: Effect<Ev>, outer: Effect<
    REv,
>) -> bool {
    &&& outer.work == inner.work
    &&& match inner.continuation {
        Continuation::Ignore => outer.continuation is Ignore,
        Continuation::Event(event) => outer.continuation matches Continuation::Event(wrapped)
            && call_ensures(wrap, (event,), wrapped),
        Continuation::Result { ok, err } => outer.continuation matches Continuation::Result {
            ok: wrapped_ok,
            err: wrapped_err,
        } && call_ensures(wrap, (ok,), wrapped_ok) && call_ensures(wrap, (err,), wrapped_err),
    }
}

/// Maps the events of one effect by `wrap`.
fn wrap_effect<Ev, REv, F: Fn(Ev) -> REv>(wrap: &F, effect: Effect<Ev>) -> (wrapped: Effect<REv>)
    requires
        forall|event: Ev| call_requires(*wrap, (event,)),
    ensures
        wraps(*wrap, effect, wrapped),
{
    let Effect { work, continuation } = effect;
    let continuation = match continuation {
        Continuation::Ignore => Continuation::Ignore,
        Continuation::Event(event) => Continuation::Event(wrap(event)),
        Continuation::Result { ok, err } => Continuation::Result { ok: wrap(ok), err: wrap(err) },
    };
    Effect { work, continuation }
}

/// Lifts the effects of a component to the events of the reactor that owns it: every effect
/// keeps its work and its place, and each event that may follow it is wrapped by `wrap`.
pub fn wrap_effects<Ev, REv, F: Fn(Ev) -> REv>(wrap: F, effects: Effects<Ev>) -> (wrapped: Effects<
    REv,
>)
    requires
        forall|event: Ev| call_requires(wrap, (event,)),
    ensures
        wrapped@.len() == effects@.len(),
        forall|i: int| 0 <= i < effects@.len() ==> wraps(wrap, effects@[i], #[trigger] wrapped@[i]),
        forall|embedding: spec_fn(Ev) -> REv| #[trigger]
            computes(wrap, embedding) ==> wrapped@ == lift(effects@, embedding),
{
    let mut wrapped: Vec<Effect<REv>> = Vec::new();
    let ghost all = effects@;
    for effect in it: effects
        invariant
            forall|event: Ev| call_requires(wrap, (event,)),
            it.seq() == all,
            wrapped@.len() == it.index(),
            forall|i: int| 0 <= i < wrapped@.len() ==> wraps(wrap, all[i], #[trigger] wrapped@[i]),
    {
        let lifted = wrap_effect(&wrap, effect);
        wrapped.push(lifted);
    }
    proof {
        assert forall|embedding: spec_fn(Ev) -> REv| #[trigger]
            computes(wrap, embedding) implies wrapped@ == lift(all, embedding) by {
            assert forall|i: int| 0 <= i < all.len() implies wrapped@[i] == lift(
                all,
                embedding,
            )[i] by {
                assert(wraps(wrap, all[i], wrapped@[i]));
            }
            assert(wrapped@ =~= lift(all, embedding));
        }
    }
    wrapped
}

/// Lifting keeps what follows an effect: the events that a lifted effect gives for an outcome
/// are the events of the effect itself, embedded.
pub proof fn lemma_lift_resolves<Ev, REv>(
    effect: Effect<Ev>,
    embedding: spec_fn(Ev) -> REv,
    outcome: Outcome,
)
    ensures
        effect.map(embedding).continuation.events(outcome) == effect.continuation.events(
            outcome,
        ).map_values(embedding),
{
    assert(effect.map(embedding).continuation.events(outcome) =~= effect.continuation.events(
        outcome,
    ).map_values(embedding));
}

/// A reactor: the owner of a set of components and the router of their events.
///
/// What a reactor does with an event is a function of its state, the random source and the
/// event: `transition` is that function, and `dispatch_event` computes it.  The state of a
/// reactor is its view.
pub trait Reactor: Sized + View {
    /// Event type associated with reactor.
    ///
    /// Defines what kind of event the reactor processes.
    type Event;

    /// A configuration for the reactor.
    type Config;

    /// The error type returned by the reactor.
    type Error;

    /// Where dispatching `event` leads from the state `state` with the random source `rng`.
    spec fn transition(state: Self::V, rng: NodeRng, event: Self::Event) -> Step<
        Self::V,
        Self::Event,
    >;

    /// Whether a reactor in the state `state` has reached its end.
    spec fn stopped(state: Self::V) -> bool;

    /// Dispatches an event on the reactor.
    ///
    /// This function is typically only called by the reactor itself to dispatch an event. It is
    /// safe to call regardless, but will cause the event to skip the queue and things like
    /// accounting.
    fn dispatch_event(
        &mut self,
        effect_builder: EffectBuilder<Self::Event>,
        rng: &mut NodeRng,
        event: Self::Event,
    ) -> (effects: Effects<Self::Event>)
        ensures
            final(self)@ == Self::transition(old(self)@, *old(rng), event).state,
            *final(rng) == Self::transition(old(self)@, *old(rng), event).rng,
            effects@ == Self::transition(old(self)@, *old(rng), event).effects,
    ;

    /// Indicates that the reactor has completed all its work and should no longer dispatch
    /// events.
    fn is_stopped(&mut self) -> (stopped: bool)
        ensures
            stopped == Self::stopped(old(self)@),
            final(self)@ == old(self)@,
    ;
}

/// Where dispatching the events `events`, one after the other, leads from the state `state`
/// with the random source `rng`.  The effects are those of all the dispatches, in order.
pub open spec fn run<R: Reactor>(state: R::V, rng: NodeRng, events: Seq<R::Event>) -> Step<
    R::V,
    R::Event,
>
    decreases events.len(),
{
    if events.len() == 0 {
        Step { state, rng, effects: seq![] }
    } else {
        let before = run::<R>(state, rng, events.drop_last());
        let last = R::transition(before.state, before.rng, events.last());
        Step { state: last.state, rng: last.rng, effects: before.effects + last.effects }
    }
}

/// Replay determinism: two runs that start from the same state with the same random source and
/// see the same events end in the same state, with the same random source, and have given the
/// same effects in the same order.
pub proof fn lemma_replay_deterministic<R: Reactor>(
    first_state: R::V,
    first_rng: NodeRng,
    second_state: R::V,
    second_rng: NodeRng,
    events: Seq<R::Event>,
)
    requires
        first_state == second_state,
        first_rng@ == second_rng@,
    ensures
        run::<R>(first_state, first_rng, events).state == run::<R>(
            second_state,
            second_rng,
            events,
        ).state,
        run::<R>(first_state, first_rng, events).rng@ == run::<R>(
            second_state,
            second_rng,
            events,
        ).rng@,
        run::<R>(first_state, first_rng, events).effects == run::<R>(
            second_state,
            second_rng,
            events,
        ).effects,
{
    crate::rng::lemma_rng_determined_by_state(first_rng, second_rng);
}

/// A run may be cut anywhere: dispatching `head` and then `tail` is dispatching `head + tail`.
pub proof fn lemma_run_concat<R: Reactor>(
    state: R::V,
    rng: NodeRng,
    head: Seq<R::Event>,
    tail: Seq<R::Event>,
)
    ensures
        run::<R>(state, rng, head + tail).state == run::<R>(
            run::<R>(state, rng, head).state,
            run::<R>(state, rng, head).rng,
            tail,
        ).state,
        run::<R>(state, rng, head + tail).rng == run::<R>(
            run::<R>(state, rng, head).state,
            run::<R>(state, rng, head).rng,
            tail,
        ).rng,
        run::<R>(state, rng, head + tail).effects == run::<R>(state, rng, head).effects + run::<R>(
            run::<R>(state, rng, head).state,
            run::<R>(state, rng, head).rng,
            tail,
        ).effects,
    decreases tail.len(),
{
    let middle = run::<R>(state, rng, head);
    if tail.len() == 0 {
        assert(head + tail =~= head);
        assert(middle.effects + Seq::<Effect<R::Event>>::empty() =~= middle.effects);
    } else {
        lemma_run_concat::<R>(state, rng, head, tail.drop_last());
        assert((head + tail).drop_last() =~= head + tail.drop_last());
        assert((head + tail).last() == tail.last());
        let before = run::<R>(middle.state, middle.rng, tail.drop_last());
        let last = R::transition(before.state, before.rng, tail.last());
        assert((middle.effects + before.effects) + last.effects =~= middle.effects + (before.effects
            + last.effects));
    }
}

/// A request that was made and whose answer has not come yet.
#[derive(Debug, PartialEq, Eq)]
pub struct Waiting<Ev> {
    /// Names the one who waits.
    pub responder: Responder,
    /// What follows the answer.
    pub continuation: Continuation<Ev>,
}

/// The place of the first of `waiting` that `responder` names, if it names one.
pub open spec fn first_waiting<Ev>(waiting: Seq<Waiting<Ev>>, responder: Responder) -> Option<int>
    decreases waiting.len(),
{
    if waiting.len() == 0 {
        None
    } else if waiting[0].responder == responder {
        Some(0)
    } else {
        match first_waiting(waiting.drop_first(), responder) {
            Some(place) => Some(place + 1),
            None => None,
        }
    }
}

/// `first_waiting` finds the first entry that the responder names, and finds none only where
/// there is none.
pub proof fn lemma_first_waiting<Ev>(waiting: Seq<Waiting<Ev>>, responder: Responder)
    ensures
        match first_waiting(waiting, responder) {
            Some(place) => {
                &&& 0 <= place < waiting.len()
                &&& waiting[place].responder == responder
                &&& forall|i: int| 0 <= i < place ==> (#[trigger] waiting[i]).responder != responder
            },
            None => forall|i: int|
                0 <= i < waiting.len() ==> (#[trigger] waiting[i]).responder != responder,
        },
    decreases waiting.len(),
{
    if waiting.len() > 0 && waiting[0].responder != responder {
        let rest = waiting.drop_first();
        lemma_first_waiting(rest, responder);
        match first_waiting(rest, responder) {
            Some(place) => {
                assert forall|i: int| 0 <= i < place + 1 implies (#[trigger] waiting[i]).responder
                    != responder by {
                    if i > 0 {
                        assert(waiting[i] == rest[i - 1]);
                    }
                }
            },
            None => {
                assert forall|i: int| 0 <= i < waiting.len() implies (
                #[trigger] waiting[i]).responder != responder by {
                    if i > 0 {
                        assert(waiting[i] == rest[i - 1]);
                    }
                }
            },
        }
    }
}

/// The embedding of requests into the events `Ev`: a request becomes the event that carries it
/// to the component that serves it.
pub open spec fn request_embedding<Ev: From<Request>>() -> spec_fn(Request) -> Ev {
    |request: Request| <Ev as FromSpec<Request>>::from_spec(request)
}

/// The state of a runner after one turn, and the effects of the turn whose work is left to be
/// done outside.  In a turn the event in front is taken off the queue and dispatched, and the
/// effects of the dispatch are taken up in their order.  Where no event waits, nothing happens.
pub open spec fn advanced<R: Reactor>(
    view: RunnerView<R::V, R::Event>,
    embedding: spec_fn(Request) -> R::Event,
) -> (RunnerView<R::V, R::Event>, Seq<Effect<R::Event>>) {
    if view.queue.len() == 0 {
        (view, seq![])
    } else {
        let step = R::transition(view.reactor, view.rng, view.queue.first());
        (RunnerView {
            reactor: step.state,
            rng: step.rng,
            queue: view.queue.drop_first(),
            ..view
        }).processed_all(step.effects, embedding)
    }
}

/// What a step of a runner came to, for whoever drives the runner.
#[derive(Debug, PartialEq, Eq)]
pub enum Action<Ev> {
    /// An event was dispatched, and its effects were taken up.
    Dispatched,
    /// The work of this effect is to be done outside now, and its outcome told to `complete`.
    Perform(Effect<Ev>),
    /// Nothing is left to do: no event waits, and no work is left to be done outside.
    Idle,
    /// The reactor has reached its end.
    Stopped,
}

/// The state of a runner after one step, and what the step came to.
///
/// A reactor that has stopped is left alone.  Otherwise events come before outside work: while
/// an event waits, the one in front is dispatched and its effects are taken up.  Only when no
/// event waits is work handed out, the effect that has waited longest first.  Where neither
/// an event nor work waits, the runner is idle.
pub open spec fn stepped<R: Reactor>(
    view: RunnerView<R::V, R::Event>,
    embedding: spec_fn(Request) -> R::Event,
) -> (RunnerView<R::V, R::Event>, Action<R::Event>) {
    if R::stopped(view.reactor) {
        (view, Action::Stopped)
    } else if view.queue.len() > 0 {
        let step = R::transition(view.reactor, view.rng, view.queue.first());
        (
            (RunnerView {
                reactor: step.state,
                rng: step.rng,
                queue: view.queue.drop_first(),
                ..view
            }).taken_up(step.effects, embedding),
            Action::Dispatched,
        )
    } else if view.jobs.len() > 0 {
        (RunnerView { jobs: view.jobs.drop_first(), ..view }, Action::Perform(view.jobs.first()))
    } else {
        (view, Action::Idle)
    }
}

/// A reactor at work: the reactor, its random source, the queue of the events that wait to be
/// dispatched, the requests that wait for their answers, and the effects whose work waits to
/// be done outside.
pub struct Runner<R: Reactor> {
    reactor: R,
    rng: NodeRng,
    queue: VecDeque<R::Event>,
    waiting: Vec<Waiting<R::Event>>,
    next_responder: u64,
    jobs: Vec<Effect<R::Event>>,
}

/// The state of a runner.
pub ghost struct RunnerView<S, Ev> {
    /// The state of the reactor.
    pub reactor: S,
    /// The random source.
    pub rng: NodeRng,
    /// The events that wait, the one that came first in front.
    pub queue: Seq<Ev>,
    /// The requests that wait for their answers, in the order in which they were made.
    pub waiting: Seq<Waiting<Ev>>,
    /// The number under which the next request will be made.
    pub next_responder: u64,
    /// The effects whose work waits to be done outside, the one that came first in front.
    pub jobs: Seq<Effect<Ev>>,
}

impl<S, Ev> RunnerView<S, Ev> {
    /// The state after `events` were put at the back of the queue.
    pub open spec fn scheduled(self, events: Seq<Ev>) -> Self {
        RunnerView { queue: self.queue + events, ..self }
    }

    /// The state after the request that `responder` names was answered with `outcome`: the
    /// request waits no more, and the events that follow the answer are at the back of the
    /// queue.  An answer to a request that does not wait changes nothing.
    pub open spec fn answered(self, responder: Responder, outcome: Outcome) -> Self {
        match first_waiting(self.waiting, responder) {
            None => self,
            Some(place) => RunnerView {
                queue: self.queue + self.waiting[place].continuation.events(outcome),
                waiting: self.waiting.remove(place),
                ..self
            },
        }
    }

    /// The state after the work of `effect` has ended with `outcome`: first the answer that
    /// the work gives is delivered, if it gives one, then the events that follow the effect are
    /// put at the back of the queue.
    pub open spec fn completed(self, effect: Effect<Ev>, outcome: Outcome) -> Self {
        let delivered = match effect.work.spec_response(outcome) {
            Some((responder, answer)) => self.answered(responder, answer),
            None => self,
        };
        delivered.scheduled(effect.continuation.events(outcome))
    }

    /// The state after `effect` was taken up, and the effect itself where its work is left to
    /// be done outside.
    ///
    /// Work that makes a request is served here: the request goes to the back of the queue as
    /// an event, under the next responder, and what follows the effect waits for the answer.
    /// Work that only answers a request has ended once it is taken up.  All other work is
    /// handed back.
    pub open spec fn processed(self, effect: Effect<Ev>, embedding: spec_fn(Request) -> Ev) -> (
        Self,
        Option<Effect<Ev>>,
    ) {
        let responder = Responder { id: self.next_responder };
        match effect.work.spec_request(responder) {
            Some(request) => (
                RunnerView {
                    queue: self.queue.push(embedding(request)),
                    waiting: self.waiting.push(
                        Waiting { responder, continuation: effect.continuation },
                    ),
                    next_responder: self.next_responder.wrapping_add(1),
                    ..self
                },
                None,
            ),
            None => match effect.work {
                Work::Respond { .. } => (self.completed(effect, Outcome::Success), None),
                _ => (self, Some(effect)),
            },
        }
    }

    /// The state after the effects `effects` were taken up one after the other, and those of
    /// them whose work is left to be done outside, in their order.
    pub open spec fn processed_all(
        self,
        effects: Seq<Effect<Ev>>,
        embedding: spec_fn(Request) -> Ev,
    ) -> (Self, Seq<Effect<Ev>>)
        decreases effects.len(),
    {
        if effects.len() == 0 {
            (self, seq![])
        } else {
            let (before, jobs) = self.processed_all(effects.drop_last(), embedding);
            let (after, job) = before.processed(effects.last(), embedding);
            (
                after,
                match job {
                    Some(job) => jobs.push(job),
                    None => jobs,
                },
            )
        }
    }
}

impl<S, Ev> RunnerView<S, Ev> {
    /// The state after the effects `effects` were taken up one after the other, and those of
    /// them whose work is left to be done outside were put behind the work that waits.
    pub open spec fn taken_up(self, effects: Seq<Effect<Ev>>, embedding: spec_fn(Request) -> Ev) -> Self {
        let (after, jobs) = self.processed_all(effects, embedding);
        RunnerView { jobs: after.jobs + jobs, ..after }
    }
}

impl<R: Reactor> View for Runner<R> {
    type V = RunnerView<R::V, R::Event>;

    closed spec fn view(&self) -> RunnerView<R::V, R::Event> {
        RunnerView {
            reactor: self.reactor@,
            rng: self.rng,
            queue: self.queue@,
            waiting: self.waiting@,
            next_responder: self.next_responder,
            jobs: self.jobs@,
        }
    }
}

impl<R: Reactor> Runner<R> {
    /// The runner of `reactor` with the random source `rng`, with no event, no request and
    /// no work waiting.
    pub fn new(reactor: R, rng: NodeRng) -> (runner: Self)
        ensures
            runner@ == (RunnerView {
                reactor: reactor@,
                rng,
                queue: Seq::<R::Event>::empty(),
                waiting: Seq::<Waiting<R::Event>>::empty(),
                next_responder: 0,
                jobs: Seq::<Effect<R::Event>>::empty(),
            }),
    {
        Runner {
            reactor,
            rng,
            queue: VecDeque::new(),
            waiting: Vec::new(),
            next_responder: 0,
            jobs: Vec::new(),
        }
    }

    /// Puts `event` at the back of the queue.
    pub fn schedule(&mut self, event: R::Event)
        ensures
            final(self)@ == old(self)@.scheduled(seq![event]),
    {
        self.queue.push_back(event);
        assert(self@.queue =~= old(self)@.queue + seq![event]);
    }

    /// Puts the events `events` at the back of the queue, in their order.
    pub fn schedule_all(&mut self, events: Multiple<R::Event>)
        ensures
            final(self)@ == old(self)@.scheduled(events@),
    {
        let ghost all = events@;
        let ghost before = self@;
        assert(before.queue + all.take(0) =~= before.queue);
        for event in it: events
            invariant
                it.seq() == all,
                self@ == before.scheduled(all.take(it.index() as int)),
        {
            assert(all.take(it.index() + 1) =~= all.take(it.index() as int).push(event));
            assert(before.queue + all.take(it.index() + 1) =~= (before.queue + all.take(
                it.index() as int,
            )).push(event));
            self.queue.push_back(event);
        }
        assert(all.take(all.len() as int) =~= all);
    }

    /// Delivers the answer `outcome` to the request that `responder` names.
    pub fn answer(&mut self, responder: Responder, outcome: Outcome)
        ensures
            final(self)@ == old(self)@.answered(responder, outcome),
    {
        let mut place: usize = 0;
        let mut found = false;
        while place < self.waiting.len() && !found
            invariant
                self@ == old(self)@,
                place <= self.waiting@.len(),
                found ==> place < self.waiting@.len() && self.waiting@[place as int].responder
                    == responder,
                forall|i: int| 0 <= i < place ==> (#[trigger] self.waiting@[i]).responder != responder,
            decreases self.waiting@.len() - place + (if found { 0int } else { 1int }),
        {
            if self.waiting[place].responder == responder {
                found = true;
            } else {
                place = place + 1;
            }
        }
        proof {
            lemma_first_waiting(self@.waiting, responder);
        }
        if found {
            let waiting = self.waiting.remove(place);
            let events = waiting.continuation.resolve(outcome);
            self.schedule_all(events);
        }
    }

    /// Tells the runner that the work of `effect` has ended with `outcome`.
    pub fn complete(&mut self, effect: Effect<R::Event>, outcome: Outcome)
        ensures
            final(self)@ == old(self)@.completed(effect, outcome),
    {
        match effect.work.response(outcome) {
            Some((responder, answer)) => {
                self.answer(responder, answer);
            },
            None => {},
        }
        let events = effect.resolve(outcome);
        self.schedule_all(events);
    }

    /// Takes up one effect of a dispatch.  Gives the effect back where its work is left to be
    /// done outside: whoever does it tells the outcome to `complete`.
    pub fn process(&mut self, effect: Effect<R::Event>) -> (job: Option<Effect<R::Event>>) where
        R::Event: From<Request>,

        ensures
            <R::Event as FromSpec<Request>>::obeys_from_spec() ==> {
                &&& final(self)@ == old(self)@.processed(effect, request_embedding::<R::Event>()).0
                &&& job == old(self)@.processed(effect, request_embedding::<R::Event>()).1
            },
    {
        let responder = Responder { id: self.next_responder };
        match effect.work.request(responder) {
            Some(request) => {
                self.queue.push_back(R::Event::from(request));
                self.waiting.push(Waiting { responder, continuation: effect.continuation });
                self.next_responder = self.next_responder.wrapping_add(1);
                None
            },
            None => match effect.work {
                Work::Respond { .. } => {
                    self.complete(effect, Outcome::Success);
                    None
                },
                _ => Some(effect),
            },
        }
    }

    /// Takes up the effects of a dispatch, one after the other.  Gives back those whose work
    /// is left to be done outside.
    pub fn process_all(&mut self, effects: Effects<R::Event>) -> (jobs: Effects<R::Event>) where
        R::Event: From<Request>,

        ensures
            <R::Event as FromSpec<Request>>::obeys_from_spec() ==> {
                &&& final(self)@ == old(self)@.processed_all(
                    effects@,
                    request_embedding::<R::Event>(),
                ).0
                &&& jobs@ == old(self)@.processed_all(effects@, request_embedding::<R::Event>()).1
            },
    {
        let ghost all = effects@;
        let ghost before = self@;
        let ghost embedding = request_embedding::<R::Event>();
        let mut jobs: Vec<Effect<R::Event>> = Vec::new();
        assert(all.take(0) =~= Seq::<Effect<R::Event>>::empty());
        for effect in it: effects
            invariant
                it.seq() == all,
                embedding == request_embedding::<R::Event>(),
                <R::Event as FromSpec<Request>>::obeys_from_spec() ==> {
                    &&& self@ == before.processed_all(all.take(it.index() as int), embedding).0
                    &&& jobs@ == before.processed_all(all.take(it.index() as int), embedding).1
                },
        {
            proof {
                let longer = all.take(it.index() + 1);
                assert(longer.drop_last() =~= all.take(it.index() as int));
                assert(longer.last() == effect);
            }
            match self.process(effect) {
                Some(job) => {
                    jobs.push(job);
                },
                None => {},
            }
        }
        assert(all.take(all.len() as int) =~= all);
        jobs
    }

    /// Takes the event in front off the queue and dispatches it.  Gives back the effects of the
    /// dispatch, or `None` when no event waits.
    pub fn crank(&mut self) -> (effects: Option<Effects<R::Event>>)
        ensures
            match effects {
                None => old(self)@.queue.len() == 0 && final(self)@ == old(self)@,
                Some(effects) => {
                    let step = R::transition(
                        old(self)@.reactor,
                        old(self)@.rng,
                        old(self)@.queue.first(),
                    );
                    &&& old(self)@.queue.len() > 0
                    &&& final(self)@ == (RunnerView {
                        reactor: step.state,
                        rng: step.rng,
                        queue: old(self)@.queue.drop_first(),
                        ..old(self)@
                    })
                    &&& effects@ == step.effects
                },
            },
    {
        match self.queue.pop_front() {
            None => None,
            Some(event) => {
                let effect_builder = EffectBuilder::new(EventQueueHandle::new());
                let effects = self.reactor.dispatch_event(effect_builder, &mut self.rng, event);
                Some(effects)
            },
        }
    }

    /// Takes one turn: dispatches the event in front and takes up the effects of the dispatch.
    /// Gives back the effects whose work is left to be done outside.
    pub fn advance(&mut self) -> (jobs: Effects<R::Event>) where R::Event: From<Request>
        ensures
            <R::Event as FromSpec<Request>>::obeys_from_spec() ==> {
                &&& final(self)@ == advanced::<R>(old(self)@, request_embedding::<R::Event>()).0
                &&& jobs@ == advanced::<R>(old(self)@, request_embedding::<R::Event>()).1
            },
    {
        match self.crank() {
            None => Vec::new(),
            Some(effects) => self.process_all(effects),
        }
    }

    /// Takes up the effects of a dispatch, one after the other, and keeps those whose work is
    /// left to be done outside until `step` hands them out.
    pub fn take_up(&mut self, effects: Effects<R::Event>) where R::Event: From<Request>
        ensures
            <R::Event as FromSpec<Request>>::obeys_from_spec() ==> final(self)@ == old(
                self,
            )@.taken_up(effects@, request_embedding::<R::Event>()),
    {
        let mut jobs = self.process_all(effects);
        self.jobs.append(&mut jobs);
    }

    /// Takes one step, and tells whoever drives the runner what it came to: see `stepped`.
    pub fn step(&mut self) -> (action: Action<R::Event>) where R::Event: From<Request>
        ensures
            <R::Event as FromSpec<Request>>::obeys_from_spec() ==> {
                &&& final(self)@ == stepped::<R>(old(self)@, request_embedding::<R::Event>()).0
                &&& action == stepped::<R>(old(self)@, request_embedding::<R::Event>()).1
            },
    {
        if self.reactor.is_stopped() {
            return Action::Stopped;
        }
        match self.crank() {
            Some(effects) => {
                self.take_up(effects);
                Action::Dispatched
            },
            None => {
                if self.jobs.len() > 0 {
                    let job = self.jobs.remove(0);
                    assert(self.jobs@ =~= old(self)@.jobs.drop_first());
                    Action::Perform(job)
                } else {
                    Action::Idle
                }
            },
        }
    }

    /// The event in front of the queue, if one waits.
    pub fn peek(&self) -> (event: Option<&R::Event>)
        ensures
            match event {
                None => self@.queue.len() == 0,
                Some(event) => self@.queue.len() > 0 && *event == self@.queue.first(),
            },
    {
        if self.queue.len() == 0 {
            None
        } else {
            Some(&self.queue[0])
        }
    }

    /// Dispatches every event that waits, in the order of the queue, and gives back the effects
    /// of all the dispatches.  None of the effects is taken up.
    pub fn drain(&mut self) -> (effects: Effects<R::Event>)
        ensures
            final(self)@ == (RunnerView {
                reactor: run::<R>(old(self)@.reactor, old(self)@.rng, old(self)@.queue).state,
                rng: run::<R>(old(self)@.reactor, old(self)@.rng, old(self)@.queue).rng,
                queue: Seq::<R::Event>::empty(),
                ..old(self)@
            }),
            effects@ == run::<R>(old(self)@.reactor, old(self)@.rng, old(self)@.queue).effects,
    {
        let ghost start = self@;
        let ghost mut done: Seq<R::Event> = Seq::empty();
        let mut collected: Vec<Effect<R::Event>> = Vec::new();
        assert(done + self@.queue =~= start.queue);
        while self.queue.len() > 0
            invariant
                done + self@.queue == start.queue,
                self@.reactor == run::<R>(start.reactor, start.rng, done).state,
                self@.rng == run::<R>(start.reactor, start.rng, done).rng,
                self@.waiting == start.waiting,
                self@.next_responder == start.next_responder,
                self@.jobs == start.jobs,
                collected@ == run::<R>(start.reactor, start.rng, done).effects,
            decreases self@.queue.len(),
        {
            let ghost before = self@;
            let ghost event = self@.queue.first();
            let effects = self.crank();
            let mut effects = match effects {
                Some(effects) => effects,
                None => Vec::new(),
            };
            proof {
                let next = done.push(event);
                assert(next.drop_last() =~= done);
                assert(next + before.queue.drop_first() =~= done + before.queue);
                done = next;
            }
            collected.append(&mut effects);
        }
        assert(done =~= start.queue);
        assert(self@.queue =~= Seq::<R::Event>::empty());
        collected
    }

    /// Whether the reactor has reached its end.
    pub fn is_stopped(&mut self) -> (stopped: bool)
        ensures
            stopped == R::stopped(old(self)@.reactor),
            final(self)@ == old(self)@,
    {
        self.reactor.is_stopped()
    }

    /// Whether no event waits to be dispatched.
    pub fn is_idle(&self) -> (idle: bool)
        ensures
            idle == (self@.queue.len() == 0),
    {
        self.queue.len() == 0
    }

    /// The reactor.
    pub fn reactor(&self) -> (reactor: &R)
        ensures
            reactor@ == self@.reactor,
    {
        &self.reactor
    }

    /// Gives up the runner for its reactor.
    pub fn into_inner(self) -> (reactor: R)
        ensures
            reactor@ == self@.reactor,
    {
        self.reactor
    }
}

} // verus!
