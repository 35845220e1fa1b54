//! Effects: what a component hands back in place of doing slow work itself.
//!
//! An effect is a value.  It names the work that is to be done outside the dispatch call, and
//! says which events of the component are to follow once the work has an outcome.  Nothing in an
//! effect runs by itself: the runner of the reactor takes it up, serves the requests among the
//! work itself and hands the rest to whoever drives it; once the work has an outcome, the events
//! that `Effect::resolve` gives go to the back of the reactor's queue.

use vstd::prelude::*;

use crate::reactor::EventQueueHandle;
use crate::types::ProtocolVersion;

pub mod requests;

use requests::{ContractRuntimeRequest, Request, StorageRequest};

verus! {

/// A short collection of values.
pub type Multiple<T> = Vec<T>;

/// The effects that one call of a component hands back.
pub type Effects<Ev> = Multiple<Effect<Ev>>;

/// How a piece of work ended.
#[derive(Clone, Copy, Debug, PartialEq, Eq, Structural)]
pub enum Outcome {
    /// The work was done.
    Success,
    /// The work could not be done.
    Failure,
}

/// Names the one who waits for the answer to a request.
#[derive(Clone, Copy, Debug, PartialEq, Eq, Structural)]
pub struct Responder {
    /// The number under which the request was made.
    pub id: u64,
}

/// The work that an effect asks for.
#[derive(Clone, Copy, Debug, PartialEq, Eq, Structural)]
pub enum Work {
    /// Answer the request that `responder` belongs to with `outcome`.
    Respond { responder: Responder, outcome: Outcome },
    /// Ask the storage component to keep the chainspec of this version, and wait for its answer.
    PutChainspec { version: ProtocolVersion },
    /// Ask the contract runtime to commit the genesis of this version, and wait for its answer.
    CommitGenesis { version: ProtocolVersion },
    /// Run the genesis of this version in the execution engine, and answer the request that
    /// `responder` belongs to with the outcome of the run.
    ExecuteGenesis { version: ProtocolVersion, responder: Responder },
}

/// What follows the work of an effect: how its outcome becomes events.
#[derive(Debug, PartialEq, Eq)]
pub enum Continuation<Ev> {
    /// No event follows.
    Ignore,
    /// This event follows, whatever the outcome.
    Event(Ev),
    /// One of two events follows, by the outcome.
    Result {
        /// The event that follows a success.
        ok: Ev,
        /// The event that follows a failure.
        err: Ev,
    },
}

/// A piece of deferred work and what follows it.
#[derive(Debug, PartialEq, Eq)]
pub struct Effect<Ev> {
    /// The work to be done.
    pub work: Work,
    /// What follows the work.
    pub continuation: Continuation<Ev>,
}

impl<Ev> Continuation<Ev> {
    /// The events that follow the outcome `outcome`.
    pub open spec fn events(self, outcome: Outcome) -> Seq<Ev> {
        match self {
            Continuation::Ignore => seq![],
            Continuation::Event(event) => seq![event],
            Continuation::Result { ok, err } => match outcome {
                Outcome::Success => seq![ok],
                Outcome::Failure => seq![err],
            },
        }
    }

    /// The events that follow the outcome `outcome`.
    pub fn resolve(self, outcome: Outcome) -> (events: Multiple<Ev>)
        ensures
            events@ == self.events(outcome),
    {
        let mut events: Vec<Ev> = Vec::new();
        match self {
            Continuation::Ignore => {},
            Continuation::Event(event) => {
                events.push(event);
            },
            Continuation::Result { ok, err } => match outcome {
                Outcome::Success => {
                    events.push(ok);
                },
                Outcome::Failure => {
                    events.push(err);
                },
            },
        }
        assert(events@ =~= self.events(outcome));
        events
    }

    /// The continuation whose events are those of this one, each mapped by `wrap`.
    pub open spec fn map<REv>(self, wrap: spec_fn(Ev) -> REv) -> Continuation<REv> {
        match self {
            Continuation::Ignore => Continuation::Ignore,
            Continuation::Event(event) => Continuation::Event(wrap(event)),
            Continuation::Result { ok, err } => Continuation::Result {
                ok: wrap(ok),
                err: wrap(err),
            },
        }
    }
}

impl<Ev> Effect<Ev> {
    /// The effect of the same work whose events are mapped by `wrap`.
    pub open spec fn map<REv>(self, wrap: spec_fn(Ev) -> REv) -> Effect<REv> {
        Effect { work: self.work, continuation: self.continuation.map(wrap) }
    }

    /// The events that the effect gives once its work has ended with `outcome`.
    pub fn resolve(self, outcome: Outcome) -> (events: Multiple<Ev>)
        ensures
            events@ == self.continuation.events(outcome),
    {
        self.continuation.resolve(outcome)
    }
}

impl Work {
    /// The request that this work makes of another component, with `responder` as the one who
    /// waits; `None` for work that makes no request.
    pub open spec fn spec_request(self, responder: Responder) -> Option<Request> {
        match self {
            Work::PutChainspec { version } => Some(
                Request::Storage(StorageRequest::PutChainspec { version, responder }),
            ),
            Work::CommitGenesis { version } => Some(
                Request::ContractRuntime(ContractRuntimeRequest::CommitGenesis { version, responder }),
            ),
            _ => None,
        }
    }

    /// The request that this work makes of another component, if it makes one.
    pub fn request(&self, responder: Responder) -> (request: Option<Request>)
        ensures
            request == self.spec_request(responder),
    {
        match self {
            Work::PutChainspec { version } => Some(
                Request::Storage(StorageRequest::PutChainspec { version: *version, responder }),
            ),
            Work::CommitGenesis { version } => Some(
                Request::ContractRuntime(
                    ContractRuntimeRequest::CommitGenesis { version: *version, responder },
                ),
            ),
            _ => None,
        }
    }

    /// The answer that this work gives to a waiting request once it has ended with `outcome`:
    /// the responder and what it is told.  `None` for work that answers nobody.
    pub open spec fn spec_response(self, outcome: Outcome) -> Option<(Responder, Outcome)> {
        match self {
            Work::Respond { responder, outcome: answer } => Some((responder, answer)),
            Work::ExecuteGenesis { responder, .. } => Some((responder, outcome)),
            _ => None,
        }
    }

    /// The answer that this work gives to a waiting request, if it gives one.
    pub fn response(&self, outcome: Outcome) -> (response: Option<(Responder, Outcome)>)
        ensures
            response == self.spec_response(outcome),
    {
        match self {
            Work::Respond { responder, outcome: answer } => Some((*responder, *answer)),
            Work::ExecuteGenesis { responder, .. } => Some((*responder, outcome)),
            _ => None,
        }
    }

    /// The single effect of this work after which no event follows.
    pub fn ignore<Ev>(self) -> (effects: Effects<Ev>)
        ensures
            effects@ == seq![Effect { work: self, continuation: Continuation::<Ev>::Ignore }],
    {
        let mut effects: Vec<Effect<Ev>> = Vec::new();
        effects.push(Effect { work: self, continuation: Continuation::Ignore });
        assert(effects@ =~= seq![Effect { work: self, continuation: Continuation::<Ev>::Ignore }]);
        effects
    }

    /// The single effect of this work after which `event` follows.
    pub fn event<Ev>(self, event: Ev) -> (effects: Effects<Ev>)
        ensures
            effects@ == seq![Effect { work: self, continuation: Continuation::Event(event) }],
    {
        let mut effects: Vec<Effect<Ev>> = Vec::new();
        effects.push(Effect { work: self, continuation: Continuation::Event(event) });
        assert(effects@ =~= seq![Effect { work: self, continuation: Continuation::Event(event) }]);
        effects
    }

    /// The single effect of this work after which `ok` follows a success and `err` a failure.
    pub fn result<Ev>(self, ok: Ev, err: Ev) -> (effects: Effects<Ev>)
        ensures
            effects@ == seq![
                Effect { work: self, continuation: Continuation::Result { ok, err } },
            ],
    {
        let mut effects: Vec<Effect<Ev>> = Vec::new();
        effects.push(Effect { work: self, continuation: Continuation::Result { ok, err } });
        assert(effects@ =~= seq![
            Effect { work: self, continuation: Continuation::Result { ok, err } },
        ]);
        effects
    }
}

impl Responder {
    /// The work of answering the request with `outcome`.
    pub fn respond(self, outcome: Outcome) -> (work: Work)
        ensures
            work == (Work::Respond { responder: self, outcome }),
    {
        Work::Respond { responder: self, outcome }
    }
}

/// The handle with which components make effects.  It is made for one reactor's queue, and the
/// events that its effects give are events for that reactor.
#[derive(Debug)]
pub struct EffectBuilder<REv> {
    event_queue: EventQueueHandle<REv>,
}

impl<REv> Clone for EffectBuilder<REv> {
    fn clone(&self) -> (cloned: Self)
        ensures
            cloned == *self,
    {
        EffectBuilder { event_queue: self.event_queue }
    }
}

impl<REv> Copy for EffectBuilder<REv> {

}

impl<REv> EffectBuilder<REv> {
    /// The handle of the queue that the builder works for.
    pub closed spec fn event_queue(self) -> EventQueueHandle<REv> {
        self.event_queue
    }

    /// The builder for the queue behind `event_queue`.
    pub fn new(event_queue: EventQueueHandle<REv>) -> (builder: Self)
        ensures
            builder.event_queue() == event_queue,
    {
        EffectBuilder { event_queue }
    }

    /// The work of having the chainspec of `version` kept by the storage component.
    pub fn put_chainspec(self, version: ProtocolVersion) -> (work: Work)
        ensures
            work == (Work::PutChainspec { version }),
    {
        Work::PutChainspec { version }
    }

    /// The work of having the genesis of `version` committed by the contract runtime.
    pub fn commit_genesis(self, version: ProtocolVersion) -> (work: Work)
        ensures
            work == (Work::CommitGenesis { version }),
    {
        Work::CommitGenesis { version }
    }
}

} // verus!
