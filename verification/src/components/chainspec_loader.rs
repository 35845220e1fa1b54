//! The chainspec loader: the component that holds the chainspec, has it stored and has its
//! genesis committed.  The initializer reactor stops when the loader is done.

use vstd::prelude::*;

use crate::components::{Component, Step};
use crate::effect::{Continuation, Effect, EffectBuilder, Effects, Outcome, Work};
use crate::rng::NodeRng;
use crate::types::chainspec::accounts::rows_fault;
use crate::types::chainspec::{Chainspec, ChainspecSource, ChainspecView, Error};
use crate::types::ProtocolVersion;

verus! {

/// `ChainspecLoader` events.
#[derive(Clone, Copy, Debug, PartialEq, Eq, Structural)]
pub enum Event {
    /// The storage component has answered the request to keep the chainspec.
    PutToStorage {
        /// The version of the chainspec that was kept.
        version: ProtocolVersion,
    },
    /// The contract runtime has answered the request to commit genesis.
    CommitGenesisResult(Outcome),
}

impl Event {
    /// The text that describes the event.
    pub open spec fn spec_description(self) -> Seq<char> {
        match self {
            Event::PutToStorage { .. } => "put chainspec to storage"@,
            Event::CommitGenesisResult(Outcome::Success) => "commit genesis result: success"@,
            Event::CommitGenesisResult(Outcome::Failure) => "commit genesis result: failure"@,
        }
    }

    /// Describes the event in words.
    pub fn description(&self) -> (text: String)
        ensures
            text@ == self.spec_description(),
    {
        match self {
            Event::PutToStorage { .. } => "put chainspec to storage".to_owned(),
            Event::CommitGenesisResult(Outcome::Success) => "commit genesis result: success".to_owned(),
            Event::CommitGenesisResult(Outcome::Failure) => "commit genesis result: failure".to_owned(),
        }
    }
}

/// The component that loads the chainspec.
#[derive(Debug)]
pub struct ChainspecLoader {
    chainspec: Chainspec,
    // If `Some`, we're finished.  The value of the bool indicates success (true) or not.
    completed_successfully: Option<bool>,
}

/// The effects with which a loader starts: the chainspec of `version` is put to storage, and
/// `Event::PutToStorage` follows the answer.
pub open spec fn initial_effects(version: ProtocolVersion) -> Seq<Effect<Event>> {
    seq![
        Effect {
            work: Work::PutChainspec { version },
            continuation: Continuation::Event(Event::PutToStorage { version }),
        },
    ]
}

/// The effects with which a loader goes on once the chainspec of `version` is stored: genesis
/// is committed, and `Event::CommitGenesisResult` follows with the outcome.
pub open spec fn commit_effects(version: ProtocolVersion) -> Seq<Effect<Event>> {
    seq![
        Effect {
            work: Work::CommitGenesis { version },
            continuation: Continuation::Result {
                ok: Event::CommitGenesisResult(Outcome::Success),
                err: Event::CommitGenesisResult(Outcome::Failure),
            },
        },
    ]
}

/// The state of a loader.
pub ghost struct ChainspecLoaderView {
    /// The chainspec that the loader holds.
    pub chainspec: ChainspecView,
    /// `None` while the loader works; once it is done, whether it succeeded.
    pub completed_successfully: Option<bool>,
}

impl View for ChainspecLoader {
    type V = ChainspecLoaderView;

    closed spec fn view(&self) -> ChainspecLoaderView {
        ChainspecLoaderView {
            chainspec: self.chainspec@,
            completed_successfully: self.completed_successfully,
        }
    }
}

impl ChainspecLoader {
    /// Decodes the chainspec that was read from the node's directory and makes the loader for
    /// it.  An invalid chainspec is refused with the error of its first fault.
    pub fn new<REv>(source: ChainspecSource, effect_builder: EffectBuilder<REv>) -> (res: Result<
        (Self, Effects<Event>),
        Error,
    >)
        ensures
            match res {
                Ok((loader, effects)) => {
                    &&& rows_fault(source.accounts@) is None
                    &&& loader@ == (ChainspecLoaderView {
                        chainspec: source.chainspec(),
                        completed_successfully: None,
                    })
                    &&& effects@ == initial_effects(source.protocol_version)
                },
                Err(Error::LoadChainspecAccounts(error)) => rows_fault(source.accounts@) matches Some(
                    fault,
                ) && fault.describes(error),
                Err(_) => false,
            },
    {
        match Chainspec::from_source(source) {
            Ok(chainspec) => Ok(Self::new_with_chainspec(chainspec, effect_builder)),
            Err(error) => Err(error),
        }
    }

    /// Makes the loader for a chainspec that is valid already.
    pub fn new_with_chainspec<REv>(chainspec: Chainspec, effect_builder: EffectBuilder<REv>) -> (res: (
        Self,
        Effects<Event>,
    ))
        ensures
            res.0@ == (ChainspecLoaderView { chainspec: chainspec@, completed_successfully: None }),
            res.1@ == initial_effects(chainspec@.protocol_version),
    {
        let version = chainspec.protocol_version();
        let effects = effect_builder.put_chainspec(version).event(Event::PutToStorage { version });
        (ChainspecLoader { chainspec, completed_successfully: None }, effects)
    }

    /// Whether the loader is done.
    pub fn is_stopped(&self) -> (stopped: bool)
        ensures
            stopped == (self@.completed_successfully is Some),
    {
        self.completed_successfully.is_some()
    }

    /// Whether the loader is done and succeeded.
    pub fn stopped_successfully(&self) -> (success: bool)
        ensures
            success == (self@.completed_successfully == Some(true)),
    {
        match self.completed_successfully {
            Some(success) => success,
            None => false,
        }
    }

    /// The chainspec that the loader holds.
    pub fn chainspec(&self) -> (chainspec: &Chainspec)
        ensures
            chainspec@ == self@.chainspec,
    {
        &self.chainspec
    }
}

impl<REv> Component<REv> for ChainspecLoader {
    type Event = Event;

    type ConstructionError = Error;

    /// Once the chainspec is stored, genesis is committed; once genesis has an outcome, the
    /// loader is done, and succeeded if the outcome is a success.
    open spec fn transition(state: ChainspecLoaderView, rng: NodeRng, event: Event) -> Step<
        ChainspecLoaderView,
        Event,
    > {
        match event {
            Event::PutToStorage { version } => Step {
                state,
                rng,
                effects: commit_effects(state.chainspec.protocol_version),
            },
            Event::CommitGenesisResult(outcome) => Step {
                state: ChainspecLoaderView {
                    completed_successfully: Some(outcome == Outcome::Success),
                    ..state
                },
                rng,
                effects: seq![],
            },
        }
    }

    fn handle_event(
        &mut self,
        effect_builder: EffectBuilder<REv>,
        rng: &mut NodeRng,
        event: Event,
    ) -> (effects: Effects<Event>) {
        match event {
            Event::PutToStorage { version } => {
                effect_builder.commit_genesis(self.chainspec.protocol_version()).result(
                    Event::CommitGenesisResult(Outcome::Success),
                    Event::CommitGenesisResult(Outcome::Failure),
                )
            },
            Event::CommitGenesisResult(outcome) => {
                let success = match outcome {
                    Outcome::Success => true,
                    Outcome::Failure => false,
                };
                self.completed_successfully = Some(success);
                Vec::new()
            },
        }
    }
}

} // verus!
