//! The storage component: it keeps what the other components ask it to keep.

use vstd::prelude::*;

use crate::components::{Component, Step};
use crate::effect::requests::StorageRequest;
use crate::effect::{Continuation, Effect, EffectBuilder, Effects, Outcome, Work};
use crate::rng::NodeRng;
use crate::types::ProtocolVersion;
use crate::utils::WithDir;

verus! {

/// On-disk storage configuration.
#[derive(Debug, PartialEq, Eq)]
pub struct Config {
    /// The path to the folder where any files created or read by the storage component will
    /// exist, relative to the directory of the node's configuration.
    pub path: String,
}

impl Clone for Config {
    fn clone(&self) -> (cloned: Self)
        ensures
            cloned == *self,
    {
        Config { path: self.path.clone() }
    }
}

/// Error returned by the storage component.
#[derive(Clone, Copy, Debug, PartialEq, Eq, Structural)]
pub enum Error {
    /// The configuration names no folder for the storage.
    MissingPath,
}

/// Storage component events.
#[derive(Clone, Copy, Debug, PartialEq, Eq, Structural)]
pub enum Event {
    /// Incoming storage request.
    StorageRequest(StorageRequest),
}

impl Event {
    /// The text that describes the event.
    pub open spec fn spec_description(self) -> Seq<char> {
        match self {
            Event::StorageRequest(StorageRequest::PutChainspec { .. }) => "put chainspec"@,
        }
    }

    /// Describes the event in words.
    pub fn description(&self) -> (text: String)
        ensures
            text@ == self.spec_description(),
    {
        match self {
            Event::StorageRequest(StorageRequest::PutChainspec { .. }) => "put chainspec".to_owned(),
        }
    }
}

/// The storage component.
#[derive(Debug)]
pub struct Storage {
    path: String,
    chainspecs: Vec<ProtocolVersion>,
}

/// The versions `versions` with `version` kept too: added at the end unless it is among them.
pub open spec fn with_version(versions: Seq<ProtocolVersion>, version: ProtocolVersion) -> Seq<
    ProtocolVersion,
> {
    if versions.contains(version) {
        versions
    } else {
        versions.push(version)
    }
}

/// Keeping a version keeps what was kept, in its order, and keeps no version twice.
pub proof fn lemma_with_version(versions: Seq<ProtocolVersion>, version: ProtocolVersion)
    ensures
        with_version(versions, version).contains(version),
        forall|kept: ProtocolVersion|
            versions.contains(kept) ==> #[trigger] with_version(versions, version).contains(kept),
        versions.is_prefix_of(with_version(versions, version)),
        versions.no_duplicates() ==> with_version(versions, version).no_duplicates(),
{
    let after = with_version(versions, version);
    if !versions.contains(version) {
        assert(after[versions.len() as int] == version);
        assert forall|kept: ProtocolVersion| versions.contains(kept) implies after.contains(
            kept,
        ) by {
            let i = choose|i: int| 0 <= i < versions.len() && versions[i] == kept;
            assert(after[i] == kept);
        }
    }
}

/// The state of the storage.
pub ghost struct StorageView {
    /// The folder of the storage.
    pub path: Seq<char>,
    /// The versions of the chainspecs that the storage keeps, in the order in which they came.
    pub chainspecs: Seq<ProtocolVersion>,
}

impl View for Storage {
    type V = StorageView;

    closed spec fn view(&self) -> StorageView {
        StorageView { path: self.path@, chainspecs: self.chainspecs@ }
    }
}

impl Storage {
    /// Opens the storage that `config` describes.  A configuration without a path is refused.
    pub fn new(config: &WithDir<Config>) -> (res: Result<Self, Error>)
        ensures
            match res {
                Ok(storage) => {
                    &&& config.spec_value().path@.len() > 0
                    &&& storage@ == (StorageView {
                        path: config.spec_value().path@,
                        chainspecs: Seq::empty(),
                    })
                },
                Err(Error::MissingPath) => config.spec_value().path@.len() == 0,
            },
    {
        let path = config.value().path.clone();
        if path.as_str().is_empty() {
            return Err(Error::MissingPath);
        }
        Ok(Storage { path, chainspecs: Vec::new() })
    }

    /// The folder of the storage.
    pub fn path(&self) -> (path: &String)
        ensures
            path@ == self@.path,
    {
        &self.path
    }

    /// Whether the storage keeps the chainspec of `version`.
    pub fn has_chainspec(&self, version: ProtocolVersion) -> (kept: bool)
        ensures
            kept == self@.chainspecs.contains(version),
    {
        let mut i: usize = 0;
        while i < self.chainspecs.len()
            invariant
                i <= self.chainspecs@.len(),
                forall|j: int| 0 <= j < i ==> self.chainspecs@[j] != version,
            decreases self.chainspecs@.len() - i,
        {
            if self.chainspecs[i] == version {
                return true;
            }
            i = i + 1;
        }
        false
    }
}

impl<REv> Component<REv> for Storage {
    type Event = Event;

    type ConstructionError = Error;

    /// A chainspec that is put is kept, and the one who asked is told so.
    open spec fn transition(state: StorageView, rng: NodeRng, event: Event) -> Step<
        StorageView,
        Event,
    > {
        match event {
            Event::StorageRequest(StorageRequest::PutChainspec { version, responder }) => Step {
                state: StorageView {
                    chainspecs: with_version(state.chainspecs, version),
                    ..state
                },
                rng,
                effects: seq![
                    Effect {
                        work: Work::Respond { responder, outcome: Outcome::Success },
                        continuation: Continuation::Ignore,
                    },
                ],
            },
        }
    }

    fn handle_event(
        &mut self,
        effect_builder: EffectBuilder<REv>,
        rng: &mut NodeRng,
        event: Event,
    ) -> (effects: Effects<Event>) {
        match event {
            Event::StorageRequest(StorageRequest::PutChainspec { version, responder }) => {
                if !self.has_chainspec(version) {
                    self.chainspecs.push(version);
                }
                responder.respond(Outcome::Success).ignore()
            },
        }
    }
}

} // verus!
