//! The discovery scan as mathematics: what a slot is, and what each answer of
//! an enumerated module does to it.

use crate::failure::{lookup_is_fatal, DiscoveryError};
use std::sync::Arc;
use vstd::prelude::*;

verus! {

/// What became of asking one enumerated module for its instance.
pub enum ProbeOutcome<T> {
    /// The module could not be opened.
    OpenFailed(libloading::Error),
    /// The module was opened, but its probe could not be resolved.
    LookupFailed(libloading::Error),
    /// The module's probe was called and gave this answer: a handle to its
    /// instance, or nothing where it has none or is itself synchronizing.
    Answered(Option<Arc<T>>),
}

/// Whether the enumeration of modules goes on after an answer.
#[derive(Clone, Copy, Debug, PartialEq, Eq, Structural)]
pub enum ScanControl {
    /// Ask the next module.
    Continue,
    /// Ask no further module.
    Stop,
}

impl<T> ProbeOutcome<T> {
    /// The outcomes that end a scan: the first instance found, and every
    /// failure but an absent symbol.
    pub open spec fn is_decisive(self) -> bool {
        match self {
            ProbeOutcome::OpenFailed(_) => true,
            ProbeOutcome::LookupFailed(err) => lookup_is_fatal(err),
            ProbeOutcome::Answered(answer) => answer is Some,
        }
    }

    /// The instance that a scan adopts from this outcome, if it holds one.
    pub open spec fn offered(self) -> Option<Arc<T>> {
        match self {
            ProbeOutcome::Answered(answer) => answer,
            _ => None,
        }
    }

    /// The failure that a scan records from this outcome, if it is one.
    pub open spec fn failure(self) -> Option<DiscoveryError> {
        match self {
            ProbeOutcome::OpenFailed(err) => Some(DiscoveryError::ModuleOpenFailure(err)),
            ProbeOutcome::LookupFailed(err) => if lookup_is_fatal(err) {
                Some(DiscoveryError::SymbolLookupFailure(err))
            } else {
                None
            },
            ProbeOutcome::Answered(_) => None,
        }
    }
}

/// The least index below `bound` at which `outcomes` holds a decisive answer,
/// or `bound` where it holds none there.
pub open spec fn first_decisive<T>(outcomes: Seq<ProbeOutcome<T>>, bound: int) -> int
    recommends
        0 <= bound <= outcomes.len(),
    decreases bound,
{
    if bound <= 0 {
        0
    } else {
        let before = first_decisive(outcomes, bound - 1);
        if before < bound - 1 || outcomes[bound - 1].is_decisive() {
            before
        } else {
            bound
        }
    }
}

/// The state of one module's slot.
pub struct SlotView<T> {
    /// The name under which every copy exports its probe.
    pub symbol: Seq<u8>,
    /// True from the start of this module's scan to its end.
    pub syncing: bool,
    /// True once the scan in progress has met a decisive outcome.
    pub halted: bool,
    /// The shared instance, once there is one.
    pub instance: Option<Arc<T>>,
    /// The failure that the scan in progress has recorded.
    pub failure: Option<DiscoveryError>,
}

impl<T> SlotView<T> {
    /// A slot as its module declares it: empty and at rest.
    pub open spec fn empty(symbol: Seq<u8>) -> Self {
        SlotView { symbol, syncing: false, halted: false, instance: None, failure: None }
    }

    /// Whether the slot is at rest: no scan is in progress and none has left
    /// anything behind.
    pub open spec fn at_rest(self) -> bool {
        !self.syncing && !self.halted && self.failure is None
    }

    /// What the module's probe answers to whoever calls it: nothing while the
    /// module is itself scanning, else its instance if it has one.
    pub open spec fn probe(self) -> Option<Arc<T>> {
        if self.syncing {
            None
        } else {
            self.instance
        }
    }

    /// The slot at the start of a scan.
    pub open spec fn begin(self) -> Self {
        SlotView { syncing: true, halted: false, failure: None, ..self }
    }

    /// Whether the scan in progress still takes answers.
    pub open spec fn scanning(self) -> bool {
        self.syncing && !self.halted
    }

    /// The slot after one module has answered. A slot that is not scanning
    /// ignores the answer; a scanning one adopts the first instance offered,
    /// records the first failure, and passes over everything else.
    pub open spec fn observe(self, outcome: ProbeOutcome<T>) -> Self {
        if self.scanning() && outcome.is_decisive() {
            SlotView {
                halted: true,
                instance: if outcome.offered() is Some {
                    outcome.offered()
                } else {
                    self.instance
                },
                failure: outcome.failure(),
                ..self
            }
        } else {
            self
        }
    }

    /// What the enumeration is told after one module has answered.
    pub open spec fn control(self, outcome: ProbeOutcome<T>) -> ScanControl {
        if self.scanning() && !outcome.is_decisive() {
            ScanControl::Continue
        } else {
            ScanControl::Stop
        }
    }

    /// The slot after the modules have answered in the order given.
    pub open spec fn scan(self, outcomes: Seq<ProbeOutcome<T>>) -> Self
        decreases outcomes.len(),
    {
        if outcomes.len() == 0 {
            self
        } else {
            self.scan(outcomes.drop_last()).observe(outcomes.last())
        }
    }

    /// Whether the end of the scan has to create the instance.
    pub open spec fn needs_initializer(self) -> bool {
        self.instance is None
    }

    /// What the scan reports to the caller of `sync`.
    pub open spec fn verdict(self) -> Result<(), DiscoveryError> {
        match self.failure {
            Some(err) => Err(err),
            None => Ok(()),
        }
    }

    /// The slot at the end of a scan, where `fresh` is what the initializer
    /// makes if it is run: it is run only when nothing was adopted and the
    /// slot held nothing before.
    pub open spec fn finish(self, fresh: Arc<T>) -> Self {
        SlotView {
            syncing: false,
            halted: false,
            instance: if self.needs_initializer() {
                Some(fresh)
            } else {
                self.instance
            },
            failure: None,
            ..self
        }
    }

    /// One whole synchronization.
    pub open spec fn sync(self, outcomes: Seq<ProbeOutcome<T>>, fresh: Arc<T>) -> Self {
        self.begin().scan(outcomes).finish(fresh)
    }

    /// What one whole synchronization returns.
    pub open spec fn sync_verdict(self, outcomes: Seq<ProbeOutcome<T>>) -> Result<
        (),
        DiscoveryError,
    > {
        self.begin().scan(outcomes).verdict()
    }
}

} // verus!
