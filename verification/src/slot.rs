//! The slot that each module holds, and the steps of its synchronization.

use crate::failure::{is_symbol_absent, lookup_failure, DiscoveryError};
use crate::laws::{lemma_scan_ignored_when_not_scanning, lemma_scan_split};
use crate::scan::{ProbeOutcome, ScanControl, SlotView};
use crate::symbol::{is_valid_symbol, valid_symbol};
use std::sync::Arc;
use vstd::prelude::*;

verus! {

/// Makes a second handle to the instance behind `handle`.
///
/// Trusted: `Arc::clone` is documented to return another pointer to the same
/// allocation, so the new handle stands for the value that the old one
/// stands for.
#[verifier::external_body]
fn share<T>(handle: &Arc<T>) -> (shared: Arc<T>)
    ensures
        shared == *handle,
{
    Arc::clone(handle)
}

/// The storage of a slot as its module declares it: no instance yet.
pub fn __new_container<T>() -> (container: Option<Arc<T>>)
    ensures
        container is None,
{
    None
}

/// One module's slot for a shared singleton.
///
/// Every module that declares the singleton holds a slot of its own under the
/// same symbol. A slot starts empty; [`CrossDylib::sync`] fills it with the
/// instance that another module already holds or, where none does, with a
/// new one made by the initializer.
pub struct CrossDylib<T, F> {
    syncing: bool,
    halted: bool,
    inner: Option<Arc<T>>,
    failure: Option<DiscoveryError>,
    symbol: Vec<u8>,
    init: F,
}

impl<T, F> View for CrossDylib<T, F> {
    type V = SlotView<T>;

    closed spec fn view(&self) -> SlotView<T> {
        SlotView {
            symbol: self.symbol@,
            syncing: self.syncing,
            halted: self.halted,
            instance: self.inner,
            failure: self.failure,
        }
    }
}

impl<T, F: Fn() -> T> CrossDylib<T, F> {
    /// The factory that makes the instance where this module is the first to
    /// synchronize.
    pub closed spec fn initializer(&self) -> F {
        self.init
    }

    /// An empty slot for the singleton exported as `symbol`.
    pub fn new(symbol: Vec<u8>, init: F) -> (slot: Self)
        ensures
            slot@ == SlotView::<T>::empty(symbol@),
            slot.initializer() == init,
    {
        CrossDylib {
            syncing: false,
            halted: false,
            inner: __new_container(),
            failure: None,
            symbol,
            init,
        }
    }

    /// The name under which the probe is exported.
    pub fn symbol(&self) -> (symbol: &[u8])
        ensures
            symbol@ == self@.symbol,
    {
        self.symbol.as_slice()
    }

    /// Whether the symbol can be looked up: `sync` and `begin_sync` ask for
    /// it.
    pub fn has_valid_symbol(&self) -> (valid: bool)
        ensures
            valid == valid_symbol(self@.symbol),
    {
        is_valid_symbol(self.symbol.as_slice())
    }

    /// Whether this module's scan is in progress.
    pub fn is_syncing(&self) -> (syncing: bool)
        ensures
            syncing == self@.syncing,
    {
        self.syncing
    }

    /// Whether the slot holds an instance, so that it may be dereferenced.
    pub fn is_synchronized(&self) -> (synchronized: bool)
        ensures
            synchronized == (self@.instance is Some),
    {
        self.inner.is_some()
    }

    /// A new handle to the instance.
    pub fn new_ref(&self) -> (handle: Arc<T>)
        requires
            self@.instance is Some,
        ensures
            Some(handle) == self@.instance,
    {
        share(self.inner.as_ref().unwrap())
    }

    /// The instance itself.
    pub fn deref(&self) -> (value: &T)
        requires
            self@.instance is Some,
        ensures
            *value == *self@.instance->0,
    {
        let handle: &Arc<T> = self.inner.as_ref().unwrap();
        &**handle
    }

    /// What this module answers to whoever probes it: nothing while its own
    /// scan is in progress, else a handle to its instance if it has one.
    pub fn probe(&self) -> (answer: Option<Arc<T>>)
        ensures
            answer == self@.probe(),
    {
        if self.syncing {
            None
        } else {
            match &self.inner {
                Some(handle) => Some(share(handle)),
                None => None,
            }
        }
    }

    /// Starts this module's scan: from here to `finish_sync` the module's own
    /// probe answers nothing.
    pub fn begin_sync(&mut self)
        requires
            valid_symbol(old(self)@.symbol),
        ensures
            final(self)@ == old(self)@.begin(),
            final(self).initializer() == old(self).initializer(),
    {
        self.syncing = true;
        self.halted = false;
        self.failure = None;
    }

    /// Takes the answer of the next enumerated module and says whether the
    /// enumeration goes on.
    pub fn observe(&mut self, outcome: ProbeOutcome<T>) -> (control: ScanControl)
        ensures
            final(self)@ == old(self)@.observe(outcome),
            control == old(self)@.control(outcome),
            final(self).initializer() == old(self).initializer(),
    {
        if !self.syncing || self.halted {
            return ScanControl::Stop;
        }
        match outcome {
            ProbeOutcome::OpenFailed(err) => {
                self.failure = Some(DiscoveryError::ModuleOpenFailure(err));
                self.halted = true;
                ScanControl::Stop
            },
            ProbeOutcome::LookupFailed(err) => {
                if is_symbol_absent(lookup_failure(&err)) {
                    ScanControl::Continue
                } else {
                    self.failure = Some(DiscoveryError::SymbolLookupFailure(err));
                    self.halted = true;
                    ScanControl::Stop
                }
            },
            ProbeOutcome::Answered(Some(handle)) => {
                self.inner = Some(handle);
                self.failure = None;
                self.halted = true;
                ScanControl::Stop
            },
            ProbeOutcome::Answered(None) => ScanControl::Continue,
        }
    }

    /// Ends this module's scan: the module's probe answers again, a slot that
    /// is still empty gets a new instance from the initializer, and the
    /// failure that the scan recorded, if any, is returned.
    pub fn finish_sync(&mut self) -> (result: Result<(), DiscoveryError>)
        requires
            old(self)@.needs_initializer() ==> call_requires(old(self).initializer(), ()),
        ensures
            result == old(self)@.verdict(),
            final(self)@.instance is Some,
            final(self)@ == old(self)@.finish(final(self)@.instance->0),
            old(self)@.needs_initializer() ==> call_ensures(
                old(self).initializer(),
                (),
                *final(self)@.instance->0,
            ),
            final(self).initializer() == old(self).initializer(),
    {
        self.syncing = false;
        self.halted = false;
        if self.inner.is_none() {
            let value = (self.init)();
            self.inner = Some(Arc::new(value));
        }
        match self.failure.take() {
            Some(err) => Err(err),
            None => Ok(()),
        }
    }

    /// Synchronizes the slot with the modules of the process, whose answers
    /// are given in the order of their enumeration. The first instance
    /// offered is adopted and the first fatal failure is returned, whichever
    /// comes first; answers behind it are not looked at. A slot that is
    /// empty after the scan gets a new instance from the initializer.
    pub fn sync(&mut self, outcomes: Vec<ProbeOutcome<T>>) -> (result: Result<(), DiscoveryError>)
        requires
            valid_symbol(old(self)@.symbol),
            old(self)@.begin().scan(outcomes@).needs_initializer() ==> call_requires(
                old(self).initializer(),
                (),
            ),
        ensures
            result == old(self)@.sync_verdict(outcomes@),
            final(self)@.instance is Some,
            final(self)@ == old(self)@.sync(outcomes@, final(self)@.instance->0),
            old(self)@.begin().scan(outcomes@).needs_initializer() ==> call_ensures(
                old(self).initializer(),
                (),
                *final(self)@.instance->0,
            ),
            final(self).initializer() == old(self).initializer(),
    {
        let ghost start = self@.begin();
        let ghost answers = outcomes@;
        self.begin_sync();
        proof {
            assert(answers.take(0) =~= Seq::<ProbeOutcome<T>>::empty());
            assert(answers.take(answers.len() as int) =~= answers);
        }
        for outcome in it: outcomes.into_iter()
            invariant_except_break
                self@ == start.scan(answers.take(it.index() as int)),
            invariant
                it.seq() == answers,
                answers.take(answers.len() as int) == answers,
                self.initializer() == old(self).initializer(),
                start.scan(answers).needs_initializer() ==> call_requires(self.initializer(), ()),
            ensures
                self@ == start.scan(answers),
        {
            let ghost seen = it.index() as int;
            let control = self.observe(outcome);
            proof {
                assert(answers.take(seen + 1).drop_last() =~= answers.take(seen));
            }
            if control == ScanControl::Stop {
                proof {
                    lemma_scan_split(start, answers.take(seen + 1), answers.skip(seen + 1));
                    assert(answers.take(seen + 1) + answers.skip(seen + 1) =~= answers);
                    lemma_scan_ignored_when_not_scanning(self@, answers.skip(seen + 1));
                }
                break;
            }
        }
        self.finish_sync()
    }
}

} // verus!
