use crossdylib::{
    is_symbol_absent, CrossDylib, DiscoveryError, LookupFailure, ProbeOutcome, ScanControl,
    probe_symbol,
};
use libloading::Error;
use std::sync::atomic::{AtomicUsize, Ordering};
use std::sync::Arc;

fn slot(calls: &Arc<AtomicUsize>) -> CrossDylib<u32, Box<dyn Fn() -> u32>> {
    let calls = Arc::clone(calls);
    CrossDylib::new(
        probe_symbol(b"answer"),
        Box::new(move || {
            calls.fetch_add(1, Ordering::SeqCst);
            39
        }),
    )
}

#[test]
fn only_failed_system_lookups_mean_absent() {
    assert!(is_symbol_absent(LookupFailure::DlSym));
    assert!(is_symbol_absent(LookupFailure::DlSymUnknown));
    assert!(is_symbol_absent(LookupFailure::GetProcAddress));
    assert!(is_symbol_absent(LookupFailure::GetProcAddressUnknown));
    assert!(!is_symbol_absent(LookupFailure::Other));
}

#[test]
fn absent_symbol_is_skipped() {
    let calls = Arc::new(AtomicUsize::new(0));
    let held = Arc::new(40u32);
    let mut s = slot(&calls);
    s.begin_sync();
    assert_eq!(s.observe(ProbeOutcome::LookupFailed(Error::DlSymUnknown)), ScanControl::Continue);
    assert_eq!(
        s.observe(ProbeOutcome::LookupFailed(Error::GetProcAddressUnknown)),
        ScanControl::Continue
    );
    assert_eq!(
        s.observe(ProbeOutcome::LookupFailed(Error::DlSym { desc: c"undefined symbol".into() })),
        ScanControl::Continue
    );
    assert!(s.is_syncing());
    assert!(!s.is_synchronized());
    assert_eq!(s.observe(ProbeOutcome::Answered(Some(Arc::clone(&held)))), ScanControl::Stop);
    assert!(s.finish_sync().is_ok());
    assert!(Arc::ptr_eq(&s.new_ref(), &held));
    assert_eq!(calls.load(Ordering::SeqCst), 0);
}

#[test]
fn other_lookup_failures_are_fatal() {
    let calls = Arc::new(AtomicUsize::new(0));
    let mut s = slot(&calls);
    s.begin_sync();
    assert_eq!(s.observe(ProbeOutcome::LookupFailed(Error::IncompatibleSize)), ScanControl::Stop);
    let result = s.finish_sync();
    assert!(matches!(
        result,
        Err(DiscoveryError::SymbolLookupFailure(Error::IncompatibleSize))
    ));
    assert!(matches!(result.unwrap_err().into_source(), Error::IncompatibleSize));
}

#[test]
fn errors_of_other_calls_are_fatal_as_lookup_failures() {
    let fatal = [Error::DlOpenUnknown, Error::DlCloseUnknown, Error::FreeLibraryUnknown];
    for err in fatal {
        let calls = Arc::new(AtomicUsize::new(0));
        let mut s = slot(&calls);
        s.begin_sync();
        assert_eq!(s.observe(ProbeOutcome::LookupFailed(err)), ScanControl::Stop);
        assert!(matches!(s.finish_sync(), Err(DiscoveryError::SymbolLookupFailure(_))));
    }
}

#[test]
fn module_that_cannot_be_opened_is_fatal() {
    let calls = Arc::new(AtomicUsize::new(0));
    let later = Arc::new(7u32);
    let mut s = slot(&calls);
    s.begin_sync();
    assert_eq!(s.observe(ProbeOutcome::Answered(None)), ScanControl::Continue);
    assert_eq!(s.observe(ProbeOutcome::OpenFailed(Error::DlOpenUnknown)), ScanControl::Stop);
    assert_eq!(s.observe(ProbeOutcome::Answered(Some(Arc::clone(&later)))), ScanControl::Stop);
    let result = s.finish_sync();
    assert!(matches!(result, Err(DiscoveryError::ModuleOpenFailure(Error::DlOpenUnknown))));
    assert_eq!(Arc::strong_count(&later), 1);
}

#[test]
fn open_failure_with_an_absent_symbol_error_is_still_fatal() {
    let calls = Arc::new(AtomicUsize::new(0));
    let mut s = slot(&calls);
    s.begin_sync();
    assert_eq!(s.observe(ProbeOutcome::OpenFailed(Error::DlSymUnknown)), ScanControl::Stop);
    assert!(matches!(
        s.finish_sync(),
        Err(DiscoveryError::ModuleOpenFailure(Error::DlSymUnknown))
    ));
}

#[test]
fn failed_sync_still_fills_an_empty_slot() {
    let calls = Arc::new(AtomicUsize::new(0));
    let mut s = slot(&calls);
    let result = s.sync(vec![ProbeOutcome::OpenFailed(Error::DlOpenUnknown)]);
    assert!(matches!(result, Err(DiscoveryError::ModuleOpenFailure(Error::DlOpenUnknown))));
    assert!(s.is_synchronized());
    assert!(!s.is_syncing());
    assert_eq!(*s.deref(), 39);
    assert_eq!(calls.load(Ordering::SeqCst), 1);
}

#[test]
fn failed_sync_keeps_an_instance_already_held() {
    let calls = Arc::new(AtomicUsize::new(0));
    let mut s = slot(&calls);
    s.sync(Vec::new()).unwrap();
    let before = s.new_ref();
    let offered = Arc::new(1u32);
    let result = s.sync(vec![
        ProbeOutcome::LookupFailed(Error::IncompatibleSize),
        ProbeOutcome::Answered(Some(Arc::clone(&offered))),
    ]);
    assert!(matches!(result, Err(DiscoveryError::SymbolLookupFailure(Error::IncompatibleSize))));
    assert!(Arc::ptr_eq(&before, &s.new_ref()));
    assert_eq!(calls.load(Ordering::SeqCst), 1);
}

#[test]
fn failure_of_one_scan_does_not_reach_the_next() {
    let calls = Arc::new(AtomicUsize::new(0));
    let mut s = slot(&calls);
    assert!(s.sync(vec![ProbeOutcome::OpenFailed(Error::DlOpenUnknown)]).is_err());
    assert!(s.sync(vec![ProbeOutcome::Answered(None)]).is_ok());
    s.begin_sync();
    assert_eq!(s.observe(ProbeOutcome::OpenFailed(Error::DlOpenUnknown)), ScanControl::Stop);
    s.begin_sync();
    assert_eq!(s.observe(ProbeOutcome::Answered(None)), ScanControl::Continue);
    assert!(s.finish_sync().is_ok());
}
