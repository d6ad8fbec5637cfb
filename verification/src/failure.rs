//! Failures of the symbol resolver, and which of them end a discovery scan.

use vstd::prelude::*;

verus! {

/// The error type of the `libloading` crate, carried through unopened.
#[verifier::external_type_specification]
#[verifier::external_body]
pub struct ExLoadError(libloading::Error);

/// What a failed symbol lookup reported, as far as the protocol tells
/// failures apart.
#[derive(Clone, Copy, Debug, PartialEq, Eq, Structural)]
pub enum LookupFailure {
    /// `dlsym` failed and the system described the failure.
    DlSym,
    /// `dlsym` failed and the system reported nothing.
    DlSymUnknown,
    /// `GetProcAddress` failed and the system described the failure.
    GetProcAddress,
    /// `GetProcAddress` failed and the system reported nothing.
    GetProcAddressUnknown,
    /// Any other failure: the name could not even be handed to the system,
    /// or the requested type cannot fit the symbol.
    Other,
}

/// The variant of `libloading::Error` that `err` is, reduced to
/// [`LookupFailure`].
pub uninterp spec fn lookup_failure_of(err: libloading::Error) -> LookupFailure;

/// Tells the variants of `libloading::Error` apart.
///
/// Trusted: it is taken on faith that the result is the variant of `err`,
/// where `DlSym`, `DlSymUnknown`, `GetProcAddress` and
/// `GetProcAddressUnknown` keep their names and every other variant is
/// `Other`.
#[verifier::external_body]
pub(crate) fn lookup_failure(err: &libloading::Error) -> (kind: LookupFailure)
    ensures
        kind == lookup_failure_of(*err),
{
    match err {
        libloading::Error::DlSym { .. } => LookupFailure::DlSym,
        libloading::Error::DlSymUnknown => LookupFailure::DlSymUnknown,
        libloading::Error::GetProcAddress { .. } => LookupFailure::GetProcAddress,
        libloading::Error::GetProcAddressUnknown => LookupFailure::GetProcAddressUnknown,
        _ => LookupFailure::Other,
    }
}

/// A lookup failure means "this module does not export the symbol" exactly
/// when the system's own lookup call is what failed.
pub open spec fn symbol_absent(kind: LookupFailure) -> bool {
    kind is DlSym || kind is DlSymUnknown || kind is GetProcAddress
        || kind is GetProcAddressUnknown
}

/// Whether a lookup failure only says that the module lacks the symbol.
pub fn is_symbol_absent(kind: LookupFailure) -> (absent: bool)
    ensures
        absent == symbol_absent(kind),
{
    match kind {
        LookupFailure::DlSym => true,
        LookupFailure::DlSymUnknown => true,
        LookupFailure::GetProcAddress => true,
        LookupFailure::GetProcAddressUnknown => true,
        LookupFailure::Other => false,
    }
}

/// Whether a failed lookup is fatal to the scan: every failure but an absent
/// symbol is.
pub open spec fn lookup_is_fatal(err: libloading::Error) -> bool {
    !symbol_absent(lookup_failure_of(err))
}

/// Why a discovery scan was abandoned.
#[derive(Debug)]
pub enum DiscoveryError {
    /// A module that the process has mapped could not be opened.
    ModuleOpenFailure(libloading::Error),
    /// Resolving the probe symbol failed for another reason than its absence.
    SymbolLookupFailure(libloading::Error),
}

impl DiscoveryError {
    /// The resolver's own error.
    pub open spec fn source(self) -> libloading::Error {
        match self {
            DiscoveryError::ModuleOpenFailure(err) => err,
            DiscoveryError::SymbolLookupFailure(err) => err,
        }
    }

    /// Gives the resolver's own error back.
    pub fn into_source(self) -> (err: libloading::Error)
        ensures
            err == self.source(),
    {
        match self {
            DiscoveryError::ModuleOpenFailure(err) => err,
            DiscoveryError::SymbolLookupFailure(err) => err,
        }
    }
}

} // verus!
