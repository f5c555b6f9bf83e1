//! Error codes of the security monitor, shared with the SBI interface.
use vstd::prelude::*;

verus! {

/// Errors reported by the security monitor.  Their numeric codes, given by
/// [`Error::code`], are those of the SDK's `sm_err.h`.
#[derive(Debug, Clone, Copy, PartialEq, Eq, Structural)]
pub enum Error {
    Success,
    Unknown,
    InvalidId,
    Interrupted,
    PmpFailure,
    NotRunnable,
    NotDestroyable,
    RegionOverlaps,
    NotAccessible,
    IllegalArgument,
    NotRunning,
    NotResumable,
    EdgeCallHost,
    NotInitialized,
    NoFreeResource,
    SBIProhibited,
    IllegalPTE,
    NotFresh,
    RegionSizeInvalid,
    NotPageGranularity,
    NotAligned,
    MaxReached,
    RegionInvalid,
    RegionOverlap,
    ImpossibleTor,
    Deprecated,
    NotImplemented,
    Overlap,
    NotSupported,
    Invalid,
}

/// The numeric code of an error.
pub open spec fn error_code(e: Error) -> int {
    match e {
        Error::Success => 0,
        Error::Unknown => 100000,
        Error::InvalidId => 100001,
        Error::Interrupted => 100002,
        Error::PmpFailure => 100003,
        Error::NotRunnable => 100004,
        Error::NotDestroyable => 100005,
        Error::RegionOverlaps => 100006,
        Error::NotAccessible => 100007,
        Error::IllegalArgument => 100008,
        Error::NotRunning => 100009,
        Error::NotResumable => 100010,
        Error::EdgeCallHost => 100011,
        Error::NotInitialized => 100012,
        Error::NoFreeResource => 100013,
        Error::SBIProhibited => 100014,
        Error::IllegalPTE => 100015,
        Error::NotFresh => 100016,
        Error::RegionSizeInvalid => 10020,
        Error::NotPageGranularity => 10021,
        Error::NotAligned => 10022,
        Error::MaxReached => 10023,
        Error::RegionInvalid => 10024,
        Error::RegionOverlap => 10025,
        Error::ImpossibleTor => 10026,
        Error::Deprecated => 100099,
        Error::NotImplemented => 100100,
        Error::Overlap => 100101,
        Error::NotSupported => 100102,
        Error::Invalid => 100103,
    }
}

impl Error {
    /// The code that the SBI interface hands back for this error.
    pub fn code(&self) -> (c: isize)
        ensures
            c == error_code(*self),
    {
        match self {
            Error::Success => 0,
            Error::Unknown => 100000,
            Error::InvalidId => 100001,
            Error::Interrupted => 100002,
            Error::PmpFailure => 100003,
            Error::NotRunnable => 100004,
            Error::NotDestroyable => 100005,
            Error::RegionOverlaps => 100006,
            Error::NotAccessible => 100007,
            Error::IllegalArgument => 100008,
            Error::NotRunning => 100009,
            Error::NotResumable => 100010,
            Error::EdgeCallHost => 100011,
            Error::NotInitialized => 100012,
            Error::NoFreeResource => 100013,
            Error::SBIProhibited => 100014,
            Error::IllegalPTE => 100015,
            Error::NotFresh => 100016,
            Error::RegionSizeInvalid => 10020,
            Error::NotPageGranularity => 10021,
            Error::NotAligned => 10022,
            Error::MaxReached => 10023,
            Error::RegionInvalid => 10024,
            Error::RegionOverlap => 10025,
            Error::ImpossibleTor => 10026,
            Error::Deprecated => 100099,
            Error::NotImplemented => 100100,
            Error::Overlap => 100101,
            Error::NotSupported => 100102,
            Error::Invalid => 100103,
        }
    }
}

/// Two different errors never share a code, so the SBI caller can always
/// tell which error it was given.
pub proof fn lemma_error_codes_distinct(a: Error, b: Error)
    requires
        a != b,
    ensures
        error_code(a) != error_code(b),
{
}

/// The monitor's own errors, in the order of `sm_err.h`.
pub open spec fn monitor_errors() -> Seq<Error> {
    seq![
        Error::Unknown,
        Error::InvalidId,
        Error::Interrupted,
        Error::PmpFailure,
        Error::NotRunnable,
        Error::NotDestroyable,
        Error::RegionOverlaps,
        Error::NotAccessible,
        Error::IllegalArgument,
        Error::NotRunning,
        Error::NotResumable,
        Error::EdgeCallHost,
        Error::NotInitialized,
        Error::NoFreeResource,
        Error::SBIProhibited,
        Error::IllegalPTE,
        Error::NotFresh,
    ]
}

/// The errors of the memory-protection layer, in the order of `sm_err.h`.
pub open spec fn protection_errors() -> Seq<Error> {
    seq![
        Error::RegionSizeInvalid,
        Error::NotPageGranularity,
        Error::NotAligned,
        Error::MaxReached,
        Error::RegionInvalid,
        Error::RegionOverlap,
        Error::ImpossibleTor,
    ]
}

/// The generic errors, in the order of `sm_err.h`.
pub open spec fn generic_errors() -> Seq<Error> {
    seq![Error::Deprecated, Error::NotImplemented, Error::Overlap, Error::NotSupported, Error::Invalid]
}

/// Every error has its `sm_err.h` code: success is 0, and each of the three
/// groups counts up by one from its base in the order the header lists it
/// (the monitor's errors from 100000, the protection errors from 10020,
/// the generic ones from 100099). Every error other than success lies in
/// one of the groups.
pub proof fn lemma_error_codes_sdk()
    ensures
        error_code(Error::Success) == 0,
        forall|i: int| 0 <= i < monitor_errors().len() ==> error_code(#[trigger] monitor_errors()[i]) == 100000 + i,
        forall|i: int| 0 <= i < protection_errors().len() ==> error_code(#[trigger] protection_errors()[i]) == 10020 + i,
        forall|i: int| 0 <= i < generic_errors().len() ==> error_code(#[trigger] generic_errors()[i]) == 100099 + i,
        forall|e: Error| e != Error::Success ==> #[trigger] monitor_errors().contains(e) || protection_errors().contains(e) || generic_errors().contains(e),
{
    let a = monitor_errors();
    let b = protection_errors();
    let c = generic_errors();
    assert forall|i: int| 0 <= i < a.len() implies error_code(#[trigger] a[i]) == 100000 + i by {
        if i == 0 { } else if i == 1 { } else if i == 2 { } else if i == 3 { } else if i == 4 { }
        else if i == 5 { } else if i == 6 { } else if i == 7 { } else if i == 8 { } else if i == 9 { }
        else if i == 10 { } else if i == 11 { } else if i == 12 { } else if i == 13 { } else if i == 14 { }
        else if i == 15 { } else { }
    }
    assert forall|i: int| 0 <= i < b.len() implies error_code(#[trigger] b[i]) == 10020 + i by {
        if i == 0 { } else if i == 1 { } else if i == 2 { } else if i == 3 { } else if i == 4 { }
        else if i == 5 { } else { }
    }
    assert forall|i: int| 0 <= i < c.len() implies error_code(#[trigger] c[i]) == 100099 + i by {
        if i == 0 { } else if i == 1 { } else if i == 2 { } else if i == 3 { } else { }
    }
    assert forall|e: Error| e != Error::Success implies #[trigger] a.contains(e) || b.contains(e) || c.contains(e) by {
        match e {
            Error::Success => {},
            Error::Unknown => assert(a[0] == e),
            Error::InvalidId => assert(a[1] == e),
            Error::Interrupted => assert(a[2] == e),
            Error::PmpFailure => assert(a[3] == e),
            Error::NotRunnable => assert(a[4] == e),
            Error::NotDestroyable => assert(a[5] == e),
            Error::RegionOverlaps => assert(a[6] == e),
            Error::NotAccessible => assert(a[7] == e),
            Error::IllegalArgument => assert(a[8] == e),
            Error::NotRunning => assert(a[9] == e),
            Error::NotResumable => assert(a[10] == e),
            Error::EdgeCallHost => assert(a[11] == e),
            Error::NotInitialized => assert(a[12] == e),
            Error::NoFreeResource => assert(a[13] == e),
            Error::SBIProhibited => assert(a[14] == e),
            Error::IllegalPTE => assert(a[15] == e),
            Error::NotFresh => assert(a[16] == e),
            Error::RegionSizeInvalid => assert(b[0] == e),
            Error::NotPageGranularity => assert(b[1] == e),
            Error::NotAligned => assert(b[2] == e),
            Error::MaxReached => assert(b[3] == e),
            Error::RegionInvalid => assert(b[4] == e),
            Error::RegionOverlap => assert(b[5] == e),
            Error::ImpossibleTor => assert(b[6] == e),
            Error::Deprecated => assert(c[0] == e),
            Error::NotImplemented => assert(c[1] == e),
            Error::Overlap => assert(c[2] == e),
            Error::NotSupported => assert(c[3] == e),
            Error::Invalid => assert(c[4] == e),
        }
    }
}

} // verus!
