//! Block time.

use vstd::prelude::*;

verus! {

/// Nanoseconds in one second.
pub const NANOS_PER_SECOND: u64 = 1_000_000_000;

/// The whole seconds in `nanos` nanoseconds.
pub open spec fn seconds_spec(nanos: u64) -> nat {
    (nanos / NANOS_PER_SECOND) as nat
}

/// The whole seconds of a block time given in nanoseconds since the epoch.
///
/// Trusted: the body asks `cosmwasm_std::Timestamp::seconds` of the timestamp
/// that `cosmwasm_std::Timestamp::from_nanos` makes of `nanos`. The contract
/// claims that the answer is `nanos` divided by one thousand million, the
/// remainder dropped.
#[verifier::external_body]
pub(crate) fn block_seconds(nanos: u64) -> (seconds: u64)
    ensures
        seconds as nat == seconds_spec(nanos),
{
    cosmwasm_std::Timestamp::from_nanos(nanos).seconds()
}

} // verus!
