//! Storage accounting: what a change in stored bytes costs, and how the
//! payment attached to a call settles against it.
use vstd::prelude::*;
use crate::error::LedgerError;

verus! {

/// The price of one byte of contract storage, in the smallest payment unit
/// (the runtime's storage byte cost).
pub const STORAGE_PRICE_PER_BYTE: u128 = 10_000_000_000_000_000_000;

/// What `bytes` bytes of storage cost.
pub open spec fn storage_cost(bytes: int) -> int {
    bytes * STORAGE_PRICE_PER_BYTE
}

/// How the payment attached to a call is split once the call is done.
#[derive(Debug, Clone, Copy, PartialEq, Eq)]
pub struct Settlement {
    /// Kept to pay for storage the call added.
    pub charged: u128,
    /// The unspent rest of the attached payment, returned to the caller.
    pub refund: u128,
    /// Returned to the caller for storage the call released.
    pub released: u128,
}

/// The storage a registered account holds: its total deposit and the part of
/// it that is free to withdraw.
#[derive(Debug, Clone, Copy, PartialEq, Eq)]
pub struct StorageBalance {
    pub total: u128,
    pub available: u128,
}

/// The deposits a registration accepts.
#[derive(Debug, Clone, Copy, PartialEq, Eq)]
pub struct StorageBalanceBounds {
    pub min: u128,
    pub max: Option<u128>,
}

/// What `bytes` bytes of storage cost; it always fits in 128 bits.
pub fn cost_of_bytes(bytes: u64) -> (r: u128)
    ensures
        r == storage_cost(bytes as int),
{
    proof {
        assert(bytes as int * STORAGE_PRICE_PER_BYTE <= u64::MAX as int * STORAGE_PRICE_PER_BYTE)
            by (nonlinear_arith)
            requires
                bytes as int <= u64::MAX as int,
        ;
    }
    (bytes as u128) * STORAGE_PRICE_PER_BYTE
}

/// The deposit bounds for accounts whose entry takes `entry_bytes` bytes: one
/// entry's cost, both as the least and as the most a registration needs.
pub fn bounds_for_entry(entry_bytes: u64) -> (r: StorageBalanceBounds)
    ensures
        r.min == storage_cost(entry_bytes as int),
        r.max == Some(r.min),
{
    let min = cost_of_bytes(entry_bytes);
    StorageBalanceBounds { min, max: Some(min) }
}

/// Settles a call whose stored state went from `before` to `after` bytes,
/// given `attached` paid with it. Growth is paid from the attached payment and
/// the call fails when that is not enough; shrinkage is returned; the unspent
/// payment is always returned.
pub fn reconcile_storage(before: u64, after: u64, attached: u128) -> (r: Result<
    Settlement,
    LedgerError,
>)
    ensures
        r is Err <==> (after > before && attached < storage_cost(after - before)),
        r is Err ==> r->Err_0 == LedgerError::InsufficientStoragePayment,
        r is Ok ==> r->Ok_0.charged == (if after > before {
            storage_cost(after - before)
        } else {
            0
        }),
        r is Ok ==> r->Ok_0.refund == attached - r->Ok_0.charged,
        r is Ok ==> r->Ok_0.released == (if after < before {
            storage_cost(before - after)
        } else {
            0
        }),
{
    if after > before {
        let cost = cost_of_bytes(after - before);
        if attached < cost {
            Err(LedgerError::InsufficientStoragePayment)
        } else {
            Ok(Settlement { charged: cost, refund: attached - cost, released: 0 })
        }
    } else {
        let released = cost_of_bytes(before - after);
        Ok(Settlement { charged: 0, refund: attached, released })
    }
}

} // verus!
