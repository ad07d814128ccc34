//! The per-record reentrancy guard.
//!
//! A record's lock flag is true exactly while one in-flight transaction is
//! between its effect phase and its commit or rollback — the window in which
//! an external interaction runs. A second acquisition of a locked record
//! fails at once, without queueing or waiting: a nested, synchronous re-entry
//! into the protocol from inside that window is refused rather than replayed.

use vstd::prelude::*;

use crate::account::RecordModel;
use crate::constraint::ValidatedHandle;
use crate::errors::ProtocolError;
use crate::registry::AccountRegistry;

verus! {

/// Take the lock of the record at `i`. Fails with `ReentrancyBlocked`, and
/// changes nothing, when the record is already locked.
pub fn acquire(reg: &mut AccountRegistry, i: usize, handle: &ValidatedHandle) -> (r: Result<
    (),
    ProtocolError,
>)
    requires
        i < old(reg)@.len(),
        handle.target() == old(reg)@[i as int].address,
    ensures
        old(reg)@[i as int].locked ==> r == Result::<(), ProtocolError>::Err(
            ProtocolError::ReentrancyBlocked,
        ) && final(reg)@ == old(reg)@,
        !old(reg)@[i as int].locked ==> r is Ok && final(reg)@ == old(reg)@.update(
            i as int,
            RecordModel { locked: true, ..old(reg)@[i as int] },
        ),
{
    if reg.record(i).locked {
        proof {
            assert(reg@ =~= old(reg)@);
        }
        Err(ProtocolError::ReentrancyBlocked)
    } else {
        reg.set_locked(i, true, handle);
        Ok(())
    }
}

/// Clear the lock of the record at `i`, at commit or rollback.
pub fn release(reg: &mut AccountRegistry, i: usize, handle: &ValidatedHandle)
    requires
        i < old(reg)@.len(),
        handle.target() == old(reg)@[i as int].address,
        old(reg)@[i as int].locked,
    ensures
        final(reg)@ == old(reg)@.update(
            i as int,
            RecordModel { locked: false, ..old(reg)@[i as int] },
        ),
{
    reg.set_locked(i, false, handle);
}

} // verus!
